use vstd::prelude::*;

verus! {

/// Session state of the client: written by the transport callbacks, read
/// by the event loop to know when it is done.
#[derive(Debug)]
pub struct ClientState {
    /// Whether the connection is established (handshake done)
    pub established: bool,
    /// Id of the bidirectional stream opened
    pub stream_id: Option<u64>,
    /// Whether the message was sent
    pub sent: bool,
    /// The echoed message
    pub received: Option<Vec<u8>>,
}

impl Default for ClientState {
    /// Nothing happened yet.
    fn default() -> (r: Self)
        ensures
            !r.established,
            r.stream_id is None,
            !r.sent,
            r.received is None,
    {
        ClientState { established: false, stream_id: None, sent: false, received: None }
    }
}

impl ClientState {
    /// Records what one readable event of the stream yielded (all the bytes
    /// read until the end of the stream or until nothing more was ready).
    /// Nothing read records nothing.
    pub fn record_received(&mut self, data: Vec<u8>)
        ensures
            final(self).established == old(self).established,
            final(self).stream_id == old(self).stream_id,
            final(self).sent == old(self).sent,
            final(self).received == (if data@.len() == 0 {
                old(self).received
            } else {
                Some(data)
            }),
    {
        if data.len() != 0 {
            self.received = Some(data);
        }
    }

    /// The event loop is done once an echo came back.
    pub fn is_done(&self) -> (r: bool)
        ensures
            r == self.received is Some,
    {
        self.received.is_some()
    }
}

} // verus!
