//! The send path of the QUIC endpoint's UDP socket.
//!
//! The QUIC stack hands over a batch of packets; they are sent one by one
//! with non-blocking sends. A packet counts as sent only when all of its
//! bytes went out; the first packet that does not (partial send, full
//! buffer, any error) ends the batch, and the stack retries the rest later.

use vstd::prelude::*;

verus! {

/// What the send loop does after one packet's send attempt.
#[derive(Debug, Clone, Copy, PartialEq, Eq, Structural)]
pub enum SendStep {
    /// The packet went out whole: go on with this many packets sent
    Next(usize),
    /// Stop the batch: this many packets were sent
    Stop(usize),
}

/// After `sent` packets went out, the next packet (`pkt_len` bytes) was
/// handed to the socket, which reported `result` (bytes written, or `None`
/// on an error).
pub fn after_send(sent: usize, pkt_len: usize, result: Option<usize>) -> (r: SendStep)
    requires
        sent < usize::MAX,
    ensures
        r == (if result == Some(pkt_len) {
            SendStep::Next((sent + 1) as usize)
        } else {
            SendStep::Stop(sent)
        }),
{
    match result {
        Some(n) if n == pkt_len => SendStep::Next(sent + 1),
        _ => SendStep::Stop(sent),
    }
}

} // verus!
