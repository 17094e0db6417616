//! RTC signalling structures: session descriptions, ICE, track requests.
//!
//! Naming: `tid` is a track id, `sid` a server-assigned id, `cid` a client
//! id, `pid` a participant id.

use crate::proto::models::{
    BackupCodecPolicy, DataTrackInfo, Encryption, PacketTrailerFeature, ParticipantTrack, Track,
    TrackInfo, VideoLayer, VideoLayerMode, VideoQuality,
};
use crate::proto::ClientId;
use std::collections::HashMap;
use vstd::prelude::*;

verus! {

/// Serialized ICE candidate.
pub type IceCandidate = String;

/// SDP session description.
pub struct SessionDescription {
    /// Kind of description
    pub ty: SessionDescType,
    /// Full SDP text
    pub sdp: String,
    /// Session id
    pub id: String,
    /// MID (media id) -> track id, relating media sections and tracks under
    /// simulcast
    pub mid_to_track_id: HashMap<String, String>,
}

/// Kind of SDP description.
pub enum SessionDescType {
    /// SDP offer
    Offer,
    /// SDP answer
    Answer,
    /// SDP pre-answer
    PrAnswer,
    /// SDP rollback
    Rollback,
}

/// ICE candidate request.
pub struct TrickleRequest {
    /// Serialized ICE candidate
    pub candidate: IceCandidate,
    /// Target session
    pub target: SignalTarget,
    /// Whether this is the last candidate
    pub is_final: bool,
}

pub enum SignalTarget {
    /// Publisher session
    Publisher,
    /// Subscriber session
    Subscriber,
}

/// Request to publish a new track (or a new codec of a published track).
///
/// A camera track: `cid: "my-camera-1", name: "camera", type: VIDEO,
/// width: 1920, height: 1080, source: CAMERA, encryption: GCM,
/// stream: "main-stream"`. A simulcast track lists its codecs, each with its
/// layers, and a backup codec policy.
pub struct AddTrackRequest {
    /// Client id of the track, matched against the RTC track when it arrives
    pub cid: ClientId,
    /// Track id the server already assigned, when a new codec is published
    /// for an existing track (such as an added simulcast layer)
    pub sid: String,
    /// Name of the track
    pub name: String,
    /// Kind of track: Data, Audio, Video
    pub ty: Track,
    /// Layers of a single-codec simulcast track (resolutions)
    pub layers: Vec<VideoLayer>,
    /// Multi-codec simulcast (such as VP8 + H264): each codec with its
    /// client id, layers and layer mode
    pub simulcast_codecs: Vec<SimulcastCodec>,
    /// What to do for subscribers that cannot take the primary codec
    pub backup_codec_policy: BackupCodecPolicy,
    /// End-to-end encryption
    pub encryption: Encryption,
    /// Stream group (camera + microphone, screen + screen audio); inferred
    /// from the source when empty
    pub stream: String,
    /// Packet trailer features
    pub packet_trailer_features: Vec<PacketTrailerFeature>,
}

pub struct SimulcastCodec {
    /// Codec name, such as "VP8" or "H264"
    pub codec: String,
    /// Track id of the codec
    pub tid: String,
    /// Layers of the codec
    pub layers: Vec<VideoLayer>,
    /// Layer mode of the codec
    pub video_layer_mode: VideoLayerMode,
}

pub struct MuteTrackRequest {
    /// Track id
    pub tid: String,
    /// Whether to mute
    pub muted: bool,
}

pub struct UpdateSubscription {
    /// Tracks to (un)subscribe
    pub tids: Vec<String>,
    /// Whether to subscribe
    pub subscribe: bool,
    pub participant_tracks: Vec<ParticipantTrack>,
}

pub struct UpdateTrackSettings {
    /// Tracks to update
    pub tids: Vec<String>,
    /// Whether the tracks are disabled
    pub disabled: bool,
    /// Video quality
    pub quality: VideoQuality,
    pub height: u32,
    pub width: u32,
    /// Frame rate
    pub fps: u32,
    /// Subscription priority: 1 is the highest, 0 unset (the server then
    /// assigns one by subscription order). Past the per-participant limit, or
    /// under congestion, the lowest-priority tracks are paused first.
    pub priority: u32,
}

pub struct RegionSettings {
    pub region: String,
    pub url: String,
    pub distance: i64,
}

pub enum LeaveAction {
    /// The session ends at once and every track is removed (local or remote
    /// leave, or no resume / reconnect possible)
    Disconnect,
    /// The transport is alive and only media was paused: restart sending
    /// and decoding, with no ICE or DTLS renegotiation
    Resume,
    /// The transport is gone (network change, ICE timeout, NAT rebinding):
    /// ICE restart, new SDP exchange, new DTLS and RTP context
    Reconnect,
}

pub struct TrackPermission {
    /// Participant that owns the tracks
    pub pid: String,
    pub all_tracks: bool,
    pub tids: Vec<String>,
}

pub struct SubscriptionPermission {
    pub all_participants: bool,
    pub track_permissions: Vec<TrackPermission>,
}

pub struct TrackPublishedResponse {
    pub cid: String,
    pub track: TrackInfo,
}

pub struct DataChannelInfo {
    pub id: String,
    pub target: SignalTarget,
    pub msg: String,
}

/// Receive state of a data channel.
pub struct DataChannelReceiveState {
    /// Data channel id of the publisher
    pub id: String,
    /// Last sequence number received
    pub last_seq: u64,
}

pub struct PublishDataTrackResponse {
    pub info: DataTrackInfo,
}

pub struct DataTrackSubscriptionOptions {
    pub fps: Option<u64>,
}

pub struct UpdateDataSubscription {
    pub tid: String,
    pub subscribe: bool,
    pub options: Vec<DataTrackSubscriptionOptions>,
}

pub struct SyncState {
    pub answer: SessionDescription,
    pub subscription: UpdateSubscription,
    pub publish_tracks: Vec<TrackPublishedResponse>,
    pub data_channels: DataChannelInfo,
    pub offer: SessionDescription,
    pub tids_disabled: Vec<String>,
    pub datachannel_receive_states: Vec<DataChannelReceiveState>,
    pub publish_data_tracks: Vec<PublishDataTrackResponse>,
    pub data_subscriptions: Vec<UpdateDataSubscription>,
}

} // verus!
