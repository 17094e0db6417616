//! Media model: tracks, layers, codecs and data tracks.

use vstd::prelude::*;

verus! {

/// Kind of track.
/// - Data: non-audio, non-video data
/// - Audio: audio data
/// - Video: video data
pub enum Track {
    Data,
    Audio(AudioTrack),
    Video(VideoTrack),
}

pub struct AudioTrack {
    /// Whether RED (redundant encoding, against audio loss) is disabled
    pub disable_red: bool,
    /// Whether the track is muted
    pub muted: bool,
    /// Where the track comes from
    pub source: TrackSource,
    pub audio_features: Vec<AudioTrackFeature>,
}

/// Features of an audio track.
/// - STERED: stereo encoding
/// - NoDtx: no DTX
/// - AutoGainControl: automatic gain control
/// - EchoCancellation: echo cancellation
/// - NoiseSuppression: noise suppression
/// - EnhanceNoiseCancellation: enhanced noise cancellation
/// - PreconnectBuffer: pre-connection buffer
pub enum AudioTrackFeature {
    STERED,
    NoDtx,
    AutoGainControl,
    EchoCancellation,
    NoiseSuppression,
    EnhanceNoiseCancellation,
    PreconnectBuffer,
}

pub struct VideoTrack {
    /// Height of the video
    pub height: u32,
    /// Width of the video
    pub width: u32,
    /// Whether the track is muted
    pub muted: bool,
    /// Where the track comes from
    pub source: TrackSource,
}

/// Where a track comes from.
pub enum TrackSource {
    Unknown,
    Camera,
    Microphone,
    ScreenShare,
    ScreenShareAudio,
}

pub struct VideoLayer {
    /// Encoding quality of the layer
    pub quality: VideoQuality,
    /// Height of the layer
    pub height: u32,
    /// Width of the layer
    pub width: u32,
    /// Bitrate of the layer
    pub bitrate: u32,
    /// RTP synchronization source (RFC 3550) of the layer: every independent
    /// video stream has its own; SFUs and receivers tell streams, simulcast
    /// streams and SVC spatial layers apart by it, and RTCP feedback (RR, SR,
    /// NACK, PLI) names the stream by it.
    pub ssrc: u32,
    /// Spatial layer: 0 lowest (the base layer, always decoded), 1 medium,
    /// 2 highest
    pub spatial_layer: i32,
    /// RID of the layer
    pub rid: String,
    /// SSRC of the repair (RTX / FEC) stream of this layer; 0 when the layer
    /// has no retransmission stream
    pub repair_ssrc: u32,
}

/// How spatial layers map to streams.
pub enum VideoLayerMode {
    /// No layer mode
    UnUsed,
    /// One spatial layer per stream
    OneSpatialLayerPerStream,
    /// Several spatial layers per stream
    MultipleSpatialLayersPerStream,
    /// One spatial layer per stream; layer 0 must be decoded
    OneSpatialLayerPerStreamIncompleteRTCPSR,
}

/// Encoding quality of a video track.
pub enum VideoQuality {
    Low,
    Medium,
    High,
    Off,
}

/// What a publisher does for subscribers that cannot take the primary codec.
pub enum BackupCodecPolicy {
    /// Default: prefer falling back to the backup codec for every subscriber
    /// (the SFU tries, without guarantee)
    PreferRegression,
    /// Encode and send both the primary and the backup codec
    Simulcast,
    /// Always fall back to the backup codec
    Regression,
}

/// End-to-end encryption.
pub enum Encryption {
    /// No end-to-end encryption
    Unencrypted,
    /// GCM
    GCM,
    /// Custom scheme
    Custom(String),
}

/// Packet trailer features: extra data appended to each RTP packet, such as
/// in end-to-end encrypted sessions.
pub enum PacketTrailerFeature {
    /// User timestamp
    PTFUserTimestamp,
    /// Frame id
    PTFFrameId,
    /// User data
    PTFUserData,
}

pub struct ParticipantTrack {
    /// Participant that owns the track
    pub pid: String,
    /// Track id
    pub tid: String,
}

pub struct SimulcastCodecInfo {
    /// MIME type of the codec
    pub mime_type: String,
    pub mid: String,
    /// Client id of the codec
    pub cid: String,
    pub layers: Vec<VideoLayer>,
    pub video_layer_mode: VideoLayerMode,
    /// The client id used in the SDP offer, filled only when it differs from
    /// `cid` (the one of the signalling request)
    pub sdp_cid: String,
}

/// Version of a track.
pub struct TimedVersion {
    /// Version timestamp (microseconds)
    pub unix_micro: u64,
    /// Version ticks
    pub ticks: u64,
}

pub struct TrackInfo {
    /// Track id
    pub tid: String,
    /// Kind of track
    pub ty: Track,
    pub name: String,
    pub mime_type: String,
    pub mid: String,
    /// Codecs
    pub codecs: Vec<SimulcastCodecInfo>,
    /// End-to-end encryption
    pub encryption: Encryption,
    pub stream: String,
    /// Version of the track
    pub version: TimedVersion,
    pub backup_codec_policy: BackupCodecPolicy,
    pub packet_trailer_features: Vec<PacketTrailerFeature>,
}

/// Frame encoding of a data track.
pub enum DataTrackFrameEncoding {
    UnSpecified,
    ROS1,
    CDR,
    Protobuf,
    FlatBuffer,
    CBOR,
    MsgPack,
    Json,
    Custom(String),
}

/// Schema encoding of a data track.
pub enum DataTrackSchemaEncoding {
    UnSpecified,
    Protobuf,
    FlatBuffer,
    ROS1Msg,
    ROS2Msg,
    ROS2Idl,
    OMGIdl,
    Json,
    Custom(String),
}

pub struct DataTrackSchemaId {
    pub name: String,
    pub encoding: DataTrackSchemaEncoding,
}

pub struct DataTrackInfo {
    pub sid: String,
    pub name: String,
    /// 16-bit handle chosen by the client, attached to the publisher's packets
    pub pub_handle: u64,
    pub encryption: Encryption,
    /// Frame encoding of the data track
    pub frame_encoding: Option<DataTrackFrameEncoding>,
    /// Schema of the data track
    pub schema: Option<DataTrackSchemaId>,
}

pub enum DataBlobKey {
    Generic(String),
    Schema(DataTrackSchemaId),
}

pub struct DataBlob {
    pub data: Vec<u8>,
    pub key: DataBlobKey,
}

} // verus!
