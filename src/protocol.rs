//! Message types of the collector protocol.

use vstd::prelude::*;

verus! {

/// The `data` object of a `window_info` frame.
#[derive(Clone, Debug)]
pub struct WindowInfoData {
    pub title: String,
    pub process_name: String,
    pub icon_url: Option<String>,
    pub app_id: Option<String>,
    pub pid: u32,
}

/// The `metadata` object of a `media_playback` frame.
///
/// The duration is held in milliseconds.
#[derive(Clone, Debug)]
pub struct MediaMetadataData {
    pub bundle_identifier: Option<String>,
    pub title: Option<String>,
    pub artist: Option<String>,
    pub album: Option<String>,
    pub duration_ms: u64,
    pub artwork_url: Option<String>,
    pub content_item_identifier: Option<String>,
}

/// The `playback_state` object of a `media_playback` frame.
///
/// The rate is held in hundredths (100 is normal speed), the elapsed time in
/// milliseconds.
#[derive(Clone, Debug)]
pub struct PlaybackStateData {
    pub playing: bool,
    pub playback_rate: i64,
    pub elapsed_ms: u64,
}

/// A message in the outbound queue.
#[derive(Clone, Debug)]
pub enum ReporterMessage {
    WindowInfo(WindowInfoData),
    MediaPlayback(MediaMetadataData, PlaybackStateData),
    /// Artwork bytes travel with their identifier so that the metadata frame
    /// and the binary frame leave together.
    UploadArtwork { content_item_identifier: String, artwork_data: Vec<u8>, mime_type: String },
}

/// The fields of an `upload_artwork_meta` frame.
#[derive(Clone, Debug)]
pub struct UploadArtworkMeta {
    pub content_item_identifier: String,
    pub mime_type: String,
}

/// One frame on the wire, outbound.
#[derive(Clone, Debug)]
pub enum WireFrame {
    /// A `window_info` frame.
    WindowInfo(WindowInfoData),
    /// A `media_playback` frame.
    MediaPlayback(MediaMetadataData, PlaybackStateData),
    /// An `upload_artwork_meta` frame.
    UploadArtworkMeta(UploadArtworkMeta),
    /// A raw binary frame.
    Binary(Vec<u8>),
}

/// A structured frame from the collector, as parsed from its text.
#[derive(Clone, Debug)]
pub struct ServerMessage {
    pub msg_type: String,
    pub content_item_identifier: Option<String>,
    pub artwork_url: Option<String>,
}

/// What the read half of a live connection produced.
#[derive(Clone, Debug)]
pub enum InboundFrame {
    /// A text frame; `None` where its text is not a server message.
    Text(Option<ServerMessage>),
    /// The collector closed the connection.
    Close,
    /// The read failed.
    Error,
    /// Any other frame (binary, ping, pong).
    Other,
}

/// The frames that carry a queued message, in the order they are written.
pub open spec fn frames_of(m: ReporterMessage) -> Seq<WireFrame> {
    match m {
        ReporterMessage::WindowInfo(d) => seq![WireFrame::WindowInfo(d)],
        ReporterMessage::MediaPlayback(md, st) => seq![WireFrame::MediaPlayback(md, st)],
        ReporterMessage::UploadArtwork { content_item_identifier, artwork_data, mime_type } => seq![
            WireFrame::UploadArtworkMeta(UploadArtworkMeta { content_item_identifier, mime_type }),
            WireFrame::Binary(artwork_data),
        ],
    }
}

/// Splits a queued message into its wire frames: artwork goes out as a
/// metadata frame immediately followed by the binary frame.
pub fn frames_for(m: ReporterMessage) -> (r: Vec<WireFrame>)
    ensures
        r@ == frames_of(m),
{
    let ghost g = m;
    let r = match m {
        ReporterMessage::WindowInfo(d) => vec![WireFrame::WindowInfo(d)],
        ReporterMessage::MediaPlayback(md, st) => vec![WireFrame::MediaPlayback(md, st)],
        ReporterMessage::UploadArtwork { content_item_identifier, artwork_data, mime_type } => vec![
            WireFrame::UploadArtworkMeta(UploadArtworkMeta { content_item_identifier, mime_type }),
            WireFrame::Binary(artwork_data),
        ],
    };
    assert(r@ =~= frames_of(g));
    r
}

} // verus!
