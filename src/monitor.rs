//! Decisions of the periodic producer: which snapshots to hand to the
//! reporter, which artwork to upload, and when to report a fault.

use vstd::prelude::*;
use crate::fingerprint::opt_view;
use crate::fingerprint::{media_fingerprint, window_fingerprint};
use crate::reporter::{
    media_step,
    metadata_data_of,
    state_data_of,
    upload_step,
    window_data_of,
    window_step,
    Reporter,
    ReporterView,
};
use crate::snapshot::{clone_opt_bytes, MediaMetadata, PlaybackState, WindowInfo};

verus! {

/// The bytes that standard base64 text decodes to, or `None` where it is
/// not valid standard base64.
pub uninterp spec fn base64_decoded(text: Seq<char>) -> Option<Seq<u8>>;

/// Relies on base64's `engine::general_purpose::STANDARD` with
/// `Engine::decode`: standard alphabet with padding; the outcome depends on
/// the text alone.
#[verifier::external_body]
fn decode_base64(text: &str) -> (r: Option<Vec<u8>>)
    ensures
        match r {
            Some(b) => base64_decoded(text@) == Some(b@),
            None => base64_decoded(text@) is None,
        },
{
    match base64::Engine::decode(&base64::engine::general_purpose::STANDARD, text) {
        Ok(bytes) => Some(bytes),
        Err(_) => None,
    }
}

pub open spec fn opt_bytes_view(o: Option<Vec<u8>>) -> Option<Seq<u8>> {
    match o {
        None => None,
        Some(b) => Some(b@),
    }
}

/// Structural equality of window snapshots, icon included.
pub open spec fn same_window(a: WindowInfo, b: WindowInfo) -> bool {
    &&& a.title@ == b.title@
    &&& opt_bytes_view(a.icon_data) == opt_bytes_view(b.icon_data)
    &&& a.process_name@ == b.process_name@
    &&& a.pid == b.pid
    &&& opt_view(a.app_id) == opt_view(b.app_id)
}

/// Structural equality of media metadata.
pub open spec fn same_metadata(a: MediaMetadata, b: MediaMetadata) -> bool {
    &&& opt_view(a.bundle_identifier) == opt_view(b.bundle_identifier)
    &&& opt_view(a.title) == opt_view(b.title)
    &&& opt_view(a.artist) == opt_view(b.artist)
    &&& opt_view(a.album) == opt_view(b.album)
    &&& a.duration_ms == b.duration_ms
    &&& opt_view(a.artwork_data) == opt_view(b.artwork_data)
    &&& opt_view(a.artwork_mime_type) == opt_view(b.artwork_mime_type)
    &&& opt_view(a.content_item_identifier) == opt_view(b.content_item_identifier)
}

pub open spec fn same_state(a: PlaybackState, b: PlaybackState) -> bool {
    a.playing == b.playing && a.playback_rate == b.playback_rate && a.elapsed_ms == b.elapsed_ms
}

fn opt_string_eq(a: &Option<String>, b: &Option<String>) -> (r: bool)
    ensures
        r == (opt_view(*a) == opt_view(*b)),
{
    match (a, b) {
        (None, None) => true,
        (Some(x), Some(y)) => *x == *y,
        _ => false,
    }
}

fn bytes_eq(a: &Vec<u8>, b: &Vec<u8>) -> (r: bool)
    ensures
        r == (a@ == b@),
{
    if a.len() != b.len() {
        return false;
    }
    let mut i: usize = 0;
    while i < a.len()
        invariant
            a@.len() == b@.len(),
            i <= a@.len(),
            forall|j: int| 0 <= j < i ==> a@[j] == b@[j],
        decreases a@.len() - i,
    {
        if a[i] != b[i] {
            return false;
        }
        i = i + 1;
    }
    assert(a@ =~= b@);
    true
}

fn opt_bytes_eq(a: &Option<Vec<u8>>, b: &Option<Vec<u8>>) -> (r: bool)
    ensures
        r == (opt_bytes_view(*a) == opt_bytes_view(*b)),
{
    match (a, b) {
        (None, None) => true,
        (Some(x), Some(y)) => bytes_eq(x, y),
        _ => false,
    }
}

fn windows_equal(a: &WindowInfo, b: &WindowInfo) -> (r: bool)
    ensures
        r == same_window(*a, *b),
{
    a.title == b.title && opt_bytes_eq(&a.icon_data, &b.icon_data) && a.process_name
        == b.process_name && a.pid == b.pid && opt_string_eq(&a.app_id, &b.app_id)
}

fn metadata_equal(a: &MediaMetadata, b: &MediaMetadata) -> (r: bool)
    ensures
        r == same_metadata(*a, *b),
{
    opt_string_eq(&a.bundle_identifier, &b.bundle_identifier) && opt_string_eq(&a.title, &b.title)
        && opt_string_eq(&a.artist, &b.artist) && opt_string_eq(&a.album, &b.album)
        && a.duration_ms == b.duration_ms && opt_string_eq(&a.artwork_data, &b.artwork_data)
        && opt_string_eq(&a.artwork_mime_type, &b.artwork_mime_type) && opt_string_eq(
        &a.content_item_identifier,
        &b.content_item_identifier,
    )
}

/// What came of offering a window capture.
pub enum WindowOutcome {
    /// The window differs from the last one seen; it was offered to the
    /// reporter. `queued` says that a `window_info` message was queued;
    /// `refused` that the reporter's consuming side is gone, so nothing was.
    Changed { queued: bool, refused: bool },
    /// Same window as last time.
    Unchanged,
    /// The capture failed and this fault episode had not been reported yet.
    Warn(String),
    /// The capture failed again within a reported episode.
    Quiet,
}

/// What came of offering a media capture.
pub enum MediaOutcome {
    /// Metadata and state equal the last ones seen.
    Unchanged,
    /// Something changed and was offered to the reporter. `artwork` holds the
    /// decoded artwork, where there was valid artwork; `upload_skipped` says
    /// that new artwork could not be decoded and so was not uploaded;
    /// `queued` that a `media_playback` message was queued; `refused` that
    /// the reporter's consuming side is gone, so nothing was.
    Changed { artwork: Option<Vec<u8>>, upload_skipped: bool, queued: bool, refused: bool },
}

/// The reporter after a changed media capture: the snapshot is offered, and
/// where the metadata changed and carries artwork, MIME type and identifier,
/// the decoded artwork is asked to be uploaded.
pub open spec fn media_observed(
    v: ReporterView,
    metadata: MediaMetadata,
    state: PlaybackState,
    metadata_changed: bool,
    decoded: Option<Vec<u8>>,
) -> ReporterView {
    let v1 = media_step(v, metadata, state);
    if metadata_changed && metadata.artwork_data is Some && metadata.artwork_mime_type is Some
        && metadata.content_item_identifier is Some && decoded is Some {
        upload_step(
            v1,
            metadata.content_item_identifier.unwrap(),
            decoded.unwrap(),
            metadata.artwork_mime_type.unwrap(),
        )
    } else {
        v1
    }
}

/// Producer state: the last snapshots seen and whether the current capture
/// fault has been reported.
pub struct Monitor {
    pub last_window_info: Option<WindowInfo>,
    pub last_media_metadata: Option<MediaMetadata>,
    pub last_playback_state: Option<PlaybackState>,
    pub permission_warned: bool,
}

impl Monitor {
    pub fn new() -> (r: Monitor)
        ensures
            r.last_window_info is None,
            r.last_media_metadata is None,
            r.last_playback_state is None,
            !r.permission_warned,
    {
        Monitor {
            last_window_info: None,
            last_media_metadata: None,
            last_playback_state: None,
            permission_warned: false,
        }
    }

    /// Handles one window capture. A window different from the last one is
    /// offered to the reporter and remembered. A failure is reported once
    /// per episode; any success ends the episode.
    pub fn observe_window(&mut self, reporter: &mut Reporter, capture: Result<WindowInfo, String>) -> (outcome:
        WindowOutcome)
        requires
            old(reporter).wf(),
        ensures
            final(reporter).wf(),
            final(self).last_media_metadata == old(self).last_media_metadata,
            final(self).last_playback_state == old(self).last_playback_state,
            match capture {
                Ok(w) => {
                    let changed = !(old(self).last_window_info is Some && same_window(
                        old(self).last_window_info.unwrap(),
                        w,
                    ));
                    &&& !final(self).permission_warned
                    &&& changed ==> final(self).last_window_info == Some(w) && final(reporter)@
                        == window_step(old(reporter)@, w)
                    &&& changed ==> outcome == WindowOutcome::Changed {
                        queued: old(reporter)@.last_window_hash != Some(
                            window_fingerprint(window_data_of(w)),
                        ) && !old(reporter)@.closed,
                        refused: old(reporter)@.closed,
                    }
                    &&& !changed ==> outcome is Unchanged && final(self).last_window_info == old(
                        self,
                    ).last_window_info && final(reporter)@ == old(reporter)@
                },
                Err(e) => {
                    &&& final(self).permission_warned
                    &&& final(self).last_window_info == old(self).last_window_info
                    &&& final(reporter)@ == old(reporter)@
                    &&& old(self).permission_warned ==> outcome is Quiet
                    &&& !old(self).permission_warned ==> outcome == WindowOutcome::Warn(e)
                },
            },
    {
        match capture {
            Ok(w) => {
                self.permission_warned = false;
                let changed = match &self.last_window_info {
                    Some(last) => !windows_equal(last, &w),
                    None => true,
                };
                if changed {
                    let refused = reporter.is_closed();
                    let queued = reporter.send_window_info(&w);
                    self.last_window_info = Some(w);
                    WindowOutcome::Changed { queued, refused }
                } else {
                    WindowOutcome::Unchanged
                }
            },
            Err(e) => {
                if self.permission_warned {
                    WindowOutcome::Quiet
                } else {
                    self.permission_warned = true;
                    WindowOutcome::Warn(e)
                }
            },
        }
    }

    /// Handles one media capture whose artwork, if any, has been decoded to
    /// `decoded`. When metadata or state differ from the last ones seen, the
    /// snapshot is offered to the reporter; when the metadata changed and
    /// carries artwork, MIME type and identifier, the decoded artwork is
    /// asked to be uploaded (the reporter skips content it already holds).
    pub fn observe_decoded_media(
        &mut self,
        reporter: &mut Reporter,
        metadata: MediaMetadata,
        state: PlaybackState,
        decoded: Option<Vec<u8>>,
    ) -> (outcome: MediaOutcome)
        requires
            old(reporter).wf(),
        ensures
            final(reporter).wf(),
            final(self).last_window_info == old(self).last_window_info,
            final(self).permission_warned == old(self).permission_warned,
            media_changed(*old(self), metadata, state) ==> final(reporter)@ == media_observed(
                old(reporter)@,
                metadata,
                state,
                metadata_changed(*old(self), metadata),
                decoded,
            ),
            media_changed(*old(self), metadata, state) ==> final(self).last_media_metadata == Some(
                metadata,
            ) && final(self).last_playback_state == Some(state),
            media_changed(*old(self), metadata, state) ==> match outcome {
                MediaOutcome::Changed { artwork, upload_skipped, queued, refused } => {
                    &&& opt_bytes_view(artwork) == opt_bytes_view(decoded)
                    &&& queued == media_queued(old(reporter)@, metadata, state)
                    &&& refused == old(reporter)@.closed
                    &&& upload_skipped == (metadata_changed(*old(self), metadata)
                        && metadata.artwork_data is Some && metadata.artwork_mime_type is Some
                        && metadata.content_item_identifier is Some && decoded is None
                        && !old(reporter)@.artwork.contains_key(
                        metadata.content_item_identifier.unwrap()@,
                    ))
                },
                MediaOutcome::Unchanged => false,
            },
            !media_changed(*old(self), metadata, state) ==> outcome is Unchanged,
            !media_changed(*old(self), metadata, state) ==> final(reporter)@ == old(reporter)@,
            !media_changed(*old(self), metadata, state) ==> final(self).last_media_metadata == old(
                self,
            ).last_media_metadata && final(self).last_playback_state == old(
                self,
            ).last_playback_state,
    {
        let metadata_changed = match &self.last_media_metadata {
            Some(last) => !metadata_equal(last, &metadata),
            None => true,
        };
        let state_changed = match &self.last_playback_state {
            Some(last) => !(last.playing == state.playing && last.playback_rate
                == state.playback_rate && last.elapsed_ms == state.elapsed_ms),
            None => true,
        };
        if !(metadata_changed || state_changed) {
            return MediaOutcome::Unchanged;
        }
        let artwork = clone_opt_bytes(&decoded);
        let refused = reporter.is_closed();
        let queued = reporter.send_media_playback(&metadata, &state);
        let mut upload_skipped = false;
        if metadata_changed {
            match (&metadata.artwork_data, &metadata.artwork_mime_type, &metadata.content_item_identifier) {
                (Some(_), Some(mime), Some(content_id)) => {
                    if !reporter.artwork_cached(content_id) {
                        match decoded {
                            Some(bytes) => {
                                reporter.upload_artwork(content_id.clone(), bytes, mime.clone());
                            },
                            None => {
                                upload_skipped = true;
                            },
                        }
                    }
                },
                _ => {},
            }
        }
        self.last_media_metadata = Some(metadata);
        self.last_playback_state = Some(state);
        MediaOutcome::Changed { artwork, upload_skipped, queued, refused }
    }

    /// Handles one media capture: decodes its base64 artwork, if any, and
    /// proceeds as `observe_decoded_media` with the result.
    pub fn observe_media(
        &mut self,
        reporter: &mut Reporter,
        metadata: MediaMetadata,
        state: PlaybackState,
    ) -> (outcome: MediaOutcome)
        requires
            old(reporter).wf(),
        ensures
            final(reporter).wf(),
            final(self).last_window_info == old(self).last_window_info,
            final(self).permission_warned == old(self).permission_warned,
            media_changed(*old(self), metadata, state) ==> final(self).last_media_metadata == Some(
                metadata,
            ) && final(self).last_playback_state == Some(state),
            media_changed(*old(self), metadata, state) ==> exists|decoded: Option<Vec<u8>>|
                opt_bytes_view(decoded) == artwork_decoded(metadata) && final(reporter)@
                    == #[trigger] media_observed(
                    old(reporter)@,
                    metadata,
                    state,
                    metadata_changed(*old(self), metadata),
                    decoded,
                ),
            media_changed(*old(self), metadata, state) ==> match outcome {
                MediaOutcome::Changed { artwork, upload_skipped, queued, refused } => {
                    &&& opt_bytes_view(artwork) == artwork_decoded(metadata)
                    &&& upload_skipped == (metadata_changed(*old(self), metadata)
                        && metadata.artwork_data is Some && metadata.artwork_mime_type is Some
                        && metadata.content_item_identifier is Some && artwork_decoded(metadata) is None
                        && !old(reporter)@.artwork.contains_key(
                        metadata.content_item_identifier.unwrap()@,
                    ))
                    &&& queued == media_queued(old(reporter)@, metadata, state)
                    &&& refused == old(reporter)@.closed
                },
                MediaOutcome::Unchanged => false,
            },
            !media_changed(*old(self), metadata, state) ==> outcome is Unchanged,
            !media_changed(*old(self), metadata, state) ==> final(reporter)@ == old(reporter)@,
    {
        let decoded = match &metadata.artwork_data {
            Some(text) => decode_base64(text.as_str()),
            None => None,
        };
        let ghost d = decoded;
        let ghost m = metadata;
        let outcome = self.observe_decoded_media(reporter, metadata, state, decoded);
        proof {
            if media_changed(*old(self), m, state) {
                assert(reporter@ == media_observed(
                    old(reporter)@,
                    m,
                    state,
                    metadata_changed(*old(self), m),
                    d,
                ));
            }
        }
        outcome
    }
}

/// Whether offering this media snapshot queues a `media_playback` message.
pub open spec fn media_queued(v: ReporterView, m: MediaMetadata, s: PlaybackState) -> bool {
    v.last_media_hash != Some(media_fingerprint(metadata_data_of(v, m), state_data_of(s)))
        && !v.closed
}

/// The metadata differs from the last seen, or none was seen.
pub open spec fn metadata_changed(mon: Monitor, m: MediaMetadata) -> bool {
    !(mon.last_media_metadata is Some && same_metadata(mon.last_media_metadata.unwrap(), m))
}

/// The state differs from the last seen, or none was seen.
pub open spec fn state_changed(mon: Monitor, s: PlaybackState) -> bool {
    !(mon.last_playback_state is Some && same_state(mon.last_playback_state.unwrap(), s))
}

pub open spec fn media_changed(mon: Monitor, m: MediaMetadata, s: PlaybackState) -> bool {
    metadata_changed(mon, m) || state_changed(mon, s)
}

/// What the capture's artwork text decodes to, if it has any.
pub open spec fn artwork_decoded(m: MediaMetadata) -> Option<Seq<u8>> {
    match m.artwork_data {
        Some(text) => base64_decoded(text@),
        None => None,
    }
}

} // verus!
