//! The reporter: change detection, the outbound queue, the artwork cache and
//! the connection control loop's decisions, in one owned state.

use std::collections::VecDeque;
use vstd::prelude::*;
use crate::artwork::ArtworkCache;
use crate::connection::{
    Connection,
    ConnectionState,
    backoff_after,
    normalized_endpoint,
    url_with_token,
    websocket_url,
    HANDSHAKE_TIMEOUT_MS,
    IDLE_RECHECK_MS,
};
use crate::fingerprint::{
    media_fingerprint,
    media_hash,
    window_fingerprint,
    window_hash,
};
use crate::protocol::{
    InboundFrame,
    MediaMetadataData,
    PlaybackStateData,
    ReporterMessage,
    ServerMessage,
    WindowInfoData,
};
use crate::snapshot::{clone_opt_string, MediaMetadata, PlaybackState, WindowInfo};

verus! {

/// Where and whether to report.
#[derive(Clone, Debug)]
pub struct ReporterConfig {
    pub enabled: bool,
    /// Collector endpoint; `http`/`https` are rewritten to `ws`/`wss`.
    pub ws_url: String,
    /// Bearer token, sent as the `token` query parameter.
    pub token: String,
}

impl Default for ReporterConfig {
    fn default() -> (r: ReporterConfig)
        ensures
            !r.enabled,
            r.ws_url@ == Seq::<char>::empty(),
            r.token@ == Seq::<char>::empty(),
    {
        ReporterConfig { enabled: false, ws_url: String::new(), token: String::new() }
    }
}

/// What the control loop does next.
pub enum Action {
    /// Wait this many milliseconds, then start the next cycle.
    Sleep(u64),
    /// Attempt a handshake with this URL, giving up after `timeout_ms`.
    Connect { url: String, timeout_ms: u64 },
    /// Connected: serve the queue and the read half until the connection ends.
    Serve,
}

/// The abstract state of a reporter.
pub struct ReporterView {
    pub config: ReporterConfig,
    pub last_window_hash: Option<u64>,
    pub last_media_hash: Option<u64>,
    pub queue: Seq<ReporterMessage>,
    pub artwork: Map<Seq<char>, String>,
    pub state: ConnectionState,
    pub attempts: u32,
    pub connected: bool,
    pub closed: bool,
}

/// Appends a message unless the consuming side is gone.
pub open spec fn enqueue(v: ReporterView, m: ReporterMessage) -> ReporterView {
    if v.closed {
        v
    } else {
        ReporterView { queue: v.queue.push(m), ..v }
    }
}

/// Appends messages in order.
pub open spec fn enqueue_all(v: ReporterView, ms: Seq<ReporterMessage>) -> ReporterView
    decreases ms.len(),
{
    if ms.len() == 0 {
        v
    } else {
        enqueue(enqueue_all(v, ms.drop_last()), ms.last())
    }
}

/// The messages that `n` dequeues hand out, in order.
pub open spec fn dequeued(q: Seq<ReporterMessage>, n: nat) -> Seq<ReporterMessage>
    decreases n,
{
    if n == 0 || q.len() == 0 {
        Seq::empty()
    } else {
        seq![q[0]] + dequeued(q.drop_first(), (n - 1) as nat)
    }
}

/// The reported form of a window snapshot: the icon is left out.
pub open spec fn window_data_of(info: WindowInfo) -> WindowInfoData {
    WindowInfoData {
        title: info.title,
        process_name: info.process_name,
        icon_url: None,
        app_id: info.app_id,
        pid: info.pid as u32,
    }
}

/// The artwork URL recorded for the content, if any.
pub open spec fn artwork_url_of(v: ReporterView, content_id: Option<String>) -> Option<String> {
    match content_id {
        Some(c) => if v.artwork.contains_key(c@) {
            Some(v.artwork[c@])
        } else {
            None
        },
        None => None,
    }
}

/// The reported form of media metadata, with the cached artwork URL.
pub open spec fn metadata_data_of(v: ReporterView, m: MediaMetadata) -> MediaMetadataData {
    MediaMetadataData {
        bundle_identifier: m.bundle_identifier,
        title: m.title,
        artist: m.artist,
        album: m.album,
        duration_ms: m.duration_ms,
        artwork_url: artwork_url_of(v, m.content_item_identifier),
        content_item_identifier: m.content_item_identifier,
    }
}

pub open spec fn state_data_of(s: PlaybackState) -> PlaybackStateData {
    PlaybackStateData {
        playing: s.playing,
        playback_rate: s.playback_rate,
        elapsed_ms: s.elapsed_ms,
    }
}

/// Offering a window snapshot: the fingerprint slot takes the new value, and
/// a message is queued exactly when it differs from the previous one.
pub open spec fn window_step(v: ReporterView, info: WindowInfo) -> ReporterView {
    let d = window_data_of(info);
    let fp = window_fingerprint(d);
    let v1 = ReporterView { last_window_hash: Some(fp), ..v };
    if v.last_window_hash != Some(fp) {
        enqueue(v1, ReporterMessage::WindowInfo(d))
    } else {
        v1
    }
}

/// Offering a media snapshot, in the same way through the media slot.
pub open spec fn media_step(v: ReporterView, m: MediaMetadata, s: PlaybackState) -> ReporterView {
    let md = metadata_data_of(v, m);
    let sd = state_data_of(s);
    let fp = media_fingerprint(md, sd);
    let v1 = ReporterView { last_media_hash: Some(fp), ..v };
    if v.last_media_hash != Some(fp) {
        enqueue(v1, ReporterMessage::MediaPlayback(md, sd))
    } else {
        v1
    }
}

/// Asking for an artwork upload: queued unless the content is already cached.
pub open spec fn upload_step(
    v: ReporterView,
    content_id: String,
    data: Vec<u8>,
    mime: String,
) -> ReporterView {
    if v.artwork.contains_key(content_id@) {
        v
    } else {
        enqueue(
            v,
            ReporterMessage::UploadArtwork {
                content_item_identifier: content_id,
                artwork_data: data,
                mime_type: mime,
            },
        )
    }
}

/// Whether a server message acknowledges an upload; then its identifier and URL.
pub open spec fn is_artwork_ack(msg: ServerMessage) -> bool {
    &&& msg.msg_type@ == "artwork_uploaded"@
    &&& msg.content_item_identifier is Some
    &&& msg.artwork_url is Some
}

/// Handling a server message: an upload acknowledgement fills the cache.
pub open spec fn server_step(v: ReporterView, msg: ServerMessage) -> ReporterView {
    if is_artwork_ack(msg) {
        ReporterView {
            artwork: v.artwork.insert(
                msg.content_item_identifier.unwrap()@,
                msg.artwork_url.unwrap(),
            ),
            ..v
        }
    } else {
        v
    }
}

/// A live connection being torn down.
pub open spec fn draining(v: ReporterView) -> ReporterView {
    ReporterView { state: ConnectionState::Draining, connected: false, ..v }
}

pub struct Reporter {
    config: ReporterConfig,
    last_window_hash: Option<u64>,
    last_media_hash: Option<u64>,
    queue: VecDeque<ReporterMessage>,
    artwork_urls: ArtworkCache,
    connection: Connection,
    closed: bool,
}

impl View for Reporter {
    type V = ReporterView;

    closed spec fn view(&self) -> ReporterView {
        ReporterView {
            config: self.config,
            last_window_hash: self.last_window_hash,
            last_media_hash: self.last_media_hash,
            queue: self.queue@,
            artwork: self.artwork_urls@,
            state: self.connection.state,
            attempts: self.connection.attempts,
            connected: self.connection.connected,
            closed: self.closed,
        }
    }
}

impl Reporter {
    pub closed spec fn wf(&self) -> bool {
        &&& self.connection.wf()
        &&& self.artwork_urls.wf()
    }

    /// A reporter with empty fingerprint slots (so the first snapshot of each
    /// kind is always queued), an empty queue and
    /// cache, idle and not connected.
    pub fn new(config: ReporterConfig) -> (r: Reporter)
        ensures
            r.wf(),
            r@.config == config,
            r@.last_window_hash is None,
            r@.last_media_hash is None,
            r@.queue == Seq::<ReporterMessage>::empty(),
            r@.artwork == Map::<Seq<char>, String>::empty(),
            r@.state == ConnectionState::Idle,
            r@.attempts == 0,
            !r@.connected,
            !r@.closed,
    {
        Reporter {
            config,
            last_window_hash: None,
            last_media_hash: None,
            queue: VecDeque::new(),
            artwork_urls: ArtworkCache::new(),
            connection: Connection::new(),
            closed: false,
        }
    }

    fn enqueue(&mut self, m: ReporterMessage) -> (queued: bool)
        requires
            old(self).wf(),
        ensures
            final(self).wf(),
            final(self)@ == enqueue(old(self)@, m),
            queued == !old(self)@.closed,
    {
        if self.closed {
            false
        } else {
            self.queue.push_back(m);
            true
        }
    }

    /// Whether a connection is live.
    pub fn is_connected(&self) -> (r: bool)
        requires
            self.wf(),
        ensures
            r == self@.connected,
            r == (self@.state == ConnectionState::Connected),
    {
        self.connection.connected
    }

    /// Whether the consuming side is gone, so that messages are refused.
    pub fn is_closed(&self) -> (r: bool)
        ensures
            r == self@.closed,
    {
        self.closed
    }

    /// The current configuration.
    pub fn config(&self) -> (r: &ReporterConfig)
        ensures
            *r == self@.config,
    {
        &self.config
    }

    /// Replaces the configuration; the next cycle uses it, a live connection
    /// is left as it is.
    pub fn update_config(&mut self, config: ReporterConfig)
        requires
            old(self).wf(),
        ensures
            final(self).wf(),
            final(self)@ == (ReporterView { config, ..old(self)@ }),
    {
        self.config = config;
    }

    /// Offers a window snapshot; returns whether a `window_info` message was
    /// queued.
    pub fn send_window_info(&mut self, info: &WindowInfo) -> (queued: bool)
        requires
            old(self).wf(),
        ensures
            final(self).wf(),
            final(self)@ == window_step(old(self)@, *info),
            queued == (old(self)@.last_window_hash != Some(window_fingerprint(window_data_of(*info)))
                && !old(self)@.closed),
    {
        let data = WindowInfoData {
            title: info.title.clone(),
            process_name: info.process_name.clone(),
            icon_url: None,
            app_id: clone_opt_string(&info.app_id),
            pid: info.pid as u32,
        };
        let new_hash = window_hash(&data);
        let changed = match self.last_window_hash {
            Some(old_hash) => old_hash != new_hash,
            None => true,
        };
        self.last_window_hash = Some(new_hash);
        if changed {
            self.enqueue(ReporterMessage::WindowInfo(data))
        } else {
            false
        }
    }

    /// Offers a media snapshot; returns whether a `media_playback` message
    /// was queued. The cached artwork URL of the content is attached.
    pub fn send_media_playback(&mut self, metadata: &MediaMetadata, state: &PlaybackState) -> (queued:
        bool)
        requires
            old(self).wf(),
        ensures
            final(self).wf(),
            final(self)@ == media_step(old(self)@, *metadata, *state),
            queued == (old(self)@.last_media_hash != Some(
                media_fingerprint(metadata_data_of(old(self)@, *metadata), state_data_of(*state)),
            ) && !old(self)@.closed),
    {
        let artwork_url = match &metadata.content_item_identifier {
            Some(id) => self.artwork_urls.get(id),
            None => None,
        };
        let metadata_data = MediaMetadataData {
            bundle_identifier: clone_opt_string(&metadata.bundle_identifier),
            title: clone_opt_string(&metadata.title),
            artist: clone_opt_string(&metadata.artist),
            album: clone_opt_string(&metadata.album),
            duration_ms: metadata.duration_ms,
            artwork_url,
            content_item_identifier: clone_opt_string(&metadata.content_item_identifier),
        };
        let state_data = PlaybackStateData {
            playing: state.playing,
            playback_rate: state.playback_rate,
            elapsed_ms: state.elapsed_ms,
        };
        let new_hash = media_hash(&metadata_data, &state_data);
        let changed = match self.last_media_hash {
            Some(old_hash) => old_hash != new_hash,
            None => true,
        };
        self.last_media_hash = Some(new_hash);
        if changed {
            self.enqueue(ReporterMessage::MediaPlayback(metadata_data, state_data))
        } else {
            false
        }
    }

    /// Whether artwork for this content has been acknowledged.
    pub fn artwork_cached(&self, content_item_identifier: &String) -> (r: bool)
        requires
            self.wf(),
        ensures
            r == self@.artwork.contains_key(content_item_identifier@),
    {
        self.artwork_urls.contains(content_item_identifier)
    }

    /// Asks for an artwork upload; returns whether it was queued. Content
    /// whose upload was acknowledged is not uploaded again.
    pub fn upload_artwork(
        &mut self,
        content_item_identifier: String,
        artwork_data: Vec<u8>,
        mime_type: String,
    ) -> (queued: bool)
        requires
            old(self).wf(),
        ensures
            final(self).wf(),
            final(self)@ == upload_step(
                old(self)@,
                content_item_identifier,
                artwork_data,
                mime_type,
            ),
            queued == (!old(self)@.artwork.contains_key(content_item_identifier@)
                && !old(self)@.closed),
    {
        if self.artwork_urls.contains(&content_item_identifier) {
            false
        } else {
            self.enqueue(
                ReporterMessage::UploadArtwork {
                    content_item_identifier,
                    artwork_data,
                    mime_type,
                },
            )
        }
    }

    /// The next message for the wire, oldest first.
    pub fn next_outbound(&mut self) -> (r: Option<ReporterMessage>)
        requires
            old(self).wf(),
        ensures
            final(self).wf(),
            old(self)@.queue.len() == 0 ==> r is None && final(self)@ == old(self)@,
            old(self)@.queue.len() > 0 ==> r == Some(old(self)@.queue[0]) && final(self)@ == (
            ReporterView { queue: old(self)@.queue.drop_first(), ..old(self)@ }),
    {
        let r = self.queue.pop_front();
        proof {
            if old(self)@.queue.len() > 0 {
                assert(self.queue@ =~= old(self)@.queue.drop_first());
            }
        }
        r
    }

    /// The consuming side is gone for good: queued messages are dropped and
    /// later ones are refused.
    pub fn stop(&mut self)
        requires
            old(self).wf(),
        ensures
            final(self).wf(),
            final(self)@ == (ReporterView {
                queue: Seq::empty(),
                closed: true,
                state: ConnectionState::Idle,
                connected: false,
                ..old(self)@
            }),
    {
        self.closed = true;
        self.queue.clear();
        self.connection.idle();
        assert(self.queue@ =~= Seq::<ReporterMessage>::empty());
    }

    /// Handles a parsed server message: an `artwork_uploaded` message that
    /// carries both an identifier and a URL is recorded in the cache.
    pub fn handle_server_message(&mut self, msg: ServerMessage)
        requires
            old(self).wf(),
        ensures
            final(self).wf(),
            final(self)@ == server_step(old(self)@, msg),
    {
        let ghost g = msg;
        let tag = String::from_str("artwork_uploaded");
        proof {
            reveal_strlit("artwork_uploaded");
        }
        if msg.msg_type == tag {
            match (msg.content_item_identifier, msg.artwork_url) {
                (Some(content_id), Some(url)) => {
                    self.artwork_urls.insert(content_id, url);
                },
                _ => {},
            }
        }
        assert(self@ =~= server_step(old(self)@, g)) by {
            assert(self@.artwork =~= server_step(old(self)@, g).artwork);
        }
    }

    /// Handles what the read half produced; returns whether the connection
    /// stays up. A close or a read error ends it: the connection starts
    /// draining.
    pub fn handle_inbound(&mut self, frame: InboundFrame) -> (keep: bool)
        requires
            old(self).wf(),
        ensures
            final(self).wf(),
            keep == !(frame is Close || frame is Error),
            match frame {
                InboundFrame::Text(Some(msg)) => final(self)@ == server_step(old(self)@, msg),
                InboundFrame::Close | InboundFrame::Error => final(self)@ == draining(old(self)@),
                _ => final(self)@ == old(self)@,
            },
    {
        match frame {
            InboundFrame::Text(Some(msg)) => {
                self.handle_server_message(msg);
                true
            },
            InboundFrame::Text(None) => true,
            InboundFrame::Close => {
                self.end_connection();
                false
            },
            InboundFrame::Error => {
                self.end_connection();
                false
            },
            InboundFrame::Other => true,
        }
    }

    /// A send failed or the read half ended the connection: it starts
    /// draining and is no longer reported as connected.
    pub fn end_connection(&mut self)
        requires
            old(self).wf(),
        ensures
            final(self).wf(),
            final(self)@ == draining(old(self)@),
    {
        self.connection.draining();
    }

    /// Top of a control-loop cycle: reads the configuration and decides
    /// whether to attempt a connection.
    pub fn begin_cycle(&mut self) -> (action: Action)
        requires
            old(self).wf(),
        ensures
            final(self).wf(),
            !final(self)@.connected,
            final(self)@.attempts == old(self)@.attempts,
            final(self)@.queue == old(self)@.queue,
            final(self)@.artwork == old(self)@.artwork,
            final(self)@.config == old(self)@.config,
            final(self)@.last_window_hash == old(self)@.last_window_hash,
            final(self)@.last_media_hash == old(self)@.last_media_hash,
            final(self)@.closed == old(self)@.closed,
            !old(self)@.config.enabled ==> action == Action::Sleep(IDLE_RECHECK_MS)
                && final(self)@.state == ConnectionState::Idle,
            old(self)@.config.enabled ==> match url_with_token(
                normalized_endpoint(old(self)@.config.ws_url@),
                old(self)@.config.token@,
            ) {
                None => action == Action::Sleep(IDLE_RECHECK_MS) && final(self)@.state
                    == ConnectionState::Idle,
                Some(u) => (match action {
                    Action::Connect { url, timeout_ms } => url@ == u && timeout_ms
                        == HANDSHAKE_TIMEOUT_MS,
                    _ => false,
                }) && final(self)@.state == ConnectionState::Connecting,
            },
    {
        if !self.config.enabled {
            self.connection.idle();
            return Action::Sleep(IDLE_RECHECK_MS);
        }
        match websocket_url(self.config.ws_url.as_str(), self.config.token.as_str()) {
            None => {
                self.connection.idle();
                Action::Sleep(IDLE_RECHECK_MS)
            },
            Some(url) => {
                self.connection.connecting();
                Action::Connect { url, timeout_ms: HANDSHAKE_TIMEOUT_MS }
            },
        }
    }

    /// The handshake finished: on success the counter resets and the loop
    /// serves the connection; on failure or timeout it backs off.
    pub fn handshake_finished(&mut self, succeeded: bool) -> (action: Action)
        requires
            old(self).wf(),
        ensures
            final(self).wf(),
            final(self)@.queue == old(self)@.queue,
            final(self)@.artwork == old(self)@.artwork,
            final(self)@.config == old(self)@.config,
            final(self)@.closed == old(self)@.closed,
            final(self)@.last_window_hash == old(self)@.last_window_hash,
            final(self)@.last_media_hash == old(self)@.last_media_hash,
            succeeded ==> action == Action::Serve && final(self)@.state
                == ConnectionState::Connected && final(self)@.attempts == 0
                && final(self)@.connected,
            !succeeded ==> action == Action::Sleep(backoff_after(old(self)@.attempts).1)
                && final(self)@.attempts == backoff_after(old(self)@.attempts).0
                && final(self)@.state == ConnectionState::Backoff && !final(self)@.connected,
    {
        if succeeded {
            self.connection.connected();
            Action::Serve
        } else {
            let wait = self.connection.backoff();
            Action::Sleep(wait)
        }
    }

    /// A live connection ended (send error, close, read error): returns the
    /// wait before the next attempt.
    pub fn connection_lost(&mut self) -> (wait_ms: u64)
        requires
            old(self).wf(),
        ensures
            final(self).wf(),
            final(self)@.queue == old(self)@.queue,
            final(self)@.artwork == old(self)@.artwork,
            final(self)@.config == old(self)@.config,
            final(self)@.closed == old(self)@.closed,
            final(self)@.last_window_hash == old(self)@.last_window_hash,
            final(self)@.last_media_hash == old(self)@.last_media_hash,
            (final(self)@.attempts, wait_ms) == backoff_after(old(self)@.attempts),
            final(self)@.state == ConnectionState::Backoff,
            !final(self)@.connected,
    {
        self.connection.backoff()
    }
}

} // verus!
