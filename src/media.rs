//! Short-lived cache of the platform's now-playing reading, and how a
//! reading becomes metadata and playback state.

use vstd::prelude::*;
use vstd::string::*;
use crate::fingerprint::opt_view;
use crate::snapshot::{clone_opt_string, MediaMetadata, PlaybackState};

verus! {

/// How long a reading stays fresh, in milliseconds.
pub const CACHE_DURATION_MS: u64 = 200;

/// One reading of the platform's now-playing service.
///
/// Times are in milliseconds, the rate in hundredths; the artwork is
/// base64 text.
#[derive(Clone, Debug)]
pub struct NowPlayingInfo {
    pub bundle_identifier: String,
    pub playing: bool,
    pub title: String,
    pub artist: Option<String>,
    pub album: Option<String>,
    pub duration_ms: Option<u64>,
    pub elapsed_ms: Option<u64>,
    pub artwork_mime_type: Option<String>,
    pub artwork_data: Option<String>,
    pub playback_rate: Option<i64>,
}

/// The last reading turned into metadata and state, when it was taken, and
/// the key of the content whose artwork the metadata holds.
#[derive(Clone, Debug)]
pub struct MediaCache {
    pub metadata: Option<MediaMetadata>,
    pub playback_state: Option<PlaybackState>,
    pub last_update_ms: Option<u64>,
    pub artwork_key: Option<String>,
}

/// The content key: bundle id, title and album (empty if absent), joined
/// by colons.
pub open spec fn content_key(info: NowPlayingInfo) -> Seq<char> {
    info.bundle_identifier@ + ":"@ + info.title@ + ":"@ + match info.album {
        Some(a) => a@,
        None => Seq::empty(),
    }
}

/// An empty text stands for an absent one.
pub open spec fn non_empty(s: String) -> Option<String> {
    if s@.len() == 0 {
        None
    } else {
        Some(s)
    }
}

/// Artwork of the cached metadata, if any.
pub open spec fn cached_artwork(cache: MediaCache) -> (Option<String>, Option<String>) {
    match cache.metadata {
        Some(m) => (m.artwork_data, m.artwork_mime_type),
        None => (None, None),
    }
}

/// Whether the cached reading is still fresh at `now_ms`. A clock that went
/// backwards counts as no time elapsed.
pub open spec fn cache_fresh(cache: MediaCache, now_ms: u64) -> bool {
    match cache.last_update_ms {
        Some(t) => now_ms <= t || now_ms - t < CACHE_DURATION_MS,
        None => false,
    }
}

impl MediaCache {
    /// An empty cache, which is never fresh.
    pub fn new() -> (r: MediaCache)
        ensures
            r.metadata is None,
            r.playback_state is None,
            r.last_update_ms is None,
            r.artwork_key is None,
    {
        MediaCache { metadata: None, playback_state: None, last_update_ms: None, artwork_key: None }
    }
}

/// Whether the cached reading is still fresh at `now_ms`.
pub fn is_cache_valid(cache: &MediaCache, now_ms: u64) -> (r: bool)
    ensures
        r == cache_fresh(*cache, now_ms),
{
    match cache.last_update_ms {
        Some(t) => now_ms <= t || now_ms - t < CACHE_DURATION_MS,
        None => false,
    }
}

fn content_key_of(info: &NowPlayingInfo) -> (r: String)
    ensures
        r@ == content_key(*info),
{
    let mut key = String::new();
    key.append(info.bundle_identifier.as_str());
    key.append(":");
    key.append(info.title.as_str());
    key.append(":");
    match &info.album {
        Some(a) => key.append(a.as_str()),
        None => {},
    }
    proof {
        if info.album is None {
            assert(key@ =~= content_key(*info));
        }
    }
    key
}

fn non_empty_copy(s: &String) -> (r: Option<String>)
    ensures
        r == non_empty(*s),
{
    if s.as_str().is_empty() {
        None
    } else {
        Some(s.clone())
    }
}

/// What a cache holds after taking `info` at `now_ms`, given what it held
/// before.
pub open spec fn updated_from(old: MediaCache, new: MediaCache, info: NowPlayingInfo, now_ms: u64) -> bool {
    let same_content = opt_view(old.artwork_key) == Some(content_key(info));
    &&& new.last_update_ms == Some(now_ms)
    &&& opt_view(new.artwork_key) == (if info.artwork_data is None && same_content {
        opt_view(old.artwork_key)
    } else {
        Some(content_key(info))
    })
    &&& new.metadata is Some
    &&& ({
        let m = new.metadata.unwrap();
        &&& m.bundle_identifier == non_empty(info.bundle_identifier)
        &&& m.title == non_empty(info.title)
        &&& m.artist == info.artist
        &&& m.album == info.album
        &&& m.duration_ms == (match info.duration_ms {
            Some(d) => d,
            None => 0,
        })
        &&& opt_view(m.content_item_identifier) == Some(content_key(info))
        &&& info.artwork_data is Some ==> m.artwork_data == info.artwork_data
            && m.artwork_mime_type == info.artwork_mime_type
        &&& info.artwork_data is None && same_content ==> (m.artwork_data, m.artwork_mime_type)
            == cached_artwork(old)
        &&& info.artwork_data is None && !same_content ==> m.artwork_data is None
            && m.artwork_mime_type is None
    })
    &&& new.playback_state == Some(
        PlaybackState {
            playing: info.playing,
            playback_rate: match info.playback_rate {
                Some(r) => r,
                None => if info.playing {
                    100
                } else {
                    0
                },
            },
            elapsed_ms: match info.elapsed_ms {
                Some(e) => e,
                None => 0,
            },
        },
    )
}

/// Turns a reading into cached metadata and state at `now_ms`.
///
/// The content identifier is the content key. Artwork: new artwork in the
/// reading is always taken; without it the cached artwork is kept for the
/// same content and dropped for other content.
pub fn update_cache_from_info(info: &NowPlayingInfo, cache: &mut MediaCache, now_ms: u64)
    ensures
        updated_from(*old(cache), *final(cache), *info, now_ms),
{
    let key = content_key_of(info);
    let same_content = match &cache.artwork_key {
        Some(k) => *k == key,
        None => false,
    };
    let (artwork_data, artwork_mime_type) = if info.artwork_data.is_some() {
        cache.artwork_key = Some(key.clone());
        (clone_opt_string(&info.artwork_data), clone_opt_string(&info.artwork_mime_type))
    } else if same_content {
        match &cache.metadata {
            Some(m) => (clone_opt_string(&m.artwork_data), clone_opt_string(&m.artwork_mime_type)),
            None => (None, None),
        }
    } else {
        cache.artwork_key = Some(key.clone());
        (None, None)
    };
    let duration_ms = match info.duration_ms {
        Some(d) => d,
        None => 0,
    };
    cache.metadata = Some(
        MediaMetadata {
            bundle_identifier: non_empty_copy(&info.bundle_identifier),
            title: non_empty_copy(&info.title),
            artist: clone_opt_string(&info.artist),
            album: clone_opt_string(&info.album),
            duration_ms,
            artwork_data,
            artwork_mime_type,
            content_item_identifier: Some(key),
        },
    );
    let playback_rate = match info.playback_rate {
        Some(r) => r,
        None => if info.playing {
            100
        } else {
            0
        },
    };
    let elapsed_ms = match info.elapsed_ms {
        Some(e) => e,
        None => 0,
    };
    cache.playback_state = Some(PlaybackState { playing: info.playing, playback_rate, elapsed_ms });
    cache.last_update_ms = Some(now_ms);
}

/// Records the outcome of asking the platform at `now_ms`: a reading
/// updates the cache; no reading empties it (the artwork key is kept).
pub fn apply_reading(cache: &mut MediaCache, reading: Option<NowPlayingInfo>, now_ms: u64)
    ensures
        final(cache).last_update_ms == Some(now_ms),
        reading is None ==> final(cache).metadata is None && final(cache).playback_state is None
            && final(cache).artwork_key == old(cache).artwork_key,
        reading is Some ==> updated_from(*old(cache), *final(cache), reading.unwrap(), now_ms),
{
    match reading {
        Some(info) => update_cache_from_info(&info, cache, now_ms),
        None => {
            cache.metadata = None;
            cache.playback_state = None;
            cache.last_update_ms = Some(now_ms);
        },
    }
}

} // verus!
