//! Snapshots handed in by the platform layer.

use vstd::prelude::*;

verus! {

/// The frontmost window.
#[derive(Clone, Debug)]
pub struct WindowInfo {
    pub title: String,
    /// PNG bytes of the application icon; not reported.
    pub icon_data: Option<Vec<u8>>,
    pub process_name: String,
    pub pid: i32,
    /// Bundle identifier or executable path.
    pub app_id: Option<String>,
}

/// Playback state of the current media.
///
/// The rate is in hundredths (100 is normal speed) and the elapsed time in
/// milliseconds.
#[derive(Clone, Debug)]
pub struct PlaybackState {
    pub playing: bool,
    pub playback_rate: i64,
    pub elapsed_ms: u64,
}

/// Metadata of the current media.
///
/// The duration is in milliseconds; the artwork is base64 text.
#[derive(Clone, Debug)]
pub struct MediaMetadata {
    pub bundle_identifier: Option<String>,
    pub title: Option<String>,
    pub artist: Option<String>,
    pub album: Option<String>,
    pub duration_ms: u64,
    pub artwork_data: Option<String>,
    pub artwork_mime_type: Option<String>,
    pub content_item_identifier: Option<String>,
}

/// What a platform offers to the reporter.
pub trait PlatformProvider {
    /// Asks for the permissions that window observation needs.
    fn request_permissions() -> Result<bool, String>;

    /// Whether those permissions are granted.
    fn check_permissions() -> bool;

    /// The frontmost window.
    fn get_frontmost_window() -> Result<WindowInfo, String>;

    /// All windows.
    fn get_all_windows() -> Result<Vec<WindowInfo>, String>;
}

/// Copy of an optional string.
pub fn clone_opt_string(o: &Option<String>) -> (r: Option<String>)
    ensures
        r == *o,
{
    match o {
        None => None,
        Some(s) => Some(s.clone()),
    }
}

/// Copy of optional bytes.
pub fn clone_opt_bytes(o: &Option<Vec<u8>>) -> (r: Option<Vec<u8>>)
    ensures
        match (r, *o) {
            (None, None) => true,
            (Some(a), Some(b)) => a@ == b@,
            _ => false,
        },
{
    match o {
        None => None,
        Some(v) => {
            let mut out: Vec<u8> = Vec::new();
            let mut i: usize = 0;
            while i < v.len()
                invariant
                    i <= v@.len(),
                    out@ == v@.subrange(0, i as int),
                decreases v@.len() - i,
            {
                out.push(v[i]);
                i = i + 1;
                assert(out@ =~= v@.subrange(0, i as int));
            }
            assert(v@.subrange(0, v@.len() as int) =~= v@);
            Some(out)
        },
    }
}

} // verus!
