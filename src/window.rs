//! Short-lived cache of the frontmost-window capture.

use vstd::prelude::*;
use vstd::string::*;
use crate::snapshot::WindowInfo;

verus! {

/// How long a window capture stays fresh, in milliseconds.
pub const WINDOW_CACHE_DURATION_MS: u64 = 100;

/// The last capture, when it was taken and for which process.
pub struct WindowCache {
    pub info: Option<WindowInfo>,
    pub last_update_ms: Option<u64>,
    pub last_pid: i32,
}

impl WindowCache {
    /// An empty cache, which never hits.
    pub fn new() -> (r: WindowCache)
        ensures
            r.info is None,
            r.last_update_ms is None,
            r.last_pid == 0,
    {
        WindowCache { info: None, last_update_ms: None, last_pid: 0 }
    }

    /// Whether the cached capture can stand for process `pid` at `now_ms`:
    /// same process, taken less than the cache duration ago (a clock that
    /// went backwards counts as no time elapsed).
    pub fn hit(&self, pid: i32, now_ms: u64) -> (r: bool)
        ensures
            r == (self.info is Some && self.last_pid == pid && match self.last_update_ms {
                Some(t) => now_ms <= t || now_ms - t < WINDOW_CACHE_DURATION_MS,
                None => false,
            }),
    {
        if self.info.is_none() || self.last_pid != pid {
            return false;
        }
        match self.last_update_ms {
            Some(t) => now_ms <= t || now_ms - t < WINDOW_CACHE_DURATION_MS,
            None => false,
        }
    }

    /// Records a fresh capture of process `pid` at `now_ms`.
    pub fn store(&mut self, info: WindowInfo, pid: i32, now_ms: u64)
        ensures
            final(self).info == Some(info),
            final(self).last_pid == pid,
            final(self).last_update_ms == Some(now_ms),
    {
        self.info = Some(info);
        self.last_pid = pid;
        self.last_update_ms = Some(now_ms);
    }
}

/// The key under which an application icon is cached: its bundle id, or
/// `unknown` without one.
pub fn icon_cache_key(bundle_id: &Option<String>) -> (r: String)
    ensures
        r@ == match bundle_id {
            Some(b) => b@,
            None => "unknown"@,
        },
{
    match bundle_id {
        Some(b) => b.clone(),
        None => String::from_str("unknown"),
    }
}

} // verus!
