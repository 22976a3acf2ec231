//! Thresholds that drive the session-boundary policy and the large-file
//! externalization policy, injectable for testability.

use vstd::prelude::*;

verus! {

/// Tuning knobs of the watcher. `idle_secs` and `max_session_secs` bound a
/// session's quiet time and total age; `large_file_bytes` is the size above
/// which a file's content is diverted to the external content store.
pub struct WatchConfig {
    /// A session closes once no activity was recorded for more than this many seconds.
    pub idle_secs: u64,
    /// A session closes once it has been open for more than this many seconds.
    pub max_session_secs: u64,
    /// Files strictly larger than this many bytes are externalized.
    pub large_file_bytes: u64,
}

impl Default for WatchConfig {
    /// The stock thresholds: five minutes idle, one hour maximum age,
    /// one hundred million bytes for the large-file cutoff.
    fn default() -> (r: Self)
        ensures
            r.idle_secs == 300,
            r.max_session_secs == 3600,
            r.large_file_bytes == 100000000,
    {
        WatchConfig { idle_secs: 300, max_session_secs: 3600, large_file_bytes: 100000000 }
    }
}

} // verus!
