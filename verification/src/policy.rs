//! Session-boundary policy: given a session's timestamps and the current
//! wall-clock time, decide whether the session's unit of work has ended.

use vstd::prelude::*;
use crate::config::WatchConfig;

verus! {

/// The timestamps of one open session, both in epoch seconds: `start_ts`
/// when the session was opened, `last_ts` when activity was last recorded.
#[derive(Clone, Copy, PartialEq, Eq, Structural)]
pub struct SessionMeta {
    pub start_ts: u64,
    pub last_ts: u64,
}

/// A session closes iff it has been idle for more than `idle` seconds or
/// open for more than `max_age` seconds. Elapsed times are mathematical
/// differences, so a timestamp in the future never counts toward closure.
pub open spec fn closes(meta: SessionMeta, now: u64, idle: u64, max_age: u64) -> bool {
    now - meta.last_ts > idle || now - meta.start_ts > max_age
}

/// Decide whether the open session described by `meta` is ready to close at
/// time `now`. Boundary values do not close: exactly `idle_secs` of quiet or
/// exactly `max_session_secs` of age keeps the session open.
pub fn should_close(meta: &SessionMeta, now: u64, cfg: &WatchConfig) -> (r: bool)
    ensures
        r == closes(*meta, now, cfg.idle_secs, cfg.max_session_secs),
{
    let elapsed_last: u64 = if now > meta.last_ts {
        now - meta.last_ts
    } else {
        0
    };
    let elapsed_start: u64 = if now > meta.start_ts {
        now - meta.start_ts
    } else {
        0
    };
    elapsed_last > cfg.idle_secs || elapsed_start > cfg.max_session_secs
}

/// One timer tick's decision: a snapshot is due iff a session is open and
/// `should_close` holds of its timestamps.
pub fn tick_decision(session: &Option<SessionMeta>, now: u64, cfg: &WatchConfig) -> (r: bool)
    ensures
        r == match *session {
            Some(meta) => closes(meta, now, cfg.idle_secs, cfg.max_session_secs),
            None => false,
        },
{
    match session {
        Some(meta) => should_close(meta, now, cfg),
        None => false,
    }
}

} // verus!
