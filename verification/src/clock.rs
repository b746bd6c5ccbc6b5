//! Wall-clock readings, kept apart so every time-dependent decision can be
//! stated for an arbitrary reading.

use std::time::{SystemTime, UNIX_EPOCH};
use vstd::prelude::*;

verus! {

/// A point in time as whole seconds plus a sub-second part since the Unix epoch.
#[derive(Clone, Copy, Debug, PartialEq, Eq)]
pub struct UnixTime {
    pub secs: u64,
    pub nanos: u32,
}

impl UnixTime {
    /// The sub-second part is a proper fraction of a second.
    pub open spec fn wf(self) -> bool {
        self.nanos < 1_000_000_000
    }
}

/// Reads the system clock: `SystemTime::now()` measured from `UNIX_EPOCH`.
/// Nothing is promised of the reading beyond its sub-second part being below
/// one second; a clock set before the epoch reads as the epoch itself.
#[verifier::external_body]
pub(crate) fn now_unix_time() -> (t: UnixTime)
    ensures
        t.wf(),
{
    let since_epoch = SystemTime::now().duration_since(UNIX_EPOCH).unwrap_or_default();
    UnixTime { secs: since_epoch.as_secs(), nanos: since_epoch.subsec_nanos() }
}

/// Whole seconds since the Unix epoch according to the system clock.
pub fn now_unix_secs() -> (secs: u64)
    ensures
        exists|t: UnixTime| t.wf() && t.secs == secs,
{
    let t = now_unix_time();
    t.secs
}

} // verus!
