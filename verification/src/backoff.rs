//! The polling schedule: how long to wait before the next status query,
//! as a function of the time spent waiting so far.

use vstd::prelude::*;

verus! {

/// Nanoseconds in one second.
pub const NANOS_PER_SEC: u32 = 1_000_000_000;

/// From this many seconds of waiting on, the middle interval applies.
pub const MID_THRESHOLD_SECS: u64 = 180;

/// From this many seconds of waiting on, the long interval applies.
pub const LONG_THRESHOLD_SECS: u64 = 360;

/// Seconds between queries during the first three minutes.
pub const SHORT_INTERVAL_SECS: u64 = 20;

/// Seconds between queries from three to six minutes.
pub const MID_INTERVAL_SECS: u64 = 40;

/// Seconds between queries from six minutes on.
pub const LONG_INTERVAL_SECS: u64 = 120;

/// The interval, in seconds, that the schedule assigns to an elapsed time
/// given in nanoseconds.
pub open spec fn interval_at(elapsed_nanos: nat) -> nat {
    if elapsed_nanos < 180 * 1_000_000_000 {
        20
    } else if elapsed_nanos < 360 * 1_000_000_000 {
        40
    } else {
        120
    }
}

/// Time elapsed since polling began: whole seconds and the nanoseconds
/// beyond them. Its view is the elapsed time in nanoseconds.
#[derive(Clone, Copy, Debug, PartialEq, Eq)]
pub struct ElapsedTime {
    secs: u64,
    nanos: u32,
}

impl View for ElapsedTime {
    type V = nat;

    closed spec fn view(&self) -> nat {
        (self.secs as nat) * 1_000_000_000 + self.nanos as nat
    }
}

impl ElapsedTime {
    /// The nanosecond part stays below one second.
    #[verifier::type_invariant]
    closed spec fn well_formed(self) -> bool {
        self.nanos < NANOS_PER_SEC
    }

    /// `secs` seconds and `nanos` nanoseconds, where `nanos` is less than
    /// a second; `None` where it is not.
    pub fn new(secs: u64, nanos: u32) -> (elapsed: Option<ElapsedTime>)
        ensures
            match elapsed {
                Some(e) => nanos < NANOS_PER_SEC && e@ == secs as nat * 1_000_000_000
                    + nanos as nat,
                None => nanos >= NANOS_PER_SEC,
            },
    {
        if nanos < NANOS_PER_SEC {
            Some(ElapsedTime { secs, nanos })
        } else {
            None
        }
    }

    /// An elapsed time of `secs` whole seconds.
    pub fn from_secs(secs: u64) -> (elapsed: ElapsedTime)
        ensures
            elapsed@ == secs as nat * 1_000_000_000,
    {
        ElapsedTime { secs, nanos: 0 }
    }

    /// The whole seconds of the elapsed time.
    pub fn as_secs(&self) -> (secs: u64)
        ensures
            secs == self@ / 1_000_000_000,
    {
        proof {
            use_type_invariant(self);
        }
        self.secs
    }

    /// The nanoseconds beyond the whole seconds.
    pub fn subsec_nanos(&self) -> (nanos: u32)
        ensures
            nanos == self@ % 1_000_000_000,
    {
        proof {
            use_type_invariant(self);
        }
        self.nanos
    }
}

/// Seconds to sleep before the next status query, `elapsed` after polling
/// began: 20 during the first three minutes, 40 from three to six minutes,
/// 120 from six minutes on.
pub fn interval(elapsed: ElapsedTime) -> (secs: u64)
    ensures
        secs == interval_at(elapsed@),
        elapsed@ < 180 * 1_000_000_000 ==> secs == 20,
        180 * 1_000_000_000 <= elapsed@ < 360 * 1_000_000_000 ==> secs == 40,
        360 * 1_000_000_000 <= elapsed@ ==> secs == 120,
{
    let whole: u64 = elapsed.as_secs();
    if whole >= LONG_THRESHOLD_SECS {
        LONG_INTERVAL_SECS
    } else if whole >= MID_THRESHOLD_SECS {
        MID_INTERVAL_SECS
    } else {
        SHORT_INTERVAL_SECS
    }
}

/// The schedule only ever slows down: a later moment never gets a shorter
/// interval than an earlier one.
pub proof fn law_interval_never_shrinks(earlier: nat, later: nat)
    requires
        earlier <= later,
    ensures
        interval_at(earlier) <= interval_at(later),
{
}

} // verus!
