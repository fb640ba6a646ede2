//! NTP timestamps and their conversion to and from durations since the Unix
//! epoch.
//!
//! An NTP timestamp is a 64-bit unsigned fixed-point value: the high 32 bits
//! count seconds since the NTP epoch (1900-01-01T00:00:00Z), the low 32 bits
//! hold a fraction of a second scaled by 2^32. Durations since the Unix epoch
//! are represented by [`UnixTime`], whole seconds plus nanoseconds, and the
//! conversions account for the 2,208,988,800-second offset between the two
//! epochs.

use vstd::arithmetic::div_mod::{
    lemma_div_is_ordered, lemma_fundamental_div_mod, lemma_fundamental_div_mod_converse,
    lemma_small_mod,
};
use vstd::prelude::*;

verus! {

/// Seconds from the NTP epoch (1900-01-01) to the Unix epoch (1970-01-01).
pub const NTP_UNIX_EPOCH_OFFSET_SECS: u64 = 2_208_988_800;

/// A duration since the Unix epoch: whole seconds plus a nanosecond
/// remainder.
#[derive(Clone, Copy, Debug, PartialEq, Eq, Structural)]
pub struct UnixTime {
    pub secs: u64,
    pub nanos: u32,
}

impl UnixTime {
    /// The nanosecond part is a proper sub-second remainder.
    pub open spec fn wf(self) -> bool {
        self.nanos < 1_000_000_000
    }

    /// The whole duration, in nanoseconds.
    pub open spec fn total_nanos(self) -> int {
        self.secs * 1_000_000_000 + self.nanos
    }

    pub fn new(secs: u64, nanos: u32) -> (r: UnixTime)
        requires
            nanos < 1_000_000_000,
        ensures
            r.wf(),
            r.secs == secs,
            r.nanos == nanos,
    {
        UnixTime { secs, nanos }
    }
}

/// The fractional-second field of an NTP timestamp encoding `nanos`
/// nanoseconds: the fraction scaled by 2^32, rounded down.
pub open spec fn spec_ntp_fraction_of_nanos(nanos: int) -> int {
    nanos * 0x1_0000_0000 / 1_000_000_000
}

/// The NTP timestamp encoding a duration of `secs` seconds and `nanos`
/// nanoseconds since the Unix epoch. Seconds past the end of the first NTP
/// era wrap around, as the 32-bit seconds field forces.
pub open spec fn spec_duration_to_ntp_timestamp(secs: int, nanos: int) -> int {
    ((secs + 2_208_988_800) % 0x1_0000_0000) * 0x1_0000_0000 + spec_ntp_fraction_of_nanos(nanos)
}

/// The seconds since the Unix epoch named by NTP timestamp `t`.
pub open spec fn spec_ntp_timestamp_secs(t: int) -> int {
    t / 0x1_0000_0000 - 2_208_988_800
}

/// The nanosecond remainder named by NTP timestamp `t`: the 2^32-scaled
/// fraction converted to nanoseconds, rounded down.
pub open spec fn spec_ntp_timestamp_nanos(t: int) -> int {
    (t % 0x1_0000_0000) * 1_000_000_000 / 0x1_0000_0000
}

/// Convert a duration since the Unix epoch to NTP timestamp form.
pub fn duration_to_ntp_timestamp(d: &UnixTime) -> (r: u64)
    requires
        d.wf(),
        d.secs + 2_208_988_800 <= u64::MAX,
    ensures
        r == spec_duration_to_ntp_timestamp(d.secs as int, d.nanos as int),
{
    let seconds_1900: u64 = (d.secs + NTP_UNIX_EPOCH_OFFSET_SECS) % 0x1_0000_0000;
    let fraction: u64 = (d.nanos as u64) * 0x1_0000_0000 / 1_000_000_000;
    proof {
        lemma_div_is_ordered(
            (d.nanos as int) * 0x1_0000_0000,
            999_999_999int * 0x1_0000_0000,
            1_000_000_000,
        );
    }
    seconds_1900 * 0x1_0000_0000 + fraction
}

/// Convert an NTP timestamp to a duration since the Unix epoch.
///
/// Timestamps before the Unix epoch (seconds field under the epoch offset)
/// have no such representation and are left out.
pub fn ntp_timestamp_to_duration(t: u64) -> (r: UnixTime)
    requires
        t / 0x1_0000_0000 >= 2_208_988_800,
    ensures
        r.wf(),
        r.secs == spec_ntp_timestamp_secs(t as int),
        r.nanos == spec_ntp_timestamp_nanos(t as int),
{
    let seconds: u64 = t / 0x1_0000_0000 - NTP_UNIX_EPOCH_OFFSET_SECS;
    let fraction: u64 = t % 0x1_0000_0000;
    let nanos: u64 = fraction * 1_000_000_000 / 0x1_0000_0000;
    proof {
        lemma_div_is_ordered(
            (fraction as int) * 1_000_000_000,
            0xFFFF_FFFFint * 1_000_000_000,
            0x1_0000_0000,
        );
    }
    UnixTime { secs: seconds, nanos: nanos as u32 }
}

/// Converting a duration to an NTP timestamp and back returns the duration
/// unchanged, whenever the duration falls inside the first NTP era and its
/// sub-second part is an exact multiple of the timestamp resolution of
/// 1/2^32 second.
pub proof fn lemma_ntp_timestamp_round_trip(d: UnixTime)
    requires
        d.wf(),
        d.secs + 2_208_988_800 < 0x1_0000_0000,
        (d.nanos as int) * 0x1_0000_0000 % 1_000_000_000 == 0,
    ensures
        spec_ntp_timestamp_secs(spec_duration_to_ntp_timestamp(d.secs as int, d.nanos as int))
            == d.secs,
        spec_ntp_timestamp_nanos(spec_duration_to_ntp_timestamp(d.secs as int, d.nanos as int))
            == d.nanos,
{
    let s1900 = d.secs + 2_208_988_800;
    lemma_small_mod(s1900 as nat, 0x1_0000_0000);
    let f = spec_ntp_fraction_of_nanos(d.nanos as int);
    lemma_div_is_ordered(
        (d.nanos as int) * 0x1_0000_0000,
        999_999_999int * 0x1_0000_0000,
        1_000_000_000,
    );
    lemma_fundamental_div_mod((d.nanos as int) * 0x1_0000_0000, 1_000_000_000);
    assert(f * 1_000_000_000 == (d.nanos as int) * 0x1_0000_0000);
    let t = spec_duration_to_ntp_timestamp(d.secs as int, d.nanos as int);
    lemma_fundamental_div_mod_converse(t, 0x1_0000_0000, s1900 as int, f);
    lemma_fundamental_div_mod_converse(f * 1_000_000_000, 0x1_0000_0000, d.nanos as int, 0);
}

} // verus!
