//! The decisions of one SNTP exchange, as pure functions: forming the server
//! address, building the client request, validating the response against the
//! request's transmit timestamp, and reducing the four exchange instants
//! (t1, t2, t3, t4) to an absolute time or a clock offset.
//!
//! t1 is the local send instant, t2 the server receive instant, t3 the
//! server transmit instant and t4 the local receive instant. The caller
//! performs the UDP send and receive and captures t1 and t4 from its clock;
//! everything that can be decided from plain values is decided here.

use crate::codec::{spec_client_msg, spec_parse, spec_wire, NtpMsg};
use crate::timestamp::UnixTime;
use crate::NtpError;
use vstd::arithmetic::div_mod::{
    lemma_div_is_ordered, lemma_fundamental_div_mod, lemma_fundamental_div_mod_converse,
};
use vstd::prelude::*;
use vstd::string::{StrSliceExecFns, StringExecFns};

verus! {

/// The protocol version this client speaks.
pub const NTP_VERSION_4: u8 = 4;

/// The mode field of a client request.
pub const NTP_MODE_CLIENT: u8 = 3;

/// Form the address to associate the socket with: the server string as
/// given when it already carries a port, otherwise with the standard SNTP
/// port 123 appended.
pub fn getaddr(svr: &str) -> (r: String)
    ensures
        (exists|i: int| 0 <= i < svr@.len() && svr@[i] == ':') ==> r@ == svr@,
        !(exists|i: int| 0 <= i < svr@.len() && svr@[i] == ':') ==> r@ == svr@ + ":123"@,
{
    let n = svr.unicode_len();
    let mut i: usize = 0;
    let mut has_colon = false;
    while i < n
        invariant
            i <= n,
            n == svr@.len(),
            has_colon ==> exists|j: int| 0 <= j < svr@.len() && svr@[j] == ':',
            !has_colon ==> forall|j: int| 0 <= j < i ==> svr@[j] != ':',
        decreases n - i,
    {
        if svr.get_char(i) == ':' {
            has_colon = true;
        }
        i += 1;
    }
    if has_colon {
        svr.to_owned()
    } else {
        let mut r = svr.to_owned();
        r.append(":");
        r.append("123");
        proof {
            reveal_strlit(":");
            reveal_strlit("123");
            reveal_strlit(":123");
            assert(r@ =~= svr@ + ":123"@);
        }
        r
    }
}

/// The wire form of the one request this client sends: version 4, client
/// mode, the given transmit timestamp, every other field zero.
pub open spec fn spec_client_request(transmit_timestamp: u64) -> Seq<u8> {
    spec_wire(spec_client_msg(4, transmit_timestamp))
}

/// Build and serialize the client request around the captured transmit
/// timestamp.
pub fn build_client_request(transmit_timestamp: u64) -> (r: Vec<u8>)
    ensures
        r@ == spec_client_request(transmit_timestamp),
        r@.len() == 48,
{
    let msg = NtpMsg::new_for_client(NTP_VERSION_4, transmit_timestamp);
    msg.marshal()
}

/// Check a received buffer against the transmit timestamp embedded in the
/// request, and hand back the server's receive and transmit timestamps.
///
/// A buffer whose length is not exactly 48 is refused as truncated; a
/// 48-byte buffer whose originate timestamp does not echo the request
/// exactly is refused as untrusted; any other 48-byte buffer is accepted.
pub fn validate_response(expected_originate: u64, data: &[u8]) -> (r: Result<
    (u64, u64),
    NtpError,
>)
    ensures
        data@.len() != 48 ==> (r matches Err(NtpError::TruncatedNtpMessage)),
        data@.len() == 48 && spec_parse(data@).originate_timestamp != expected_originate ==> (
        r matches Err(NtpError::UntrustedMessage)),
        data@.len() == 48 && spec_parse(data@).originate_timestamp == expected_originate ==> (
        r matches Ok(ts) && ts.0 == spec_parse(data@).receiver_timestamp && ts.1 == spec_parse(
            data@,
        ).transmit_timestamp),
{
    let mut msg = NtpMsg::new();
    match msg.unmarshal(data) {
        Err(e) => Err(e),
        Ok(()) => {
            if msg.originate_timestamp != expected_originate {
                Err(NtpError::UntrustedMessage)
            } else {
                Ok((msg.receiver_timestamp, msg.transmit_timestamp))
            }
        },
    }
}

/// The largest duration a [`UnixTime`] can hold, in nanoseconds.
pub open spec fn spec_max_unix_time_nanos() -> int {
    0xFFFF_FFFF_FFFF_FFFFint * 1_000_000_000 + 999_999_999
}

/// The midpoint estimate of the server's time: (t1 + t2 + t3 - t4) / 2, in
/// nanoseconds, rounded down.
pub open spec fn spec_unix_timestamp_nanos(
    t1: UnixTime,
    t2: UnixTime,
    t3: UnixTime,
    t4: UnixTime,
) -> int {
    (t1.total_nanos() + t2.total_nanos() + t3.total_nanos() - t4.total_nanos()) / 2
}

/// Reduce the four instants of an exchange to the current true time:
/// (t1 + t2 + t3 - t4) / 2, the SNTP estimate referenced to the midpoint of
/// the round trip.
pub fn unix_timestamp(t1: UnixTime, t2: UnixTime, t3: UnixTime, t4: UnixTime) -> (r: UnixTime)
    requires
        t1.wf(),
        t2.wf(),
        t3.wf(),
        t4.wf(),
        t1.total_nanos() + t2.total_nanos() + t3.total_nanos() >= t4.total_nanos(),
        spec_unix_timestamp_nanos(t1, t2, t3, t4) <= spec_max_unix_time_nanos(),
    ensures
        r.wf(),
        r.total_nanos() == spec_unix_timestamp_nanos(t1, t2, t3, t4),
{
    let n1: u128 = t1.secs as u128 * 1_000_000_000 + t1.nanos as u128;
    let n2: u128 = t2.secs as u128 * 1_000_000_000 + t2.nanos as u128;
    let n3: u128 = t3.secs as u128 * 1_000_000_000 + t3.nanos as u128;
    let n4: u128 = t4.secs as u128 * 1_000_000_000 + t4.nanos as u128;
    let half: u128 = (n1 * 2 + n2 + n3 - n1 - n4) / 2;
    proof {
        lemma_div_is_ordered(half as int, spec_max_unix_time_nanos(), 1_000_000_000);
        lemma_fundamental_div_mod_converse(
            spec_max_unix_time_nanos(),
            1_000_000_000,
            0xFFFF_FFFF_FFFF_FFFF,
            999_999_999,
        );
        lemma_fundamental_div_mod(half as int, 1_000_000_000);
    }
    let secs: u64 = (half / 1_000_000_000) as u64;
    let nanos: u32 = (half % 1_000_000_000) as u32;
    UnixTime { secs, nanos }
}

/// Division by two that rounds toward zero, as machine signed division does.
pub open spec fn spec_div2_trunc(x: int) -> int {
    if x >= 0 {
        x / 2
    } else {
        -((-x) / 2)
    }
}

/// The clock offset ((t2 - t1) + (t3 - t4)) / 2 in nanoseconds: the whole
/// seconds of the difference, halved exactly, plus the halved nanosecond
/// remainder, each half rounded toward zero.
pub open spec fn spec_clock_offset_nanos(
    t1: UnixTime,
    t2: UnixTime,
    t3: UnixTime,
    t4: UnixTime,
) -> int {
    (t2.secs - t1.secs + t3.secs - t4.secs) * 500_000_000 + spec_div2_trunc(
        t2.nanos - t1.nanos + t3.nanos - t4.nanos,
    )
}

/// Reduce the four instants of an exchange to the local clock's offset from
/// the server, in signed nanoseconds: ((t2 - t1) + (t3 - t4)) / 2.
pub fn clock_offset_nanos(t1: UnixTime, t2: UnixTime, t3: UnixTime, t4: UnixTime) -> (r: i64)
    requires
        t1.wf(),
        t2.wf(),
        t3.wf(),
        t4.wf(),
        t1.secs <= i64::MAX,
        t2.secs <= i64::MAX,
        t3.secs <= i64::MAX,
        t4.secs <= i64::MAX,
        i64::MIN <= (t2.secs - t1.secs + t3.secs - t4.secs) * 1_000_000_000,
        (t2.secs - t1.secs + t3.secs - t4.secs) * 1_000_000_000 <= i64::MAX,
    ensures
        r == spec_clock_offset_nanos(t1, t2, t3, t4),
{
    let ds: i128 = t2.secs as i128 - t1.secs as i128 + t3.secs as i128 - t4.secs as i128;
    let sec_part: i128 = ds * 500_000_000;
    let dn: i64 = t2.nanos as i64 - t1.nanos as i64 + t3.nanos as i64 - t4.nanos as i64;
    let nano_part: i64 = if dn >= 0 {
        ((dn as u64) / 2) as i64
    } else {
        -((((-dn) as u64) / 2) as i64)
    };
    (sec_part + nano_part as i128) as i64
}

} // verus!
