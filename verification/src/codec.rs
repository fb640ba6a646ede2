//! The 48-byte SNTP wire message and its codec.
//!
//! A message is serialized to exactly 48 octets: a flags byte packing the
//! leap indicator (2 bits), version number (3 bits) and mode (3 bits),
//! followed by stratum, poll and precision bytes, three 4-byte words (root
//! delay, root dispersion, reference identifier) and four 8-byte NTP
//! timestamps (reference, originate, receive, transmit), all in network byte
//! order.

use crate::NtpError;
use vstd::arithmetic::div_mod::{
    lemma_div_denominator, lemma_div_is_ordered, lemma_fundamental_div_mod,
    lemma_fundamental_div_mod_converse, lemma_mod_multiples_vanish, lemma_small_mod,
};
use vstd::prelude::*;

verus! {

/// An SNTP message, one field per wire field.
#[derive(Clone, Copy, Debug, PartialEq, Eq, Structural)]
pub struct NtpMsg {
    pub leap_indicator: u8,
    pub version_number: u8,
    pub mode: u8,
    pub stratum: u8,
    pub poll: u8,
    pub precision: u8,
    pub root_delay: u32,
    pub root_dispersion: u32,
    pub reference_identifier: u32,
    pub reference_timestamp: u64,
    pub originate_timestamp: u64,
    pub receiver_timestamp: u64,
    pub transmit_timestamp: u64,
}

/// The byte of `v` whose place value is `unit` in a big-endian encoding.
pub open spec fn spec_be_byte(v: int, unit: int) -> u8 {
    (v / unit % 256) as u8
}

/// The four bytes of `v` in network byte order.
pub open spec fn spec_be_u32(v: u32) -> Seq<u8> {
    seq![
        spec_be_byte(v as int, 0x100_0000),
        spec_be_byte(v as int, 0x1_0000),
        spec_be_byte(v as int, 0x100),
        spec_be_byte(v as int, 1),
    ]
}

/// The eight bytes of `v` in network byte order.
pub open spec fn spec_be_u64(v: u64) -> Seq<u8> {
    seq![
        spec_be_byte(v as int, 0x100_0000_0000_0000),
        spec_be_byte(v as int, 0x1_0000_0000_0000),
        spec_be_byte(v as int, 0x100_0000_0000),
        spec_be_byte(v as int, 0x1_0000_0000),
        spec_be_byte(v as int, 0x100_0000),
        spec_be_byte(v as int, 0x1_0000),
        spec_be_byte(v as int, 0x100),
        spec_be_byte(v as int, 1),
    ]
}

/// The 4-byte word stored in network byte order at `off` in `s`.
pub open spec fn spec_u32_at(s: Seq<u8>, off: int) -> u32 {
    (s[off] * 0x100_0000 + s[off + 1] * 0x1_0000 + s[off + 2] * 0x100 + s[off + 3]) as u32
}

/// The 8-byte word stored in network byte order at `off` in `s`.
pub open spec fn spec_u64_at(s: Seq<u8>, off: int) -> u64 {
    (s[off] * 0x100_0000_0000_0000 + s[off + 1] * 0x1_0000_0000_0000 + s[off + 2] * 0x100_0000_0000
        + s[off + 3] * 0x1_0000_0000 + s[off + 4] * 0x100_0000 + s[off + 5] * 0x1_0000
        + s[off + 6] * 0x100 + s[off + 7]) as u64
}

impl NtpMsg {
    /// The three packed fields fit their widths in the flags byte.
    pub open spec fn wf(self) -> bool {
        self.leap_indicator < 4 && self.version_number < 8 && self.mode < 8
    }

    /// The flags byte: leap indicator, version number and mode packed into
    /// their 2-, 3- and 3-bit fields.
    pub open spec fn spec_flags_byte(self) -> u8 {
        (self.leap_indicator * 64 + self.version_number * 8 + self.mode) as u8
    }
}

/// The 48-byte serialization of `m`.
pub open spec fn spec_wire(m: NtpMsg) -> Seq<u8> {
    seq![m.spec_flags_byte(), m.stratum, m.poll, m.precision] + spec_be_u32(m.root_delay)
        + spec_be_u32(m.root_dispersion) + spec_be_u32(m.reference_identifier)
        + spec_be_u64(m.reference_timestamp) + spec_be_u64(m.originate_timestamp)
        + spec_be_u64(m.receiver_timestamp) + spec_be_u64(m.transmit_timestamp)
}

/// The message whose serialization is the 48-byte buffer `s`.
pub open spec fn spec_parse(s: Seq<u8>) -> NtpMsg {
    NtpMsg {
        leap_indicator: s[0] / 64,
        version_number: s[0] / 8 % 8,
        mode: s[0] % 8,
        stratum: s[1],
        poll: s[2],
        precision: s[3],
        root_delay: spec_u32_at(s, 4),
        root_dispersion: spec_u32_at(s, 8),
        reference_identifier: spec_u32_at(s, 12),
        reference_timestamp: spec_u64_at(s, 16),
        originate_timestamp: spec_u64_at(s, 24),
        receiver_timestamp: spec_u64_at(s, 32),
        transmit_timestamp: spec_u64_at(s, 40),
    }
}

/// Append the four bytes of `v` in network byte order.
fn push_be_u32(data: &mut Vec<u8>, v: u32)
    ensures
        final(data)@ == old(data)@ + spec_be_u32(v),
{
    data.push((v / 0x100_0000 % 256) as u8);
    data.push((v / 0x1_0000 % 256) as u8);
    data.push((v / 0x100 % 256) as u8);
    data.push((v % 256) as u8);
    proof {
        assert(data@ =~= old(data)@ + spec_be_u32(v));
    }
}

/// Append the eight bytes of `v` in network byte order.
fn push_be_u64(data: &mut Vec<u8>, v: u64)
    ensures
        final(data)@ == old(data)@ + spec_be_u64(v),
{
    data.push((v / 0x100_0000_0000_0000 % 256) as u8);
    data.push((v / 0x1_0000_0000_0000 % 256) as u8);
    data.push((v / 0x100_0000_0000 % 256) as u8);
    data.push((v / 0x1_0000_0000 % 256) as u8);
    data.push((v / 0x100_0000 % 256) as u8);
    data.push((v / 0x1_0000 % 256) as u8);
    data.push((v / 0x100 % 256) as u8);
    data.push((v % 256) as u8);
    proof {
        assert(data@ =~= old(data)@ + spec_be_u64(v));
    }
}

/// Read the 4-byte word stored in network byte order at `off`.
fn read_be_u32(data: &[u8], off: usize) -> (r: u32)
    requires
        off + 4 <= data@.len(),
    ensures
        r == spec_u32_at(data@, off as int),
{
    (data[off] as u32) * 0x100_0000 + (data[off + 1] as u32) * 0x1_0000
        + (data[off + 2] as u32) * 0x100 + (data[off + 3] as u32)
}

/// Read the 8-byte word stored in network byte order at `off`.
fn read_be_u64(data: &[u8], off: usize) -> (r: u64)
    requires
        off + 8 <= data@.len(),
    ensures
        r == spec_u64_at(data@, off as int),
{
    (data[off] as u64) * 0x100_0000_0000_0000 + (data[off + 1] as u64) * 0x1_0000_0000_0000
        + (data[off + 2] as u64) * 0x100_0000_0000 + (data[off + 3] as u64) * 0x1_0000_0000
        + (data[off + 4] as u64) * 0x100_0000 + (data[off + 5] as u64) * 0x1_0000
        + (data[off + 6] as u64) * 0x100 + (data[off + 7] as u64)
}

impl NtpMsg {
    /// An all-zero message.
    pub fn new() -> (r: NtpMsg)
        ensures
            r == spec_zero_msg(),
            r.wf(),
    {
        NtpMsg {
            leap_indicator: 0,
            version_number: 0,
            mode: 0,
            stratum: 0,
            poll: 0,
            precision: 0,
            root_delay: 0,
            root_dispersion: 0,
            reference_identifier: 0,
            reference_timestamp: 0,
            originate_timestamp: 0,
            receiver_timestamp: 0,
            transmit_timestamp: 0,
        }
    }

    /// A client request: leap indicator 0, the given version, client mode,
    /// the given transmit timestamp, every other field zero.
    pub fn new_for_client(version: u8, transmit_timestamp: u64) -> (r: NtpMsg)
        ensures
            r == spec_client_msg(version, transmit_timestamp),
            version < 8 ==> r.wf(),
    {
        NtpMsg {
            leap_indicator: 0,
            version_number: version,
            mode: 3,
            stratum: 0,
            poll: 0,
            precision: 0,
            root_delay: 0,
            root_dispersion: 0,
            reference_identifier: 0,
            reference_timestamp: 0,
            originate_timestamp: 0,
            receiver_timestamp: 0,
            transmit_timestamp,
        }
    }

    /// Serialize to the 48-byte wire form.
    pub fn marshal(&self) -> (r: Vec<u8>)
        requires
            self.wf(),
        ensures
            r@ == spec_wire(*self),
            r@.len() == 48,
    {
        let mut data: Vec<u8> = Vec::new();
        data.push(self.leap_indicator * 64 + self.version_number * 8 + self.mode);
        data.push(self.stratum);
        data.push(self.poll);
        data.push(self.precision);
        proof {
            assert(data@ =~= seq![self.spec_flags_byte(), self.stratum, self.poll, self.precision]);
        }
        push_be_u32(&mut data, self.root_delay);
        push_be_u32(&mut data, self.root_dispersion);
        push_be_u32(&mut data, self.reference_identifier);
        push_be_u64(&mut data, self.reference_timestamp);
        push_be_u64(&mut data, self.originate_timestamp);
        push_be_u64(&mut data, self.receiver_timestamp);
        push_be_u64(&mut data, self.transmit_timestamp);
        data
    }

    /// Deserialize from a buffer. Any buffer whose length is not exactly 48
    /// is refused with a truncated-message error and the message is left
    /// unchanged; a 48-byte buffer always parses.
    pub fn unmarshal(&mut self, data: &[u8]) -> (r: Result<(), NtpError>)
        ensures
            data@.len() == 48 ==> r is Ok && *final(self) == spec_parse(data@)
                && final(self).wf(),
            data@.len() != 48 ==> (r matches Err(NtpError::TruncatedNtpMessage))
                && *final(self) == *old(self),
    {
        if data.len() != 48 {
            return Err(NtpError::TruncatedNtpMessage);
        }
        let flags = data[0];
        self.leap_indicator = flags / 64;
        self.version_number = flags / 8 % 8;
        self.mode = flags % 8;
        self.stratum = data[1];
        self.poll = data[2];
        self.precision = data[3];
        self.root_delay = read_be_u32(data, 4);
        self.root_dispersion = read_be_u32(data, 8);
        self.reference_identifier = read_be_u32(data, 12);
        self.reference_timestamp = read_be_u64(data, 16);
        self.originate_timestamp = read_be_u64(data, 24);
        self.receiver_timestamp = read_be_u64(data, 32);
        self.transmit_timestamp = read_be_u64(data, 40);
        Ok(())
    }
}

/// The all-zero message.
pub open spec fn spec_zero_msg() -> NtpMsg {
    NtpMsg {
        leap_indicator: 0,
        version_number: 0,
        mode: 0,
        stratum: 0,
        poll: 0,
        precision: 0,
        root_delay: 0,
        root_dispersion: 0,
        reference_identifier: 0,
        reference_timestamp: 0,
        originate_timestamp: 0,
        receiver_timestamp: 0,
        transmit_timestamp: 0,
    }
}

/// The client request message with the given version and transmit timestamp.
pub open spec fn spec_client_msg(version: u8, transmit_timestamp: u64) -> NtpMsg {
    NtpMsg {
        leap_indicator: 0,
        version_number: version,
        mode: 3,
        stratum: 0,
        poll: 0,
        precision: 0,
        root_delay: 0,
        root_dispersion: 0,
        reference_identifier: 0,
        reference_timestamp: 0,
        originate_timestamp: 0,
        receiver_timestamp: 0,
        transmit_timestamp,
    }
}

/// Packing the three flag fields back into a byte undoes their extraction.
proof fn lemma_flags_round(b: u8)
    ensures
        (b / 64) as int * 64 + (b / 8 % 8) as int * 8 + (b % 8) as int == b as int,
{
    let bi = b as int;
    lemma_fundamental_div_mod(bi, 8);
    lemma_fundamental_div_mod(bi / 8, 8);
    lemma_div_denominator(bi, 8, 8);
}

/// Re-encoding the 4-byte word read at `off` reproduces those four bytes.
proof fn lemma_be_u32_round(s: Seq<u8>, off: int)
    requires
        0 <= off,
        off + 4 <= s.len(),
    ensures
        spec_be_u32(spec_u32_at(s, off)) == seq![s[off], s[off + 1], s[off + 2], s[off + 3]],
{
    let b0 = s[off] as int;
    let b1 = s[off + 1] as int;
    let b2 = s[off + 2] as int;
    let b3 = s[off + 3] as int;
    let v = spec_u32_at(s, off) as int;
    assert(v == b0 * 0x100_0000 + b1 * 0x1_0000 + b2 * 0x100 + b3);
    lemma_fundamental_div_mod_converse(v, 0x100_0000, b0, b1 * 0x1_0000 + b2 * 0x100 + b3);
    lemma_small_mod(b0 as nat, 256);
    lemma_fundamental_div_mod_converse(v, 0x1_0000, b0 * 0x100 + b1, b2 * 0x100 + b3);
    lemma_mod_multiples_vanish(b0, b1, 256);
    lemma_small_mod(b1 as nat, 256);
    lemma_fundamental_div_mod_converse(v, 0x100, b0 * 0x1_0000 + b1 * 0x100 + b2, b3);
    lemma_mod_multiples_vanish(b0 * 0x100 + b1, b2, 256);
    lemma_small_mod(b2 as nat, 256);
    lemma_small_mod(b3 as nat, 256);
    assert(v / 1 == v);
    assert(spec_be_u32(spec_u32_at(s, off)) =~= seq![s[off], s[off + 1], s[off + 2], s[off + 3]]);
}

/// Re-encoding the 8-byte word read at `off` reproduces those eight bytes.
proof fn lemma_be_u64_round(s: Seq<u8>, off: int)
    requires
        0 <= off,
        off + 8 <= s.len(),
    ensures
        spec_be_u64(spec_u64_at(s, off)) == seq![
            s[off],
            s[off + 1],
            s[off + 2],
            s[off + 3],
            s[off + 4],
            s[off + 5],
            s[off + 6],
            s[off + 7],
        ],
{
    let b0 = s[off] as int;
    let b1 = s[off + 1] as int;
    let b2 = s[off + 2] as int;
    let b3 = s[off + 3] as int;
    let b4 = s[off + 4] as int;
    let b5 = s[off + 5] as int;
    let b6 = s[off + 6] as int;
    let b7 = s[off + 7] as int;
    let v = spec_u64_at(s, off) as int;
    assert(v == b0 * 0x100_0000_0000_0000 + b1 * 0x1_0000_0000_0000 + b2 * 0x100_0000_0000 + b3
        * 0x1_0000_0000 + b4 * 0x100_0000 + b5 * 0x1_0000 + b6 * 0x100 + b7);
    lemma_fundamental_div_mod_converse(
        v,
        0x100_0000_0000_0000,
        b0,
        b1 * 0x1_0000_0000_0000 + b2 * 0x100_0000_0000 + b3 * 0x1_0000_0000 + b4 * 0x100_0000 + b5
            * 0x1_0000 + b6 * 0x100 + b7,
    );
    lemma_small_mod(b0 as nat, 256);
    lemma_fundamental_div_mod_converse(
        v,
        0x1_0000_0000_0000,
        b0 * 0x100 + b1,
        b2 * 0x100_0000_0000 + b3 * 0x1_0000_0000 + b4 * 0x100_0000 + b5 * 0x1_0000 + b6 * 0x100
            + b7,
    );
    lemma_mod_multiples_vanish(b0, b1, 256);
    lemma_small_mod(b1 as nat, 256);
    lemma_fundamental_div_mod_converse(
        v,
        0x100_0000_0000,
        b0 * 0x1_0000 + b1 * 0x100 + b2,
        b3 * 0x1_0000_0000 + b4 * 0x100_0000 + b5 * 0x1_0000 + b6 * 0x100 + b7,
    );
    lemma_mod_multiples_vanish(b0 * 0x100 + b1, b2, 256);
    lemma_small_mod(b2 as nat, 256);
    lemma_fundamental_div_mod_converse(
        v,
        0x1_0000_0000,
        b0 * 0x100_0000 + b1 * 0x1_0000 + b2 * 0x100 + b3,
        b4 * 0x100_0000 + b5 * 0x1_0000 + b6 * 0x100 + b7,
    );
    lemma_mod_multiples_vanish(b0 * 0x1_0000 + b1 * 0x100 + b2, b3, 256);
    lemma_small_mod(b3 as nat, 256);
    lemma_fundamental_div_mod_converse(
        v,
        0x100_0000,
        b0 * 0x1_0000_0000 + b1 * 0x100_0000 + b2 * 0x1_0000 + b3 * 0x100 + b4,
        b5 * 0x1_0000 + b6 * 0x100 + b7,
    );
    lemma_mod_multiples_vanish(b0 * 0x100_0000 + b1 * 0x1_0000 + b2 * 0x100 + b3, b4, 256);
    lemma_small_mod(b4 as nat, 256);
    lemma_fundamental_div_mod_converse(
        v,
        0x1_0000,
        b0 * 0x100_0000_0000 + b1 * 0x1_0000_0000 + b2 * 0x100_0000 + b3 * 0x1_0000 + b4 * 0x100
            + b5,
        b6 * 0x100 + b7,
    );
    lemma_mod_multiples_vanish(
        b0 * 0x1_0000_0000 + b1 * 0x100_0000 + b2 * 0x1_0000 + b3 * 0x100 + b4,
        b5,
        256,
    );
    lemma_small_mod(b5 as nat, 256);
    lemma_fundamental_div_mod_converse(
        v,
        0x100,
        b0 * 0x1_0000_0000_0000 + b1 * 0x100_0000_0000 + b2 * 0x1_0000_0000 + b3 * 0x100_0000 + b4
            * 0x1_0000 + b5 * 0x100 + b6,
        b7,
    );
    lemma_mod_multiples_vanish(
        b0 * 0x100_0000_0000 + b1 * 0x1_0000_0000 + b2 * 0x100_0000 + b3 * 0x1_0000 + b4 * 0x100
            + b5,
        b6,
        256,
    );
    lemma_small_mod(b6 as nat, 256);
    lemma_small_mod(b7 as nat, 256);
    assert(v / 1 == v);
    assert(spec_be_u64(spec_u64_at(s, off)) =~= seq![
        s[off],
        s[off + 1],
        s[off + 2],
        s[off + 3],
        s[off + 4],
        s[off + 5],
        s[off + 6],
        s[off + 7],
    ]);
}

/// The four big-endian bytes of a 4-byte word recombine to the word.
proof fn lemma_u32_recompose(v: u32)
    ensures
        ((v as int) / 0x100_0000 % 256) * 0x100_0000 + ((v as int) / 0x1_0000 % 256) * 0x1_0000 + (
        (v as int) / 0x100 % 256) * 0x100 + (v as int) % 256 == v as int,
{
    let vi = v as int;
    lemma_fundamental_div_mod(vi, 0x100);
    lemma_fundamental_div_mod(vi / 0x100, 0x100);
    lemma_fundamental_div_mod(vi / 0x1_0000, 0x100);
    lemma_div_denominator(vi, 0x100, 0x100);
    lemma_div_denominator(vi, 0x1_0000, 0x100);
    lemma_div_is_ordered(vi, 0xFFFF_FFFFint, 0x100_0000);
    lemma_small_mod((vi / 0x100_0000) as nat, 256);
}

/// The eight big-endian bytes of an 8-byte word recombine to the word.
proof fn lemma_u64_recompose(v: u64)
    ensures
        ((v as int) / 0x100_0000_0000_0000 % 256) * 0x100_0000_0000_0000 + ((v as int)
            / 0x1_0000_0000_0000 % 256) * 0x1_0000_0000_0000 + ((v as int) / 0x100_0000_0000 % 256)
            * 0x100_0000_0000 + ((v as int) / 0x1_0000_0000 % 256) * 0x1_0000_0000 + ((v as int)
            / 0x100_0000 % 256) * 0x100_0000 + ((v as int) / 0x1_0000 % 256) * 0x1_0000 + ((
        v as int) / 0x100 % 256) * 0x100 + (v as int) % 256 == v as int,
{
    let vi = v as int;
    lemma_fundamental_div_mod(vi, 0x100);
    lemma_fundamental_div_mod(vi / 0x100, 0x100);
    lemma_fundamental_div_mod(vi / 0x1_0000, 0x100);
    lemma_fundamental_div_mod(vi / 0x100_0000, 0x100);
    lemma_fundamental_div_mod(vi / 0x1_0000_0000, 0x100);
    lemma_fundamental_div_mod(vi / 0x100_0000_0000, 0x100);
    lemma_fundamental_div_mod(vi / 0x1_0000_0000_0000, 0x100);
    lemma_div_denominator(vi, 0x100, 0x100);
    lemma_div_denominator(vi, 0x1_0000, 0x100);
    lemma_div_denominator(vi, 0x100_0000, 0x100);
    lemma_div_denominator(vi, 0x1_0000_0000, 0x100);
    lemma_div_denominator(vi, 0x100_0000_0000, 0x100);
    lemma_div_denominator(vi, 0x1_0000_0000_0000, 0x100);
    lemma_div_is_ordered(vi, 0xFFFF_FFFF_FFFF_FFFFint, 0x100_0000_0000_0000);
    lemma_small_mod((vi / 0x100_0000_0000_0000) as nat, 256);
}

/// Extracting the three flag fields from their packed byte undoes the
/// packing, for fields that fit their widths.
proof fn lemma_flags_recompose(li: int, vn: int, mode: int)
    requires
        0 <= li < 4,
        0 <= vn < 8,
        0 <= mode < 8,
    ensures
        (li * 64 + vn * 8 + mode) / 64 == li,
        (li * 64 + vn * 8 + mode) / 8 % 8 == vn,
        (li * 64 + vn * 8 + mode) % 8 == mode,
{
    let v = li * 64 + vn * 8 + mode;
    lemma_fundamental_div_mod_converse(v, 64, li, vn * 8 + mode);
    lemma_fundamental_div_mod_converse(v, 8, li * 8 + vn, mode);
    lemma_mod_multiples_vanish(li, vn, 8);
    lemma_small_mod(vn as nat, 8);
}

/// Encoding a well-formed message and decoding the result returns the
/// message unchanged.
#[verifier::rlimit(100)]
pub proof fn lemma_codec_round_trip(m: NtpMsg)
    requires
        m.wf(),
    ensures
        spec_parse(spec_wire(m)) == m,
{
    let s = spec_wire(m);
    lemma_flags_recompose(m.leap_indicator as int, m.version_number as int, m.mode as int);
    assert(s[0] == m.spec_flags_byte());
    lemma_u32_recompose(m.root_delay);
    lemma_u32_recompose(m.root_dispersion);
    lemma_u32_recompose(m.reference_identifier);
    lemma_u64_recompose(m.reference_timestamp);
    lemma_u64_recompose(m.originate_timestamp);
    lemma_u64_recompose(m.receiver_timestamp);
    lemma_u64_recompose(m.transmit_timestamp);
}

/// A 48-byte buffer is the concatenation of its eight wire chunks.
proof fn lemma_wire_chunks_recombine(s: Seq<u8>)
    requires
        s.len() == 48,
    ensures
        seq![s[0], s[1], s[2], s[3]] + seq![s[4], s[5], s[6], s[7]] + seq![
            s[8],
            s[9],
            s[10],
            s[11],
        ] + seq![s[12], s[13], s[14], s[15]] + seq![
            s[16],
            s[17],
            s[18],
            s[19],
            s[20],
            s[21],
            s[22],
            s[23],
        ] + seq![s[24], s[25], s[26], s[27], s[28], s[29], s[30], s[31]] + seq![
            s[32],
            s[33],
            s[34],
            s[35],
            s[36],
            s[37],
            s[38],
            s[39],
        ] + seq![s[40], s[41], s[42], s[43], s[44], s[45], s[46], s[47]] == s,
{
    let head = seq![s[0], s[1], s[2], s[3]] + seq![s[4], s[5], s[6], s[7]] + seq![
        s[8],
        s[9],
        s[10],
        s[11],
    ] + seq![s[12], s[13], s[14], s[15]] + seq![
        s[16],
        s[17],
        s[18],
        s[19],
        s[20],
        s[21],
        s[22],
        s[23],
    ];
    assert(head =~= s.subrange(0, 24));
    let tail = seq![s[24], s[25], s[26], s[27], s[28], s[29], s[30], s[31]] + seq![
        s[32],
        s[33],
        s[34],
        s[35],
        s[36],
        s[37],
        s[38],
        s[39],
    ] + seq![s[40], s[41], s[42], s[43], s[44], s[45], s[46], s[47]];
    assert(tail =~= s.subrange(24, 48));
    assert(s.subrange(0, 24) + s.subrange(24, 48) =~= s);
}

/// A message whose eight wire chunks each reproduce the matching bytes of
/// `s` serializes to `s` itself.
proof fn lemma_wire_of_chunks(m: NtpMsg, s: Seq<u8>)
    requires
        s.len() == 48,
        seq![m.spec_flags_byte(), m.stratum, m.poll, m.precision] == seq![s[0], s[1], s[2], s[3]],
        spec_be_u32(m.root_delay) == seq![s[4], s[5], s[6], s[7]],
        spec_be_u32(m.root_dispersion) == seq![s[8], s[9], s[10], s[11]],
        spec_be_u32(m.reference_identifier) == seq![s[12], s[13], s[14], s[15]],
        spec_be_u64(m.reference_timestamp) == seq![
            s[16],
            s[17],
            s[18],
            s[19],
            s[20],
            s[21],
            s[22],
            s[23],
        ],
        spec_be_u64(m.originate_timestamp) == seq![
            s[24],
            s[25],
            s[26],
            s[27],
            s[28],
            s[29],
            s[30],
            s[31],
        ],
        spec_be_u64(m.receiver_timestamp) == seq![
            s[32],
            s[33],
            s[34],
            s[35],
            s[36],
            s[37],
            s[38],
            s[39],
        ],
        spec_be_u64(m.transmit_timestamp) == seq![
            s[40],
            s[41],
            s[42],
            s[43],
            s[44],
            s[45],
            s[46],
            s[47],
        ],
    ensures
        spec_wire(m) == s,
{
    lemma_wire_chunks_recombine(s);
}

/// Decoding a 48-byte buffer and re-encoding the result reproduces the
/// buffer exactly.
pub proof fn lemma_codec_symmetry(s: Seq<u8>)
    requires
        s.len() == 48,
    ensures
        spec_wire(spec_parse(s)) == s,
{
    let m = spec_parse(s);
    lemma_flags_round(s[0]);
    assert(m.spec_flags_byte() == s[0]);
    assert(seq![m.spec_flags_byte(), m.stratum, m.poll, m.precision] =~= seq![
        s[0],
        s[1],
        s[2],
        s[3],
    ]);
    lemma_be_u32_round(s, 4);
    lemma_be_u32_round(s, 8);
    lemma_be_u32_round(s, 12);
    lemma_be_u64_round(s, 16);
    lemma_be_u64_round(s, 24);
    lemma_be_u64_round(s, 32);
    lemma_be_u64_round(s, 40);
    lemma_wire_of_chunks(m, s);
}

} // verus!
