//! A minimal SNTP client library: the 48-byte message codec, the NTP
//! fixed-point timestamp arithmetic, and the pure decisions of a single
//! request/response exchange.
//!
//! Network I/O (UDP sockets, timeouts, reading the system clock) is left to
//! the caller; everything here is a pure function over plain values.

use vstd::prelude::*;

pub mod codec;
pub mod sntp;
pub mod timestamp;

verus! {

/// Everything that can go wrong during one exchange.
#[derive(Debug)]
pub enum NtpError {
    /// The local bind failed, or a send or receive failed or timed out.
    ServiceUnavailable(String),
    /// The server address could not be resolved.
    BadNtpServerAddr(String),
    /// Any other failure of the OS or network layer.
    UnexpectedErr(String),
    /// A response buffer whose length was not exactly 48 bytes.
    TruncatedNtpMessage,
    /// A response whose originate timestamp did not echo the request.
    UntrustedMessage,
}

} // verus!
