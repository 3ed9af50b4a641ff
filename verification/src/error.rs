//! The error taxonomy of the protocol layer.
//!
//! Validation errors are detected before any byte would be written; protocol
//! errors are detected after a full reply line has been read.  `Timeout` and
//! `TransportFailure` are never produced by this crate itself: they are the
//! transport layer's classification of a failed read or write, carried in the
//! same type so that every exchange returns one kind of result.

use vstd::prelude::*;

verus! {

/// Everything that can go wrong while building a command or reading a reply.
#[derive(Debug, Clone)]
pub enum Sa818Error {
    /// A carrier frequency outside both legal sub-bands.
    InvalidFrequency,
    /// A squelch level above 8.
    InvalidSquelch,
    /// A CTCSS or DCS code outside its numeric range.
    OutOfRange,
    /// A tone text that matches no entry of the CTCSS table.
    UnknownTone,
    /// A DCS text whose final character is neither `N` nor `I`.
    MalformedSuffix,
    /// An empty text where a DCS code was expected.
    EmptyInput,
    /// A numeric field that does not parse as an unsigned integer.
    MalformedNumber,
    /// A channel command was requested without a transmit frequency.
    MissingTx,
    /// A channel command was requested without a receive frequency.
    MissingRx,
    /// A reply that does not match the expected pattern; carries the raw text.
    UnexpectedReply(String),
    /// The transport saw no full reply line before its timeout.
    Timeout,
    /// The transport failed to read or write; carries its description.
    TransportFailure(String),
}

} // verus!
