//! The errors that decoding and validation report.

use vstd::prelude::*;

verus! {

/// Why a field could not be decoded or did not validate.
#[derive(Clone, Copy, Debug, PartialEq, Eq, Structural)]
pub enum Error {
    /// The raw bits of a header field map to no defined tag.
    MalformedHeader { value: u8 },
    /// A group value lies outside the group domain.
    InvalidGroup { value: u8 },
    /// The most significant bit of a status byte is clear.
    InvalidStatusByte,
    /// The most significant bit of a data byte is set.
    InvalidDataByte,
    /// Byte 0 of a negotiation payload names no known protocol.
    UnrecognizedProtocolType { value: u8 },
    /// Byte 1 of a negotiation payload names no known protocol version.
    UnrecognizedProtocolVersion { value: u8 },
    /// The reserved byte at `index` of a negotiation payload holds the
    /// nonzero `value`.
    ReservedByteViolation { index: usize, value: u8 },
    /// MIDI 1.0 extensions were asked of a negotiation for another protocol.
    ExtensionsNotApplicable,
    /// The number of data bytes of a System Common message is not resolved
    /// by the status byte's class alone.
    UnresolvedDataByteCount,
}

} // verus!
