//! Decoding and validation of the binary message formats of the MIDI 2.0
//! transport stack: the Universal MIDI Packet envelope, the MIDI 1.0
//! status and data bytes carried inside it, and the MIDI-CI protocol
//! negotiation payload.
//!
//! Every operation is a pure function of a caller-supplied fixed-size
//! buffer. Nothing here performs I/O, allocates or panics; malformed input
//! is reported through [`error::Error`].

pub mod error;
pub mod mdy_ci;
pub mod mdy_msg;
pub mod ump;
