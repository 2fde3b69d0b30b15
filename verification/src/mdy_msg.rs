//! The message shapes of the MIDI byte stream.

pub mod v1;
