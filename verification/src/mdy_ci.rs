//! The MIDI-CI protocol negotiation payload: five bytes in which a device
//! names the protocol it asks for.
//!
//! | byte | holds                                                        |
//! |------|--------------------------------------------------------------|
//! | 0    | the protocol type: `0x01` MIDI 1.0, `0x02` MIDI 2.0          |
//! | 1    | the protocol version: `0x00`                                 |
//! | 2    | extension flags, of MIDI 1.0 only: bit 0 jitter reduction,   |
//! |      | bit 1 large packets                                          |
//! | 3, 4 | reserved: `0x00`                                             |

use crate::error::Error;
use vstd::prelude::*;
use vstd::std_specs::convert::TryFromSpec;

verus! {

/// The protocol family that a negotiation asks for.
#[derive(Clone, Copy, Debug, PartialEq, Eq, Structural)]
pub enum ProtocolType {
    Midi1,
    Midi2,
}

impl ProtocolType {
    /// The byte that stands for this protocol type.
    pub open spec fn spec_code(self) -> u8 {
        match self {
            ProtocolType::Midi1 => 0x01,
            ProtocolType::Midi2 => 0x02,
        }
    }

    /// The byte that stands for this protocol type.
    #[verifier::when_used_as_spec(spec_code)]
    pub fn code(self) -> (code: u8)
        ensures
            code == self.spec_code(),
    {
        match self {
            ProtocolType::Midi1 => 0x01,
            ProtocolType::Midi2 => 0x02,
        }
    }

    /// Every protocol type decodes from its own byte, and a byte that
    /// decodes is the byte of what it decodes to.
    pub proof fn lemma_code_decodes(self, value: u8)
        ensures
            ProtocolType::try_from_spec(self.spec_code()) == Ok::<ProtocolType, Error>(self),
            ProtocolType::try_from_spec(value) is Ok <==> value == 0x01 || value == 0x02,
            ProtocolType::try_from_spec(value) is Ok ==> ProtocolType::try_from_spec(
                value,
            )->Ok_0.spec_code() == value,
    {
    }
}

impl vstd::std_specs::convert::TryFromSpecImpl<u8> for ProtocolType {
    open spec fn obeys_try_from_spec() -> bool {
        true
    }

    open spec fn try_from_spec(value: u8) -> Result<ProtocolType, Error> {
        if value == 0x01 {
            Ok(ProtocolType::Midi1)
        } else if value == 0x02 {
            Ok(ProtocolType::Midi2)
        } else {
            Err(Error::UnrecognizedProtocolType { value })
        }
    }
}

impl TryFrom<u8> for ProtocolType {
    type Error = Error;

    /// Decodes a protocol type from its byte.
    fn try_from(value: u8) -> (r: Result<ProtocolType, Error>)
        ensures
            r is Ok <==> value == 0x01 || value == 0x02,
            r is Ok ==> r->Ok_0.spec_code() == value,
    {
        match value {
            0x01 => Ok(ProtocolType::Midi1),
            0x02 => Ok(ProtocolType::Midi2),
            _ => Err(Error::UnrecognizedProtocolType { value }),
        }
    }
}

/// The protocol and version that a negotiation resolves to.
#[derive(Clone, Copy, Debug, PartialEq, Eq, Structural)]
pub enum ProtocolVersion {
    Midi1,
    Midi2v1,
}

/// The extensions that a negotiation for MIDI 1.0 asks for.
#[derive(Clone, Copy, Debug, PartialEq, Eq, Structural)]
pub struct Midi1Extensions {
    pub large_packets: bool,
    pub jitter_reduction: bool,
}

impl Midi1Extensions {
    /// The extensions that the flags byte `byte` asks for: jitter reduction
    /// by bit 0, large packets by bit 1. The other six bits say nothing.
    pub open spec fn spec_from_byte(byte: u8) -> Midi1Extensions {
        Midi1Extensions { large_packets: byte / 2 % 2 == 1, jitter_reduction: byte % 2 == 1 }
    }

    /// The bits of the flags byte above bit 1 do not matter.
    pub proof fn lemma_upper_bits_ignored(byte: u8)
        ensures
            Midi1Extensions::spec_from_byte(byte) == Midi1Extensions::spec_from_byte(byte % 4),
    {
    }

    /// The extensions that the flags byte `byte` asks for.
    pub fn from_byte(byte: u8) -> (extensions: Midi1Extensions)
        ensures
            extensions == Midi1Extensions::spec_from_byte(byte),
    {
        assert((byte & 2 != 0) == (byte / 2 % 2 == 1)) by (bit_vector);
        assert((byte & 1 != 0) == (byte % 2 == 1)) by (bit_vector);
        Midi1Extensions { large_packets: byte & 2 != 0, jitter_reduction: byte & 1 != 0 }
    }
}

/// A negotiation payload. Its view is its five bytes.
#[derive(Clone, Copy, Debug)]
pub struct NegotiationBytes {
    data: [u8; 5],
}

impl View for NegotiationBytes {
    type V = Seq<u8>;

    closed spec fn view(&self) -> Seq<u8> {
        self.data@
    }
}

impl NegotiationBytes {
    /// The protocol type that byte 0 names.
    pub open spec fn spec_protocol_type(&self) -> Result<ProtocolType, Error> {
        ProtocolType::try_from_spec(self@[0])
    }

    /// The protocol version that bytes 0 and 1 name. The version byte is
    /// looked at first.
    pub open spec fn spec_protocol_version(&self) -> Result<ProtocolVersion, Error> {
        if self@[1] != 0x00 {
            Err(Error::UnrecognizedProtocolVersion { value: self@[1] })
        } else {
            match self.spec_protocol_type() {
                Ok(ProtocolType::Midi1) => Ok(ProtocolVersion::Midi1),
                Ok(ProtocolType::Midi2) => Ok(ProtocolVersion::Midi2v1),
                Err(e) => Err(e),
            }
        }
    }

    /// Whether the reserved bytes are zero, and if not, the first that is
    /// not.
    pub open spec fn spec_validate(&self) -> Result<(), Error> {
        if self@[3] != 0x00 {
            Err(Error::ReservedByteViolation { index: 3, value: self@[3] })
        } else if self@[4] != 0x00 {
            Err(Error::ReservedByteViolation { index: 4, value: self@[4] })
        } else {
            Ok(())
        }
    }

    /// The extensions that byte 2 asks for, where byte 0 names MIDI 1.0.
    pub open spec fn spec_midi1_extensions(&self) -> Result<Midi1Extensions, Error> {
        match self.spec_protocol_type() {
            Ok(ProtocolType::Midi1) => Ok(Midi1Extensions::spec_from_byte(self@[2])),
            Ok(ProtocolType::Midi2) => Err(Error::ExtensionsNotApplicable),
            Err(e) => Err(e),
        }
    }

    /// A payload always has five bytes.
    pub proof fn lemma_five_bytes(&self)
        ensures
            self@.len() == 5,
    {
    }

    /// On which payloads each query succeeds, by their bytes.
    pub proof fn lemma_success(&self)
        ensures
            self.spec_protocol_type() is Ok <==> self@[0] == 0x01 || self@[0] == 0x02,
            self.spec_protocol_version() is Ok <==> self@[1] == 0x00 && (self@[0] == 0x01
                || self@[0] == 0x02),
            self.spec_validate() is Ok <==> self@[3] == 0x00 && self@[4] == 0x00,
            self.spec_midi1_extensions() is Ok <==> self@[0] == 0x01,
    {
    }

    /// Each accepted pair of type and version byte resolves to one version,
    /// and the version tells the type.
    pub proof fn lemma_version_follows_type(&self)
        requires
            self.spec_protocol_version() is Ok,
        ensures
            self.spec_protocol_type() is Ok,
            self.spec_protocol_version()->Ok_0 == ProtocolVersion::Midi1
                <==> self.spec_protocol_type()->Ok_0 == ProtocolType::Midi1,
            self.spec_protocol_version()->Ok_0 == ProtocolVersion::Midi2v1
                <==> self.spec_protocol_type()->Ok_0 == ProtocolType::Midi2,
    {
    }

    /// The queries look at disjoint bytes: what the first three bytes name
    /// does not depend on the reserved bytes, and whether the reserved bytes
    /// are in order does not depend on the first three.
    pub proof fn lemma_queries_are_independent(&self, other: &NegotiationBytes)
        ensures
            self@[0] == other@[0] ==> self.spec_protocol_type() == other.spec_protocol_type(),
            self@[0] == other@[0] && self@[1] == other@[1] ==> self.spec_protocol_version()
                == other.spec_protocol_version(),
            self@[0] == other@[0] && self@[2] == other@[2] ==> self.spec_midi1_extensions()
                == other.spec_midi1_extensions(),
            self@[3] == other@[3] && self@[4] == other@[4] ==> self.spec_validate()
                == other.spec_validate(),
    {
    }

    /// The payload that `data` holds.
    pub fn new(data: [u8; 5]) -> (payload: NegotiationBytes)
        ensures
            payload@ == data@,
    {
        NegotiationBytes { data }
    }

    /// The five bytes of the payload.
    pub fn bytes(&self) -> (data: [u8; 5])
        ensures
            data@ == self@,
    {
        self.data
    }

    /// The protocol type that the payload asks for. Fails with
    /// `UnrecognizedProtocolType` unless byte 0 is `0x01` or `0x02`.
    pub fn protocol_type(&self) -> (r: Result<ProtocolType, Error>)
        ensures
            r == self.spec_protocol_type(),
    {
        ProtocolType::try_from(self.data[0])
    }

    /// The protocol version that the payload asks for. Fails with
    /// `UnrecognizedProtocolVersion` unless byte 1 is `0x00`, and otherwise
    /// as [`NegotiationBytes::protocol_type`] does.
    pub fn protocol_version(&self) -> (r: Result<ProtocolVersion, Error>)
        ensures
            r == self.spec_protocol_version(),
    {
        let version: u8 = self.data[1];
        if version != 0x00 {
            return Err(Error::UnrecognizedProtocolVersion { value: version });
        }
        match self.protocol_type() {
            Ok(ProtocolType::Midi1) => Ok(ProtocolVersion::Midi1),
            Ok(ProtocolType::Midi2) => Ok(ProtocolVersion::Midi2v1),
            Err(e) => Err(e),
        }
    }

    /// Checks the reserved bytes. Fails with `ReservedByteViolation`, which
    /// names the byte, if byte 3 is not zero, and else if byte 4 is not.
    pub fn validate(&self) -> (r: Result<(), Error>)
        ensures
            r == self.spec_validate(),
    {
        let reserved3: u8 = self.data[3];
        let reserved4: u8 = self.data[4];
        if reserved3 != 0x00 {
            return Err(Error::ReservedByteViolation { index: 3, value: reserved3 });
        }
        if reserved4 != 0x00 {
            return Err(Error::ReservedByteViolation { index: 4, value: reserved4 });
        }
        Ok(())
    }

    /// The MIDI 1.0 extensions that the payload asks for. Fails as
    /// [`NegotiationBytes::protocol_type`] does, and with
    /// `ExtensionsNotApplicable` if the payload asks for MIDI 2.0.
    pub fn midi1_extensions(&self) -> (r: Result<Midi1Extensions, Error>)
        ensures
            r == self.spec_midi1_extensions(),
    {
        match self.protocol_type() {
            Ok(ProtocolType::Midi1) => Ok(Midi1Extensions::from_byte(self.data[2])),
            Ok(ProtocolType::Midi2) => Err(Error::ExtensionsNotApplicable),
            Err(e) => Err(e),
        }
    }
}

} // verus!
