//! MIDI 1.0 messages: a status byte, which has its most significant bit set
//! and names the message, followed by data bytes, which have it clear.

use crate::error::Error;
use vstd::prelude::*;
use vstd::std_specs::convert::TryFromSpec;

verus! {

/// Whether bit 7, the most significant bit, of `byte` is set.
pub open spec fn msb(byte: u8) -> bool {
    byte as int / 0x80 % 2 == 1
}

/// The upper four bits of `byte`.
pub open spec fn high_nibble(byte: u8) -> u8 {
    byte / 0x10
}

/// The lower four bits of `byte`.
pub open spec fn low_nibble(byte: u8) -> u8 {
    byte % 0x10
}

/// The most significant bit divides the bytes in two halves.
pub proof fn lemma_msb_is_upper_half(byte: u8)
    ensures
        msb(byte) <==> byte >= 0x80,
        msb(byte) <==> high_nibble(byte) >= 0x8,
{
}

/// The two broad classes of message.
#[derive(Clone, Copy, Debug, PartialEq, Eq, Structural)]
pub enum MessageType {
    Channel,
    System,
}

/// The two kinds of channel message.
#[derive(Clone, Copy, Debug, PartialEq, Eq, Structural)]
pub enum ChannelMessageType {
    /// Controls an instrument's voice.
    Voice,
    /// Controls an instrument's response to voice messages.
    Mode,
}

/// The three kinds of system message.
#[derive(Clone, Copy, Debug, PartialEq, Eq, Structural)]
pub enum SystemMessageType {
    /// For all receivers regardless of channel.
    Common,
    /// Synchronization.
    RealTime,
    /// Manufacturer-specific messages.
    Exclusive,
}

/// A channel message, as the upper four bits of its status byte name it.
#[derive(Clone, Copy, Debug, PartialEq, Eq, Structural)]
pub enum ChannelMessage {
    NoteOff,
    NoteOn,
    PolyphonicKeyPressureOrAftertouch,
    ControlChangeOrChannelMode,
    ProgramChange,
    ChannelPressureOrAftertouch,
    PitchBendChange,
}

impl ChannelMessage {
    /// The upper four bits of the status byte of this message.
    pub open spec fn spec_code(self) -> u8 {
        match self {
            ChannelMessage::NoteOff => 0b1000,
            ChannelMessage::NoteOn => 0b1001,
            ChannelMessage::PolyphonicKeyPressureOrAftertouch => 0b1010,
            ChannelMessage::ControlChangeOrChannelMode => 0b1011,
            ChannelMessage::ProgramChange => 0b1100,
            ChannelMessage::ChannelPressureOrAftertouch => 0b1101,
            ChannelMessage::PitchBendChange => 0b1110,
        }
    }

    /// The number of data bytes that follow the status byte of this message.
    pub open spec fn spec_num_data_bytes(self) -> u8 {
        match self {
            ChannelMessage::NoteOff => 2,
            ChannelMessage::NoteOn => 2,
            ChannelMessage::PolyphonicKeyPressureOrAftertouch => 2,
            ChannelMessage::ControlChangeOrChannelMode => 2,
            ChannelMessage::ProgramChange => 1,
            ChannelMessage::ChannelPressureOrAftertouch => 1,
            ChannelMessage::PitchBendChange => 2,
        }
    }

    /// The upper four bits of the status byte of this message.
    #[verifier::when_used_as_spec(spec_code)]
    pub fn code(self) -> (code: u8)
        ensures
            code == self.spec_code(),
    {
        match self {
            ChannelMessage::NoteOff => 0b1000,
            ChannelMessage::NoteOn => 0b1001,
            ChannelMessage::PolyphonicKeyPressureOrAftertouch => 0b1010,
            ChannelMessage::ControlChangeOrChannelMode => 0b1011,
            ChannelMessage::ProgramChange => 0b1100,
            ChannelMessage::ChannelPressureOrAftertouch => 0b1101,
            ChannelMessage::PitchBendChange => 0b1110,
        }
    }

    /// Every channel message decodes from its own code.
    pub proof fn lemma_code_decodes(self)
        ensures
            0x8 <= self.spec_code() <= 0xE,
            ChannelMessage::try_from_spec(self.spec_code()) == Ok::<ChannelMessage, Error>(self),
    {
    }

    /// The values from 8 to 14, and no others, name a channel message, and
    /// that message has the value as its code.
    pub proof fn lemma_codes(value: u8)
        ensures
            0x8 <= value <= 0xE <==> ChannelMessage::try_from_spec(value) is Ok,
            0x8 <= value <= 0xE ==> ChannelMessage::try_from_spec(value)->Ok_0.spec_code()
                == value,
    {
    }
}

impl vstd::std_specs::convert::TryFromSpecImpl<u8> for ChannelMessage {
    open spec fn obeys_try_from_spec() -> bool {
        true
    }

    open spec fn try_from_spec(value: u8) -> Result<ChannelMessage, Error> {
        if value == 0b1000 {
            Ok(ChannelMessage::NoteOff)
        } else if value == 0b1001 {
            Ok(ChannelMessage::NoteOn)
        } else if value == 0b1010 {
            Ok(ChannelMessage::PolyphonicKeyPressureOrAftertouch)
        } else if value == 0b1011 {
            Ok(ChannelMessage::ControlChangeOrChannelMode)
        } else if value == 0b1100 {
            Ok(ChannelMessage::ProgramChange)
        } else if value == 0b1101 {
            Ok(ChannelMessage::ChannelPressureOrAftertouch)
        } else if value == 0b1110 {
            Ok(ChannelMessage::PitchBendChange)
        } else {
            Err(Error::MalformedHeader { value })
        }
    }
}

impl TryFrom<u8> for ChannelMessage {
    type Error = Error;

    /// Decodes a channel message from the upper four bits of a status byte.
    fn try_from(value: u8) -> (r: Result<ChannelMessage, Error>)
        ensures
            r is Ok <==> 0x8 <= value <= 0xE,
            r is Ok ==> r->Ok_0.spec_code() == value,
    {
        match value {
            0b1000 => Ok(ChannelMessage::NoteOff),
            0b1001 => Ok(ChannelMessage::NoteOn),
            0b1010 => Ok(ChannelMessage::PolyphonicKeyPressureOrAftertouch),
            0b1011 => Ok(ChannelMessage::ControlChangeOrChannelMode),
            0b1100 => Ok(ChannelMessage::ProgramChange),
            0b1101 => Ok(ChannelMessage::ChannelPressureOrAftertouch),
            0b1110 => Ok(ChannelMessage::PitchBendChange),
            _ => Err(Error::MalformedHeader { value }),
        }
    }
}

/// A system message, as the lower four bits of its status byte class it.
#[derive(Clone, Copy, Debug, PartialEq, Eq, Structural)]
pub enum SystemMessage {
    Exclusive,
    Common,
    RealTime,
}

impl SystemMessage {
    /// The class of the system status byte whose lower four bits are `low`:
    /// 0 starts a System Exclusive message, 8 to 15 are System Real Time,
    /// and the rest, 1 to 7, are System Common.
    pub open spec fn spec_from_low_nibble(low: u8) -> SystemMessage {
        if low == 0x0 {
            SystemMessage::Exclusive
        } else if low >= 0x8 {
            SystemMessage::RealTime
        } else {
            SystemMessage::Common
        }
    }

    /// The class of the system status byte whose lower four bits are `low`.
    pub fn from_low_nibble(low: u8) -> (message: SystemMessage)
        ensures
            message == SystemMessage::spec_from_low_nibble(low),
    {
        if low == 0x0 {
            SystemMessage::Exclusive
        } else if low >= 0x8 {
            SystemMessage::RealTime
        } else {
            SystemMessage::Common
        }
    }
}

/// How many data bytes follow a status byte.
#[derive(Clone, Copy, Debug, PartialEq, Eq, Structural)]
pub enum DataBytes {
    /// Exactly this many.
    Fixed(u8),
    /// As many as come before the End Of Exclusive status byte, `0xF7`.
    UntilEox,
}

/// What a status byte names.
#[derive(Clone, Copy, Debug, PartialEq, Eq, Structural)]
pub enum Message {
    Channel(ChannelMessage),
    System(SystemMessage),
}

impl Message {
    /// The data bytes that follow the status byte of this message. The count
    /// of a System Common message depends on which one it is, which its
    /// class does not tell.
    pub open spec fn spec_num_data_bytes(self) -> Result<DataBytes, Error> {
        match self {
            Message::Channel(channel) => Ok(DataBytes::Fixed(channel.spec_num_data_bytes())),
            Message::System(SystemMessage::Exclusive) => Ok(DataBytes::UntilEox),
            Message::System(SystemMessage::Common) => Err(Error::UnresolvedDataByteCount),
            Message::System(SystemMessage::RealTime) => Ok(DataBytes::Fixed(0)),
        }
    }

    /// The data bytes that follow the status byte of this message.
    pub fn num_data_bytes(&self) -> (r: Result<DataBytes, Error>)
        ensures
            r == self.spec_num_data_bytes(),
            r is Err <==> *self == Message::System(SystemMessage::Common),
    {
        match self {
            Message::Channel(ChannelMessage::NoteOff) => Ok(DataBytes::Fixed(2)),
            Message::Channel(ChannelMessage::NoteOn) => Ok(DataBytes::Fixed(2)),
            Message::Channel(ChannelMessage::PolyphonicKeyPressureOrAftertouch) => Ok(
                DataBytes::Fixed(2),
            ),
            Message::Channel(ChannelMessage::ControlChangeOrChannelMode) => Ok(
                DataBytes::Fixed(2),
            ),
            Message::Channel(ChannelMessage::ProgramChange) => Ok(DataBytes::Fixed(1)),
            Message::Channel(ChannelMessage::ChannelPressureOrAftertouch) => Ok(
                DataBytes::Fixed(1),
            ),
            Message::Channel(ChannelMessage::PitchBendChange) => Ok(DataBytes::Fixed(2)),
            Message::System(SystemMessage::Exclusive) => Ok(DataBytes::UntilEox),
            Message::System(SystemMessage::Common) => Err(Error::UnresolvedDataByteCount),
            Message::System(SystemMessage::RealTime) => Ok(DataBytes::Fixed(0)),
        }
    }
}

/// The first byte of a message. Its view is the byte.
#[derive(Clone, Copy, Debug, PartialEq, Eq)]
pub struct StatusByte(u8);

impl View for StatusByte {
    type V = u8;

    closed spec fn view(&self) -> u8 {
        self.0
    }
}

impl StatusByte {
    /// Whether this is a status byte at all: one whose most significant bit
    /// is set.
    pub open spec fn spec_validate(&self) -> Result<(), Error> {
        if msb(self@) {
            Ok(())
        } else {
            Err(Error::InvalidStatusByte)
        }
    }

    /// What the status byte names. The upper four bits 8 to 14 name a channel
    /// message; 15 marks a system message, which the lower four bits class.
    pub open spec fn spec_message_type(&self) -> Result<Message, Error> {
        if !msb(self@) {
            Err(Error::InvalidStatusByte)
        } else if high_nibble(self@) == 0xF {
            Ok(Message::System(SystemMessage::spec_from_low_nibble(low_nibble(self@))))
        } else {
            match ChannelMessage::try_from_spec(high_nibble(self@)) {
                Ok(channel) => Ok(Message::Channel(channel)),
                Err(e) => Err(e),
            }
        }
    }

    /// The data bytes that follow the status byte.
    pub open spec fn spec_num_data_bytes(&self) -> Result<DataBytes, Error> {
        match self.spec_message_type() {
            Ok(message) => message.spec_num_data_bytes(),
            Err(e) => Err(e),
        }
    }

    /// A status byte is valid, and names a message, exactly when it lies in
    /// the upper half of the bytes. Whether it does is a matter of its most
    /// significant bit alone.
    pub proof fn lemma_valid_by_msb(&self, other: &StatusByte)
        ensures
            self.spec_validate() is Ok <==> self@ >= 0x80,
            self.spec_message_type() is Ok <==> self@ >= 0x80,
            msb(self@) == msb(other@) ==> self.spec_validate() == other.spec_validate(),
    {
    }

    /// What each status byte names, by its value.
    pub proof fn lemma_message_type_by_range(&self)
        ensures
            0x80 <= self@ < 0xF0 ==> self.spec_message_type() is Ok
                && self.spec_message_type()->Ok_0 is Channel
                && self.spec_message_type()->Ok_0->Channel_0.spec_code() == self@ / 0x10,
            self@ == 0xF0 ==> self.spec_message_type() == Ok::<Message, Error>(
                Message::System(SystemMessage::Exclusive),
            ),
            0xF1 <= self@ <= 0xF7 ==> self.spec_message_type() == Ok::<Message, Error>(
                Message::System(SystemMessage::Common),
            ),
            0xF8 <= self@ ==> self.spec_message_type() == Ok::<Message, Error>(
                Message::System(SystemMessage::RealTime),
            ),
    {
    }

    /// How many data bytes follow each status byte, by its value: one after
    /// Program Change and Channel Pressure, two after the other channel
    /// messages, none after System Real Time.
    pub proof fn lemma_num_data_bytes_by_range(&self)
        ensures
            self@ < 0x80 ==> self.spec_num_data_bytes() == Err::<DataBytes, Error>(
                Error::InvalidStatusByte,
            ),
            0x80 <= self@ < 0xC0 ==> self.spec_num_data_bytes() == Ok::<DataBytes, Error>(
                DataBytes::Fixed(2),
            ),
            0xC0 <= self@ < 0xE0 ==> self.spec_num_data_bytes() == Ok::<DataBytes, Error>(
                DataBytes::Fixed(1),
            ),
            0xE0 <= self@ < 0xF0 ==> self.spec_num_data_bytes() == Ok::<DataBytes, Error>(
                DataBytes::Fixed(2),
            ),
            self@ == 0xF0 ==> self.spec_num_data_bytes() == Ok::<DataBytes, Error>(
                DataBytes::UntilEox,
            ),
            0xF1 <= self@ <= 0xF7 ==> self.spec_num_data_bytes() == Err::<DataBytes, Error>(
                Error::UnresolvedDataByteCount,
            ),
            0xF8 <= self@ ==> self.spec_num_data_bytes() == Ok::<DataBytes, Error>(
                DataBytes::Fixed(0),
            ),
    {
    }

    /// The status byte that holds `byte`, whether or not it is a valid one.
    pub fn new(byte: u8) -> (status: StatusByte)
        ensures
            status@ == byte,
    {
        StatusByte(byte)
    }

    /// The byte.
    pub fn value(&self) -> (byte: u8)
        ensures
            byte == self@,
    {
        self.0
    }

    /// Accepts the byte if its most significant bit is set.
    pub fn validate(&self) -> (r: Result<(), Error>)
        ensures
            r == self.spec_validate(),
            r is Ok <==> msb(self@),
    {
        let byte: u8 = self.0;
        assert(byte >> 7 == byte / 0x80) by (bit_vector);
        if byte >> 7 == 0 {
            Err(Error::InvalidStatusByte)
        } else {
            Ok(())
        }
    }

    /// What the status byte names. Fails on a byte that is no status byte,
    /// and on no other.
    pub fn message_type(&self) -> (r: Result<Message, Error>)
        ensures
            r == self.spec_message_type(),
            r is Ok <==> msb(self@),
    {
        let byte: u8 = self.0;
        assert(byte >> 7 == byte / 0x80) by (bit_vector);
        assert(byte >> 4 == byte / 0x10) by (bit_vector);
        assert(byte & 0xF == byte % 0x10) by (bit_vector);
        if byte >> 7 == 0 {
            return Err(Error::InvalidStatusByte);
        }
        let high: u8 = byte >> 4;
        if high == 0xF {
            Ok(Message::System(SystemMessage::from_low_nibble(byte & 0xF)))
        } else {
            match ChannelMessage::try_from(high) {
                Ok(channel) => Ok(Message::Channel(channel)),
                Err(e) => Err(e),
            }
        }
    }

    /// The data bytes that follow the status byte. Fails on a byte that is
    /// no status byte and on a System Common status byte.
    pub fn num_data_bytes(&self) -> (r: Result<DataBytes, Error>)
        ensures
            r == self.spec_num_data_bytes(),
    {
        match self.message_type() {
            Ok(message) => message.num_data_bytes(),
            Err(e) => Err(e),
        }
    }
}

/// A byte of the body of a message. Its view is the byte.
#[derive(Clone, Copy, Debug, PartialEq, Eq)]
pub struct DataByte(u8);

impl View for DataByte {
    type V = u8;

    closed spec fn view(&self) -> u8 {
        self.0
    }
}

impl DataByte {
    /// Whether this is a data byte at all: one whose most significant bit is
    /// clear.
    pub open spec fn spec_validate(&self) -> Result<(), Error> {
        if msb(self@) {
            Err(Error::InvalidDataByte)
        } else {
            Ok(())
        }
    }

    /// Every byte is either a valid status byte or a valid data byte, and
    /// none is both.
    pub proof fn lemma_status_or_data(&self, status: &StatusByte)
        requires
            status@ == self@,
        ensures
            self.spec_validate() is Ok <==> status.spec_validate() is Err,
            self.spec_validate() is Ok <==> self@ < 0x80,
    {
    }

    /// The data byte that holds `byte`, whether or not it is a valid one.
    pub fn new(byte: u8) -> (data: DataByte)
        ensures
            data@ == byte,
    {
        DataByte(byte)
    }

    /// The byte.
    pub fn value(&self) -> (byte: u8)
        ensures
            byte == self@,
    {
        self.0
    }

    /// Accepts the byte if its most significant bit is clear.
    pub fn validate(&self) -> (r: Result<(), Error>)
        ensures
            r == self.spec_validate(),
            r is Ok <==> !msb(self@),
    {
        let byte: u8 = self.0;
        assert(byte >> 7 == byte / 0x80) by (bit_vector);
        if byte >> 7 == 1 {
            Err(Error::InvalidDataByte)
        } else {
            Ok(())
        }
    }
}

/// The four channel modes, by how a receiver assigns voices to channels.
#[derive(Clone, Copy, Debug, PartialEq, Eq, Structural)]
pub enum Mode {
    OmniOnPoly,
    OmniOnMono,
    OmniOffPoly,
    OmniOffMono,
}

impl Mode {
    /// The number of the mode, from 1 to 4.
    pub open spec fn spec_number(self) -> u8 {
        match self {
            Mode::OmniOnPoly => 1,
            Mode::OmniOnMono => 2,
            Mode::OmniOffPoly => 3,
            Mode::OmniOffMono => 4,
        }
    }

    /// The number of the mode, from 1 to 4.
    #[verifier::when_used_as_spec(spec_number)]
    pub fn number(self) -> (number: u8)
        ensures
            number == self.spec_number(),
    {
        match self {
            Mode::OmniOnPoly => 1,
            Mode::OmniOnMono => 2,
            Mode::OmniOffPoly => 3,
            Mode::OmniOffMono => 4,
        }
    }
}

/// The kinds of channel voice message.
#[derive(Clone, Copy, Debug, PartialEq, Eq, Structural)]
pub enum VoiceMessageType {
    NoteOn,
    NoteOff,
    ControlChange,
    ProgramChange,
    AfterTouch,
    PitchBendChange,
}

} // verus!
