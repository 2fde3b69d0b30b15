//! The Universal MIDI Packet envelope: one to four 32-bit words whose first
//! word carries the message type in bits 31..28 and the group in bits 27..24.

use crate::error::Error;
use vstd::prelude::*;
use vstd::std_specs::convert::TryFromSpec;

verus! {

/// The largest value that the group domain admits.
///
/// The group field of a packet is four bits wide and so carries 0 to 15 only:
/// the domain is one value wider than the wire can express. [`Packet::group`]
/// states the tighter bound for every group that was read from a packet.
pub const GROUP_MAX: u8 = 16;

/// Bits 31..28 of a header word: the code of the message type.
pub open spec fn message_type_field(word: u32) -> int {
    word as int / 0x1000_0000
}

/// Bits 27..24 of a header word: the group.
pub open spec fn group_field(word: u32) -> int {
    (word as int / 0x100_0000) % 0x10
}

/// The address of one group of sixteen channels. Its view is the address.
#[derive(Clone, Copy, Debug, PartialEq, Eq)]
pub struct Group(u8);

impl View for Group {
    type V = int;

    closed spec fn view(&self) -> int {
        self.0 as int
    }
}

impl Group {
    #[verifier::type_invariant]
    spec fn in_domain(self) -> bool {
        self.0 <= GROUP_MAX
    }

    /// The group whose address is `value`.
    pub closed spec fn spec_new(value: u8) -> Group {
        Group(value)
    }

    /// A group is determined by its address.
    pub proof fn lemma_view_determines(self, other: Group)
        ensures
            self@ == other@ <==> self == other,
            Group::spec_new(self@ as u8) == self,
            0 <= self@ <= u8::MAX,
    {
    }

    /// The address of the group made from `value` is `value`.
    pub proof fn lemma_spec_new_view(value: u8)
        ensures
            Group::spec_new(value)@ == value,
    {
    }
}

impl vstd::std_specs::convert::TryFromSpecImpl<u8> for Group {
    open spec fn obeys_try_from_spec() -> bool {
        true
    }

    open spec fn try_from_spec(value: u8) -> Result<Group, Error> {
        if value <= GROUP_MAX {
            Ok(Group::spec_new(value))
        } else {
            Err(Error::InvalidGroup { value })
        }
    }
}

impl TryFrom<u8> for Group {
    type Error = Error;

    /// Accepts exactly the values up to [`GROUP_MAX`].
    fn try_from(value: u8) -> (r: Result<Group, Error>)
        ensures
            r is Ok <==> value <= GROUP_MAX,
            r is Ok ==> r->Ok_0@ == value,
    {
        if value <= GROUP_MAX {
            Ok(Group(value))
        } else {
            Err(Error::InvalidGroup { value })
        }
    }
}

impl vstd::std_specs::convert::FromSpecImpl<Group> for u8 {
    open spec fn obeys_from_spec() -> bool {
        true
    }

    open spec fn from_spec(group: Group) -> u8 {
        group@ as u8
    }
}

impl From<Group> for u8 {
    /// The address of the group.
    fn from(group: Group) -> (value: u8)
        ensures
            value == group@,
            value <= GROUP_MAX,
    {
        proof {
            use_type_invariant(group);
        }
        group.0
    }
}

/// What a packet carries, as the four-bit code in its header names it.
/// The codes from 6 on are reserved; they decode like any other.
#[derive(Clone, Copy, Debug, PartialEq, Eq, Structural)]
pub enum MessageType {
    Utility,
    SystemRealTimeAndCommon,
    Midi1ChannelVoice,
    DataInclSystemExclusive,
    Midi2ChannelVoice,
    Data,
    Reserved6,
    Reserved7,
    Reserved8,
    Reserved9,
    ReservedA,
    ReservedB,
    ReservedC,
    ReservedD,
    ReservedE,
    ReservedF,
}

impl MessageType {
    /// The code that stands for this type on the wire.
    pub open spec fn spec_code(self) -> u8 {
        match self {
            MessageType::Utility => 0x0,
            MessageType::SystemRealTimeAndCommon => 0x1,
            MessageType::Midi1ChannelVoice => 0x2,
            MessageType::DataInclSystemExclusive => 0x3,
            MessageType::Midi2ChannelVoice => 0x4,
            MessageType::Data => 0x5,
            MessageType::Reserved6 => 0x6,
            MessageType::Reserved7 => 0x7,
            MessageType::Reserved8 => 0x8,
            MessageType::Reserved9 => 0x9,
            MessageType::ReservedA => 0xA,
            MessageType::ReservedB => 0xB,
            MessageType::ReservedC => 0xC,
            MessageType::ReservedD => 0xD,
            MessageType::ReservedE => 0xE,
            MessageType::ReservedF => 0xF,
        }
    }

    /// The number of 32-bit words of a packet of this type.
    pub open spec fn spec_packet_words(self) -> u8 {
        match self {
            MessageType::Utility => 1,
            MessageType::SystemRealTimeAndCommon => 1,
            MessageType::Midi1ChannelVoice => 1,
            MessageType::DataInclSystemExclusive => 2,
            MessageType::Midi2ChannelVoice => 2,
            MessageType::Data => 4,
            MessageType::Reserved6 => 1,
            MessageType::Reserved7 => 1,
            MessageType::Reserved8 => 2,
            MessageType::Reserved9 => 2,
            MessageType::ReservedA => 2,
            MessageType::ReservedB => 3,
            MessageType::ReservedC => 3,
            MessageType::ReservedD => 4,
            MessageType::ReservedE => 4,
            MessageType::ReservedF => 4,
        }
    }

    /// The code that stands for this type on the wire.
    #[verifier::when_used_as_spec(spec_code)]
    pub fn code(self) -> (code: u8)
        ensures
            code == self.spec_code(),
    {
        match self {
            MessageType::Utility => 0x0,
            MessageType::SystemRealTimeAndCommon => 0x1,
            MessageType::Midi1ChannelVoice => 0x2,
            MessageType::DataInclSystemExclusive => 0x3,
            MessageType::Midi2ChannelVoice => 0x4,
            MessageType::Data => 0x5,
            MessageType::Reserved6 => 0x6,
            MessageType::Reserved7 => 0x7,
            MessageType::Reserved8 => 0x8,
            MessageType::Reserved9 => 0x9,
            MessageType::ReservedA => 0xA,
            MessageType::ReservedB => 0xB,
            MessageType::ReservedC => 0xC,
            MessageType::ReservedD => 0xD,
            MessageType::ReservedE => 0xE,
            MessageType::ReservedF => 0xF,
        }
    }

    /// Every message type decodes from its own code.
    pub proof fn lemma_code_decodes(self)
        ensures
            self.spec_code() < 0x10,
            MessageType::try_from_spec(self.spec_code()) == Ok::<MessageType, Error>(self),
    {
    }

    /// Each of the sixteen codes names a message type, that type has this
    /// code, and its packets are one to four words long. No other value
    /// names a message type.
    pub proof fn lemma_codes_are_total(value: u8)
        ensures
            value < 0x10 <==> MessageType::try_from_spec(value) is Ok,
            value < 0x10 ==> MessageType::try_from_spec(value)->Ok_0.spec_code() == value,
            value < 0x10 ==> 1 <= MessageType::try_from_spec(value)->Ok_0.spec_packet_words() <= 4,
    {
    }
}

impl vstd::std_specs::convert::TryFromSpecImpl<u8> for MessageType {
    open spec fn obeys_try_from_spec() -> bool {
        true
    }

    open spec fn try_from_spec(value: u8) -> Result<MessageType, Error> {
        if value == 0x0 {
            Ok(MessageType::Utility)
        } else if value == 0x1 {
            Ok(MessageType::SystemRealTimeAndCommon)
        } else if value == 0x2 {
            Ok(MessageType::Midi1ChannelVoice)
        } else if value == 0x3 {
            Ok(MessageType::DataInclSystemExclusive)
        } else if value == 0x4 {
            Ok(MessageType::Midi2ChannelVoice)
        } else if value == 0x5 {
            Ok(MessageType::Data)
        } else if value == 0x6 {
            Ok(MessageType::Reserved6)
        } else if value == 0x7 {
            Ok(MessageType::Reserved7)
        } else if value == 0x8 {
            Ok(MessageType::Reserved8)
        } else if value == 0x9 {
            Ok(MessageType::Reserved9)
        } else if value == 0xA {
            Ok(MessageType::ReservedA)
        } else if value == 0xB {
            Ok(MessageType::ReservedB)
        } else if value == 0xC {
            Ok(MessageType::ReservedC)
        } else if value == 0xD {
            Ok(MessageType::ReservedD)
        } else if value == 0xE {
            Ok(MessageType::ReservedE)
        } else if value == 0xF {
            Ok(MessageType::ReservedF)
        } else {
            Err(Error::MalformedHeader { value })
        }
    }
}

impl TryFrom<u8> for MessageType {
    type Error = Error;

    /// Decodes a message type from its code. The values from 16 on are
    /// codes of nothing.
    fn try_from(value: u8) -> (r: Result<MessageType, Error>)
        ensures
            r is Ok <==> value < 0x10,
            r is Ok ==> r->Ok_0.spec_code() == value,
    {
        match value {
            0x0 => Ok(MessageType::Utility),
            0x1 => Ok(MessageType::SystemRealTimeAndCommon),
            0x2 => Ok(MessageType::Midi1ChannelVoice),
            0x3 => Ok(MessageType::DataInclSystemExclusive),
            0x4 => Ok(MessageType::Midi2ChannelVoice),
            0x5 => Ok(MessageType::Data),
            0x6 => Ok(MessageType::Reserved6),
            0x7 => Ok(MessageType::Reserved7),
            0x8 => Ok(MessageType::Reserved8),
            0x9 => Ok(MessageType::Reserved9),
            0xA => Ok(MessageType::ReservedA),
            0xB => Ok(MessageType::ReservedB),
            0xC => Ok(MessageType::ReservedC),
            0xD => Ok(MessageType::ReservedD),
            0xE => Ok(MessageType::ReservedE),
            0xF => Ok(MessageType::ReservedF),
            _ => Err(Error::MalformedHeader { value }),
        }
    }
}

/// The number of 32-bit words of a packet of type `mt`.
pub fn mt_packet_words(mt: MessageType) -> (words: u8)
    ensures
        words == mt.spec_packet_words(),
        1 <= words <= 4,
{
    match mt {
        MessageType::Utility => 1,
        MessageType::SystemRealTimeAndCommon => 1,
        MessageType::Midi1ChannelVoice => 1,
        MessageType::DataInclSystemExclusive => 2,
        MessageType::Midi2ChannelVoice => 2,
        MessageType::Data => 4,
        MessageType::Reserved6 => 1,
        MessageType::Reserved7 => 1,
        MessageType::Reserved8 => 2,
        MessageType::Reserved9 => 2,
        MessageType::ReservedA => 2,
        MessageType::ReservedB => 3,
        MessageType::ReservedC => 3,
        MessageType::ReservedD => 4,
        MessageType::ReservedE => 4,
        MessageType::ReservedF => 4,
    }
}

/// A buffer of four native-endian words that holds one packet. A packet
/// shorter than four words fills a prefix of the buffer; the words behind
/// it are ignored. The view of a packet is its four words.
#[derive(Clone, Copy, Debug)]
pub struct Packet {
    data: [u32; 4],
}

impl View for Packet {
    type V = Seq<u32>;

    closed spec fn view(&self) -> Seq<u32> {
        self.data@
    }
}

impl Packet {
    /// The message type that the header names.
    pub open spec fn spec_message_type(&self) -> Result<MessageType, Error> {
        MessageType::try_from_spec(message_type_field(self@[0]) as u8)
    }

    /// The group that the header names.
    pub open spec fn spec_group(&self) -> Result<Group, Error> {
        Group::try_from_spec(group_field(self@[0]) as u8)
    }

    /// The length in words that the header's message type stands for.
    pub open spec fn spec_packet_words(&self) -> Result<u8, Error> {
        match self.spec_message_type() {
            Ok(mt) => Ok(mt.spec_packet_words()),
            Err(e) => Err(e),
        }
    }

    /// A packet always has four words.
    pub proof fn lemma_four_words(&self)
        ensures
            self@.len() == 4,
    {
    }

    /// The packet that `data` holds.
    pub fn new(data: [u32; 4]) -> (packet: Packet)
        ensures
            packet@ == data@,
    {
        Packet { data }
    }

    /// The four words of the buffer.
    pub fn words(&self) -> (data: [u32; 4])
        ensures
            data@ == self@,
    {
        self.data
    }

    /// Bits 31..28 of the first word.
    pub fn message_type_bits(&self) -> (bits: u32)
        ensures
            bits == message_type_field(self@[0]),
            bits < 0x10,
    {
        let word: u32 = self.data[0];
        assert(word >> 28 == word / 0x1000_0000 && word >> 28 < 0x10) by (bit_vector);
        word >> 28
    }

    /// Bits 27..24 of the first word.
    pub fn group_bits(&self) -> (bits: u32)
        ensures
            bits == group_field(self@[0]),
            bits < 0x10,
    {
        let word: u32 = self.data[0];
        assert((word >> 24) & 0xF == (word / 0x100_0000) % 0x10 && (word >> 24) & 0xF < 0x10)
            by (bit_vector);
        (word >> 24) & 0xF
    }

    /// The message type of the packet. The field is four bits wide and each
    /// of its sixteen values is the code of a type, so this never fails.
    pub fn message_type(&self) -> (r: Result<MessageType, Error>)
        ensures
            r == self.spec_message_type(),
            r is Ok,
            r->Ok_0.spec_code() == message_type_field(self@[0]),
    {
        let bits: u32 = self.message_type_bits();
        MessageType::try_from(bits as u8)
    }

    /// The group of the packet. The field is four bits wide, so the group is
    /// below 16 and this never fails.
    pub fn group(&self) -> (r: Result<Group, Error>)
        ensures
            r == self.spec_group(),
            r is Ok,
            r->Ok_0@ == group_field(self@[0]),
            r->Ok_0@ < 0x10,
    {
        let bits: u32 = self.group_bits();
        Group::try_from(bits as u8)
    }

    /// The number of words, from 1 to 4, that the packet occupies: that of
    /// its message type.
    pub fn packet_words(&self) -> (r: Result<u8, Error>)
        ensures
            r == self.spec_packet_words(),
            r is Ok,
            1 <= r->Ok_0 <= 4,
    {
        match self.message_type() {
            Ok(mt) => Ok(mt_packet_words(mt)),
            Err(e) => Err(e),
        }
    }
}

} // verus!
