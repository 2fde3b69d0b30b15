use mdy::error::Error;
use mdy::ump::{mt_packet_words, Group, MessageType, Packet, GROUP_MAX};

const ALL_TYPES: [MessageType; 16] = [
    MessageType::Utility,
    MessageType::SystemRealTimeAndCommon,
    MessageType::Midi1ChannelVoice,
    MessageType::DataInclSystemExclusive,
    MessageType::Midi2ChannelVoice,
    MessageType::Data,
    MessageType::Reserved6,
    MessageType::Reserved7,
    MessageType::Reserved8,
    MessageType::Reserved9,
    MessageType::ReservedA,
    MessageType::ReservedB,
    MessageType::ReservedC,
    MessageType::ReservedD,
    MessageType::ReservedE,
    MessageType::ReservedF,
];

const WORDS_BY_CODE: [u8; 16] = [1, 1, 1, 2, 2, 4, 1, 1, 2, 2, 2, 3, 3, 4, 4, 4];

fn header(code: u32, group: u32, rest: u32) -> Packet {
    Packet::new([(code << 28) | (group << 24) | (rest & 0x00FF_FFFF), 0, 0, 0])
}

#[test]
fn packet_keeps_its_words() {
    let words = [0x1234_5678, 0x9ABC_DEF0, 0x0F0F_0F0F, 0xFFFF_FFFF];
    assert_eq!(Packet::new(words).words(), words);
}

#[test]
fn message_type_bits_are_the_top_nibble() {
    assert_eq!(Packet::new([0x0000_0000, 0, 0, 0]).message_type_bits(), 0x0);
    assert_eq!(Packet::new([0x0FFF_FFFF, 0, 0, 0]).message_type_bits(), 0x0);
    assert_eq!(Packet::new([0x1000_0000, 0, 0, 0]).message_type_bits(), 0x1);
    assert_eq!(Packet::new([0x7FFF_FFFF, 0, 0, 0]).message_type_bits(), 0x7);
    assert_eq!(Packet::new([0x8000_0000, 0, 0, 0]).message_type_bits(), 0x8);
    assert_eq!(Packet::new([0xFFFF_FFFF, 0, 0, 0]).message_type_bits(), 0xF);
}

#[test]
fn group_bits_are_the_second_nibble() {
    assert_eq!(Packet::new([0x0000_0000, 0, 0, 0]).group_bits(), 0x0);
    assert_eq!(Packet::new([0xF0FF_FFFF, 0, 0, 0]).group_bits(), 0x0);
    assert_eq!(Packet::new([0x0100_0000, 0, 0, 0]).group_bits(), 0x1);
    assert_eq!(Packet::new([0x3A12_3456, 0, 0, 0]).group_bits(), 0xA);
    assert_eq!(Packet::new([0xFFFF_FFFF, 0, 0, 0]).group_bits(), 0xF);
}

#[test]
fn header_fields_come_from_the_first_word_only() {
    let a = Packet::new([0x4C00_0000, 0, 0, 0]);
    let b = Packet::new([0x4C00_0000, 0xFFFF_FFFF, 0x1234_5678, 0x9000_0000]);
    assert_eq!(a.message_type(), b.message_type());
    assert_eq!(a.group(), b.group());
    assert_eq!(a.packet_words(), b.packet_words());
    assert_eq!(b.message_type(), Ok(MessageType::Midi2ChannelVoice));
    assert_eq!(b.group().map(u8::from), Ok(0xC));
    assert_eq!(b.packet_words(), Ok(2));
}

#[test]
fn every_code_decodes_to_its_message_type() {
    for code in 0..16u32 {
        for group in 0..16u32 {
            let packet = header(code, group, 0x00AB_CDEF);
            let expected = ALL_TYPES[code as usize];
            assert_eq!(packet.message_type_bits(), code);
            assert_eq!(packet.message_type(), Ok(expected));
            assert_eq!(expected.code() as u32, code);
        }
    }
}

#[test]
fn packet_words_follow_the_table_for_every_code() {
    for code in 0..16u32 {
        for group in 0..16u32 {
            let packet = header(code, group, 0);
            let words = packet.packet_words();
            assert_eq!(words, Ok(WORDS_BY_CODE[code as usize]));
            assert!(matches!(words, Ok(1..=4)));
        }
    }
}

#[test]
fn packet_words_of_data_incl_system_exclusive_is_two() {
    assert_eq!(Packet::new([0x3000_0000, 0, 0, 0]).message_type(), Ok(MessageType::DataInclSystemExclusive));
    assert_eq!(Packet::new([0x3000_0000, 0, 0, 0]).packet_words(), Ok(2));
}

#[test]
fn mt_packet_words_by_name() {
    assert_eq!(mt_packet_words(MessageType::Utility), 1);
    assert_eq!(mt_packet_words(MessageType::SystemRealTimeAndCommon), 1);
    assert_eq!(mt_packet_words(MessageType::Midi1ChannelVoice), 1);
    assert_eq!(mt_packet_words(MessageType::DataInclSystemExclusive), 2);
    assert_eq!(mt_packet_words(MessageType::Midi2ChannelVoice), 2);
    assert_eq!(mt_packet_words(MessageType::Data), 4);
    assert_eq!(mt_packet_words(MessageType::Reserved6), 1);
    assert_eq!(mt_packet_words(MessageType::Reserved7), 1);
    assert_eq!(mt_packet_words(MessageType::Reserved8), 2);
    assert_eq!(mt_packet_words(MessageType::Reserved9), 2);
    assert_eq!(mt_packet_words(MessageType::ReservedA), 2);
    assert_eq!(mt_packet_words(MessageType::ReservedB), 3);
    assert_eq!(mt_packet_words(MessageType::ReservedC), 3);
    assert_eq!(mt_packet_words(MessageType::ReservedD), 4);
    assert_eq!(mt_packet_words(MessageType::ReservedE), 4);
    assert_eq!(mt_packet_words(MessageType::ReservedF), 4);
}

#[test]
fn message_type_codes_round_trip() {
    for (code, expected) in ALL_TYPES.iter().enumerate() {
        assert_eq!(expected.code() as usize, code);
        assert_eq!(MessageType::try_from(code as u8), Ok(*expected));
    }
}

#[test]
fn reserved_message_types_decode() {
    assert_eq!(MessageType::try_from(0x6), Ok(MessageType::Reserved6));
    assert_eq!(MessageType::try_from(0xF), Ok(MessageType::ReservedF));
    assert_eq!(Packet::new([0xD000_0000, 0, 0, 0]).message_type(), Ok(MessageType::ReservedD));
}

#[test]
fn values_above_a_nibble_are_no_message_type() {
    assert_eq!(MessageType::try_from(16), Err(Error::MalformedHeader { value: 16 }));
    assert_eq!(MessageType::try_from(0x20), Err(Error::MalformedHeader { value: 0x20 }));
    for value in 16..=255u8 {
        assert_eq!(MessageType::try_from(value), Err(Error::MalformedHeader { value }));
    }
}

#[test]
fn group_values_up_to_sixteen_are_accepted() {
    for value in 0..=16u8 {
        let group = Group::try_from(value);
        assert!(group.is_ok());
        assert_eq!(group.map(u8::from), Ok(value));
    }
}

#[test]
fn group_bound_is_sixteen() {
    assert_eq!(GROUP_MAX, 16);
    assert!(Group::try_from(GROUP_MAX).is_ok());
    assert_eq!(Group::try_from(GROUP_MAX + 1), Err(Error::InvalidGroup { value: 17 }));
}

#[test]
fn group_value_seventeen_is_rejected() {
    assert_eq!(Group::try_from(17), Err(Error::InvalidGroup { value: 17 }));
}

#[test]
fn group_values_above_sixteen_are_rejected() {
    for value in 17..=255u8 {
        assert_eq!(Group::try_from(value), Err(Error::InvalidGroup { value }));
    }
}

#[test]
fn group_converts_into_its_address() {
    let group = Group::try_from(9).unwrap();
    let address: u8 = group.into();
    assert_eq!(address, 9);
    assert_eq!(u8::from(group), 9);
}

#[test]
fn packet_group_is_always_below_sixteen() {
    for code in 0..16u32 {
        for group in 0..16u32 {
            let packet = header(code, group, 0x00FF_FFFF);
            assert_eq!(packet.group_bits(), group);
            assert_eq!(packet.group().map(u8::from), Ok(group as u8));
        }
    }
}

#[test]
fn groups_with_one_address_are_equal() {
    assert_eq!(Group::try_from(3), Group::try_from(3));
    assert_ne!(Group::try_from(3), Group::try_from(4));
    assert_eq!(Packet::new([0x0300_0000, 0, 0, 0]).group(), Group::try_from(3));
}
