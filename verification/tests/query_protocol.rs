use wc3_rustlan::warcraft::expansion::Expansion;
use wc3_rustlan::warcraft::game_info::GameInfo;
use wc3_rustlan::warcraft::query_protocol::change_game_info_packet_port;
use wc3_rustlan::warcraft::query_protocol::extract_game_info;
use wc3_rustlan::warcraft::query_protocol::get_browse_packet;
use wc3_rustlan::warcraft::query_protocol::get_game_announce_packet;
use wc3_rustlan::warcraft::query_protocol::get_game_cancelled_packet;
use wc3_rustlan::warcraft::query_protocol::EncodeError;
use wc3_rustlan::warcraft::query_protocol::ParseError;

const RESPONSE: [u8; 163] = [
    0xf7, 0x30, 0xa3, 0x00, 0x50, 0x58, 0x33, 0x57, 0x1a, 0x00, 0x00, 0x00, 0x01, 0x00, 0x00,
    0x00, 0x96, 0xde, 0x77, 0x01, 0x4d, 0xc3, 0xad, 0x73, 0x74, 0x6e, 0xc3, 0xad, 0x20, 0x68,
    0x72, 0x61, 0x20, 0x28, 0x44, 0x75, 0x73, 0x61, 0x6e, 0x61, 0x6b, 0x29, 0x00, 0x00, 0x01,
    0x03, 0x49, 0x07, 0x01, 0x01, 0x75, 0x01, 0xd1, 0x55, 0x01, 0xf5, 0x3b, 0xa7, 0xc7, 0x4d,
    0x8b, 0x61, 0x71, 0x73, 0x5d, 0x47, 0x73, 0x6f, 0x85, 0x7b, 0x65, 0x6f, 0x55, 0x69, 0x73,
    0x6f, 0x45, 0x6f, 0x65, 0x5d, 0x29, 0x33, 0x29, 0x53, 0x67, 0x6f, 0x61, 0x65, 0x55, 0x6f,
    0x53, 0x75, 0xa5, 0x73, 0x61, 0x75, 0x69, 0x6f, 0x6d, 0x6d, 0x1b, 0x65, 0x2f, 0x77, 0x33,
    0x79, 0x01, 0x45, 0x6f, 0x75, 0x73, 0x61, 0x6f, 0x61, 0x6b, 0x01, 0x19, 0x01, 0x7f, 0xcf,
    0x15, 0x41, 0x33, 0x87, 0x83, 0xeb, 0x7b, 0x95, 0xd3, 0xf7, 0x7b, 0x4b, 0x27, 0x05, 0x1f,
    0xd1, 0x75, 0x7d, 0x1d, 0x21, 0x00, 0x02, 0x00, 0x00, 0x00, 0x09, 0x00, 0x00, 0x00, 0x01,
    0x00, 0x00, 0x00, 0x02, 0x00, 0x00, 0x00, 0x22, 0x00, 0x00, 0x00, 0xe0, 0x17,
];

/// The packed form of `plain`, without the terminator: one mask before every
/// seven bytes; a zero byte is written as one with its mask bit clear.
fn pack(plain: &[u8]) -> Vec<u8> {
    let mut packed = Vec::new();
    for group in plain.chunks(7) {
        let mut mask = 1u8;
        for (place, byte) in group.iter().enumerate() {
            if *byte != 0 {
                mask |= 1 << (place + 1);
            }
        }
        packed.push(mask);
        for byte in group {
            packed.push(if *byte == 0 { 1 } else { *byte });
        }
    }
    packed
}

/// A game-info packet made by hand: the head with game identifier 42, the
/// name and its terminator, one more byte, what follows it, and the tail.
fn packet_with(name: &[u8], rest: &[u8], tail: &[u8; 22]) -> Vec<u8> {
    let mut packet = vec![
        0xf7, 0x30, 0x00, 0x00, 0x50, 0x58, 0x33, 0x57, 0x1a, 0x00, 0x00, 0x00, 0x2a, 0x00,
        0x00, 0x00, 0x01, 0x02, 0x03, 0x04,
    ];
    packet.extend_from_slice(name);
    packet.push(0x00);
    packet.push(0x00);
    packet.extend_from_slice(rest);
    packet.extend_from_slice(tail);
    packet
}

/// The packed part, with its terminator, that holds thirteen bytes and then
/// `map` as a NUL-terminated string.
fn packed_map(map: &[u8]) -> Vec<u8> {
    let mut plain = vec![0x02u8; 13];
    plain.extend_from_slice(map);
    plain.push(0x00);
    let mut packed = pack(&plain);
    packed.push(0x00);
    packed
}

const TAIL: [u8; 22] = [
    0x0c, 0x00, 0x00, 0x00, 0x09, 0x00, 0x00, 0x00, 0x03, 0x00, 0x00, 0x00, 0x05, 0x00, 0x00,
    0x00, 0x22, 0x00, 0x00, 0x00, 0x34, 0x12,
];

#[test]
fn test_extract_game_info() {
    let response = [
        0xf7, 0x30, 0xa3, 0x00, 0x50, 0x58, 0x33, 0x57, 0x1a, 0x00, 0x00, 0x00, 0x01, 0x00,
        0x00, 0x00, 0x96, 0xde, 0x77, 0x01, 0x4d, 0xc3, 0xad, 0x73, 0x74, 0x6e, 0xc3, 0xad,
        0x20, 0x68, 0x72, 0x61, 0x20, 0x28, 0x44, 0x75, 0x73, 0x61, 0x6e, 0x61, 0x6b, 0x29,
        0x00, 0x00, 0x01, 0x03, 0x49, 0x07, 0x01, 0x01, 0x75, 0x01, 0xd1, 0x55, 0x01, 0xf5,
        0x3b, 0xa7, 0xc7, 0x4d, 0x8b, 0x61, 0x71, 0x73, 0x5d, 0x47, 0x73, 0x6f, 0x85, 0x7b,
        0x65, 0x6f, 0x55, 0x69, 0x73, 0x6f, 0x45, 0x6f, 0x65, 0x5d, 0x29, 0x33, 0x29, 0x53,
        0x67, 0x6f, 0x61, 0x65, 0x55, 0x6f, 0x53, 0x75, 0xa5, 0x73, 0x61, 0x75, 0x69, 0x6f,
        0x6d, 0x6d, 0x1b, 0x65, 0x2f, 0x77, 0x33, 0x79, 0x01, 0x45, 0x6f, 0x75, 0x73, 0x61,
        0x6f, 0x61, 0x6b, 0x01, 0x19, 0x01, 0x7f, 0xcf, 0x15, 0x41, 0x33, 0x87, 0x83, 0xeb,
        0x7b, 0x95, 0xd3, 0xf7, 0x7b, 0x4b, 0x27, 0x05, 0x1f, 0xd1, 0x75, 0x7d, 0x1d, 0x21,
        0x00, 0x02, 0x00, 0x00, 0x00, 0x09, 0x00, 0x00, 0x00, 0x01, 0x00, 0x00, 0x00, 0x02,
        0x00, 0x00, 0x00, 0x22, 0x00, 0x00, 0x00, 0xe0, 0x17,
    ];

    let result = extract_game_info(&response).unwrap();

    assert_eq!(1, result.game_id);
    assert_eq!("Místní hra (Dusanak)", result.name);
    assert_eq!("Maps\\FrozenThrone\\(2)RoadToStratholme.w3x", result.map);
    assert_eq!(6112, result.port);
    assert_eq!(2, result.slot_count);
    assert_eq!(1, result.current_players);
    assert_eq!(2, result.player_slots);
}

#[test]
fn test_get_browse_packet() {
    let browse_packet = [
        0xf7, 0x2f, 0x10, 0x00, 0x50, 0x58, 0x33, 0x57, 0x1a, 0x00, 0x00, 0x00, 0x00, 0x00,
        0x00, 0x00,
    ]; // version 26, for some reason ROC, might be a Linux thing

    let expansion = Expansion::ROC;
    let version = 0x1a; // version 26 corresponding to 1.26

    assert_eq!(browse_packet, get_browse_packet(expansion, version));
}

#[test]
fn test_get_game_announce_packet() {
    let game_announce_packet = [
        0xf7, 0x32, 0x10, 0x00, 0x01, 0x00, 0x00, 0x00, 0x01, 0x00, 0x00, 0x00, 0x02, 0x00,
        0x00, 0x00,
    ];

    let game_info = GameInfo {
        game_id: 1,
        name: String::from("Test"),
        map: String::from("Test"),
        port: 6112,
        slot_count: 2,
        current_players: 1,
        player_slots: 2,
    };

    assert_eq!(game_announce_packet, get_game_announce_packet(game_info).unwrap());
}

#[test]
fn browse_packet_for_the_expansion() {
    let expected = [
        0xf7, 0x2f, 0x10, 0x00, 0x33, 0x52, 0x41, 0x57, 0x1a, 0x00, 0x00, 0x00, 0x00, 0x00,
        0x00, 0x00,
    ];
    assert_eq!(expected, get_browse_packet(Expansion::TFT, 0x1a));
}

#[test]
fn browse_packet_carries_the_version() {
    let packet = get_browse_packet(Expansion::ROC, 0xff);
    assert_eq!(0xff, packet[8]);
    assert_eq!([0x50, 0x58, 0x33, 0x57], packet[4..8]);
    assert_eq!([0u8; 7], packet[9..16]);
}

#[test]
fn default_expansion_is_the_base_game() {
    assert_eq!(Expansion::ROC, Expansion::default());
}

#[test]
fn cancelled_packet() {
    assert_eq!(
        [0xf7, 0x33, 0x08, 0x00, 0x07, 0x00, 0x00, 0x00],
        get_game_cancelled_packet(7)
    );
    assert_eq!(
        [0xf7, 0x33, 0x08, 0x00, 0xff, 0x00, 0x00, 0x00],
        get_game_cancelled_packet(255)
    );
}

#[test]
fn announce_packet_fields_are_little_endian() {
    let game_info = GameInfo {
        game_id: 0x12345678,
        name: String::new(),
        map: String::new(),
        port: 1,
        slot_count: 12,
        current_players: 3,
        player_slots: 5,
    };
    assert_eq!(
        Ok([
            0xf7, 0x32, 0x10, 0x00, 0x78, 0x56, 0x34, 0x12, 0x0a, 0x00, 0x00, 0x00, 0x0c, 0x00,
            0x00, 0x00,
        ]),
        get_game_announce_packet(game_info)
    );
}

#[test]
fn announce_packet_holds_negative_fields() {
    let game_info = GameInfo {
        game_id: -2,
        name: String::new(),
        map: String::new(),
        port: 1,
        slot_count: -1,
        current_players: 0,
        player_slots: 255,
    };
    assert_eq!(
        Ok([
            0xf7, 0x32, 0x10, 0x00, 0xfe, 0xff, 0xff, 0xff, 0x00, 0xff, 0xff, 0xff, 0xff, 0xff,
            0xff, 0xff,
        ]),
        get_game_announce_packet(game_info)
    );
}

#[test]
fn announce_packet_fails_when_the_player_count_is_too_large() {
    let game_info = GameInfo {
        game_id: 1,
        name: String::new(),
        map: String::new(),
        port: 1,
        slot_count: i32::MAX,
        current_players: 1,
        player_slots: 0,
    };
    assert_eq!(Err(EncodeError::FieldRange), get_game_announce_packet(game_info));
}

#[test]
fn announce_packet_fails_when_the_player_count_is_too_small() {
    let game_info = GameInfo {
        game_id: 1,
        name: String::new(),
        map: String::new(),
        port: 1,
        slot_count: i32::MIN,
        current_players: 0,
        player_slots: 1,
    };
    assert_eq!(Err(EncodeError::FieldRange), get_game_announce_packet(game_info));
}

#[test]
fn announce_packet_at_the_edges_of_the_range() {
    let most = GameInfo {
        game_id: 0,
        name: String::new(),
        map: String::new(),
        port: 1,
        slot_count: i32::MAX,
        current_players: 1,
        player_slots: 1,
    };
    assert_eq!(
        Ok([
            0xf7, 0x32, 0x10, 0x00, 0x00, 0x00, 0x00, 0x00, 0xff, 0xff, 0xff, 0x7f, 0xff, 0xff,
            0xff, 0x7f,
        ]),
        get_game_announce_packet(most)
    );
    let least = GameInfo {
        game_id: 0,
        name: String::new(),
        map: String::new(),
        port: 1,
        slot_count: i32::MIN,
        current_players: 0,
        player_slots: 0,
    };
    assert_eq!(
        Ok([
            0xf7, 0x32, 0x10, 0x00, 0x00, 0x00, 0x00, 0x00, 0x00, 0x00, 0x00, 0x80, 0x00, 0x00,
            0x00, 0x80,
        ]),
        get_game_announce_packet(least)
    );
}

#[test]
fn wrong_type_for_another_packet_type() {
    let mut buffer = RESPONSE;
    buffer[1] = 0x31;
    assert_eq!(Some(ParseError::WrongType), extract_game_info(&buffer).err());
}

#[test]
fn wrong_type_for_another_first_byte() {
    let mut buffer = RESPONSE;
    buffer[0] = 0xf6;
    assert_eq!(Some(ParseError::WrongType), extract_game_info(&buffer).err());
}

#[test]
fn wrong_type_for_a_short_buffer() {
    assert_eq!(Some(ParseError::WrongType), extract_game_info(&[]).err());
    assert_eq!(Some(ParseError::WrongType), extract_game_info(&[0xf7]).err());
    assert_eq!(Some(ParseError::WrongType), extract_game_info(&[0xf7, 0x30]).err());
    assert_eq!(Some(ParseError::WrongType), extract_game_info(&RESPONSE[..35]).err());
}

#[test]
fn hand_made_packet_is_read() {
    let packet = packet_with(b"Game", &packed_map(b"M"), &TAIL);
    let info = extract_game_info(&packet).unwrap();
    assert_eq!(42, info.game_id);
    assert_eq!("Game", info.name);
    assert_eq!("M", info.map);
    assert_eq!(0x1234, info.port);
    assert_eq!(12, info.slot_count);
    assert_eq!(3, info.current_players);
    assert_eq!(5, info.player_slots);
    assert_eq!(10, info.player_count());
}

#[test]
fn shortest_packet_that_is_read() {
    // An empty name at offset 20, one more byte, and a packed part that
    // holds thirteen bytes and an empty map path. The tail lies over it.
    let mut packet = vec![0xf7, 0x30, 0x27, 0x00];
    packet.extend_from_slice(&[0x01; 16]);
    packet.push(0x00);
    packet.push(0x09);
    packet.extend_from_slice(&packed_map(b""));
    assert_eq!(39, packet.len());
    let info = extract_game_info(&packet).unwrap();
    assert_eq!(0x01010101, info.game_id);
    assert_eq!("", info.name);
    assert_eq!("", info.map);
    assert_eq!(0x0001, info.port);
    assert_eq!(0x00010101, info.slot_count);
    assert_eq!(0x02020202, info.current_players);
    assert_eq!(0x02027f02, info.player_slots);
}

#[test]
fn negative_fields_are_read() {
    let tail = [
        0xff, 0xff, 0xff, 0xff, 0x09, 0x00, 0x00, 0x00, 0x00, 0x00, 0x00, 0x80, 0xfe, 0xff, 0xff,
        0x7f, 0x22, 0x00, 0x00, 0x00, 0xff, 0xff,
    ];
    let mut packet = packet_with(b"Game", &packed_map(b"M"), &tail);
    packet[12..16].copy_from_slice(&[0x00, 0xff, 0xff, 0xff]);
    let info = extract_game_info(&packet).unwrap();
    assert_eq!(-256, info.game_id);
    assert_eq!(-1, info.slot_count);
    assert_eq!(i32::MIN, info.current_players);
    assert_eq!(i32::MAX - 1, info.player_slots);
    assert_eq!(65535, info.port);
}

#[test]
fn malformed_when_the_name_has_no_end() {
    let mut packet = vec![0xf7, 0x30, 0x28, 0x00];
    packet.extend_from_slice(&[0x41; 36]);
    assert_eq!(Some(ParseError::Malformed), extract_game_info(&packet).err());
}

#[test]
fn malformed_when_the_name_is_not_utf8() {
    let packet = packet_with(&[0x47, 0xc3, 0x28], &packed_map(b"M"), &TAIL);
    assert_eq!(Some(ParseError::Malformed), extract_game_info(&packet).err());
    let packet = packet_with(&[0xff], &packed_map(b"M"), &TAIL);
    assert_eq!(Some(ParseError::Malformed), extract_game_info(&packet).err());
    let packet = packet_with(&[0xed, 0xa0, 0x80], &packed_map(b"M"), &TAIL);
    assert_eq!(Some(ParseError::Malformed), extract_game_info(&packet).err());
    let packet = packet_with(&[0xc0, 0x80], &packed_map(b"M"), &TAIL);
    assert_eq!(Some(ParseError::Malformed), extract_game_info(&packet).err());
}

#[test]
fn malformed_when_the_map_is_not_utf8() {
    let packet = packet_with(b"Game", &packed_map(&[0xc3, 0x28]), &TAIL);
    assert_eq!(Some(ParseError::Malformed), extract_game_info(&packet).err());
    let packet = packet_with(b"Game", &packed_map(&[0x4d, 0x80]), &TAIL);
    assert_eq!(Some(ParseError::Malformed), extract_game_info(&packet).err());
}

#[test]
fn map_with_characters_of_every_width_is_read() {
    let map = "a\u{e9}\u{20ac}\u{1f600}";
    let packet = packet_with("\u{10348}".as_bytes(), &packed_map(map.as_bytes()), &TAIL);
    let info = extract_game_info(&packet).unwrap();
    assert_eq!("\u{10348}", info.name);
    assert_eq!(map, info.map);
}

#[test]
fn malformed_when_the_name_ends_with_the_buffer() {
    // The terminator of the name is the last byte, so that nothing is left
    // for the byte behind it and the packed part.
    let mut packet = vec![0xf7, 0x30, 0x24, 0x00];
    packet.extend_from_slice(&[0x41; 31]);
    packet.push(0x00);
    assert_eq!(36, packet.len());
    assert_eq!(Some(ParseError::Malformed), extract_game_info(&packet).err());
    // One byte more: the packed part is empty and has no terminator.
    packet.push(0x01);
    assert_eq!(Some(ParseError::Malformed), extract_game_info(&packet).err());
    // Two bytes more, none of them zero: still no terminator.
    packet.push(0x01);
    assert_eq!(Some(ParseError::Malformed), extract_game_info(&packet).err());
}

#[test]
fn malformed_when_the_packed_part_has_no_end() {
    let mut plain = vec![0x02u8; 13];
    plain.extend_from_slice(&[0x4d, 0x00]);
    let packet = packet_with(b"Game", &pack(&plain), &[0x01; 22]);
    assert_eq!(Some(ParseError::Malformed), extract_game_info(&packet).err());
}

#[test]
fn malformed_when_the_packed_part_is_too_short_for_a_map() {
    let mut packed = pack(&[0x02; 12]);
    packed.push(0x00);
    let packet = packet_with(b"Game", &packed, &TAIL);
    assert_eq!(Some(ParseError::Malformed), extract_game_info(&packet).err());
}

#[test]
fn malformed_when_the_map_has_no_end() {
    let mut packed = pack(&[0x02; 13]);
    packed.push(0x00);
    let packet = packet_with(b"Game", &packed, &TAIL);
    assert_eq!(Some(ParseError::Malformed), extract_game_info(&packet).err());
    let mut plain = vec![0x02u8; 13];
    plain.extend_from_slice(b"Map");
    let mut packed = pack(&plain);
    packed.push(0x00);
    let packet = packet_with(b"Game", &packed, &TAIL);
    assert_eq!(Some(ParseError::Malformed), extract_game_info(&packet).err());
}

#[test]
fn every_prefix_of_a_packet_is_taken() {
    for len in 0..RESPONSE.len() {
        let result = extract_game_info(&RESPONSE[..len]);
        if len < 36 {
            assert_eq!(Some(ParseError::WrongType), result.err());
        } else if len < 163 {
            assert!(result.is_ok() || result.err() == Some(ParseError::Malformed));
        }
    }
}

#[test]
fn every_changed_byte_is_taken() {
    for at in 0..RESPONSE.len() {
        for value in 0..=255u8 {
            let mut buffer = RESPONSE;
            buffer[at] = value;
            let result = extract_game_info(&buffer);
            if at < 2 && value != RESPONSE[at] {
                assert_eq!(Some(ParseError::WrongType), result.err());
            } else if at >= 161 {
                let port = u16::from_le_bytes([buffer[161], buffer[162]]);
                assert_eq!(Some(port), result.ok().map(|info| info.port));
            } else {
                assert_ne!(Some(ParseError::WrongType), result.err());
            }
        }
    }
}

#[test]
fn large_buffers_are_taken() {
    let mut ones = vec![0x01u8; 65535];
    ones[0] = 0xf7;
    ones[1] = 0x30;
    assert_eq!(Some(ParseError::Malformed), extract_game_info(&ones).err());
    let zeros = vec![0x00u8; 65535];
    assert_eq!(Some(ParseError::WrongType), extract_game_info(&zeros).err());
    let mut state: u32 = 0x2545f491;
    for round in 0..200 {
        let mut buffer = Vec::with_capacity(65535);
        for _ in 0..(36 + round * 300) {
            state = state.wrapping_mul(1664525).wrapping_add(1013904223);
            buffer.push((state >> 24) as u8);
        }
        buffer[0] = 0xf7;
        buffer[1] = 0x30;
        let result = extract_game_info(&buffer);
        assert!(result.is_ok() || result.err() == Some(ParseError::Malformed));
    }
}

#[test]
fn port_is_set_in_the_last_two_bytes() {
    let mut packet = RESPONSE.to_vec();
    change_game_info_packet_port(0x1234, &mut packet);
    assert_eq!(163, packet.len());
    assert_eq!(RESPONSE[..161], packet[..161]);
    assert_eq!([0x34, 0x12], packet[161..]);
}

#[test]
fn port_set_twice_is_port_set_once() {
    for port in [0u16, 1, 255, 256, 6112, 40000, 65535] {
        let mut once = RESPONSE.to_vec();
        change_game_info_packet_port(port, &mut once);
        let mut twice = once.clone();
        change_game_info_packet_port(port, &mut twice);
        assert_eq!(once, twice);
        assert_eq!(RESPONSE[..161], once[..161]);
        assert_eq!(port.to_le_bytes(), once[161..]);
    }
}

#[test]
fn last_port_set_stands() {
    let mut packet = RESPONSE.to_vec();
    change_game_info_packet_port(1, &mut packet);
    change_game_info_packet_port(0xabcd, &mut packet);
    let mut direct = RESPONSE.to_vec();
    change_game_info_packet_port(0xabcd, &mut direct);
    assert_eq!(direct, packet);
}

#[test]
fn port_of_a_packet_of_two_bytes() {
    let mut packet = vec![0xaa, 0xbb];
    change_game_info_packet_port(0x0102, &mut packet);
    assert_eq!(vec![0x02, 0x01], packet);
}

#[test]
fn buffer_too_short_for_a_port_is_left_alone() {
    let mut empty: Vec<u8> = Vec::new();
    change_game_info_packet_port(6112, &mut empty);
    assert!(empty.is_empty());
    let mut one = vec![0x55];
    change_game_info_packet_port(6112, &mut one);
    assert_eq!(vec![0x55], one);
}

#[test]
fn packet_with_another_port_tells_of_the_same_game() {
    let mut packet = RESPONSE.to_vec();
    change_game_info_packet_port(50000, &mut packet);
    let before = extract_game_info(&RESPONSE).unwrap();
    let after = extract_game_info(&packet).unwrap();
    assert_eq!(50000, after.port);
    assert_eq!(before.game_id, after.game_id);
    assert_eq!(before.name, after.name);
    assert_eq!(before.map, after.map);
    assert_eq!(before.slot_count, after.slot_count);
    assert_eq!(before.current_players, after.current_players);
    assert_eq!(before.player_slots, after.player_slots);
}
