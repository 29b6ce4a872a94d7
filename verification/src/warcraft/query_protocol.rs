//! The packets of the LAN query protocol.
//!
//! Every packet begins with `F7`, the packet type, and the length of the whole
//! packet as 16 bits, little-endian.

use vstd::prelude::*;
use crate::warcraft::expansion::Expansion;
use crate::warcraft::game_info::GameInfo;
use crate::warcraft::game_info::GameInfoView;
use crate::warcraft::little_endian::i32_le_bytes;
use crate::warcraft::little_endian::le_i32;
use crate::warcraft::little_endian::le_u16;
use crate::warcraft::little_endian::read_i32_le;
use crate::warcraft::little_endian::read_u16_le;
use crate::warcraft::little_endian::u16_le_bytes;
use crate::warcraft::little_endian::write_i32_le;
use crate::warcraft::little_endian::write_u16_le;
use crate::warcraft::little_endian::lemma_u16_round_trip;
use crate::warcraft::obfuscation::decrypt;
use crate::warcraft::obfuscation::lemma_unpack_of_agreeing;
use crate::warcraft::obfuscation::unpack;
use crate::warcraft::text::c_string;
use crate::warcraft::text::has_no_nul_char;
use crate::warcraft::text::lemma_c_string_holds_no_nul;
use crate::warcraft::text::lemma_c_string_of_agreeing;
use crate::warcraft::text::lemma_nul_index;
use crate::warcraft::text::lemma_nul_index_of_agreeing;
use crate::warcraft::text::lemma_nul_index_of_tail;
use crate::warcraft::text::extract_string;
use crate::warcraft::text::find_nul;
use crate::warcraft::text::nul_index;

verus! {

/// The byte that every packet begins with.
pub const PACKET_MARK: u8 = 0xf7;

/// The type byte of a browse packet.
pub const BROWSE: u8 = 0x2f;

/// The type byte of a game-info packet.
pub const GAME_INFO: u8 = 0x30;

/// The type byte of an announce packet.
pub const GAME_ANNOUNCE: u8 = 0x32;

/// The type byte of a game-cancelled packet.
pub const GAME_CANCELLED: u8 = 0x33;

/// The least length of a game-info packet: the fixed head and the fixed tail.
pub const GAME_INFO_MIN_LEN: usize = 36;

/// Where the game identifier stands in a game-info packet.
pub const GAME_ID_OFFSET: usize = 0x0c;

/// Where the name of the game begins in a game-info packet.
pub const NAME_OFFSET: usize = 0x14;

/// Where the map path begins in the unpacked part of a game-info packet.
pub const MAP_OFFSET: usize = 0x0d;

/// Why a buffer is no game-info packet.
#[derive(Clone, Copy, Debug, PartialEq, Eq, Structural)]
pub enum ParseError {
    /// The buffer is too short for a game-info packet or does not begin with
    /// its two header bytes.
    WrongType,
    /// A string has no end inside the buffer or is not UTF-8.
    Malformed,
}

/// An announce packet cannot hold a field.
#[derive(Clone, Copy, Debug, PartialEq, Eq, Structural)]
pub enum EncodeError {
    /// The player count does not fit 32 bits.
    FieldRange,
}

/// The bytes of a browse packet: the header with length 16, the game tag, the
/// version byte, and seven zero bytes.
pub open spec fn browse_packet(expansion: Expansion, version: u8) -> Seq<u8> {
    seq![PACKET_MARK, BROWSE, 0x10u8, 0x00u8] + expansion.tag() + seq![version] + Seq::new(
        7,
        |i: int| 0u8,
    )
}

/// The bytes of an announce packet: the header with length 16, then the game
/// identifier, the player count and the slot count, 32 bits each.
pub open spec fn announce_packet(info: GameInfoView) -> Seq<u8>
    recommends
        info.player_count_fits(),
{
    seq![PACKET_MARK, GAME_ANNOUNCE, 0x10u8, 0x00u8] + i32_le_bytes(info.game_id as i32)
        + i32_le_bytes(info.player_count() as i32) + i32_le_bytes(info.slot_count as i32)
}

/// The bytes of a game-cancelled packet: the header with length 8, then the
/// game identifier as 32 bits.
pub open spec fn cancelled_packet(game_id: u8) -> Seq<u8> {
    seq![PACKET_MARK, GAME_CANCELLED, 0x08u8, 0x00u8, game_id, 0x00u8, 0x00u8, 0x00u8]
}

/// The buffer is long enough for a game-info packet and begins as one.
pub open spec fn is_game_info_packet(buf: Seq<u8>) -> bool {
    buf.len() >= GAME_INFO_MIN_LEN && buf[0] == PACKET_MARK && buf[1] == GAME_INFO
}

/// Where the packed part of a game-info packet begins: behind the name, its
/// terminator and one more byte.
pub open spec fn packed_start(buf: Seq<u8>) -> int {
    nul_index(buf, NAME_OFFSET as int) + 2
}

/// The packed part of a game-info packet, up to the end of the buffer.
pub open spec fn packed_part(buf: Seq<u8>) -> Seq<u8> {
    buf.subrange(packed_start(buf), buf.len() as int)
}

/// Where the packed part of a game-info packet ends: the place in the buffer
/// of the zero byte that terminates it.
pub open spec fn packed_end(buf: Seq<u8>) -> int {
    packed_start(buf) + nul_index(packed_part(buf), 0)
}

/// What a game-info packet says, or why the buffer is none.
///
/// The identifier stands at offset 12. The name is the NUL-terminated string
/// at offset 20. Behind it the packed part begins; unpacked, it holds the map
/// path as a NUL-terminated string at offset 13. The slot count, the players,
/// the open slots and the port are read from the end of the buffer, at 22,
/// 14, 10 and 2 bytes before it.
pub open spec fn game_info_of(buf: Seq<u8>) -> Result<GameInfoView, ParseError> {
    let len = buf.len() as int;
    if !is_game_info_packet(buf) {
        Err(ParseError::WrongType)
    } else if c_string(buf.subrange(NAME_OFFSET as int, len)) is None {
        Err(ParseError::Malformed)
    } else if packed_start(buf) > len || nul_index(packed_part(buf), 0) >= packed_part(buf).len() {
        Err(ParseError::Malformed)
    } else if unpack(packed_part(buf)).len() < MAP_OFFSET || c_string(
        unpack(packed_part(buf)).subrange(
            MAP_OFFSET as int,
            unpack(packed_part(buf)).len() as int,
        ),
    ) is None {
        Err(ParseError::Malformed)
    } else {
        Ok(
            GameInfoView {
                game_id: le_i32(buf.subrange(GAME_ID_OFFSET as int, GAME_ID_OFFSET + 4)),
                name: c_string(buf.subrange(NAME_OFFSET as int, len))->Some_0,
                map: c_string(
                    unpack(packed_part(buf)).subrange(
                        MAP_OFFSET as int,
                        unpack(packed_part(buf)).len() as int,
                    ),
                )->Some_0,
                port: le_u16(buf.subrange(len - 2, len)),
                slot_count: le_i32(buf.subrange(len - 22, len - 18)),
                current_players: le_i32(buf.subrange(len - 14, len - 10)),
                player_slots: le_i32(buf.subrange(len - 10, len - 6)),
            },
        )
    }
}

/// A packet with the port field of a game-info packet, its last two bytes,
/// set to `port`. A buffer too short to hold the field is left as it is.
pub open spec fn with_port(packet: Seq<u8>, port: u16) -> Seq<u8> {
    if packet.len() >= 2 {
        packet.subrange(0, packet.len() - 2) + u16_le_bytes(port)
    } else {
        packet
    }
}

/// A buffer is of the wrong type exactly when it is too short for a game-info
/// packet or does not begin with the two header bytes of one. Every other
/// buffer is read, or is malformed.
pub proof fn lemma_wrong_type(buf: Seq<u8>)
    ensures
        game_info_of(buf) == Err::<GameInfoView, ParseError>(ParseError::WrongType) <==> (buf.len()
            < 36 || buf[0] != 0xf7 || buf[1] != 0x30),
        game_info_of(buf) is Ok || game_info_of(buf) == Err::<GameInfoView, ParseError>(
            ParseError::WrongType,
        ) || game_info_of(buf) == Err::<GameInfoView, ParseError>(ParseError::Malformed),
{
}

/// The name and the map path of a game that was read hold no NUL.
pub proof fn lemma_parsed_text_holds_no_nul(buf: Seq<u8>)
    requires
        game_info_of(buf) is Ok,
    ensures
        has_no_nul_char(game_info_of(buf)->Ok_0.name),
        has_no_nul_char(game_info_of(buf)->Ok_0.map),
{
    let plain = unpack(packed_part(buf));
    lemma_c_string_holds_no_nul(buf.subrange(NAME_OFFSET as int, buf.len() as int));
    lemma_c_string_holds_no_nul(plain.subrange(MAP_OFFSET as int, plain.len() as int));
}

/// Setting the port twice to the same value is setting it once, and of two
/// ports set one after the other the last one stands.
pub proof fn lemma_port_rewrite_idempotent(packet: Seq<u8>, first: u16, port: u16)
    ensures
        with_port(with_port(packet, port), port) == with_port(packet, port),
        with_port(with_port(packet, first), port) == with_port(packet, port),
{
    assert(with_port(with_port(packet, first), port) =~= with_port(packet, port));
    assert(with_port(with_port(packet, port), port) =~= with_port(packet, port));
}

/// Setting the port changes the last two bytes of a packet and nothing else:
/// the length and every byte before them stay, and the last two bytes then
/// read as the port.
pub proof fn lemma_port_rewrite_touches_last_two(packet: Seq<u8>, port: u16)
    ensures
        with_port(packet, port).len() == packet.len(),
        forall|i: int| 0 <= i < packet.len() - 2 ==> with_port(packet, port)[i] == packet[i],
        packet.len() >= 2 ==> with_port(packet, port).subrange(
            packet.len() - 2,
            packet.len() as int,
        ) == u16_le_bytes(port),
        packet.len() >= 2 ==> le_u16(
            with_port(packet, port).subrange(packet.len() - 2, packet.len() as int),
        ) == port,
{
    if packet.len() >= 2 {
        assert(with_port(packet, port).subrange(packet.len() - 2, packet.len() as int)
            =~= u16_le_bytes(port));
    }
}

/// A game-info packet with another port tells of the same game on that port,
/// where the packed part ends before the port field.
pub proof fn lemma_port_rewrite_keeps_the_game(buf: Seq<u8>, port: u16)
    requires
        game_info_of(buf) is Ok,
        packed_end(buf) < buf.len() - 2,
    ensures
        game_info_of(with_port(buf, port)) == Ok::<GameInfoView, ParseError>(
            GameInfoView { port: port as int, ..game_info_of(buf)->Ok_0 },
        ),
{
    let len = buf.len() as int;
    let new = with_port(buf, port);
    let name_at = NAME_OFFSET as int;
    lemma_port_rewrite_touches_last_two(buf, port);
    lemma_u16_round_trip(port);

    let head = buf.subrange(name_at, len);
    let new_head = new.subrange(name_at, len);
    lemma_nul_index_of_tail(buf, name_at);
    lemma_nul_index(buf, name_at);
    lemma_nul_index(packed_part(buf), 0);
    lemma_c_string_of_agreeing(head, new_head);
    lemma_nul_index_of_agreeing(buf, new, name_at);
    lemma_unpack_of_agreeing(packed_part(buf), packed_part(new));

    assert(new.subrange(GAME_ID_OFFSET as int, GAME_ID_OFFSET + 4) =~= buf.subrange(
        GAME_ID_OFFSET as int,
        GAME_ID_OFFSET + 4,
    ));
    assert(new.subrange(len - 22, len - 18) =~= buf.subrange(len - 22, len - 18));
    assert(new.subrange(len - 14, len - 10) =~= buf.subrange(len - 14, len - 10));
    assert(new.subrange(len - 10, len - 6) =~= buf.subrange(len - 10, len - 6));
}

/// Builds the packet that tells the LAN that a game is gone.
pub fn get_game_cancelled_packet(game_id: u8) -> (packet: [u8; 8])
    ensures
        packet@ == cancelled_packet(game_id),
{
    [PACKET_MARK, GAME_CANCELLED, 0x08, 0x00, game_id, 0x00, 0x00, 0x00]
}

/// Builds the packet that tells the LAN of a game and of its players.
/// It fails exactly when the player count does not fit 32 bits.
pub fn get_game_announce_packet(game_info: GameInfo) -> (packet: Result<[u8; 16], EncodeError>)
    ensures
        packet is Ok <==> game_info@.player_count_fits(),
        packet matches Ok(bytes) ==> bytes@ == announce_packet(game_info@),
        packet matches Err(e) ==> e == EncodeError::FieldRange,
{
    let player_count = match game_info.checked_player_count() {
        Some(count) => count,
        None => {
            return Err(EncodeError::FieldRange);
        },
    };
    let id = write_i32_le(game_info.game_id);
    let pc = write_i32_le(player_count);
    let sc = write_i32_le(game_info.slot_count);
    let bytes = [
        PACKET_MARK,
        GAME_ANNOUNCE,
        0x10,
        0x00,
        id[0],
        id[1],
        id[2],
        id[3],
        pc[0],
        pc[1],
        pc[2],
        pc[3],
        sc[0],
        sc[1],
        sc[2],
        sc[3],
    ];
    assert(bytes@ =~= announce_packet(game_info@));
    Ok(bytes)
}

/// Builds the query that asks a host to describe its game.
pub fn get_browse_packet(expansion: Expansion, version: u8) -> (packet: [u8; 16])
    ensures
        packet@ == browse_packet(expansion, version),
{
    let packet = match expansion {
        Expansion::ROC => [
            PACKET_MARK, BROWSE, 0x10, 0x00, 0x50, 0x58, 0x33, 0x57, version, 0x00, 0x00, 0x00,
            0x00, 0x00, 0x00, 0x00,
        ],
        Expansion::TFT => [
            PACKET_MARK, BROWSE, 0x10, 0x00, 0x33, 0x52, 0x41, 0x57, version, 0x00, 0x00, 0x00,
            0x00, 0x00, 0x00, 0x00,
        ],
    };
    assert(packet@ =~= browse_packet(expansion, version));
    packet
}

/// Reads a game-info packet. Any buffer is taken: one that is too short or
/// does not begin with `F7 30` is of the wrong type, and one in which a
/// string runs past the end or is not UTF-8 is malformed.
pub fn extract_game_info(response: &[u8]) -> (result: Result<GameInfo, ParseError>)
    ensures
        match result {
            Ok(info) => game_info_of(response@) == Ok::<GameInfoView, ParseError>(info@),
            Err(e) => game_info_of(response@) == Err::<GameInfoView, ParseError>(e),
        },
        result matches Ok(info) ==> has_no_nul_char(info@.name) && has_no_nul_char(info@.map),
{
    proof {
        if game_info_of(response@) is Ok {
            lemma_parsed_text_holds_no_nul(response@);
        }
    }
    let len = response.len();
    if len < GAME_INFO_MIN_LEN || response[0] != PACKET_MARK || response[1] != GAME_INFO {
        return Err(ParseError::WrongType);
    }
    let game_id = read_i32_le(response, GAME_ID_OFFSET);
    let name = match extract_string(&response[NAME_OFFSET..len]) {
        Some(name) => name,
        None => {
            return Err(ParseError::Malformed);
        },
    };
    let name_end = find_nul(response, NAME_OFFSET);
    if len - name_end < 2 {
        return Err(ParseError::Malformed);
    }
    let crypt_start = name_end + 2;
    let decrypted = match decrypt(&response[crypt_start..len]) {
        Some(decrypted) => decrypted,
        None => {
            return Err(ParseError::Malformed);
        },
    };
    if decrypted.len() < MAP_OFFSET {
        return Err(ParseError::Malformed);
    }
    let map = match extract_string(&decrypted.as_slice()[MAP_OFFSET..decrypted.len()]) {
        Some(map) => map,
        None => {
            return Err(ParseError::Malformed);
        },
    };
    let port = read_u16_le(response, len - 2);
    let slot_count = read_i32_le(response, len - 22);
    let current_players = read_i32_le(response, len - 14);
    let player_slots = read_i32_le(response, len - 10);
    Ok(GameInfo { game_id, name, map, port, slot_count, current_players, player_slots })
}

/// Sets the port field of a game-info packet, its last two bytes, to `port`.
/// No other byte changes.
pub fn change_game_info_packet_port(port: u16, packet: &mut Vec<u8>)
    ensures
        final(packet)@ == with_port(old(packet)@, port),
{
    let len = packet.len();
    if len >= 2 {
        let bytes = write_u16_le(port);
        packet[len - 2] = bytes[0];
        packet[len - 1] = bytes[1];
        assert(packet@ =~= with_port(old(packet)@, port));
    }
}

} // verus!
