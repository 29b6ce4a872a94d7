//! What a host says of its game.

use vstd::prelude::*;
use crate::warcraft::text::has_no_nul_char;
use crate::warcraft::text::holds_no_nul;

verus! {

/// A host's advertisement, decoded.
#[derive(Debug)]
pub struct GameInfo {
    /// The identifier that the host gave this game.
    pub game_id: i32,
    /// The title shown in the LAN list.
    pub name: String,
    /// The path of the map.
    pub map: String,
    /// The TCP port on which the host takes joins.
    pub port: u16,
    /// All the player slots of the game.
    pub slot_count: i32,
    /// The slots that humans hold.
    pub current_players: i32,
    /// The slots still open to humans.
    pub player_slots: i32,
}

/// The mathematical content of a `GameInfo`.
pub ghost struct GameInfoView {
    pub game_id: int,
    pub name: Seq<char>,
    pub map: Seq<char>,
    pub port: int,
    pub slot_count: int,
    pub current_players: int,
    pub player_slots: int,
}

impl GameInfoView {
    /// What holds of the advertisement of a sound host: the humans fill no
    /// more than the slots there are, the two strings hold no NUL, and there
    /// is a port.
    pub open spec fn well_formed(self) -> bool {
        &&& 0 <= self.current_players <= self.slot_count
        &&& has_no_nul_char(self.name)
        &&& has_no_nul_char(self.map)
        &&& self.port > 0
    }

    /// The number of players that an announce packet reports: the slots that
    /// are not open, and the humans.
    pub open spec fn player_count(self) -> int {
        self.slot_count - self.player_slots + self.current_players
    }

    /// The player count can be held in 32 bits.
    pub open spec fn player_count_fits(self) -> bool {
        i32::MIN <= self.player_count() <= i32::MAX
    }
}

impl View for GameInfo {
    type V = GameInfoView;

    open spec fn view(&self) -> GameInfoView {
        GameInfoView {
            game_id: self.game_id as int,
            name: self.name@,
            map: self.map@,
            port: self.port as int,
            slot_count: self.slot_count as int,
            current_players: self.current_players as int,
            player_slots: self.player_slots as int,
        }
    }
}

impl GameInfo {
    /// Whether this is the advertisement of a sound host.
    pub fn is_well_formed(&self) -> (ok: bool)
        ensures
            ok == self@.well_formed(),
    {
        0 <= self.current_players && self.current_players <= self.slot_count && self.port > 0
            && holds_no_nul(self.name.as_str()) && holds_no_nul(self.map.as_str())
    }

    /// The player count, for a game whose count fits 32 bits.
    pub fn player_count(&self) -> (count: i32)
        requires
            self@.player_count_fits(),
        ensures
            count == self@.player_count(),
    {
        let count: i64 = self.slot_count as i64 - self.player_slots as i64
            + self.current_players as i64;
        count as i32
    }

    /// The player count, or nothing where it does not fit 32 bits.
    pub fn checked_player_count(&self) -> (count: Option<i32>)
        ensures
            count is Some <==> self@.player_count_fits(),
            count matches Some(c) ==> c == self@.player_count(),
    {
        let count: i64 = self.slot_count as i64 - self.player_slots as i64
            + self.current_players as i64;
        if -0x8000_0000 <= count && count <= 0x7fff_ffff {
            Some(count as i32)
        } else {
            None
        }
    }
}

} // verus!
