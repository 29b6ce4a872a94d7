//! The Warcraft III LAN query protocol: packet shapes and their codec.

pub mod expansion;
pub mod game_info;
pub mod little_endian;
pub mod obfuscation;
pub mod query_protocol;
pub mod text;
