//! Bridge for Warcraft III LAN game discovery across a routed network.
//!
//! The crate holds the protocol codec and the decision logic of the two
//! network components; sockets and threads live with the caller.

pub mod net;
pub mod warcraft;
