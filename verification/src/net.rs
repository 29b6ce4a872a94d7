//! The decisions of the two network components. Each is a state machine that
//! is told what happened on the sockets and answers what to do next; the
//! caller owns the sockets and does the work.

pub mod info_client;
pub mod tcp_proxy;
