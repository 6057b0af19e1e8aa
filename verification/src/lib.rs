//! The decisions of the orb's control tools, verified: which backend an orb
//! talks to, which messages drive its main microcontroller and what their
//! acknowledgements mean, and which peers a gossip topic yields.
//!
//! Nothing here performs I/O. Operations that talk to the outside world are
//! values: they name the next action, take what came of it, and go on.

pub mod backend;
pub mod board_info;
pub mod commands;
pub mod dump;
pub mod firmware;
pub mod info_fetch;
pub mod main_board;
pub mod message;
pub mod p2p;
pub mod script;
pub mod stress;
pub mod text;
