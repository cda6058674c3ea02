//! Client side of a real-time Pong session: the wire codec, the single-slot
//! state mailbox, matchmaking decisions, the send and receive loop decisions
//! and the session state machine.

pub mod codec;
pub mod controller;
pub mod duplex;
pub mod error;
pub mod friends;
pub mod json;
pub mod lobby;
pub mod negotiator;
pub mod publisher;
pub mod screens;
pub mod text;
