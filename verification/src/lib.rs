//! The decisions of a peer-to-peer connection: the handshake that opens it, the
//! loop that reads from it, the task that writes to it and the actor that owns it.

pub mod address;
pub mod bootstrap;
pub mod channel;
pub mod error;
pub mod handshake;
pub mod incoming;
pub mod laws;
pub mod local;
pub mod messages;
pub mod peer;
pub mod promises;
pub mod replay;
pub mod sending;
pub mod text;
