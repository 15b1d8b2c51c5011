//! A relay for shared playlists: users join a playlist by name, and every
//! text message one of them sends is broadcast to all users of that playlist.
//!
//! The crate holds the playlist registry, the status query and the decisions
//! of the two relay tasks that serve each connection. Transport, routing and
//! task scheduling are left to the program that embeds it.

pub mod channel;
pub mod registry;
pub mod shared;
pub mod frame;
pub mod inbound;
pub mod outbound;
pub mod connection;
pub mod status;
