//! Request shaping and result classification for a session-authenticated
//! gateway client.
//!
//! The library decides everything about a call except the network exchange
//! itself: which headers go out and in which order, which URL is fetched, and
//! what the caller is told once the gateway has answered or failed to.

pub mod text;
pub mod profile;
pub mod target;
pub mod reply;
pub mod wire;
