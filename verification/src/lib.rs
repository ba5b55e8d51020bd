//! Client-side core of a relay chat: the frames exchanged with the relay, the
//! state that inbound frames and local actions act on, and the projection of
//! that state for display. Nothing here performs I/O; the embedding
//! application owns the socket and the screen.

pub mod bridge;
pub mod chat;
pub mod json;
pub mod login;
pub mod payload;
pub mod render;
pub mod transport;
pub mod wire;
