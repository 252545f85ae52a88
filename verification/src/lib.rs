//! A verified core for a minimal compositor-protocol window client.
//!
//! The library models the client's session as a small state machine: global
//! capability advertisements, the window-role handshake, the configure and
//! keep-alive exchanges, and keyboard input all become pure transitions from
//! a session value and an incoming event to a new session plus a batch of
//! protocol requests for the transport to perform. The pixel content shown
//! in the window is produced by [`pixels`].

pub mod laws;
pub mod pixels;
pub mod protocol;
pub mod session;
