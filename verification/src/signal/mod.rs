//! Signalling: rooms and the per-connection signalling state machine.

pub mod room;
pub mod properties;
pub mod server;
pub mod table;

pub use room::{Delivery, JoinError, Room, RoomRegistry};
pub use server::{AppState, Handled, Session};
