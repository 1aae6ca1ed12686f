//! Core of a real-time multiplayer lobby server.
//!
//! Rooms are identified by four-letter codes, members join a room over a
//! typed event protocol, the first member becomes the host, and idle rooms
//! are evicted by a periodic sweep.  Everything here is pure state and
//! decision logic: the network transport, the JSON wire encoding and the
//! clock live in the surrounding application, which hands plain values
//! (events, timestamps) in and carries deliveries back out.

pub mod handler;
pub mod registry;
pub mod room;
pub mod room_code;
pub mod room_event;
