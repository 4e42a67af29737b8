//! Helpers for exchanging OSC (Open Sound Control) messages with the
//! Critter & Guitari Organelle.
//!
//! The library builds the fixed catalog of outbound screen, LED and menu
//! commands as [`command::OscCommand`] values, encodes them to OSC datagrams,
//! and interprets inbound datagrams as knob/keyboard events. The UDP sockets
//! that carry the datagrams are owned by the embedding application.

pub mod command;
pub mod inbound;
pub mod wire;
