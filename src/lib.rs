//! Two-player room coordination for a turn-based board game.
//!
//! The library holds the game's data model, the room state machine (joining,
//! colour assignment, start and stop, turn-checked moves), the registry of
//! rooms and the per-connection session protocol. Each operation returns the
//! messages it produces as a list of deliveries; sending them is left to the
//! caller.
pub mod board;
pub mod types;
mod ids;
pub mod room;
pub mod registry;
pub mod session;
pub mod game_logic;
