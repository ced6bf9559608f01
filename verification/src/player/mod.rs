//! The playback engine: the commands it takes, the events it reports, and the
//! state machine that turns the one into the other.

pub mod command;
pub mod engine;
pub mod laws;
