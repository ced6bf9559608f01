//! Core of a desktop music player: the playback engine's state machine, the
//! catalogue records it plays, and the repository logic of the persistent
//! library. Device, database and network access stay with the caller, which
//! performs the actions this crate decides on and reports what came of them.

pub mod components;
pub mod ident;
pub mod model;
pub mod library;
pub mod local;
pub mod lyrics;
pub mod player;
pub mod preferences;
pub mod remote;
pub mod vecs;
