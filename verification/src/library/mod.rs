//! The persistent library: the requests that the repository sends to the
//! task that owns the database, the decoding of what comes back, and the
//! repository operations as state machines over the two.

pub mod albums;
pub mod artists;
pub mod laws;
pub mod playlists;
pub mod protocol;
pub mod repository;
pub mod request;
pub mod rows;
pub mod store;
pub mod tracks;
pub mod value;
