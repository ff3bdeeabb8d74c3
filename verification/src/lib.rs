//! Verified core of a terminal music player: the normalisation of the
//! responses of song-metadata providers into one canonical record.

pub mod codec;
pub mod config;
pub mod discord;
pub mod json;
pub mod playlist;
pub mod songtag;
pub mod ui;
