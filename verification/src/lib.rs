//! The streaming core of a player for remote audio: a download manager that
//! keeps a sparse, cached copy of each resource, a seekable source over it,
//! and the playback session's transport logic.

pub mod downloader;
pub mod manager;
pub mod media_source;
pub mod output;
pub mod r_player;
pub mod request;
pub mod schema;
pub mod sparse;
pub mod units;
pub mod yt_downloader;
