//! The transport commands that the player takes and the status that it
//! publishes.

use vstd::prelude::*;

verus! {

/// What to play: the resource, where its bytes are, how many there are where
/// that is known, and the cache file that holds or will hold them.
#[derive(Debug, Clone)]
pub struct PlayOptions {
    pub video_id: String,
    pub url: String,
    pub length: Option<usize>,
    pub file_path: Option<String>,
}

/// The length to go by: what the server said, else the length of the cache
/// file.
pub open spec fn known_length(remote: Option<usize>, cached: Option<usize>) -> Option<usize> {
    match remote {
        Some(n) => Some(n),
        None => cached,
    }
}

impl PlayOptions {
    /// The options for a resource whose length the server gave as `remote`
    /// and whose cache file is `cached` bytes long, each where known.
    pub fn new(
        video_id: String,
        url: String,
        file_path: Option<String>,
        remote: Option<usize>,
        cached: Option<usize>,
    ) -> (options: Self)
        ensures
            options.video_id == video_id,
            options.url == url,
            options.file_path == file_path,
            options.length == known_length(remote, cached),
    {
        let length = match remote {
            Some(n) => Some(n),
            None => cached,
        };
        PlayOptions { video_id, url, length, file_path }
    }
}

/// A transport command.
#[derive(Debug, Clone)]
pub enum ToPlayerMessages {
    /// Play this resource.
    Play(PlayOptions),
    /// Go on playing.
    Resume,
    /// Stop playing and keep the session.
    Pause,
    /// Move by this many seconds, back where negative.
    Seek(i64),
}

/// What the player is doing: whether it plays, and where in the resource and
/// how long the resource is, in seconds, as far as known.
#[derive(Debug, Clone, Copy, PartialEq, Eq, Structural)]
pub struct PlayerStatus {
    pub playing: bool,
    pub current_status: Option<u64>,
    pub total_time: Option<u64>,
}

/// What the player publishes.
#[derive(Debug, Clone, Copy, PartialEq, Eq, Structural)]
pub enum PlayerMessage {
    Status(PlayerStatus),
}

} // verus!
