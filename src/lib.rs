//! A shuffling jukebox: a fixed pool of tracks played in random order, with a
//! small control surface for volume, pause and resume.
//!
//! The library holds the decisions of the player; the program around it owns
//! the audio device, the HTTP server and the file system.

pub mod playback;

pub use playback::{Command, PlaybackState, PlaybackView, MAX_VOLUME};
pub mod control;

pub use control::{change_volume, pause, query_value, requested_volume, resume, same_text, Reply};
pub mod pool;

pub use pool::{is_track_name, music_directory, Pool, PoolError};
pub mod shuffle;

pub use shuffle::{next_step, LoopAction, LoopEvent, POLL_PERIOD_MS};
