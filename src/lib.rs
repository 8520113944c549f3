//! Core of a single-track music player: the playback controller's state
//! machine and the library scanner's catalogue logic, with their laws.
//!
//! The host owns the audio device, the decode streams and the file system;
//! it hands this crate plain values (a file's duration, whether a sink ran
//! dry, what a container's tag holds) and applies the decisions it gets back.

pub mod error;
pub mod gain;
pub mod library;
pub mod order;
pub mod player;
pub mod track;
pub mod track_id;
