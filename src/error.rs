//! Failures that the player and the scanner report to their callers.
use vstd::prelude::*;

verus! {

/// What went wrong in a call that can fail.
#[derive(Clone, Copy, Debug, PartialEq, Eq, Structural)]
pub enum MusicError {
    /// The path given to `play` or `seek` does not exist.
    FileNotFound,
    /// The file exists but its container or codec cannot be decoded.
    DecodeError,
    /// No output device could be acquired for a new sink.
    DeviceError,
    /// The root of a library scan cannot be walked at all.
    TraversalError,
}

/// The description of each failure.
pub open spec fn message_of(e: MusicError) -> Seq<char> {
    match e {
        MusicError::FileNotFound => "file not found"@,
        MusicError::DecodeError => "cannot decode audio file"@,
        MusicError::DeviceError => "no audio output device"@,
        MusicError::TraversalError => "cannot walk the library root"@,
    }
}

impl MusicError {
    /// A short human-readable description of the failure.
    pub fn message(&self) -> (r: String)
        ensures
            r@ == message_of(*self),
    {
        let s = match self {
            MusicError::FileNotFound => "file not found",
            MusicError::DecodeError => "cannot decode audio file",
            MusicError::DeviceError => "no audio output device",
            MusicError::TraversalError => "cannot walk the library root",
        };
        s.to_owned()
    }
}

} // verus!
