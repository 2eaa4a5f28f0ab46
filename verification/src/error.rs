//! Typed errors reported by the engine.

use vstd::prelude::*;

verus! {

/// An error reported by the playback engine.
#[derive(Debug, Clone, PartialEq)]
pub enum PlayerError {
    /// The audio output failed.
    Playback(String),
    /// A file could not be decoded.
    Decode(String),
    /// A file or device could not be read or written.
    Io(String),
    /// A command could not be carried out.
    Command(String),
}

/// The text an error is displayed with: its kind, a colon and its detail.
pub open spec fn error_message(e: PlayerError) -> Seq<char> {
    match e {
        PlayerError::Playback(m) => "Playback error: "@ + m@,
        PlayerError::Decode(m) => "Decode error: "@ + m@,
        PlayerError::Io(m) => "I/O error: "@ + m@,
        PlayerError::Command(m) => "Command error: "@ + m@,
    }
}

impl PlayerError {
    /// The human-readable message for this error, e.g. `Decode error: bad header`.
    pub fn message(&self) -> (s: String)
        ensures
            s@ == error_message(*self),
    {
        match self {
            PlayerError::Playback(m) => String::from_str("Playback error: ").concat(m.as_str()),
            PlayerError::Decode(m) => String::from_str("Decode error: ").concat(m.as_str()),
            PlayerError::Io(m) => String::from_str("I/O error: ").concat(m.as_str()),
            PlayerError::Command(m) => String::from_str("Command error: ").concat(m.as_str()),
        }
    }
}

} // verus!
