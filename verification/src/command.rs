//! Commands accepted by the playback engine.

use vstd::prelude::*;
use crate::track::Track;

verus! {

/// Sort order for [`PlayerCommand::SortBy`].
#[derive(PartialEq, Eq, Structural, Debug, Clone, Copy)]
pub enum Options {
    /// Keep / restore the original playlist order.
    Normal,
    /// Sort tracks alphabetically by title.
    Alphabetical,
}

/// The label a sort option is shown with.
pub open spec fn options_label(op: Options) -> Seq<char> {
    match op {
        Options::Normal => "Default"@,
        Options::Alphabetical => "Alphabetical"@,
    }
}

impl Options {
    /// The label shown for this sort option ("Default" or "Alphabetical").
    pub fn label(&self) -> (s: String)
        ensures
            s@ == options_label(*self),
    {
        match self {
            Options::Normal => {
                proof { reveal_strlit("Default"); }
                String::from_str("Default")
            },
            Options::Alphabetical => {
                proof { reveal_strlit("Alphabetical"); }
                String::from_str("Alphabetical")
            },
        }
    }

    /// The other sort option: the order button flips between the two.
    pub fn toggled(&self) -> (r: Options)
        ensures
            r != *self,
    {
        match self {
            Options::Normal => Options::Alphabetical,
            Options::Alphabetical => Options::Normal,
        }
    }
}

/// Commands the playback engine processes, one at a time.
///
/// Commands that carry an audio level or a time (volume, seek target,
/// equaliser gains, stereo width) are applied to the audio backend by the
/// host; the engine sees a seek as [`PlayerCommand::Seek`] without its time.
#[derive(Debug)]
pub enum PlayerCommand {
    /// Load a new set of tracks into the backend without playing.
    Load(Vec<Track>),
    /// Request the current audio sample data.
    Samples,
    /// Start or resume playback.
    Play,
    /// Pause playback; an active crossfade is frozen.
    Pause,
    /// Stop playback and reset the display to an idle state.
    Stop,
    /// Query the current playback position.
    Position,
    /// Seek within the current track (the target time stays with the host).
    Seek,
    /// Skip to the next track (respecting shuffle / repeat).
    Next,
    /// Go back to the previous track (restart when past the restart point).
    Prev,
    /// Toggle shuffle mode.
    ToggleShuffle,
    /// Toggle repeat-all mode.
    ToggleRepeat,
    /// Toggle repeat-one mode.
    ToggleRepeatOne,
    /// Jump to the track at the given playlist index.
    JumpTo(usize),
    /// Jump to the first track with the given path.
    JumpToPath(String),
    /// Replace the entire playlist (no auto-play).
    SetPlaylist(Vec<Track>),
    /// Play the track at the given index immediately.
    PlayIndex(usize),
    /// Replace the playlist and start playback at the given index.
    SetPlaylistAndPlayIndex(Vec<Track>, usize),
    /// Reload the current track from disk.
    ReloadCurrent,
    /// Randomise the playlist order in place.
    AleatoryFullRandom,
    /// Sort the playlist by the given option.
    SortBy(Options),
    /// Request a snapshot of the DSP plugin settings.
    GetPluginsData,
    /// Reconfigure the output backend (bit-perfect output and device).
    SetBitPerfectBackend { enabled: bool, device: String },
}

} // verus!
