//! The tray icon's menu: which entries it shows, which are enabled or
//! checked, and what choosing one does.

use vstd::prelude::*;
use crate::command::PlayerCommand;
use crate::media::{AppAction, play_pause_label, play_pause_label_spec};
use crate::track::Track;

verus! {

/// What the tray shows of the player.
#[derive(Debug, PartialEq)]
pub struct TrayState {
    pub has_track: bool,
    pub playing: bool,
    pub title: String,
    pub artist: String,
    pub shuffle: bool,
    pub repeat: bool,
    pub repeat_one: bool,
}

impl TrayState {
    /// The tray state for the current track (if any) and the play modes;
    /// title and artist are empty without a track.
    pub fn from_track(
        track: Option<&Track>,
        playing: bool,
        shuffle: bool,
        repeat: bool,
        repeat_one: bool,
    ) -> (s: TrayState)
        ensures
            s.has_track == track.is_some(),
            s.playing == playing,
            s.shuffle == shuffle,
            s.repeat == repeat,
            s.repeat_one == repeat_one,
            s.title@ == (match track {
                Some(t) => t.title@,
                None => Seq::<char>::empty(),
            }),
            s.artist@ == (match track {
                Some(t) => t.artist@,
                None => Seq::<char>::empty(),
            }),
    {
        let (title, artist) = match track {
            Some(t) => (t.title.clone(), t.artist.clone()),
            None => (String::new(), String::new()),
        };
        TrayState { has_track: track.is_some(), playing, title, artist, shuffle, repeat, repeat_one }
    }
}

/// What choosing a tray entry does.
#[derive(Clone, Copy, Debug, PartialEq, Eq, Structural)]
pub enum TrayAction {
    Show,
    PlayPause,
    Stop,
    Prev,
    Next,
    ToggleShuffle,
    ToggleRepeat,
    ToggleRepeatOne,
    Quit,
}

/// One entry of the tray menu.
#[derive(Debug)]
pub enum TrayItem {
    Standard { label: String, enabled: bool, action: TrayAction },
    Checkmark { label: String, checked: bool, action: TrayAction },
    Separator,
}

/// A menu entry as the contracts see it.
pub enum TrayEntry {
    Standard(Seq<char>, bool, TrayAction),
    Checkmark(Seq<char>, bool, TrayAction),
    Separator,
}

impl View for TrayItem {
    type V = TrayEntry;

    open spec fn view(&self) -> TrayEntry {
        match self {
            TrayItem::Standard { label, enabled, action } => TrayEntry::Standard(label@, *enabled, *action),
            TrayItem::Checkmark { label, checked, action } => TrayEntry::Checkmark(label@, *checked, *action),
            TrayItem::Separator => TrayEntry::Separator,
        }
    }
}

/// The tray menu: show the window; play/pause, and stop, previous and next
/// (enabled only with a track); the three mode toggles, checked as the
/// modes are; quit.
pub open spec fn tray_menu_spec(s: TrayState) -> Seq<TrayEntry> {
    seq![
        TrayEntry::Standard("Mostrar ReAmped"@, true, TrayAction::Show),
        TrayEntry::Separator,
        TrayEntry::Standard(play_pause_label_spec(s.playing), true, TrayAction::PlayPause),
        TrayEntry::Standard("\u{23f9} Detener"@, s.has_track, TrayAction::Stop),
        TrayEntry::Standard("\u{23ee} Anterior"@, s.has_track, TrayAction::Prev),
        TrayEntry::Standard("\u{23ed} Siguiente"@, s.has_track, TrayAction::Next),
        TrayEntry::Separator,
        TrayEntry::Checkmark("\u{1f500} Aleatorio"@, s.shuffle, TrayAction::ToggleShuffle),
        TrayEntry::Checkmark("\u{1f501} Repetir todo"@, s.repeat, TrayAction::ToggleRepeat),
        TrayEntry::Checkmark("\u{1f502} Repetir una"@, s.repeat_one, TrayAction::ToggleRepeatOne),
        TrayEntry::Separator,
        TrayEntry::Standard("\u{274c} Salir"@, true, TrayAction::Quit),
    ]
}

/// Builds the tray menu for the state.
pub fn tray_menu(s: &TrayState) -> (r: Vec<TrayItem>)
    ensures
        r@.len() == tray_menu_spec(*s).len(),
        forall|i: int| 0 <= i < r@.len() ==> #[trigger] r@[i]@ == tray_menu_spec(*s)[i],
{
    let mut r: Vec<TrayItem> = Vec::new();
    r.push(TrayItem::Standard { label: String::from_str("Mostrar ReAmped"), enabled: true, action: TrayAction::Show });
    r.push(TrayItem::Separator);
    r.push(TrayItem::Standard { label: play_pause_label(s.playing), enabled: true, action: TrayAction::PlayPause });
    r.push(TrayItem::Standard {
        label: String::from_str("\u{23f9} Detener"),
        enabled: s.has_track,
        action: TrayAction::Stop,
    });
    r.push(TrayItem::Standard {
        label: String::from_str("\u{23ee} Anterior"),
        enabled: s.has_track,
        action: TrayAction::Prev,
    });
    r.push(TrayItem::Standard {
        label: String::from_str("\u{23ed} Siguiente"),
        enabled: s.has_track,
        action: TrayAction::Next,
    });
    r.push(TrayItem::Separator);
    r.push(TrayItem::Checkmark {
        label: String::from_str("\u{1f500} Aleatorio"),
        checked: s.shuffle,
        action: TrayAction::ToggleShuffle,
    });
    r.push(TrayItem::Checkmark {
        label: String::from_str("\u{1f501} Repetir todo"),
        checked: s.repeat,
        action: TrayAction::ToggleRepeat,
    });
    r.push(TrayItem::Checkmark {
        label: String::from_str("\u{1f502} Repetir una"),
        checked: s.repeat_one,
        action: TrayAction::ToggleRepeatOne,
    });
    r.push(TrayItem::Separator);
    r.push(TrayItem::Standard { label: String::from_str("\u{274c} Salir"), enabled: true, action: TrayAction::Quit });
    r
}

/// What choosing an entry sends: a player command, a window action, or
/// both (quitting stops playback first).
pub open spec fn tray_outcome_spec(action: TrayAction, playing: bool) -> (Option<PlayerCommand>, Option<AppAction>) {
    match action {
        TrayAction::Show => (None, Some(AppAction::Show)),
        TrayAction::PlayPause => (Some(if playing { PlayerCommand::Pause } else { PlayerCommand::Play }), None),
        TrayAction::Stop => (Some(PlayerCommand::Stop), None),
        TrayAction::Prev => (Some(PlayerCommand::Prev), None),
        TrayAction::Next => (Some(PlayerCommand::Next), None),
        TrayAction::ToggleShuffle => (Some(PlayerCommand::ToggleShuffle), None),
        TrayAction::ToggleRepeat => (Some(PlayerCommand::ToggleRepeat), None),
        TrayAction::ToggleRepeatOne => (Some(PlayerCommand::ToggleRepeatOne), None),
        TrayAction::Quit => (Some(PlayerCommand::Stop), Some(AppAction::Quit)),
    }
}

/// The command and window action that choosing `action` sends, given
/// whether the player is playing at that moment.
pub fn tray_outcome(action: TrayAction, playing: bool) -> (r: (Option<PlayerCommand>, Option<AppAction>))
    ensures
        r == tray_outcome_spec(action, playing),
{
    match action {
        TrayAction::Show => (None, Some(AppAction::Show)),
        TrayAction::PlayPause => (Some(if playing { PlayerCommand::Pause } else { PlayerCommand::Play }), None),
        TrayAction::Stop => (Some(PlayerCommand::Stop), None),
        TrayAction::Prev => (Some(PlayerCommand::Prev), None),
        TrayAction::Next => (Some(PlayerCommand::Next), None),
        TrayAction::ToggleShuffle => (Some(PlayerCommand::ToggleShuffle), None),
        TrayAction::ToggleRepeat => (Some(PlayerCommand::ToggleRepeat), None),
        TrayAction::ToggleRepeatOne => (Some(PlayerCommand::ToggleRepeatOne), None),
        TrayAction::Quit => (Some(PlayerCommand::Stop), Some(AppAction::Quit)),
    }
}

} // verus!
