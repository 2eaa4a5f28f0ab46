use player_core::command::PlayerCommand;
use player_core::keybindings::{InputEvent, KeyBindings, KeyCode};
use player_core::library::{folder_cover_names, pick_folder_cover};
use player_core::media::{
    sync_updates, AppAction, Caps, LoopStatus, PlaybackStatus, SyncMemo, SyncUpdate,
};
use player_core::playlist_view::{lower_chars, now_playing_text, playlist_rows, row_label};
use player_core::track::Track;
use player_core::tray::{tray_menu, tray_outcome, TrayAction, TrayItem, TrayState};

fn track(path: &str, title: &str, artist: &str) -> Track {
    Track {
        path: path.to_string(),
        title: title.to_string(),
        artist: artist.to_string(),
        album: String::new(),
        duration_ms: 1000,
    }
}

#[test]
fn tray_state_takes_track_details() {
    let t = track("/m/a.mp3", "Song", "Band");
    let s = TrayState::from_track(Some(&t), true, false, true, false);
    assert!(s.has_track);
    assert!(s.playing);
    assert_eq!(s.title, "Song");
    assert_eq!(s.artist, "Band");
    assert!(s.repeat);
    let empty = TrayState::from_track(None, false, true, false, true);
    assert!(!empty.has_track);
    assert_eq!(empty.title, "");
    assert_eq!(empty.artist, "");
    assert!(empty.shuffle);
    assert!(empty.repeat_one);
}

#[test]
fn tray_menu_entries() {
    let s = TrayState::from_track(None, true, true, false, true);
    let menu = tray_menu(&s);
    assert_eq!(menu.len(), 12);
    assert!(matches!(&menu[0], TrayItem::Standard { label, enabled: true, action: TrayAction::Show } if label == "Mostrar ReAmped"));
    assert!(matches!(&menu[1], TrayItem::Separator));
    assert!(matches!(&menu[2], TrayItem::Standard { label, enabled: true, action: TrayAction::PlayPause } if label == "\u{23f8} Pausar"));
    assert!(matches!(&menu[3], TrayItem::Standard { label, enabled: false, action: TrayAction::Stop } if label == "\u{23f9} Detener"));
    assert!(matches!(&menu[4], TrayItem::Standard { enabled: false, action: TrayAction::Prev, .. }));
    assert!(matches!(&menu[5], TrayItem::Standard { enabled: false, action: TrayAction::Next, .. }));
    assert!(matches!(&menu[7], TrayItem::Checkmark { checked: true, action: TrayAction::ToggleShuffle, .. }));
    assert!(matches!(&menu[8], TrayItem::Checkmark { checked: false, action: TrayAction::ToggleRepeat, .. }));
    assert!(matches!(&menu[9], TrayItem::Checkmark { checked: true, action: TrayAction::ToggleRepeatOne, .. }));
    assert!(matches!(&menu[11], TrayItem::Standard { label, action: TrayAction::Quit, .. } if label == "\u{274c} Salir"));

    let t = track("/m/a.mp3", "Song", "Band");
    let paused = TrayState::from_track(Some(&t), false, false, false, false);
    let menu = tray_menu(&paused);
    assert!(matches!(&menu[2], TrayItem::Standard { label, .. } if label == "\u{25b6} Reproducir"));
    assert!(matches!(&menu[3], TrayItem::Standard { enabled: true, .. }));
}

#[test]
fn tray_outcomes() {
    assert!(matches!(tray_outcome(TrayAction::PlayPause, true), (Some(PlayerCommand::Pause), None)));
    assert!(matches!(tray_outcome(TrayAction::PlayPause, false), (Some(PlayerCommand::Play), None)));
    assert!(matches!(tray_outcome(TrayAction::Show, false), (None, Some(AppAction::Show))));
    assert!(matches!(tray_outcome(TrayAction::Quit, true), (Some(PlayerCommand::Stop), Some(AppAction::Quit))));
    assert!(matches!(tray_outcome(TrayAction::Next, true), (Some(PlayerCommand::Next), None)));
    assert!(matches!(tray_outcome(TrayAction::ToggleRepeatOne, true), (Some(PlayerCommand::ToggleRepeatOne), None)));
}

#[test]
fn first_sync_announces_everything() {
    let mut memo = SyncMemo::new();
    let path = String::from("/m/a.mp3");
    let u = sync_updates(&mut memo, Some(&path), true, 0, 3, false, false, true);
    assert_eq!(
        u,
        vec![
            SyncUpdate::Status(PlaybackStatus::Playing),
            SyncUpdate::Capabilities(Caps { play: true, pause: true, next: true, prev: false, seek: true }),
            SyncUpdate::Track,
            SyncUpdate::PositionAndVolume,
            SyncUpdate::Loop(LoopStatus::Off),
            SyncUpdate::Shuffle(true),
        ]
    );
    assert_eq!(memo.track_path, Some(path.clone()));
    // Nothing changed: only the position and volume are reported again.
    let again = sync_updates(&mut memo, Some(&path), true, 0, 3, false, false, true);
    assert_eq!(again, vec![SyncUpdate::PositionAndVolume]);
}

#[test]
fn sync_sends_only_changes() {
    let mut memo = SyncMemo::new();
    let a = String::from("/m/a.mp3");
    let b = String::from("/m/b.mp3");
    sync_updates(&mut memo, Some(&a), true, 0, 2, false, false, false);
    let u = sync_updates(&mut memo, Some(&b), false, 1, 2, false, true, false);
    assert_eq!(
        u,
        vec![
            SyncUpdate::Status(PlaybackStatus::Paused),
            SyncUpdate::Capabilities(Caps { play: true, pause: true, next: false, prev: true, seek: true }),
            SyncUpdate::Track,
            SyncUpdate::PositionAndVolume,
            SyncUpdate::Loop(LoopStatus::Track),
        ]
    );
    let stopped = sync_updates(&mut memo, None, false, 1, 2, false, true, false);
    assert_eq!(
        stopped,
        vec![
            SyncUpdate::Status(PlaybackStatus::Stopped),
            SyncUpdate::Capabilities(Caps { play: false, pause: false, next: false, prev: false, seek: false }),
            SyncUpdate::Track,
            SyncUpdate::PositionAndVolume,
        ]
    );
    assert_eq!(memo.track_path, None);
}

#[test]
fn lower_case_is_ascii_only() {
    assert_eq!(lower_chars(&String::from("AbC-Ñ1z")), vec!['a', 'b', 'c', '-', 'Ñ', '1', 'z']);
}

#[test]
fn row_labels() {
    assert_eq!(row_label("Song", true, true), "\u{25b6} Song");
    assert_eq!(row_label("Song", true, false), "\u{23f8} Song");
    assert_eq!(row_label("Song", false, true), " Song");
    assert_eq!(row_label("A very long song title here", false, false), " A very long song tit\u{2026}");
}

#[test]
fn rows_follow_search() {
    let list = vec![
        track("/m/1.mp3", "Blue Moon", "Frank"),
        track("/m/2.mp3", "Red Sun", "MOONLIGHT"),
        track("/m/3.mp3", "Green", "Trees"),
    ];
    let cur = String::from("/m/2.mp3");
    // Fewer than three bytes: no filtering.
    let all = playlist_rows(&list, Some(&cur), true, "mo");
    assert_eq!(all.len(), 3);
    assert_eq!(all[1].label, "\u{25b6} Red Sun");
    assert!(all[1].is_current);
    assert!(!all[0].is_current);
    assert_eq!(all[2].index, 2);
    // Case-insensitive match on title or artist.
    let found = playlist_rows(&list, Some(&cur), false, "MOON");
    assert_eq!(found.len(), 2);
    assert_eq!(found[0].index, 0);
    assert_eq!(found[0].label, " Blue Moon");
    assert_eq!(found[1].index, 1);
    assert_eq!(found[1].label, "\u{23f8} Red Sun");
    // A two-character search of three bytes filters.
    let accented = playlist_rows(&list, None, false, "é1");
    assert_eq!(accented.len(), 0);
    let none = playlist_rows(&list, None, false, "xyz");
    assert!(none.is_empty());
}

#[test]
fn first_event_with_a_command_wins() {
    let b = KeyBindings::default();
    let events = vec![
        InputEvent::Other,
        InputEvent::Text(String::from("x")),
        InputEvent::Text(String::from("n")),
        InputEvent::KeyPress(KeyCode::Space),
    ];
    assert!(matches!(b.command_for_events(&events, true), Some(PlayerCommand::Play)));
    let space = vec![InputEvent::KeyPress(KeyCode::Space)];
    assert!(matches!(b.command_for_events(&space, true), Some(PlayerCommand::Pause)));
    assert!(matches!(b.command_for_events(&space, false), Some(PlayerCommand::Play)));
    assert!(b.command_for_events(&vec![InputEvent::Other], false).is_none());
    assert!(b.command_for_events(&Vec::new(), false).is_none());
}

#[test]
fn folder_cover_order_and_pick() {
    let names = folder_cover_names();
    assert_eq!(names.len(), 12);
    assert_eq!(names[0], "folder.jpg");
    assert_eq!(names[11], "Cover.png");
    let reads = vec![None, Some(vec![0u8; 50]), Some(vec![1u8; 101]), Some(vec![2u8; 500])];
    assert_eq!(pick_folder_cover(&reads), Some(2));
    assert_eq!(pick_folder_cover(&vec![None, Some(vec![0u8; 100])]), None);
}

#[test]
fn now_playing_line() {
    assert_eq!(now_playing_text(Some(("Song", "Band"))), "\"Song\" By: Band");
    assert_eq!(now_playing_text(None), "\"ReAmped\" \u{2014} XxAlexplosivoxX");
}
