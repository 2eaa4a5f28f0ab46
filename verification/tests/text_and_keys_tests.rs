use player_core::command::{Options, PlayerCommand};
use player_core::crossfade::{reset_micro_fade, advance_micro_fade_index, CrossfadePhase};
use player_core::error::PlayerError;
use player_core::event::{event_to_json, Event};
use player_core::keybindings::{key_for_text, KeyBindings, KeyCode};
use player_core::text::truncate;
use std::sync::atomic::{AtomicU32, Ordering};
use std::sync::Arc;

#[test]
fn truncate_shortens_long_text() {
    assert_eq!(truncate("Hello world", 5), "Hello\u{2026}");
    assert_eq!(truncate("Hello", 5), "Hello");
    assert_eq!(truncate("Hi", 5), "Hi");
    assert_eq!(truncate("", 0), "");
    assert_eq!(truncate("abc", 0), "\u{2026}");
    assert_eq!(truncate("\u{e1}rbol verde", 5), "\u{e1}rbol\u{2026}");
}

#[test]
fn key_names() {
    assert_eq!(KeyCode::Space.to_string(), "Space");
    assert_eq!(KeyCode::Enter.to_string(), "Enter");
    assert_eq!(KeyCode::ArrowUp.to_string(), "ArrowUp");
    assert_eq!(KeyCode::ArrowDown.to_string(), "ArrowDown");
    assert_eq!(KeyCode::ArrowLeft.to_string(), "ArrowLeft");
    assert_eq!(KeyCode::ArrowRight.to_string(), "ArrowRight");
    assert_eq!(KeyCode::KeyN.to_string(), "N");
    assert_eq!(KeyCode::KeyP.to_string(), "P");
    assert_eq!(KeyCode::KeyM.to_string(), "M");
    assert_eq!(KeyCode::KeyR.to_string(), "R");
    assert_eq!(KeyCode::KeyS.to_string(), "S");
}

#[test]
fn default_bindings_table() {
    let b = KeyBindings::default();
    assert!(b.is_play_pause_key(&KeyCode::Space));
    assert!(b.is_play_pause_key(&KeyCode::Enter));
    assert!(!b.is_play_pause_key(&KeyCode::ArrowRight));
    assert_eq!(b.get_command(&KeyCode::Space).is_none(), true);
    assert!(matches!(b.get_command(&KeyCode::ArrowRight), Some(PlayerCommand::Next)));
    assert!(matches!(b.get_command(&KeyCode::ArrowLeft), Some(PlayerCommand::Prev)));
    assert!(matches!(b.get_command(&KeyCode::KeyM), Some(PlayerCommand::AleatoryFullRandom)));
    assert!(matches!(b.get_command(&KeyCode::KeyR), Some(PlayerCommand::ToggleRepeat)));
    assert!(matches!(b.get_command(&KeyCode::KeyS), Some(PlayerCommand::Stop)));
    assert!(matches!(b.get_command(&KeyCode::KeyN), Some(PlayerCommand::Play)));
    assert!(matches!(b.get_command(&KeyCode::KeyP), Some(PlayerCommand::Pause)));
    assert!(b.get_command(&KeyCode::ArrowUp).is_none());
    assert!(b.get_command(&KeyCode::ArrowDown).is_none());
    assert_eq!(b.bindings.len(), 9);
}

#[test]
fn play_pause_key_toggles() {
    let b = KeyBindings::default();
    assert!(matches!(b.command_for_key(&KeyCode::Space, true), Some(PlayerCommand::Pause)));
    assert!(matches!(b.command_for_key(&KeyCode::Space, false), Some(PlayerCommand::Play)));
    assert!(matches!(b.command_for_key(&KeyCode::KeyS, true), Some(PlayerCommand::Stop)));
    assert!(b.command_for_key(&KeyCode::ArrowUp, true).is_none());
}

#[test]
fn insert_replaces_binding() {
    let mut b = KeyBindings::default();
    b.insert("Space".to_string(), "RepeatOne".to_string());
    assert_eq!(b.bindings.len(), 9);
    assert!(!b.is_play_pause_key(&KeyCode::Space));
    assert!(matches!(b.get_command(&KeyCode::Space), Some(PlayerCommand::ToggleRepeatOne)));
    b.insert("ArrowUp".to_string(), "Unknown".to_string());
    assert_eq!(b.bindings.len(), 10);
    assert!(b.get_command(&KeyCode::ArrowUp).is_none());
    assert_eq!(b.lookup(&"ArrowUp".to_string()).map(|s| s.as_str()), Some("Unknown"));
}

#[test]
fn typed_letters_map_to_keys() {
    assert_eq!(key_for_text("n"), Some(KeyCode::KeyN));
    assert_eq!(key_for_text("P"), Some(KeyCode::KeyP));
    assert_eq!(key_for_text("m"), Some(KeyCode::KeyM));
    assert_eq!(key_for_text("R"), Some(KeyCode::KeyR));
    assert_eq!(key_for_text("s"), Some(KeyCode::KeyS));
    assert_eq!(key_for_text("x"), None);
    assert_eq!(key_for_text("nn"), None);
    assert_eq!(key_for_text(""), None);
    assert_eq!(key_for_text("\u{17f}"), None);
}

#[test]
fn events_as_json() {
    assert_eq!(event_to_json(&Event::StateChanged), r#"{"kind":"StateChanged"}"#);
    assert_eq!(
        event_to_json(&Event::TrackChanged(42)),
        r#"{"kind":"TrackChanged","index":42}"#
    );
    assert_eq!(
        event_to_json(&Event::TrackChanged(0)),
        r#"{"kind":"TrackChanged","index":0}"#
    );
    assert_eq!(
        event_to_json(&Event::TrackChanged(1234567890)),
        r#"{"kind":"TrackChanged","index":1234567890}"#
    );
    assert_eq!(event_to_json(&Event::PlaylistChanged), r#"{"kind":"PlaylistChanged"}"#);
    assert_eq!(event_to_json(&Event::Shutdown), r#"{"kind":"Shutdown"}"#);
    assert_eq!(
        event_to_json(&Event::Error(PlayerError::Io("disk".to_string()))),
        r#"{"kind":"Error","message":"I/O error: disk"}"#
    );
}

#[test]
fn error_messages() {
    assert_eq!(PlayerError::Playback("x".into()).message(), "Playback error: x");
    assert_eq!(PlayerError::Decode("bad".into()).message(), "Decode error: bad");
    assert_eq!(PlayerError::Io("y".into()).message(), "I/O error: y");
    assert_eq!(PlayerError::Command("z".into()).message(), "Command error: z");
}

#[test]
fn sort_option_labels() {
    assert_eq!(Options::Normal.label(), "Default");
    assert_eq!(Options::Alphabetical.label(), "Alphabetical");
    assert_eq!(Options::Normal.toggled(), Options::Alphabetical);
    assert_eq!(Options::Alphabetical.toggled(), Options::Normal);
}

#[test]
fn crossfade_phase_queries() {
    let idle = CrossfadePhase::Idle;
    let prep = CrossfadePhase::Preparing { next_index: 3 };
    let fading = CrossfadePhase::Fading { next_index: 4, ui_switched: true };
    let paused = CrossfadePhase::PausedFading { next_index: 5 };
    assert!(!idle.is_active() && !prep.is_active() && fading.is_active() && paused.is_active());
    assert!(!idle.has_prepared() && prep.has_prepared() && fading.has_prepared() && paused.has_prepared());
    assert_eq!(idle.next_index(), None);
    assert_eq!(prep.next_index(), Some(3));
    assert_eq!(fading.next_index(), Some(4));
    assert_eq!(paused.next_index(), Some(5));
}

#[test]
fn micro_fade_counter() {
    let counter = Arc::new(AtomicU32::new(7));
    reset_micro_fade(&counter);
    assert_eq!(counter.load(Ordering::SeqCst), 0);
    assert_eq!(advance_micro_fade_index(&counter, 2), 0);
    assert_eq!(advance_micro_fade_index(&counter, 2), 1);
    assert_eq!(advance_micro_fade_index(&counter, 2), 2);
    assert_eq!(advance_micro_fade_index(&counter, 2), 2);
    assert_eq!(counter.load(Ordering::SeqCst), 2);
}

#[test]
fn clock_labels_pad_to_two_digits() {
    assert_eq!(player_core::text::clock_label(0), "00:00");
    assert_eq!(player_core::text::clock_label(65), "01:05");
    assert_eq!(player_core::text::clock_label(3600), "60:00");
    assert_eq!(player_core::text::clock_label(6_012), "100:12");
}

#[test]
fn repaint_interval_clamps_rate() {
    assert_eq!(player_core::text::frame_interval_ms(0), 1000);
    assert_eq!(player_core::text::frame_interval_ms(60), 16);
    assert_eq!(player_core::text::frame_interval_ms(1000), 4);
}
