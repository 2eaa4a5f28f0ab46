use player_core::engine::{idle_display, Effect, Engine};
use player_core::event::Event;
use player_core::library::{dedup_by_path, fallback_title, has_audio_extension, without_paths};
use player_core::media::{sync_updates, SyncMemo, SyncUpdate};
use player_core::paths::{components_of, extension, file_stem, paths_equal};
use player_core::playlist_view::playlist_rows;
use player_core::settings::{bar_count_range, fft_size_range, line_mode_offered, set_old_style, SpectrumSettings};
use player_core::track::Track;

fn track(path: &str, title: &str) -> Track {
    Track {
        path: path.to_string(),
        title: title.to_string(),
        artist: "Artist".to_string(),
        album: String::new(),
        duration_ms: 1000,
    }
}

fn s(x: &str) -> String {
    x.to_string()
}

#[test]
fn paths_compare_by_components() {
    assert!(paths_equal(&s("a//b.flac"), &s("a/b.flac")));
    assert!(paths_equal(&s("/m/./a/"), &s("/m/a")));
    assert!(!paths_equal(&s("./a"), &s("a")));
    assert!(!paths_equal(&s("/a"), &s("a")));
    assert!(!paths_equal(&s("a/../b"), &s("b")));
    assert_eq!(components_of(&s("./x//y/.")), vec![vec!['.'], vec!['x'], vec!['y']]);
    assert_eq!(components_of(&s("/")), vec![vec!['/']]);
    assert!(components_of(&s("")).is_empty());
}

#[test]
fn jump_to_path_finds_equivalent_path() {
    let mut e = Engine::new();
    e.set_playlist(vec![track("x/a.flac", "X"), track("a/b.flac", "B")]);
    let fx = e.jump_to_path(&s("a//b.flac"));
    assert_eq!(e.current_index, 1);
    assert!(fx.contains(&Effect::LoadTrack(1)));
}

#[test]
fn dedup_treats_equivalent_paths_as_one_file() {
    let list = vec![track("m/a.flac", "A"), track("m//a.flac", "A2"), track("m/b.flac", "B")];
    let d = dedup_by_path(&list);
    assert_eq!(d.len(), 2);
    assert_eq!(d[0].title, "A");
    let rest = without_paths(&list, &vec![track("m/./a.flac", "x")]);
    assert_eq!(rest.len(), 1);
    assert_eq!(rest[0].title, "B");
}

#[test]
fn current_row_and_sync_follow_the_file_not_the_text() {
    let list = vec![track("m/a.flac", "A")];
    let rows = playlist_rows(&list, Some(&s("m//a.flac")), true, "");
    assert!(rows[0].is_current);
    let mut memo = SyncMemo::new();
    sync_updates(&mut memo, Some(&s("m/a.flac")), true, 0, 1, false, false, false);
    let u = sync_updates(&mut memo, Some(&s("m//a.flac")), true, 0, 1, false, false, false);
    assert_eq!(u, vec![SyncUpdate::PositionAndVolume]);
    assert_eq!(memo.track_path, Some(s("m/a.flac")));
}

#[test]
fn stems_and_extensions_as_on_unix() {
    assert_eq!(file_stem("/music/song.flac"), Some(s("song")));
    assert_eq!(extension("/music/song.flac"), Some(s("flac")));
    assert_eq!(file_stem("/music/archive.tar.gz"), Some(s("archive.tar")));
    assert_eq!(extension("/music/archive.tar.gz"), Some(s("gz")));
    assert_eq!(file_stem(".hidden"), Some(s(".hidden")));
    assert_eq!(extension(".hidden"), None);
    assert_eq!(extension("name."), Some(s("")));
    assert_eq!(file_stem("dir/song.mp3/."), Some(s("song")));
    assert_eq!(file_stem("/"), None);
    assert_eq!(file_stem("a/.."), None);
    assert_eq!(extension(""), None);
    assert!(has_audio_extension("/m/x.FLAC"));
    assert!(!has_audio_extension("/m/flac"));
    assert_eq!(fallback_title("/m/untitled"), "untitled");
    assert_eq!(fallback_title("/"), "/");
}

#[test]
fn next_on_empty_playlist_with_repeat_stops() {
    let mut e = Engine::new();
    e.toggle_repeat();
    let fx = e.next();
    assert!(!e.playing);
    assert_eq!(fx, vec![Effect::AbortCrossfade, Effect::Publish(Event::StateChanged)]);
    e.toggle_shuffle();
    let fx = e.next();
    assert!(!e.playing);
    assert_eq!(fx, vec![Effect::AbortCrossfade, Effect::Publish(Event::StateChanged)]);
}

#[test]
fn stopped_display() {
    let d = idle_display();
    assert_eq!(d.title, "--- Stopped ---");
    assert_eq!(d.duration_ms, 0);
    assert_eq!(d.position_ms, 0);
    assert!(!d.shows_tags);
    assert!(d.default_cover);
}

#[test]
fn settings_rules() {
    assert_eq!(bar_count_range(true), (40, 128));
    assert_eq!(bar_count_range(false), (40, 512));
    assert_eq!(fft_size_range(), (500, 24576));
    let mut st = SpectrumSettings { old_style: false, line_mode: true, bars: 300 };
    assert!(line_mode_offered(&st));
    set_old_style(&mut st, true);
    assert_eq!(st, SpectrumSettings { old_style: true, line_mode: false, bars: 300 });
    assert!(!line_mode_offered(&st));
    set_old_style(&mut st, false);
    assert!(!st.line_mode);
}
