use player_core::command::{Options, PlayerCommand};
use player_core::engine::Engine;
use player_core::event::{ends_event_loop, event_code, Event};
use player_core::error::PlayerError;
use player_core::library::{
    dedup_by_path, library_command, open_command, scanned_track, without_paths, CacheEntry, TagInfo,
};
use player_core::media::{cover_extension, file_uri};
use player_core::palette::{argb_to_rgb, hash_palette, M3Palette};
use player_core::track::Track;

fn track(path: &str, title: &str) -> Track {
    Track {
        path: path.to_string(),
        title: title.to_string(),
        artist: "A".to_string(),
        album: String::new(),
        duration_ms: 1000,
    }
}

fn paths(list: &[Track]) -> Vec<&str> {
    list.iter().map(|t| t.path.as_str()).collect()
}

#[test]
fn argb_drops_alpha() {
    assert_eq!(argb_to_rgb(0xFF112233), [0x11, 0x22, 0x33]);
    assert_eq!(argb_to_rgb(0x00FFFFFF), [0xFF, 0xFF, 0xFF]);
    assert_eq!(argb_to_rgb(0), [0, 0, 0]);
}

fn palette(seed: u8) -> M3Palette {
    let c = |k: u8| [seed.wrapping_add(k), seed.wrapping_mul(k), k];
    M3Palette {
        primary: c(1),
        on_primary: c(2),
        primary_container: c(3),
        on_primary_container: c(4),
        secondary: c(5),
        on_secondary: c(6),
        secondary_container: c(7),
        on_secondary_container: c(8),
        tertiary: c(9),
        on_tertiary: c(10),
        tertiary_container: c(11),
        on_tertiary_container: c(12),
        error: c(13),
        on_error: c(14),
        error_container: c(15),
        on_error_container: c(16),
        surface: c(17),
        on_surface: c(18),
        surface_variant: c(19),
        on_surface_variant: c(20),
        outline: c(21),
        outline_variant: c(22),
        background: c(23),
        on_background: c(24),
    }
}

fn reference_hash(p: &M3Palette) -> u64 {
    let mut h: u64 = 0;
    for c in [p.primary, p.secondary, p.tertiary, p.surface, p.on_surface, p.surface_variant, p.background, p.outline] {
        for b in c {
            h = h.wrapping_mul(31).wrapping_add(b as u64);
        }
    }
    h
}

#[test]
fn palette_hash_mixes_theme_colours() {
    let p = palette(7);
    assert_eq!(hash_palette(&p), reference_hash(&p));
    let mut q = p;
    q.on_primary = [0, 0, 0];
    assert_eq!(hash_palette(&q), hash_palette(&p));
    q.primary = [0, 0, 0];
    assert_ne!(hash_palette(&q), hash_palette(&p));
    let zero = M3Palette { primary: [0, 0, 1], ..palette(0) };
    let _ = hash_palette(&zero);
}

#[test]
fn file_uris_are_percent_encoded() {
    assert_eq!(file_uri("/music/a-b_c.~/x.flac"), "file:///music/a-b_c.~/x.flac");
    assert_eq!(file_uri("/m/A b"), "file:///m/A%20b");
    assert_eq!(file_uri("/m/\u{e9}"), "file:///m/%C3%A9");
    assert_eq!(file_uri("/m/100%"), "file:///m/100%25");
}

#[test]
fn cover_extensions() {
    assert_eq!(cover_extension("image/png"), "png");
    assert_eq!(cover_extension("image/jpeg"), "jpg");
}

#[test]
fn event_codes() {
    assert_eq!(event_code(&Event::StateChanged), Some((0, 0)));
    assert_eq!(event_code(&Event::TrackChanged(9)), Some((1, 9)));
    assert_eq!(event_code(&Event::PlaylistChanged), Some((2, 0)));
    assert_eq!(event_code(&Event::Error(PlayerError::Io("x".into()))), Some((4, 0)));
    assert_eq!(event_code(&Event::Shutdown), Some((5, 0)));
    assert!(ends_event_loop(&Event::Shutdown));
    assert!(!ends_event_loop(&Event::StateChanged));
}

#[test]
fn current_track_follows_display() {
    let mut e = Engine::new();
    assert!(e.current_track().is_none());
    e.set_playlist(vec![track("a", "A"), track("b", "B")]);
    assert_eq!(e.current_track().map(|t| t.path.as_str()), Some("a"));
    e.play_index(1);
    assert_eq!(e.current_track().map(|t| t.path.as_str()), Some("b"));
}

#[test]
fn dedup_keeps_first_occurrence() {
    let list = vec![track("a", "1"), track("b", "2"), track("a", "3"), track("c", "4"), track("b", "5")];
    let d = dedup_by_path(&list);
    assert_eq!(paths(&d), vec!["a", "b", "c"]);
    assert_eq!(d[0].title, "1");
    let w = without_paths(&list, &vec![track("a", "x")]);
    assert_eq!(paths(&w), vec!["b", "c", "b"]);
}

#[test]
fn library_commands() {
    let library = vec![track("z", "Zulu"), track("y", "Alpha"), track("s", "Mike")];
    let startup = vec![track("s", "Mike"), track("n", "New")];
    match library_command(&startup, &library, Options::Alphabetical) {
        Some(PlayerCommand::SetPlaylistAndPlayIndex(list, 0)) => {
            assert_eq!(paths(&list), vec!["s", "n", "y", "z"]);
        }
        other => panic!("unexpected {other:?}"),
    }
    match library_command(&vec![], &library, Options::Normal) {
        Some(PlayerCommand::SetPlaylist(list)) => assert_eq!(paths(&list), vec!["z", "y", "s"]),
        other => panic!("unexpected {other:?}"),
    }
    assert!(library_command(&vec![], &vec![], Options::Normal).is_none());
}

#[test]
fn opened_files_go_first() {
    let existing = vec![track("a", "A"), track("b", "B"), track("c", "C")];
    let opened = vec![track("b", "B"), track("d", "D")];
    match open_command(&opened, &existing) {
        Some(PlayerCommand::SetPlaylistAndPlayIndex(list, 0)) => {
            assert_eq!(paths(&list), vec!["b", "d", "a", "c"]);
        }
        other => panic!("unexpected {other:?}"),
    }
    assert!(open_command(&vec![], &existing).is_none());
}

#[test]
fn scanned_tracks_prefer_cache_then_tags_then_fallback() {
    let cached = CacheEntry {
        title: "Cached".to_string(),
        artist: "Band".to_string(),
        album: "LP".to_string(),
        duration_ms: 120_000,
        modified_time: 123,
        file_size: 456,
    };
    let (t, e) = scanned_track("/m/song.flac", Some(&cached), None, Some((1, 2)));
    assert_eq!(t.title, "Cached");
    assert_eq!(t.album, "LP");
    assert_eq!(t.duration_ms, 120_000);
    assert!(e.is_none());

    let tags = TagInfo { title: "Tagged".to_string(), artist: "Artist".to_string(), duration_ms: 5_000 };
    let (t, e) = scanned_track("/m/song.flac", None, Some(&tags), Some((7, 8)));
    assert_eq!(t.path, "/m/song.flac");
    assert_eq!(t.title, "Tagged");
    assert_eq!(t.album, "");
    let e = e.unwrap();
    assert_eq!(e.title, "Tagged");
    assert_eq!(e.duration_ms, 5_000);
    assert_eq!((e.modified_time, e.file_size), (7, 8));

    let (t, e) = scanned_track("/m/untagged.mp3", None, None, None);
    assert_eq!(t.title, "untagged");
    assert_eq!(t.artist, "Unknown");
    assert_eq!(t.duration_ms, 0);
    assert!(e.is_none());
}
