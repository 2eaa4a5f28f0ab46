use player_core::audio_format::{output_candidates, pack_int, Converter, DecodedBufferKind, NativeFormat};
use player_core::command::PlayerCommand;
use player_core::library::{
    fallback_title, fallback_track, has_audio_extension, is_audio_kind, is_video_path, starts_with,
    CacheEntry,
};
use player_core::media::{
    capabilities, loop_status, loop_status_commands, play_pause_command, play_pause_label,
    playback_status, shuffle_command, tray_description, LoopStatus, PlaybackStatus,
};

#[test]
fn frame_sizes() {
    assert_eq!(NativeFormat::S16.frame_bytes(), 4);
    assert_eq!(NativeFormat::S24.frame_bytes(), 8);
    assert_eq!(NativeFormat::S243.frame_bytes(), 6);
    assert_eq!(NativeFormat::S32.frame_bytes(), 8);
    assert_eq!(NativeFormat::U8.frame_bytes(), 2);
    assert_eq!(NativeFormat::F32.frame_bytes(), 8);
    assert_eq!(NativeFormat::F64.frame_bytes(), 16);
}

#[test]
fn candidates_keep_integer_depth() {
    assert_eq!(output_candidates(DecodedBufferKind::S16, 16), vec![NativeFormat::S16]);
    assert_eq!(output_candidates(DecodedBufferKind::S24, 24), vec![NativeFormat::S24, NativeFormat::S243]);
    assert_eq!(output_candidates(DecodedBufferKind::S32, 16), vec![NativeFormat::S16]);
    assert_eq!(output_candidates(DecodedBufferKind::S32, 24), vec![NativeFormat::S24, NativeFormat::S243]);
    assert_eq!(output_candidates(DecodedBufferKind::S32, 32), vec![NativeFormat::S32]);
    assert_eq!(output_candidates(DecodedBufferKind::U8, 8), vec![NativeFormat::U8]);
    assert_eq!(output_candidates(DecodedBufferKind::F32, 32), vec![NativeFormat::F32, NativeFormat::S32, NativeFormat::S24, NativeFormat::S243, NativeFormat::S16]);
    assert_eq!(output_candidates(DecodedBufferKind::F64, 64), vec![NativeFormat::F64, NativeFormat::F32, NativeFormat::S32]);
}

#[test]
fn converters_follow_kind() {
    assert_eq!(Converter::for_kind(DecodedBufferKind::S16), Converter::S16);
    assert_eq!(Converter::for_kind(DecodedBufferKind::S24), Converter::S24);
    assert_eq!(Converter::for_kind(DecodedBufferKind::S32), Converter::S32);
    assert_eq!(Converter::for_kind(DecodedBufferKind::U8), Converter::U8);
    assert_eq!(Converter::for_kind(DecodedBufferKind::F32), Converter::F32);
    assert_eq!(Converter::for_kind(DecodedBufferKind::F64), Converter::F64);
    assert!(Converter::S32.left_justified());
    assert!(!Converter::S24.left_justified());
}

#[test]
fn mpris_status_and_caps() {
    assert_eq!(playback_status(true, true), PlaybackStatus::Playing);
    assert_eq!(playback_status(true, false), PlaybackStatus::Paused);
    assert_eq!(playback_status(false, true), PlaybackStatus::Stopped);
    let c = capabilities(true, 0, 3, false);
    assert!(c.play && c.pause && c.seek && c.next && !c.prev);
    let c = capabilities(true, 2, 3, false);
    assert!(!c.next && c.prev);
    let c = capabilities(true, 2, 3, true);
    assert!(c.next && c.prev);
    let c = capabilities(false, 1, 3, true);
    assert!(!c.play && !c.next && !c.prev && !c.seek);
    let c = capabilities(true, usize::MAX, 0, false);
    assert!(!c.next);
}

fn apply(mut repeat: bool, mut one: bool, cmds: &[PlayerCommand]) -> (bool, bool) {
    for c in cmds {
        match c {
            PlayerCommand::ToggleRepeat => {
                repeat = !repeat;
                one = false;
            }
            PlayerCommand::ToggleRepeatOne => {
                one = !one;
                repeat = false;
            }
            _ => panic!("unexpected command"),
        }
    }
    (repeat, one)
}

#[test]
fn loop_status_round_trip() {
    assert_eq!(loop_status(false, false), LoopStatus::Off);
    assert_eq!(loop_status(true, false), LoopStatus::Playlist);
    assert_eq!(loop_status(false, true), LoopStatus::Track);
    for (r, o) in [(false, false), (true, false), (false, true)] {
        for status in [LoopStatus::Off, LoopStatus::Playlist, LoopStatus::Track] {
            let cmds = loop_status_commands(r, o, status);
            let (nr, no) = apply(r, o, &cmds);
            assert_eq!(loop_status(nr, no), status);
        }
    }
    assert!(loop_status_commands(true, false, LoopStatus::Playlist).is_empty());
}

#[test]
fn tray_texts() {
    assert_eq!(tray_description(true, "Artist", "Song"), "Artist - Song");
    assert_eq!(tray_description(false, "Artist", "Song"), "Sin reproducci\u{f3}n");
    assert_eq!(play_pause_label(true), "\u{23f8} Pausar");
    assert_eq!(play_pause_label(false), "\u{25b6} Reproducir");
    assert!(matches!(play_pause_command(true), PlayerCommand::Pause));
    assert!(matches!(play_pause_command(false), PlayerCommand::Play));
    assert!(matches!(shuffle_command(false, true), Some(PlayerCommand::ToggleShuffle)));
    assert!(shuffle_command(true, true).is_none());
}

#[test]
fn audio_extensions() {
    assert!(has_audio_extension("music/song.flac"));
    assert!(has_audio_extension("music/SONG.FLAC"));
    assert!(has_audio_extension("a.Mp3"));
    assert!(has_audio_extension("x.webm"));
    assert!(!has_audio_extension("notes.txt"));
    assert!(!has_audio_extension("flac"));
    assert!(!has_audio_extension(".ogg"));
}

#[test]
fn video_paths() {
    assert!(is_video_path("/w/loop.mp4"));
    assert!(is_video_path("a.ts"));
    assert!(!is_video_path("a.MP4"));
    assert!(!is_video_path("a.png"));
    assert!(!is_video_path("mp4"));
}

#[test]
fn audio_kind_decision() {
    assert!(is_audio_kind(Some("audio/mpeg"), false));
    assert!(is_audio_kind(Some("application/ogg"), false));
    assert!(!is_audio_kind(Some("image/png"), false));
    assert!(is_audio_kind(Some("image/png"), true));
    assert!(is_audio_kind(None, true));
    assert!(!is_audio_kind(None, false));
    assert!(!is_audio_kind(Some("audio"), false));
    assert!(starts_with("audio/x", "audio/"));
    assert!(!starts_with("aud", "audio/"));
}

#[test]
fn fallback_titles() {
    assert_eq!(fallback_title("dir/song.flac"), "song");
    assert_eq!(fallback_title("dir/archive.tar.gz"), "archive.tar");
    assert_eq!(fallback_title(""), "");
    assert_eq!(fallback_title("/"), "/");
    let t = fallback_track("dir/song.flac");
    assert_eq!(t.title, "song");
    assert_eq!(t.artist, "Unknown");
    assert_eq!(t.album, "");
    assert_eq!(t.duration_ms, 0);
}

#[test]
fn cache_entries() {
    let e = CacheEntry {
        title: "Song".into(),
        artist: "Artist".into(),
        album: String::new(),
        duration_ms: 120_000,
        modified_time: 123,
        file_size: 456,
    };
    assert!(e.matches_file(123, 456));
    assert!(!e.matches_file(124, 456));
    assert!(!e.matches_file(123, 457));
    let t = e.to_track("song.flac");
    assert_eq!(t.path, "song.flac");
    assert_eq!(t.title, "Song");
    assert_eq!(t.duration_ms, 120_000);
}

#[test]
fn justification_shifts_left_justified_values() {
    assert_eq!(Converter::S32.justified(0x7fff_ffff, 16), 0x7fff);
    assert_eq!(Converter::F32.justified(i32::MIN, 24), -8_388_608);
    assert_eq!(Converter::F64.justified(-1, 32), -1);
    assert_eq!(Converter::S16.justified(1234, 16), 1234);
    assert_eq!(Converter::U8.justified(200, 8), 200);
}

#[test]
fn integer_samples_pack_little_endian() {
    let mut out = vec![9u8];
    pack_int(&mut out, -1, NativeFormat::S16);
    assert_eq!(out, vec![9, 0xff, 0xff]);
    let mut out = Vec::new();
    pack_int(&mut out, 0x0012_3456, NativeFormat::S243);
    assert_eq!(out, vec![0x56, 0x34, 0x12]);
    let mut out = Vec::new();
    pack_int(&mut out, -2, NativeFormat::S24);
    assert_eq!(out, vec![0xfe, 0xff, 0xff, 0xff]);
    let mut out = Vec::new();
    pack_int(&mut out, 0x0102_0304, NativeFormat::S32);
    assert_eq!(out, vec![4, 3, 2, 1]);
    let mut out = Vec::new();
    pack_int(&mut out, 130, NativeFormat::U8);
    assert_eq!(out, vec![130]);
    // A stereo frame is two samples.
    let mut frame = Vec::new();
    pack_int(&mut frame, 1, NativeFormat::S243);
    pack_int(&mut frame, 2, NativeFormat::S243);
    assert_eq!(frame.len(), NativeFormat::S243.frame_bytes());
    // One sample fills half a frame and leaves what was written before.
    let mut out = vec![7u8, 8];
    pack_int(&mut out, 5, NativeFormat::S16);
    assert_eq!(out.len(), 2 + NativeFormat::S16.frame_bytes() / 2);
    assert_eq!(&out[..2], &[7, 8]);
}
