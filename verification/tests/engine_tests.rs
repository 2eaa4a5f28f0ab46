use player_core::command::{Options, PlayerCommand};
use player_core::crossfade::CrossfadePhase;
use player_core::engine::{resolve_next_index, Effect, Engine};
use player_core::event::Event;
use player_core::track::Track;

fn track(path: &str, title: &str) -> Track {
    Track {
        path: path.to_string(),
        title: title.to_string(),
        artist: "Artist".to_string(),
        album: String::new(),
        duration_ms: 180_000,
    }
}

fn playlist() -> Vec<Track> {
    vec![
        track("c.flac", "Charlie"),
        track("a.flac", "Alpha"),
        track("b.flac", "Bravo"),
    ]
}

fn is_permutation(v: &[usize], n: usize) -> bool {
    let mut seen = vec![false; n];
    if v.len() != n {
        return false;
    }
    for &i in v {
        if i >= n || seen[i] {
            return false;
        }
        seen[i] = true;
    }
    true
}

#[test]
fn new_engine_is_idle() {
    let e = Engine::new();
    assert!(e.playlist.is_empty());
    assert!(!e.playing);
    assert_eq!(e.phase, CrossfadePhase::Idle);
    assert!(!e.shuffle && !e.repeat && !e.repeat_one);
}

#[test]
fn set_playlist_publishes_and_deals_order() {
    let mut e = Engine::new();
    let fx = e.set_playlist(playlist());
    assert_eq!(fx, vec![Effect::Publish(Event::PlaylistChanged)]);
    assert_eq!(e.playlist.len(), 3);
    assert_eq!(e.playlist_cpy, playlist());
    assert!(is_permutation(&e.shuffled_indices, 3));
    assert_eq!(e.shuffle_pos, 0);
    assert!(!e.playing);
}

#[test]
fn play_index_loads_and_announces() {
    let mut e = Engine::new();
    e.set_playlist(playlist());
    let fx = e.play_index(2);
    assert_eq!(
        fx,
        vec![
            Effect::AbortCrossfade,
            Effect::LoadTrack(2),
            Effect::Publish(Event::TrackChanged(2)),
            Effect::Publish(Event::StateChanged),
        ]
    );
    assert_eq!(e.current_index, 2);
    assert_eq!(e.playlist_idx, 2);
    assert!(e.playing);
}

#[test]
fn play_index_out_of_range_is_ignored() {
    let mut e = Engine::new();
    e.set_playlist(playlist());
    let fx = e.play_index(3);
    assert!(fx.is_empty());
    assert_eq!(e.current_index, 0);
    assert!(!e.playing);
}

#[test]
fn next_walks_playlist_then_stops_without_repeat() {
    let mut e = Engine::new();
    e.set_playlist(playlist());
    e.play_index(1);
    let fx = e.next();
    assert_eq!(
        fx,
        vec![Effect::AbortCrossfade, Effect::LoadTrack(2), Effect::Publish(Event::TrackChanged(2))]
    );
    assert_eq!(e.current_index, 2);
    let fx = e.next();
    assert_eq!(fx, vec![Effect::AbortCrossfade, Effect::Publish(Event::StateChanged)]);
    assert!(!e.playing);
    assert_eq!(e.current_index, 2);
}

#[test]
fn next_wraps_with_repeat() {
    let mut e = Engine::new();
    e.set_playlist(playlist());
    e.toggle_repeat();
    e.play_index(2);
    let fx = e.next();
    assert_eq!(
        fx,
        vec![Effect::AbortCrossfade, Effect::LoadTrack(0), Effect::Publish(Event::TrackChanged(0))]
    );
    assert_eq!(e.current_index, 0);
    assert!(e.playing);
}

#[test]
fn next_during_crossfade_fades_out_first() {
    let mut e = Engine::new();
    e.set_playlist(playlist());
    e.play_index(0);
    let fx = e.crossfade_trigger();
    assert_eq!(fx, vec![Effect::PrepareNext(1)]);
    let fx = e.next();
    assert_eq!(
        fx,
        vec![
            Effect::FadeOutQuick,
            Effect::AbortCrossfade,
            Effect::LoadTrack(1),
            Effect::Publish(Event::TrackChanged(1)),
        ]
    );
    assert_eq!(e.phase, CrossfadePhase::Idle);
}

#[test]
fn prev_restarts_or_steps_back() {
    let mut e = Engine::new();
    e.set_playlist(playlist());
    e.play_index(2);
    let fx = e.prev(true);
    assert_eq!(fx, vec![Effect::AbortCrossfade, Effect::RestartTrack(2)]);
    assert_eq!(e.current_index, 2);
    let fx = e.prev(false);
    assert_eq!(
        fx,
        vec![Effect::AbortCrossfade, Effect::LoadTrack(1), Effect::Publish(Event::TrackChanged(1))]
    );
    e.prev(false);
    let fx = e.prev(false);
    assert_eq!(fx, vec![Effect::AbortCrossfade]);
    assert_eq!(e.current_index, 0);
}

#[test]
fn repeat_modes_exclude_each_other() {
    let mut e = Engine::new();
    e.toggle_repeat();
    assert!(e.repeat && !e.repeat_one);
    e.toggle_repeat_one();
    assert!(!e.repeat && e.repeat_one);
    e.toggle_repeat();
    assert!(e.repeat && !e.repeat_one);
    e.toggle_repeat();
    assert!(!e.repeat && !e.repeat_one);
}

#[test]
fn shuffle_on_puts_current_first_and_clears_repeat_one() {
    for _ in 0..20 {
        let mut e = Engine::new();
        e.set_playlist(playlist());
        e.play_index(2);
        e.toggle_repeat_one();
        e.toggle_shuffle();
        assert!(e.shuffle);
        assert!(!e.repeat_one);
        assert_eq!(e.shuffled_indices[0], 2);
        assert_eq!(e.shuffle_pos, 0);
        assert!(is_permutation(&e.shuffled_indices, 3));
    }
}

#[test]
fn shuffle_walks_each_track_once() {
    let mut e = Engine::new();
    e.set_playlist(playlist());
    e.play_index(0);
    e.toggle_shuffle();
    let mut played = vec![e.current_index];
    for _ in 0..2 {
        e.next();
        played.push(e.current_index);
    }
    played.sort();
    assert_eq!(played, vec![0, 1, 2]);
    let fx = e.next();
    assert_eq!(fx, vec![Effect::AbortCrossfade, Effect::Publish(Event::StateChanged)]);
    assert!(!e.playing);
}

#[test]
fn shuffle_with_repeat_deals_again() {
    let mut e = Engine::new();
    e.set_playlist(playlist());
    e.toggle_repeat();
    e.play_index(0);
    e.toggle_shuffle();
    for _ in 0..7 {
        let fx = e.next();
        assert_eq!(fx.len(), 3);
        assert!(e.playing);
        assert!(is_permutation(&e.shuffled_indices, 3));
        assert_eq!(e.shuffled_indices[e.shuffle_pos], e.current_index);
    }
}

#[test]
fn sort_alphabetical_keeps_current_track() {
    let mut e = Engine::new();
    e.set_playlist(playlist());
    e.play_index(0); // "Charlie"
    let fx = e.sort_by(Options::Alphabetical);
    assert_eq!(fx, vec![Effect::Publish(Event::PlaylistChanged)]);
    let titles: Vec<&str> = e.playlist.iter().map(|t| t.title.as_str()).collect();
    assert_eq!(titles, vec!["Alpha", "Bravo", "Charlie"]);
    assert_eq!(e.current_index, 2);
    assert_eq!(e.playlist_idx, 2);
    e.sort_by(Options::Normal);
    assert_eq!(e.playlist, playlist());
    assert_eq!(e.current_index, 0);
}

#[test]
fn sort_is_stable_for_equal_titles() {
    let mut e = Engine::new();
    e.set_playlist(vec![
        track("2.flac", "Same"),
        track("1.flac", "Same"),
        track("0.flac", "Other"),
    ]);
    e.sort_by(Options::Alphabetical);
    let paths: Vec<&str> = e.playlist.iter().map(|t| t.path.as_str()).collect();
    assert_eq!(paths, vec!["0.flac", "2.flac", "1.flac"]);
}

#[test]
fn sort_orders_by_code_point() {
    let mut e = Engine::new();
    e.set_playlist(vec![
        track("1", "b"),
        track("2", "B"),
        track("3", "\u{e9}"),
        track("4", "a"),
        track("5", "ab"),
    ]);
    e.sort_by(Options::Alphabetical);
    let titles: Vec<&str> = e.playlist.iter().map(|t| t.title.as_str()).collect();
    let mut expected = vec!["b", "B", "\u{e9}", "a", "ab"];
    expected.sort();
    assert_eq!(titles, expected);
}

#[test]
fn aleatory_full_random_keeps_tracks_and_current() {
    let tracks: Vec<Track> = (0..10).map(|i| track(&format!("{i}.flac"), &format!("T{i}"))).collect();
    let mut changed = false;
    for _ in 0..5 {
        let mut e = Engine::new();
        e.set_playlist(tracks.clone());
        e.play_index(4);
        let fx = e.aleatory_full_random();
        assert_eq!(fx, vec![Effect::Publish(Event::PlaylistChanged)]);
        assert_eq!(e.playlist[e.current_index].path, "4.flac");
        let mut paths: Vec<String> = e.playlist.iter().map(|t| t.path.clone()).collect();
        if e.playlist != tracks {
            changed = true;
        }
        paths.sort();
        let mut expected: Vec<String> = tracks.iter().map(|t| t.path.clone()).collect();
        expected.sort();
        assert_eq!(paths, expected);
    }
    assert!(changed);
}

#[test]
fn jump_to_path_plays_first_match() {
    let mut e = Engine::new();
    e.set_playlist(playlist());
    let fx = e.jump_to_path(&"b.flac".to_string());
    assert_eq!(fx[1], Effect::LoadTrack(2));
    assert_eq!(e.current_index, 2);
    let fx = e.jump_to_path(&"missing.flac".to_string());
    assert!(fx.is_empty());
    assert_eq!(e.current_index, 2);
}

#[test]
fn pause_and_play_freeze_and_resume_fade() {
    let mut e = Engine::new();
    e.set_playlist(playlist());
    e.play_index(0);
    e.crossfade_trigger();
    let fx = e.pause();
    assert_eq!(
        fx,
        vec![Effect::FreezeCrossfade, Effect::BackendPause, Effect::Publish(Event::StateChanged)]
    );
    assert_eq!(e.phase, CrossfadePhase::PausedFading { next_index: 1 });
    assert!(!e.playing);
    let fx = e.play();
    assert_eq!(
        fx,
        vec![Effect::ResumeCrossfade, Effect::BackendPlay, Effect::Publish(Event::StateChanged)]
    );
    assert_eq!(e.phase, CrossfadePhase::Fading { next_index: 1, ui_switched: false });
    assert!(e.playing);
}

#[test]
fn crossfade_runs_to_completion() {
    let mut e = Engine::new();
    e.set_playlist(playlist());
    e.play_index(0);
    assert_eq!(e.crossfade_trigger(), vec![Effect::PrepareNext(1)]);
    // A second trigger while fading does nothing.
    assert!(e.crossfade_trigger().is_empty());
    let fx = e.gain_crossover();
    assert_eq!(fx, vec![Effect::ShowTrack(1), Effect::Publish(Event::TrackChanged(1))]);
    assert_eq!(e.playlist_idx, 1);
    assert_eq!(e.current_index, 0);
    assert!(e.gain_crossover().is_empty());
    let fx = e.fade_complete();
    assert_eq!(fx, vec![Effect::SwapToNext(1)]);
    assert_eq!(e.current_index, 1);
    assert_eq!(e.phase, CrossfadePhase::Idle);
}

#[test]
fn fade_complete_announces_when_display_did_not_switch() {
    let mut e = Engine::new();
    e.set_playlist(playlist());
    e.play_index(1);
    e.crossfade_trigger();
    let fx = e.fade_complete();
    assert_eq!(fx, vec![Effect::SwapToNext(2), Effect::Publish(Event::TrackChanged(2))]);
}

#[test]
fn crossfade_trigger_needs_a_next_track() {
    let mut e = Engine::new();
    e.set_playlist(playlist());
    e.play_index(2);
    assert!(e.crossfade_trigger().is_empty());
    e.pause();
    e.toggle_repeat();
    assert!(e.crossfade_trigger().is_empty());
    e.play();
    assert_eq!(e.crossfade_trigger(), vec![Effect::PrepareNext(0)]);
}

#[test]
fn track_finished_follows_modes() {
    let mut e = Engine::new();
    e.set_playlist(playlist());
    e.play_index(1);
    e.toggle_repeat_one();
    assert_eq!(
        e.track_finished(),
        vec![Effect::LoadTrack(1), Effect::Publish(Event::TrackChanged(1))]
    );
    e.toggle_repeat_one();
    assert_eq!(
        e.track_finished(),
        vec![Effect::LoadTrack(2), Effect::Publish(Event::TrackChanged(2))]
    );
    assert_eq!(e.track_finished(), vec![Effect::Publish(Event::StateChanged)]);
    assert!(!e.playing);
    assert!(e.track_finished().is_empty());
}

#[test]
fn stop_and_seek() {
    let mut e = Engine::new();
    e.set_playlist(playlist());
    e.play_index(1);
    let fx = e.stop();
    assert_eq!(
        fx,
        vec![Effect::BackendStop, Effect::ResetDisplay, Effect::Publish(Event::StateChanged)]
    );
    assert!(!e.playing);
    let fx = e.seek();
    assert_eq!(fx, vec![Effect::SeekTrack(1)]);
    assert!(e.playing);
}

#[test]
fn handle_command_dispatches() {
    let mut e = Engine::new();
    let fx = e.handle_command(PlayerCommand::SetPlaylistAndPlayIndex(playlist(), 1), false);
    assert_eq!(
        fx,
        vec![
            Effect::AbortCrossfade,
            Effect::LoadTrack(1),
            Effect::Publish(Event::PlaylistChanged),
            Effect::Publish(Event::TrackChanged(1)),
            Effect::Publish(Event::StateChanged),
        ]
    );
    assert!(e.handle_command(PlayerCommand::GetPluginsData, false).is_empty());
    assert!(e.handle_command(PlayerCommand::ToggleShuffle, false).is_empty());
    assert!(e.shuffle);
    let fx = e.handle_command(PlayerCommand::JumpToPath("c.flac".to_string()), false);
    assert_eq!(fx[1], Effect::LoadTrack(0));
    let fx = e.handle_command(PlayerCommand::SetPlaylistAndPlayIndex(playlist(), 7), false);
    assert!(fx.is_empty());
    assert_eq!(e.shuffle_pos, 0);
    assert_eq!(e.shutdown(), vec![Effect::Publish(Event::Shutdown)]);
}

#[test]
fn resolve_next_index_cases() {
    let list = playlist();
    assert_eq!(resolve_next_index(0, &list, false, &[], 0, false), Some(1));
    assert_eq!(resolve_next_index(2, &list, false, &[], 0, false), None);
    assert_eq!(resolve_next_index(2, &list, false, &[], 0, true), Some(0));
    assert_eq!(resolve_next_index(0, &list, true, &[2, 0, 1], 0, false), Some(0));
    assert_eq!(resolve_next_index(0, &list, true, &[2, 0, 1], 2, false), None);
    assert_eq!(resolve_next_index(0, &list, true, &[2, 0, 1], 2, true), Some(2));
    assert_eq!(resolve_next_index(0, &[], true, &[], 0, true), None);
}

#[test]
fn next_then_prev_comes_back() {
    let mut e = Engine::new();
    e.set_playlist(playlist());
    e.play_index(0);
    e.next();
    assert_eq!(e.current_index, 1);
    e.prev(false);
    assert_eq!(e.current_index, 0);
    assert_eq!(e.playlist_idx, 0);
    assert!(e.playing);
}

#[test]
fn sort_normal_restores_set_order() {
    let mut e = Engine::new();
    e.set_playlist(playlist());
    e.play_index(0);
    e.sort_by(Options::Alphabetical);
    assert_eq!(e.playlist[0].title, "Alpha");
    e.sort_by(Options::Normal);
    assert_eq!(e.playlist, playlist());
    assert_eq!(e.current_index, 0);
}

#[test]
fn repeat_all_never_stops() {
    let mut e = Engine::new();
    e.set_playlist(playlist());
    e.toggle_repeat();
    e.play_index(0);
    for _ in 0..7 {
        e.next();
        assert!(e.playing);
        assert!(e.current_index < 3);
        assert_eq!(e.phase, CrossfadePhase::Idle);
    }
    assert_eq!(e.current_index, 1);
}

#[test]
fn micro_fade_step_stops_at_total() {
    assert_eq!(player_core::crossfade::micro_fade_step(0, 2), Some(1));
    assert_eq!(player_core::crossfade::micro_fade_step(1, 2), Some(2));
    assert_eq!(player_core::crossfade::micro_fade_step(2, 2), None);
    assert_eq!(player_core::crossfade::micro_fade_step(5, 0), None);
}
