//! The playback engine's decisions: playlist navigation, shuffle and repeat
//! modes, and the crossfade phase machine.
//!
//! The engine is a state machine. The host's audio loop hands it commands
//! and observations (a crossfade trigger point reached, a fade complete, the
//! current track finished) and carries out the [`Effect`]s it returns, in
//! order: loading tracks into the audio backend, publishing events, and the
//! like. Everything here is decided from plain values; the audio-rate data
//! (positions, gains, durations in seconds) stays with the host.

use vstd::prelude::*;
use rand::seq::SliceRandom;
use crate::crossfade::CrossfadePhase;
use crate::event::Event;
use crate::track::{Track, clone_tracks};
use crate::command::{Options, PlayerCommand};
use crate::sort::{sort_by_title, sorted_by_title, lemma_sorted_by_title_permutes};
use crate::paths::{same_path, paths_equal};

verus! {

broadcast use vstd::seq_lib::group_to_multiset_ensures;

/// An action the host carries out on behalf of the engine.
#[derive(Debug, Clone, PartialEq)]
pub enum Effect {
    /// Load the playlist entry into the backend and show it: read its tags,
    /// apply silence trimming, start decoding, reset the position to zero.
    LoadTrack(usize),
    /// Publish an event to every subscriber.
    Publish(Event),
    /// Drop the prepared next track and stop mixing it.
    AbortCrossfade,
    /// Ramp the outgoing track to silence over a few milliseconds before a
    /// skip interrupts a crossfade.
    FadeOutQuick,
    /// Remember the current fade gains and elapsed time (pause mid-fade).
    FreezeCrossfade,
    /// Restore the remembered gains and resume mixing (play after a pause
    /// mid-fade).
    ResumeCrossfade,
    /// Start or resume audio output.
    BackendPlay,
    /// Pause audio output.
    BackendPause,
    /// Stop audio output and release the stream.
    BackendStop,
    /// Show the idle display that [`idle_display`] describes.
    ResetDisplay,
    /// Seek the playlist entry back to its start.
    RestartTrack(usize),
    /// Seek the playlist entry to the time the host holds for the seek.
    SeekTrack(usize),
    /// Decode the playlist entry as the incoming track and start mixing it.
    PrepareNext(usize),
    /// Promote the prepared incoming track (the playlist entry) to current.
    SwapToNext(usize),
    /// Show the playlist entry's title and cover while it fades in.
    ShowTrack(usize),
}

/// What the display shows once playback stopped.
#[derive(Debug)]
pub struct IdleDisplay {
    /// The title line.
    pub title: String,
    /// The duration shown, in milliseconds.
    pub duration_ms: u64,
    /// The position shown, in milliseconds.
    pub position_ms: u64,
    /// Whether the current track's tags are shown.
    pub shows_tags: bool,
    /// Whether the placeholder cover is shown.
    pub default_cover: bool,
}

/// The stopped display: the title "--- Stopped ---", zero duration and
/// position, no tags, the placeholder cover.
pub open spec fn idle_display_spec(d: IdleDisplay) -> bool {
    &&& d.title@ == "--- Stopped ---"@
    &&& d.duration_ms == 0
    &&& d.position_ms == 0
    &&& !d.shows_tags
    &&& d.default_cover
}

/// The display that `Effect::ResetDisplay` asks for.
pub fn idle_display() -> (d: IdleDisplay)
    ensures
        idle_display_spec(d),
{
    IdleDisplay {
        title: String::from_str("--- Stopped ---"),
        duration_ms: 0,
        position_ms: 0,
        shows_tags: false,
        default_cover: true,
    }
}

/// The first position of `v` in `s`.
#[verifier::opaque]
pub open spec fn index_of_value(s: Seq<usize>, v: usize) -> Option<int> {
    if exists|k: int| 0 <= k < s.len() && s[k] == v {
        Some(choose|k: int| 0 <= k < s.len() && s[k] == v && forall|j: int| 0 <= j < k ==> s[j] != v)
    } else {
        None
    }
}

/// The first position in `s` of a track whose path names the same file as
/// `path`.
#[verifier::opaque]
pub open spec fn index_of_path(s: Seq<Track>, path: Seq<char>) -> Option<int> {
    if exists|k: int| 0 <= k < s.len() && same_path(s[k].path@, path) {
        Some(
            choose|k: int|
                0 <= k < s.len() && same_path(s[k].path@, path) && forall|j: int|
                    0 <= j < k ==> !same_path(s[j].path@, path),
        )
    } else {
        None
    }
}

/// When no position before `k` holds `v` and `k` does (or is the end),
/// `k` is the first position of `v` (or there is none).
pub proof fn lemma_index_of_value(s: Seq<usize>, v: usize, k: int)
    requires
        0 <= k <= s.len(),
        forall|j: int| 0 <= j < k ==> s[j] != v,
        k < s.len() ==> s[k] == v,
    ensures
        index_of_value(s, v) == (if k < s.len() { Some(k) } else { None::<int> }),
{
    reveal(index_of_value);
    if k < s.len() {
        assert(0 <= k < s.len() && s[k] == v && forall|j: int| 0 <= j < k ==> s[j] != v);
        let c = choose|c: int| 0 <= c < s.len() && s[c] == v && forall|j: int| 0 <= j < c ==> s[j] != v;
        if c < k {
            assert(s[c] != v);
        }
        if k < c {
            assert(s[k] != v);
        }
    }
}

/// When no track before `k` has `path` and track `k` does (or `k` is the
/// end), `k` is the first position with that path (or there is none).
pub proof fn lemma_index_of_path(s: Seq<Track>, path: Seq<char>, k: int)
    requires
        0 <= k <= s.len(),
        forall|j: int| 0 <= j < k ==> !same_path(s[j].path@, path),
        k < s.len() ==> same_path(s[k].path@, path),
    ensures
        index_of_path(s, path) == (if k < s.len() { Some(k) } else { None::<int> }),
{
    reveal(index_of_path);
    if k < s.len() {
        assert(0 <= k < s.len() && same_path(s[k].path@, path) && forall|j: int| 0 <= j < k ==> !same_path(s[j].path@, path));
        let c = choose|c: int|
            0 <= c < s.len() && same_path(s[c].path@, path) && forall|j: int| 0 <= j < c ==> !same_path(s[j].path@, path);
        if c < k {
            assert(!same_path(s[c].path@, path));
        }
        if k < c {
            assert(!same_path(s[k].path@, path));
        }
    }
}

/// From any track with `path`, the first such track.
proof fn lemma_first_path_witness(s: Seq<Track>, path: Seq<char>, k: int) -> (w: int)
    requires
        0 <= k < s.len(),
        same_path(s[k].path@, path),
    ensures
        0 <= w <= k,
        same_path(s[w].path@, path),
        forall|j: int| 0 <= j < w ==> !same_path(s[j].path@, path),
    decreases k,
{
    if exists|j: int| 0 <= j < k && same_path(s[j].path@, path) {
        let j = choose|j: int| 0 <= j < k && same_path(s[j].path@, path);
        lemma_first_path_witness(s, path, j)
    } else {
        k
    }
}

/// A track with the path is found: the first one with that path.
pub proof fn lemma_index_of_path_found(s: Seq<Track>, path: Seq<char>, k: int)
    requires
        0 <= k < s.len(),
        same_path(s[k].path@, path),
    ensures
        index_of_path(s, path) matches Some(j) && 0 <= j < s.len() && same_path(s[j].path@, path),
{
    let w = lemma_first_path_witness(s, path, k);
    lemma_index_of_path(s, path, w);
}

/// A found path is a position of the playlist.
pub proof fn lemma_index_of_path_in_range(s: Seq<Track>, path: Seq<char>)
    ensures
        index_of_path(s, path) matches Some(j) ==> 0 <= j < s.len() && same_path(s[j].path@, path),
{
    reveal(index_of_path);
    if exists|k: int| 0 <= k < s.len() && same_path(s[k].path@, path) {
        let k = choose|k: int| 0 <= k < s.len() && same_path(s[k].path@, path);
        lemma_index_of_path_found(s, path, k);
    }
}

/// `s` lists each index below `n` exactly once.
pub open spec fn is_index_permutation(s: Seq<usize>, n: nat) -> bool {
    &&& s.len() == n
    &&& s.no_duplicates()
    &&& forall|i: int| 0 <= i < s.len() ==> s[i] < n
}

proof fn lemma_rearranged_permutation(old_s: Seq<usize>, new_s: Seq<usize>, n: nat)
    requires
        is_index_permutation(old_s, n),
        new_s.to_multiset() == old_s.to_multiset(),
    ensures
        is_index_permutation(new_s, n),
{
    broadcast use vstd::multiset::group_multiset_axioms;
    old_s.lemma_multiset_has_no_duplicates();
    new_s.lemma_multiset_has_no_duplicates_conv();
    assert forall|i: int| 0 <= i < new_s.len() implies new_s[i] < n by {
        assert(new_s.contains(new_s[i]));
        assert(new_s.to_multiset().count(new_s[i]) > 0);
        assert(old_s.to_multiset().count(new_s[i]) > 0);
        assert(old_s.contains(new_s[i]));
        let j = choose|j: int| 0 <= j < old_s.len() && old_s[j] == new_s[i];
    }
    assert(new_s.len() == new_s.to_multiset().len());
    assert(old_s.len() == old_s.to_multiset().len());
}

/// Rearranges the elements in a random order: `rand`'s
/// `SliceRandom::shuffle` with the thread-local generator. The result holds
/// the same elements, each as often as before; which order comes out is
/// left to chance.
#[verifier::external_body]
fn shuffle_in_place<T>(v: &mut Vec<T>)
    ensures
        final(v)@.to_multiset() == old(v)@.to_multiset(),
{
    v.shuffle(&mut rand::rng());
}

/// A freshly shuffled play order for a playlist of `n` tracks.
fn new_deck(n: usize) -> (deck: Vec<usize>)
    ensures
        is_index_permutation(deck@, n as nat),
{
    let mut deck: Vec<usize> = Vec::new();
    let mut i: usize = 0;
    while i < n
        invariant
            i <= n,
            deck@.len() == i,
            forall|k: int| 0 <= k < i ==> deck@[k] == k,
        decreases n - i,
    {
        deck.push(i);
        i = i + 1;
    }
    assert(is_index_permutation(deck@, n as nat));
    let ghost before = deck@;
    shuffle_in_place(&mut deck);
    proof { lemma_rearranged_permutation(before, deck@, n as nat); }
    deck
}

/// Finds the first position of `x` in `v`.
fn find_value(v: &Vec<usize>, x: usize) -> (r: Option<usize>)
    ensures
        match r {
            Some(k) => index_of_value(v@, x) == Some(k as int) && k < v@.len() && v@[k as int] == x,
            None => index_of_value(v@, x) is None,
        },
{
    let mut k: usize = 0;
    while k < v.len()
        invariant
            k <= v@.len(),
            forall|j: int| 0 <= j < k ==> v@[j] != x,
        decreases v@.len() - k,
    {
        if v[k] == x {
            proof { lemma_index_of_value(v@, x, k as int); }
            return Some(k);
        }
        k = k + 1;
    }
    proof { lemma_index_of_value(v@, x, k as int); }
    None
}

/// Finds the first track of `list` whose path is `path`.
fn find_path(list: &Vec<Track>, path: &String) -> (r: Option<usize>)
    ensures
        match r {
            Some(k) => index_of_path(list@, path@) == Some(k as int) && k < list@.len(),
            None => index_of_path(list@, path@) is None,
        },
{
    let mut k: usize = 0;
    while k < list.len()
        invariant
            k <= list@.len(),
            forall|j: int| 0 <= j < k ==> !same_path(list@[j].path@, path@),
        decreases list@.len() - k,
    {
        if paths_equal(&list[k].path, path) {
            proof { lemma_index_of_path(list@, path@, k as int); }
            return Some(k);
        }
        k = k + 1;
    }
    proof { lemma_index_of_path(list@, path@, k as int); }
    None
}

/// The next playlist index for gapless or crossfade pre-roll.
pub open spec fn next_index_spec(
    current: usize,
    len: nat,
    shuffle: bool,
    shuffled_indices: Seq<usize>,
    shuffle_pos: usize,
    repeat: bool,
) -> Option<usize> {
    if len == 0 {
        None
    } else if shuffle {
        if shuffle_pos + 1 < shuffled_indices.len() {
            Some(shuffled_indices[shuffle_pos + 1])
        } else if repeat {
            Some(shuffled_indices[0])
        } else {
            None
        }
    } else {
        if current + 1 < len {
            Some((current + 1) as usize)
        } else if repeat {
            Some(0)
        } else {
            None
        }
    }
}

/// Determines the next playlist index: walks the shuffled order in shuffle
/// mode, the playlist order otherwise, wrapping around when `repeat` is on.
/// Returns `None` when the playlist ends and repeat is off.
pub fn resolve_next_index(
    current: usize,
    playlist: &[Track],
    shuffle: bool,
    shuffled_indices: &[usize],
    shuffle_pos: usize,
    repeat: bool,
) -> (r: Option<usize>)
    requires
        shuffle ==> shuffle_pos < usize::MAX,
        !shuffle ==> current < usize::MAX,
        shuffle && repeat && playlist@.len() > 0 ==> shuffled_indices@.len() > 0,
    ensures
        r == next_index_spec(
            current,
            playlist@.len(),
            shuffle,
            shuffled_indices@,
            shuffle_pos,
            repeat,
        ),
{
    if playlist.len() == 0 {
        return None;
    }
    if shuffle {
        let next = shuffle_pos + 1;
        if next < shuffled_indices.len() {
            Some(shuffled_indices[next])
        } else if repeat {
            Some(shuffled_indices[0])
        } else {
            None
        }
    } else {
        let next = current + 1;
        if next < playlist.len() {
            Some(next)
        } else if repeat {
            Some(0)
        } else {
            None
        }
    }
}

/// The engine's state as plain values.
pub ghost struct EngineModel {
    pub playlist: Seq<Track>,
    pub playlist_cpy: Seq<Track>,
    pub current_index: usize,
    pub playlist_idx: usize,
    pub shuffle: bool,
    pub repeat: bool,
    pub repeat_one: bool,
    pub shuffled_indices: Seq<usize>,
    pub shuffle_pos: usize,
    pub playing: bool,
    pub phase: CrossfadePhase,
}

/// The playback engine: the playlist, the position in it, the play modes and
/// the crossfade phase.
pub struct Engine {
    /// The working playlist (may be reordered by sort or shuffle).
    pub playlist: Vec<Track>,
    /// The playlist in the order it was set (restored by `SortBy(Normal)`).
    pub playlist_cpy: Vec<Track>,
    /// Index of the track the backend plays.
    pub current_index: usize,
    /// Index of the track the display shows (switches early during a fade).
    pub playlist_idx: usize,
    /// Whether shuffle mode is active.
    pub shuffle: bool,
    /// Whether repeat-all mode is active.
    pub repeat: bool,
    /// Whether repeat-one mode is active.
    pub repeat_one: bool,
    /// The shuffled play order: each playlist index once.
    pub shuffled_indices: Vec<usize>,
    /// Position of the current track in `shuffled_indices`.
    pub shuffle_pos: usize,
    /// Whether a track is playing (true) or paused / stopped (false).
    pub playing: bool,
    /// The crossfade phase.
    pub phase: CrossfadePhase,
}

impl View for Engine {
    type V = EngineModel;

    open spec fn view(&self) -> EngineModel {
        EngineModel {
            playlist: self.playlist@,
            playlist_cpy: self.playlist_cpy@,
            current_index: self.current_index,
            playlist_idx: self.playlist_idx,
            shuffle: self.shuffle,
            repeat: self.repeat,
            repeat_one: self.repeat_one,
            shuffled_indices: self.shuffled_indices@,
            shuffle_pos: self.shuffle_pos,
            playing: self.playing,
            phase: self.phase,
        }
    }
}

/// What every engine state satisfies: the shuffled order lists each
/// playlist index once, the saved original order holds the same tracks as
/// the playlist, and the current index is a position some playlist had.
pub open spec fn model_wf(m: EngineModel) -> bool {
    &&& is_index_permutation(m.shuffled_indices, m.playlist.len())
    &&& m.playlist_cpy.len() == m.playlist.len()
    &&& m.playlist_cpy.to_multiset() == m.playlist.to_multiset()
    &&& m.current_index < usize::MAX
}

/// The engine state after starting playlist entry `i` by an explicit choice.
pub open spec fn started(m: EngineModel, i: usize) -> EngineModel {
    EngineModel {
        phase: CrossfadePhase::Idle,
        current_index: i,
        shuffle_pos: shuffle_pos_for(m, i),
        playing: true,
        playlist_idx: i,
        ..m
    }
}

/// The shuffle position after entry `i` became current: its place in the
/// shuffled order in shuffle mode, unchanged otherwise.
pub open spec fn shuffle_pos_for(m: EngineModel, i: usize) -> usize {
    if m.shuffle {
        match index_of_value(m.shuffled_indices, i) {
            Some(k) => k as usize,
            None => m.shuffle_pos,
        }
    } else {
        m.shuffle_pos
    }
}

/// `PlayIndex(i)` / `JumpTo(i)`: abort any crossfade and play entry `i`;
/// nothing happens when `i` is past the end of the playlist.
pub open spec fn play_index_spec(m: EngineModel, i: usize) -> (EngineModel, Seq<Effect>) {
    if i < m.playlist.len() {
        (
            started(m, i),
            seq![
                Effect::AbortCrossfade,
                Effect::LoadTrack(i),
                Effect::Publish(Event::TrackChanged(i)),
                Effect::Publish(Event::StateChanged),
            ],
        )
    } else {
        (m, seq![])
    }
}

/// `SetPlaylist(list)`: replace the playlist (and its saved order) without
/// playing, with `deck` as the new shuffled order.
pub open spec fn set_playlist_spec(m: EngineModel, list: Seq<Track>, deck: Seq<usize>) -> (
    EngineModel,
    Seq<Effect>,
) {
    (
        EngineModel { playlist: list, playlist_cpy: list, shuffled_indices: deck, shuffle_pos: 0, ..m },
        seq![Effect::Publish(Event::PlaylistChanged)],
    )
}

/// `SetPlaylistAndPlayIndex(list, i)`: replace the playlist, then play
/// entry `i` if it exists.
pub open spec fn set_playlist_and_play_spec(
    m: EngineModel,
    list: Seq<Track>,
    i: usize,
    deck: Seq<usize>,
) -> (EngineModel, Seq<Effect>) {
    let m1 = EngineModel {
        playlist: list,
        playlist_cpy: list,
        shuffled_indices: deck,
        shuffle_pos: 0,
        ..m
    };
    if i < list.len() {
        (
            started(m1, i),
            seq![
                Effect::AbortCrossfade,
                Effect::LoadTrack(i),
                Effect::Publish(Event::PlaylistChanged),
                Effect::Publish(Event::TrackChanged(i)),
                Effect::Publish(Event::StateChanged),
            ],
        )
    } else {
        (m1, seq![])
    }
}

/// `Play`: resume output; a crossfade frozen by a pause resumes mixing.
pub open spec fn play_spec(m: EngineModel) -> (EngineModel, Seq<Effect>) {
    match m.phase {
        CrossfadePhase::PausedFading { next_index } => (
            EngineModel {
                phase: CrossfadePhase::Fading { next_index, ui_switched: false },
                playing: true,
                ..m
            },
            seq![
                Effect::ResumeCrossfade,
                Effect::BackendPlay,
                Effect::Publish(Event::StateChanged),
            ],
        ),
        _ => (
            EngineModel { playing: true, ..m },
            seq![Effect::BackendPlay, Effect::Publish(Event::StateChanged)],
        ),
    }
}

/// `Pause`: pause output; an active fade is frozen.
pub open spec fn pause_spec(m: EngineModel) -> (EngineModel, Seq<Effect>) {
    match m.phase {
        CrossfadePhase::Fading { next_index, .. } => (
            EngineModel {
                phase: CrossfadePhase::PausedFading { next_index },
                playing: false,
                ..m
            },
            seq![
                Effect::FreezeCrossfade,
                Effect::BackendPause,
                Effect::Publish(Event::StateChanged),
            ],
        ),
        _ => (
            EngineModel { playing: false, ..m },
            seq![Effect::BackendPause, Effect::Publish(Event::StateChanged)],
        ),
    }
}

/// `Stop`: end any crossfade, stop output and show the idle display.
pub open spec fn stop_spec(m: EngineModel) -> (EngineModel, Seq<Effect>) {
    (
        EngineModel { phase: CrossfadePhase::Idle, playing: false, ..m },
        seq![Effect::BackendStop, Effect::ResetDisplay, Effect::Publish(Event::StateChanged)],
    )
}

/// `Seek`: end any crossfade and seek the current track; playback goes on.
pub open spec fn seek_spec(m: EngineModel) -> (EngineModel, Seq<Effect>) {
    (
        EngineModel { phase: CrossfadePhase::Idle, playing: true, ..m },
        seq![Effect::SeekTrack(m.current_index)],
    )
}

/// `ToggleRepeat`: flip repeat-all; repeat-one goes off.
pub open spec fn toggle_repeat_spec(m: EngineModel) -> EngineModel {
    EngineModel { repeat: !m.repeat, repeat_one: false, ..m }
}

/// `ToggleRepeatOne`: flip repeat-one; repeat-all goes off.
pub open spec fn toggle_repeat_one_spec(m: EngineModel) -> EngineModel {
    EngineModel { repeat_one: !m.repeat_one, repeat: false, ..m }
}

/// `ToggleShuffle`: flip shuffle and turn repeat-one off. Turning shuffle on
/// installs `deck` as the shuffled order, starting from its first entry.
pub open spec fn toggle_shuffle_spec(m: EngineModel, deck: Seq<usize>) -> EngineModel {
    if !m.shuffle {
        EngineModel {
            shuffle: true,
            repeat_one: false,
            shuffled_indices: deck,
            shuffle_pos: 0,
            ..m
        }
    } else {
        EngineModel { shuffle: false, repeat_one: false, ..m }
    }
}

/// The orders `ToggleShuffle` may install: every index once, with the
/// current track first so it keeps playing at the head of the order.
pub open spec fn valid_shuffle_deck(m: EngineModel, deck: Seq<usize>) -> bool {
    &&& is_index_permutation(deck, m.playlist.len())
    &&& m.current_index < m.playlist.len() ==> deck[0] == m.current_index
}

/// Entry `i` becomes current because playback moved on to it.
pub open spec fn moved_to(m: EngineModel, i: usize) -> (EngineModel, Seq<Effect>) {
    (
        EngineModel { current_index: i, playing: true, playlist_idx: i, ..m },
        seq![Effect::LoadTrack(i), Effect::Publish(Event::TrackChanged(i))],
    )
}

/// Moving on to the following track, shared by `Next` and the natural end
/// of a track: the next entry of the shuffled order in shuffle mode (dealing
/// `reshuffled` as a new order when the old one is used up and repeat is on),
/// the next playlist entry otherwise (back to the first with repeat on).
/// Without repeat, or with an empty playlist, the end of the order stops
/// playback.
pub open spec fn advance_spec(m: EngineModel, reshuffled: Seq<usize>) -> (EngineModel, Seq<Effect>) {
    if m.shuffle {
        let pos = m.shuffle_pos + 1;
        if pos >= m.shuffled_indices.len() {
            if m.repeat && m.shuffled_indices.len() > 0 {
                moved_to(
                    EngineModel { shuffled_indices: reshuffled, shuffle_pos: 0, ..m },
                    reshuffled[0],
                )
            } else {
                (
                    EngineModel { shuffle_pos: pos as usize, playing: false, ..m },
                    seq![Effect::Publish(Event::StateChanged)],
                )
            }
        } else {
            moved_to(EngineModel { shuffle_pos: pos as usize, ..m }, m.shuffled_indices[pos])
        }
    } else if m.current_index + 1 < m.playlist.len() {
        moved_to(m, (m.current_index + 1) as usize)
    } else if m.repeat && m.playlist.len() > 0 {
        moved_to(m, 0)
    } else {
        (EngineModel { playing: false, ..m }, seq![Effect::Publish(Event::StateChanged)])
    }
}

/// What a skip does first: a quick fade-out when a crossfade is active,
/// then dropping the prepared next track.
pub open spec fn skip_prelude(m: EngineModel) -> Seq<Effect> {
    if m.phase.spec_is_active() {
        seq![Effect::FadeOutQuick, Effect::AbortCrossfade]
    } else {
        seq![Effect::AbortCrossfade]
    }
}

/// `Next`: interrupt any crossfade and move on to the following track.
pub open spec fn next_spec(m: EngineModel, reshuffled: Seq<usize>) -> (EngineModel, Seq<Effect>) {
    let r = advance_spec(EngineModel { phase: CrossfadePhase::Idle, ..m }, reshuffled);
    (r.0, skip_prelude(m) + r.1)
}

/// `Prev`: interrupt any crossfade; restart the current track when the
/// playhead is past the restart point, otherwise go to the preceding entry
/// (nothing more at the first entry).
pub open spec fn prev_spec(m: EngineModel, restart: bool) -> (EngineModel, Seq<Effect>) {
    let m0 = EngineModel { phase: CrossfadePhase::Idle, ..m };
    if restart {
        (m0, skip_prelude(m) + seq![Effect::RestartTrack(m.current_index)])
    } else if m.current_index > 0 {
        let r = moved_to(m0, (m.current_index - 1) as usize);
        (r.0, skip_prelude(m) + r.1)
    } else {
        (m0, skip_prelude(m))
    }
}

/// The current track ended on its own (playing, no crossfade): repeat-one
/// reloads it, otherwise playback moves on as for `Next`.
pub open spec fn track_finished_spec(m: EngineModel, reshuffled: Seq<usize>) -> (
    EngineModel,
    Seq<Effect>,
) {
    if m.playing && !m.phase.spec_is_active() {
        if m.repeat_one {
            moved_to(m, m.current_index)
        } else {
            advance_spec(m, reshuffled)
        }
    } else {
        (m, seq![])
    }
}

/// The playhead reached the crossfade trigger point while playing with no
/// crossfade: the next track (if any) is prepared and the fade begins.
pub open spec fn crossfade_trigger_spec(m: EngineModel) -> (EngineModel, Seq<Effect>) {
    if m.playing && m.phase == CrossfadePhase::Idle {
        match next_index_spec(
            m.current_index,
            m.playlist.len(),
            m.shuffle,
            m.shuffled_indices,
            m.shuffle_pos,
            m.repeat,
        ) {
            Some(n) => if n < m.playlist.len() {
                (
                    EngineModel {
                        phase: CrossfadePhase::Fading { next_index: n, ui_switched: false },
                        ..m
                    },
                    seq![Effect::PrepareNext(n)],
                )
            } else {
                (m, seq![])
            },
            None => (m, seq![]),
        }
    } else {
        (m, seq![])
    }
}

/// The fade finished (or the incoming track ran out): the incoming track
/// becomes current; the display switches now unless it already did.
pub open spec fn fade_complete_spec(m: EngineModel) -> (EngineModel, Seq<Effect>) {
    match m.phase {
        CrossfadePhase::Fading { next_index, ui_switched } => {
            let m0 = EngineModel { phase: CrossfadePhase::Idle, ..m };
            if next_index < m.playlist.len() {
                (
                    EngineModel {
                        current_index: next_index,
                        playing: true,
                        playlist_idx: next_index,
                        shuffle_pos: shuffle_pos_for(m, next_index),
                        ..m0
                    },
                    if ui_switched {
                        seq![Effect::SwapToNext(next_index)]
                    } else {
                        seq![
                            Effect::SwapToNext(next_index),
                            Effect::Publish(Event::TrackChanged(next_index)),
                        ]
                    },
                )
            } else {
                (m0, seq![])
            }
        },
        _ => (m, seq![]),
    }
}

/// The incoming track became louder than the outgoing one: the display
/// switches to it, once per fade.
pub open spec fn gain_crossover_spec(m: EngineModel) -> (EngineModel, Seq<Effect>) {
    match m.phase {
        CrossfadePhase::Fading { next_index, ui_switched: false } => {
            let m1 = EngineModel {
                phase: CrossfadePhase::Fading { next_index, ui_switched: true },
                ..m
            };
            if next_index < m.playlist.len() {
                (
                    EngineModel { playlist_idx: next_index, ..m1 },
                    seq![
                        Effect::ShowTrack(next_index),
                        Effect::Publish(Event::TrackChanged(next_index)),
                    ],
                )
            } else {
                (m1, seq![])
            }
        },
        _ => (m, seq![]),
    }
}

/// Installing a reordered playlist: the current track keeps playing and is
/// found again (by path) at its new position.
pub open spec fn reorder_spec(m: EngineModel, list: Seq<Track>) -> (EngineModel, Seq<Effect>) {
    let cur = if m.current_index < m.playlist.len() {
        match index_of_path(list, m.playlist[m.current_index as int].path@) {
            Some(k) => k as usize,
            None => m.current_index,
        }
    } else {
        m.current_index
    };
    (
        EngineModel { playlist: list, current_index: cur, playlist_idx: cur, ..m },
        seq![Effect::Publish(Event::PlaylistChanged)],
    )
}

/// `SortBy(op)`: the saved original order (`Normal`) or the playlist
/// stably sorted by title (`Alphabetical`).
pub open spec fn sort_by_spec(m: EngineModel, op: Options) -> (EngineModel, Seq<Effect>) {
    reorder_spec(
        m,
        match op {
            Options::Normal => m.playlist_cpy,
            Options::Alphabetical => sorted_by_title(m.playlist),
        },
    )
}

/// `JumpToPath(path)`: play the first entry with that path, if any.
pub open spec fn jump_to_path_spec(m: EngineModel, path: Seq<char>) -> (EngineModel, Seq<Effect>) {
    match index_of_path(m.playlist, path) {
        Some(k) => play_index_spec(m, k as usize),
        None => (m, seq![]),
    }
}

/// The commands the engine can carry out from state `m` without an
/// out-of-range index: restarting, seeking or stepping back needs the track
/// it acts on, and a skip needs room to count the shuffle position on.
pub open spec fn command_allowed(m: EngineModel, cmd: PlayerCommand, restart: bool) -> bool {
    match cmd {
        PlayerCommand::Next => m.shuffle ==> m.shuffle_pos < usize::MAX,
        PlayerCommand::Prev => {
            &&& restart ==> m.current_index < m.playlist.len()
            &&& !restart && m.current_index > 0 ==> m.current_index - 1 < m.playlist.len()
        },
        PlayerCommand::Seek => m.current_index < m.playlist.len(),
        _ => true,
    }
}

/// How command `cmd` takes state `m` to state `n` with effects `fx`.
/// Where a shuffle decides, `n` shows the order that came out and the
/// clause says what holds of every such order.
pub open spec fn command_post(
    m: EngineModel,
    cmd: PlayerCommand,
    restart: bool,
    n: EngineModel,
    fx: Seq<Effect>,
) -> bool {
    match cmd {
        PlayerCommand::Play => (n, fx) == play_spec(m),
        PlayerCommand::Pause => (n, fx) == pause_spec(m),
        PlayerCommand::Stop => (n, fx) == stop_spec(m),
        PlayerCommand::Seek => (n, fx) == seek_spec(m),
        PlayerCommand::Next => {
            &&& (n, fx) == next_spec(m, n.shuffled_indices)
            &&& n.shuffled_indices.to_multiset() == m.shuffled_indices.to_multiset()
        },
        PlayerCommand::Prev => (n, fx) == prev_spec(m, restart),
        PlayerCommand::ToggleShuffle => {
            &&& n == toggle_shuffle_spec(m, n.shuffled_indices)
            &&& fx == Seq::<Effect>::empty()
            &&& !m.shuffle ==> valid_shuffle_deck(m, n.shuffled_indices)
        },
        PlayerCommand::ToggleRepeat => n == toggle_repeat_spec(m) && fx == Seq::<Effect>::empty(),
        PlayerCommand::ToggleRepeatOne => {
            &&& n == toggle_repeat_one_spec(m)
            &&& fx == Seq::<Effect>::empty()
        },
        PlayerCommand::JumpTo(i) => (n, fx) == play_index_spec(m, i),
        PlayerCommand::PlayIndex(i) => (n, fx) == play_index_spec(m, i),
        PlayerCommand::JumpToPath(path) => (n, fx) == jump_to_path_spec(m, path@),
        PlayerCommand::SetPlaylist(list) => {
            &&& (n, fx) == set_playlist_spec(m, list@, n.shuffled_indices)
            &&& is_index_permutation(n.shuffled_indices, list@.len())
        },
        PlayerCommand::SetPlaylistAndPlayIndex(list, i) => {
            &&& (n, fx) == set_playlist_and_play_spec(m, list@, i, n.shuffled_indices)
            &&& is_index_permutation(n.shuffled_indices, list@.len())
        },
        PlayerCommand::AleatoryFullRandom => {
            &&& (n, fx) == reorder_spec(m, n.playlist)
            &&& n.playlist.to_multiset() == m.playlist.to_multiset()
        },
        PlayerCommand::SortBy(op) => (n, fx) == sort_by_spec(m, op),
        _ => n == m && fx == Seq::<Effect>::empty(),
    }
}

impl Engine {
    /// A new engine: empty playlist, paused, all modes off, no crossfade.
    pub fn new() -> (e: Engine)
        ensures
            e@ == (EngineModel {
                playlist: seq![],
                playlist_cpy: seq![],
                current_index: 0,
                playlist_idx: 0,
                shuffle: false,
                repeat: false,
                repeat_one: false,
                shuffled_indices: seq![],
                shuffle_pos: 0,
                playing: false,
                phase: CrossfadePhase::Idle,
            }),
            model_wf(e@),
    {
        Engine {
            playlist: Vec::new(),
            playlist_cpy: Vec::new(),
            current_index: 0,
            playlist_idx: 0,
            shuffle: false,
            repeat: false,
            repeat_one: false,
            shuffled_indices: Vec::new(),
            shuffle_pos: 0,
            playing: false,
            phase: CrossfadePhase::Idle,
        }
    }

    /// Makes entry `i` current after an explicit choice (play, jump).
    fn start_track(&mut self, i: usize)
        requires
            model_wf(old(self)@),
            i < old(self).playlist@.len(),
        ensures
            final(self)@ == started(old(self)@, i),
            model_wf(final(self)@),
    {
        proof { assert(self.playlist.len() == self.playlist@.len()); }
        self.phase = CrossfadePhase::Idle;
        self.current_index = i;
        if self.shuffle {
            match find_value(&self.shuffled_indices, i) {
                Some(pos) => { self.shuffle_pos = pos; },
                None => {},
            }
        }
        self.playing = true;
        self.playlist_idx = i;
    }

    /// `PlayIndex(index)`: aborts any crossfade and plays entry `index` at
    /// once; ignored when `index` is past the end of the playlist.
    pub fn play_index(&mut self, index: usize) -> (fx: Vec<Effect>)
        requires
            model_wf(old(self)@),
        ensures
            (final(self)@, fx@) == play_index_spec(old(self)@, index),
            model_wf(final(self)@),
    {
        let mut fx: Vec<Effect> = Vec::new();
        if index >= self.playlist.len() {
            return fx;
        }
        self.start_track(index);
        fx.push(Effect::AbortCrossfade);
        fx.push(Effect::LoadTrack(index));
        fx.push(Effect::Publish(Event::TrackChanged(index)));
        fx.push(Effect::Publish(Event::StateChanged));
        assert(fx@ =~= play_index_spec(old(self)@, index).1);
        fx
    }

    /// `SetPlaylist(list)`: replaces the playlist and its saved order, deals
    /// a new shuffled order, and publishes `PlaylistChanged`.
    pub fn set_playlist(&mut self, list: Vec<Track>) -> (fx: Vec<Effect>)
        requires
            model_wf(old(self)@),
        ensures
            (final(self)@, fx@) == set_playlist_spec(old(self)@, list@, final(self)@.shuffled_indices),
            model_wf(final(self)@),
    {
        self.shuffled_indices = new_deck(list.len());
        self.shuffle_pos = 0;
        self.playlist_cpy = clone_tracks(&list);
        self.playlist = list;
        let mut fx: Vec<Effect> = Vec::new();
        fx.push(Effect::Publish(Event::PlaylistChanged));
        assert(fx@ =~= seq![Effect::Publish(Event::PlaylistChanged)]);
        fx
    }

    /// `SetPlaylistAndPlayIndex(list, index)`: replaces the playlist, then
    /// plays entry `index` if it exists.
    pub fn set_playlist_and_play_index(&mut self, list: Vec<Track>, index: usize) -> (fx: Vec<Effect>)
        requires
            model_wf(old(self)@),
        ensures
            (final(self)@, fx@) == set_playlist_and_play_spec(
                old(self)@,
                list@,
                index,
                final(self)@.shuffled_indices,
            ),
            model_wf(final(self)@),
    {
        self.shuffled_indices = new_deck(list.len());
        self.shuffle_pos = 0;
        self.playlist_cpy = clone_tracks(&list);
        self.playlist = list;
        let mut fx: Vec<Effect> = Vec::new();
        if index < self.playlist.len() {
            self.start_track(index);
            fx.push(Effect::AbortCrossfade);
            fx.push(Effect::LoadTrack(index));
            fx.push(Effect::Publish(Event::PlaylistChanged));
            fx.push(Effect::Publish(Event::TrackChanged(index)));
            fx.push(Effect::Publish(Event::StateChanged));
        }
        fx
    }

    /// `Play`: resumes output; a crossfade frozen by a pause resumes.
    pub fn play(&mut self) -> (fx: Vec<Effect>)
        requires
            model_wf(old(self)@),
        ensures
            (final(self)@, fx@) == play_spec(old(self)@),
            model_wf(final(self)@),
    {
        let mut fx: Vec<Effect> = Vec::new();
        match self.phase {
            CrossfadePhase::PausedFading { next_index } => {
                fx.push(Effect::ResumeCrossfade);
                self.phase = CrossfadePhase::Fading { next_index, ui_switched: false };
            },
            _ => {},
        }
        fx.push(Effect::BackendPlay);
        self.playing = true;
        fx.push(Effect::Publish(Event::StateChanged));
        fx
    }

    /// `Pause`: pauses output; an active fade is frozen so it can resume.
    pub fn pause(&mut self) -> (fx: Vec<Effect>)
        requires
            model_wf(old(self)@),
        ensures
            (final(self)@, fx@) == pause_spec(old(self)@),
            model_wf(final(self)@),
    {
        let mut fx: Vec<Effect> = Vec::new();
        match self.phase {
            CrossfadePhase::Fading { next_index, .. } => {
                fx.push(Effect::FreezeCrossfade);
                self.phase = CrossfadePhase::PausedFading { next_index };
            },
            _ => {},
        }
        fx.push(Effect::BackendPause);
        self.playing = false;
        fx.push(Effect::Publish(Event::StateChanged));
        fx
    }

    /// `Stop`: ends any crossfade, stops output and resets the display.
    pub fn stop(&mut self) -> (fx: Vec<Effect>)
        requires
            model_wf(old(self)@),
        ensures
            (final(self)@, fx@) == stop_spec(old(self)@),
            model_wf(final(self)@),
    {
        self.phase = CrossfadePhase::Idle;
        self.playing = false;
        let mut fx: Vec<Effect> = Vec::new();
        fx.push(Effect::BackendStop);
        fx.push(Effect::ResetDisplay);
        fx.push(Effect::Publish(Event::StateChanged));
        fx
    }

    /// `Seek`: ends any crossfade and seeks within the current track.
    pub fn seek(&mut self) -> (fx: Vec<Effect>)
        requires
            model_wf(old(self)@),
            old(self).current_index < old(self).playlist@.len(),
        ensures
            (final(self)@, fx@) == seek_spec(old(self)@),
            model_wf(final(self)@),
    {
        self.phase = CrossfadePhase::Idle;
        self.playing = true;
        let mut fx: Vec<Effect> = Vec::new();
        fx.push(Effect::SeekTrack(self.current_index));
        fx
    }

    /// `ToggleRepeat`: flips repeat-all and turns repeat-one off.
    pub fn toggle_repeat(&mut self)
        requires
            model_wf(old(self)@),
        ensures
            final(self)@ == toggle_repeat_spec(old(self)@),
            model_wf(final(self)@),
    {
        self.repeat = !self.repeat;
        self.repeat_one = false;
    }

    /// `ToggleRepeatOne`: flips repeat-one and turns repeat-all off.
    pub fn toggle_repeat_one(&mut self)
        requires
            model_wf(old(self)@),
        ensures
            final(self)@ == toggle_repeat_one_spec(old(self)@),
            model_wf(final(self)@),
    {
        self.repeat_one = !self.repeat_one;
        self.repeat = false;
    }

    /// `ToggleShuffle`: flips shuffle and turns repeat-one off. Turning it on
    /// deals a new shuffled order with the current track first.
    pub fn toggle_shuffle(&mut self)
        requires
            model_wf(old(self)@),
        ensures
            final(self)@ == toggle_shuffle_spec(old(self)@, final(self)@.shuffled_indices),
            !old(self).shuffle ==> valid_shuffle_deck(old(self)@, final(self)@.shuffled_indices),
            model_wf(final(self)@),
    {
        self.shuffle = !self.shuffle;
        self.repeat_one = false;
        if self.shuffle {
            let mut deck = new_deck(self.playlist.len());
            match find_value(&deck, self.current_index) {
                Some(pos) => {
                    let ghost d0 = deck@;
                    let first = deck[0];
                    let moved = deck[pos];
                    deck.set(0, moved);
                    deck.set(pos, first);
                    proof {
                        assert(deck@ =~= d0.update(0, d0[pos as int]).update(pos as int, d0[0]));
                        assert forall|a: int, b: int| 0 <= a < b < deck@.len() implies deck@[a] != deck@[b] by {
                            assert(d0.no_duplicates());
                        }
                        assert(is_index_permutation(deck@, self.playlist@.len()));
                    }
                },
                None => {
                    proof {
                        if self.current_index < self.playlist@.len() {
                            lemma_index_permutation_contains(deck@, self.playlist@.len(), self.current_index);
                            let k = choose|k: int| 0 <= k < deck@.len() && deck@[k] == self.current_index;
                            reveal(index_of_value);
                            assert(false);
                        }
                    }
                },
            }
            self.shuffled_indices = deck;
            self.shuffle_pos = 0;
        }
    }
    /// Entry `i` becomes current because playback moved on to it.
    fn move_to(&mut self, i: usize, fx: &mut Vec<Effect>)
        requires
            model_wf(old(self)@),
            i < old(self).playlist@.len(),
        ensures
            final(self)@ == moved_to(old(self)@, i).0,
            final(fx)@ == old(fx)@ + moved_to(old(self)@, i).1,
            model_wf(final(self)@),
    {
        proof { assert(self.playlist.len() == self.playlist@.len()); }
        self.current_index = i;
        self.playing = true;
        self.playlist_idx = i;
        fx.push(Effect::LoadTrack(i));
        fx.push(Effect::Publish(Event::TrackChanged(i)));
        proof {
            assert(fx@ =~= old(fx)@ + moved_to(old(self)@, i).1);
        }
    }

    /// Moves on to the following track (see [`advance_spec`]).
    fn advance(&mut self, fx: &mut Vec<Effect>)
        requires
            model_wf(old(self)@),
            old(self).shuffle ==> old(self).shuffle_pos < usize::MAX,
        ensures
            final(self)@ == advance_spec(old(self)@, final(self)@.shuffled_indices).0,
            final(fx)@ == old(fx)@ + advance_spec(old(self)@, final(self)@.shuffled_indices).1,
            final(self)@.shuffled_indices.to_multiset() == old(self)@.shuffled_indices.to_multiset(),
            model_wf(final(self)@),
    {
        if self.shuffle {
            self.shuffle_pos = self.shuffle_pos + 1;
            if self.shuffle_pos >= self.shuffled_indices.len() {
                if self.repeat && self.shuffled_indices.len() > 0 {
                    let ghost before = self.shuffled_indices@;
                    shuffle_in_place(&mut self.shuffled_indices);
                    proof {
                        lemma_rearranged_permutation(before, self.shuffled_indices@, self.playlist@.len());
                    }
                    self.shuffle_pos = 0;
                } else {
                    self.playing = false;
                    fx.push(Effect::Publish(Event::StateChanged));
                    proof {
                        assert(fx@ =~= old(fx)@ + seq![Effect::Publish(Event::StateChanged)]);
                    }
                    return;
                }
            }
            let i = self.shuffled_indices[self.shuffle_pos];
            self.move_to(i, fx);
        } else if self.current_index + 1 < self.playlist.len() {
            let i = self.current_index + 1;
            self.move_to(i, fx);
        } else if self.repeat && self.playlist.len() > 0 {
            self.move_to(0, fx);
        } else {
            self.playing = false;
            fx.push(Effect::Publish(Event::StateChanged));
            proof {
                assert(fx@ =~= old(fx)@ + seq![Effect::Publish(Event::StateChanged)]);
            }
        }
    }

    /// The effects that open a skip: a quick fade-out when a crossfade is
    /// active, then dropping the prepared next track; the phase goes idle.
    fn begin_skip(&mut self) -> (fx: Vec<Effect>)
        requires
            model_wf(old(self)@),
        ensures
            final(self)@ == (EngineModel { phase: CrossfadePhase::Idle, ..old(self)@ }),
            fx@ == skip_prelude(old(self)@),
            model_wf(final(self)@),
    {
        let mut fx: Vec<Effect> = Vec::new();
        if self.phase.is_active() {
            fx.push(Effect::FadeOutQuick);
        }
        self.phase = CrossfadePhase::Idle;
        fx.push(Effect::AbortCrossfade);
        proof {
            assert(fx@ =~= skip_prelude(old(self)@));
        }
        fx
    }

    /// `Next`: interrupts any crossfade and moves on to the following track,
    /// respecting shuffle and repeat.
    pub fn next(&mut self) -> (fx: Vec<Effect>)
        requires
            model_wf(old(self)@),
            old(self).shuffle ==> old(self).shuffle_pos < usize::MAX,
        ensures
            (final(self)@, fx@) == next_spec(old(self)@, final(self)@.shuffled_indices),
            final(self)@.shuffled_indices.to_multiset() == old(self)@.shuffled_indices.to_multiset(),
            model_wf(final(self)@),
    {
        let mut fx = self.begin_skip();
        self.advance(&mut fx);
        fx
    }

    /// `Prev`: interrupts any crossfade; restarts the current track when
    /// `restart` (the playhead is past the restart point), otherwise goes to
    /// the preceding entry.
    pub fn prev(&mut self, restart: bool) -> (fx: Vec<Effect>)
        requires
            model_wf(old(self)@),
            restart ==> old(self).current_index < old(self).playlist@.len(),
            !restart && old(self).current_index > 0 ==> old(self).current_index - 1
                < old(self).playlist@.len(),
        ensures
            (final(self)@, fx@) == prev_spec(old(self)@, restart),
            model_wf(final(self)@),
    {
        let mut fx = self.begin_skip();
        if restart {
            fx.push(Effect::RestartTrack(self.current_index));
            proof {
                assert(fx@ =~= skip_prelude(old(self)@) + seq![Effect::RestartTrack(old(self).current_index)]);
            }
        } else if self.current_index > 0 {
            let i = self.current_index - 1;
            self.move_to(i, &mut fx);
        }
        fx
    }

    /// The current track ended on its own: repeat-one reloads it, otherwise
    /// playback moves on as for `Next`. Ignored while paused or fading.
    pub fn track_finished(&mut self) -> (fx: Vec<Effect>)
        requires
            model_wf(old(self)@),
            old(self).playing && !old(self).phase.spec_is_active() ==> {
                &&& old(self).repeat_one ==> old(self).current_index < old(self).playlist@.len()
                &&& !old(self).repeat_one && old(self).shuffle ==> old(self).shuffle_pos < usize::MAX
            },
        ensures
            (final(self)@, fx@) == track_finished_spec(old(self)@, final(self)@.shuffled_indices),
            final(self)@.shuffled_indices.to_multiset() == old(self)@.shuffled_indices.to_multiset(),
            model_wf(final(self)@),
    {
        let mut fx: Vec<Effect> = Vec::new();
        if self.playing && !self.phase.is_active() {
            if self.repeat_one {
                let i = self.current_index;
                self.move_to(i, &mut fx);
                proof { assert(fx@ =~= moved_to(old(self)@, i).1); }
            } else {
                self.advance(&mut fx);
                proof { assert(fx@ =~= advance_spec(old(self)@, self.shuffled_indices@).1); }
            }
        }
        fx
    }

    /// The next playlist index for crossfade pre-roll (see
    /// [`resolve_next_index`]).
    pub fn next_index(&self) -> (r: Option<usize>)
        requires
            model_wf(self@),
            self.shuffle ==> self.shuffle_pos < usize::MAX,
        ensures
            r == next_index_spec(
                self.current_index,
                self.playlist@.len(),
                self.shuffle,
                self.shuffled_indices@,
                self.shuffle_pos,
                self.repeat,
            ),
    {
        resolve_next_index(
            self.current_index,
            self.playlist.as_slice(),
            self.shuffle,
            self.shuffled_indices.as_slice(),
            self.shuffle_pos,
            self.repeat,
        )
    }

    /// The playhead reached the crossfade trigger point: when playing with
    /// no crossfade and a next track exists, it is prepared and fading starts.
    pub fn crossfade_trigger(&mut self) -> (fx: Vec<Effect>)
        requires
            model_wf(old(self)@),
            old(self).shuffle ==> old(self).shuffle_pos < usize::MAX,
        ensures
            (final(self)@, fx@) == crossfade_trigger_spec(old(self)@),
            model_wf(final(self)@),
    {
        let mut fx: Vec<Effect> = Vec::new();
        if self.playing && self.phase == CrossfadePhase::Idle {
            match self.next_index() {
                Some(n) => {
                    if n < self.playlist.len() {
                        fx.push(Effect::PrepareNext(n));
                        self.phase = CrossfadePhase::Fading { next_index: n, ui_switched: false };
                    }
                },
                None => {},
            }
        }
        fx
    }

    /// The fade finished: the incoming track becomes current.
    pub fn fade_complete(&mut self) -> (fx: Vec<Effect>)
        requires
            model_wf(old(self)@),
        ensures
            (final(self)@, fx@) == fade_complete_spec(old(self)@),
            model_wf(final(self)@),
    {
        let mut fx: Vec<Effect> = Vec::new();
        match self.phase {
            CrossfadePhase::Fading { next_index, ui_switched } => {
                self.phase = CrossfadePhase::Idle;
                if next_index < self.playlist.len() {
                    self.current_index = next_index;
                    fx.push(Effect::SwapToNext(next_index));
                    self.playing = true;
                    self.playlist_idx = next_index;
                    if self.shuffle {
                        match find_value(&self.shuffled_indices, next_index) {
                            Some(pos) => { self.shuffle_pos = pos; },
                            None => {},
                        }
                    }
                    if !ui_switched {
                        fx.push(Effect::Publish(Event::TrackChanged(next_index)));
                    }
                }
            },
            _ => {},
        }
        fx
    }

    /// The incoming track became louder than the outgoing one: the display
    /// switches to it (once per fade).
    pub fn gain_crossover(&mut self) -> (fx: Vec<Effect>)
        requires
            model_wf(old(self)@),
        ensures
            (final(self)@, fx@) == gain_crossover_spec(old(self)@),
            model_wf(final(self)@),
    {
        let mut fx: Vec<Effect> = Vec::new();
        match self.phase {
            CrossfadePhase::Fading { next_index, ui_switched: false } => {
                self.phase = CrossfadePhase::Fading { next_index, ui_switched: true };
                if next_index < self.playlist.len() {
                    fx.push(Effect::ShowTrack(next_index));
                    self.playlist_idx = next_index;
                    fx.push(Effect::Publish(Event::TrackChanged(next_index)));
                }
            },
            _ => {},
        }
        fx
    }

    /// The track the display shows, if the playlist has it.
    pub fn current_track(&self) -> (t: Option<&Track>)
        ensures
            match t {
                Some(t) => self.playlist_idx < self.playlist@.len() && *t == self.playlist@[self.playlist_idx as int],
                None => self.playlist_idx >= self.playlist@.len(),
            },
    {
        if self.playlist_idx < self.playlist.len() {
            Some(&self.playlist[self.playlist_idx])
        } else {
            None
        }
    }

    /// The command channel closed: the engine publishes `Shutdown`.
    pub fn shutdown(&self) -> (fx: Vec<Effect>)
        ensures
            fx@ == seq![Effect::Publish(Event::Shutdown)],
    {
        let mut fx: Vec<Effect> = Vec::new();
        fx.push(Effect::Publish(Event::Shutdown));
        fx
    }

    /// Installs a reordered playlist, finding the current track again by path.
    fn reorder(&mut self, list: Vec<Track>) -> (fx: Vec<Effect>)
        requires
            model_wf(old(self)@),
            list@.len() == old(self).playlist@.len(),
            list@.to_multiset() == old(self).playlist@.to_multiset(),
        ensures
            (final(self)@, fx@) == reorder_spec(old(self)@, list@),
            model_wf(final(self)@),
    {
        let cur_path: Option<String> = if self.current_index < self.playlist.len() {
            Some(self.playlist[self.current_index].path.clone())
        } else {
            None
        };
        self.playlist = list;
        match cur_path {
            Some(p) => {
                match find_path(&self.playlist, &p) {
                    Some(k) => { self.current_index = k; },
                    None => {},
                }
            },
            None => {},
        }
        proof { assert(self.playlist.len() == self.playlist@.len()); }
        self.playlist_idx = self.current_index;
        let mut fx: Vec<Effect> = Vec::new();
        fx.push(Effect::Publish(Event::PlaylistChanged));
        fx
    }

    /// `SortBy(op)`: restores the original order (`Normal`) or sorts the
    /// playlist by title (`Alphabetical`); the current track keeps playing.
    pub fn sort_by(&mut self, op: Options) -> (fx: Vec<Effect>)
        requires
            model_wf(old(self)@),
        ensures
            (final(self)@, fx@) == sort_by_spec(old(self)@, op),
            model_wf(final(self)@),
    {
        let list = match op {
            Options::Normal => clone_tracks(&self.playlist_cpy),
            Options::Alphabetical => sort_by_title(&self.playlist),
        };
        proof { lemma_sorted_by_title_permutes(self.playlist@); }
        self.reorder(list)
    }

    /// `AleatoryFullRandom`: shuffles the playlist itself in place; the
    /// current track keeps playing at its new position.
    pub fn aleatory_full_random(&mut self) -> (fx: Vec<Effect>)
        requires
            model_wf(old(self)@),
        ensures
            (final(self)@, fx@) == reorder_spec(old(self)@, final(self)@.playlist),
            final(self)@.playlist.to_multiset() == old(self)@.playlist.to_multiset(),
            model_wf(final(self)@),
    {
        let mut list = clone_tracks(&self.playlist);
        shuffle_in_place(&mut list);
        proof {
            assert(list@.len() == list@.to_multiset().len());
            assert(self.playlist@.len() == self.playlist@.to_multiset().len());
        }
        self.reorder(list)
    }

    /// `JumpToPath(path)`: plays the first entry with that path, if any.
    pub fn jump_to_path(&mut self, path: &String) -> (fx: Vec<Effect>)
        requires
            model_wf(old(self)@),
        ensures
            (final(self)@, fx@) == jump_to_path_spec(old(self)@, path@),
            model_wf(final(self)@),
    {
        match find_path(&self.playlist, path) {
            Some(k) => self.play_index(k),
            None => Vec::new(),
        }
    }
    /// Processes one command. `restart` tells a `Prev` whether the playhead
    /// is past the restart point (more than three seconds into the track);
    /// other commands ignore it. Commands the engine has no part in (`Load`,
    /// `Samples`, `Position`, `ReloadCurrent`, `GetPluginsData`,
    /// `SetBitPerfectBackend`) change nothing.
    pub fn handle_command(&mut self, cmd: PlayerCommand, restart: bool) -> (fx: Vec<Effect>)
        requires
            model_wf(old(self)@),
            command_allowed(old(self)@, cmd, restart),
        ensures
            command_post(old(self)@, cmd, restart, final(self)@, fx@),
            model_wf(final(self)@),
    {
        match cmd {
            PlayerCommand::Play => self.play(),
            PlayerCommand::Pause => self.pause(),
            PlayerCommand::Stop => self.stop(),
            PlayerCommand::Seek => self.seek(),
            PlayerCommand::Next => self.next(),
            PlayerCommand::Prev => self.prev(restart),
            PlayerCommand::ToggleShuffle => {
                self.toggle_shuffle();
                Vec::new()
            },
            PlayerCommand::ToggleRepeat => {
                self.toggle_repeat();
                Vec::new()
            },
            PlayerCommand::ToggleRepeatOne => {
                self.toggle_repeat_one();
                Vec::new()
            },
            PlayerCommand::JumpTo(i) => self.play_index(i),
            PlayerCommand::PlayIndex(i) => self.play_index(i),
            PlayerCommand::JumpToPath(path) => self.jump_to_path(&path),
            PlayerCommand::SetPlaylist(list) => self.set_playlist(list),
            PlayerCommand::SetPlaylistAndPlayIndex(list, i) => self.set_playlist_and_play_index(list, i),
            PlayerCommand::AleatoryFullRandom => self.aleatory_full_random(),
            PlayerCommand::SortBy(op) => self.sort_by(op),
            _ => Vec::new(),
        }
    }
}

/// Every index below `n` occurs in an index permutation of length `n`.
pub proof fn lemma_index_permutation_contains(s: Seq<usize>, n: nat, v: usize)
    requires
        is_index_permutation(s, n),
        v < n,
    ensures
        s.contains(v),
{
    let t = s.map_values(|x: usize| x as int);
    assert(t.no_duplicates()) by {
        assert forall|i: int, j: int| 0 <= i < t.len() && 0 <= j < t.len() && i != j implies t[i] != t[j] by {
            assert(s[i] != s[j]);
        }
    }
    t.unique_seq_to_set();
    vstd::set_lib::lemma_int_range(0, n as int);
    let r = vstd::set_lib::set_int_range(0, n as int);
    assert(t.to_set().subset_of(r)) by {
        assert forall|x: int| t.to_set().contains(x) implies r.contains(x) by {
            assert(t.contains(x));
            let i = choose|i: int| 0 <= i < t.len() && t[i] == x;
            assert(s[i] < n);
        }
    }
    broadcast use vstd::seq_lib::seq_to_set_is_finite;
    vstd::set_lib::lemma_subset_equality(t.to_set(), r);
    assert(r.contains(v as int));
    assert(t.to_set().contains(v as int));
    assert(t.contains(v as int));
    let i = choose|i: int| 0 <= i < t.len() && t[i] == v as int;
    assert(s[i] == v);
}

} // verus!
