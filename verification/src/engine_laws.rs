//! Properties that hold across the engine's operations.

use vstd::prelude::*;
use crate::command::{Options, PlayerCommand};
use crate::crossfade::CrossfadePhase;
use crate::engine::{
    Effect, EngineModel, model_wf, advance_spec, skip_prelude, command_allowed, command_post,
    index_of_path, lemma_index_of_path_in_range, next_spec, prev_spec, moved_to, track_finished_spec,
    crossfade_trigger_spec, fade_complete_spec, gain_crossover_spec, pause_spec, play_spec,
    toggle_repeat_spec, toggle_repeat_one_spec, reorder_spec, sort_by_spec, toggle_shuffle_spec,
    valid_shuffle_deck, is_index_permutation, lemma_index_of_path_found, play_index_spec, stop_spec,
    seek_spec, lemma_index_permutation_contains, index_of_value,
};
use crate::sort::{sorted_by_title, lemma_sorted_by_title_permutes};
use crate::event::Event;
use crate::track::Track;
use crate::paths::same_path;

verus! {


/// The playlist entry an effect acts on, if it names one.
pub open spec fn effect_index(e: Effect) -> Option<usize> {
    match e {
        Effect::LoadTrack(i) => Some(i),
        Effect::RestartTrack(i) => Some(i),
        Effect::SeekTrack(i) => Some(i),
        Effect::PrepareNext(i) => Some(i),
        Effect::SwapToNext(i) => Some(i),
        Effect::ShowTrack(i) => Some(i),
        Effect::Publish(Event::TrackChanged(i)) => Some(i),
        _ => None,
    }
}

/// Every entry the effects name exists in a playlist of `len` tracks.
pub open spec fn effects_in_range(fx: Seq<Effect>, len: nat) -> bool {
    forall|k: int|
        0 <= k < fx.len() ==> match effect_index(#[trigger] fx[k]) {
            Some(i) => i < len,
            None => true,
        }
}

proof fn lemma_advance_in_range(m: EngineModel, r: Seq<usize>)
    requires
        model_wf(m),
        model_wf(advance_spec(m, r).0),
        advance_spec(m, r).0.playlist == m.playlist,
        m.shuffle && m.shuffle_pos + 1 >= m.shuffled_indices.len() && m.repeat ==> r == advance_spec(
            m,
            r,
        ).0.shuffled_indices,
    ensures
        effects_in_range(advance_spec(m, r).1, m.playlist.len()),
{
    if m.shuffle {
        let pos = m.shuffle_pos + 1;
        if pos < m.shuffled_indices.len() {
            assert(m.shuffled_indices[pos] < m.playlist.len());
        }
    }
}

proof fn lemma_concat_in_range(a: Seq<Effect>, b: Seq<Effect>, len: nat)
    requires
        effects_in_range(a, len),
        effects_in_range(b, len),
    ensures
        effects_in_range(a + b, len),
{
    assert forall|k: int| 0 <= k < (a + b).len() implies match effect_index(#[trigger] (a + b)[k]) {
        Some(i) => i < len,
        None => true,
    } by {
        if k < a.len() {
            assert((a + b)[k] == a[k]);
        } else {
            assert((a + b)[k] == b[k - a.len()]);
        }
    }
}

proof fn lemma_next_in_range(m: EngineModel, r: Seq<usize>)
    requires
        model_wf(m),
        model_wf(next_spec(m, r).0),
        next_spec(m, r).0.shuffled_indices == r || !(m.shuffle && m.repeat),
    ensures
        effects_in_range(next_spec(m, r).1, m.playlist.len()),
{
    let m0 = EngineModel { phase: CrossfadePhase::Idle, ..m };
    lemma_advance_in_range(m0, r);
    lemma_concat_in_range(skip_prelude(m), advance_spec(m0, r).1, m.playlist.len());
}

proof fn lemma_prev_in_range(m: EngineModel, restart: bool)
    requires
        restart ==> m.current_index < m.playlist.len(),
        !restart && m.current_index > 0 ==> m.current_index - 1 < m.playlist.len(),
    ensures
        effects_in_range(prev_spec(m, restart).1, m.playlist.len()),
{
    let m0 = EngineModel { phase: CrossfadePhase::Idle, ..m };
    if restart {
        lemma_concat_in_range(skip_prelude(m), seq![Effect::RestartTrack(m.current_index)], m.playlist.len());
    } else if m.current_index > 0 {
        lemma_concat_in_range(
            skip_prelude(m),
            moved_to(m0, (m.current_index - 1) as usize).1,
            m.playlist.len(),
        );
    }
}

/// Whatever a command does from a valid state, the playlist entries its
/// effects load, seek, prepare, swap in, show or announce all exist.
#[verifier::spinoff_prover]
pub proof fn lemma_command_effects_in_range(
    m: EngineModel,
    cmd: PlayerCommand,
    restart: bool,
    n: EngineModel,
    fx: Seq<Effect>,
)
    requires
        model_wf(m),
        model_wf(n),
        command_allowed(m, cmd, restart),
        command_post(m, cmd, restart, n, fx),
    ensures
        effects_in_range(fx, n.playlist.len()),
{
    broadcast use vstd::seq_lib::group_to_multiset_ensures;
    match cmd {
        PlayerCommand::Next => {
            lemma_next_in_range(m, n.shuffled_indices);
        },
        PlayerCommand::Prev => {
            lemma_prev_in_range(m, restart);
        },
        PlayerCommand::JumpToPath(path) => {
            lemma_index_of_path_in_range(m.playlist, path@);
        },
        _ => {},
    }
}


/// The observations the host reports while playing (the current track
/// ended, a crossfade trigger point, a fade complete, a gain crossover)
/// only ever name playlist entries that exist.
pub proof fn lemma_observation_effects_in_range(m: EngineModel, r: Seq<usize>)
    requires
        model_wf(m),
        m.playing && !m.phase.spec_is_active() ==> {
            &&& m.repeat_one ==> m.current_index < m.playlist.len()
        },
        model_wf(track_finished_spec(m, r).0),
        track_finished_spec(m, r).0.shuffled_indices == r || !(m.shuffle && m.repeat),
    ensures
        effects_in_range(track_finished_spec(m, r).1, m.playlist.len()),
        effects_in_range(crossfade_trigger_spec(m).1, m.playlist.len()),
        effects_in_range(fade_complete_spec(m).1, m.playlist.len()),
        effects_in_range(gain_crossover_spec(m).1, m.playlist.len()),
{
    if m.playing && !m.phase.spec_is_active() && !m.repeat_one {
        lemma_advance_in_range(m, r);
    }
}

/// Repeat-all and repeat-one are never on together: no command turns both
/// on from a state where they are not. Toggling repeat-all or shuffle turns
/// repeat-one off, toggling repeat-one turns repeat-all off, and no other
/// command changes the three modes.
pub proof fn lemma_repeat_modes_exclusive(
    m: EngineModel,
    cmd: PlayerCommand,
    restart: bool,
    n: EngineModel,
    fx: Seq<Effect>,
)
    requires
        !(m.repeat && m.repeat_one),
        command_post(m, cmd, restart, n, fx),
    ensures
        !(n.repeat && n.repeat_one),
        cmd is ToggleRepeat || cmd is ToggleShuffle ==> !n.repeat_one,
        cmd is ToggleRepeatOne ==> !n.repeat,
        !(cmd is ToggleRepeat || cmd is ToggleRepeatOne || cmd is ToggleShuffle) ==> {
            &&& n.shuffle == m.shuffle
            &&& n.repeat == m.repeat
            &&& n.repeat_one == m.repeat_one
        },
{
    match cmd {
        PlayerCommand::Next => {
            let m0 = EngineModel { phase: CrossfadePhase::Idle, ..m };
            assert(n.repeat == m.repeat && n.repeat_one == m.repeat_one);
        },
        PlayerCommand::Prev => {},
        PlayerCommand::JumpToPath(path) => {},
        PlayerCommand::SortBy(op) => {},
        _ => {},
    }
}

/// Pausing in the middle of a fade and playing again resumes the same fade
/// (same incoming track): the gains are frozen on pause and restored on play.
pub proof fn lemma_pause_then_play_resumes_fade(m: EngineModel)
    requires
        m.phase is Fading,
    ensures
        pause_spec(m).0.phase == (CrossfadePhase::PausedFading { next_index: m.phase->Fading_next_index }),
        play_spec(pause_spec(m).0).0.phase == (CrossfadePhase::Fading {
            next_index: m.phase->Fading_next_index,
            ui_switched: false,
        }),
        play_spec(pause_spec(m).0).0.playing,
        pause_spec(m).1[0] == Effect::FreezeCrossfade,
        play_spec(pause_spec(m).0).1[0] == Effect::ResumeCrossfade,
{
}

/// Toggling repeat-all twice gives back the repeat-all setting, with
/// repeat-one off.
pub proof fn lemma_toggle_repeat_twice(m: EngineModel)
    ensures
        toggle_repeat_spec(toggle_repeat_spec(m)) == (EngineModel { repeat_one: false, ..m }),
        toggle_repeat_one_spec(toggle_repeat_one_spec(m)) == (EngineModel { repeat: false, ..m }),
{
}

proof fn lemma_found_after_rearranging(a: Seq<Track>, b: Seq<Track>, i: int) -> (k: int)
    requires
        0 <= i < a.len(),
        a.to_multiset() == b.to_multiset(),
    ensures
        0 <= k < b.len(),
        b[k] == a[i],
{
    a.to_multiset_ensures();
    b.to_multiset_ensures();
    assert(a.contains(a[i]));
    assert(a.to_multiset().count(a[i]) > 0);
    assert(b.to_multiset().count(a[i]) > 0);
    assert(b.contains(a[i]));
    choose|k: int| 0 <= k < b.len() && b[k] == a[i]
}

/// Reordering the playlist (sorting either way, or the full random
/// shuffle) keeps the current track current: it is found again, by path,
/// at its new position (the first entry naming the same file), and the
/// display follows it.
pub proof fn lemma_reorder_keeps_current(m: EngineModel, list: Seq<Track>)
    requires
        m.current_index < m.playlist.len() <= usize::MAX,
        list.to_multiset() == m.playlist.to_multiset(),
    ensures
        reorder_spec(m, list).0.current_index < list.len(),
        same_path(list[reorder_spec(m, list).0.current_index as int].path@, m.playlist[m.current_index as int].path@),
        reorder_spec(m, list).0.playlist_idx == reorder_spec(m, list).0.current_index,
{
    let t = m.playlist[m.current_index as int];
    let k = lemma_found_after_rearranging(m.playlist, list, m.current_index as int);
    lemma_index_of_path_found(list, t.path@, k);
    let j = index_of_path(list, t.path@)->Some_0;
    assert(0 <= j < list.len() && same_path(list[j].path@, t.path@));
    m.playlist.to_multiset_ensures();
    list.to_multiset_ensures();
    assert(list.len() == m.playlist.len());
    assert(reorder_spec(m, list).0.current_index == j as usize);
}

/// `SortBy` (either order) and `AleatoryFullRandom` keep the current track
/// current.
pub proof fn lemma_sorting_keeps_current(m: EngineModel, op: Options, shuffled: Seq<Track>)
    requires
        model_wf(m),
        m.current_index < m.playlist.len() <= usize::MAX,
        shuffled.to_multiset() == m.playlist.to_multiset(),
    ensures
        ({
            let n = sort_by_spec(m, op).0;
            n.current_index < n.playlist.len() && same_path(
                n.playlist[n.current_index as int].path@,
                m.playlist[m.current_index as int].path@,
            )
        }),
        ({
            let n = reorder_spec(m, shuffled).0;
            n.current_index < n.playlist.len() && same_path(
                n.playlist[n.current_index as int].path@,
                m.playlist[m.current_index as int].path@,
            )
        }),
{
    lemma_sorted_by_title_permutes(m.playlist);
    let list = match op {
        Options::Normal => m.playlist_cpy,
        Options::Alphabetical => sorted_by_title(m.playlist),
    };
    lemma_reorder_keeps_current(m, list);
    lemma_reorder_keeps_current(m, shuffled);
}

/// Turning shuffle on keeps the current track playing at the head of the
/// new shuffled order, and the order walks every track exactly once.
pub proof fn lemma_shuffle_on_starts_at_current(m: EngineModel, deck: Seq<usize>)
    requires
        !m.shuffle,
        m.current_index < m.playlist.len(),
        valid_shuffle_deck(m, deck),
    ensures
        toggle_shuffle_spec(m, deck).shuffle,
        toggle_shuffle_spec(m, deck).shuffled_indices[toggle_shuffle_spec(m, deck).shuffle_pos as int]
            == m.current_index,
        is_index_permutation(toggle_shuffle_spec(m, deck).shuffled_indices, m.playlist.len()),
{
}


/// A skip or an explicit choice ends any crossfade: after `Next`, `Prev`,
/// `Stop`, `Seek` or playing an existing entry, no fade is in progress.
pub proof fn lemma_skips_end_crossfade(m: EngineModel, reshuffled: Seq<usize>, restart: bool, i: usize)
    ensures
        next_spec(m, reshuffled).0.phase == CrossfadePhase::Idle,
        prev_spec(m, restart).0.phase == CrossfadePhase::Idle,
        stop_spec(m).0.phase == CrossfadePhase::Idle,
        seek_spec(m).0.phase == CrossfadePhase::Idle,
        i < m.playlist.len() ==> play_index_spec(m, i).0.phase == CrossfadePhase::Idle,
{
}

/// Without shuffle, `Next` and then `Prev` (before the restart point)
/// come back to the track that was playing.
pub proof fn lemma_next_then_prev_returns(m: EngineModel, reshuffled: Seq<usize>)
    requires
        model_wf(m),
        !m.shuffle,
        m.current_index + 1 < m.playlist.len(),
    ensures
        prev_spec(next_spec(m, reshuffled).0, false).0.current_index == m.current_index,
        prev_spec(next_spec(m, reshuffled).0, false).0.playlist_idx == m.current_index,
        prev_spec(next_spec(m, reshuffled).0, false).0.playing,
        prev_spec(next_spec(m, reshuffled).0, false).0.playlist == m.playlist,
{
}

/// With repeat-all on, `Next` never stops playback: it always moves on to
/// an entry of the playlist.
pub proof fn lemma_repeat_all_keeps_playing(m: EngineModel, reshuffled: Seq<usize>)
    requires
        model_wf(m),
        m.repeat,
        m.playlist.len() > 0,
        m.shuffle ==> is_index_permutation(reshuffled, m.playlist.len()),
    ensures
        next_spec(m, reshuffled).0.playing,
        next_spec(m, reshuffled).0.current_index < m.playlist.len(),
{
    if m.shuffle {
        let pos = m.shuffle_pos + 1;
        if pos < m.shuffled_indices.len() {
            assert(m.shuffled_indices[pos] < m.playlist.len());
        } else {
            assert(reshuffled[0] < m.playlist.len());
        }
    }
}

/// Without repeat or shuffle, `Next` on the last entry stops playback and
/// leaves the current track where it is.
pub proof fn lemma_next_at_end_stops(m: EngineModel, reshuffled: Seq<usize>)
    requires
        !m.repeat,
        !m.shuffle,
        m.current_index + 1 >= m.playlist.len(),
    ensures
        !next_spec(m, reshuffled).0.playing,
        next_spec(m, reshuffled).0.current_index == m.current_index,
{
}

/// Repeat-one replays the current track when it ends.
pub proof fn lemma_repeat_one_replays(m: EngineModel, reshuffled: Seq<usize>)
    requires
        m.repeat_one,
        m.playing,
        !m.phase.spec_is_active(),
    ensures
        track_finished_spec(m, reshuffled).0.current_index == m.current_index,
        track_finished_spec(m, reshuffled).1 == seq![
            Effect::LoadTrack(m.current_index),
            Effect::Publish(Event::TrackChanged(m.current_index)),
        ],
{
}

/// `SortBy(Normal)` gives back the order the playlist was set with, however
/// it was sorted before.
pub proof fn lemma_normal_order_restores(m: EngineModel, op: Options)
    ensures
        sort_by_spec(m, Options::Normal).0.playlist == m.playlist_cpy,
        sort_by_spec(sort_by_spec(m, op).0, Options::Normal).0.playlist == m.playlist_cpy,
{
}

/// The state after `k` presses of `Next`.
pub open spec fn nexts(m: EngineModel, k: nat, reshuffled: Seq<usize>) -> EngineModel
    decreases k,
{
    if k == 0 {
        m
    } else {
        next_spec(nexts(m, (k - 1) as nat, reshuffled), reshuffled).0
    }
}

/// In shuffle mode, `Next` walks the shuffled order: `k` presses later the
/// entry `k` places further on plays, and the order itself is kept.
pub proof fn lemma_shuffle_walks_order(m: EngineModel, k: nat, reshuffled: Seq<usize>)
    requires
        m.shuffled_indices.len() <= usize::MAX,
        m.shuffle,
        m.shuffle_pos + k < m.shuffled_indices.len(),
    ensures
        nexts(m, k, reshuffled).shuffle,
        nexts(m, k, reshuffled).shuffled_indices == m.shuffled_indices,
        nexts(m, k, reshuffled).shuffle_pos == m.shuffle_pos + k,
        k > 0 ==> nexts(m, k, reshuffled).current_index == m.shuffled_indices[m.shuffle_pos + k],
        k > 0 ==> nexts(m, k, reshuffled).playing,
        nexts(m, k, reshuffled).playlist == m.playlist,
    decreases k,
{
    if k > 0 {
        lemma_shuffle_walks_order(m, (k - 1) as nat, reshuffled);
    }
}

/// A round of shuffle play starting at the head of the order plays every
/// playlist entry exactly once: different presses play different entries,
/// and each entry is played by some press.
pub proof fn lemma_shuffle_round_plays_each_once(m: EngineModel, reshuffled: Seq<usize>, a: nat, b: nat, v: usize)
    requires
        model_wf(m),
        m.playlist.len() <= usize::MAX,
        m.shuffle,
        m.shuffle_pos == 0,
        m.shuffled_indices[0] == m.current_index,
        a < m.playlist.len(),
        b < m.playlist.len(),
        v < m.playlist.len(),
    ensures
        a != b ==> nexts(m, a, reshuffled).current_index != nexts(m, b, reshuffled).current_index,
        exists|k: nat| k < m.playlist.len() && #[trigger] nexts(m, k, reshuffled).current_index == v,
{
    lemma_shuffle_walks_order(m, a, reshuffled);
    lemma_shuffle_walks_order(m, b, reshuffled);
    assert(nexts(m, a, reshuffled).current_index == m.shuffled_indices[a as int]);
    assert(nexts(m, b, reshuffled).current_index == m.shuffled_indices[b as int]);
    lemma_index_permutation_contains(m.shuffled_indices, m.playlist.len(), v);
    let k = choose|k: int| 0 <= k < m.shuffled_indices.len() && m.shuffled_indices[k] == v;
    lemma_shuffle_walks_order(m, k as nat, reshuffled);
    assert(nexts(m, k as nat, reshuffled).current_index == v);
}


/// `Next` on an empty playlist stops playback, repeat or not, and announces
/// the state change; nothing is loaded.
pub proof fn lemma_next_on_empty_playlist_stops(m: EngineModel, reshuffled: Seq<usize>)
    requires
        model_wf(m),
        m.playlist.len() == 0,
    ensures
        !next_spec(m, reshuffled).0.playing,
        next_spec(m, reshuffled).0.playlist == m.playlist,
        next_spec(m, reshuffled).1 == skip_prelude(m) + seq![Effect::Publish(Event::StateChanged)],
{
}


/// A run of commands: `states[k]` and `effects[k]` are what command `k`
/// gives from the state before it (`m` for the first).
pub open spec fn is_run(
    m: EngineModel,
    cmds: Seq<PlayerCommand>,
    restarts: Seq<bool>,
    states: Seq<EngineModel>,
    effects: Seq<Seq<Effect>>,
) -> bool {
    &&& restarts.len() == cmds.len()
    &&& states.len() == cmds.len()
    &&& effects.len() == cmds.len()
    &&& forall|k: int|
        0 <= k < cmds.len() ==> command_post(
            if k == 0 { m } else { states[k - 1] },
            cmds[k],
            restarts[k],
            #[trigger] states[k],
            effects[k],
        )
}

/// Over any run of commands from a state with at most one repeat mode on,
/// the two repeat modes are never on together.
pub proof fn lemma_run_keeps_repeat_modes_exclusive(
    m: EngineModel,
    cmds: Seq<PlayerCommand>,
    restarts: Seq<bool>,
    states: Seq<EngineModel>,
    effects: Seq<Seq<Effect>>,
    k: int,
)
    requires
        !(m.repeat && m.repeat_one),
        is_run(m, cmds, restarts, states, effects),
        0 <= k < cmds.len(),
    ensures
        !(states[k].repeat && states[k].repeat_one),
    decreases k,
{
    let before = if k == 0 { m } else { states[k - 1] };
    if k > 0 {
        lemma_run_keeps_repeat_modes_exclusive(m, cmds, restarts, states, effects, k - 1);
    }
    assert(command_post(before, cmds[k], restarts[k], states[k], effects[k]));
    lemma_repeat_modes_exclusive(before, cmds[k], restarts[k], states[k], effects[k]);
}

/// What the host observes (the track ended, the trigger point, the end of
/// a fade, the gain crossover) never changes the play modes.
pub proof fn lemma_observations_keep_modes(m: EngineModel, r: Seq<usize>)
    ensures
        track_finished_spec(m, r).0.shuffle == m.shuffle,
        track_finished_spec(m, r).0.repeat == m.repeat,
        track_finished_spec(m, r).0.repeat_one == m.repeat_one,
        crossfade_trigger_spec(m).0.shuffle == m.shuffle,
        crossfade_trigger_spec(m).0.repeat == m.repeat,
        crossfade_trigger_spec(m).0.repeat_one == m.repeat_one,
        fade_complete_spec(m).0.shuffle == m.shuffle,
        fade_complete_spec(m).0.repeat == m.repeat,
        fade_complete_spec(m).0.repeat_one == m.repeat_one,
        gain_crossover_spec(m).0.shuffle == m.shuffle,
        gain_crossover_spec(m).0.repeat == m.repeat,
        gain_crossover_spec(m).0.repeat_one == m.repeat_one,
{
}


/// In shuffle mode, a completed fade makes the incoming track current and
/// moves the shuffle position to that track's place in the shuffled order,
/// so the next fade (when the order goes on) prepares the entry after it.
pub proof fn lemma_fade_complete_follows_shuffle_order(m: EngineModel)
    requires
        model_wf(m),
        m.playlist.len() <= usize::MAX,
        m.shuffle,
        m.phase is Fading,
        m.phase->Fading_next_index < m.playlist.len(),
    ensures
        ({
            let n = fade_complete_spec(m).0;
            &&& n.current_index == m.phase->Fading_next_index
            &&& n.shuffle_pos < n.shuffled_indices.len()
            &&& n.shuffled_indices[n.shuffle_pos as int] == n.current_index
            &&& n.shuffled_indices == m.shuffled_indices
            &&& n.shuffle_pos + 1 < n.shuffled_indices.len() ==> crossfade_trigger_spec(n).1 == seq![
                Effect::PrepareNext(n.shuffled_indices[n.shuffle_pos + 1]),
            ]
        }),
{
    let v = m.phase->Fading_next_index;
    let s = m.shuffled_indices;
    lemma_index_permutation_contains(s, m.playlist.len(), v);
    reveal(index_of_value);
    let k = choose|k: int| 0 <= k < s.len() && s[k] == v && forall|j: int| 0 <= j < k ==> s[j] != v;
    assert(index_of_value(s, v) == Some(k));
    let n = fade_complete_spec(m).0;
    assert(n.shuffle_pos == k as usize);
    if n.shuffle_pos + 1 < s.len() {
        assert(s[n.shuffle_pos + 1] < m.playlist.len());
    }
}

} // verus!
