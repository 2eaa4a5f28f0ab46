//! What the desktop integrations (media-player bus interface, tray icon)
//! show and send, decided from the player's state.

use vstd::prelude::*;
use crate::command::PlayerCommand;
use crate::engine::{EngineModel, toggle_repeat_spec, toggle_repeat_one_spec};
use crate::text::push_char;
use vstd::string::StringSliceAdditionalSpecFns;
use crate::wallpaper::{contains_text, occurs_at};
use crate::paths::{same_path, paths_equal};

verus! {

/// Window-level action requested through the media-player interface.
#[derive(Clone, Copy, Debug, PartialEq, Eq, Structural)]
pub enum MprisAction {
    Raise,
    Quit,
}

/// Window-level action requested by the media-player interface or the tray.
#[derive(Clone, Copy, Debug, PartialEq, Eq, Structural)]
pub enum AppAction {
    Show,
    Quit,
}

/// Playback status as announced on the media-player interface.
#[derive(Clone, Copy, Debug, PartialEq, Eq, Structural)]
pub enum PlaybackStatus {
    Playing,
    Paused,
    Stopped,
}

/// Loop mode as announced on the media-player interface.
#[derive(Clone, Copy, Debug, PartialEq, Eq, Structural)]
pub enum LoopStatus {
    /// No repeat.
    Off,
    /// Repeat the current track.
    Track,
    /// Repeat the whole playlist.
    Playlist,
}

/// The status announced: playing or paused with a track, stopped without.
pub open spec fn playback_status_spec(has_track: bool, playing: bool) -> PlaybackStatus {
    if has_track && playing {
        PlaybackStatus::Playing
    } else if has_track {
        PlaybackStatus::Paused
    } else {
        PlaybackStatus::Stopped
    }
}

/// The playback status to announce.
pub fn playback_status(has_track: bool, playing: bool) -> (r: PlaybackStatus)
    ensures
        r == playback_status_spec(has_track, playing),
{
    if has_track && playing {
        PlaybackStatus::Playing
    } else if has_track {
        PlaybackStatus::Paused
    } else {
        PlaybackStatus::Stopped
    }
}

/// Controls offered on the media-player interface.
#[derive(Clone, Copy, Debug, PartialEq, Eq, Structural)]
pub struct Caps {
    pub play: bool,
    pub pause: bool,
    pub next: bool,
    pub prev: bool,
    pub seek: bool,
}

/// With a track, play, pause and seek are offered; next when a later entry
/// exists or repeat is on, previous when an earlier one exists or repeat is
/// on. Without a track nothing is.
pub open spec fn capabilities_spec(has_track: bool, idx: usize, len: usize, repeat: bool) -> Caps {
    Caps {
        play: has_track,
        pause: has_track,
        next: has_track && (idx + 1 < len || repeat),
        prev: has_track && (idx > 0 || repeat),
        seek: has_track,
    }
}

/// The controls to offer for the current playlist position.
pub fn capabilities(has_track: bool, idx: usize, len: usize, repeat: bool) -> (c: Caps)
    ensures
        c == capabilities_spec(has_track, idx, len, repeat),
{
    let later = len > 0 && idx < len - 1;
    Caps {
        play: has_track,
        pause: has_track,
        next: has_track && (later || repeat),
        prev: has_track && (idx > 0 || repeat),
        seek: has_track,
    }
}

/// Repeat-one shows as looping the track, repeat-all as looping the
/// playlist.
pub open spec fn loop_status_spec(repeat: bool, repeat_one: bool) -> LoopStatus {
    if repeat_one {
        LoopStatus::Track
    } else if repeat {
        LoopStatus::Playlist
    } else {
        LoopStatus::Off
    }
}

/// The loop status to announce.
pub fn loop_status(repeat: bool, repeat_one: bool) -> (r: LoopStatus)
    ensures
        r == loop_status_spec(repeat, repeat_one),
{
    if repeat_one {
        LoopStatus::Track
    } else if repeat {
        LoopStatus::Playlist
    } else {
        LoopStatus::Off
    }
}

/// The (repeat-all, repeat-one) pair a loop status asks for.
pub open spec fn wanted_modes(status: LoopStatus) -> (bool, bool) {
    match status {
        LoopStatus::Off => (false, false),
        LoopStatus::Playlist => (true, false),
        LoopStatus::Track => (false, true),
    }
}

/// The toggles sent when a client asks for loop status `status` while the
/// player has `repeat` and `repeat_one`.
pub open spec fn loop_status_commands_spec(repeat: bool, repeat_one: bool, status: LoopStatus) -> Seq<
    PlayerCommand,
> {
    let (want_repeat, want_one) = wanted_modes(status);
    let a = if repeat_one && !want_one { seq![PlayerCommand::ToggleRepeatOne] } else { seq![] };
    let b = if repeat != want_repeat { seq![PlayerCommand::ToggleRepeat] } else { seq![] };
    let c = if want_one && !repeat_one { seq![PlayerCommand::ToggleRepeatOne] } else { seq![] };
    a + b + c
}

/// The toggle commands that bring the player from (`repeat`,
/// `repeat_one`) to the modes loop status `status` asks for.
pub fn loop_status_commands(repeat: bool, repeat_one: bool, status: LoopStatus) -> (cmds: Vec<
    PlayerCommand,
>)
    ensures
        cmds@ == loop_status_commands_spec(repeat, repeat_one, status),
{
    let (want_repeat, want_one) = match status {
        LoopStatus::Off => (false, false),
        LoopStatus::Playlist => (true, false),
        LoopStatus::Track => (false, true),
    };
    let mut cmds: Vec<PlayerCommand> = Vec::new();
    if repeat_one && !want_one {
        cmds.push(PlayerCommand::ToggleRepeatOne);
    }
    if repeat != want_repeat {
        cmds.push(PlayerCommand::ToggleRepeat);
    }
    if want_one && !repeat_one {
        cmds.push(PlayerCommand::ToggleRepeatOne);
    }
    proof {
        assert(cmds@ =~= loop_status_commands_spec(repeat, repeat_one, status));
    }
    cmds
}

/// The engine state after carrying out a list of repeat toggles in order.
pub open spec fn apply_toggles(m: EngineModel, cmds: Seq<PlayerCommand>) -> EngineModel
    decreases cmds.len(),
{
    if cmds.len() == 0 {
        m
    } else {
        let m1 = match cmds[0] {
            PlayerCommand::ToggleRepeat => toggle_repeat_spec(m),
            PlayerCommand::ToggleRepeatOne => toggle_repeat_one_spec(m),
            _ => m,
        };
        apply_toggles(m1, cmds.drop_first())
    }
}

/// A client setting the loop status gets what it asked for: carrying out
/// the toggles leaves the engine in exactly the modes the status stands
/// for (the engine never has both repeat modes on).
pub proof fn lemma_loop_status_commands_reach_target(m: EngineModel, status: LoopStatus)
    requires
        !(m.repeat && m.repeat_one),
    ensures
        ({
            let n = apply_toggles(m, loop_status_commands_spec(m.repeat, m.repeat_one, status));
            (n.repeat, n.repeat_one) == wanted_modes(status)
                && loop_status_spec(n.repeat, n.repeat_one) == status
        }),
{
    let cmds = loop_status_commands_spec(m.repeat, m.repeat_one, status);
    reveal_with_fuel(apply_toggles, 4);
    if cmds.len() == 1 {
        assert(cmds.drop_first() =~= Seq::<PlayerCommand>::empty());
    } else if cmds.len() == 2 {
        assert(cmds.drop_first().drop_first() =~= Seq::<PlayerCommand>::empty());
    }
}

/// The tray tooltip: "artist - title" while a track is loaded.
pub open spec fn tray_description_spec(has_track: bool, artist: Seq<char>, title: Seq<char>) -> Seq<char> {
    if has_track {
        artist + " - "@ + title
    } else {
        "Sin reproducci\u{f3}n"@
    }
}

/// The tray tooltip text.
pub fn tray_description(has_track: bool, artist: &str, title: &str) -> (s: String)
    ensures
        s@ == tray_description_spec(has_track, artist@, title@),
{
    if has_track {
        let mut s = String::from_str(artist);
        s.append(" - ");
        s.append(title);
        s
    } else {
        String::from_str("Sin reproducci\u{f3}n")
    }
}

/// The tray's play/pause entry: offers pausing while playing.
pub open spec fn play_pause_label_spec(playing: bool) -> Seq<char> {
    if playing {
        "\u{23f8} Pausar"@
    } else {
        "\u{25b6} Reproducir"@
    }
}

/// The label of the tray's play/pause entry.
pub fn play_pause_label(playing: bool) -> (s: String)
    ensures
        s@ == play_pause_label_spec(playing),
{
    if playing {
        String::from_str("\u{23f8} Pausar")
    } else {
        String::from_str("\u{25b6} Reproducir")
    }
}

/// What the tray's play/pause entry sends.
pub fn play_pause_command(playing: bool) -> (c: PlayerCommand)
    ensures
        c == (if playing { PlayerCommand::Pause } else { PlayerCommand::Play }),
{
    if playing {
        PlayerCommand::Pause
    } else {
        PlayerCommand::Play
    }
}

/// The toggle a client's shuffle request needs: one when the requested
/// setting differs from the player's.
pub fn shuffle_command(current: bool, wanted: bool) -> (c: Option<PlayerCommand>)
    ensures
        c == (if current != wanted { Some(PlayerCommand::ToggleShuffle) } else { None }),
{
    if current != wanted {
        Some(PlayerCommand::ToggleShuffle)
    } else {
        None
    }
}

/// Bytes written as themselves in a `file://` URI: ASCII letters and
/// digits, `-`, `.`, `_`, `~` and `/`.
pub open spec fn is_uri_safe(b: u8) -> bool {
    (65 <= b <= 90) || (97 <= b <= 122) || (48 <= b <= 57) || b == 45 || b == 46 || b == 95
        || b == 126 || b == 47
}

/// The uppercase hexadecimal digit for `n` (below sixteen).
pub open spec fn hex_digit_spec(n: u8) -> char {
    if n < 10 {
        (48 + n) as char
    } else {
        (55 + n) as char
    }
}

/// One byte of a path in a URI: itself when safe, `%XX` otherwise.
pub open spec fn encode_byte(b: u8) -> Seq<char> {
    if is_uri_safe(b) {
        seq![b as char]
    } else {
        seq!['%', hex_digit_spec(b / 16), hex_digit_spec(b % 16)]
    }
}

/// The percent-encoding of a byte string.
pub open spec fn percent_encoded(bytes: Seq<u8>) -> Seq<char>
    decreases bytes.len(),
{
    if bytes.len() == 0 {
        seq![]
    } else {
        percent_encoded(bytes.drop_last()) + encode_byte(bytes.last())
    }
}

/// The character whose code point is the byte's value.
pub(crate) fn char_from_byte(b: u8) -> (c: char)
    ensures
        c == b as char,
{
    b as char
}

fn hex_digit(n: u8) -> (c: char)
    requires
        n < 16,
    ensures
        c == hex_digit_spec(n),
{
    char_from_byte(if n < 10 { 48 + n } else { 55 + n })
}

/// The `file://` URI of an absolute path: the path's UTF-8 bytes, with
/// every byte other than letters, digits, `-._~/` written as `%XX`.
pub fn file_uri(abs_path: &str) -> (uri: String)
    ensures
        uri@ == "file://"@ + percent_encoded(abs_path.spec_bytes()),
{
    let bytes = abs_path.as_bytes();
    let mut uri = String::from_str("file://");
    let mut i: usize = 0;
    while i < bytes.len()
        invariant
            bytes@ == abs_path.spec_bytes(),
            i <= bytes@.len(),
            uri@ == "file://"@ + percent_encoded(bytes@.take(i as int)),
        decreases bytes@.len() - i,
    {
        let b = bytes[i];
        let ghost before = uri@;
        if (65 <= b && b <= 90) || (97 <= b && b <= 122) || (48 <= b && b <= 57) || b == 45 || b == 46
            || b == 95 || b == 126 || b == 47 {
            push_char(&mut uri, char_from_byte(b));
        } else {
            push_char(&mut uri, '%');
            push_char(&mut uri, hex_digit(b / 16));
            push_char(&mut uri, hex_digit(b % 16));
        }
        proof {
            assert(bytes@.take(i + 1).drop_last() =~= bytes@.take(i as int));
            assert(uri@ =~= before + encode_byte(b));
        }
        i = i + 1;
    }
    proof {
        assert(bytes@.take(bytes@.len() as int) =~= bytes@);
    }
    uri
}

/// The file extension a cover image is cached under: `png` for PNG data,
/// `jpg` otherwise.
pub fn cover_extension(mime: &str) -> (ext: String)
    ensures
        ext@ == (if exists|i: int| occurs_at(mime@, "png"@, i) { "png"@ } else { "jpg"@ }),
{
    if contains_text(mime, "png") {
        String::from_str("png")
    } else {
        String::from_str("jpg")
    }
}


/// What the media-player interface was last told, so that only changes are
/// sent again.
#[derive(Debug)]
pub struct SyncMemo {
    /// Path of the track whose metadata was published.
    pub track_path: Option<String>,
    pub status: Option<PlaybackStatus>,
    pub caps: Option<Caps>,
    pub loop_status: Option<LoopStatus>,
    pub shuffle: Option<bool>,
}

impl SyncMemo {
    /// A memo recording that nothing was announced yet.
    pub fn new() -> (m: SyncMemo)
        ensures
            empty_memo(m),
    {
        SyncMemo { track_path: None, status: None, caps: None, loop_status: None, shuffle: None }
    }
}

/// One step of bringing the media-player interface up to date.
#[derive(Clone, Copy, Debug, PartialEq, Eq, Structural)]
pub enum SyncUpdate {
    /// Announce this playback status.
    Status(PlaybackStatus),
    /// Announce these controls.
    Capabilities(Caps),
    /// Publish the current track's metadata (or clear it without a track).
    Track,
    /// Report the position (signalling a seek if it jumped) and the volume.
    PositionAndVolume,
    /// Announce this loop status.
    Loop(LoopStatus),
    /// Announce this shuffle setting.
    Shuffle(bool),
}

/// `s` with the update appended, unless its value was already sent.
pub open spec fn push_unless(s: Seq<SyncUpdate>, sent: bool, up: SyncUpdate) -> Seq<SyncUpdate> {
    if sent {
        s
    } else {
        s.push(up)
    }
}

/// A track path as characters.
pub open spec fn path_chars(p: Option<String>) -> Option<Seq<char>> {
    match p {
        Some(s) => Some(s@),
        None => None,
    }
}

/// The memo before any synchronisation: nothing announced yet.
pub open spec fn empty_memo(m: SyncMemo) -> bool {
    &&& m.track_path is None
    &&& m.status is None
    &&& m.caps is None
    &&& m.loop_status is None
    &&& m.shuffle is None
}

/// The steps that bring the interface from what `m` records to the player's
/// state, in order: status, controls, track metadata when the track changed,
/// position and volume, loop status, shuffle. A step whose value was already
/// announced is left out.
pub open spec fn sync_updates_spec(
    m: SyncMemo,
    path: Option<Seq<char>>,
    playing: bool,
    idx: usize,
    len: usize,
    repeat: bool,
    repeat_one: bool,
    shuffle: bool,
) -> Seq<SyncUpdate> {
    let has_track = path is Some;
    let st = playback_status_spec(has_track, playing);
    let caps = capabilities_spec(has_track, idx, len, repeat);
    let lp = loop_status_spec(repeat, repeat_one);
    let s1 = push_unless(seq![], m.status == Some(st), SyncUpdate::Status(st));
    let s2 = push_unless(s1, m.caps == Some(caps), SyncUpdate::Capabilities(caps));
    let s3 = push_unless(s2, same_opt_path(path_chars(m.track_path), path), SyncUpdate::Track);
    let s4 = s3.push(SyncUpdate::PositionAndVolume);
    let s5 = push_unless(s4, m.loop_status == Some(lp), SyncUpdate::Loop(lp));
    push_unless(s5, m.shuffle == Some(shuffle), SyncUpdate::Shuffle(shuffle))
}

/// Both name the same file, or both name none.
pub open spec fn same_opt_path(a: Option<Seq<char>>, b: Option<Seq<char>>) -> bool {
    match (a, b) {
        (Some(x), Some(y)) => same_path(x, y),
        (None, None) => true,
        _ => false,
    }
}

/// Whether the published track path names the same file as `path`.
fn published_same(published: &Option<String>, path: Option<&String>) -> (r: bool)
    ensures
        r == same_opt_path(
            path_chars(*published),
            match path {
                Some(p) => Some(p@),
                None => None::<Seq<char>>,
            },
        ),
{
    match (published, path) {
        (Some(a), Some(b)) => paths_equal(a, b),
        (None, None) => true,
        _ => false,
    }
}

/// A copy of the path to record as published.
fn owned_path(path: Option<&String>) -> (r: Option<String>)
    ensures
        path_chars(r) == match path {
            Some(p) => Some(p@),
            None => None::<Seq<char>>,
        },
{
    match path {
        Some(p) => Some(p.clone()),
        None => None,
    }
}

/// Works out what to announce for the player's state and records it in
/// `memo`.
pub fn sync_updates(
    memo: &mut SyncMemo,
    track_path: Option<&String>,
    playing: bool,
    idx: usize,
    len: usize,
    repeat: bool,
    repeat_one: bool,
    shuffle: bool,
) -> (u: Vec<SyncUpdate>)
    ensures
        u@ == sync_updates_spec(
            *old(memo),
            match track_path {
                Some(p) => Some(p@),
                None => None,
            },
            playing,
            idx,
            len,
            repeat,
            repeat_one,
            shuffle,
        ),
        ({
            let path = match track_path {
                Some(p) => Some(p@),
                None => None::<Seq<char>>,
            };
            if same_opt_path(path_chars(old(memo).track_path), path) {
                final(memo).track_path == old(memo).track_path
            } else {
                path_chars(final(memo).track_path) == path
            }
        }),
        final(memo).status == Some(playback_status_spec(track_path is Some, playing)),
        final(memo).caps == Some(capabilities_spec(track_path is Some, idx, len, repeat)),
        final(memo).loop_status == Some(loop_status_spec(repeat, repeat_one)),
        final(memo).shuffle == Some(shuffle),
{
    let has_track = track_path.is_some();
    let st = playback_status(has_track, playing);
    let caps = capabilities(has_track, idx, len, repeat);
    let lp = loop_status(repeat, repeat_one);
    let same_status = match memo.status {
        Some(x) => x == st,
        None => false,
    };
    let same_caps = match memo.caps {
        Some(c) => c == caps,
        None => false,
    };
    let same_track = published_same(&memo.track_path, track_path);
    let same_loop = match memo.loop_status {
        Some(x) => x == lp,
        None => false,
    };
    let same_shuffle = match memo.shuffle {
        Some(x) => x == shuffle,
        None => false,
    };

    let mut u: Vec<SyncUpdate> = Vec::new();
    proof { assert(u@ =~= seq![]); }
    if !same_status {
        u.push(SyncUpdate::Status(st));
    }
    if !same_caps {
        u.push(SyncUpdate::Capabilities(caps));
    }
    if !same_track {
        u.push(SyncUpdate::Track);
    }
    u.push(SyncUpdate::PositionAndVolume);
    if !same_loop {
        u.push(SyncUpdate::Loop(lp));
    }
    if !same_shuffle {
        u.push(SyncUpdate::Shuffle(shuffle));
    }
    memo.status = Some(st);
    memo.caps = Some(caps);
    if !same_track {
        memo.track_path = owned_path(track_path);
    }
    memo.loop_status = Some(lp);
    memo.shuffle = Some(shuffle);
    u
}


/// Once the interface is up to date, synchronising the same state again
/// sends only the position and volume.
pub proof fn lemma_sync_repeats_nothing(
    m: SyncMemo,
    path: Option<Seq<char>>,
    playing: bool,
    idx: usize,
    len: usize,
    repeat: bool,
    repeat_one: bool,
    shuffle: bool,
)
    requires
        same_opt_path(path_chars(m.track_path), path),
        m.status == Some(playback_status_spec(path is Some, playing)),
        m.caps == Some(capabilities_spec(path is Some, idx, len, repeat)),
        m.loop_status == Some(loop_status_spec(repeat, repeat_one)),
        m.shuffle == Some(shuffle),
    ensures
        sync_updates_spec(m, path, playing, idx, len, repeat, repeat_one, shuffle) == seq![
            SyncUpdate::PositionAndVolume,
        ],
{
    assert(sync_updates_spec(m, path, playing, idx, len, repeat, repeat_one, shuffle) =~= seq![
        SyncUpdate::PositionAndVolume,
    ]);
}

/// The first synchronisation announces status, controls, loop status and
/// shuffle, and publishes the track when there is one.
pub proof fn lemma_first_sync_announces_all(
    m: SyncMemo,
    path: Option<Seq<char>>,
    playing: bool,
    idx: usize,
    len: usize,
    repeat: bool,
    repeat_one: bool,
    shuffle: bool,
)
    requires
        empty_memo(m),
    ensures
        sync_updates_spec(m, path, playing, idx, len, repeat, repeat_one, shuffle) == {
            let st = SyncUpdate::Status(playback_status_spec(path is Some, playing));
            let caps = SyncUpdate::Capabilities(capabilities_spec(path is Some, idx, len, repeat));
            let lp = SyncUpdate::Loop(loop_status_spec(repeat, repeat_one));
            let sh = SyncUpdate::Shuffle(shuffle);
            if path is Some {
                seq![st, caps, SyncUpdate::Track, SyncUpdate::PositionAndVolume, lp, sh]
            } else {
                seq![st, caps, SyncUpdate::PositionAndVolume, lp, sh]
            }
        },
{
    let st = SyncUpdate::Status(playback_status_spec(path is Some, playing));
    let caps = SyncUpdate::Capabilities(capabilities_spec(path is Some, idx, len, repeat));
    let lp = SyncUpdate::Loop(loop_status_spec(repeat, repeat_one));
    let sh = SyncUpdate::Shuffle(shuffle);
    if path is Some {
        assert(sync_updates_spec(m, path, playing, idx, len, repeat, repeat_one, shuffle) =~= seq![
            st,
            caps,
            SyncUpdate::Track,
            SyncUpdate::PositionAndVolume,
            lp,
            sh,
        ]);
    } else {
        assert(sync_updates_spec(m, path, playing, idx, len, repeat, repeat_one, shuffle) =~= seq![
            st,
            caps,
            SyncUpdate::PositionAndVolume,
            lp,
            sh,
        ]);
    }
}

} // verus!
