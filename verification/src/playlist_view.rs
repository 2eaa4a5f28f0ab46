//! The rows of the mini playlist: which tracks a search shows and how each
//! row is labelled.

use vstd::prelude::*;
use vstd::string::StringSliceAdditionalSpecFns;
use crate::media::char_from_byte;
use crate::text::{chars_of, truncate, truncated};
use crate::track::Track;
use crate::paths::{same_path, paths_equal};
use crate::wallpaper::{contains_chars, occurs_at};

verus! {

/// ASCII lower case of one character: `A`..`Z` become `a`..`z`, every
/// other character stays.
pub open spec fn ascii_lower(c: char) -> char {
    if 'A' <= c && c <= 'Z' {
        ((c as int) + 32) as char
    } else {
        c
    }
}

/// ASCII lower case of a text.
pub open spec fn lowered(s: Seq<char>) -> Seq<char> {
    s.map_values(|c: char| ascii_lower(c))
}

/// `pat` occurs somewhere in `s`.
pub open spec fn has_text(s: Seq<char>, pat: Seq<char>) -> bool {
    exists|i: int| occurs_at(s, pat, i)
}

/// A search of at least three bytes filters the playlist.
pub open spec fn search_active(search: &str) -> bool {
    search.spec_bytes().len() >= 3
}

/// A track matches a lower-cased search when its lower-cased title or
/// artist contains it.
pub open spec fn track_matches(t: Track, needle: Seq<char>) -> bool {
    has_text(lowered(t.title@), needle) || has_text(lowered(t.artist@), needle)
}

/// The track is the one playing (its path names the same file).
pub open spec fn is_current_spec(t: Track, current: Option<Seq<char>>) -> bool {
    match current {
        Some(p) => same_path(t.path@, p),
        None => false,
    }
}

/// The marker in front of a row: play or pause sign on the current track.
pub open spec fn row_icon(is_current: bool, playing: bool) -> Seq<char> {
    if !is_current {
        seq![]
    } else if playing {
        "\u{25b6}"@
    } else {
        "\u{23f8}"@
    }
}

/// A row's label: the marker, a space, and the title cut to 20 characters.
pub open spec fn row_label_spec(title: Seq<char>, is_current: bool, playing: bool) -> Seq<char> {
    row_icon(is_current, playing) + " "@ + truncated(title, 20)
}

/// One row of the mini playlist.
#[derive(Debug)]
pub struct PlaylistRow {
    /// Position of the track in the playlist.
    pub index: usize,
    pub label: String,
    pub is_current: bool,
}

impl View for PlaylistRow {
    type V = (int, Seq<char>, bool);

    open spec fn view(&self) -> (int, Seq<char>, bool) {
        (self.index as int, self.label@, self.is_current)
    }
}

/// The rows for the first `n` playlist entries: every entry when the search
/// is inactive, otherwise those that match it.
pub open spec fn rows_upto(
    pl: Seq<Track>,
    current: Option<Seq<char>>,
    playing: bool,
    needle: Seq<char>,
    active: bool,
    n: nat,
) -> Seq<(int, Seq<char>, bool)>
    decreases n,
{
    if n == 0 {
        seq![]
    } else {
        let prev = rows_upto(pl, current, playing, needle, active, (n - 1) as nat);
        let t = pl[n - 1];
        if !active || track_matches(t, needle) {
            let cur = is_current_spec(t, current);
            prev.push(((n - 1) as int, row_label_spec(t.title@, cur, playing), cur))
        } else {
            prev
        }
    }
}

/// The ASCII lower case of a text, as characters.
pub fn lower_chars(s: &String) -> (v: Vec<char>)
    ensures
        v@ == lowered(s@),
{
    let src = chars_of(s);
    let mut v: Vec<char> = Vec::new();
    let mut i: usize = 0;
    while i < src.len()
        invariant
            src@ == s@,
            i <= src@.len(),
            v@ == lowered(s@).take(i as int),
        decreases src@.len() - i,
    {
        let c = src[i];
        let l = if 'A' <= c && c <= 'Z' {
            let b: u8 = c as u8;
            char_from_byte(b + 32)
        } else {
            c
        };
        v.push(l);
        i = i + 1;
        proof { assert(v@ =~= lowered(s@).take(i as int)); }
    }
    proof { assert(lowered(s@).take(i as int) =~= lowered(s@)); }
    v
}

/// Whether the track matches the lower-cased search `needle`.
fn matches_search(t: &Track, needle: &Vec<char>) -> (r: bool)
    ensures
        r == track_matches(*t, needle@),
{
    contains_chars(&lower_chars(&t.title), needle) || contains_chars(&lower_chars(&t.artist), needle)
}

/// The label of a row.
pub fn row_label(title: &str, is_current: bool, playing: bool) -> (s: String)
    ensures
        s@ == row_label_spec(title@, is_current, playing),
{
    let mut s = if !is_current {
        String::new()
    } else if playing {
        String::from_str("\u{25b6}")
    } else {
        String::from_str("\u{23f8}")
    };
    s.append(" ");
    let cut = truncate(title, 20);
    s.append(cut.as_str());
    s
}

/// The rows of the mini playlist for a search text: with a search of at
/// least three bytes, only the tracks whose title or artist contains it
/// (ignoring ASCII case); the playing track is marked.
pub fn playlist_rows(playlist: &Vec<Track>, current_path: Option<&String>, playing: bool, search: &str) -> (r: Vec<
    PlaylistRow,
>)
    ensures
        r@.map_values(|row: PlaylistRow| row@) == rows_upto(
            playlist@,
            match current_path {
                Some(p) => Some(p@),
                None => None,
            },
            playing,
            lowered(search@),
            search_active(search),
            playlist@.len(),
        ),
{
    let ghost cur: Option<Seq<char>> = match current_path {
        Some(p) => Some(p@),
        None => None,
    };
    let active = search.as_bytes().len() >= 3;
    let needle = lower_chars(&String::from_str(search));
    let mut r: Vec<PlaylistRow> = Vec::new();
    let mut i: usize = 0;
    while i < playlist.len()
        invariant
            i <= playlist@.len(),
            needle@ == lowered(search@),
            active == search_active(search),
            cur == (match current_path {
                Some(p) => Some(p@),
                None => None::<Seq<char>>,
            }),
            r@.map_values(|row: PlaylistRow| row@) == rows_upto(playlist@, cur, playing, needle@, active, i as nat),
        decreases playlist@.len() - i,
    {
        let t = &playlist[i];
        let ghost prev = r@;
        if !active || matches_search(t, &needle) {
            let is_current = match current_path {
                Some(p) => paths_equal(&t.path, p),
                None => false,
            };
            let label = row_label(t.title.as_str(), is_current, playing);
            r.push(PlaylistRow { index: i, label, is_current });
            proof {
                assert(r@.map_values(|row: PlaylistRow| row@) =~= prev.map_values(|row: PlaylistRow| row@).push(
                    r@[prev.len() as int]@,
                ));
            }
        }
        i = i + 1;
    }
    r
}


/// The line above the transport buttons: `"TITLE" By: ARTIST` from the
/// current track's tags, the player's own credit without them.
pub open spec fn now_playing_spec(tags: Option<(Seq<char>, Seq<char>)>) -> Seq<char> {
    match tags {
        Some((title, artist)) => "\""@ + title + "\" By: "@ + artist,
        None => "\"ReAmped\" \u{2014} XxAlexplosivoxX"@,
    }
}

/// The now-playing line for the tags (title, artist) of the current track.
pub fn now_playing_text(tags: Option<(&str, &str)>) -> (s: String)
    ensures
        s@ == now_playing_spec(
            match tags {
                Some((t, a)) => Some((t@, a@)),
                None => None,
            },
        ),
{
    match tags {
        Some((title, artist)) => {
            let mut s = String::from_str("\"");
            s.append(title);
            s.append("\" By: ");
            s.append(artist);
            s
        },
        None => String::from_str("\"ReAmped\" \u{2014} XxAlexplosivoxX"),
    }
}

} // verus!
