//! Finding the desktop wallpaper: reading the paths that wallpaper daemons,
//! desktop settings and configuration files report.
//!
//! The host runs the commands and reads the files; these functions pick the
//! wallpaper reference out of what came back.

use vstd::prelude::*;
use crate::text::{chars_of, string_from, text_is};
use crate::library::{is_video_ext, is_video_path};
use crate::paths::extension_spec;

verus! {

/// Unicode `White_Space` (what `char::is_whitespace` tests).
pub open spec fn is_white_space(c: char) -> bool {
    let v = c as int;
    (9 <= v <= 13) || v == 0x20 || v == 0x85 || v == 0xA0 || v == 0x1680 || (0x2000 <= v <= 0x200A)
        || v == 0x2028 || v == 0x2029 || v == 0x202F || v == 0x205F || v == 0x3000
}

/// Sets of characters trimmed from the ends of a value.
#[derive(Debug, Clone, Copy, PartialEq, Eq, Structural)]
pub enum TrimSet {
    /// Unicode whitespace.
    WhiteSpace,
    /// Double quotes, single quotes and spaces.
    QuotesAndSpace,
    /// Single and double quotes.
    Quotes,
}

/// Whether `c` is in the set.
pub open spec fn in_set(set: TrimSet, c: char) -> bool {
    match set {
        TrimSet::WhiteSpace => is_white_space(c),
        TrimSet::QuotesAndSpace => c == '"' || c == '\'' || c == ' ',
        TrimSet::Quotes => c == '\'' || c == '"',
    }
}

fn in_set_exec(set: TrimSet, c: char) -> (r: bool)
    ensures
        r == in_set(set, c),
{
    match set {
        TrimSet::WhiteSpace => {
            ('\u{9}' <= c && c <= '\u{d}') || c == ' ' || c == '\u{85}' || c == '\u{a0}'
                || c == '\u{1680}' || ('\u{2000}' <= c && c <= '\u{200a}') || c == '\u{2028}'
                || c == '\u{2029}' || c == '\u{202f}' || c == '\u{205f}' || c == '\u{3000}'
        },
        TrimSet::QuotesAndSpace => c == '"' || c == '\'' || c == ' ',
        TrimSet::Quotes => c == '\'' || c == '"',
    }
}

/// `s` without the characters of the set at its start.
pub open spec fn trim_front(s: Seq<char>, set: TrimSet) -> Seq<char>
    decreases s.len(),
{
    if s.len() > 0 && in_set(set, s[0]) {
        trim_front(s.drop_first(), set)
    } else {
        s
    }
}

/// `s` without the characters of the set at its end.
pub open spec fn trim_back(s: Seq<char>, set: TrimSet) -> Seq<char>
    decreases s.len(),
{
    if s.len() > 0 && in_set(set, s.last()) {
        trim_back(s.drop_last(), set)
    } else {
        s
    }
}

/// `s` without the characters of the set at either end (`str::trim` for
/// whitespace, `str::trim_matches` for the others).
pub open spec fn trimmed(s: Seq<char>, set: TrimSet) -> Seq<char> {
    trim_back(trim_front(s, set), set)
}

proof fn lemma_trim_front_at(s: Seq<char>, set: TrimSet, lo: int)
    requires
        0 <= lo <= s.len(),
        forall|j: int| 0 <= j < lo ==> in_set(set, s[j]),
        lo < s.len() ==> !in_set(set, s[lo]),
    ensures
        trim_front(s, set) =~= s.subrange(lo, s.len() as int),
    decreases lo,
{
    if lo > 0 {
        let d = s.drop_first();
        assert forall|j: int| 0 <= j < lo - 1 implies in_set(set, d[j]) by {
            assert(d[j] == s[j + 1]);
        }
        lemma_trim_front_at(d, set, lo - 1);
        assert(d.subrange(lo - 1, d.len() as int) =~= s.subrange(lo, s.len() as int));
    }
}

proof fn lemma_trim_back_at(s: Seq<char>, set: TrimSet, hi: int)
    requires
        0 <= hi <= s.len(),
        forall|j: int| hi <= j < s.len() ==> in_set(set, s[j]),
        hi > 0 ==> !in_set(set, s[hi - 1]),
    ensures
        trim_back(s, set) =~= s.subrange(0, hi),
    decreases s.len() - hi,
{
    if hi < s.len() {
        let d = s.drop_last();
        assert(in_set(set, s[s.len() - 1]));
        assert forall|j: int| hi <= j < d.len() implies in_set(set, d[j]) by {
            assert(d[j] == s[j]);
        }
        lemma_trim_back_at(d, set, hi);
    }
}

/// The bounds of `v` without the set's characters at either end.
fn trim_bounds(v: &Vec<char>, set: TrimSet) -> (r: (usize, usize))
    ensures
        r.0 <= r.1 <= v@.len(),
        v@.subrange(r.0 as int, r.1 as int) == trimmed(v@, set),
{
    let mut lo: usize = 0;
    while lo < v.len() && in_set_exec(set, v[lo])
        invariant
            lo <= v@.len(),
            forall|j: int| 0 <= j < lo ==> in_set(set, v@[j]),
        decreases v@.len() - lo,
    {
        lo = lo + 1;
    }
    proof { lemma_trim_front_at(v@, set, lo as int); }
    let ghost front = v@.subrange(lo as int, v@.len() as int);
    let mut hi: usize = v.len();
    while hi > lo && in_set_exec(set, v[hi - 1])
        invariant
            lo <= hi <= v@.len(),
            front == v@.subrange(lo as int, v@.len() as int),
            forall|j: int| hi <= j < v@.len() ==> in_set(set, v@[j]),
        decreases hi,
    {
        hi = hi - 1;
    }
    proof {
        let h = (hi - lo) as int;
        assert forall|j: int| h <= j < front.len() implies in_set(set, front[j]) by {
            assert(front[j] == v@[j + lo]);
        }
        if h > 0 {
            assert(front[h - 1] == v@[hi - 1]);
        }
        lemma_trim_back_at(front, set, h);
        assert(front.subrange(0, h) =~= v@.subrange(lo as int, hi as int));
    }
    (lo, hi)
}

/// `s` without the characters of `set` at either end.
pub fn trim_text(s: &str, set: TrimSet) -> (r: String)
    ensures
        r@ == trimmed(s@, set),
{
    let v = chars_of(&String::from_str(s));
    let (lo, hi) = trim_bounds(&v, set);
    string_from(&v, lo, hi)
}

/// `pat` occurs in `s` at position `i`.
pub open spec fn occurs_at(s: Seq<char>, pat: Seq<char>, i: int) -> bool {
    0 <= i && i + pat.len() <= s.len() && s.subrange(i, i + pat.len()) == pat
}

/// The first position where `pat` occurs in `s`.
#[verifier::opaque]
pub open spec fn find_text_spec(s: Seq<char>, pat: Seq<char>) -> Option<int> {
    if exists|i: int| occurs_at(s, pat, i) {
        Some(choose|i: int| occurs_at(s, pat, i) && forall|j: int| 0 <= j < i ==> !occurs_at(s, pat, j))
    } else {
        None
    }
}

proof fn lemma_find_text(s: Seq<char>, pat: Seq<char>, k: int)
    requires
        0 <= k,
        forall|j: int| 0 <= j < k ==> !occurs_at(s, pat, j),
        occurs_at(s, pat, k) || k + pat.len() > s.len(),
    ensures
        find_text_spec(s, pat) == (if occurs_at(s, pat, k) { Some(k) } else { None::<int> }),
{
    reveal(find_text_spec);
    if occurs_at(s, pat, k) {
        let c = choose|c: int| occurs_at(s, pat, c) && forall|j: int| 0 <= j < c ==> !occurs_at(s, pat, j);
        if c < k {
            assert(!occurs_at(s, pat, c));
        }
        if k < c {
            assert(!occurs_at(s, pat, k));
        }
    } else {
        assert forall|i: int| !occurs_at(s, pat, i) by {
            if 0 <= i < k {
            } else if i >= k {
                assert(i + pat.len() > s.len());
            }
        }
    }
}

fn occurs_at_exec(v: &Vec<char>, p: &Vec<char>, i: usize) -> (r: bool)
    requires
        i + p@.len() <= v.len(),
    ensures
        r == occurs_at(v@, p@, i as int),
{
    let mut j: usize = 0;
    while j < p.len()
        invariant
            i + p@.len() <= v.len(),
            j <= p@.len(),
            forall|k: int| 0 <= k < j ==> v@[i + k] == p@[k],
        decreases p@.len() - j,
    {
        if v[i + j] != p[j] {
            proof {
                assert(v@.subrange(i as int, i + p@.len())[j as int] != p@[j as int]);
            }
            return false;
        }
        j = j + 1;
    }
    proof {
        assert(v@.subrange(i as int, i + p@.len()) =~= p@);
    }
    true
}

/// The first position of `pat` in `v`.
fn find_chars(v: &Vec<char>, p: &Vec<char>) -> (r: Option<usize>)
    ensures
        match r {
            Some(i) => find_text_spec(v@, p@) == Some(i as int) && i + p@.len() <= v@.len()
                && occurs_at(v@, p@, i as int),
            None => find_text_spec(v@, p@) is None,
        },
{
    if p.len() > v.len() {
        proof { lemma_find_text(v@, p@, 0); }
        return None;
    }
    let n = v.len() - p.len();
    let mut i: usize = 0;
    loop
        invariant
            p@.len() <= v@.len(),
            n == v@.len() - p@.len(),
            i <= n,
            forall|j: int| 0 <= j < i ==> !occurs_at(v@, p@, j),
        decreases n - i,
    {
        if occurs_at_exec(v, p, i) {
            proof { lemma_find_text(v@, p@, i as int); }
            return Some(i);
        }
        if i == n {
            proof { lemma_find_text(v@, p@, i + 1); }
            return None;
        }
        i = i + 1;
    }
}

proof fn lemma_find_none(s: Seq<char>, pat: Seq<char>, i: int)
    requires
        find_text_spec(s, pat) is None,
    ensures
        !occurs_at(s, pat, i),
{
    reveal(find_text_spec);
}

/// Whether `p` occurs in `v`.
pub(crate) fn contains_chars(v: &Vec<char>, p: &Vec<char>) -> (r: bool)
    ensures
        r == (exists|i: int| occurs_at(v@, p@, i)),
{
    match find_chars(v, p) {
        Some(i) => true,
        None => {
            proof {
                assert forall|i: int| !occurs_at(v@, p@, i) by {
                    lemma_find_none(v@, p@, i);
                }
            }
            false
        },
    }
}

/// Whether `pat` occurs in `s`.
pub fn contains_text(s: &str, pat: &str) -> (r: bool)
    ensures
        r == (exists|i: int| occurs_at(s@, pat@, i)),
{
    let v = chars_of(&String::from_str(s));
    let p = chars_of(&String::from_str(pat));
    contains_chars(&v, &p)
}

/// The path a `swww query` output line names: what follows the first
/// `"): "`, trimmed.
pub open spec fn swww_line_path_spec(line: Seq<char>) -> Option<Seq<char>> {
    match find_text_spec(line, "): "@) {
        Some(i) => Some(trimmed(line.subrange(i + 3, line.len() as int), TrimSet::WhiteSpace)),
        None => None,
    }
}

/// Picks the wallpaper path out of one line of `swww query` output
/// (`Monitor eDP-1 (2560x1600): /path/to/wallpaper.jpg`).
pub fn swww_line_path(line: &str) -> (r: Option<String>)
    ensures
        match r {
            Some(p) => swww_line_path_spec(line@) == Some(p@),
            None => swww_line_path_spec(line@) is None,
        },
{
    let v = chars_of(&String::from_str(line));
    let pat = chars_of(&String::from_str("): "));
    proof { reveal_strlit("): "); }
    let n = v.len();
    match find_chars(&v, &pat) {
        Some(i) => {
            let rest = string_from(&v, i + 3, n);
            Some(trim_text(rest.as_str(), TrimSet::WhiteSpace))
        },
        None => None,
    }
}

/// The first position of `c` in `s`.
pub open spec fn first_char_pos(s: Seq<char>, c: char) -> Option<int> {
    find_text_spec(s, seq![c])
}

/// The value a `key=value` line gives for `key`: the text after the first
/// `=`, trimmed of whitespace and then of quotes and spaces, when the text
/// before it is `key` up to whitespace.
pub open spec fn config_value_spec(line: Seq<char>, key: Seq<char>) -> Option<Seq<char>> {
    match first_char_pos(line, '=') {
        Some(e) => if trimmed(line.subrange(0, e), TrimSet::WhiteSpace) == key {
            Some(
                trimmed(
                    trimmed(line.subrange(e + 1, line.len() as int), TrimSet::WhiteSpace),
                    TrimSet::QuotesAndSpace,
                ),
            )
        } else {
            None
        },
        None => None,
    }
}

/// Reads `key` from one line of a simple `key=value` configuration file
/// (waypaper, pcmanfm, nitrogen, KDE appletsrc).
pub fn config_value(line: &str, key: &str) -> (r: Option<String>)
    ensures
        match r {
            Some(v) => config_value_spec(line@, key@) == Some(v@),
            None => config_value_spec(line@, key@) is None,
        },
{
    let v = chars_of(&String::from_str(line));
    let mut eq: Vec<char> = Vec::new();
    eq.push('=');
    proof { assert(eq@ =~= seq!['=']); }
    let n = v.len();
    match find_chars(&v, &eq) {
        Some(e) => {
            let k = string_from(&v, 0, e);
            let k = trim_text(k.as_str(), TrimSet::WhiteSpace);
            if !text_is(&k, key) {
                return None;
            }
            let val = string_from(&v, e + 1, n);
            let val = trim_text(val.as_str(), TrimSet::WhiteSpace);
            Some(trim_text(val.as_str(), TrimSet::QuotesAndSpace))
        },
        None => None,
    }
}

/// The second piece of `s` split at `q` (`str::split(q).nth(1)`): what lies
/// between the first `q` and the next one (or the end).
pub open spec fn second_piece(s: Seq<char>, q: char) -> Option<Seq<char>> {
    match first_char_pos(s, q) {
        Some(i) => {
            let rest = s.subrange(i + 1, s.len() as int);
            match first_char_pos(rest, q) {
                Some(j) => Some(rest.subrange(0, j)),
                None => Some(rest),
            }
        },
        None => None,
    }
}

fn second_piece_exec(v: &Vec<char>, q: char) -> (r: Option<String>)
    ensures
        match r {
            Some(p) => second_piece(v@, q) == Some(p@),
            None => second_piece(v@, q) is None,
        },
{
    let mut qv: Vec<char> = Vec::new();
    qv.push(q);
    proof { assert(qv@ =~= seq![q]); }
    let n = v.len();
    match find_chars(v, &qv) {
        Some(i) => {
            let rest_s = string_from(v, i + 1, n);
            let rest = chars_of(&rest_s);
            match find_chars(&rest, &qv) {
                Some(j) => Some(string_from(&rest, 0, j)),
                None => Some(rest_s),
            }
        },
        None => None,
    }
}

/// The path quoted in `~/.fehbg` (`exec feh --bg-scale '/path/to/img'`):
/// the first single-quoted piece, else the first double-quoted one, trimmed.
pub open spec fn fehbg_path_spec(data: Seq<char>) -> Option<Seq<char>> {
    match second_piece(data, '\'') {
        Some(p) => Some(trimmed(p, TrimSet::WhiteSpace)),
        None => match second_piece(data, '"') {
            Some(p) => Some(trimmed(p, TrimSet::WhiteSpace)),
            None => None,
        },
    }
}

/// Picks the image path out of a `~/.fehbg` script.
pub fn fehbg_path(data: &str) -> (r: Option<String>)
    ensures
        match r {
            Some(p) => fehbg_path_spec(data@) == Some(p@),
            None => fehbg_path_spec(data@) is None,
        },
{
    let v = chars_of(&String::from_str(data));
    let piece = match second_piece_exec(&v, '\'') {
        Some(p) => p,
        None => match second_piece_exec(&v, '"') {
            Some(p) => p,
            None => return None,
        },
    };
    Some(trim_text(piece.as_str(), TrimSet::WhiteSpace))
}

/// `s` without one leading `'`, if it has one.
pub open spec fn strip_one_front_quote(s: Seq<char>) -> Seq<char> {
    if s.len() > 0 && s[0] == '\'' { s.drop_first() } else { s }
}

/// `s` without one trailing `'`, if it has one.
pub open spec fn strip_one_back_quote(s: Seq<char>) -> Seq<char> {
    if s.len() > 0 && s.last() == '\'' { s.drop_last() } else { s }
}

/// The value `gsettings get` printed: trimmed, then one leading and one
/// trailing single quote removed.
pub open spec fn gsettings_value_spec(out: Seq<char>) -> Seq<char> {
    strip_one_back_quote(strip_one_front_quote(trimmed(out, TrimSet::WhiteSpace)))
}

/// Unquotes the value printed by `gsettings get <schema> <key>`.
pub fn gsettings_value(out: &str) -> (r: String)
    ensures
        r@ == gsettings_value_spec(out@),
{
    let t = trim_text(out, TrimSet::WhiteSpace);
    let v = chars_of(&t);
    let mut lo: usize = 0;
    let mut hi: usize = v.len();
    if hi > 0 && v[0] == '\'' {
        lo = 1;
    }
    if hi > lo && v[hi - 1] == '\'' {
        hi = hi - 1;
    }
    proof {
        let s1 = strip_one_front_quote(v@);
        assert(s1 =~= v@.subrange(lo as int, v@.len() as int));
        if s1.len() > 0 && s1.last() == '\'' {
            assert(s1.drop_last() =~= v@.subrange(lo as int, hi as int));
        } else {
            assert(s1 =~= v@.subrange(lo as int, hi as int));
        }
    }
    string_from(&v, lo, hi)
}

/// The value `xfconf-query -p` printed: trimmed of whitespace, then of
/// quotes.
pub fn xfconf_value(out: &str) -> (r: String)
    ensures
        r@ == trimmed(trimmed(out@, TrimSet::WhiteSpace), TrimSet::Quotes),
{
    let t = trim_text(out, TrimSet::WhiteSpace);
    trim_text(t.as_str(), TrimSet::Quotes)
}

/// Where a wallpaper setting points.
#[derive(Debug, Clone, PartialEq)]
pub enum WallpaperRef {
    /// A filesystem path.
    Path(String),
    /// A path relative to the home directory (written `~/...`).
    HomeRelative(String),
}

/// Whether `v` begins with the characters of `lit`.
fn has_prefix(v: &Vec<char>, lit: &str) -> (r: bool)
    ensures
        r == (lit@.len() <= v@.len() && v@.take(lit@.len() as int) == lit@),
{
    let p = chars_of(&String::from_str(lit));
    if p.len() > v.len() {
        return false;
    }
    let r = occurs_at_exec(v, &p, 0);
    proof {
        assert(v@.subrange(0, p@.len() as int) =~= v@.take(p@.len() as int));
    }
    r
}

/// The path text a wallpaper value (a setting or a configuration entry)
/// refers to, with the kind of reference; `None` for an empty value.
pub fn wallpaper_ref(value: &str) -> (r: Option<WallpaperRef>)
    ensures
        ({
            let t = trimmed(value@, TrimSet::WhiteSpace);
            match r {
                None => t.len() == 0,
                Some(WallpaperRef::Path(p)) => t.len() > 0 && if t.len() >= 7 && t.take(7)
                    == "file://"@ {
                    p@ == t.skip(7)
                } else {
                    !(t.len() >= 2 && t.take(2) == "~/"@) && p@ == t
                },
                Some(WallpaperRef::HomeRelative(p)) => t.len() > 0 && !(t.len() >= 7 && t.take(7)
                    == "file://"@) && t.len() >= 2 && t.take(2) == "~/"@ && p@ == t.skip(2),
            }
        }),
{
    let t = trim_text(value, TrimSet::WhiteSpace);
    let v = chars_of(&t);
    if v.len() == 0 {
        return None;
    }
    proof {
        reveal_strlit("file://");
        reveal_strlit("~/");
    }
    if has_prefix(&v, "file://") {
        Some(WallpaperRef::Path(string_from(&v, 7, v.len())))
    } else if has_prefix(&v, "~/") {
        Some(WallpaperRef::HomeRelative(string_from(&v, 2, v.len())))
    } else {
        Some(WallpaperRef::Path(t))
    }
}

/// Whether `prev` is one of the flags.
pub open spec fn is_flag(flags: Seq<String>, prev: Seq<char>) -> bool {
    exists|j: int| 0 <= j < flags.len() && flags[j]@ == prev
}

/// Among the first `n` arguments, those that follow one of the flags (the
/// first argument follows the empty text), in order.
pub open spec fn flagged_upto(args: Seq<String>, flags: Seq<String>, n: int) -> Seq<String>
    decreases n,
{
    if n <= 0 {
        seq![]
    } else {
        let prev = if n - 1 == 0 { Seq::<char>::empty() } else { args[n - 2]@ };
        let r = flagged_upto(args, flags, n - 1);
        if is_flag(flags, prev) {
            r.push(args[n - 1])
        } else {
            r
        }
    }
}

/// The arguments a running wallpaper daemon may have been given its image
/// in, in the order to try them: none unless the command (the first
/// argument) contains `binary`; with no flags, the last argument; otherwise
/// every argument that follows one of the flags.
pub open spec fn wallpaper_candidates_spec(args: Seq<String>, binary: Seq<char>, flags: Seq<String>) -> Seq<
    String,
> {
    if args.len() == 0 || !(exists|i: int| occurs_at(args[0]@, binary, i)) {
        seq![]
    } else if flags.len() == 0 {
        seq![args.last()]
    } else {
        flagged_upto(args, flags, args.len() as int)
    }
}

fn is_flag_exec(flags: &Vec<String>, prev: &String) -> (r: bool)
    ensures
        r == is_flag(flags@, prev@),
{
    let mut j: usize = 0;
    while j < flags.len()
        invariant
            j <= flags@.len(),
            forall|k: int| 0 <= k < j ==> flags@[k]@ != prev@,
        decreases flags@.len() - j,
    {
        if flags[j] == *prev {
            return true;
        }
        j = j + 1;
    }
    false
}

/// Picks the arguments of a running wallpaper daemon's command line that
/// may name its image (see [`wallpaper_candidates_spec`]).
pub fn wallpaper_candidates(args: &Vec<String>, binary: &str, flags: &Vec<String>) -> (r: Vec<String>)
    ensures
        r@ == wallpaper_candidates_spec(args@, binary@, flags@),
{
    let mut r: Vec<String> = Vec::new();
    if args.len() == 0 || !contains_text(args[0].as_str(), binary) {
        return r;
    }
    if flags.len() == 0 {
        r.push(args[args.len() - 1].clone());
        return r;
    }
    let mut prev = String::new();
    let mut i: usize = 0;
    while i < args.len()
        invariant
            i <= args@.len(),
            prev@ == (if i == 0 { Seq::<char>::empty() } else { args@[i - 1]@ }),
            r@ == flagged_upto(args@, flags@, i as int),
        decreases args@.len() - i,
    {
        if is_flag_exec(flags, &prev) {
            r.push(args[i].clone());
        }
        prev = args[i].clone();
        i = i + 1;
    }
    r
}

/// Whether a `/proc` entry name is a process id (only ASCII digits).
pub fn is_pid_dir_name(name: &str) -> (r: bool)
    ensures
        r == (forall|i: int| 0 <= i < name@.len() ==> '0' <= #[trigger] name@[i] <= '9'),
{
    let v = chars_of(&String::from_str(name));
    let mut i: usize = 0;
    while i < v.len()
        invariant
            v@ == name@,
            i <= v@.len(),
            forall|j: int| 0 <= j < i ==> '0' <= #[trigger] v@[j] <= '9',
        decreases v@.len() - i,
    {
        if !('0' <= v[i] && v[i] <= '9') {
            return false;
        }
        i = i + 1;
    }
    true
}


/// A place the desktop's wallpaper may be learnt from.
#[derive(Clone, Copy, Debug, PartialEq, Eq, Structural)]
pub enum WallpaperSource {
    /// The command line of a running wallpaper daemon (see [`daemon_of`]).
    Daemon(WallpaperDaemon),
    /// The output of `swww query`.
    SwwwQuery,
    /// The output of `hyprctl hyprpaper listloaded`.
    HyprpaperLoaded,
    /// The omarchy `current/background` link in the configuration folder.
    OmarchyBackground,
    /// The newest image in aether's `theme/backgrounds` folder.
    AetherBackgrounds,
    /// A `key=value` line of a configuration file (see [`config_file_of`]).
    ConfigFile(ConfigSource),
    /// The image named in `~/.fehbg`.
    Fehbg,
    /// A desktop setting read with `gsettings` (see [`gsettings_of`]).
    Gsettings(SettingsSource),
    /// The wallpapers KDE Plasma reports over D-Bus.
    KdeDbus,
    /// The Xfce backdrop properties.
    Xfconf,
}

/// Wallpaper daemons whose command line names the image.
#[derive(Clone, Copy, Debug, PartialEq, Eq, Structural)]
pub enum WallpaperDaemon {
    Swaybg,
    Mpvpaper,
    Hsetroot,
    Feh,
}

/// Configuration files that name the wallpaper.
#[derive(Clone, Copy, Debug, PartialEq, Eq, Structural)]
pub enum ConfigSource {
    Waypaper,
    Pcmanfm,
    Nitrogen,
    KdeApplets,
}

/// Desktop settings that name the wallpaper.
#[derive(Clone, Copy, Debug, PartialEq, Eq, Structural)]
pub enum SettingsSource {
    Gnome,
    Cinnamon,
    Mate,
}

/// The order in which the wallpaper is looked for: the GNOME setting first,
/// then the running daemons (what is on screen), the Hyprland tools (swww,
/// hyprpaper), omarchy, aether, the configuration files of waypaper,
/// pcmanfm, nitrogen and KDE, `~/.fehbg`, the Cinnamon and MATE settings,
/// KDE over D-Bus, and Xfce last. The first source that yields an image
/// wins.
pub open spec fn wallpaper_sources_spec() -> Seq<WallpaperSource> {
    seq![
        WallpaperSource::Gsettings(SettingsSource::Gnome),
        WallpaperSource::Daemon(WallpaperDaemon::Swaybg),
        WallpaperSource::Daemon(WallpaperDaemon::Mpvpaper),
        WallpaperSource::Daemon(WallpaperDaemon::Hsetroot),
        WallpaperSource::Daemon(WallpaperDaemon::Feh),
        WallpaperSource::SwwwQuery,
        WallpaperSource::HyprpaperLoaded,
        WallpaperSource::OmarchyBackground,
        WallpaperSource::AetherBackgrounds,
        WallpaperSource::ConfigFile(ConfigSource::Waypaper),
        WallpaperSource::ConfigFile(ConfigSource::Pcmanfm),
        WallpaperSource::ConfigFile(ConfigSource::Nitrogen),
        WallpaperSource::ConfigFile(ConfigSource::KdeApplets),
        WallpaperSource::Fehbg,
        WallpaperSource::Gsettings(SettingsSource::Cinnamon),
        WallpaperSource::Gsettings(SettingsSource::Mate),
        WallpaperSource::KdeDbus,
        WallpaperSource::Xfconf,
    ]
}

/// The wallpaper sources in the order they are tried.
pub fn wallpaper_sources() -> (r: Vec<WallpaperSource>)
    ensures
        r@ == wallpaper_sources_spec(),
{
    let mut r: Vec<WallpaperSource> = Vec::new();
    r.push(WallpaperSource::Gsettings(SettingsSource::Gnome));
    r.push(WallpaperSource::Daemon(WallpaperDaemon::Swaybg));
    r.push(WallpaperSource::Daemon(WallpaperDaemon::Mpvpaper));
    r.push(WallpaperSource::Daemon(WallpaperDaemon::Hsetroot));
    r.push(WallpaperSource::Daemon(WallpaperDaemon::Feh));
    r.push(WallpaperSource::SwwwQuery);
    r.push(WallpaperSource::HyprpaperLoaded);
    r.push(WallpaperSource::OmarchyBackground);
    r.push(WallpaperSource::AetherBackgrounds);
    r.push(WallpaperSource::ConfigFile(ConfigSource::Waypaper));
    r.push(WallpaperSource::ConfigFile(ConfigSource::Pcmanfm));
    r.push(WallpaperSource::ConfigFile(ConfigSource::Nitrogen));
    r.push(WallpaperSource::ConfigFile(ConfigSource::KdeApplets));
    r.push(WallpaperSource::Fehbg);
    r.push(WallpaperSource::Gsettings(SettingsSource::Cinnamon));
    r.push(WallpaperSource::Gsettings(SettingsSource::Mate));
    r.push(WallpaperSource::KdeDbus);
    r.push(WallpaperSource::Xfconf);
    proof { assert(r@ =~= wallpaper_sources_spec()); }
    r
}

/// The daemon's program name and the flags its image follows (none: the
/// last argument is the image).
pub open spec fn daemon_spec(d: WallpaperDaemon) -> (Seq<char>, Seq<Seq<char>>) {
    match d {
        WallpaperDaemon::Swaybg => ("swaybg"@, seq!["-i"@, "--image"@]),
        WallpaperDaemon::Mpvpaper => ("mpvpaper"@, seq![]),
        WallpaperDaemon::Hsetroot => ("hsetroot"@, seq![]),
        WallpaperDaemon::Feh => ("feh"@, seq![]),
    }
}

/// The program name and image flags of a wallpaper daemon.
pub fn daemon_of(d: WallpaperDaemon) -> (r: (String, Vec<String>))
    ensures
        r.0@ == daemon_spec(d).0,
        r.1@.map_values(|f: String| f@) == daemon_spec(d).1,
{
    let mut flags: Vec<String> = Vec::new();
    let name = match d {
        WallpaperDaemon::Swaybg => {
            flags.push(String::from_str("-i"));
            flags.push(String::from_str("--image"));
            String::from_str("swaybg")
        },
        WallpaperDaemon::Mpvpaper => String::from_str("mpvpaper"),
        WallpaperDaemon::Hsetroot => String::from_str("hsetroot"),
        WallpaperDaemon::Feh => String::from_str("feh"),
    };
    proof { assert(flags@.map_values(|f: String| f@) =~= daemon_spec(d).1); }
    (name, flags)
}

/// The configuration file (below the configuration folder) and the key
/// that names the wallpaper in it.
pub open spec fn config_file_spec(c: ConfigSource) -> (Seq<char>, Seq<char>) {
    match c {
        ConfigSource::Waypaper => ("waypaper/config.ini"@, "current_wallpaper"@),
        ConfigSource::Pcmanfm => ("pcmanfm/default/pcmanfm.conf"@, "wallpaper"@),
        ConfigSource::Nitrogen => ("nitrogen/bg-saved.cfg"@, "file"@),
        ConfigSource::KdeApplets => ("plasma-org.kde.plasma.desktop-appletsrc"@, "Image"@),
    }
}

/// The file and key of a configuration source.
pub fn config_file_of(c: ConfigSource) -> (r: (String, String))
    ensures
        r.0@ == config_file_spec(c).0,
        r.1@ == config_file_spec(c).1,
{
    match c {
        ConfigSource::Waypaper => (String::from_str("waypaper/config.ini"), String::from_str("current_wallpaper")),
        ConfigSource::Pcmanfm => (String::from_str("pcmanfm/default/pcmanfm.conf"), String::from_str("wallpaper")),
        ConfigSource::Nitrogen => (String::from_str("nitrogen/bg-saved.cfg"), String::from_str("file")),
        ConfigSource::KdeApplets => (
            String::from_str("plasma-org.kde.plasma.desktop-appletsrc"),
            String::from_str("Image"),
        ),
    }
}

/// The settings schema and key that name the wallpaper.
pub open spec fn gsettings_spec(g: SettingsSource) -> (Seq<char>, Seq<char>) {
    match g {
        SettingsSource::Gnome => ("org.gnome.desktop.background"@, "picture-uri"@),
        SettingsSource::Cinnamon => ("org.cinnamon.desktop.background"@, "picture-uri"@),
        SettingsSource::Mate => ("org.mate.background"@, "picture-filename"@),
    }
}

/// The schema and key of a settings source.
pub fn gsettings_of(g: SettingsSource) -> (r: (String, String))
    ensures
        r.0@ == gsettings_spec(g).0,
        r.1@ == gsettings_spec(g).1,
{
    match g {
        SettingsSource::Gnome => (String::from_str("org.gnome.desktop.background"), String::from_str("picture-uri")),
        SettingsSource::Cinnamon => (
            String::from_str("org.cinnamon.desktop.background"),
            String::from_str("picture-uri"),
        ),
        SettingsSource::Mate => (String::from_str("org.mate.background"), String::from_str("picture-filename")),
    }
}


/// Whether the bytes decode as an image (`image::load_from_memory`
/// succeeds), for the image formats the `image` crate reads.
pub uninterp spec fn decodes_as_image(data: Seq<u8>) -> bool;

/// `image::load_from_memory(data).is_ok()`. Which byte sequences decode is
/// left to the image crate's decoders; the answer depends on the bytes
/// alone and is named `decodes_as_image`.
#[verifier::external_body]
fn is_valid_image(data: &[u8]) -> (r: bool)
    ensures
        r == decodes_as_image(data@),
{
    image::load_from_memory(data).is_ok()
}

/// The bytes, when they decode as an image.
pub fn accept_image(data: Vec<u8>) -> (r: Option<Vec<u8>>)
    ensures
        match r {
            Some(d) => decodes_as_image(data@) && d@ == data@,
            None => !decodes_as_image(data@),
        },
{
    if is_valid_image(data.as_slice()) {
        Some(data)
    } else {
        None
    }
}

/// What is done with a wallpaper file's bytes.
#[derive(Clone, Copy, Debug, PartialEq, Eq, Structural)]
pub enum WallpaperRead {
    /// The bytes are an image: use them.
    Use,
    /// An animated wallpaper: use one decoded frame of it instead.
    DecodeVideoFrame,
    /// Neither: look elsewhere.
    Skip,
}

/// Bytes that decode as an image are used; otherwise a video file (by its
/// extension) has a frame taken from it; anything else is skipped.
pub open spec fn wallpaper_read_spec(decodes: bool, path: Seq<char>) -> WallpaperRead {
    if decodes {
        WallpaperRead::Use
    } else if (match extension_spec(path) {
        Some(e) => is_video_ext(e),
        None => false,
    }) {
        WallpaperRead::DecodeVideoFrame
    } else {
        WallpaperRead::Skip
    }
}

/// What to do with a wallpaper file at `path`, given whether its bytes
/// decode as an image.
pub fn wallpaper_read_decision(decodes: bool, path: &str) -> (r: WallpaperRead)
    ensures
        r == wallpaper_read_spec(decodes, path@),
{
    if decodes {
        WallpaperRead::Use
    } else if is_video_path(path) {
        WallpaperRead::DecodeVideoFrame
    } else {
        WallpaperRead::Skip
    }
}

/// What to do with the bytes read from the wallpaper file at `path`.
pub fn wallpaper_read(data: &Vec<u8>, path: &str) -> (r: WallpaperRead)
    ensures
        r == wallpaper_read_spec(decodes_as_image(data@), path@),
{
    let decodes = is_valid_image(data.as_slice());
    wallpaper_read_decision(decodes, path)
}

} // verus!
