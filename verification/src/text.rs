//! Text helpers shared by the player's user interfaces.

use vstd::prelude::*;

verus! {

/// The ellipsis appended to a shortened label.
pub const ELLIPSIS: char = '\u{2026}';

/// What `truncate` yields: the first `max_chars` characters followed by an
/// ellipsis when the text is longer, otherwise the text itself.
pub open spec fn truncated(text: Seq<char>, max_chars: nat) -> Seq<char> {
    if text.len() > max_chars {
        text.take(max_chars as int).push(ELLIPSIS)
    } else {
        text
    }
}

/// Appends one character to a string (`String::push`).
#[verifier::external_body]
pub(crate) fn push_char(s: &mut String, c: char)
    ensures
        final(s)@ == old(s)@.push(c),
{
    s.push(c);
}

/// Shortens `text` to at most `max_chars` characters, marking the cut with
/// an ellipsis.
pub fn truncate(text: &str, max_chars: usize) -> (out: String)
    ensures
        out@ == truncated(text@, max_chars as nat),
{
    let mut out = String::new();
    let mut i: usize = 0;
    for c in it: text.chars()
        invariant_except_break
            i == it.index(),
            i <= max_chars,
            out@ == text@.take(i as int),
        invariant
            it.seq() == text@,
        ensures
            out@ == truncated(text@, max_chars as nat),
    {
        if i >= max_chars {
            push_char(&mut out, ELLIPSIS);
            break;
        }
        push_char(&mut out, c);
        i = i + 1;
    }
    out
}



/// The characters of `s`, one by one.
pub fn chars_of(s: &String) -> (v: Vec<char>)
    ensures
        v@ == s@,
{
    let mut v: Vec<char> = Vec::new();
    for c in it: s.as_str().chars()
        invariant
            it.seq() == s@,
            v@ == s@.take(it.index() as int),
    {
        v.push(c);
        proof { assert(v@ =~= s@.take(it.index() as int + 1)); }
    }
    proof { assert(s@.take(s@.len() as int) =~= s@); }
    v
}

/// Whether `s` holds the text of `lit`.
pub fn text_is(s: &String, lit: &str) -> (r: bool)
    ensures
        r == (s@ == lit@),
{
    *s == String::from_str(lit)
}

/// The text of `v[lo..hi]`.
pub fn string_from(v: &Vec<char>, lo: usize, hi: usize) -> (s: String)
    requires
        lo <= hi <= v@.len(),
    ensures
        s@ == v@.subrange(lo as int, hi as int),
{
    let mut s = String::new();
    let mut i = lo;
    while i < hi
        invariant
            lo <= i <= hi <= v@.len(),
            s@ == v@.subrange(lo as int, i as int),
        decreases hi - i,
    {
        push_char(&mut s, v[i]);
        i = i + 1;
        proof { assert(s@ =~= v@.subrange(lo as int, i as int)); }
    }
    s
}

/// The decimal digit for `d` (below ten).
pub open spec fn digit_char(d: nat) -> char {
    if d == 0 { '0' } else if d == 1 { '1' } else if d == 2 { '2' } else if d == 3 { '3' }
    else if d == 4 { '4' } else if d == 5 { '5' } else if d == 6 { '6' } else if d == 7 { '7' }
    else if d == 8 { '8' } else { '9' }
}

/// The decimal notation of `n`, without leading zeros.
pub open spec fn decimal(n: nat) -> Seq<char>
    decreases n,
{
    if n < 10 {
        seq![digit_char(n)]
    } else {
        decimal(n / 10).push(digit_char(n % 10))
    }
}

fn digit(d: usize) -> (c: char)
    requires
        d < 10,
    ensures
        c == digit_char(d as nat),
{
    match d {
        0 => '0',
        1 => '1',
        2 => '2',
        3 => '3',
        4 => '4',
        5 => '5',
        6 => '6',
        7 => '7',
        8 => '8',
        _ => '9',
    }
}

/// Appends the decimal notation of `n` to `out`.
pub fn push_decimal(out: &mut String, n: usize)
    ensures
        final(out)@ == old(out)@ + decimal(n as nat),
    decreases n,
{
    if n >= 10 {
        push_decimal(out, n / 10);
    }
    push_char(out, digit(n % 10));
    proof {
        if n < 10 {
            assert(decimal(n as nat) == seq![digit_char(n as nat)]);
        }
    }
}


/// A number shown with at least two digits (`{:02}`).
pub open spec fn two_digits(n: nat) -> Seq<char> {
    if n < 10 {
        seq!['0'] + decimal(n)
    } else {
        decimal(n)
    }
}

/// The `MM:SS` label of a time in whole seconds (minutes may exceed 59).
pub open spec fn clock_label_spec(secs: nat) -> Seq<char> {
    two_digits(secs / 60) + seq![':'] + two_digits(secs % 60)
}

fn push_two_digits(out: &mut String, n: u32)
    ensures
        final(out)@ == old(out)@ + two_digits(n as nat),
{
    if n < 10 {
        push_char(out, '0');
    }
    push_decimal(out, n as usize);
    proof {
        if n < 10 {
            assert(final(out)@ =~= old(out)@ + two_digits(n as nat));
        }
    }
}

/// The position or duration label under the seek bar.
pub fn clock_label(secs: u32) -> (s: String)
    ensures
        s@ == clock_label_spec(secs as nat),
{
    let mut s = String::new();
    push_two_digits(&mut s, secs / 60);
    push_char(&mut s, ':');
    push_two_digits(&mut s, secs % 60);
    proof { assert(s@ =~= clock_label_spec(secs as nat)); }
    s
}

/// The pause between repaints for a target frame rate, in milliseconds;
/// the rate is kept between 1 and 240 frames per second.
pub fn frame_interval_ms(target_fps: u32) -> (ms: u64)
    ensures
        ms == 1000int / (if target_fps < 1 { 1int } else if target_fps > 240 { 240int } else { target_fps as int }),
{
    let fps = if target_fps < 1 { 1 } else if target_fps > 240 { 240 } else { target_fps };
    (1000 / fps) as u64
}

} // verus!
