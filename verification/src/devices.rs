//! Choosing the hardware output device for bit-perfect playback: the order
//! in which device names are tried, the device list offered to the user,
//! and how devices are labelled.
//!
//! Whether a device opens, and what the sound card is called, are asked of
//! the sound system by the host; everything decided from those answers is
//! here.

use vstd::prelude::*;
use crate::library::starts_with;
use crate::text::{chars_of, decimal, push_decimal, string_from};
use crate::wallpaper::{trim_text, trimmed, TrimSet};

verus! {

/// The name of hardware device `dev` on card `card`: `hw:CARD,DEV`.
pub open spec fn hw_name(card: nat, dev: nat) -> Seq<char> {
    "hw:"@ + decimal(card) + ","@ + decimal(dev)
}

/// The name of hardware device `dev` on card `card`.
pub fn hw_device_name(card: usize, dev: usize) -> (s: String)
    ensures
        s@ == hw_name(card as nat, dev as nat),
{
    let mut s = String::from_str("hw:");
    push_decimal(&mut s, card);
    s.append(",");
    push_decimal(&mut s, dev);
    s
}

/// A device name that addresses the hardware directly.
pub open spec fn is_hw(name: Seq<char>) -> bool {
    name.len() >= 3 && name.take(3) == "hw:"@
}

/// The names tried when the sound system lists nothing usable: devices 0 to
/// 31 of cards 0 to 31, card by card.
pub open spec fn scan_names() -> Seq<Seq<char>> {
    Seq::new(1024, |i: int| hw_name((i / 32) as nat, (i % 32) as nat))
}

/// The hardware names among the first `n` names the sound system lists.
pub open spec fn hw_hints(hints: Seq<String>, n: nat) -> Seq<Seq<char>>
    decreases n,
{
    if n == 0 {
        seq![]
    } else {
        let p = hw_hints(hints, (n - 1) as nat);
        if is_hw(hints[n - 1]@) {
            p.push(hints[n - 1]@)
        } else {
            p
        }
    }
}

/// The device names to try, in order. A configured name (trimmed) is tried
/// as given and then, when it names a sound card, as that card's first
/// device; nothing else is tried then. Without one, the hardware names the
/// sound system lists come first, then the scan of card and device numbers.
pub open spec fn device_candidates_spec(configured: Seq<char>, card: Option<usize>, hints: Seq<String>) -> Seq<
    Seq<char>,
> {
    let c = trimmed(configured, TrimSet::WhiteSpace);
    if c.len() > 0 {
        match card {
            Some(k) => seq![c, hw_name(k as nat, 0)],
            None => seq![c],
        }
    } else {
        hw_hints(hints, hints.len()) + scan_names()
    }
}

/// The view of a list of names.
pub open spec fn names_of(v: Seq<String>) -> Seq<Seq<char>> {
    v.map_values(|s: String| s@)
}

fn is_hw_name(name: &String) -> (r: bool)
    ensures
        r == is_hw(name@),
{
    proof { reveal_strlit("hw:"); }
    starts_with(name.as_str(), "hw:")
}

/// Appends the scan names to `out`.
fn push_scan_names(out: &mut Vec<String>)
    ensures
        names_of(final(out)@) == names_of(old(out)@) + scan_names(),
{
    let ghost start = names_of(out@);
    let mut card: usize = 0;
    while card < 32
        invariant
            card <= 32,
            names_of(out@) == start + scan_names().take(card * 32),
        decreases 32 - card,
    {
        let mut dev: usize = 0;
        while dev < 32
            invariant
                card < 32,
                dev <= 32,
                names_of(out@) == start + scan_names().take(card * 32 + dev),
            decreases 32 - dev,
        {
            let ghost before = out@;
            out.push(hw_device_name(card, dev));
            proof {
                let i = card * 32 + dev;
                assert(i / 32 == card as int && i % 32 == dev as int) by (nonlinear_arith)
                    requires i == card * 32 + dev, dev < 32;
                assert(names_of(out@) =~= names_of(before).push(out@[before.len() as int]@));
                assert(scan_names().take(i + 1) =~= scan_names().take(i).push(scan_names()[i]));
            }
            dev = dev + 1;
        }
        card = card + 1;
    }
    proof { assert(scan_names().take(1024) =~= scan_names()); }
}

/// The device names to try, in order (see [`device_candidates_spec`]);
/// `card` is the index of the sound card the configured name stands for,
/// if the sound system knows one.
pub fn device_candidates(configured: &str, card: Option<usize>, hints: &Vec<String>) -> (r: Vec<String>)
    ensures
        names_of(r@) == device_candidates_spec(configured@, card, hints@),
{
    let c = trim_text(configured, TrimSet::WhiteSpace);
    let mut r: Vec<String> = Vec::new();
    if c.unicode_len() > 0 {
        r.push(c);
        match card {
            Some(k) => {
                r.push(hw_device_name(k, 0));
            },
            None => {},
        }
        proof {
            assert(names_of(r@) =~= device_candidates_spec(configured@, card, hints@));
        }
        return r;
    }
    let mut i: usize = 0;
    while i < hints.len()
        invariant
            i <= hints@.len(),
            names_of(r@) == hw_hints(hints@, i as nat),
        decreases hints@.len() - i,
    {
        let ghost before = r@;
        if is_hw_name(&hints[i]) {
            r.push(hints[i].clone());
            proof { assert(names_of(r@) =~= names_of(before).push(hints@[i as int]@)); }
        }
        i = i + 1;
    }
    push_scan_names(&mut r);
    r
}

/// The names of `s[..n]` without repeats, each at its first place.
pub open spec fn first_occurrences(s: Seq<Seq<char>>, n: nat) -> Seq<Seq<char>>
    decreases n,
{
    if n == 0 {
        seq![]
    } else {
        let p = first_occurrences(s, (n - 1) as nat);
        if p.contains(s[n - 1]) {
            p
        } else {
            p.push(s[n - 1])
        }
    }
}

fn contains_name(v: &Vec<String>, name: &String) -> (r: bool)
    ensures
        r == names_of(v@).contains(name@),
{
    let mut i: usize = 0;
    while i < v.len()
        invariant
            i <= v@.len(),
            forall|j: int| 0 <= j < i ==> v@[j]@ != name@,
        decreases v@.len() - i,
    {
        if v[i] == *name {
            proof { assert(names_of(v@)[i as int] == name@); }
            return true;
        }
        i = i + 1;
    }
    proof {
        if names_of(v@).contains(name@) {
            let j = choose|j: int| 0 <= j < names_of(v@).len() && names_of(v@)[j] == name@;
            assert(v@[j]@ == name@);
        }
    }
    false
}

/// The devices offered to the user: the names that opened, in the order
/// they were tried, each once.
pub fn unique_names(names: &Vec<String>) -> (r: Vec<String>)
    ensures
        names_of(r@) == first_occurrences(names_of(names@), names@.len()),
{
    let mut r: Vec<String> = Vec::new();
    let mut i: usize = 0;
    while i < names.len()
        invariant
            i <= names@.len(),
            names_of(r@) == first_occurrences(names_of(names@), i as nat),
        decreases names@.len() - i,
    {
        let ghost before = r@;
        proof { assert(names_of(names@)[i as int] == names@[i as int]@); }
        if !contains_name(&r, &names[i]) {
            r.push(names[i].clone());
            proof { assert(names_of(r@) =~= names_of(before).push(names@[i as int]@)); }
        }
        i = i + 1;
    }
    r
}

/// The part of a device name before its first comma, if it has one.
pub open spec fn card_part_spec(dev: Seq<char>) -> Option<Seq<char>> {
    if exists|i: int| 0 <= i < dev.len() && dev[i] == ',' {
        let i = choose|i: int|
            0 <= i < dev.len() && dev[i] == ',' && forall|j: int| 0 <= j < i ==> dev[j] != ',';
        Some(dev.take(i))
    } else {
        None
    }
}

/// The card part of a device name (`hw:1` of `hw:1,0`), whose sound card
/// names the device in the list.
pub fn card_part(dev: &str) -> (r: Option<String>)
    ensures
        match r {
            Some(p) => card_part_spec(dev@) == Some(p@),
            None => card_part_spec(dev@) is None,
        },
{
    let v = chars_of(&String::from_str(dev));
    let mut i: usize = 0;
    while i < v.len()
        invariant
            v@ == dev@,
            i <= v@.len(),
            forall|j: int| 0 <= j < i ==> v@[j] != ',',
        decreases v@.len() - i,
    {
        if v[i] == ',' {
            proof {
                let c = choose|c: int|
                    0 <= c < dev@.len() && dev@[c] == ',' && forall|j: int| 0 <= j < c ==> dev@[j] != ',';
                if c < i {
                    assert(v@[c] != ',');
                }
                if i < c {
                    assert(dev@[i as int] != ',');
                }
                assert(v@.subrange(0, i as int) =~= dev@.take(i as int));
            }
            return Some(string_from(&v, 0, i));
        }
        i = i + 1;
    }
    None
}

/// How a device is listed: `NAME · CARD` when its sound card is known,
/// otherwise the name alone.
pub open spec fn device_label_spec(dev: Seq<char>, card_name: Option<Seq<char>>) -> Seq<char> {
    match card_name {
        Some(n) => dev + " \u{b7} "@ + n,
        None => dev,
    }
}

/// The label of a device in the list.
pub fn device_label(dev: &str, card_name: Option<&str>) -> (s: String)
    ensures
        s@ == device_label_spec(
            dev@,
            match card_name {
                Some(n) => Some(n@),
                None => None,
            },
        ),
{
    let mut s = String::from_str(dev);
    match card_name {
        Some(n) => {
            s.append(" \u{b7} ");
            s.append(n);
        },
        None => {},
    }
    s
}

/// The error when no device could be opened.
pub open spec fn no_device_message(configured: Seq<char>) -> Seq<char> {
    let c = trimmed(configured, TrimSet::WhiteSpace);
    if c.len() > 0 {
        "cannot open configured ALSA device '"@ + c + "'"@
    } else {
        "no usable hw: playback device found"@
    }
}

/// The message reported when none of the candidates opened.
pub fn no_device_error(configured: &str) -> (s: String)
    ensures
        s@ == no_device_message(configured@),
{
    let c = trim_text(configured, TrimSet::WhiteSpace);
    if c.unicode_len() > 0 {
        let mut s = String::from_str("cannot open configured ALSA device '");
        s.append(c.as_str());
        s.append("'");
        s
    } else {
        String::from_str("no usable hw: playback device found")
    }
}


/// The device list names each device once, and names every device that
/// opened.
pub proof fn lemma_first_occurrences_unique(s: Seq<Seq<char>>, n: nat)
    requires
        n <= s.len(),
    ensures
        first_occurrences(s, n).no_duplicates(),
        forall|i: int| 0 <= i < n ==> first_occurrences(s, n).contains(#[trigger] s[i]),
        forall|x: Seq<char>| first_occurrences(s, n).contains(x) ==> s.take(n as int).contains(x),
    decreases n,
{
    if n > 0 {
        lemma_first_occurrences_unique(s, (n - 1) as nat);
        let p = first_occurrences(s, (n - 1) as nat);
        assert forall|x: Seq<char>| first_occurrences(s, n).contains(x) implies s.take(n as int).contains(x) by {
            if p.contains(x) {
                let k = choose|k: int| 0 <= k < s.take(n - 1).len() && #[trigger] s.take(n - 1)[k] == x;
                assert(s.take(n as int)[k] == x);
            } else {
                assert(s.take(n as int)[n - 1] == x);
            }
        }
        assert forall|i: int| 0 <= i < n implies first_occurrences(s, n).contains(#[trigger] s[i]) by {
            if i < n - 1 {
                assert(p.contains(s[i]));
                if !p.contains(s[n - 1]) {
                    let k = choose|k: int| 0 <= k < p.len() && #[trigger] p[k] == s[i];
                    assert(p.push(s[n - 1])[k] == s[i]);
                }
            } else if !p.contains(s[n - 1]) {
                assert(p.push(s[n - 1])[p.len() as int] == s[n - 1]);
            }
        }
    }
}

} // verus!
