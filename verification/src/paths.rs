//! When two file paths name the same file for the player: paths are
//! compared by their components, as the standard library compares paths on
//! Unix. Repeated and trailing separators and `.` components after the
//! first make no difference; a leading `/` and a leading `./` do. The file
//! name, its stem and its extension are taken as the standard library takes
//! them on Unix.

use vstd::prelude::*;
use crate::text::{chars_of, string_from};

verus! {

/// The pieces so far, with the piece in progress added unless it is empty
/// or `.`.
pub open spec fn flush(done: Seq<Seq<char>>, cur: Seq<char>) -> Seq<Seq<char>> {
    if cur.len() == 0 || cur == seq!['.'] {
        done
    } else {
        done.push(cur)
    }
}

/// The pieces of the first `i` characters of `s` split at `/`: the finished
/// pieces and the one in progress.
pub open spec fn scan(s: Seq<char>, i: nat) -> (Seq<Seq<char>>, Seq<char>)
    decreases i,
{
    if i == 0 {
        (seq![], seq![])
    } else {
        let p = scan(s, (i - 1) as nat);
        if s[i - 1] == '/' {
            (flush(p.0, p.1), seq![])
        } else {
            (p.0, p.1.push(s[i - 1]))
        }
    }
}

/// The component a path starts with: the root for an absolute path, the
/// current directory for a relative path whose first piece is `.`.
pub open spec fn path_head(s: Seq<char>) -> Seq<Seq<char>> {
    if s.len() > 0 && s[0] == '/' {
        seq![seq!['/']]
    } else if s.len() > 0 && s[0] == '.' && (s.len() == 1 || s[1] == '/') {
        seq![seq!['.']]
    } else {
        seq![]
    }
}

/// The components of a path: the root (`/`) or leading current directory
/// (`.`), then the non-empty pieces between separators other than `.`.
pub open spec fn path_components(s: Seq<char>) -> Seq<Seq<char>> {
    let p = scan(s, s.len());
    path_head(s) + flush(p.0, p.1)
}

/// Two paths name the same file: they have the same components.
pub open spec fn same_path(a: Seq<char>, b: Seq<char>) -> bool {
    path_components(a) == path_components(b)
}

/// The views of a list of character vectors.
pub open spec fn views(v: Seq<Vec<char>>) -> Seq<Seq<char>> {
    v.map_values(|c: Vec<char>| c@)
}

fn push_piece(done: &mut Vec<Vec<char>>, cur: Vec<char>)
    ensures
        views(final(done)@) == flush(views(old(done)@), cur@),
{
    let dot = cur.len() == 1 && cur[0] == '.';
    proof {
        if cur@.len() == 1 && cur@[0] == '.' {
            assert(cur@ =~= seq!['.']);
        }
    }
    if cur.len() != 0 && !dot {
        let ghost before = done@;
        done.push(cur);
        proof { assert(views(done@) =~= views(before).push(done@[before.len() as int]@)); }
    }
}

/// The components of a path.
pub fn components_of(s: &String) -> (c: Vec<Vec<char>>)
    ensures
        views(c@) == path_components(s@),
{
    let v = chars_of(s);
    let mut done: Vec<Vec<char>> = Vec::new();
    if v.len() > 0 && v[0] == '/' {
        let mut root: Vec<char> = Vec::new();
        root.push('/');
        done.push(root);
    } else if v.len() > 0 && v[0] == '.' && (v.len() == 1 || v[1] == '/') {
        let mut cur_dir: Vec<char> = Vec::new();
        cur_dir.push('.');
        done.push(cur_dir);
    }
    proof { assert(views(done@) =~= path_head(s@) + scan(s@, 0).0); }
    let mut cur: Vec<char> = Vec::new();
    let mut i: usize = 0;
    while i < v.len()
        invariant
            v@ == s@,
            i <= v@.len(),
            views(done@) == path_head(s@) + scan(s@, i as nat).0,
            cur@ == scan(s@, i as nat).1,
        decreases v@.len() - i,
    {
        let c = v[i];
        if c == '/' {
            let piece = cur;
            cur = Vec::new();
            let ghost before = views(done@);
            push_piece(&mut done, piece);
            proof {
                let p = scan(s@, i as nat);
                assert(flush(path_head(s@) + p.0, p.1) =~= path_head(s@) + flush(p.0, p.1));
            }
        } else {
            cur.push(c);
        }
        i = i + 1;
    }
    let ghost before = views(done@);
    push_piece(&mut done, cur);
    proof {
        let p = scan(s@, s@.len());
        assert(flush(path_head(s@) + p.0, p.1) =~= path_head(s@) + flush(p.0, p.1));
    }
    done
}

fn chars_equal(a: &Vec<char>, b: &Vec<char>) -> (r: bool)
    ensures
        r == (a@ == b@),
{
    if a.len() != b.len() {
        return false;
    }
    let mut i: usize = 0;
    while i < a.len()
        invariant
            a@.len() == b@.len(),
            i <= a@.len(),
            forall|j: int| 0 <= j < i ==> a@[j] == b@[j],
        decreases a@.len() - i,
    {
        if a[i] != b[i] {
            return false;
        }
        i = i + 1;
    }
    proof { assert(a@ =~= b@); }
    true
}

/// Whether two paths name the same file (see [`same_path`]).
pub fn paths_equal(a: &String, b: &String) -> (r: bool)
    ensures
        r == same_path(a@, b@),
{
    let ca = components_of(a);
    let cb = components_of(b);
    if ca.len() != cb.len() {
        proof { assert(views(ca@).len() != views(cb@).len()); }
        return false;
    }
    let mut i: usize = 0;
    while i < ca.len()
        invariant
            ca@.len() == cb@.len(),
            views(ca@) == path_components(a@),
            views(cb@) == path_components(b@),
            i <= ca@.len(),
            forall|j: int| 0 <= j < i ==> ca@[j]@ == cb@[j]@,
        decreases ca@.len() - i,
    {
        if !chars_equal(&ca[i], &cb[i]) {
            proof {
                assert(views(ca@)[i as int] == ca@[i as int]@);
                assert(views(cb@)[i as int] == cb@[i as int]@);
                assert(views(ca@) != views(cb@));
            }
            return false;
        }
        i = i + 1;
    }
    proof { assert(views(ca@) =~= views(cb@)); }
    true
}


/// The file name of a path: its last component, unless that is the root,
/// the current directory or the parent directory (`..`).
pub open spec fn file_name_spec(s: Seq<char>) -> Option<Seq<char>> {
    let c = path_components(s);
    if c.len() == 0 {
        None
    } else if c.last() == seq!['/'] || c.last() == seq!['.'] || c.last() == seq!['.', '.'] {
        None
    } else {
        Some(c.last())
    }
}

/// The position of the last `.` in a name.
pub open spec fn last_dot(name: Seq<char>) -> Option<int> {
    if exists|i: int| 0 <= i < name.len() && name[i] == '.' {
        Some(
            choose|i: int|
                0 <= i < name.len() && name[i] == '.' && forall|j: int| i < j < name.len() ==> name[j] != '.',
        )
    } else {
        None
    }
}

/// The stem of a file name: what comes before its last `.`, or the whole
/// name when it has no `.` other than a leading one.
pub open spec fn stem_of(name: Seq<char>) -> Seq<char> {
    match last_dot(name) {
        Some(i) => if i > 0 {
            name.take(i)
        } else {
            name
        },
        None => name,
    }
}

/// The extension of a file name: what comes after its last `.`, when that
/// `.` is not the first character.
pub open spec fn ext_of(name: Seq<char>) -> Option<Seq<char>> {
    match last_dot(name) {
        Some(i) => if i > 0 {
            Some(name.subrange(i + 1, name.len() as int))
        } else {
            None
        },
        None => None,
    }
}

/// The file stem of a path (`Path::file_stem`).
pub open spec fn file_stem_spec(s: Seq<char>) -> Option<Seq<char>> {
    match file_name_spec(s) {
        Some(n) => Some(stem_of(n)),
        None => None,
    }
}

/// The extension of a path (`Path::extension`).
pub open spec fn extension_spec(s: Seq<char>) -> Option<Seq<char>> {
    match file_name_spec(s) {
        Some(n) => ext_of(n),
        None => None,
    }
}

/// The file name of a path, as characters.
fn file_name_chars(path: &str) -> (r: Option<Vec<char>>)
    ensures
        match r {
            Some(v) => file_name_spec(path@) == Some(v@),
            None => file_name_spec(path@) is None,
        },
{
    let c = components_of(&String::from_str(path));
    let n = c.len();
    if n == 0 {
        return None;
    }
    let last = &c[n - 1];
    proof { assert(views(c@).last() == last@); }
    let is_root = last.len() == 1 && last[0] == '/';
    let is_cur = last.len() == 1 && last[0] == '.';
    let is_parent = last.len() == 2 && last[0] == '.' && last[1] == '.';
    proof {
        assert(is_root == (last@ == seq!['/'])) by {
            if last@.len() == 1 && last@[0] == '/' {
                assert(last@ =~= seq!['/']);
            }
        }
        assert(is_cur == (last@ == seq!['.'])) by {
            if last@.len() == 1 && last@[0] == '.' {
                assert(last@ =~= seq!['.']);
            }
        }
        assert(is_parent == (last@ == seq!['.', '.'])) by {
            if last@.len() == 2 && last@[0] == '.' && last@[1] == '.' {
                assert(last@ =~= seq!['.', '.']);
            }
        }
    }
    if is_root || is_cur || is_parent {
        None
    } else {
        Some(last.clone())
    }
}

/// The position of the last `.` in `v`.
fn find_last_dot(v: &Vec<char>) -> (r: Option<usize>)
    ensures
        match r {
            Some(i) => last_dot(v@) == Some(i as int) && i < v@.len(),
            None => last_dot(v@) is None,
        },
{
    let mut k: usize = v.len();
    while k > 0
        invariant
            k <= v@.len(),
            forall|j: int| k <= j < v@.len() ==> v@[j] != '.',
        decreases k,
    {
        if v[k - 1] == '.' {
            let i = k - 1;
            proof {
                let c = choose|c: int|
                    0 <= c < v@.len() && v@[c] == '.' && forall|j: int| c < j < v@.len() ==> v@[j] != '.';
                if c < i {
                    assert(v@[i as int] != '.');
                }
                if c > i {
                    assert(v@[c] != '.');
                }
            }
            return Some(i);
        }
        k = k - 1;
    }
    None
}

/// The file stem of a path (`Path::file_stem` on Unix).
pub fn file_stem(path: &str) -> (r: Option<String>)
    ensures
        match r {
            Some(e) => file_stem_spec(path@) == Some(e@),
            None => file_stem_spec(path@) is None,
        },
{
    match file_name_chars(path) {
        Some(name) => {
            let n = name.len();
            match find_last_dot(&name) {
                Some(i) => {
                    if i > 0 {
                        proof { assert(name@.subrange(0, i as int) =~= name@.take(i as int)); }
                        Some(string_from(&name, 0, i))
                    } else {
                        proof { assert(name@.subrange(0, n as int) =~= name@); }
                        Some(string_from(&name, 0, n))
                    }
                },
                None => {
                    proof { assert(name@.subrange(0, n as int) =~= name@); }
                    Some(string_from(&name, 0, n))
                },
            }
        },
        None => None,
    }
}

/// The extension of a path (`Path::extension` on Unix).
pub fn extension(path: &str) -> (r: Option<String>)
    ensures
        match r {
            Some(e) => extension_spec(path@) == Some(e@),
            None => extension_spec(path@) is None,
        },
{
    match file_name_chars(path) {
        Some(name) => {
            let n = name.len();
            match find_last_dot(&name) {
                Some(i) => {
                    if i > 0 {
                        Some(string_from(&name, i + 1, n))
                    } else {
                        None
                    }
                },
                None => None,
            }
        },
        None => None,
    }
}

} // verus!
