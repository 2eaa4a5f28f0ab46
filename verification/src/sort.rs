//! Stable ordering of tracks by title.
//!
//! Titles compare character by character by code point, which is the order
//! `String`'s `Ord` gives (UTF-8 byte order and code point order agree).
//! Tracks with equal titles keep their relative order.

use vstd::prelude::*;
use crate::track::Track;
use crate::text::chars_of;

verus! {

/// `a` comes no later than `b` in code point order.
pub open spec fn chars_le(a: Seq<char>, b: Seq<char>) -> bool
    decreases a.len(),
{
    if a.len() == 0 {
        true
    } else if b.len() == 0 {
        false
    } else if a[0] != b[0] {
        (a[0] as int) < (b[0] as int)
    } else {
        chars_le(a.drop_first(), b.drop_first())
    }
}

/// Track `a`'s title comes no later than track `b`'s.
pub open spec fn title_le(a: Track, b: Track) -> bool {
    chars_le(a.title@, b.title@)
}

/// Inserts `t` into a list sorted by title, after every entry whose title
/// is not greater than `t`'s.
pub open spec fn insert_by_title(sorted: Seq<Track>, t: Track) -> Seq<Track>
    decreases sorted.len(),
{
    if sorted.len() == 0 {
        seq![t]
    } else if title_le(sorted.last(), t) {
        sorted.push(t)
    } else {
        insert_by_title(sorted.drop_last(), t).push(sorted.last())
    }
}

/// `s` stably sorted by title.
pub open spec fn sorted_by_title(s: Seq<Track>) -> Seq<Track>
    decreases s.len(),
{
    if s.len() == 0 {
        s
    } else {
        insert_by_title(sorted_by_title(s.drop_last()), s.last())
    }
}

proof fn lemma_insert_by_title_multiset(s: Seq<Track>, t: Track)
    ensures
        insert_by_title(s, t).to_multiset() =~= s.to_multiset().insert(t),
        insert_by_title(s, t).len() == s.len() + 1,
    decreases s.len(),
{
    broadcast use vstd::seq_lib::group_to_multiset_ensures;
    broadcast use vstd::multiset::group_multiset_axioms;
    if s.len() == 0 {
        assert(seq![t] =~= Seq::<Track>::empty().push(t));
    } else if title_le(s.last(), t) {
    } else {
        let d = s.drop_last();
        lemma_insert_by_title_multiset(d, t);
        assert(d.push(s.last()) =~= s);
    }
}

/// Sorting by title keeps every track, each as often as before.
pub proof fn lemma_sorted_by_title_permutes(s: Seq<Track>)
    ensures
        sorted_by_title(s).to_multiset() =~= s.to_multiset(),
        sorted_by_title(s).len() == s.len(),
    decreases s.len(),
{
    broadcast use vstd::seq_lib::group_to_multiset_ensures;
    if s.len() > 0 {
        let d = s.drop_last();
        lemma_sorted_by_title_permutes(d);
        lemma_insert_by_title_multiset(sorted_by_title(d), s.last());
        assert(d.push(s.last()) =~= s);
    }
}


/// Any two titles are ordered one way or the other.
pub proof fn lemma_chars_le_total(a: Seq<char>, b: Seq<char>)
    ensures
        chars_le(a, b) || chars_le(b, a),
    decreases a.len(),
{
    if a.len() > 0 && b.len() > 0 {
        if a[0] == b[0] {
            lemma_chars_le_total(a.drop_first(), b.drop_first());
        } else {
            assert((a[0] as int) != (b[0] as int));
        }
    }
}

/// The title order is transitive.
pub proof fn lemma_chars_le_transitive(a: Seq<char>, b: Seq<char>, c: Seq<char>)
    requires
        chars_le(a, b),
        chars_le(b, c),
    ensures
        chars_le(a, c),
    decreases a.len(),
{
    if a.len() > 0 && b.len() > 0 && c.len() > 0 && a[0] == b[0] && b[0] == c[0] {
        lemma_chars_le_transitive(a.drop_first(), b.drop_first(), c.drop_first());
    }
}

/// Every track of `s` has a title no greater than `t`'s.
pub open spec fn all_titles_le(s: Seq<Track>, t: Track) -> bool {
    forall|i: int| 0 <= i < s.len() ==> title_le(#[trigger] s[i], t)
}

/// `s` is in title order.
pub open spec fn is_sorted_by_title(s: Seq<Track>) -> bool {
    forall|i: int, j: int| 0 <= i < j < s.len() ==> title_le(#[trigger] s[i], #[trigger] s[j])
}

proof fn lemma_insert_keeps_bound(s: Seq<Track>, t: Track, u: Track)
    requires
        all_titles_le(s, u),
        title_le(t, u),
    ensures
        all_titles_le(insert_by_title(s, t), u),
    decreases s.len(),
{
    if s.len() == 0 {
    } else if title_le(s.last(), t) {
    } else {
        let d = s.drop_last();
        assert(all_titles_le(d, u)) by {
            assert forall|i: int| 0 <= i < d.len() implies title_le(#[trigger] d[i], u) by {
                assert(d[i] == s[i]);
            }
        }
        lemma_insert_keeps_bound(d, t, u);
        let r = insert_by_title(d, t);
        assert forall|i: int| 0 <= i < r.push(s.last()).len() implies title_le(
            #[trigger] r.push(s.last())[i],
            u,
        ) by {
            if i < r.len() {
                assert(r.push(s.last())[i] == r[i]);
            } else {
                assert(s.last() == s[s.len() - 1]);
            }
        }
    }
}

proof fn lemma_insert_keeps_sorted(s: Seq<Track>, t: Track)
    requires
        is_sorted_by_title(s),
    ensures
        is_sorted_by_title(insert_by_title(s, t)),
    decreases s.len(),
{
    if s.len() == 0 {
    } else if title_le(s.last(), t) {
        let r = s.push(t);
        assert forall|i: int, j: int| 0 <= i < j < r.len() implies title_le(#[trigger] r[i], #[trigger] r[j]) by {
            if j == s.len() {
                if i < s.len() - 1 {
                    assert(title_le(s[i], s[s.len() - 1]));
                    lemma_chars_le_transitive(s[i].title@, s.last().title@, t.title@);
                }
            } else {
                assert(r[i] == s[i] && r[j] == s[j]);
            }
        }
    } else {
        let d = s.drop_last();
        let last = s.last();
        assert(is_sorted_by_title(d)) by {
            assert forall|i: int, j: int| 0 <= i < j < d.len() implies title_le(#[trigger] d[i], #[trigger] d[j]) by {
                assert(d[i] == s[i] && d[j] == s[j]);
            }
        }
        lemma_insert_keeps_sorted(d, t);
        lemma_chars_le_total(last.title@, t.title@);
        assert(all_titles_le(d, last)) by {
            assert forall|i: int| 0 <= i < d.len() implies title_le(#[trigger] d[i], last) by {
                assert(d[i] == s[i]);
                assert(last == s[s.len() - 1]);
            }
        }
        lemma_insert_keeps_bound(d, t, last);
        let r = insert_by_title(d, t);
        let q = r.push(last);
        assert forall|i: int, j: int| 0 <= i < j < q.len() implies title_le(#[trigger] q[i], #[trigger] q[j]) by {
            if j == r.len() {
                assert(q[i] == r[i]);
            } else {
                assert(q[i] == r[i] && q[j] == r[j]);
            }
        }
    }
}

/// The alphabetical order really is in title order: each track's title is
/// no greater than the titles of the tracks after it.
pub proof fn lemma_sorted_by_title_is_sorted(s: Seq<Track>)
    ensures
        is_sorted_by_title(sorted_by_title(s)),
    decreases s.len(),
{
    if s.len() > 0 {
        lemma_sorted_by_title_is_sorted(s.drop_last());
        lemma_insert_keeps_sorted(sorted_by_title(s.drop_last()), s.last());
    }
}

proof fn lemma_insert_at(s: Seq<Track>, t: Track, p: int)
    requires
        0 <= p <= s.len(),
        forall|j: int| p <= j < s.len() ==> !title_le(#[trigger] s[j], t),
        p > 0 ==> title_le(s[p - 1], t),
    ensures
        insert_by_title(s, t) =~= s.insert(p, t),
    decreases s.len(),
{
    if s.len() == 0 {
    } else if title_le(s.last(), t) {
        if p < s.len() {
            assert(!title_le(s[s.len() - 1], t));
        }
    } else {
        let d = s.drop_last();
        if p == s.len() {
            assert(title_le(s[p - 1], t));
        }
        assert forall|j: int| p <= j < d.len() implies !title_le(#[trigger] d[j], t) by {
            assert(d[j] == s[j]);
        }
        lemma_insert_at(d, t, p);
    }
}

proof fn lemma_chars_le_step(a: Seq<char>, b: Seq<char>, i: int)
    requires
        0 <= i < a.len(),
        i < b.len(),
        a[i] == b[i],
    ensures
        chars_le(a.skip(i), b.skip(i)) == chars_le(a.skip(i + 1), b.skip(i + 1)),
{
    assert(a.skip(i).drop_first() =~= a.skip(i + 1));
    assert(b.skip(i).drop_first() =~= b.skip(i + 1));
}

/// Whether `a` comes no later than `b` in code point order.
fn chars_le_exec(a: &Vec<char>, b: &Vec<char>) -> (r: bool)
    ensures
        r == chars_le(a@, b@),
{
    let mut i: usize = 0;
    assert(a@.skip(0) =~= a@);
    assert(b@.skip(0) =~= b@);
    while i < a.len()
        invariant
            i <= a@.len(),
            i <= b@.len(),
            chars_le(a@, b@) == chars_le(a@.skip(i as int), b@.skip(i as int)),
        decreases a@.len() - i,
    {
        if i >= b.len() {
            return false;
        }
        if a[i] != b[i] {
            return a[i] < b[i];
        }
        proof { lemma_chars_le_step(a@, b@, i as int); }
        i = i + 1;
    }
    true
}

/// The tracks of `list` stably sorted by title.
pub fn sort_by_title(list: &Vec<Track>) -> (r: Vec<Track>)
    ensures
        r@ == sorted_by_title(list@),
{
    let n = list.len();
    let mut keys: Vec<Vec<char>> = Vec::new();
    let mut k: usize = 0;
    while k < n
        invariant
            n == list@.len(),
            k <= n,
            keys@.len() == k,
            forall|j: int| 0 <= j < k ==> (#[trigger] keys@[j])@ == list@[j].title@,
        decreases n - k,
    {
        keys.push(chars_of(&list[k].title));
        k = k + 1;
    }
    // `order` lists positions of `list`; the tracks at those positions form
    // the sorted arrangement of the first `k` tracks.
    let mut order: Vec<usize> = Vec::new();
    k = 0;
    while k < n
        invariant
            n == list@.len(),
            k <= n,
            keys@.len() == n,
            forall|j: int| 0 <= j < n ==> (#[trigger] keys@[j])@ == list@[j].title@,
            forall|j: int| 0 <= j < order@.len() ==> #[trigger] order@[j] < n,
            order@.len() == k,
            order@.map_values(|i: usize| list@[i as int]) == sorted_by_title(list@.take(k as int)),
        decreases n - k,
    {
        let ghost arranged = order@.map_values(|i: usize| list@[i as int]);
        let mut p: usize = order.len();
        while p > 0 && !chars_le_exec(&keys[order[p - 1]], &keys[k])
            invariant
                n == list@.len(),
                k < n,
                keys@.len() == n,
                forall|j: int| 0 <= j < n ==> (#[trigger] keys@[j])@ == list@[j].title@,
                forall|j: int| 0 <= j < order@.len() ==> #[trigger] order@[j] < n,
                arranged == order@.map_values(|i: usize| list@[i as int]),
                p <= order@.len(),
                forall|j: int| p <= j < arranged.len() ==> !title_le(#[trigger] arranged[j], list@[k as int]),
            decreases p,
        {
            p = p - 1;
        }
        proof {
            assert(list@.take(k + 1).drop_last() =~= list@.take(k as int));
            assert(list@.take(k + 1).last() == list@[k as int]);
            lemma_insert_at(arranged, list@[k as int], p as int);
        }
        order.insert(p, k);
        proof {
            assert(order@.map_values(|i: usize| list@[i as int]) =~= arranged.insert(p as int, list@[k as int]));
        }
        k = k + 1;
    }
    let mut r: Vec<Track> = Vec::new();
    let mut i: usize = 0;
    while i < n
        invariant
            n == list@.len(),
            order@.len() == n,
            forall|j: int| 0 <= j < order@.len() ==> #[trigger] order@[j] < n,
            i <= n,
            r@ == order@.map_values(|x: usize| list@[x as int]).take(i as int),
        decreases n - i,
    {
        r.push(list[order[i]].clone());
        i = i + 1;
        proof { assert(r@ =~= order@.map_values(|x: usize| list@[x as int]).take(i as int)); }
    }
    proof {
        assert(list@.take(n as int) =~= list@);
        assert(r@ =~= order@.map_values(|x: usize| list@[x as int]));
    }
    r
}


/// At the first position where two titles differ, the title with the
/// smaller code point there comes first: the title order is `String`'s
/// order (code point order, which UTF-8 byte order agrees with).
pub proof fn lemma_title_order_at_first_difference(a: Seq<char>, b: Seq<char>, i: int)
    requires
        0 <= i < a.len(),
        i < b.len(),
        a.take(i) == b.take(i),
        a[i] != b[i],
    ensures
        chars_le(a, b) == ((a[i] as int) < (b[i] as int)),
    decreases i,
{
    if i > 0 {
        assert(a.take(i)[0] == a[0]);
        assert(b.take(i)[0] == b[0]);
        assert(a.take(i)[0] == b.take(i)[0]);
        assert(a[0] == b[0]);
        assert(a.drop_first()[i - 1] == a[i] && b.drop_first()[i - 1] == b[i]);
        assert(a.drop_first().take(i - 1) =~= a.take(i).drop_first());
        assert(b.drop_first().take(i - 1) =~= b.take(i).drop_first());
        lemma_title_order_at_first_difference(a.drop_first(), b.drop_first(), i - 1);
    }
}

/// A title comes before every title it is a prefix of, and after every
/// shorter title that is a prefix of it.
pub proof fn lemma_title_prefix_comes_first(a: Seq<char>, b: Seq<char>)
    requires
        a.len() <= b.len(),
        b.take(a.len() as int) == a,
    ensures
        chars_le(a, b),
        a.len() < b.len() ==> !chars_le(b, a),
    decreases a.len(),
{
    if a.len() > 0 {
        assert(b.take(a.len() as int)[0] == b[0]);
        assert(b.take(a.len() as int)[0] == a[0]);
        assert(b[0] == a[0]);
        assert(b.drop_first().take(a.len() - 1) =~= b.take(a.len() as int).drop_first());
        lemma_title_prefix_comes_first(a.drop_first(), b.drop_first());
    }
}

} // verus!
