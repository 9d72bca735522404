//! The selection model: an ordered, duplicate-free list of tip indices whose
//! length never exceeds a capacity.

use vstd::prelude::*;

verus! {

/// No index appears twice.
pub open spec fn distinct(s: Seq<usize>) -> bool {
    forall|i: int, j: int| 0 <= i < j < s.len() ==> s[i] != s[j]
}

/// The invariant of a selection under capacity `cap`.
pub open spec fn selection_ok(s: Seq<usize>, cap: nat) -> bool {
    distinct(s) && s.len() <= cap
}

/// Whether `p` is the first position at which `x` stands in `s`.
pub open spec fn first_at(s: Seq<usize>, x: usize, p: int) -> bool {
    0 <= p < s.len() && s[p] == x && forall|q: int| 0 <= q < p ==> s[q] != x
}

/// The first position at which `x` stands in `s`.
pub open spec fn position_of(s: Seq<usize>, x: usize) -> int {
    choose|p: int| first_at(s, x, p)
}

/// A first occurrence is the position that `position_of` names.
pub proof fn lemma_position_of(s: Seq<usize>, x: usize, p: int)
    requires
        first_at(s, x, p),
    ensures
        position_of(s, x) == p,
{
    let c = position_of(s, x);
    assert(first_at(s, x, c));
    if c < p {
        assert(s[c] != x);
    } else if c > p {
        assert(s[p] != x);
    }
}

/// A value that occurs has a first occurrence, at `position_of`.
pub proof fn lemma_position_of_found(s: Seq<usize>, x: usize)
    requires
        s.contains(x),
    ensures
        first_at(s, x, position_of(s, x)),
{
    lemma_first_from(s, x, 0);
}

proof fn lemma_first_from(s: Seq<usize>, x: usize, i: int)
    requires
        0 <= i <= s.len(),
        forall|q: int| 0 <= q < i ==> s[q] != x,
        exists|p: int| i <= p < s.len() && s[p] == x,
    ensures
        first_at(s, x, position_of(s, x)),
    decreases s.len() - i,
{
    if s[i] == x {
        lemma_position_of(s, x, i);
    } else {
        lemma_first_from(s, x, i + 1);
    }
}

/// In a distinct selection every occurrence is the first.
pub proof fn lemma_position_of_distinct(s: Seq<usize>, x: usize, p: int)
    requires
        distinct(s),
        0 <= p < s.len(),
        s[p] == x,
    ensures
        position_of(s, x) == p,
{
    assert forall|q: int| 0 <= q < p implies s[q] != x by {
        assert(s[q] != s[p]);
    }
    lemma_position_of(s, x, p);
}

/// The selection after toggling `idx`: removed where it stands if present,
/// appended if absent and there is room, unchanged otherwise.
pub open spec fn toggled(s: Seq<usize>, idx: usize, cap: nat) -> Seq<usize> {
    if s.contains(idx) {
        s.remove(position_of(s, idx))
    } else if s.len() < cap {
        s.push(idx)
    } else {
        s
    }
}

/// The selection after toggling each of `idxs` in turn.
pub open spec fn toggled_all(s: Seq<usize>, idxs: Seq<usize>, cap: nat) -> Seq<usize>
    decreases idxs.len(),
{
    if idxs.len() == 0 {
        s
    } else {
        toggled(toggled_all(s, idxs.drop_last(), cap), idxs.last(), cap)
    }
}

/// Toggling keeps a selection distinct and within its capacity.
pub proof fn lemma_toggle_keeps_selection_ok(s: Seq<usize>, idx: usize, cap: nat)
    requires
        selection_ok(s, cap),
    ensures
        selection_ok(toggled(s, idx, cap), cap),
        toggled(s, idx, cap).len() <= cap,
{
    if s.contains(idx) {
        let w = choose|w: int| 0 <= w < s.len() && s[w] == idx;
        lemma_position_of_distinct(s, idx, w);
        let p = position_of(s, idx);
        let t = s.remove(p);
        assert forall|i: int, j: int| 0 <= i < j < t.len() implies t[i] != t[j] by {
            let a = if i < p { i } else { i + 1 };
            let b = if j < p { j } else { j + 1 };
            assert(t[i] == s[a] && t[j] == s[b] && a < b);
        }
    } else if s.len() < cap {
        let t = s.push(idx);
        assert forall|i: int, j: int| 0 <= i < j < t.len() implies t[i] != t[j] by {
            if j == s.len() {
                assert(t[i] == s[i]);
            }
        }
    }
}

/// Whatever indices are toggled, in whatever order, a selection that starts
/// within its capacity stays within it.
pub proof fn lemma_toggle_sequence_within_capacity(s: Seq<usize>, idxs: Seq<usize>, cap: nat)
    requires
        s.len() <= cap,
    ensures
        toggled_all(s, idxs, cap).len() <= cap,
    decreases idxs.len(),
{
    if idxs.len() > 0 {
        lemma_toggle_sequence_within_capacity(s, idxs.drop_last(), cap);
        let before = toggled_all(s, idxs.drop_last(), cap);
        if before.contains(idxs.last()) {
            lemma_position_of_found(before, idxs.last());
        }
    }
}

/// Toggling the same index twice restores the selection, content and order,
/// when that index is absent or stands last; an index toggled off from an
/// earlier position comes back at the end.
pub proof fn lemma_toggle_twice(s: Seq<usize>, idx: usize, cap: nat)
    requires
        selection_ok(s, cap),
        !s.contains(idx) || s.last() == idx,
    ensures
        toggled(toggled(s, idx, cap), idx, cap) == s,
{
    if s.contains(idx) {
        lemma_position_of_distinct(s, idx, s.len() - 1);
        let p = position_of(s, idx);
        assert(p == s.len() - 1);
        let t = s.remove(p);
        assert(t =~= s.drop_last());
        assert(!t.contains(idx)) by {
            if t.contains(idx) {
                let q = choose|q: int| 0 <= q < t.len() && t[q] == idx;
                assert(s[q] == s[s.len() - 1]);
            }
        }
        assert(t.push(idx) =~= s);
    } else if s.len() < cap {
        let t = s.push(idx);
        assert(t.contains(idx)) by {
            assert(t[s.len() as int] == idx);
        }
        assert forall|q: int| 0 <= q < s.len() implies t[q] != idx by {
            assert(t[q] == s[q]);
        }
        lemma_position_of(t, idx, s.len() as int);
        let p = position_of(t, idx);
        assert(t.remove(p) =~= s);
    }
}

} // verus!
