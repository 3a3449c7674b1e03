//! `str::split` on a pattern of several characters.
use vstd::prelude::*;

use crate::split::{lemma_push_concat, lemma_views_push, rest_of, views};
use crate::text::copy_range;

verus! {

/// Whether `p` occurs in `s` at position `i`.
pub open spec fn occurs_at(s: Seq<char>, p: Seq<char>, i: int) -> bool {
    0 <= i && i + p.len() <= s.len() && s.subrange(i, i + p.len()) == p
}

/// Index of the first occurrence of the pattern `p` in `s`, or -1.
pub open spec fn first_occurrence(s: Seq<char>, p: Seq<char>) -> int {
    if exists|i: int| occurs_at(s, p, i) {
        choose|i: int| occurs_at(s, p, i) && forall|j: int| 0 <= j < i ==> !occurs_at(s, p, j)
    } else {
        -1
    }
}

/// The first occurrence is -1 or a position where the pattern stands.
pub proof fn lemma_first_occurrence_range(s: Seq<char>, p: Seq<char>)
    ensures
        first_occurrence(s, p) == -1 || occurs_at(s, p, first_occurrence(s, p)),
        first_occurrence(s, p) >= 0 ==> forall|j: int|
            0 <= j < first_occurrence(s, p) ==> !occurs_at(s, p, j),
        first_occurrence(s, p) == -1 ==> forall|j: int| !occurs_at(s, p, j),
{
    if exists|i: int| occurs_at(s, p, i) {
        let k = choose|i: int| occurs_at(s, p, i);
        lemma_least_occurrence_exists(s, p, k);
    }
}

proof fn lemma_least_occurrence_exists(s: Seq<char>, p: Seq<char>, k: int)
    requires
        occurs_at(s, p, k),
    ensures
        exists|i: int| occurs_at(s, p, i) && forall|j: int| 0 <= j < i ==> !occurs_at(s, p, j),
    decreases k,
{
    if exists|j: int| 0 <= j < k && occurs_at(s, p, j) {
        let j = choose|j: int| 0 <= j < k && occurs_at(s, p, j);
        lemma_least_occurrence_exists(s, p, j);
    } else {
        assert(forall|j: int| 0 <= j < k ==> !occurs_at(s, p, j));
    }
}

/// `str::split` on a non-empty string pattern.
#[verifier::opaque]
pub open spec fn split_pattern(s: Seq<char>, p: Seq<char>) -> Seq<Seq<char>>
    recommends
        p.len() > 0,
    decreases s.len(),
{
    let i = first_occurrence(s, p);
    if i < 0 || p.len() == 0 {
        seq![s]
    } else {
        proof {
            lemma_first_occurrence_range(s, p);
        }
        seq![s.subrange(0, i)] + split_pattern(s.subrange(i + p.len(), s.len() as int), p)
    }
}

/// Whether the pattern stands in `v` at position `i`.
fn pattern_at(v: &Vec<char>, p: &Vec<char>, i: usize) -> (r: bool)
    requires
        i <= v.len(),
    ensures
        r == occurs_at(v@, p@, i as int),
{
    if p.len() > v.len() - i {
        return false;
    }
    let mut k: usize = 0;
    while k < p.len()
        invariant
            k <= p.len(),
            i + p.len() <= v.len(),
            forall|j: int| 0 <= j < k ==> v@[i + j] == p@[j],
        decreases p.len() - k,
    {
        if v[i + k] != p[k] {
            assert(v@.subrange(i as int, i + p.len())[k as int] != p@[k as int]);
            return false;
        }
        k = k + 1;
    }
    assert(v@.subrange(i as int, i + p.len()) =~= p@);
    true
}

proof fn lemma_occurs_shift(v: Seq<char>, p: Seq<char>, from: int, j: int)
    requires
        0 <= from <= v.len(),
        0 <= j,
    ensures
        occurs_at(rest_of(v, from), p, j) == occurs_at(v, p, from + j),
{
    let t = rest_of(v, from);
    if occurs_at(v, p, from + j) {
        assert(t.subrange(j, j + p.len()) =~= v.subrange(from + j, from + j + p.len()));
    }
    if occurs_at(t, p, j) {
        assert(t.subrange(j, j + p.len()) =~= v.subrange(from + j, from + j + p.len()));
    }
}

proof fn lemma_first_occurrence_is(s: Seq<char>, p: Seq<char>, i: int)
    requires
        occurs_at(s, p, i),
        forall|j: int| 0 <= j < i ==> !occurs_at(s, p, j),
    ensures
        first_occurrence(s, p) == i,
{
    lemma_first_occurrence_range(s, p);
    let k = first_occurrence(s, p);
    if k < i {
        assert(!occurs_at(s, p, k));
    }
    if k > i {
        assert(!occurs_at(s, p, i));
    }
}

/// First position at or after `from` where the pattern stands.
pub fn find_pattern_from(v: &Vec<char>, p: &Vec<char>, from: usize) -> (r: Option<usize>)
    requires
        from <= v.len(),
        p.len() > 0,
    ensures
        match r {
            Some(i) => from <= i && i + p.len() <= v.len() && first_occurrence(
                rest_of(v@, from as int),
                p@,
            ) == i - from,
            None => first_occurrence(rest_of(v@, from as int), p@) == -1,
        },
{
    let ghost t = rest_of(v@, from as int);
    let mut i: usize = from;
    while i < v.len()
        invariant
            from <= i <= v.len(),
            t == rest_of(v@, from as int),
            forall|j: int| from <= j < i ==> !occurs_at(v@, p@, j),
        decreases v.len() - i,
    {
        if pattern_at(v, p, i) {
            proof {
                assert forall|j: int| 0 <= j < i - from implies !occurs_at(t, p@, j) by {
                    lemma_occurs_shift(v@, p@, from as int, j);
                }
                lemma_occurs_shift(v@, p@, from as int, i - from);
                lemma_first_occurrence_is(t, p@, i - from);
            }
            return Some(i);
        }
        i = i + 1;
    }
    proof {
        assert forall|j: int| !occurs_at(t, p@, j) by {
            if 0 <= j && j < t.len() {
                lemma_occurs_shift(v@, p@, from as int, j);
            }
        }
        lemma_first_occurrence_range(t, p@);
    }
    None
}

proof fn lemma_split_pattern_step(s: Seq<char>, p: Seq<char>)
    requires
        p.len() > 0,
    ensures
        first_occurrence(s, p) >= 0 ==> split_pattern(s, p) == seq![s.subrange(0, first_occurrence(s, p))]
            + split_pattern(s.subrange(first_occurrence(s, p) + p.len(), s.len() as int), p),
        first_occurrence(s, p) < 0 ==> split_pattern(s, p) == seq![s],
{
    reveal(split_pattern);
}

/// One piece of `str::split` on a pattern.
fn split_pattern_piece(v: &Vec<char>, p: &Vec<char>, pos: usize) -> (r: (Vec<char>, Option<usize>))
    requires
        pos <= v.len(),
        p.len() > 0,
    ensures
        match r.1 {
            Some(n) => pos < n <= v.len() && split_pattern(rest_of(v@, pos as int), p@) == seq![r.0@]
                + split_pattern(rest_of(v@, n as int), p@),
            None => split_pattern(rest_of(v@, pos as int), p@) == seq![r.0@],
        },
{
    let ghost t = rest_of(v@, pos as int);
    proof {
        lemma_split_pattern_step(t, p@);
    }
    match find_pattern_from(v, p, pos) {
        Some(i) => {
            let piece = copy_range(v, pos, i);
            proof {
                let j = i - pos;
                assert(t.subrange(0, j) =~= piece@);
                let n = i + p@.len();
                assert forall|k: int| 0 <= k < t.len() - (j + p@.len()) implies t.subrange(
                    j + p@.len(),
                    t.len() as int,
                )[k] == rest_of(v@, n)[k] by {
                    assert(t[j + p@.len() + k] == v@[pos + j + p@.len() + k]);
                }
                assert(t.subrange(j + p@.len(), t.len() as int) =~= rest_of(v@, n));
            }
            (piece, Some(i + p.len()))
        },
        None => {
            let piece = copy_range(v, pos, v.len());
            (piece, None)
        },
    }
}

/// `str::split` on a non-empty pattern, on a run of characters.
pub fn split_pattern_chars(v: &Vec<char>, p: &Vec<char>) -> (r: Vec<Vec<char>>)
    requires
        p.len() > 0,
    ensures
        views(r@) == split_pattern(v@, p@),
{
    let mut out: Vec<Vec<char>> = Vec::new();
    let mut pos: usize = 0;
    assert(rest_of(v@, 0) =~= v@);
    assert(views(out@) + split_pattern(v@, p@) =~= split_pattern(v@, p@));
    loop
        invariant
            pos <= v.len(),
            p.len() > 0,
            split_pattern(v@, p@) == views(out@) + split_pattern(rest_of(v@, pos as int), p@),
        decreases v.len() - pos,
    {
        let ghost before = views(out@);
        let (piece, next) = split_pattern_piece(v, p, pos);
        proof {
            lemma_views_push(out@, piece);
        }
        out.push(piece);
        match next {
            Some(n) => {
                proof {
                    lemma_push_concat(before, piece@, split_pattern(rest_of(v@, n as int), p@));
                }
                pos = n;
            },
            None => {
                assert(before + seq![piece@] =~= before.push(piece@));
                return out;
            },
        }
    }
}

} // verus!
