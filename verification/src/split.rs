//! `str::split_once`, `str::split` and `str::lines` on a single character:
//! what they compute, as spec functions over sequences of characters, and the
//! same computed on a `Vec<char>`.
use vstd::prelude::*;

use crate::text::copy_range;

verus! {

/// Index of the first occurrence of `c` in `s`, or -1.
pub open spec fn first_index(s: Seq<char>, c: char) -> int {
    if s.contains(c) {
        choose|i: int| 0 <= i < s.len() && s[i] == c && forall|j: int| 0 <= j < i ==> s[j] != c
    } else {
        -1
    }
}

/// The first index is -1 or a position of the sequence.
pub proof fn lemma_first_index_range(s: Seq<char>, c: char)
    ensures
        -1 <= first_index(s, c) < s.len(),
        first_index(s, c) >= 0 ==> s[first_index(s, c)] == c,
{
    if s.contains(c) {
        let k = choose|k: int| 0 <= k < s.len() && s[k] == c;
        lemma_least_index_exists(s, c, k);
    }
}

proof fn lemma_least_index_exists(s: Seq<char>, c: char, k: int)
    requires
        0 <= k < s.len(),
        s[k] == c,
    ensures
        exists|i: int| 0 <= i < s.len() && s[i] == c && forall|j: int| 0 <= j < i ==> s[j] != c,
    decreases k,
{
    if exists|j: int| 0 <= j < k && s[j] == c {
        let j = choose|j: int| 0 <= j < k && s[j] == c;
        lemma_least_index_exists(s, c, j);
    } else {
        assert(forall|j: int| 0 <= j < k ==> s[j] != c);
    }
}

/// `str::split_once` on a character.
pub open spec fn split_once(s: Seq<char>, c: char) -> Option<(Seq<char>, Seq<char>)> {
    let i = first_index(s, c);
    if i < 0 {
        None
    } else {
        Some((s.subrange(0, i), s.subrange(i + 1, s.len() as int)))
    }
}

/// `str::split` on a character: every piece, empty ones included.
pub open spec fn split_on(s: Seq<char>, c: char) -> Seq<Seq<char>>
    decreases s.len(),
{
    let i = first_index(s, c);
    if i < 0 {
        seq![s]
    } else {
        proof {
            lemma_first_index_range(s, c);
        }
        seq![s.subrange(0, i)] + split_on(s.subrange(i + 1, s.len() as int), c)
    }
}

/// A line as `str::lines` hands it out: without its `\n`, and without a `\r`
/// that stood right before that `\n`.
pub open spec fn strip_cr(line: Seq<char>) -> Seq<char> {
    if line.len() > 0 && line.last() == '\r' {
        line.drop_last()
    } else {
        line
    }
}

/// `str::lines`.
pub open spec fn lines(s: Seq<char>) -> Seq<Seq<char>>
    decreases s.len(),
{
    if s.len() == 0 {
        seq![]
    } else {
        let i = first_index(s, '\n');
        if i < 0 {
            seq![s]
        } else {
            proof {
                lemma_first_index_range(s, '\n');
            }
            seq![strip_cr(s.subrange(0, i))] + lines(s.subrange(i + 1, s.len() as int))
        }
    }
}

proof fn lemma_first_index(s: Seq<char>, c: char, i: int)
    requires
        0 <= i < s.len(),
        s[i] == c,
        forall|j: int| 0 <= j < i ==> s[j] != c,
    ensures
        first_index(s, c) == i,
{
    assert(s.contains(c));
    let k = first_index(s, c);
    assert(0 <= k < s.len() && s[k] == c && forall|j: int| 0 <= j < k ==> s[j] != c);
    if k < i {
        assert(s[k] != c);
    }
    if k > i {
        assert(s[i] != c);
    }
}

proof fn lemma_first_index_none(s: Seq<char>, c: char)
    requires
        forall|j: int| 0 <= j < s.len() ==> s[j] != c,
    ensures
        first_index(s, c) == -1,
{
    if s.contains(c) {
        let k = choose|k: int| 0 <= k < s.len() && s[k] == c;
        assert(s[k] != c);
    }
}

/// First position at or after `from` where `c` stands.
pub fn find_char_from(v: &Vec<char>, c: char, from: usize) -> (r: Option<usize>)
    requires
        from <= v.len(),
    ensures
        ({
            let t = v@.subrange(from as int, v.len() as int);
            match r {
                Some(i) => from <= i < v.len() && first_index(t, c) == i - from,
                None => first_index(t, c) == -1,
            }
        }),
{
    let ghost t = v@.subrange(from as int, v.len() as int);
    let mut i: usize = from;
    while i < v.len()
        invariant
            from <= i <= v.len(),
            t == v@.subrange(from as int, v.len() as int),
            forall|j: int| from <= j < i ==> v@[j] != c,
        decreases v.len() - i,
    {
        if v[i] == c {
            proof {
                assert forall|j: int| 0 <= j < i - from implies t[j] != c by {
                    assert(t[j] == v@[j + from]);
                }
                lemma_first_index(t, c, i - from);
            }
            return Some(i);
        }
        i = i + 1;
    }
    proof {
        assert forall|j: int| 0 <= j < t.len() implies t[j] != c by {
            assert(t[j] == v@[j + from]);
        }
        lemma_first_index_none(t, c);
    }
    None
}

/// `str::split_once` on a character, on a run of characters.
pub fn split_once_chars(v: &Vec<char>, c: char) -> (r: Option<(Vec<char>, Vec<char>)>)
    ensures
        match r {
            Some((a, b)) => split_once(v@, c) == Some((a@, b@)),
            None => split_once(v@, c) is None,
        },
{
    assert(v@.subrange(0, v.len() as int) == v@);
    match find_char_from(v, c, 0) {
        Some(i) => {
            let a = copy_range(v, 0, i);
            let b = copy_range(v, i + 1, v.len());
            Some((a, b))
        },
        None => None,
    }
}

/// Whether `c` occurs in the run of characters.
pub fn contains_char(v: &Vec<char>, c: char) -> (r: bool)
    ensures
        r == v@.contains(c),
{
    let mut i: usize = 0;
    while i < v.len()
        invariant
            i <= v.len(),
            forall|j: int| 0 <= j < i ==> v@[j] != c,
        decreases v.len() - i,
    {
        if v[i] == c {
            assert(v@[i as int] == c);
            return true;
        }
        i = i + 1;
    }
    false
}

/// The views of a list of character runs.
pub open spec fn views(v: Seq<Vec<char>>) -> Seq<Seq<char>> {
    v.map_values(|x: Vec<char>| x@)
}

pub proof fn lemma_views_push(out: Seq<Vec<char>>, x: Vec<char>)
    ensures
        views(out.push(x)) == views(out).push(x@),
{
    assert(views(out.push(x)) =~= views(out).push(x@));
}

pub proof fn lemma_push_concat(before: Seq<Seq<char>>, a: Seq<char>, rest: Seq<Seq<char>>)
    ensures
        before + (seq![a] + rest) == before.push(a) + rest,
{
    assert(before + (seq![a] + rest) =~= before.push(a) + rest);
}

proof fn lemma_split_step(s: Seq<char>, c: char)
    ensures
        first_index(s, c) >= 0 ==> split_on(s, c) == seq![s.subrange(0, first_index(s, c))]
            + split_on(s.subrange(first_index(s, c) + 1, s.len() as int), c),
        first_index(s, c) < 0 ==> split_on(s, c) == seq![s],
{
}

proof fn lemma_lines_step(s: Seq<char>)
    requires
        s.len() > 0,
    ensures
        first_index(s, '\n') >= 0 ==> lines(s) == seq![strip_cr(s.subrange(0, first_index(s, '\n')))]
            + lines(s.subrange(first_index(s, '\n') + 1, s.len() as int)),
        first_index(s, '\n') < 0 ==> lines(s) == seq![s],
{
}

/// The characters of `v` from `pos` on.
pub open spec fn rest_of(v: Seq<char>, pos: int) -> Seq<char> {
    v.subrange(pos, v.len() as int)
}

/// One piece of `str::split`: the piece that starts at `pos`, and where the
/// next piece starts, if there is one.
fn split_piece(v: &Vec<char>, c: char, pos: usize) -> (r: (Vec<char>, Option<usize>))
    requires
        pos <= v.len(),
    ensures
        match r.1 {
            Some(n) => pos < n <= v.len() && split_on(rest_of(v@, pos as int), c) == seq![r.0@]
                + split_on(rest_of(v@, n as int), c),
            None => split_on(rest_of(v@, pos as int), c) == seq![r.0@],
        },
{
    let ghost t = rest_of(v@, pos as int);
    proof {
        lemma_split_step(t, c);
    }
    match find_char_from(v, c, pos) {
        Some(i) => {
            let piece = copy_range(v, pos, i);
            proof {
                let j = i - pos;
                assert(t.subrange(0, j) =~= piece@);
                assert(t.subrange(j + 1, t.len() as int) =~= rest_of(v@, i + 1));
            }
            (piece, Some(i + 1))
        },
        None => {
            let piece = copy_range(v, pos, v.len());
            (piece, None)
        },
    }
}

/// `str::split` on a character, on a run of characters.
pub fn split_on_chars(v: &Vec<char>, c: char) -> (r: Vec<Vec<char>>)
    ensures
        views(r@) == split_on(v@, c),
{
    let mut out: Vec<Vec<char>> = Vec::new();
    let mut pos: usize = 0;
    assert(rest_of(v@, 0) =~= v@);
    assert(views(out@) + split_on(v@, c) =~= split_on(v@, c));
    loop
        invariant
            pos <= v.len(),
            split_on(v@, c) == views(out@) + split_on(rest_of(v@, pos as int), c),
        decreases v.len() - pos,
    {
        let ghost before = views(out@);
        let (piece, next) = split_piece(v, c, pos);
        proof {
            lemma_views_push(out@, piece);
        }
        out.push(piece);
        match next {
            Some(n) => {
                proof {
                    lemma_push_concat(before, piece@, split_on(rest_of(v@, n as int), c));
                }
                pos = n;
            },
            None => {
                assert(before + seq![piece@] =~= before.push(piece@));
                return out;
            },
        }
    }
}

/// The characters from `lo` to `hi`, without a final `\r`.
fn line_between(v: &Vec<char>, lo: usize, hi: usize) -> (r: Vec<char>)
    requires
        lo <= hi <= v.len(),
    ensures
        r@ == strip_cr(v@.subrange(lo as int, hi as int)),
{
    if hi > lo && v[hi - 1] == '\r' {
        let r = copy_range(v, lo, hi - 1);
        assert(r@ =~= v@.subrange(lo as int, hi as int).drop_last());
        r
    } else {
        copy_range(v, lo, hi)
    }
}

/// One line of `str::lines`: the line that starts at `pos`, and where the
/// next line starts, if there is more text.
fn line_piece(v: &Vec<char>, pos: usize) -> (r: (Vec<char>, Option<usize>))
    requires
        pos < v.len(),
    ensures
        match r.1 {
            Some(n) => pos < n <= v.len() && lines(rest_of(v@, pos as int)) == seq![r.0@] + lines(
                rest_of(v@, n as int),
            ),
            None => lines(rest_of(v@, pos as int)) == seq![r.0@],
        },
{
    let ghost t = rest_of(v@, pos as int);
    proof {
        lemma_lines_step(t);
    }
    match find_char_from(v, '\n', pos) {
        Some(i) => {
            let line = line_between(v, pos, i);
            proof {
                let j = i - pos;
                assert(t.subrange(0, j) =~= v@.subrange(pos as int, i as int));
                assert(t.subrange(j + 1, t.len() as int) =~= rest_of(v@, i + 1));
            }
            (line, Some(i + 1))
        },
        None => {
            let line = copy_range(v, pos, v.len());
            (line, None)
        },
    }
}

/// `str::lines`, on a run of characters.
pub fn lines_of(v: &Vec<char>) -> (r: Vec<Vec<char>>)
    ensures
        views(r@) == lines(v@),
{
    let mut out: Vec<Vec<char>> = Vec::new();
    let mut pos: usize = 0;
    assert(rest_of(v@, 0) =~= v@);
    assert(views(out@) + lines(v@) =~= lines(v@));
    loop
        invariant
            pos <= v.len(),
            lines(v@) == views(out@) + lines(rest_of(v@, pos as int)),
        decreases v.len() - pos,
    {
        let ghost before = views(out@);
        if pos == v.len() {
            assert(rest_of(v@, pos as int).len() == 0);
            assert(lines(rest_of(v@, pos as int)) == Seq::<Seq<char>>::empty());
            assert(before + Seq::<Seq<char>>::empty() =~= before);
            return out;
        }
        let (line, next) = line_piece(v, pos);
        proof {
            lemma_views_push(out@, line);
        }
        out.push(line);
        match next {
            Some(n) => {
                proof {
                    lemma_push_concat(before, line@, lines(rest_of(v@, n as int)));
                }
                pos = n;
            },
            None => {
                assert(before + seq![line@] =~= before.push(line@));
                return out;
            },
        }
    }
}

} // verus!
