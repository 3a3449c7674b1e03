//! The logic of a router's watch container: the neighbors it links to (inner
//! and outer, an outer entry winning over an inner one of the same name), and
//! which links to create or destroy when they change.
use vstd::prelude::*;

use crate::network_controller::router::RouterStatus;
use crate::objects::{key_index, keys_unique, lemma_key_index, map_of, StringMap};
use crate::text::{
    chars_of, lemma_text_lt_irreflexive, lemma_text_lt_total, lemma_text_lt_transitive, text_less,
    text_lt,
};

verus! {

/// The neighbors a router links to: its inner neighbors, then its outer
/// ones, which win on a shared name.
pub open spec fn merged(s: Option<RouterStatus>) -> Map<Seq<char>, Seq<char>> {
    match s {
        Some(st) => st.inner_neighbors@.union_prefer_right(st.outer_neighbors@),
        None => Map::empty(),
    }
}

/// The neighbors a router links to.
pub fn merged_neighbors(status: Option<&RouterStatus>) -> (r: StringMap)
    ensures
        r@ == merged(match status {
            Some(s) => Some(*s),
            None => None,
        }),
        status is None ==> r@ == Map::<Seq<char>, Seq<char>>::empty(),
        forall|k: Seq<char>|
            #![trigger r@.contains_key(k)]
            status matches Some(s) ==> (r@.contains_key(k) <==> (s.inner_neighbors@.contains_key(k)
                || s.outer_neighbors@.contains_key(k))),
        forall|k: Seq<char>|
            #![trigger r@[k]]
            status matches Some(s) ==> (s.outer_neighbors@.contains_key(k) ==> r@[k]
                == s.outer_neighbors@[k]),
        forall|k: Seq<char>|
            #![trigger r@[k]]
            status matches Some(s) ==> (s.inner_neighbors@.contains_key(k)
                && !s.outer_neighbors@.contains_key(k) ==> r@[k] == s.inner_neighbors@[k]),
{
    match status {
        Some(st) => {
            let mut m = st.inner_neighbors.duplicate();
            m.extend(&st.outer_neighbors);
            proof {
                assert forall|k: Seq<char>| true implies {
                    &&& (m@.contains_key(k) <==> (st.inner_neighbors@.contains_key(k)
                        || st.outer_neighbors@.contains_key(k)))
                    &&& (st.outer_neighbors@.contains_key(k) ==> m@[k] == st.outer_neighbors@[k])
                    &&& (st.inner_neighbors@.contains_key(k) && !st.outer_neighbors@.contains_key(k)
                        ==> m@[k] == st.inner_neighbors@[k])
                } by {
                    law_merged_neighbors(*st, k);
                }
            }
            m
        },
        None => StringMap::new(),
    }
}

/// The neighbors to link to: those of `next` that `current` lacks.
pub open spec fn created(
    current: Map<Seq<char>, Seq<char>>,
    next: Map<Seq<char>, Seq<char>>,
) -> Set<Seq<char>> {
    next.dom().difference(current.dom())
}

/// The neighbors to unlink: those of `current` that `next` lacks.
pub open spec fn destroyed(
    current: Map<Seq<char>, Seq<char>>,
    next: Map<Seq<char>, Seq<char>>,
) -> Set<Seq<char>> {
    current.dom().difference(next.dom())
}

/// The links to change: each created neighbor with the face it has in
/// `next`, and each destroyed one with the face it had in `current`. A
/// neighbor whose face changed keeps its link.
#[derive(Debug)]
pub struct LinkChanges {
    pub create: Vec<(String, String)>,
    pub destroy: Vec<(String, String)>,
}

fn missing_from(from: &StringMap, other: &StringMap) -> (r: Vec<(String, String)>)
    ensures
        keys_unique(r@),
        forall|k: Seq<char>|
            #![trigger map_of(r@).contains_key(k)]
            map_of(r@).contains_key(k) <==> (from@.contains_key(k) && !other@.contains_key(k)),
        forall|k: Seq<char>| #[trigger] map_of(r@).contains_key(k) ==> map_of(r@)[k] == from@[k],
{
    let pairs = from.to_pairs();
    let mut out: Vec<(String, String)> = Vec::new();
    let mut i: usize = 0;
    while i < pairs.len()
        invariant
            i <= pairs@.len(),
            keys_unique(pairs@),
            map_of(pairs@) == from@,
            keys_unique(out@),
            forall|j: int|
                #![trigger out@[j]]
                0 <= j < out@.len() ==> exists|m: int| 0 <= m < i && out@[j] == #[trigger] pairs@[m],
            forall|j: int|
                0 <= j < i ==> (!other@.contains_key(#[trigger] pairs@[j].0@) <==> exists|m: int|
                    0 <= m < out@.len() && out@[m].0@ == pairs@[j].0@),
            forall|j: int| 0 <= j < out@.len() ==> !other@.contains_key(#[trigger] out@[j].0@),
        decreases pairs@.len() - i,
    {
        if !other.contains_key(pairs[i].0.as_str()) {
            let ghost before = out@;
            out.push((pairs[i].0.clone(), pairs[i].1.clone()));
            proof {
                assert forall|a: int, b: int|
                    0 <= a < out@.len() && 0 <= b < out@.len() && a != b implies out@[a].0@
                    != out@[b].0@ by {
                    if a < before.len() && b < before.len() {
                    } else if a == before.len() {
                        let m = choose|m: int| 0 <= m < i && before[b] == pairs@[m];
                        assert(pairs@[m].0@ != pairs@[i as int].0@);
                    } else {
                        let m = choose|m: int| 0 <= m < i && before[a] == pairs@[m];
                        assert(pairs@[m].0@ != pairs@[i as int].0@);
                    }
                }
                assert forall|j: int| #![trigger out@[j]] 0 <= j < out@.len() implies exists|m: int|
                    0 <= m < i + 1 && out@[j] == #[trigger] pairs@[m] by {
                    if j < before.len() {
                        let m = choose|m: int| 0 <= m < i && before[j] == pairs@[m];
                        assert(out@[j] == pairs@[m]);
                    } else {
                        assert(out@[j] == pairs@[i as int]);
                    }
                }
                assert forall|j: int|
                    0 <= j < i + 1 implies (!other@.contains_key(#[trigger] pairs@[j].0@)
                    <==> exists|m: int| 0 <= m < out@.len() && out@[m].0@ == pairs@[j].0@) by {
                    if j < i {
                        if exists|m: int| 0 <= m < before.len() && before[m].0@ == pairs@[j].0@ {
                            let m = choose|m: int|
                                0 <= m < before.len() && before[m].0@ == pairs@[j].0@;
                            assert(out@[m] == before[m]);
                        }
                        if exists|m: int| 0 <= m < out@.len() && out@[m].0@ == pairs@[j].0@ {
                            let m = choose|m: int| 0 <= m < out@.len() && out@[m].0@ == pairs@[j].0@;
                            if m == before.len() {
                                assert(pairs@[i as int].0@ != pairs@[j].0@);
                            } else {
                                assert(before[m] == out@[m]);
                            }
                        }
                    } else {
                        assert(out@[before.len() as int].0@ == pairs@[j].0@);
                    }
                }
            }
        } else {
            proof {
                assert forall|j: int|
                    0 <= j < i + 1 implies (!other@.contains_key(#[trigger] pairs@[j].0@)
                    <==> exists|m: int| 0 <= m < out@.len() && out@[m].0@ == pairs@[j].0@) by {
                    if j == i {
                        if exists|m: int| 0 <= m < out@.len() && out@[m].0@ == pairs@[j].0@ {
                            let m = choose|m: int| 0 <= m < out@.len() && out@[m].0@ == pairs@[j].0@;
                            assert(!other@.contains_key(out@[m].0@));
                        }
                    }
                }
                assert forall|j: int| #![trigger out@[j]] 0 <= j < out@.len() implies exists|m: int|
                    0 <= m < i + 1 && out@[j] == #[trigger] pairs@[m] by {
                    let m = choose|m: int| 0 <= m < i && out@[j] == pairs@[m];
                }
            }
        }
        i = i + 1;
    }
    proof {
        assert forall|k: Seq<char>| #[trigger] map_of(out@).contains_key(k) implies map_of(out@)[k]
            == from@[k] by {
            let j = crate::objects::key_index(out@, k);
            let m = choose|m: int| 0 <= m < pairs@.len() && out@[j] == pairs@[m];
            crate::objects::lemma_key_index(pairs@, k, m);
        }
        assert forall|k: Seq<char>|
            #![trigger map_of(out@).contains_key(k)]
            map_of(out@).contains_key(k) <==> (from@.contains_key(k) && !other@.contains_key(k)) by {
            if map_of(out@).contains_key(k) {
                let j = crate::objects::key_index(out@, k);
                let m = choose|m: int| 0 <= m < pairs@.len() && out@[j] == pairs@[m];
                assert(pairs@[m].0@ == k);
            }
            if from@.contains_key(k) && !other@.contains_key(k) {
                let j = crate::objects::key_index(pairs@, k);
                assert(pairs@[j].0@ == k);
                let m = choose|m: int| 0 <= m < out@.len() && out@[m].0@ == pairs@[j].0@;
            }
        }
    }
    out
}

/// Entries in strictly increasing order of their keys, as a `BTreeMap` walks
/// them.
pub open spec fn sorted_by_key(s: Seq<(String, String)>) -> bool {
    forall|i: int, j: int|
        #![trigger s[i], s[j]]
        0 <= i < j < s.len() ==> text_lt(s[i].0@, s[j].0@)
}

/// Entries sorted by key have pairwise different keys.
proof fn lemma_sorted_keys_unique(s: Seq<(String, String)>)
    requires
        sorted_by_key(s),
    ensures
        keys_unique(s),
{
    assert forall|i: int, j: int| 0 <= i < s.len() && 0 <= j < s.len() && i != j implies s[i].0@
        != s[j].0@ by {
        if i < j {
            assert(text_lt(s[i].0@, s[j].0@));
            lemma_text_lt_irreflexive(s[i].0@);
        } else {
            assert(text_lt(s[j].0@, s[i].0@));
            lemma_text_lt_irreflexive(s[j].0@);
        }
    }
}

/// Two lists of entries with the same elements, each with pairwise different
/// keys, stand for the same map.
proof fn lemma_map_of_same_elements(a: Seq<(String, String)>, b: Seq<(String, String)>)
    requires
        keys_unique(a),
        keys_unique(b),
        forall|x: (String, String)| a.contains(x) <==> b.contains(x),
    ensures
        map_of(a) == map_of(b),
{
    assert forall|k: Seq<char>| key_index(a, k) >= 0 implies key_index(b, k) >= 0 && a[key_index(
        a,
        k,
    )].1@ == b[key_index(b, k)].1@ by {
        let i = key_index(a, k);
        assert(a.contains(a[i]));
        let j = choose|j: int| 0 <= j < b.len() && b[j] == a[i];
        lemma_key_index(b, k, j);
    }
    assert forall|k: Seq<char>| key_index(b, k) >= 0 implies key_index(a, k) >= 0 by {
        let j = key_index(b, k);
        assert(b.contains(b[j]));
        let i = choose|i: int| 0 <= i < a.len() && a[i] == b[j];
        lemma_key_index(a, k, i);
    }
    assert(map_of(a).dom() =~= map_of(b).dom());
    assert(map_of(a) =~= map_of(b));
}

/// The entries in the order of their keys.
fn sort_by_key(v: &Vec<(String, String)>) -> (r: Vec<(String, String)>)
    requires
        keys_unique(v@),
    ensures
        sorted_by_key(r@),
        keys_unique(r@),
        map_of(r@) == map_of(v@),
{
    let mut out: Vec<(String, String)> = Vec::new();
    let mut k: usize = 0;
    while k < v.len()
        invariant
            k <= v@.len(),
            keys_unique(v@),
            sorted_by_key(out@),
            forall|x: (String, String)| out@.contains(x) <==> v@.subrange(0, k as int).contains(x),
        decreases v@.len() - k,
    {
        let key = chars_of(v[k].0.as_str());
        let mut i: usize = 0;
        while i < out.len()
            invariant_except_break
                i <= out@.len(),
                key@ == v@[k as int].0@,
                forall|j: int| 0 <= j < i ==> text_lt(#[trigger] out@[j].0@, v@[k as int].0@),
            ensures
                i <= out@.len(),
                forall|j: int| 0 <= j < i ==> text_lt(#[trigger] out@[j].0@, v@[k as int].0@),
                i < out@.len() ==> !text_lt(out@[i as int].0@, v@[k as int].0@),
            decreases out@.len() - i,
        {
            let other = chars_of(out[i].0.as_str());
            if !text_less(&other, &key) {
                break;
            }
            i = i + 1;
        }
        let ghost before = out@;
        let ghost e = v@[k as int];
        proof {
            if i < before.len() {
                assert(before.contains(before[i as int]));
                assert(v@.subrange(0, k as int).contains(before[i as int]));
                let m = choose|m: int| 0 <= m < k && v@.subrange(0, k as int)[m] == before[i as int];
                assert(v@[m] == before[i as int]);
                lemma_text_lt_total(before[i as int].0@, e.0@);
            }
        }
        out.insert(i, (v[k].0.clone(), v[k].1.clone()));
        proof {
            let after = out@;
            assert(after =~= before.insert(i as int, e));
            assert forall|a: int, b: int| 0 <= a < b < after.len() implies text_lt(
                #[trigger] after[a].0@,
                #[trigger] after[b].0@,
            ) by {
                if b < i {
                    assert(after[a] == before[a] && after[b] == before[b]);
                } else if b == i {
                    assert(after[a] == before[a]);
                } else if a < i {
                    assert(after[a] == before[a] && after[b] == before[b - 1]);
                    if b - 1 > i as int {
                        lemma_text_lt_transitive(e.0@, before[i as int].0@, before[b - 1].0@);
                    }
                    lemma_text_lt_transitive(before[a].0@, e.0@, before[b - 1].0@);
                } else if a == i {
                    assert(after[b] == before[b - 1]);
                    if b - 1 > i as int {
                        lemma_text_lt_transitive(e.0@, before[i as int].0@, before[b - 1].0@);
                    }
                } else {
                    assert(after[a] == before[a - 1] && after[b] == before[b - 1]);
                }
            }
            let prev = v@.subrange(0, k as int);
            let next = v@.subrange(0, k + 1);
            assert(next =~= prev.push(e));
            assert forall|x: (String, String)| after.contains(x) <==> next.contains(x) by {
                if after.contains(x) {
                    let q = choose|q: int| 0 <= q < after.len() && after[q] == x;
                    if q < i {
                        assert(before[q] == x);
                        assert(before.contains(x));
                        let m = choose|m: int| 0 <= m < prev.len() && prev[m] == x;
                        assert(next[m] == x);
                    } else if q > i {
                        assert(before[q - 1] == x);
                        assert(before.contains(x));
                        let m = choose|m: int| 0 <= m < prev.len() && prev[m] == x;
                        assert(next[m] == x);
                    } else {
                        assert(next[k as int] == x);
                    }
                }
                if next.contains(x) {
                    let q = choose|q: int| 0 <= q < next.len() && next[q] == x;
                    if q < k {
                        assert(prev[q] == x);
                        assert(prev.contains(x));
                        assert(before.contains(x));
                        let m = choose|m: int| 0 <= m < before.len() && before[m] == x;
                        if m < i {
                            assert(after[m] == x);
                        } else {
                            assert(after[m + 1] == x);
                        }
                    } else {
                        assert(after[i as int] == x);
                    }
                }
            }
        }
        k = k + 1;
    }
    proof {
        assert(v@.subrange(0, v@.len() as int) =~= v@);
        lemma_sorted_keys_unique(out@);
        lemma_map_of_same_elements(out@, v@);
    }
    out
}

/// The links to change when the neighbors go from `current` to `next`.
pub fn link_changes(current: &StringMap, next: &StringMap) -> (r: LinkChanges)
    ensures
        sorted_by_key(r.create@),
        keys_unique(r.create@),
        map_of(r.create@).dom() == created(current@, next@),
        forall|k: Seq<char>| #[trigger] map_of(r.create@).contains_key(k) ==> map_of(r.create@)[k]
            == next@[k],
        sorted_by_key(r.destroy@),
        keys_unique(r.destroy@),
        map_of(r.destroy@).dom() == destroyed(current@, next@),
        forall|k: Seq<char>| #[trigger] map_of(r.destroy@).contains_key(k) ==> map_of(r.destroy@)[k]
            == current@[k],
{
    let create = sort_by_key(&missing_from(next, current));
    let destroy = sort_by_key(&missing_from(current, next));
    assert(map_of(create@).dom() =~= created(current@, next@));
    assert(map_of(destroy@).dom() =~= destroyed(current@, next@));
    LinkChanges { create, destroy }
}

/// After the links change, the router is linked to exactly the neighbors of
/// `next`: those of `current` not destroyed, and those created.
pub proof fn law_links_follow_neighbors(
    current: Map<Seq<char>, Seq<char>>,
    next: Map<Seq<char>, Seq<char>>,
)
    ensures
        current.dom().difference(destroyed(current, next)).union(created(current, next))
            == next.dom(),
{
    assert(current.dom().difference(destroyed(current, next)).union(created(current, next))
        =~= next.dom());
}

/// A router links to every inner and every outer neighbor, whatever its own
/// face: a name is linked exactly when one of the two lists holds it, to the
/// outer face when the outer list holds it and to the inner face otherwise.
pub proof fn law_merged_neighbors(st: RouterStatus, k: Seq<char>)
    ensures
        merged(Some(st)).contains_key(k) <==> (st.inner_neighbors@.contains_key(k)
            || st.outer_neighbors@.contains_key(k)),
        st.outer_neighbors@.contains_key(k) ==> merged(Some(st))[k] == st.outer_neighbors@[k],
        st.inner_neighbors@.contains_key(k) && !st.outer_neighbors@.contains_key(k) ==> merged(
            Some(st),
        )[k] == st.inner_neighbors@[k],
        merged(None) == Map::<Seq<char>, Seq<char>>::empty(),
{
}

} // verus!
