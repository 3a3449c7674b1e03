//! Kubernetes-style status conditions: building one, and inserting or updating
//! one in a list of conditions.
//!
//! A list holds at most one condition of each type. Upserting a condition whose
//! status did not change keeps the time of the last transition; a change of
//! status replaces the condition as a whole.
use vstd::prelude::*;

use crate::clock::{now, Instant};
use crate::text::lit;

verus! {

/// A status condition (`meta/v1 Condition`).
#[derive(Debug)]
pub struct Condition {
    pub type_: String,
    /// `"True"` or `"False"` for the conditions this crate writes.
    pub status: String,
    pub reason: String,
    pub message: String,
    pub observed_generation: Option<i64>,
    pub last_transition_time: Instant,
}

impl Condition {
    /// A field-by-field copy.
    pub fn duplicate(&self) -> (r: Condition)
        ensures
            r == *self,
    {
        Condition {
            type_: self.type_.clone(),
            status: self.status.clone(),
            reason: self.reason.clone(),
            message: self.message.clone(),
            observed_generation: self.observed_generation,
            last_transition_time: self.last_transition_time,
        }
    }
}

/// The text a boolean status is written as.
pub open spec fn status_text(status: bool) -> Seq<char> {
    if status {
        "True"@
    } else {
        "False"@
    }
}

/// Whether `c` is the condition built from these fields.
pub open spec fn is_condition(
    c: Condition,
    type_: Seq<char>,
    status: bool,
    reason: Seq<char>,
    message: Seq<char>,
    observed_generation: i64,
    at: Instant,
) -> bool {
    &&& c.type_@ == type_
    &&& c.status@ == status_text(status)
    &&& c.reason@ == reason
    &&& c.message@ == message
    &&& c.observed_generation == Some(observed_generation)
    &&& c.last_transition_time == at
}

/// Index of the first condition of the given type, or -1.
pub open spec fn index_of_type(conds: Seq<Condition>, type_: Seq<char>) -> int {
    if exists|i: int| 0 <= i < conds.len() && conds[i].type_@ == type_ {
        choose|i: int|
            0 <= i < conds.len() && conds[i].type_@ == type_ && forall|j: int|
                0 <= j < i ==> conds[j].type_@ != type_
    } else {
        -1
    }
}

/// The condition of the given type, if the list holds one.
pub open spec fn condition_of(conds: Option<Seq<Condition>>, type_: Seq<char>) -> Option<Condition> {
    match conds {
        None => None,
        Some(v) => {
            let i = index_of_type(v, type_);
            if i < 0 {
                None
            } else {
                Some(v[i])
            }
        },
    }
}

/// At most one condition of each type.
pub open spec fn unique_types(conds: Seq<Condition>) -> bool {
    forall|i: int, j: int|
        0 <= i < conds.len() && 0 <= j < conds.len() && i != j ==> conds[i].type_@ != conds[j].type_@
}

/// `old` with its reason, message and observed generation taken from `new`.
pub open spec fn refreshed(old: Condition, new: Condition) -> Condition {
    Condition {
        reason: new.reason,
        message: new.message,
        observed_generation: new.observed_generation,
        ..old
    }
}

/// The list after upserting `c`: a condition of a new type is appended; one
/// whose status changed is replaced; otherwise reason, message and observed
/// generation are refreshed and the transition time kept.
pub open spec fn upserted(conds: Option<Seq<Condition>>, c: Condition) -> Option<Seq<Condition>> {
    match conds {
        None => Some(seq![c]),
        Some(v) => {
            let i = index_of_type(v, c.type_@);
            if i < 0 {
                Some(v.push(c))
            } else if v[i].status@ != c.status@ {
                Some(v.update(i, c))
            } else {
                Some(v.update(i, refreshed(v[i], c)))
            }
        },
    }
}

proof fn lemma_index_of_type(conds: Seq<Condition>, type_: Seq<char>, i: int)
    requires
        0 <= i < conds.len(),
        conds[i].type_@ == type_,
        forall|j: int| 0 <= j < i ==> conds[j].type_@ != type_,
    ensures
        index_of_type(conds, type_) == i,
{
    let k = index_of_type(conds, type_);
    if k < i {
        assert(conds[k].type_@ != type_);
    }
    if k > i {
        assert(conds[i].type_@ != type_);
    }
}

proof fn lemma_index_of_type_range(conds: Seq<Condition>, type_: Seq<char>)
    ensures
        -1 <= index_of_type(conds, type_) < conds.len(),
        index_of_type(conds, type_) >= 0 ==> conds[index_of_type(conds, type_)].type_@ == type_,
        index_of_type(conds, type_) >= 0 ==> forall|j: int|
            0 <= j < index_of_type(conds, type_) ==> conds[j].type_@ != type_,
        index_of_type(conds, type_) < 0 ==> forall|j: int|
            0 <= j < conds.len() ==> conds[j].type_@ != type_,
{
    if exists|i: int| 0 <= i < conds.len() && conds[i].type_@ == type_ {
        let k = choose|i: int| 0 <= i < conds.len() && conds[i].type_@ == type_;
        lemma_least_type_index(conds, type_, k);
    }
}

proof fn lemma_least_type_index(conds: Seq<Condition>, type_: Seq<char>, k: int)
    requires
        0 <= k < conds.len(),
        conds[k].type_@ == type_,
    ensures
        exists|i: int|
            0 <= i < conds.len() && conds[i].type_@ == type_ && forall|j: int|
                0 <= j < i ==> conds[j].type_@ != type_,
    decreases k,
{
    if exists|j: int| 0 <= j < k && conds[j].type_@ == type_ {
        let j = choose|j: int| 0 <= j < k && conds[j].type_@ == type_;
        lemma_least_type_index(conds, type_, j);
    } else {
        assert(forall|j: int| 0 <= j < k ==> conds[j].type_@ != type_);
    }
}

/// Position of the first condition of the given type.
fn position_of_type(v: &Vec<Condition>, type_: &String) -> (r: Option<usize>)
    ensures
        match r {
            Some(i) => i < v.len() && index_of_type(v@, type_@) == i,
            None => index_of_type(v@, type_@) == -1,
        },
{
    let mut i: usize = 0;
    while i < v.len()
        invariant
            i <= v.len(),
            forall|j: int| 0 <= j < i ==> v@[j].type_@ != type_@,
        decreases v.len() - i,
    {
        if v[i].type_ == *type_ {
            proof {
                lemma_index_of_type(v@, type_@, i as int);
            }
            return Some(i);
        }
        i = i + 1;
    }
    proof {
        lemma_index_of_type_range(v@, type_@);
    }
    None
}

/// The text a boolean status is written as.
pub fn status_string(status: bool) -> (r: String)
    ensures
        r@ == status_text(status),
{
    if status {
        lit("True")
    } else {
        lit("False")
    }
}

/// Builds a condition stamped with the given transition time.
pub fn make_condition_at(
    type_: &str,
    status: bool,
    reason: &str,
    message: &str,
    observed_generation: i64,
    at: Instant,
) -> (c: Condition)
    ensures
        is_condition(c, type_@, status, reason@, message@, observed_generation, at),
{
    Condition {
        type_: lit(type_),
        status: status_string(status),
        reason: lit(reason),
        message: lit(message),
        observed_generation: Some(observed_generation),
        last_transition_time: at,
    }
}

/// Builds a condition stamped with the current time of the clock.
pub fn make_condition(
    type_: &str,
    status: bool,
    reason: &str,
    message: &str,
    observed_generation: i64,
) -> (c: Condition)
    ensures
        is_condition(c, type_@, status, reason@, message@, observed_generation, c.last_transition_time),
{
    let at = now();
    make_condition_at(type_, status, reason, message, observed_generation, at)
}

/// Inserts a condition, or updates the one of the same type in place.
pub fn upsert_condition(target: &mut Option<Vec<Condition>>, new_cond: Condition)
    ensures
        list_view(*final(target)) == upserted(list_view(*old(target)), new_cond),
{
    match target {
        Some(vec) => {
            match position_of_type(vec, &new_cond.type_) {
                Some(pos) => {
                    if vec[pos].status != new_cond.status {
                        vec.set(pos, new_cond);
                    } else {
                        let mut cur = vec[pos].duplicate();
                        let time = cur.last_transition_time;
                        cur.reason = new_cond.reason;
                        cur.message = new_cond.message;
                        cur.observed_generation = new_cond.observed_generation;
                        cur.last_transition_time = time;
                        vec.set(pos, cur);
                    }
                },
                None => {
                    vec.push(new_cond);
                },
            }
        },
        None => {
            let mut v = Vec::new();
            v.push(new_cond);
            *target = Some(v);
        },
    }
}

/// The views of an optional list of conditions.
pub open spec fn list_view(conds: Option<Vec<Condition>>) -> Option<Seq<Condition>> {
    match conds {
        Some(v) => Some(v@),
        None => None,
    }
}

/// Builds a condition from a boolean status, stamped with the current time,
/// and upserts it (an absent message is written as the empty text).
pub fn upsert_condition_bool(
    target: &mut Option<Vec<Condition>>,
    type_: &str,
    status: bool,
    reason: &str,
    message: Option<&str>,
    observed_generation: i64,
)
    ensures
        exists|c: Condition|
            #![trigger upserted(list_view(*old(target)), c)]
            is_condition(
                c,
                type_@,
                status,
                reason@,
                match message {
                    Some(m) => m@,
                    None => Seq::<char>::empty(),
                },
                observed_generation,
                c.last_transition_time,
            ) && list_view(*final(target)) == upserted(list_view(*old(target)), c),
{
    let msg = match message {
        Some(m) => m,
        None => "",
    };
    proof {
        reveal_strlit("");
    }
    let cond = make_condition(type_, status, reason, msg, observed_generation);
    let ghost before = list_view(*target);
    upsert_condition(target, cond);
    assert(list_view(*target) == upserted(before, cond));
    assert(msg@ == match message {
        Some(m) => m@,
        None => Seq::<char>::empty(),
    });
    assert(is_condition(cond, type_@, status, reason@, msg@, observed_generation, cond.last_transition_time));
}

/// `upsert_condition_bool`, naming the condition it upserted.
pub(crate) fn upsert_condition_named(
    target: &mut Option<Vec<Condition>>,
    type_: &str,
    status: bool,
    reason: &str,
    message: Option<&str>,
    observed_generation: i64,
) -> (c: Ghost<Condition>)
    ensures
        is_condition(
            c@,
            type_@,
            status,
            reason@,
            match message {
                Some(m) => m@,
                None => Seq::<char>::empty(),
            },
            observed_generation,
            c@.last_transition_time,
        ),
        list_view(*final(target)) == upserted(list_view(*old(target)), c@),
{
    let msg = match message {
        Some(m) => m,
        None => "",
    };
    proof {
        reveal_strlit("");
    }
    let cond = make_condition(type_, status, reason, msg, observed_generation);
    let ghost g = cond;
    upsert_condition(target, cond);
    assert(msg@ == match message {
        Some(m) => m@,
        None => Seq::<char>::empty(),
    });
    Ghost(g)
}

/// Removes every condition.
pub fn clear_conditions(target: &mut Option<Vec<Condition>>)
    ensures
        *final(target) is None,
{
    *target = None;
}

/// The time of the last transition that the list will record for `c`: that
/// of the condition it holds of the same type and status, else that of `c`.
pub open spec fn kept_time(conds: Option<Seq<Condition>>, c: Condition) -> Instant {
    match condition_of(conds, c.type_@) {
        Some(d) => if d.status@ == c.status@ {
            d.last_transition_time
        } else {
            c.last_transition_time
        },
        None => c.last_transition_time,
    }
}

proof fn lemma_index_after_push(v: Seq<Condition>, c: Condition, t: Seq<char>)
    requires
        index_of_type(v, c.type_@) < 0,
    ensures
        t == c.type_@ ==> index_of_type(v.push(c), t) == v.len(),
        t != c.type_@ ==> index_of_type(v.push(c), t) == index_of_type(v, t),
{
    lemma_index_of_type_range(v, c.type_@);
    lemma_index_of_type_range(v, t);
    let w = v.push(c);
    if t == c.type_@ {
        lemma_index_of_type(w, t, v.len() as int);
    } else {
        let i = index_of_type(v, t);
        if i >= 0 {
            lemma_index_of_type(w, t, i);
        } else {
            lemma_index_of_type_range(w, t);
            if index_of_type(w, t) >= 0 {
                assert(w[index_of_type(w, t)].type_@ == t);
            }
        }
    }
}

proof fn lemma_index_after_update(v: Seq<Condition>, i: int, d: Condition, t: Seq<char>)
    requires
        0 <= i < v.len(),
        index_of_type(v, d.type_@) == i,
    ensures
        index_of_type(v.update(i, d), t) == index_of_type(v, t),
{
    lemma_index_of_type_range(v, d.type_@);
    lemma_index_of_type_range(v, t);
    let w = v.update(i, d);
    let k = index_of_type(v, t);
    if k >= 0 {
        if k < i {
            lemma_index_of_type(w, t, k);
        } else {
            if k == i {
                assert(t == d.type_@);
                lemma_index_of_type(w, t, k);
            } else {
                assert(v[i].type_@ == d.type_@);
                assert(t != d.type_@) by {
                    if t == d.type_@ {
                        assert(v[i].type_@ == t);
                    }
                }
                assert forall|j: int| 0 <= j < k implies w[j].type_@ != t by {
                    if j != i {
                        assert(w[j] == v[j]);
                    }
                }
                lemma_index_of_type(w, t, k);
            }
        }
    } else {
        lemma_index_of_type_range(w, t);
        if index_of_type(w, t) >= 0 {
            let j = index_of_type(w, t);
            if j == i {
                assert(v[i].type_@ == d.type_@);
                assert(v[i].type_@ == t);
            } else {
                assert(w[j] == v[j]);
            }
        }
    }
}

/// Reading back an upserted condition: the list holds a condition of its type
/// with its status, reason, message and observed generation, and the
/// transition time is kept exactly when the status did not change.
pub proof fn law_upsert_then_read(conds: Option<Seq<Condition>>, c: Condition)
    ensures
        ({
            let d = condition_of(upserted(conds, c), c.type_@);
            &&& d is Some
            &&& d->0.type_@ == c.type_@
            &&& d->0.status@ == c.status@
            &&& d->0.reason == c.reason
            &&& d->0.message == c.message
            &&& d->0.observed_generation == c.observed_generation
            &&& d->0.last_transition_time == kept_time(conds, c)
        }),
{
    match conds {
        None => {
            lemma_index_of_type(seq![c], c.type_@, 0);
        },
        Some(v) => {
            lemma_index_of_type_range(v, c.type_@);
            let i = index_of_type(v, c.type_@);
            if i < 0 {
                lemma_index_after_push(v, c, c.type_@);
            } else if v[i].status@ != c.status@ {
                lemma_index_after_update(v, i, c, c.type_@);
            } else {
                lemma_index_after_update(v, i, refreshed(v[i], c), c.type_@);
            }
        },
    }
}

/// Upserting a condition leaves the conditions of every other type as they were.
pub proof fn law_upsert_keeps_others(conds: Option<Seq<Condition>>, c: Condition, t: Seq<char>)
    requires
        t != c.type_@,
    ensures
        condition_of(upserted(conds, c), t) == condition_of(conds, t),
{
    match conds {
        None => {
            lemma_index_of_type_range(seq![c], t);
            if index_of_type(seq![c], t) >= 0 {
                assert(seq![c][0].type_@ == c.type_@);
            }
        },
        Some(v) => {
            lemma_index_of_type_range(v, c.type_@);
            let i = index_of_type(v, c.type_@);
            if i < 0 {
                lemma_index_after_push(v, c, t);
                lemma_index_of_type_range(v, t);
                let k = index_of_type(v, t);
                if k >= 0 {
                    assert(v.push(c)[k] == v[k]);
                }
            } else {
                let d = if v[i].status@ != c.status@ {
                    c
                } else {
                    refreshed(v[i], c)
                };
                lemma_index_after_update(v, i, d, t);
                lemma_index_of_type_range(v, t);
                let k = index_of_type(v, t);
                if k >= 0 {
                    assert(k != i);
                    assert(v.update(i, d)[k] == v[k]);
                }
            }
        },
    }
}

/// Upserting keeps a list free of two conditions of the same type.
pub proof fn law_upsert_keeps_types_unique(conds: Option<Seq<Condition>>, c: Condition)
    requires
        conds matches Some(v) ==> unique_types(v),
    ensures
        upserted(conds, c) matches Some(w) && unique_types(w),
{
    match conds {
        None => {},
        Some(v) => {
            lemma_index_of_type_range(v, c.type_@);
            let i = index_of_type(v, c.type_@);
            if i < 0 {
                let w = v.push(c);
                assert forall|a: int, b: int|
                    0 <= a < w.len() && 0 <= b < w.len() && a != b implies w[a].type_@
                    != w[b].type_@ by {
                    if a < v.len() && b < v.len() {
                        assert(w[a] == v[a] && w[b] == v[b]);
                    } else if a < v.len() {
                        assert(w[a] == v[a]);
                    } else {
                        assert(w[b] == v[b]);
                    }
                }
            } else {
                let d = if v[i].status@ != c.status@ {
                    c
                } else {
                    refreshed(v[i], c)
                };
                let w = v.update(i, d);
                assert forall|a: int, b: int|
                    0 <= a < w.len() && 0 <= b < w.len() && a != b implies w[a].type_@
                    != w[b].type_@ by {
                    if a != i && b != i {
                        assert(w[a] == v[a] && w[b] == v[b]);
                    } else if a == i {
                        assert(w[b] == v[b]);
                        assert(v[i].type_@ == d.type_@);
                    } else {
                        assert(w[a] == v[a]);
                        assert(v[i].type_@ == d.type_@);
                    }
                }
            }
        },
    }
}

/// Upserting the same condition twice gives the list that one upsert gives.
pub proof fn law_upsert_idempotent(conds: Option<Seq<Condition>>, c: Condition)
    ensures
        upserted(upserted(conds, c), c) == upserted(conds, c),
{
    let once = upserted(conds, c);
    law_upsert_then_read(conds, c);
    let w = once->0;
    lemma_index_of_type_range(w, c.type_@);
    let i = index_of_type(w, c.type_@);
    assert(w[i] == condition_of(once, c.type_@)->0);
    match conds {
        None => {
            lemma_index_of_type(seq![c], c.type_@, 0);
            assert(w[i] == c);
            assert(w.update(i, refreshed(w[i], c)) =~= w);
        },
        Some(v) => {
            lemma_index_of_type_range(v, c.type_@);
            let j = index_of_type(v, c.type_@);
            if j < 0 {
                lemma_index_after_push(v, c, c.type_@);
                assert(w[i] == c);
                assert(w.update(i, refreshed(w[i], c)) =~= w);
            } else if v[j].status@ != c.status@ {
                lemma_index_after_update(v, j, c, c.type_@);
                assert(w[i] == c);
                assert(w.update(i, refreshed(w[i], c)) =~= w);
            } else {
                assert(refreshed(w[i], c) == w[i]);
                assert(w.update(i, refreshed(w[i], c)) =~= w);
            }
        },
    }
}

} // verus!
