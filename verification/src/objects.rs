//! The parts of Kubernetes objects that the operator reads or builds: string
//! maps (labels, annotations, selectors), object metadata and owner
//! references, and the pieces of pod specs (environment variables, volumes,
//! volume mounts, ports, containers).
use vstd::prelude::*;

use crate::text::{lit, same_text};

verus! {

/// A map from strings to strings (`BTreeMap<String, String>`), kept as a list
/// of entries with pairwise different keys.
#[derive(Debug)]
pub struct StringMap {
    entries: Vec<(String, String)>,
}

/// Position of the entry with key `k`, or -1.
pub open spec fn key_index(s: Seq<(String, String)>, k: Seq<char>) -> int {
    if exists|i: int| 0 <= i < s.len() && s[i].0@ == k {
        choose|i: int| 0 <= i < s.len() && s[i].0@ == k
    } else {
        -1
    }
}

/// Pairwise different keys.
pub open spec fn keys_unique(s: Seq<(String, String)>) -> bool {
    forall|i: int, j: int| 0 <= i < s.len() && 0 <= j < s.len() && i != j ==> s[i].0@ != s[j].0@
}

/// The map that a list of entries with pairwise different keys stands for.
pub open spec fn map_of(s: Seq<(String, String)>) -> Map<Seq<char>, Seq<char>> {
    Map::new(|k: Seq<char>| key_index(s, k) >= 0, |k: Seq<char>| s[key_index(s, k)].1@)
}

pub proof fn lemma_key_index(s: Seq<(String, String)>, k: Seq<char>, i: int)
    requires
        keys_unique(s),
        0 <= i < s.len(),
        s[i].0@ == k,
    ensures
        key_index(s, k) == i,
{
    let j = key_index(s, k);
    assert(0 <= j < s.len() && s[j].0@ == k);
}

proof fn lemma_key_index_none(s: Seq<(String, String)>, k: Seq<char>)
    requires
        forall|i: int| 0 <= i < s.len() ==> s[i].0@ != k,
    ensures
        key_index(s, k) == -1,
{
}

impl View for StringMap {
    type V = Map<Seq<char>, Seq<char>>;

    closed spec fn view(&self) -> Map<Seq<char>, Seq<char>> {
        map_of(self.entries@)
    }
}

impl StringMap {
    #[verifier::type_invariant]
    spec fn keys_distinct(self) -> bool {
        keys_unique(self.entries@)
    }

    /// The entries, in the order they were first inserted.
    pub closed spec fn entry_seq(self) -> Seq<(String, String)> {
        self.entries@
    }

    /// The empty map.
    pub fn new() -> (m: StringMap)
        ensures
            m@ == Map::<Seq<char>, Seq<char>>::empty(),
    {
        let m = StringMap { entries: Vec::new() };
        assert(m@ =~= Map::<Seq<char>, Seq<char>>::empty());
        m
    }

    fn position(&self, key: &str) -> (r: Option<usize>)
        ensures
            match r {
                Some(i) => i < self.entries@.len() && self.entries@[i as int].0@ == key@,
                None => forall|j: int| 0 <= j < self.entries@.len() ==> self.entries@[j].0@ != key@,
            },
    {
        let mut i: usize = 0;
        while i < self.entries.len()
            invariant
                i <= self.entries@.len(),
                forall|j: int| 0 <= j < i ==> self.entries@[j].0@ != key@,
            decreases self.entries@.len() - i,
        {
            if same_text(self.entries[i].0.as_str(), key) {
                return Some(i);
            }
            i = i + 1;
        }
        None
    }

    /// The value stored under `key`.
    pub fn get(&self, key: &str) -> (r: Option<String>)
        ensures
            match r {
                Some(v) => self@.contains_key(key@) && self@[key@] == v@,
                None => !self@.contains_key(key@),
            },
    {
        proof {
            use_type_invariant(self);
        }
        match self.position(key) {
            Some(i) => {
                proof {
                    lemma_key_index(self.entries@, key@, i as int);
                }
                Some(self.entries[i].1.clone())
            },
            None => {
                proof {
                    lemma_key_index_none(self.entries@, key@);
                }
                None
            },
        }
    }

    /// Whether a value is stored under `key`.
    pub fn contains_key(&self, key: &str) -> (r: bool)
        ensures
            r == self@.contains_key(key@),
    {
        match self.get(key) {
            Some(_) => true,
            None => false,
        }
    }

    /// Number of entries.
    pub fn len(&self) -> (r: usize)
        ensures
            r == self@.dom().len(),
    {
        proof {
            use_type_invariant(self);
            self.lemma_dom_len();
        }
        self.entries.len()
    }

    proof fn lemma_dom_len(self)
        requires
            keys_unique(self.entries@),
        ensures
            self@.dom().len() == self.entries@.len(),
            self@.dom().finite(),
        decreases self.entries@.len(),
    {
        let s = self.entries@;
        let keys = s.map_values(|e: (String, String)| e.0@);
        assert(self@.dom() =~= keys.to_set()) by {
            assert forall|k: Seq<char>| self@.dom().contains(k) implies keys.to_set().contains(k) by {
                let i = key_index(s, k);
                assert(keys[i] == k);
            }
            assert forall|k: Seq<char>| keys.to_set().contains(k) implies self@.dom().contains(k) by {
                let i = choose|i: int| 0 <= i < keys.len() && keys[i] == k;
                assert(s[i].0@ == k);
            }
        }
        assert(keys.no_duplicates()) by {
            assert forall|i: int, j: int| 0 <= i < keys.len() && 0 <= j < keys.len() && i != j
                implies keys[i] != keys[j] by {
                assert(s[i].0@ != s[j].0@);
            }
        }
        keys.unique_seq_to_set();
    }

    /// Stores `value` under `key`, replacing what was stored there.
    pub fn insert(&mut self, key: String, value: String)
        ensures
            final(self)@ == old(self)@.insert(key@, value@),
    {
        proof {
            use_type_invariant(&*self);
        }
        let ghost before = self.entries@;
        let pos = self.position(key.as_str());
        let mut entries: Vec<(String, String)> = Vec::new();
        std::mem::swap(&mut entries, &mut self.entries);
        assert(entries@ == before);
        match pos {
            Some(i) => {
                let ghost k = key@;
                let ghost v = value@;
                entries.set(i, (key, value));
                proof {
                    let after = entries@;
                    assert(after == before.update(i as int, after[i as int]));
                    assert forall|a: int, b: int|
                        0 <= a < after.len() && 0 <= b < after.len() && a != b implies after[a].0@
                        != after[b].0@ by {
                        if a != i && b != i {
                            assert(after[a] == before[a] && after[b] == before[b]);
                        } else if a == i {
                            assert(after[b] == before[b]);
                            assert(before[i as int].0@ == k);
                        } else {
                            assert(after[a] == before[a]);
                            assert(before[i as int].0@ == k);
                        }
                    }
                    assert(map_of(after) =~= map_of(before).insert(k, v)) by {
                        lemma_key_index(before, k, i as int);
                        lemma_key_index(after, k, i as int);
                        assert forall|q: Seq<char>| q != k implies key_index(after, q) == key_index(before, q) by {
                            if key_index(before, q) >= 0 {
                                let j = key_index(before, q);
                                assert(j != i);
                                assert(after[j] == before[j]);
                                lemma_key_index(after, q, j);
                            } else {
                                assert forall|j: int| 0 <= j < after.len() implies after[j].0@ != q by {
                                    if j != i {
                                        assert(after[j] == before[j]);
                                    }
                                }
                            }
                        }
                        assert forall|q: Seq<char>| q != k && key_index(before, q) >= 0 implies after[key_index(after, q)]
                            == before[key_index(before, q)] by {
                            let j = key_index(before, q);
                            assert(j != i);
                        }
                    }
                }
            },
            None => {
                let ghost k = key@;
                let ghost v = value@;
                entries.push((key, value));
                proof {
                    let after = entries@;
                    assert(after == before.push(after[before.len() as int]));
                    assert forall|a: int, b: int|
                        0 <= a < after.len() && 0 <= b < after.len() && a != b implies after[a].0@
                        != after[b].0@ by {
                        if a < before.len() && b < before.len() {
                            assert(after[a] == before[a] && after[b] == before[b]);
                        } else if a < before.len() {
                            assert(after[a] == before[a]);
                        } else {
                            assert(after[b] == before[b]);
                        }
                    }
                    assert(map_of(after) =~= map_of(before).insert(k, v)) by {
                        lemma_key_index(after, k, before.len() as int);
                        assert forall|q: Seq<char>| q != k implies key_index(after, q) == key_index(before, q) by {
                            if key_index(before, q) >= 0 {
                                let j = key_index(before, q);
                                assert(after[j] == before[j]);
                                lemma_key_index(after, q, j);
                            } else {
                                assert forall|j: int| 0 <= j < after.len() implies after[j].0@ != q by {
                                    if j < before.len() {
                                        assert(after[j] == before[j]);
                                    }
                                }
                            }
                        }
                        assert forall|q: Seq<char>| q != k && key_index(before, q) >= 0 implies after[key_index(after, q)]
                            == before[key_index(before, q)] by {
                            let j = key_index(before, q);
                            assert(after[j] == before[j]);
                        }
                    }
                }
            },
        }
        self.entries = entries;
    }

    /// Removes the value stored under `key`, if any (`BTreeMap::remove`).
    pub fn remove(&mut self, key: &str)
        ensures
            final(self)@ == old(self)@.remove(key@),
    {
        proof {
            use_type_invariant(&*self);
        }
        let ghost before = self.entries@;
        let ghost k = key@;
        match self.position(key) {
            None => {
                proof {
                    lemma_key_index_none(before, k);
                    assert(map_of(before) =~= map_of(before).remove(k));
                }
            },
            Some(i) => {
                let mut entries: Vec<(String, String)> = Vec::new();
                std::mem::swap(&mut entries, &mut self.entries);
                assert(entries@ == before);
                entries.remove(i);
                proof {
                    let after = entries@;
                    assert(after == before.remove(i as int));
                    assert forall|a: int| 0 <= a < after.len() implies after[a] == before[if a < i {
                        a
                    } else {
                        a + 1
                    }] by {}
                    assert forall|a: int, b: int|
                        0 <= a < after.len() && 0 <= b < after.len() && a != b implies after[a].0@
                        != after[b].0@ by {
                        let a2 = if a < i {
                            a
                        } else {
                            a + 1
                        };
                        let b2 = if b < i {
                            b
                        } else {
                            b + 1
                        };
                        assert(after[a] == before[a2] && after[b] == before[b2]);
                    }
                    lemma_key_index(before, k, i as int);
                    assert forall|j: int| 0 <= j < after.len() implies after[j].0@ != k by {
                        let j2 = if j < i {
                            j
                        } else {
                            j + 1
                        };
                        assert(after[j] == before[j2]);
                    }
                    lemma_key_index_none(after, k);
                    assert forall|q: Seq<char>| q != k && key_index(before, q) >= 0 implies key_index(
                        after,
                        q,
                    ) >= 0 && after[key_index(after, q)] == before[key_index(before, q)] by {
                        let j = key_index(before, q);
                        assert(j != i);
                        let j2 = if j < i {
                            j
                        } else {
                            j - 1
                        };
                        assert(after[j2] == before[j]);
                        lemma_key_index(after, q, j2);
                    }
                    assert forall|q: Seq<char>| key_index(before, q) < 0 implies key_index(after, q)
                        < 0 by {
                        assert forall|j: int| 0 <= j < after.len() implies after[j].0@ != q by {
                            let j2 = if j < i {
                                j
                            } else {
                                j + 1
                            };
                            assert(after[j] == before[j2]);
                        }
                        lemma_key_index_none(after, q);
                    }
                    assert(map_of(after) =~= map_of(before).remove(k));
                }
                self.entries = entries;
            },
        }
    }

    /// A copy of the map.
    pub fn duplicate(&self) -> (r: StringMap)
        ensures
            r@ == self@,
            r.entry_seq() == self.entry_seq(),
    {
        proof {
            use_type_invariant(self);
        }
        let mut out: Vec<(String, String)> = Vec::new();
        let mut i: usize = 0;
        while i < self.entries.len()
            invariant
                i <= self.entries@.len(),
                out@ == self.entries@.subrange(0, i as int),
            decreases self.entries@.len() - i,
        {
            let k = self.entries[i].0.clone();
            let v = self.entries[i].1.clone();
            out.push((k, v));
            proof {
                assert(out@ =~= self.entries@.subrange(0, i + 1));
            }
            i = i + 1;
        }
        assert(out@ =~= self.entries@);
        StringMap { entries: out }
    }

    /// The entries of the map, as pairs with pairwise different keys.
    pub fn to_pairs(&self) -> (r: Vec<(String, String)>)
        ensures
            keys_unique(r@),
            map_of(r@) == self@,
    {
        proof {
            use_type_invariant(self);
        }
        let mut out: Vec<(String, String)> = Vec::new();
        let mut i: usize = 0;
        while i < self.entries.len()
            invariant
                i <= self.entries@.len(),
                out@ == self.entries@.subrange(0, i as int),
            decreases self.entries@.len() - i,
        {
            out.push((self.entries[i].0.clone(), self.entries[i].1.clone()));
            proof {
                assert(out@ =~= self.entries@.subrange(0, i + 1));
            }
            i = i + 1;
        }
        assert(out@ =~= self.entries@);
        out
    }

    /// Copies every entry of `other` into this map, replacing the values of the
    /// keys that both hold (`BTreeMap::extend`).
    pub fn extend(&mut self, other: &StringMap)
        ensures
            final(self)@ == old(self)@.union_prefer_right(other@),
    {
        proof {
            use_type_invariant(other);
        }
        let mut i: usize = 0;
        let ghost start = self@;
        while i < other.entries.len()
            invariant
                i <= other.entries@.len(),
                keys_unique(other.entries@),
                self@ == start.union_prefer_right(map_of(other.entries@.subrange(0, i as int))),
            decreases other.entries@.len() - i,
        {
            let k = other.entries[i].0.clone();
            let v = other.entries[i].1.clone();
            let ghost before = self@;
            self.insert(k, v);
            proof {
                let s = other.entries@;
                let pre = s.subrange(0, i as int);
                let post = s.subrange(0, i + 1);
                assert(keys_unique(post));
                assert(keys_unique(pre));
                lemma_key_index(post, s[i as int].0@, i as int);
                assert(map_of(post) =~= map_of(pre).insert(s[i as int].0@, s[i as int].1@)) by {
                    assert forall|q: Seq<char>| q != s[i as int].0@ implies key_index(post, q) == key_index(pre, q) by {
                        if key_index(pre, q) >= 0 {
                            let j = key_index(pre, q);
                            assert(post[j] == pre[j]);
                            lemma_key_index(post, q, j);
                        } else {
                            assert forall|j: int| 0 <= j < post.len() implies post[j].0@ != q by {
                                if j < pre.len() {
                                    assert(post[j] == pre[j]);
                                }
                            }
                        }
                    }
                    assert forall|q: Seq<char>| q != s[i as int].0@ && key_index(pre, q) >= 0 implies post[key_index(post, q)]
                        == pre[key_index(pre, q)] by {
                        let j = key_index(pre, q);
                        assert(post[j] == pre[j]);
                    }
                }
                assert(self@ =~= start.union_prefer_right(map_of(post)));
            }
            i = i + 1;
        }
        assert(other.entries@.subrange(0, other.entries@.len() as int) =~= other.entries@);
    }
}

/// The map holding one entry.
pub fn single_entry(key: &str, value: &str) -> (m: StringMap)
    ensures
        m@ == Map::<Seq<char>, Seq<char>>::empty().insert(key@, value@),
{
    let mut m = StringMap::new();
    m.insert(lit(key), lit(value));
    m
}

/// A reference from an object to the object that owns it.
#[derive(Debug)]
pub struct OwnerReference {
    pub api_version: String,
    pub kind: String,
    pub name: String,
    pub uid: String,
    pub controller: Option<bool>,
    pub block_owner_deletion: Option<bool>,
}

/// The metadata of an object.
#[derive(Debug)]
pub struct ObjectMeta {
    pub name: Option<String>,
    pub generate_name: Option<String>,
    pub namespace: Option<String>,
    pub uid: Option<String>,
    pub generation: Option<i64>,
    pub labels: Option<StringMap>,
    pub annotations: Option<StringMap>,
    pub owner_references: Option<Vec<OwnerReference>>,
}

/// The view of an optional string.
pub open spec fn opt_view(s: Option<String>) -> Option<Seq<char>> {
    match s {
        Some(t) => Some(t@),
        None => None,
    }
}

/// The view of an optional map: an absent map reads as the empty map.
pub open spec fn map_or_empty(m: Option<StringMap>) -> Map<Seq<char>, Seq<char>> {
    match m {
        Some(x) => x@,
        None => Map::empty(),
    }
}

/// A copy of an optional string.
pub fn copy_opt(s: &Option<String>) -> (r: Option<String>)
    ensures
        r == *s,
{
    match s {
        Some(t) => Some(t.clone()),
        None => None,
    }
}

/// The name of an object, else its name prefix, else the empty name
/// (`ResourceExt::name_any`).
pub open spec fn name_any_spec(meta: ObjectMeta) -> Seq<char> {
    match meta.name {
        Some(n) => n@,
        None => match meta.generate_name {
            Some(g) => g@,
            None => Seq::empty(),
        },
    }
}

impl ObjectMeta {
    /// Metadata with every field absent.
    pub fn empty() -> (m: ObjectMeta)
        ensures
            m.name is None,
            m.generate_name is None,
            m.namespace is None,
            m.uid is None,
            m.generation is None,
            m.labels is None,
            m.annotations is None,
            m.owner_references is None,
    {
        ObjectMeta {
            name: None,
            generate_name: None,
            namespace: None,
            uid: None,
            generation: None,
            labels: None,
            annotations: None,
            owner_references: None,
        }
    }

    /// Metadata with just a name.
    pub fn named(name: &str) -> (m: ObjectMeta)
        ensures
            m.name matches Some(n) && n@ == name@,
            m.generate_name is None,
            m.namespace is None,
            m.uid is None,
            m.generation is None,
            m.labels is None,
            m.annotations is None,
            m.owner_references is None,
    {
        let mut m = ObjectMeta::empty();
        m.name = Some(lit(name));
        m
    }

    /// `ResourceExt::name_any`.
    pub fn name_any(&self) -> (r: String)
        ensures
            r@ == name_any_spec(*self),
    {
        match &self.name {
            Some(n) => n.clone(),
            None => match &self.generate_name {
                Some(g) => g.clone(),
                None => String::new(),
            },
        }
    }

    /// A copy of the labels; absent labels read as the empty map.
    pub fn labels_or_empty(&self) -> (r: StringMap)
        ensures
            r@ == map_or_empty(self.labels),
    {
        match &self.labels {
            Some(m) => m.duplicate(),
            None => StringMap::new(),
        }
    }

    /// A copy of the annotations; absent annotations read as the empty map.
    pub fn annotations_or_empty(&self) -> (r: StringMap)
        ensures
            r@ == map_or_empty(self.annotations),
    {
        match &self.annotations {
            Some(m) => m.duplicate(),
            None => StringMap::new(),
        }
    }

    /// The generation, or 0 when it is absent.
    pub fn generation_or_zero(&self) -> (r: i64)
        ensures
            r == match self.generation {
                Some(g) => g,
                None => 0,
            },
    {
        match self.generation {
            Some(g) => g,
            None => 0,
        }
    }
}

/// Whether `r` is the controller owner reference to an object of the given
/// API version and kind with the given name and uid.
pub open spec fn is_controller_ref(
    r: OwnerReference,
    api_version: Seq<char>,
    kind: Seq<char>,
    name: Seq<char>,
    uid: Seq<char>,
) -> bool {
    &&& r.api_version@ == api_version
    &&& r.kind@ == kind
    &&& r.name@ == name
    &&& r.uid@ == uid
    &&& r.controller == Some(true)
    &&& r.block_owner_deletion is None
}

/// A controller owner reference to the object with this metadata
/// (`Resource::controller_owner_ref`): there is none unless both its name and
/// its uid are set.
pub fn controller_owner_ref(meta: &ObjectMeta, api_version: &str, kind: &str) -> (r: Option<
    OwnerReference,
>)
    ensures
        match (meta.name, meta.uid) {
            (Some(n), Some(u)) => r matches Some(o) && is_controller_ref(
                o,
                api_version@,
                kind@,
                n@,
                u@,
            ),
            _ => r is None,
        },
{
    match (&meta.name, &meta.uid) {
        (Some(n), Some(u)) => Some(
            OwnerReference {
                api_version: lit(api_version),
                kind: lit(kind),
                name: n.clone(),
                uid: u.clone(),
                controller: Some(true),
                block_owner_deletion: None,
            },
        ),
        _ => None,
    }
}

/// An environment variable: a literal value, or a value read from a field of
/// the pod (`valueFrom.fieldRef.fieldPath`).
#[derive(Debug)]
pub struct EnvVar {
    pub name: String,
    pub value: Option<String>,
    pub field_path: Option<String>,
}

/// A volume mounted into a container.
#[derive(Debug)]
pub struct VolumeMount {
    pub name: String,
    pub mount_path: String,
    pub read_only: Option<bool>,
}

/// One key of a Secret projected into a volume as a file.
#[derive(Debug)]
pub struct SecretProjection {
    pub secret_name: String,
    pub key: String,
    pub path: String,
    pub optional: Option<bool>,
}

/// Where the files of a volume come from.
#[derive(Debug)]
pub enum VolumeSource {
    /// A path on the node.
    HostPath { path: String, type_: Option<String> },
    /// Files projected from Secrets.
    Projected { default_mode: Option<i32>, sources: Vec<SecretProjection> },
}

/// A volume of a pod.
#[derive(Debug)]
pub struct Volume {
    pub name: String,
    pub source: VolumeSource,
}

/// A port that a container exposes.
#[derive(Debug)]
pub struct ContainerPort {
    pub name: Option<String>,
    pub container_port: i32,
    pub host_port: Option<i32>,
    pub protocol: Option<String>,
}

/// A container of a pod.
#[derive(Debug)]
pub struct Container {
    pub name: String,
    pub image: Option<String>,
    pub command: Option<Vec<String>>,
    pub args: Option<Vec<String>>,
    pub env: Option<Vec<EnvVar>>,
    pub ports: Option<Vec<ContainerPort>>,
    pub volume_mounts: Option<Vec<VolumeMount>>,
    /// `securityContext.privileged`; `None` when there is no security context.
    pub privileged: Option<bool>,
}

/// An environment variable with a literal value.
pub fn env_literal(name: &str, value: &str) -> (e: EnvVar)
    ensures
        e.name@ == name@,
        e.value matches Some(v) && v@ == value@,
        e.field_path is None,
{
    EnvVar { name: lit(name), value: Some(lit(value)), field_path: None }
}

/// An environment variable with a literal value held in a string.
pub fn env_value(name: &str, value: String) -> (e: EnvVar)
    ensures
        e.name@ == name@,
        e.value == Some(value),
        e.field_path is None,
{
    EnvVar { name: lit(name), value: Some(value), field_path: None }
}

/// An environment variable read from a field of the pod.
pub fn env_field(name: &str, field_path: &str) -> (e: EnvVar)
    ensures
        e.name@ == name@,
        e.value is None,
        e.field_path matches Some(p) && p@ == field_path@,
{
    EnvVar { name: lit(name), value: None, field_path: Some(lit(field_path)) }
}

/// A volume mount.
pub fn volume_mount(name: &str, mount_path: &str, read_only: Option<bool>) -> (m: VolumeMount)
    ensures
        m.name@ == name@,
        m.mount_path@ == mount_path@,
        m.read_only == read_only,
{
    VolumeMount { name: lit(name), mount_path: lit(mount_path), read_only }
}

/// A volume backed by a path on the node.
pub fn host_path_volume(name: &str, path: String, type_: &str) -> (v: Volume)
    ensures
        v.name@ == name@,
        v.source matches VolumeSource::HostPath { path: p, type_: Some(t) } && p == path && t@
            == type_@,
{
    Volume { name: lit(name), source: VolumeSource::HostPath { path, type_: Some(lit(type_)) } }
}

/// The view of an optional map.
pub open spec fn opt_map_view(m: Option<StringMap>) -> Option<Map<Seq<char>, Seq<char>>> {
    match m {
        Some(x) => Some(x@),
        None => None,
    }
}

/// A copy of an optional map.
pub fn copy_opt_map(m: &Option<StringMap>) -> (r: Option<StringMap>)
    ensures
        opt_map_view(r) == opt_map_view(*m),
{
    match m {
        Some(x) => Some(x.duplicate()),
        None => None,
    }
}

} // verus!
