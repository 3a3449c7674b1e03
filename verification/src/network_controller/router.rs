//! The `Router` resource: one per router pod of a network, with the faces its
//! neighbors use to reach it.
use vstd::prelude::*;

use crate::conditions::{
    is_condition, list_view, upsert_condition_bool, upsert_condition_named, upserted, Condition,
};
use crate::network_controller::network::NETWORK_LABEL_KEY;
use crate::objects::{map_or_empty, name_any_spec, ObjectMeta, StringMap};
use crate::text::{
    join2, lemma_text_lt_irreflexive, lemma_text_lt_total, lemma_text_lt_transitive, lit, same_text,
    text_less, text_lt,
};
use crate::Error;

verus! {

/// Finalizer that the router controller puts on routers.
pub const ROUTER_FINALIZER: &'static str = "router.named-data.net/finalizer";

/// Name under which the router controller applies its changes.
pub const ROUTER_MANAGER_NAME: &'static str = "router-controller";

/// The certificate of a router.
#[derive(Debug)]
pub struct CertificateRef {
    /// The name of the certificate, e.g. "router-cert".
    pub name: String,
    /// Its namespace; the router's own when absent.
    pub namespace: Option<String>,
}

/// What a `Router` is.
#[derive(Debug)]
pub struct RouterSpec {
    /// The NDN prefix of the router, e.g. "/example/router".
    pub prefix: String,
    /// The node the router runs on.
    pub node_name: String,
    /// The router's certificate; an insecure router has none.
    pub cert: Option<CertificateRef>,
}

/// The observed state of a `Router`.
#[derive(Debug)]
pub struct RouterStatus {
    /// The init container has finished.
    pub initialized: bool,
    /// The router is online.
    pub online: bool,
    /// The face other routers of the network reach this one on.
    pub inner_face: Option<String>,
    /// The routers of the network and their inner faces, by router name.
    pub inner_neighbors: StringMap,
    /// The external neighbors and their faces, by `Neighbor` name.
    pub outer_neighbors: StringMap,
    /// Ready, Initialized, Online, FaceReady, NeighborsSynced.
    pub conditions: Option<Vec<Condition>>,
}

/// A router of a network.
#[derive(Debug)]
pub struct Router {
    pub metadata: ObjectMeta,
    pub spec: RouterSpec,
    pub status: Option<RouterStatus>,
}

impl Router {
    /// A router with the given name and spec, and nothing else.
    pub fn new(name: &str, spec: RouterSpec) -> (r: Router)
        ensures
            r.metadata.name matches Some(n) && n@ == name@,
            r.metadata.namespace is None,
            r.metadata.uid is None,
            r.metadata.labels is None,
            r.metadata.annotations is None,
            r.metadata.owner_references is None,
            r.spec == spec,
            r.status is None,
    {
        Router { metadata: ObjectMeta::named(name), spec, status: None }
    }
}

impl Default for RouterStatus {
    /// Not initialized, offline, without faces, neighbors or conditions.
    fn default() -> (r: RouterStatus)
        ensures
            !r.initialized,
            !r.online,
            r.inner_face is None,
            r.inner_neighbors@ == Map::<Seq<char>, Seq<char>>::empty(),
            r.outer_neighbors@ == Map::<Seq<char>, Seq<char>>::empty(),
            r.conditions is None,
    {
        RouterStatus {
            initialized: false,
            online: false,
            inner_face: None,
            inner_neighbors: StringMap::new(),
            outer_neighbors: StringMap::new(),
            conditions: None,
        }
    }
}

/// The readiness of a router: initialized, online, and with an inner face
/// (all false for a router without status).
pub open spec fn router_flags(s: Option<RouterStatus>) -> (bool, bool, bool) {
    match s {
        Some(st) => (st.initialized, st.online, st.inner_face is Some),
        None => (false, false, false),
    }
}

/// Texts joined with ", ".
pub open spec fn comma_join(s: Seq<Seq<char>>) -> Seq<char>
    decreases s.len(),
{
    if s.len() == 0 {
        Seq::empty()
    } else if s.len() == 1 {
        s[0]
    } else {
        comma_join(s.drop_last()) + ", "@ + s.last()
    }
}

/// The prerequisites of Ready a router lacks, in order.
pub open spec fn router_missing(initialized: bool, online: bool, face: bool) -> Seq<Seq<char>> {
    (if initialized {
        Seq::empty()
    } else {
        seq!["Initialized"@]
    }) + (if online {
        Seq::empty()
    } else {
        seq!["Online"@]
    }) + (if face {
        Seq::empty()
    } else {
        seq!["FaceReady"@]
    })
}

/// The five conditions a router shows, in order: Initialized, Online,
/// FaceReady, NeighborsSynced (not yet), and Ready, which needs the first
/// three and names what is missing.
pub open spec fn router_conditions(
    flags: (bool, bool, bool),
    gen: i64,
    c: Seq<Condition>,
) -> bool {
    let (i, o, f) = flags;
    let ready = i && o && f;
    &&& c.len() == 5
    &&& is_condition(
        c[0],
        "Initialized"@,
        i,
        if i {
            "InitComplete"@
        } else {
            "InitPending"@
        },
        Seq::empty(),
        gen,
        c[0].last_transition_time,
    )
    &&& is_condition(
        c[1],
        "Online"@,
        o,
        if o {
            "Online"@
        } else {
            "Offline"@
        },
        Seq::empty(),
        gen,
        c[1].last_transition_time,
    )
    &&& is_condition(
        c[2],
        "FaceReady"@,
        f,
        if f {
            "FaceAvailable"@
        } else {
            "FaceMissing"@
        },
        Seq::empty(),
        gen,
        c[2].last_transition_time,
    )
    &&& is_condition(
        c[3],
        "NeighborsSynced"@,
        false,
        "NotStarted"@,
        "Neighbor propagation not performed"@,
        gen,
        c[3].last_transition_time,
    )
    &&& is_condition(
        c[4],
        "Ready"@,
        ready,
        if ready {
            "Ready"@
        } else {
            "PrerequisitesNotReady"@
        },
        if ready {
            Seq::empty()
        } else {
            "Missing prerequisites: "@ + comma_join(router_missing(i, o, f))
        },
        gen,
        c[4].last_transition_time,
    )
}

/// A list of conditions upserted one after the other into `start`.
pub open spec fn upserted_all(start: Option<Seq<Condition>>, c: Seq<Condition>) -> Option<
    Seq<Condition>,
>
    decreases c.len(),
{
    if c.len() == 0 {
        start
    } else {
        upserted(upserted_all(start, c.drop_last()), c.last())
    }
}

/// The generation a router's conditions record: the object's, or 0.
pub open spec fn router_generation(r: Router) -> i64 {
    match r.metadata.generation {
        Some(g) => g,
        None => 0,
    }
}

/// What the router reconciler does next.
#[derive(Debug)]
pub enum RouterStep {
    /// The router is offline: only its conditions are written.
    Offline,
    /// The router is online: its inner face is propagated to the other
    /// routers of `network`.
    Propagate { network: String, face: Option<String> },
}

proof fn lemma_upserted_all_step(start: Option<Seq<Condition>>, cs: Seq<Condition>, c: Condition)
    ensures
        upserted_all(start, cs.push(c)) == upserted(upserted_all(start, cs), c),
{
    assert(cs.push(c).drop_last() =~= cs);
}

#[verifier::rlimit(80)]
proof fn lemma_upserted_all_five(
    c1: Condition,
    c2: Condition,
    c3: Condition,
    c4: Condition,
    c5: Condition,
)
    ensures
        upserted_all(None, seq![c1, c2, c3, c4, c5]) == upserted(
            upserted(upserted(upserted(upserted(None, c1), c2), c3), c4),
            c5,
        ),
{
    let e = Seq::<Condition>::empty();
    assert(upserted_all(None, e) == None::<Seq<Condition>>);
    lemma_upserted_all_step(None, e, c1);
    assert(e.push(c1) =~= seq![c1]);
    lemma_upserted_all_step(None, seq![c1], c2);
    assert(seq![c1].push(c2) =~= seq![c1, c2]);
    lemma_upserted_all_step(None, seq![c1, c2], c3);
    assert(seq![c1, c2].push(c3) =~= seq![c1, c2, c3]);
    lemma_upserted_all_step(None, seq![c1, c2, c3], c4);
    assert(seq![c1, c2, c3].push(c4) =~= seq![c1, c2, c3, c4]);
    lemma_upserted_all_step(None, seq![c1, c2, c3, c4], c5);
    assert(seq![c1, c2, c3, c4].push(c5) =~= seq![c1, c2, c3, c4, c5]);
}

fn missing_text(initialized: bool, online: bool, face: bool) -> (r: String)
    ensures
        r@ == "Missing prerequisites: "@ + comma_join(router_missing(initialized, online, face)),
{
    let mut names: Vec<&str> = Vec::new();
    if !initialized {
        names.push("Initialized");
    }
    if !online {
        names.push("Online");
    }
    if !face {
        names.push("FaceReady");
    }
    let ghost list = names@.map_values(|x: &str| x@);
    assert(list =~= router_missing(initialized, online, face));
    let mut out = lit("Missing prerequisites: ");
    let ghost start = out@;
    let mut i: usize = 0;
    while i < names.len()
        invariant
            i <= names@.len(),
            list == names@.map_values(|x: &str| x@),
            out@ == start + comma_join(list.subrange(0, i as int)),
        decreases names@.len() - i,
    {
        if i > 0 {
            out = join2(out.as_str(), ", ");
        }
        out = join2(out.as_str(), names[i]);
        proof {
            let t = list.subrange(0, i + 1);
            assert(t.drop_last() =~= list.subrange(0, i as int));
            assert(t.last() == names@[i as int]@);
            if i == 0 {
                assert(t.len() == 1);
                assert(list.subrange(0, 0) =~= Seq::<Seq<char>>::empty());
            }
            assert(out@ =~= start + comma_join(t));
        }
        i = i + 1;
    }
    assert(list.subrange(0, list.len() as int) =~= list);
    out
}

impl Router {
    /// The conditions of a router computed afresh from its status (earlier
    /// conditions are not kept): Initialized, Online, FaceReady,
    /// NeighborsSynced not yet, and Ready.
    pub fn base_conditions(&self) -> (r: Option<Vec<Condition>>)
        ensures
            exists|c: Seq<Condition>|
                router_conditions(router_flags(self.status), router_generation(*self), c)
                    && list_view(r) == upserted_all(None, c),
    {
        let gen = self.metadata.generation_or_zero();
        let (i, o, f) = match &self.status {
            Some(st) => (st.initialized, st.online, st.inner_face.is_some()),
            None => (false, false, false),
        };
        let ready = i && o && f;
        let mut conds: Option<Vec<Condition>> = None;
        let c1 = upsert_condition_named(
            &mut conds,
            "Initialized",
            i,
            if i {
                "InitComplete"
            } else {
                "InitPending"
            },
            None,
            gen,
        );
        let c2 = upsert_condition_named(
            &mut conds,
            "Online",
            o,
            if o {
                "Online"
            } else {
                "Offline"
            },
            None,
            gen,
        );
        let c3 = upsert_condition_named(
            &mut conds,
            "FaceReady",
            f,
            if f {
                "FaceAvailable"
            } else {
                "FaceMissing"
            },
            None,
            gen,
        );
        let c4 = upsert_condition_named(
            &mut conds,
            "NeighborsSynced",
            false,
            "NotStarted",
            Some("Neighbor propagation not performed"),
            gen,
        );
        let msg = if ready {
            None
        } else {
            Some(missing_text(i, o, f))
        };
        let msg_ref: Option<&str> = match &msg {
            Some(m) => Some(m.as_str()),
            None => None,
        };
        let c5 = upsert_condition_named(
            &mut conds,
            "Ready",
            ready,
            if ready {
                "Ready"
            } else {
                "PrerequisitesNotReady"
            },
            msg_ref,
            gen,
        );
        proof {
            let cs = seq![c1@, c2@, c3@, c4@, c5@];
            lemma_upserted_all_five(c1@, c2@, c3@, c4@, c5@);
            assert(router_conditions(router_flags(self.status), router_generation(*self), cs));
        }
        conds
    }

    /// Marks the propagation of the router's inner face done
    /// (NeighborsSynced true).
    pub fn mark_synced(&self, conds: &mut Option<Vec<Condition>>)
        ensures
            exists|c: Condition|
                is_condition(
                    c,
                    "NeighborsSynced"@,
                    true,
                    "SyncOK"@,
                    "Last neighbor propagation completed"@,
                    router_generation(*self),
                    c.last_transition_time,
                ) && list_view(*final(conds)) == upserted(list_view(*old(conds)), c),
    {
        upsert_condition_bool(
            conds,
            "NeighborsSynced",
            true,
            "SyncOK",
            Some("Last neighbor propagation completed"),
            self.metadata.generation_or_zero(),
        );
    }

    /// The network a router belongs to, by its network label.
    pub fn network_name(&self) -> (r: Result<String, Error>)
        ensures
            map_or_empty(self.metadata.labels).contains_key(NETWORK_LABEL_KEY@) ==> (r matches Ok(
                n,
            ) && n@ == map_or_empty(self.metadata.labels)[NETWORK_LABEL_KEY@]),
            !map_or_empty(self.metadata.labels).contains_key(NETWORK_LABEL_KEY@) ==> (r matches Err(
                Error::OtherError(m),
            ) && m@ == "Network label not found"@),
    {
        let labels = self.metadata.labels_or_empty();
        match labels.get(NETWORK_LABEL_KEY) {
            Some(n) => Ok(n),
            None => Err(Error::OtherError(lit("Network label not found"))),
        }
    }

    /// The next step of the reconciler: an offline router only writes its
    /// conditions; an online one propagates its inner face to the other
    /// routers of its network, which it must be labelled with.
    pub fn reconcile_step(&self) -> (r: Result<RouterStep, Error>)
        ensures
            !router_flags(self.status).1 ==> r matches Ok(RouterStep::Offline),
            router_flags(self.status).1 && !map_or_empty(self.metadata.labels).contains_key(
                NETWORK_LABEL_KEY@,
            ) ==> (r matches Err(Error::OtherError(m)) && m@ == "Network label not found"@),
            router_flags(self.status).1 && map_or_empty(self.metadata.labels).contains_key(
                NETWORK_LABEL_KEY@,
            ) ==> (r matches Ok(RouterStep::Propagate { network, face }) && network@ == map_or_empty(
                self.metadata.labels,
            )[NETWORK_LABEL_KEY@] && face == self.status->0.inner_face),
    {
        let online = match &self.status {
            Some(st) => st.online,
            None => false,
        };
        if !online {
            return Ok(RouterStep::Offline);
        }
        let network = self.network_name()?;
        let face = match &self.status {
            Some(st) => crate::objects::copy_opt(&st.inner_face),
            None => None,
        };
        Ok(RouterStep::Propagate { network, face })
    }

    /// The entry this router adds to the inner neighbors of `other`: its
    /// name and inner face, unless `other` is itself or it has no face.
    pub fn inner_neighbor_entry(&self, face: &Option<String>, other: &Router) -> (r: Option<
        (String, String),
    >)
        ensures
            name_any_spec(other.metadata) == name_any_spec(self.metadata) ==> r is None,
            name_any_spec(other.metadata) != name_any_spec(self.metadata) ==> match face {
                Some(f) => r matches Some((k, v)) && k@ == name_any_spec(self.metadata) && v == f,
                None => r is None,
            },
    {
        let me = self.metadata.name_any();
        let them = other.metadata.name_any();
        if same_text(me.as_str(), them.as_str()) {
            return None;
        }
        match face {
            Some(f) => Some((me, f.clone())),
            None => None,
        }
    }

    /// The entry this router removes from the inner neighbors of `other` when
    /// it goes away: its name, when `other` is another router that holds it.
    pub fn inner_neighbor_removal(&self, other: &Router) -> (r: Option<String>)
        ensures
            r is Some <==> (name_any_spec(other.metadata) != name_any_spec(self.metadata) && (
            other.status matches Some(st) && st.inner_neighbors@.contains_key(
                name_any_spec(self.metadata),
            ))),
            r matches Some(k) ==> k@ == name_any_spec(self.metadata),
    {
        let me = self.metadata.name_any();
        let them = other.metadata.name_any();
        if same_text(me.as_str(), them.as_str()) {
            return None;
        }
        match &other.status {
            Some(st) => if st.inner_neighbors.contains_key(me.as_str()) {
                Some(me)
            } else {
                None
            },
            None => None,
        }
    }
}

impl RouterStatus {
    /// Records the inner face of a neighbor router (what the JSON patch
    /// `add /status/innerNeighbors/<name>` does).
    pub fn add_inner_neighbor(&mut self, name: String, face: String)
        ensures
            final(self).inner_neighbors@ == old(self).inner_neighbors@.insert(name@, face@),
            final(self).outer_neighbors@ == old(self).outer_neighbors@,
            final(self).inner_face == old(self).inner_face,
            final(self).online == old(self).online,
            final(self).initialized == old(self).initialized,
            final(self).conditions == old(self).conditions,
    {
        self.inner_neighbors.insert(name, face);
    }

    /// Forgets a neighbor router (`remove /status/innerNeighbors/<name>`).
    pub fn remove_inner_neighbor(&mut self, name: &str)
        ensures
            final(self).inner_neighbors@ == old(self).inner_neighbors@.remove(name@),
            final(self).outer_neighbors@ == old(self).outer_neighbors@,
            final(self).inner_face == old(self).inner_face,
            final(self).online == old(self).online,
            final(self).initialized == old(self).initialized,
            final(self).conditions == old(self).conditions,
    {
        self.inner_neighbors.remove(name);
    }

    /// Records the face of an external neighbor
    /// (`add /status/outerNeighbors/<name>`).
    pub fn add_outer_neighbor(&mut self, name: String, uri: String)
        ensures
            final(self).outer_neighbors@ == old(self).outer_neighbors@.insert(name@, uri@),
            final(self).inner_neighbors@ == old(self).inner_neighbors@,
            final(self).inner_face == old(self).inner_face,
            final(self).online == old(self).online,
            final(self).initialized == old(self).initialized,
            final(self).conditions == old(self).conditions,
    {
        self.outer_neighbors.insert(name, uri);
    }

    /// Forgets an external neighbor (`remove /status/outerNeighbors/<name>`).
    pub fn remove_outer_neighbor(&mut self, name: &str)
        ensures
            final(self).outer_neighbors@ == old(self).outer_neighbors@.remove(name@),
            final(self).inner_neighbors@ == old(self).inner_neighbors@,
            final(self).inner_face == old(self).inner_face,
            final(self).online == old(self).online,
            final(self).initialized == old(self).initialized,
            final(self).conditions == old(self).conditions,
    {
        self.outer_neighbors.remove(name);
    }
}

/// Whether the cluster holds the router.
pub fn is_router_created(obj: Option<&Router>) -> (r: bool)
    ensures
        r == obj is Some,
{
    obj.is_some()
}

/// Whether the cluster's copy of the router is online (a router without
/// status is not).
pub fn is_router_online(obj: Option<&Router>) -> (r: bool)
    ensures
        r == (obj matches Some(rt) && rt.status matches Some(s) && s.online),
{
    match obj {
        Some(rt) => match &rt.status {
            Some(s) => s.online,
            None => false,
        },
        None => false,
    }
}

/// Whether the cluster's copy of the router has finished its init container
/// (a router without status has not).
pub fn is_router_initialized(obj: Option<&Router>) -> (r: bool)
    ensures
        r == (obj matches Some(rt) && rt.status matches Some(s) && s.initialized),
{
    match obj {
        Some(rt) => match &rt.status {
            Some(s) => s.initialized,
            None => false,
        },
        None => false,
    }
}

/// A neighbor's entry added by propagation and removed by cleanup leaves the
/// other router's neighbors as they were, when it did not hold that entry
/// before.
pub proof fn law_neighbor_add_then_remove(
    neighbors: Map<Seq<char>, Seq<char>>,
    name: Seq<char>,
    face: Seq<char>,
)
    requires
        !neighbors.contains_key(name),
    ensures
        neighbors.insert(name, face).remove(name) == neighbors,
{
    assert(neighbors.insert(name, face).remove(name) =~= neighbors);
}

/// The faces a router can be reached on, by transport and family.
#[derive(Debug)]
pub struct RouterFaces {
    pub udp4: Option<String>,
    pub tcp4: Option<String>,
    pub udp6: Option<String>,
    pub tcp6: Option<String>,
}

impl Default for RouterFaces {
    /// No face.
    fn default() -> (r: RouterFaces)
        ensures
            r.udp4 is None && r.tcp4 is None && r.udp6 is None && r.tcp6 is None,
    {
        RouterFaces { udp4: None, tcp4: None, udp6: None, tcp6: None }
    }
}

/// The faces that are present, as a set of texts.
pub open spec fn face_set(f: RouterFaces) -> Set<Seq<char>> {
    with_face(with_face(with_face(with_face(Set::empty(), f.udp4), f.tcp4), f.udp6), f.tcp6)
}

/// A set with a face added, when there is one.
pub open spec fn with_face(s: Set<Seq<char>>, o: Option<String>) -> Set<Seq<char>> {
    match o {
        Some(x) => s.insert(x@),
        None => s,
    }
}

/// Texts in strictly increasing order, as a `BTreeSet<String>` yields them.
pub open spec fn sorted_texts(s: Seq<Seq<char>>) -> bool {
    forall|i: int, j: int| 0 <= i < j < s.len() ==> text_lt(#[trigger] s[i], #[trigger] s[j])
}

/// The views of a list of texts.
pub open spec fn text_views(v: Seq<String>) -> Seq<Seq<char>> {
    v.map_values(|s: String| s@)
}

/// Adds a face to faces kept in order, unless it is there already.
fn insert_sorted(v: &mut Vec<String>, x: &Option<String>)
    requires
        sorted_texts(text_views(old(v)@)),
    ensures
        sorted_texts(text_views(final(v)@)),
        text_views(final(v)@).to_set() == match x {
            Some(t) => text_views(old(v)@).to_set().insert(t@),
            None => text_views(old(v)@).to_set(),
        },
{
    match x {
        None => {},
        Some(t) => {
            let ghost before = text_views(v@);
            let tc = crate::text::chars_of(t.as_str());
            let mut i: usize = 0;
            while i < v.len()
                invariant_except_break
                    i <= v@.len(),
                    before == text_views(v@),
                    tc@ == t@,
                    forall|j: int| 0 <= j < i ==> text_lt(#[trigger] before[j], t@),
                ensures
                    i <= v@.len(),
                    before == text_views(v@),
                    forall|j: int| 0 <= j < i ==> text_lt(#[trigger] before[j], t@),
                    i < v@.len() ==> !text_lt(before[i as int], t@),
                decreases v@.len() - i,
            {
                let vc = crate::text::chars_of(v[i].as_str());
                assert(before[i as int] == vc@);
                if !text_less(&vc, &tc) {
                    break;
                }
                i = i + 1;
            }
            let present = if i < v.len() {
                let vc = crate::text::chars_of(v[i].as_str());
                assert(before[i as int] == vc@);
                same_text(v[i].as_str(), t.as_str())
            } else {
                false
            };
            if present {
                proof {
                    assert(before[i as int] == t@);
                    assert(before.contains(t@));
                    assert(before.to_set().insert(t@) =~= before.to_set());
                }
            } else {
                v.insert(i, t.clone());
                proof {
                    let after = text_views(v@);
                    assert(after =~= before.insert(i as int, t@));
                    assert forall|a: int, b: int| 0 <= a < b < after.len() implies text_lt(
                        #[trigger] after[a],
                        #[trigger] after[b],
                    ) by {
                        if i < before.len() {
                            lemma_text_lt_total(before[i as int], t@);
                        }
                        if b < i {
                        } else if b == i {
                        } else if a < i {
                            if b - 1 > i as int {
                                lemma_text_lt_transitive(t@, before[i as int], before[b - 1]);
                            }
                            lemma_text_lt_transitive(before[a], t@, before[b - 1]);
                        } else if a == i {
                            if b - 1 > i as int {
                                lemma_text_lt_transitive(t@, before[i as int], before[b - 1]);
                            }
                        } else {
                        }
                    }
                    assert forall|y: Seq<char>| after.to_set().contains(y) implies before.to_set().insert(
                        t@,
                    ).contains(y) by {
                        let k = choose|k: int| 0 <= k < after.len() && after[k] == y;
                        if k < i {
                            assert(before[k] == y);
                        } else if k > i {
                            assert(before[k - 1] == y);
                        }
                    }
                    assert forall|y: Seq<char>| before.to_set().insert(t@).contains(y) implies after.to_set().contains(
                        y,
                    ) by {
                        if y == t@ {
                            assert(after[i as int] == y);
                        } else {
                            let k = choose|k: int| 0 <= k < before.len() && before[k] == y;
                            if k < i {
                                assert(after[k] == y);
                            } else {
                                assert(after[k + 1] == y);
                            }
                        }
                    }
                    assert(after.to_set() =~= before.to_set().insert(t@));
                }
            }
        },
    }
}

/// Texts in strictly increasing order occur once each.
proof fn lemma_sorted_distinct(s: Seq<Seq<char>>)
    requires
        sorted_texts(s),
    ensures
        s.no_duplicates(),
{
    assert forall|i: int, j: int| 0 <= i < s.len() && 0 <= j < s.len() && i != j implies s[i]
        != s[j] by {
        if i < j {
            assert(text_lt(s[i], s[j]));
            lemma_text_lt_irreflexive(s[i]);
        } else {
            assert(text_lt(s[j], s[i]));
            lemma_text_lt_irreflexive(s[j]);
        }
    }
}

impl RouterFaces {
    /// The faces that are present, each once, in `String` order.
    pub fn to_btree_set(&self) -> (r: Vec<String>)
        ensures
            sorted_texts(text_views(r@)),
            text_views(r@).no_duplicates(),
            text_views(r@).to_set() == face_set(*self),
    {
        let mut faces: Vec<String> = Vec::new();
        assert(text_views(faces@) =~= Seq::<Seq<char>>::empty());
        assert(Seq::<Seq<char>>::empty().to_set() =~= Set::<Seq<char>>::empty());
        insert_sorted(&mut faces, &self.udp4);
        insert_sorted(&mut faces, &self.tcp4);
        insert_sorted(&mut faces, &self.udp6);
        insert_sorted(&mut faces, &self.tcp6);
        proof {
            lemma_sorted_distinct(text_views(faces@));
        }
        faces
    }
}

} // verus!
