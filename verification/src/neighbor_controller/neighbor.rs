//! Which routers a `Neighbor` applies to, and the entry it adds to their
//! outer neighbors.
use vstd::prelude::*;

use crate::network_controller::network::NETWORK_LABEL_KEY;
use crate::network_controller::router::Router;
use crate::objects::{map_or_empty, name_any_spec, ObjectMeta};
use crate::text::same_text;

verus! {

/// Finalizer that the neighbor controller puts on neighbors.
pub const NEIGHBOR_FINALIZER: &'static str = "neighbor.named-data.net/finalizer";

/// What a `Neighbor` is.
#[derive(Debug)]
pub struct NeighborSpec {
    /// The local `Network` whose routers link to the neighbor.
    pub network: String,
    /// The public face of the neighbor network, e.g. "tcp://host:port".
    pub uri: String,
}

/// A public face of an external network.
#[derive(Debug)]
pub struct Neighbor {
    pub metadata: ObjectMeta,
    pub spec: NeighborSpec,
}

/// Whether a router belongs to the network a neighbor applies to.
pub open spec fn neighbor_applies(n: Neighbor, r: Router) -> bool {
    map_or_empty(r.metadata.labels).contains_key(NETWORK_LABEL_KEY@) && map_or_empty(
        r.metadata.labels,
    )[NETWORK_LABEL_KEY@] == n.spec.network@
}

impl Neighbor {
    /// A neighbor with the given name and spec, and nothing else.
    pub fn new(name: &str, spec: NeighborSpec) -> (r: Neighbor)
        ensures
            r.metadata.name matches Some(n) && n@ == name@,
            r.metadata.namespace is None,
            r.metadata.labels is None,
            r.spec == spec,
    {
        Neighbor { metadata: ObjectMeta::named(name), spec }
    }

    /// Whether a router is one of those the neighbor applies to: the routers
    /// labelled with its network.
    pub fn applies_to(&self, router: &Router) -> (r: bool)
        ensures
            r == neighbor_applies(*self, *router),
    {
        let labels = router.metadata.labels_or_empty();
        match labels.get(NETWORK_LABEL_KEY) {
            Some(n) => same_text(n.as_str(), self.spec.network.as_str()),
            None => false,
        }
    }

    /// The entry the neighbor adds to the outer neighbors of each router it
    /// applies to: its name and its face.
    pub fn outer_entry(&self) -> (r: (String, String))
        ensures
            r.0@ == name_any_spec(self.metadata),
            r.1 == self.spec.uri,
    {
        (self.metadata.name_any(), self.spec.uri.clone())
    }
}

} // verus!
