//! The distance-vector router (`dv`) section of the `ndnd` configuration.
use vstd::prelude::*;

verus! {

/// The DV router of `ndnd`: the routing domain it joins, its own name, how
/// it signs and validates, and the neighbors it links to.
#[derive(Debug)]
pub struct RouterConfig {
    /// The name of the routing domain, e.g. "/root-network".
    pub network: String,
    /// The name of this router within the domain.
    pub router: String,
    pub advertise_interval: Option<u64>,
    pub router_dead_interval: Option<u64>,
    /// "insecure", or "dir://<path>" for a key chain on disk.
    pub keychain: String,
    /// The names of the certificates the router trusts.
    pub trust_anchors: Option<Vec<String>>,
    pub neighbors: Option<Vec<Neighbor>>,
}

/// A neighbor the router links to.
#[derive(Debug)]
pub struct Neighbor {
    pub uri: String,
    pub mtu: Option<u64>,
}

impl Default for RouterConfig {
    /// Every text empty and every optional setting absent.
    fn default() -> (r: RouterConfig)
        ensures
            r.network@ == Seq::<char>::empty(),
            r.router@ == Seq::<char>::empty(),
            r.advertise_interval is None,
            r.router_dead_interval is None,
            r.keychain@ == Seq::<char>::empty(),
            r.trust_anchors is None,
            r.neighbors is None,
    {
        RouterConfig {
            network: String::new(),
            router: String::new(),
            advertise_interval: None,
            router_dead_interval: None,
            keychain: String::new(),
            trust_anchors: None,
            neighbors: None,
        }
    }
}

} // verus!
