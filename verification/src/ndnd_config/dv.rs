//! The constructor of the DV router section.
use vstd::prelude::*;

use crate::ndnd::dv::RouterConfig;

verus! {

impl RouterConfig {
    /// Router `router` in the routing domain `network`, insecure, with no
    /// trust anchors or neighbors.
    pub fn new(network: String, router: String) -> (r: RouterConfig)
        ensures
            r.network == network,
            r.router == router,
            r.keychain@ == "insecure"@,
            r.advertise_interval is None,
            r.router_dead_interval is None,
            r.trust_anchors is None,
            r.neighbors is None,
    {
        RouterConfig {
            network,
            router,
            advertise_interval: None,
            router_dead_interval: None,
            keychain: crate::text::lit("insecure"),
            trust_anchors: None,
            neighbors: None,
        }
    }
}

} // verus!
