//! Constructors of the `ndnd` configuration for a router that serves local
//! applications: UDP unicast and the Unix socket enabled, TCP and WebSocket
//! left out.
use vstd::prelude::*;

pub mod dv;
pub mod fw;

use crate::ndnd::dv::RouterConfig;
use crate::ndnd::fw::ForwarderConfig;
use crate::ndnd::NdndConfig;
use crate::ndnd_config::fw::served_forwarder;

verus! {

impl NdndConfig {
    /// The configuration of router `router` in the routing domain `network`:
    /// insecure, with the forwarder of `ForwarderConfig::new`.
    pub fn new(network: String, router: String) -> (r: NdndConfig)
        ensures
            r.dv.network == network,
            r.dv.router == router,
            r.dv.keychain@ == "insecure"@,
            r.dv.advertise_interval is None,
            r.dv.router_dead_interval is None,
            r.dv.trust_anchors is None,
            r.dv.neighbors is None,
            served_forwarder(r.fw),
    {
        NdndConfig { dv: RouterConfig::new(network, router), fw: ForwarderConfig::new() }
    }
}

} // verus!
