//! Constructors of the forwarder section for a router that serves local
//! applications: unlike the defaults, UDP unicast, TCP, the Unix socket and
//! WebSocket are enabled where present, and only UDP and the Unix socket are
//! present in the faces.
use vstd::prelude::*;

use crate::ndnd::fw::{
    default_content_store, default_core, default_fib, default_fw, default_tables, ContentStoreConfig,
    CoreConfig, DeadNonceListConfig, FacesConfig, FibConfig, ForwarderConfig, FwConfig,
    HashtableConfig, MgmtConfig, NetworkRegionConfig, RibConfig, TablesConfig, TcpConfig,
    UdpConfig, UnixConfig, WebSocketConfig,
};
use crate::text::lit;

verus! {

/// UDP unicast enabled on port 6363.
pub open spec fn served_udp(u: UdpConfig) -> bool {
    &&& u.enabled_unicast
    &&& !u.enabled_multicast
    &&& u.port_unicast == Some(6363u16)
    &&& u.port_multicast is None
    &&& u.multicast_address_ipv4 is None
    &&& u.multicast_address_ipv6 is None
    &&& u.lifetime == Some(600u64)
    &&& u.default_mtu == Some(1420u16)
}

/// The Unix socket enabled at NFD's path.
pub open spec fn served_unix(u: UnixConfig) -> bool {
    u.enabled && u.socket_path@ == "/run/nfd/nfd.sock"@
}

/// Faces with UDP unicast and the Unix socket, and no TCP or WebSocket.
pub open spec fn served_faces(f: FacesConfig) -> bool {
    &&& f.queue_size == Some(1024i32)
    &&& f.congestion_marking == Some(true)
    &&& f.lock_threads_to_cores == Some(false)
    &&& f.udp matches Some(u) && served_udp(u)
    &&& f.tcp is None
    &&& f.unix matches Some(u) && served_unix(u)
    &&& f.websocket is None
}

/// The forwarder of `ForwarderConfig::new`.
pub open spec fn served_forwarder(f: ForwarderConfig) -> bool {
    &&& f.core matches Some(c) && default_core(c)
    &&& served_faces(f.faces)
    &&& default_fw(f.fw)
    &&& f.mgmt matches Some(m) && !m.allow_localhop
    &&& f.tables is None
}

impl ForwarderConfig {
    /// Logging, the faces of `FacesConfig::new`, 8 threads, management, and
    /// no tables.
    pub fn new() -> (r: ForwarderConfig)
        ensures
            served_forwarder(r),
    {
        ForwarderConfig {
            core: Some(CoreConfig::new()),
            faces: FacesConfig::new(),
            fw: FwConfig::new(),
            mgmt: Some(MgmtConfig::new()),
            tables: None,
        }
    }
}

impl CoreConfig {
    /// Level INFO, to standard output.
    pub fn new() -> (r: CoreConfig)
        ensures
            default_core(r),
    {
        CoreConfig { log_level: lit("INFO"), log_file: None }
    }
}

impl FacesConfig {
    /// UDP unicast and the Unix socket, with no TCP or WebSocket.
    pub fn new() -> (r: FacesConfig)
        ensures
            served_faces(r),
    {
        FacesConfig {
            queue_size: Some(1024),
            congestion_marking: Some(true),
            lock_threads_to_cores: Some(false),
            udp: Some(UdpConfig::new()),
            tcp: None,
            unix: Some(UnixConfig::new()),
            websocket: None,
        }
    }
}

impl UdpConfig {
    /// UDP unicast enabled on port 6363.
    pub fn new() -> (r: UdpConfig)
        ensures
            served_udp(r),
    {
        UdpConfig {
            enabled_unicast: true,
            enabled_multicast: false,
            port_unicast: Some(6363),
            port_multicast: None,
            multicast_address_ipv4: None,
            multicast_address_ipv6: None,
            lifetime: Some(600),
            default_mtu: Some(1420),
        }
    }
}

impl TcpConfig {
    /// TCP enabled on port 6363.
    pub fn new() -> (r: TcpConfig)
        ensures
            r.enabled,
            r.port_unicast == 6363,
            r.lifetime == Some(600u64),
            r.reconnect_interval == Some(10u64),
    {
        TcpConfig { enabled: true, port_unicast: 6363, lifetime: Some(600), reconnect_interval: Some(10) }
    }
}

impl UnixConfig {
    /// The Unix socket enabled at NFD's path.
    pub fn new() -> (r: UnixConfig)
        ensures
            served_unix(r),
    {
        UnixConfig { enabled: true, socket_path: lit("/run/nfd/nfd.sock") }
    }
}

impl WebSocketConfig {
    /// WebSocket enabled on port 9696, without TLS.
    pub fn new() -> (r: WebSocketConfig)
        ensures
            r.enabled,
            r.bind@ == ""@,
            r.port == 9696,
            !r.tls_enabled,
            r.tls_cert is None,
            r.tls_key is None,
    {
        WebSocketConfig {
            enabled: true,
            bind: lit(""),
            port: 9696,
            tls_enabled: false,
            tls_cert: None,
            tls_key: None,
        }
    }
}

impl FwConfig {
    /// 8 threads, queues of 1024.
    pub fn new() -> (r: FwConfig)
        ensures
            default_fw(r),
    {
        FwConfig { threads: Some(8), queue_size: Some(1024), lock_threads_to_cores: false }
    }
}

impl MgmtConfig {
    /// Local-hop commands refused.
    pub fn new() -> (r: MgmtConfig)
        ensures
            !r.allow_localhop,
    {
        MgmtConfig { allow_localhop: false }
    }
}

impl TablesConfig {
    /// The default tables.
    pub fn new() -> (r: TablesConfig)
        ensures
            default_tables(r),
    {
        TablesConfig {
            content_store: ContentStoreConfig::new(),
            dead_nonce_list: Some(DeadNonceListConfig::new()),
            network_region: Some(NetworkRegionConfig::new()),
            rib: RibConfig::new(),
            fib: FibConfig::new(),
        }
    }
}

impl ContentStoreConfig {
    /// 1024 entries, LRU, admitting and serving.
    pub fn new() -> (r: ContentStoreConfig)
        ensures
            default_content_store(r),
    {
        ContentStoreConfig { capacity: 1024, admits: true, serve: true, replacement_policy: lit("lru") }
    }
}

impl DeadNonceListConfig {
    /// A lifetime of 6000 ms.
    pub fn new() -> (r: DeadNonceListConfig)
        ensures
            r.lifetime == 6000,
    {
        DeadNonceListConfig { lifetime: 6000 }
    }
}

impl NetworkRegionConfig {
    /// No regions.
    pub fn new() -> (r: NetworkRegionConfig)
        ensures
            r.regions@.len() == 0,
    {
        NetworkRegionConfig { regions: Vec::new() }
    }
}

impl RibConfig {
    /// Readvertising to NLSR.
    pub fn new() -> (r: RibConfig)
        ensures
            r.readvertise_nlsr,
    {
        RibConfig { readvertise_nlsr: true }
    }
}

impl FibConfig {
    /// A name tree.
    pub fn new() -> (r: FibConfig)
        ensures
            default_fib(r),
    {
        FibConfig { algorithm: lit("nametree"), hashtable: HashtableConfig::new() }
    }
}

impl HashtableConfig {
    /// Parameter 5.
    pub fn new() -> (r: HashtableConfig)
        ensures
            r.m == 5,
    {
        HashtableConfig { m: 5 }
    }
}

} // verus!
