//! The forwarder (`fw`) section of the `ndnd` configuration file. `Default`
//! gives the values `ndnd` itself starts from, every face disabled.
use vstd::prelude::*;

verus! {

/// The forwarder section of the `ndnd` configuration.
#[derive(Debug)]
pub struct ForwarderConfig {
    pub core: Option<CoreConfig>,
    pub faces: FacesConfig,
    pub fw: FwConfig,
    pub mgmt: Option<MgmtConfig>,
    pub tables: Option<TablesConfig>,
}

/// Logging of the forwarder.
#[derive(Debug)]
pub struct CoreConfig {
    pub log_level: String,
    pub log_file: Option<String>,
}

/// The faces the forwarder opens.
#[derive(Debug)]
pub struct FacesConfig {
    pub queue_size: Option<i32>,
    pub congestion_marking: Option<bool>,
    pub lock_threads_to_cores: Option<bool>,
    pub udp: Option<UdpConfig>,
    pub tcp: Option<TcpConfig>,
    pub unix: Option<UnixConfig>,
    pub websocket: Option<WebSocketConfig>,
}

/// UDP faces.
#[derive(Debug)]
pub struct UdpConfig {
    pub enabled_unicast: bool,
    pub enabled_multicast: bool,
    pub port_unicast: Option<u16>,
    pub port_multicast: Option<u16>,
    pub multicast_address_ipv4: Option<String>,
    pub multicast_address_ipv6: Option<String>,
    pub lifetime: Option<u64>,
    pub default_mtu: Option<u16>,
}

/// TCP faces.
#[derive(Debug)]
pub struct TcpConfig {
    pub enabled: bool,
    pub port_unicast: u16,
    pub lifetime: Option<u64>,
    pub reconnect_interval: Option<u64>,
}

/// The Unix socket face local applications connect to.
#[derive(Debug)]
pub struct UnixConfig {
    pub enabled: bool,
    pub socket_path: String,
}

/// WebSocket faces.
#[derive(Debug)]
pub struct WebSocketConfig {
    pub enabled: bool,
    pub bind: String,
    pub port: u16,
    pub tls_enabled: bool,
    pub tls_cert: Option<String>,
    pub tls_key: Option<String>,
}

/// The forwarding threads.
#[derive(Debug)]
pub struct FwConfig {
    pub threads: Option<i32>,
    pub queue_size: Option<i32>,
    pub lock_threads_to_cores: bool,
}

/// The management module.
#[derive(Debug)]
pub struct MgmtConfig {
    pub allow_localhop: bool,
}

/// The forwarder's tables.
#[derive(Debug)]
pub struct TablesConfig {
    pub content_store: ContentStoreConfig,
    pub dead_nonce_list: Option<DeadNonceListConfig>,
    pub network_region: Option<NetworkRegionConfig>,
    pub rib: RibConfig,
    pub fib: FibConfig,
}

/// The content store.
#[derive(Debug)]
pub struct ContentStoreConfig {
    pub capacity: u16,
    /// Whether Data is admitted to the store (`admit` in the file).
    pub admits: bool,
    pub serve: bool,
    pub replacement_policy: String,
}

/// The dead nonce list.
#[derive(Debug)]
pub struct DeadNonceListConfig {
    pub lifetime: i32,
}

/// The network regions the forwarder belongs to.
#[derive(Debug)]
pub struct NetworkRegionConfig {
    pub regions: Vec<String>,
}

/// The routing information base.
#[derive(Debug)]
pub struct RibConfig {
    pub readvertise_nlsr: bool,
}

/// The forwarding information base.
#[derive(Debug)]
pub struct FibConfig {
    pub algorithm: String,
    pub hashtable: HashtableConfig,
}

/// The hash table of the FIB.
#[derive(Debug)]
pub struct HashtableConfig {
    pub m: u16,
}

/// The default logging: level INFO, to standard output.
pub open spec fn default_core(c: CoreConfig) -> bool {
    c.log_level@ == "INFO"@ && c.log_file is None
}

/// The default UDP faces: disabled, on port 6363, lifetime 600 s, MTU 1420.
pub open spec fn default_udp(u: UdpConfig) -> bool {
    &&& !u.enabled_unicast
    &&& !u.enabled_multicast
    &&& u.port_unicast == Some(6363u16)
    &&& u.port_multicast is None
    &&& u.multicast_address_ipv4 is None
    &&& u.multicast_address_ipv6 is None
    &&& u.lifetime == Some(600u64)
    &&& u.default_mtu == Some(1420u16)
}

/// The default TCP faces: disabled, on port 6363.
pub open spec fn default_tcp(t: TcpConfig) -> bool {
    &&& !t.enabled
    &&& t.port_unicast == 6363
    &&& t.lifetime == Some(600u64)
    &&& t.reconnect_interval == Some(10u64)
}

/// The default Unix face: disabled, at NFD's socket path.
pub open spec fn default_unix(u: UnixConfig) -> bool {
    !u.enabled && u.socket_path@ == "/run/nfd/nfd.sock"@
}

/// The default WebSocket faces: disabled, on port 9696, without TLS.
pub open spec fn default_websocket(w: WebSocketConfig) -> bool {
    &&& !w.enabled
    &&& w.bind@ == ""@
    &&& w.port == 9696
    &&& !w.tls_enabled
    &&& w.tls_cert is None
    &&& w.tls_key is None
}

/// The default faces: every kind present and disabled.
pub open spec fn default_faces(f: FacesConfig) -> bool {
    &&& f.queue_size == Some(1024i32)
    &&& f.congestion_marking == Some(true)
    &&& f.lock_threads_to_cores == Some(false)
    &&& f.udp matches Some(u) && default_udp(u)
    &&& f.tcp matches Some(t) && default_tcp(t)
    &&& f.unix matches Some(u) && default_unix(u)
    &&& f.websocket matches Some(w) && default_websocket(w)
}

/// The default forwarding threads: 8, with queues of 1024.
pub open spec fn default_fw(f: FwConfig) -> bool {
    f.threads == Some(8i32) && f.queue_size == Some(1024i32) && !f.lock_threads_to_cores
}

/// The default content store: 1024 entries, LRU.
pub open spec fn default_content_store(c: ContentStoreConfig) -> bool {
    c.capacity == 1024 && c.admits && c.serve && c.replacement_policy@ == "lru"@
}

/// The default FIB: a name tree with a hash table of parameter 5.
pub open spec fn default_fib(f: FibConfig) -> bool {
    f.algorithm@ == "nametree"@ && f.hashtable.m == 5
}

/// The default tables.
pub open spec fn default_tables(t: TablesConfig) -> bool {
    &&& default_content_store(t.content_store)
    &&& t.dead_nonce_list matches Some(d) && d.lifetime == 6000
    &&& t.network_region matches Some(n) && n.regions@.len() == 0
    &&& t.rib.readvertise_nlsr
    &&& default_fib(t.fib)
}

/// The default forwarder: logging, faces, threads and management, no tables.
pub open spec fn default_forwarder(f: ForwarderConfig) -> bool {
    &&& f.core matches Some(c) && default_core(c)
    &&& default_faces(f.faces)
    &&& default_fw(f.fw)
    &&& f.mgmt matches Some(m) && !m.allow_localhop
    &&& f.tables is None
}

impl Default for CoreConfig {
    fn default() -> (r: CoreConfig)
        ensures
            default_core(r),
    {
        CoreConfig { log_level: crate::text::lit("INFO"), log_file: None }
    }
}

impl Default for UdpConfig {
    fn default() -> (r: UdpConfig)
        ensures
            default_udp(r),
    {
        UdpConfig {
            enabled_unicast: false,
            enabled_multicast: false,
            port_unicast: Some(6363),
            port_multicast: None,
            multicast_address_ipv4: None,
            multicast_address_ipv6: None,
            lifetime: Some(600),
            default_mtu: Some(1420),
        }
    }
}

impl Default for TcpConfig {
    fn default() -> (r: TcpConfig)
        ensures
            default_tcp(r),
    {
        TcpConfig { enabled: false, port_unicast: 6363, lifetime: Some(600), reconnect_interval: Some(10) }
    }
}

impl Default for UnixConfig {
    fn default() -> (r: UnixConfig)
        ensures
            default_unix(r),
    {
        UnixConfig { enabled: false, socket_path: crate::text::lit("/run/nfd/nfd.sock") }
    }
}

impl Default for WebSocketConfig {
    fn default() -> (r: WebSocketConfig)
        ensures
            default_websocket(r),
    {
        WebSocketConfig {
            enabled: false,
            bind: crate::text::lit(""),
            port: 9696,
            tls_enabled: false,
            tls_cert: None,
            tls_key: None,
        }
    }
}

impl Default for FacesConfig {
    fn default() -> (r: FacesConfig)
        ensures
            default_faces(r),
    {
        FacesConfig {
            queue_size: Some(1024),
            congestion_marking: Some(true),
            lock_threads_to_cores: Some(false),
            udp: Some(UdpConfig::default()),
            tcp: Some(TcpConfig::default()),
            unix: Some(UnixConfig::default()),
            websocket: Some(WebSocketConfig::default()),
        }
    }
}

impl Default for FwConfig {
    fn default() -> (r: FwConfig)
        ensures
            default_fw(r),
    {
        FwConfig { threads: Some(8), queue_size: Some(1024), lock_threads_to_cores: false }
    }
}

impl Default for MgmtConfig {
    fn default() -> (r: MgmtConfig)
        ensures
            !r.allow_localhop,
    {
        MgmtConfig { allow_localhop: false }
    }
}

impl Default for ContentStoreConfig {
    fn default() -> (r: ContentStoreConfig)
        ensures
            default_content_store(r),
    {
        ContentStoreConfig {
            capacity: 1024,
            admits: true,
            serve: true,
            replacement_policy: crate::text::lit("lru"),
        }
    }
}

impl Default for DeadNonceListConfig {
    fn default() -> (r: DeadNonceListConfig)
        ensures
            r.lifetime == 6000,
    {
        DeadNonceListConfig { lifetime: 6000 }
    }
}

impl Default for NetworkRegionConfig {
    fn default() -> (r: NetworkRegionConfig)
        ensures
            r.regions@.len() == 0,
    {
        NetworkRegionConfig { regions: Vec::new() }
    }
}

impl Default for RibConfig {
    fn default() -> (r: RibConfig)
        ensures
            r.readvertise_nlsr,
    {
        RibConfig { readvertise_nlsr: true }
    }
}

impl Default for HashtableConfig {
    fn default() -> (r: HashtableConfig)
        ensures
            r.m == 5,
    {
        HashtableConfig { m: 5 }
    }
}

impl Default for FibConfig {
    fn default() -> (r: FibConfig)
        ensures
            default_fib(r),
    {
        FibConfig { algorithm: crate::text::lit("nametree"), hashtable: HashtableConfig::default() }
    }
}

impl Default for TablesConfig {
    fn default() -> (r: TablesConfig)
        ensures
            default_tables(r),
    {
        TablesConfig {
            content_store: ContentStoreConfig::default(),
            dead_nonce_list: Some(DeadNonceListConfig::default()),
            network_region: Some(NetworkRegionConfig::default()),
            rib: RibConfig::default(),
            fib: FibConfig::default(),
        }
    }
}

impl Default for ForwarderConfig {
    fn default() -> (r: ForwarderConfig)
        ensures
            default_forwarder(r),
    {
        ForwarderConfig {
            core: Some(CoreConfig::default()),
            faces: FacesConfig::default(),
            fw: FwConfig::default(),
            mgmt: Some(MgmtConfig::default()),
            tables: None,
        }
    }
}

} // verus!
