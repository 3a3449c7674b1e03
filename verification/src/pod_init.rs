//! The logic of a router pod's init container: the `ndnd` configuration it
//! writes, where the router's key and certificates go, and which UDP face the
//! router publishes to the others.
use vstd::prelude::*;

use crate::helper::{entry_index, lookup_decoded, Decoded};
use crate::ndnd::dv::RouterConfig;
use crate::ndnd::fw::{
    default_core, default_fw, default_tcp, default_websocket, FacesConfig, ForwarderConfig,
    TcpConfig, UdpConfig, UnixConfig, WebSocketConfig,
};
use crate::ndnd::NdndConfig;
use crate::network_controller::daemonset::init_env;
use crate::network_controller::network::{dv_network_of, IpFamily, Network};
use crate::objects::opt_view;
use crate::text::{chars_of, decimal, decimal_text, join2, join3, lit};
use crate::Error;

verus! {

/// What the configuration of a router is made from.
#[derive(Debug)]
pub struct GenConfigParams {
    /// The routing domain, e.g. "/root-network".
    pub dv_network: String,
    /// The router's name in it.
    pub router_name: String,
    pub udp_unicast_port: u16,
    /// "insecure", or "dir://<path>".
    pub keychain: String,
    /// The Unix socket applications reach `ndnd` on.
    pub socket_path: Option<String>,
    /// The names of the certificates the router trusts.
    pub trust_anchors: Option<Vec<String>>,
    /// The public TCP face, if the network has one.
    pub tcp_port: Option<u16>,
    /// The public WebSocket face, if the network has one.
    pub ws_port: Option<u16>,
}

/// The faces of a router: UDP unicast on its port, the Unix socket, and TCP
/// and WebSocket enabled on their ports when the network has them. Absent
/// ones are written disabled, as `ndnd` would otherwise open them on its
/// default ports.
pub open spec fn router_faces(f: FacesConfig, p: GenConfigParams) -> bool {
    &&& f.queue_size == Some(1024i32)
    &&& f.congestion_marking == Some(true)
    &&& f.lock_threads_to_cores == Some(false)
    &&& f.udp matches Some(u) && {
        &&& u.enabled_unicast
        &&& !u.enabled_multicast
        &&& u.port_unicast == Some(p.udp_unicast_port)
        &&& u.port_multicast is None
        &&& u.multicast_address_ipv4 is None
        &&& u.multicast_address_ipv6 is None
        &&& u.lifetime == Some(600u64)
        &&& u.default_mtu == Some(1420u16)
    }
    &&& f.tcp matches Some(t) && match p.tcp_port {
        Some(port) => t.enabled && t.port_unicast == port && t.lifetime == Some(600u64)
            && t.reconnect_interval == Some(10u64),
        None => default_tcp(t),
    }
    &&& f.unix matches Some(u) && u.enabled && u.socket_path@ == match p.socket_path {
        Some(s) => s@,
        None => "/run/nfd/nfd.sock"@,
    }
    &&& f.websocket matches Some(w) && match p.ws_port {
        Some(port) => w.enabled && w.bind@ == "0.0.0.0"@ && w.port == port && !w.tls_enabled
            && w.tls_cert is None && w.tls_key is None,
        None => default_websocket(w),
    }
}

/// The configuration of a router.
pub open spec fn router_config(c: NdndConfig, p: GenConfigParams) -> bool {
    &&& c.dv.network == p.dv_network
    &&& c.dv.router@ == p.dv_network@ + "/"@ + p.router_name@
    &&& c.dv.keychain == p.keychain
    &&& c.dv.trust_anchors == p.trust_anchors
    &&& c.dv.advertise_interval is None
    &&& c.dv.router_dead_interval is None
    &&& c.dv.neighbors is None
    &&& c.fw.core matches Some(core) && default_core(core)
    &&& router_faces(c.fw.faces, p)
    &&& default_fw(c.fw.fw)
    &&& c.fw.mgmt matches Some(m) && !m.allow_localhop
    &&& c.fw.tables is None
}

/// The configuration of a router: the DV router `<dv_network>/<router>` in
/// its routing domain with its key chain and trust anchors, and a forwarder
/// with the router's faces.
pub fn gen_config(params: GenConfigParams) -> (r: NdndConfig)
    ensures
        router_config(r, params),
        r.fw.faces.unix matches Some(u) && u.enabled && u.socket_path@ == match params.socket_path {
            Some(s) => s@,
            None => "/run/nfd/nfd.sock"@,
        },
        r.fw.faces.udp matches Some(u) && u.enabled_unicast && u.port_unicast == Some(
            params.udp_unicast_port,
        ),
{
    let ghost p = params;
    let router = join3(params.dv_network.as_str(), "/", params.router_name.as_str());
    let mut dv = RouterConfig::default();
    dv.network = params.dv_network;
    dv.router = router;
    dv.keychain = params.keychain;
    dv.trust_anchors = params.trust_anchors;
    let mut udp = UdpConfig::default();
    udp.enabled_unicast = true;
    udp.port_unicast = Some(params.udp_unicast_port);
    let tcp = match params.tcp_port {
        Some(port) => {
            let mut t = TcpConfig::default();
            t.enabled = true;
            t.port_unicast = port;
            t
        },
        None => TcpConfig::default(),
    };
    let unix = UnixConfig {
        enabled: true,
        socket_path: match params.socket_path {
            Some(s) => s,
            None => lit("/run/nfd/nfd.sock"),
        },
    };
    let websocket = match params.ws_port {
        Some(port) => WebSocketConfig {
            enabled: true,
            bind: lit("0.0.0.0"),
            port,
            tls_enabled: false,
            tls_cert: None,
            tls_key: None,
        },
        None => WebSocketConfig::default(),
    };
    let mut faces = FacesConfig::default();
    faces.udp = Some(udp);
    faces.tcp = Some(tcp);
    faces.unix = Some(unix);
    faces.websocket = Some(websocket);
    let mut fw = ForwarderConfig::default();
    fw.faces = faces;
    NdndConfig { dv, fw }
}

/// The key chain of a router: "insecure", or the directory of its keys.
pub fn keychain_for(insecure: bool, keychain_dir: &str) -> (r: String)
    ensures
        r@ == if insecure {
            "insecure"@
        } else {
            "dir://"@ + keychain_dir@
        },
{
    if insecure {
        lit("insecure")
    } else {
        join2("dir://", keychain_dir)
    }
}

/// The UTF-8 text stored under `key` in the decoded data of the Secret
/// `secret_name`.
pub fn secret_value_utf8(data: &Vec<(String, Decoded)>, secret_name: &str, key: &str) -> (r: Result<
    String,
    Error,
>)
    ensures
        entry_index(data@, key@) < 0 ==> (r matches Err(Error::OtherError(m)) && m@ == key@
            + " not found in secret "@ + secret_name@),
        entry_index(data@, key@) >= 0 ==> match data@[entry_index(data@, key@)].1 {
            Decoded::Utf8(s) => r == Ok::<String, Error>(s),
            Decoded::Bytes(_) => r matches Err(Error::OtherError(m)) && m@ == key@
                + " in secret "@ + secret_name@ + " is not a valid UTF-8 string"@,
        },
{
    match lookup_decoded(data, key) {
        Some(Decoded::Utf8(text)) => Ok(text.clone()),
        Some(Decoded::Bytes(_)) => {
            let a = join3(key, " in secret ", secret_name);
            Err(Error::OtherError(join2(a.as_str(), " is not a valid UTF-8 string")))
        },
        None => Err(Error::OtherError(join3(key, " not found in secret ", secret_name))),
    }
}

/// The UDP face of an IPv4 address.
pub open spec fn udp4_face(ip: Seq<char>, port: u16) -> Seq<char> {
    "udp://"@ + ip + ":"@ + decimal(port as nat)
}

/// The UDP face of an IPv6 address.
pub open spec fn udp6_face(ip: Seq<char>, port: u16) -> Seq<char> {
    "udp://["@ + ip + "]:"@ + decimal(port as nat)
}

fn udp4(ip: &str, port: u16) -> (r: String)
    ensures
        r@ == udp4_face(ip@, port),
{
    let p = decimal_text(port as u64);
    let a = join3("udp://", ip, ":");
    join2(a.as_str(), p.as_str())
}

fn udp6(ip: &str, port: u16) -> (r: String)
    ensures
        r@ == udp6_face(ip@, port),
{
    let p = decimal_text(port as u64);
    let a = join3("udp://[", ip, "]:");
    join2(a.as_str(), p.as_str())
}

/// The one UDP face a router publishes: on the preferred family's address,
/// else on the other family's, else none.
pub fn inner_face(ip4: &Option<String>, ip6: &Option<String>, family: IpFamily, port: u16) -> (r:
    Option<String>)
    ensures
        opt_view(r) == match family {
            IpFamily::IPv4 => match ip4 {
                Some(ip) => Some(udp4_face(ip@, port)),
                None => match ip6 {
                    Some(ip) => Some(udp6_face(ip@, port)),
                    None => None,
                },
            },
            IpFamily::IPv6 => match ip6 {
                Some(ip) => Some(udp6_face(ip@, port)),
                None => match ip4 {
                    Some(ip) => Some(udp4_face(ip@, port)),
                    None => None,
                },
            },
        },
{
    match family {
        IpFamily::IPv4 => match ip4 {
            Some(ip) => Some(udp4(ip.as_str(), port)),
            None => match ip6 {
                Some(ip) => Some(udp6(ip.as_str(), port)),
                None => None,
            },
        },
        IpFamily::IPv6 => match ip6 {
            Some(ip) => Some(udp6(ip.as_str(), port)),
            None => match ip4 {
                Some(ip) => Some(udp4(ip.as_str(), port)),
                None => None,
            },
        },
    }
}

/// The IP family the init container was told to prefer: IPv6 only when told
/// exactly "IPv6".
pub fn family_from_env(value: Option<&str>) -> (r: IpFamily)
    ensures
        r == if value matches Some(v) && v@ == "IPv6"@ {
            IpFamily::IPv6
        } else {
            IpFamily::IPv4
        },
{
    match value {
        Some(v) => if crate::text::same_text(v, "IPv6") {
            IpFamily::IPv6
        } else {
            IpFamily::IPv4
        },
        None => IpFamily::IPv4,
    }
}

/// The value of a decimal digit character.
pub open spec fn digit_value(c: char) -> int {
    (c as u32) - ('0' as u32)
}

/// Whether a character is a decimal digit.
pub open spec fn is_digit(c: char) -> bool {
    '0' <= c && c <= '9'
}

/// The number a string of decimal digits writes.
pub open spec fn digits_value(s: Seq<char>) -> int
    decreases s.len(),
{
    if s.len() == 0 {
        0
    } else {
        digits_value(s.drop_last()) * 10 + digit_value(s.last())
    }
}

/// Whether every character is a decimal digit.
pub open spec fn all_digits(s: Seq<char>) -> bool {
    forall|i: int| 0 <= i < s.len() ==> is_digit(#[trigger] s[i])
}

/// What `str::parse::<u16>` reads: an optional '+', then one or more decimal
/// digits whose value fits in 16 bits.
pub open spec fn port_of(s: Seq<char>) -> Option<u16> {
    let d = if s.len() > 0 && s[0] == '+' {
        s.drop_first()
    } else {
        s
    };
    if d.len() > 0 && all_digits(d) && digits_value(d) <= 65535 {
        Some(digits_value(d) as u16)
    } else {
        None
    }
}

proof fn lemma_digits_value_nonneg(s: Seq<char>)
    requires
        forall|i: int| 0 <= i < s.len() ==> is_digit(#[trigger] s[i]),
    ensures
        digits_value(s) >= 0,
    decreases s.len(),
{
    if s.len() > 0 {
        lemma_digits_value_nonneg(s.drop_last());
    }
}

proof fn lemma_digits_value_grows(s: Seq<char>, k: int)
    requires
        0 <= k <= s.len(),
        forall|i: int| 0 <= i < s.len() ==> is_digit(#[trigger] s[i]),
    ensures
        digits_value(s) >= digits_value(s.subrange(0, k)),
    decreases s.len() - k,
{
    if k < s.len() {
        let d = s.drop_last();
        assert(d.subrange(0, k) =~= s.subrange(0, k));
        lemma_digits_value_grows(d, k);
        lemma_digits_value_nonneg(d);
    } else {
        assert(s.subrange(0, k) =~= s);
    }
}

/// A port number as `str::parse::<u16>` reads it.
pub fn parse_port(text: &str) -> (r: Option<u16>)
    ensures
        r == port_of(text@),
{
    let chars = chars_of(text);
    let start: usize = if chars.len() > 0 && chars[0] == '+' {
        1
    } else {
        0
    };
    let ghost d = chars@.subrange(start as int, chars@.len() as int);
    proof {
        if chars@.len() > 0 && chars@[0] == '+' {
            assert(d =~= text@.drop_first());
        } else {
            assert(d =~= text@);
        }
    }
    if start >= chars.len() {
        return None;
    }
    let mut value: u32 = 0;
    let mut i: usize = start;
    while i < chars.len()
        invariant
            start <= i <= chars@.len(),
            chars@ == text@,
            d == chars@.subrange(start as int, chars@.len() as int),
            d == (if text@.len() > 0 && text@[0] == '+' {
                text@.drop_first()
            } else {
                text@
            }),
            d.len() > 0,
            forall|j: int| 0 <= j < i - start ==> is_digit(#[trigger] d[j]),
            value == digits_value(d.subrange(0, i - start)),
            value <= 65535,
        decreases chars@.len() - i,
    {
        let c = chars[i];
        if !('0' <= c && c <= '9') {
            proof {
                assert(!is_digit(d[i - start]));
                assert(!all_digits(d));
            }
            return None;
        }
        let ghost pre = d.subrange(0, i - start);
        let next = value * 10 + (c as u32 - '0' as u32);
        proof {
            let t = d.subrange(0, i - start + 1);
            assert(t.drop_last() =~= pre);
            assert(t.last() == c);
        }
        if next > 65535 {
            proof {
                let t = d.subrange(0, i - start + 1);
                assert(digits_value(t) == next);
                if all_digits(d) {
                    lemma_digits_value_grows(d, i - start + 1);
                }
            }
            return None;
        }
        value = next;
        i = i + 1;
    }
    proof {
        assert(d.subrange(0, d.len() as int) =~= d);
    }
    Some(value as u16)
}

/// A flag as `str::parse::<bool>` reads it: exactly "true" or "false".
pub fn parse_flag(text: &str) -> (r: Option<bool>)
    ensures
        r == if text@ == "true"@ {
            Some(true)
        } else if text@ == "false"@ {
            Some(false)
        } else {
            None::<bool>
        },
{
    if crate::text::same_text(text, "true") {
        Some(true)
    } else if crate::text::same_text(text, "false") {
        Some(false)
    } else {
        None
    }
}

/// Where a trust anchor's certificate is written in the key chain:
/// `<dir>/trust-anchor-<namespace>-<name>.cert`.
pub fn anchor_path(keychain_dir: &str, namespace: &str, resource_name: &str) -> (r: String)
    ensures
        r@ == keychain_dir@ + "/trust-anchor-"@ + namespace@ + "-"@ + resource_name@ + ".cert"@,
{
    let a = join3(keychain_dir, "/trust-anchor-", namespace);
    let b = join3(a.as_str(), "-", resource_name);
    join2(b.as_str(), ".cert")
}

/// Where a file of the router's own credentials is written in the key chain:
/// `<dir>/<file>` (`ndn.key`, `ndn.cert`, `signer.cert`).
pub fn keychain_file(keychain_dir: &str, file: &str) -> (r: String)
    ensures
        r@ == keychain_dir@ + "/"@ + file@,
{
    join3(keychain_dir, "/", file)
}

/// The certificate name and Secret of a trust anchor, from the status of the
/// resource it names (`kind_label` names its kind in messages).
pub fn anchor_cert_fields(
    kind_label: &str,
    name: &str,
    status_present: bool,
    cert_name: Option<String>,
    cert_secret: Option<String>,
) -> (r: Result<(String, String), Error>)
    ensures
        !status_present ==> (r matches Err(Error::OtherError(m)) && m@ == "Status not found for "@
            + kind_label@ + " `"@ + name@ + "`"@),
        status_present && cert_name is None ==> (r matches Err(Error::OtherError(m)) && m@
            == "Certificate name not found in status for `"@ + name@ + "`"@),
        status_present && cert_name is Some && cert_secret is None ==> (r matches Err(
            Error::OtherError(m),
        ) && m@ == "Certificate secret not found in status for `"@ + name@ + "`"@),
        status_present ==> (cert_name matches Some(n) ==> (cert_secret matches Some(s) ==> r
            == Ok::<(String, String), Error>((n, s)))),
{
    if !status_present {
        let a = join3("Status not found for ", kind_label, " `");
        return Err(Error::OtherError(join3(a.as_str(), name, "`")));
    }
    let n = match cert_name {
        Some(n) => n,
        None => {
            return Err(
                Error::OtherError(join3("Certificate name not found in status for `", name, "`")),
            );
        },
    };
    let s = match cert_secret {
        Some(s) => s,
        None => {
            return Err(
                Error::OtherError(join3("Certificate secret not found in status for `", name, "`")),
            );
        },
    };
    Ok((n, s))
}

/// The Secrets of the router's own key and certificate, from its
/// certificate's status.
pub fn router_cert_secrets(key_secret: Option<String>, cert_secret: Option<String>) -> (r: Result<
    (String, String),
    Error,
>)
    ensures
        key_secret is None ==> (r matches Err(Error::OtherError(m)) && m@ == "Key secret not found"@),
        key_secret is Some && cert_secret is None ==> (r matches Err(Error::OtherError(m)) && m@
            == "Certificate secret not found"@),
        key_secret matches Some(k) ==> (cert_secret matches Some(c) ==> r == Ok::<
            (String, String),
            Error,
        >((k, c))),
{
    let k = match key_secret {
        Some(k) => k,
        None => {
            return Err(Error::OtherError(lit("Key secret not found")));
        },
    };
    let c = match cert_secret {
        Some(c) => c,
        None => {
            return Err(Error::OtherError(lit("Certificate secret not found")));
        },
    };
    Ok((k, c))
}

/// A router joins its network's routing domain: the `NDN_DV_NETWORK` the
/// network hands its init container is the network's `dvNetwork`, or its
/// prefix when that is absent, and the configuration made from that value
/// names the domain and the router `<domain>/<router>` in it.
pub proof fn law_router_in_network_domain(
    nw: Network,
    socket: Seq<char>,
    k: int,
    p: GenConfigParams,
    cfg: NdndConfig,
)
    requires
        0 <= k < init_env(nw, socket).len(),
        init_env(nw, socket)[k].0 == "NDN_DV_NETWORK"@,
        init_env(nw, socket)[k].1 == Some(p.dv_network@),
        router_config(cfg, p),
    ensures
        cfg.dv.network@ == dv_network_of(nw.spec),
        cfg.dv.router@ == dv_network_of(nw.spec) + "/"@ + p.router_name@,
{
    reveal_strlit("NDN_DV_NETWORK");
    reveal_strlit("NDN_NETWORK_NAME");
    reveal_strlit("NDN_UDP_UNICAST_PORT");
    reveal_strlit("LOG");
    reveal_strlit("NDN_NETWORK_NAMESPACE");
    reveal_strlit("NDN_ROUTER_NAME");
    reveal_strlit("NDN_NODE_NAME");
    reveal_strlit("NDN_SOCKET_PATH");
    reveal_strlit("NDN_KEYS_DIR");
    reveal_strlit("NDN_INSECURE");
    reveal_strlit("NDN_IP_FAMILY");
    reveal_strlit("NDN_TCP_PORT");
    reveal_strlit("NDN_WS_PORT");
    reveal_strlit("NDN_TRUST_ANCHORS");
    let e = init_env(nw, socket);
    assert(k == 9) by {
        if k != 9 {
            assert(e[k].0.len() != 14);
        }
    }
}

/// A router's `ndnd` listens on its Unix socket, the one injected pods
/// connect to: the socket path given, else `/run/nfd/nfd.sock`; and it
/// serves UDP unicast on the network's port.
pub proof fn law_router_serves_unix_socket(cfg: NdndConfig, p: GenConfigParams)
    requires
        router_config(cfg, p),
    ensures
        cfg.fw.faces.unix matches Some(u) && u.enabled && u.socket_path@ == match p.socket_path {
            Some(s) => s@,
            None => "/run/nfd/nfd.sock"@,
        },
        cfg.fw.faces.udp matches Some(u) && u.enabled_unicast && u.port_unicast == Some(
            p.udp_unicast_port,
        ),
{
}

} // verus!
