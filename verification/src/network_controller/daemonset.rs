//! The DaemonSet that runs `ndnd` on the nodes of a network, and the
//! environment its init container reads. The trust anchors travel to the init
//! container as JSON, written here as `serde_json` writes them.
use vstd::prelude::*;

use crate::network_controller::network::{
    can_own, dv_network_of, face_services_built, network_rules, ns_of, nw_name, owned_by,
    owned_named_meta, status_applied, IpFamily, Network, NetworkStatus, Role, RoleBinding, Service,
    ServiceAccount, TrustAnchorRef, CONTAINER_CONFIG_DIR, CONTAINER_KEYS_DIR, CONTAINER_SOCKET_DIR,
    DS_LABEL_KEY,
};
use crate::objects::{
    env_field, env_literal, env_value, host_path_volume, opt_view, volume_mount, Container,
    ContainerPort, EnvVar, ObjectMeta, StringMap, Volume, VolumeMount, VolumeSource,
};
use crate::text::{chars_of, decimal, decimal_text, join2, lit, push_char};
use crate::Error;

verus! {

/// The characters `serde_json` writes for one character of a string.
pub open spec fn json_escape_char(c: char) -> Seq<char> {
    let u = c as u32;
    if c == '"' {
        seq!['\\', '"']
    } else if c == '\\' {
        seq!['\\', '\\']
    } else if u == 8 {
        seq!['\\', 'b']
    } else if u == 9 {
        seq!['\\', 't']
    } else if u == 10 {
        seq!['\\', 'n']
    } else if u == 12 {
        seq!['\\', 'f']
    } else if u == 13 {
        seq!['\\', 'r']
    } else if u < 0x20 {
        seq!['\\', 'u', '0', '0', hex_digit((u / 16) as nat), hex_digit((u % 16) as nat)]
    } else {
        seq![c]
    }
}

/// A lower-case hexadecimal digit.
pub open spec fn hex_digit(d: nat) -> char {
    if d < 10 {
        crate::text::digit_char(d)
    } else if d == 10 {
        'a'
    } else if d == 11 {
        'b'
    } else if d == 12 {
        'c'
    } else if d == 13 {
        'd'
    } else if d == 14 {
        'e'
    } else {
        'f'
    }
}

/// The escaped characters of a string.
pub open spec fn json_escape(s: Seq<char>) -> Seq<char>
    decreases s.len(),
{
    if s.len() == 0 {
        Seq::empty()
    } else {
        json_escape(s.drop_last()) + json_escape_char(s.last())
    }
}

/// A JSON string.
pub open spec fn json_string(s: Seq<char>) -> Seq<char> {
    seq!['"'] + json_escape(s) + seq!['"']
}

/// A trust anchor as a JSON object; an absent namespace is left out.
pub open spec fn anchor_json(a: TrustAnchorRef) -> Seq<char> {
    "{\"name\":"@ + json_string(a.name@) + ",\"kind\":"@ + json_string(a.kind@) + match a.namespace {
        Some(n) => ",\"namespace\":"@ + json_string(n@),
        None => Seq::empty(),
    } + "}"@
}

/// The objects of a list of anchors, separated by commas.
pub open spec fn anchors_body(v: Seq<TrustAnchorRef>) -> Seq<char>
    decreases v.len(),
{
    if v.len() == 0 {
        Seq::empty()
    } else if v.len() == 1 {
        anchor_json(v[0])
    } else {
        anchors_body(v.drop_last()) + ","@ + anchor_json(v.last())
    }
}

/// A list of trust anchors as a JSON array.
pub open spec fn anchors_json(v: Seq<TrustAnchorRef>) -> Seq<char> {
    "["@ + anchors_body(v) + "]"@
}

fn hex_of(d: u32) -> (c: char)
    requires
        d < 16,
    ensures
        c == hex_digit(d as nat),
{
    if d == 0 {
        '0'
    } else if d == 1 {
        '1'
    } else if d == 2 {
        '2'
    } else if d == 3 {
        '3'
    } else if d == 4 {
        '4'
    } else if d == 5 {
        '5'
    } else if d == 6 {
        '6'
    } else if d == 7 {
        '7'
    } else if d == 8 {
        '8'
    } else if d == 9 {
        '9'
    } else if d == 10 {
        'a'
    } else if d == 11 {
        'b'
    } else if d == 12 {
        'c'
    } else if d == 13 {
        'd'
    } else if d == 14 {
        'e'
    } else {
        'f'
    }
}

fn push_escaped_char(out: &mut String, c: char)
    ensures
        final(out)@ == old(out)@ + json_escape_char(c),
{
    let u = c as u32;
    let ghost start = out@;
    if c == '"' {
        push_char(out, '\\');
        push_char(out, '"');
    } else if c == '\\' {
        push_char(out, '\\');
        push_char(out, '\\');
    } else if u == 8 {
        push_char(out, '\\');
        push_char(out, 'b');
    } else if u == 9 {
        push_char(out, '\\');
        push_char(out, 't');
    } else if u == 10 {
        push_char(out, '\\');
        push_char(out, 'n');
    } else if u == 12 {
        push_char(out, '\\');
        push_char(out, 'f');
    } else if u == 13 {
        push_char(out, '\\');
        push_char(out, 'r');
    } else if u < 0x20 {
        push_char(out, '\\');
        push_char(out, 'u');
        push_char(out, '0');
        push_char(out, '0');
        push_char(out, hex_of(u / 16));
        push_char(out, hex_of(u % 16));
    } else {
        push_char(out, c);
    }
    assert(out@ =~= start + json_escape_char(c));
}

fn push_json_string(out: &mut String, s: &str)
    ensures
        final(out)@ == old(out)@ + json_string(s@),
{
    let chars = chars_of(s);
    let ghost start = out@;
    push_char(out, '"');
    let mut i: usize = 0;
    while i < chars.len()
        invariant
            i <= chars@.len(),
            chars@ == s@,
            out@ == start + seq!['"'] + json_escape(chars@.subrange(0, i as int)),
        decreases chars@.len() - i,
    {
        let ghost before = out@;
        push_escaped_char(out, chars[i]);
        proof {
            let t = chars@.subrange(0, i + 1);
            assert(t.drop_last() =~= chars@.subrange(0, i as int));
            assert(t.last() == chars@[i as int]);
        }
        i = i + 1;
    }
    assert(chars@.subrange(0, chars@.len() as int) =~= s@);
    push_char(out, '"');
    assert(out@ =~= start + json_string(s@));
}

fn push_str(out: &mut String, s: &str)
    ensures
        final(out)@ == old(out)@ + s@,
{
    let chars = chars_of(s);
    let ghost start = out@;
    let mut i: usize = 0;
    while i < chars.len()
        invariant
            i <= chars@.len(),
            chars@ == s@,
            out@ == start + chars@.subrange(0, i as int),
        decreases chars@.len() - i,
    {
        push_char(out, chars[i]);
        assert(chars@.subrange(0, i + 1) =~= chars@.subrange(0, i as int).push(chars@[i as int]));
        i = i + 1;
    }
    assert(chars@.subrange(0, chars@.len() as int) =~= s@);
}

fn push_anchor(out: &mut String, a: &TrustAnchorRef)
    ensures
        final(out)@ == old(out)@ + anchor_json(*a),
{
    let ghost start = out@;
    push_str(out, "{\"name\":");
    push_json_string(out, a.name.as_str());
    push_str(out, ",\"kind\":");
    push_json_string(out, a.kind.as_str());
    match &a.namespace {
        Some(n) => {
            push_str(out, ",\"namespace\":");
            push_json_string(out, n.as_str());
        },
        None => {},
    }
    push_str(out, "}");
    assert(out@ =~= start + anchor_json(*a));
}

/// A list of trust anchors as JSON, as `serde_json::to_string` writes it
/// (absent namespaces left out).
pub fn trust_anchors_json(anchors: &Vec<TrustAnchorRef>) -> (r: String)
    ensures
        r@ == anchors_json(anchors@),
{
    let mut out = String::new();
    push_str(&mut out, "[");
    let ghost start = out@;
    let mut i: usize = 0;
    while i < anchors.len()
        invariant
            i <= anchors@.len(),
            out@ == start + anchors_body(anchors@.subrange(0, i as int)),
        decreases anchors@.len() - i,
    {
        if i > 0 {
            push_str(&mut out, ",");
        }
        push_anchor(&mut out, &anchors[i]);
        proof {
            let t = anchors@.subrange(0, i + 1);
            assert(t.drop_last() =~= anchors@.subrange(0, i as int));
            assert(t.last() == anchors@[i as int]);
            if i == 0 {
                assert(t.len() == 1);
                assert(anchors@.subrange(0, 0) =~= Seq::<TrustAnchorRef>::empty());
            }
        }
        i = i + 1;
    }
    assert(anchors@.subrange(0, anchors@.len() as int) =~= anchors@);
    push_str(&mut out, "]");
    proof {
        assert(out@ =~= "["@ + anchors_body(anchors@) + "]"@);
    }
    out
}

/// An environment variable by view: its name, its literal value, and the
/// pod field it is read from.
pub open spec fn env_view(e: EnvVar) -> (Seq<char>, Option<Seq<char>>, Option<Seq<char>>) {
    (e.name@, opt_view(e.value), opt_view(e.field_path))
}

/// A variable with a literal value.
pub open spec fn lit_env(name: Seq<char>, value: Seq<char>) -> (
    Seq<char>,
    Option<Seq<char>>,
    Option<Seq<char>>,
) {
    (name, Some(value), None)
}

/// A variable read from a field of the pod.
pub open spec fn field_env(name: Seq<char>, field: Seq<char>) -> (
    Seq<char>,
    Option<Seq<char>>,
    Option<Seq<char>>,
) {
    (name, None, Some(field))
}

/// The name of an IP family as the init container reads it.
pub open spec fn family_text(f: IpFamily) -> Seq<char> {
    match f {
        IpFamily::IPv4 => "IPv4"@,
        IpFamily::IPv6 => "IPv6"@,
    }
}

/// The environment of the init container of a network whose socket is at
/// `socket`: who and where the router is, how it is secured, its routing
/// domain and IP family, then its public face ports and trust anchors when
/// the spec has them.
pub open spec fn init_env(nw: Network, socket: Seq<char>) -> Seq<
    (Seq<char>, Option<Seq<char>>, Option<Seq<char>>),
> {
    let base = seq![
        lit_env("NDN_NETWORK_NAME"@, nw_name(nw)),
        lit_env("NDN_UDP_UNICAST_PORT"@, decimal(nw.spec.udp_unicast_port as nat)),
        lit_env("LOG"@, "debug"@),
        field_env("NDN_NETWORK_NAMESPACE"@, "metadata.namespace"@),
        field_env("NDN_ROUTER_NAME"@, "metadata.name"@),
        field_env("NDN_NODE_NAME"@, "spec.nodeName"@),
        lit_env("NDN_SOCKET_PATH"@, socket),
        lit_env("NDN_KEYS_DIR"@, "/etc/ndn/keys"@),
        lit_env(
            "NDN_INSECURE"@,
            if nw.spec.router_cert_issuer is Some {
                "false"@
            } else {
                "true"@
            },
        ),
        lit_env("NDN_DV_NETWORK"@, dv_network_of(nw.spec)),
        lit_env("NDN_IP_FAMILY"@, family_text(nw.spec.ip_family)),
    ];
    let tcp = match nw.spec.faces {
        Some(f) => match f.tcp {
            Some(t) => seq![lit_env("NDN_TCP_PORT"@, decimal(t.port as nat))],
            None => Seq::empty(),
        },
        None => Seq::empty(),
    };
    let ws = match nw.spec.faces {
        Some(f) => match f.websocket {
            Some(w) => seq![lit_env("NDN_WS_PORT"@, decimal(w.port as nat))],
            None => Seq::empty(),
        },
        None => Seq::empty(),
    };
    let anchors = match nw.spec.trust_anchors {
        Some(v) => seq![lit_env("NDN_TRUST_ANCHORS"@, anchors_json(v@))],
        None => Seq::empty(),
    };
    base + tcp + ws + anchors
}

fn push_env(envs: &mut Vec<EnvVar>, e: EnvVar)
    ensures
        final(envs)@.map_values(|x: EnvVar| env_view(x)) == old(envs)@.map_values(
            |x: EnvVar| env_view(x),
        ).push(env_view(e)),
{
    envs.push(e);
    assert(envs@.map_values(|x: EnvVar| env_view(x)) =~= old(envs)@.map_values(
        |x: EnvVar| env_view(x),
    ).push(env_view(e)));
}

/// The environment of the init container of a network whose socket is at
/// `socket_path`.
pub fn network_init_env(nw: &Network, socket_path: &str) -> (r: Vec<EnvVar>)
    ensures
        r@.map_values(|x: EnvVar| env_view(x)) == init_env(*nw, socket_path@),
{
    let mut envs: Vec<EnvVar> = Vec::new();
    push_env(&mut envs, env_value("NDN_NETWORK_NAME", nw.metadata.name_any()));
    push_env(&mut envs, env_value("NDN_UDP_UNICAST_PORT", decimal_text(nw.spec.udp_unicast_port as u64)));
    push_env(&mut envs, env_literal("LOG", "debug"));
    push_env(&mut envs, env_field("NDN_NETWORK_NAMESPACE", "metadata.namespace"));
    push_env(&mut envs, env_field("NDN_ROUTER_NAME", "metadata.name"));
    push_env(&mut envs, env_field("NDN_NODE_NAME", "spec.nodeName"));
    push_env(&mut envs, env_literal("NDN_SOCKET_PATH", socket_path));
    push_env(&mut envs, env_value("NDN_KEYS_DIR", nw.container_keys_dir()));
    push_env(
        &mut envs,
        env_literal(
            "NDN_INSECURE",
            match nw.spec.router_cert_issuer {
                Some(_) => "false",
                None => "true",
            },
        ),
    );
    push_env(&mut envs, env_value("NDN_DV_NETWORK", nw.dv_network()));
    push_env(
        &mut envs,
        env_literal(
            "NDN_IP_FAMILY",
            match nw.spec.ip_family {
                IpFamily::IPv4 => "IPv4",
                IpFamily::IPv6 => "IPv6",
            },
        ),
    );
    let ghost base = envs@.map_values(|x: EnvVar| env_view(x));
    match &nw.spec.faces {
        Some(faces) => {
            match &faces.tcp {
                Some(tcp) => {
                    push_env(&mut envs, env_value("NDN_TCP_PORT", decimal_text(tcp.port as u64)));
                },
                None => {},
            }
            match &faces.websocket {
                Some(ws) => {
                    push_env(&mut envs, env_value("NDN_WS_PORT", decimal_text(ws.port as u64)));
                },
                None => {},
            }
        },
        None => {},
    }
    match &nw.spec.trust_anchors {
        Some(anchors) => {
            push_env(&mut envs, env_value("NDN_TRUST_ANCHORS", trust_anchors_json(anchors)));
        },
        None => {},
    }
    assert(envs@.map_values(|x: EnvVar| env_view(x)) =~= init_env(*nw, socket_path@));
    envs
}

/// The spec of a pod, as far as the operator reads or sets it.
#[derive(Debug)]
pub struct PodSpec {
    /// The node the pod runs on, once scheduled.
    pub node_name: Option<String>,
    pub service_account_name: Option<String>,
    pub host_network: Option<bool>,
    pub dns_policy: Option<String>,
    pub node_selector: Option<StringMap>,
    pub init_containers: Option<Vec<Container>>,
    pub containers: Vec<Container>,
    pub volumes: Option<Vec<Volume>>,
}

/// The pod template of a DaemonSet.
#[derive(Debug)]
pub struct PodTemplateSpec {
    pub metadata: Option<ObjectMeta>,
    pub spec: Option<PodSpec>,
}

/// The spec of a DaemonSet.
#[derive(Debug)]
pub struct DaemonSetSpec {
    /// The labels its pods are selected by (`selector.matchLabels`).
    pub selector: Option<StringMap>,
    pub template: PodTemplateSpec,
}

/// A DaemonSet.
#[derive(Debug)]
pub struct DaemonSet {
    pub metadata: ObjectMeta,
    pub spec: Option<DaemonSetSpec>,
}

/// A volume mount by view.
pub open spec fn mount_view(m: VolumeMount) -> (Seq<char>, Seq<char>, Option<bool>) {
    (m.name@, m.mount_path@, m.read_only)
}

/// The mounts of a container by view.
pub open spec fn mounts_of(c: Container) -> Seq<(Seq<char>, Seq<char>, Option<bool>)> {
    match c.volume_mounts {
        Some(v) => v@.map_values(|m: VolumeMount| mount_view(m)),
        None => Seq::empty(),
    }
}

/// The environment of a container by view.
pub open spec fn envs_of(c: Container) -> Seq<(Seq<char>, Option<Seq<char>>, Option<Seq<char>>)> {
    match c.env {
        Some(v) => v@.map_values(|e: EnvVar| env_view(e)),
        None => Seq::empty(),
    }
}

/// A list of strings by view.
pub open spec fn texts(v: Option<Vec<String>>) -> Option<Seq<Seq<char>>> {
    match v {
        Some(x) => Some(x@.map_values(|s: String| s@)),
        None => None,
    }
}

/// A port by view: name, container port, host port, protocol.
pub open spec fn port_view(p: ContainerPort) -> (Option<Seq<char>>, i32, Option<i32>, Option<Seq<char>>) {
    (opt_view(p.name), p.container_port, p.host_port, opt_view(p.protocol))
}

/// A port the node forwards to the same port of the container.
pub open spec fn host_port(name: Seq<char>, port: u16, protocol: Seq<char>) -> (
    Option<Seq<char>>,
    i32,
    Option<i32>,
    Option<Seq<char>>,
) {
    (Some(name), port as i32, Some(port as i32), Some(protocol))
}

/// The ports of the `ndnd` container: UDP, then the public TCP and WebSocket
/// faces the spec asks for.
pub open spec fn ndnd_ports(nw: Network) -> Seq<(Option<Seq<char>>, i32, Option<i32>, Option<Seq<char>>)> {
    let udp = seq![host_port("udp"@, nw.spec.udp_unicast_port, "UDP"@)];
    let tcp = match nw.spec.faces {
        Some(f) => match f.tcp {
            Some(t) => seq![host_port("tcp"@, t.port, "TCP"@)],
            None => Seq::empty(),
        },
        None => Seq::empty(),
    };
    let ws = match nw.spec.faces {
        Some(f) => match f.websocket {
            Some(w) => seq![host_port("websocket"@, w.port, "TCP"@)],
            None => Seq::empty(),
        },
        None => Seq::empty(),
    };
    udp + tcp + ws
}

/// The container path of the network's configuration.
pub open spec fn config_path(nw: Network) -> Seq<char> {
    "/etc/ndnd/"@ + nw_name(nw) + ".yml"@
}

/// The container path of the network's socket.
pub open spec fn socket_path(nw: Network) -> Seq<char> {
    "/run/ndnd/"@ + nw_name(nw) + ".sock"@
}

/// The init container: it writes the configuration of `ndnd` and fetches the
/// router's keys.
pub open spec fn init_container(c: Container, nw: Network, image: Option<String>) -> bool {
    &&& c.name@ == "init"@
    &&& c.image == image
    &&& texts(c.command) == Some(seq!["/init"@, "--output"@, config_path(nw)])
    &&& c.args is None
    &&& envs_of(c) == init_env(nw, socket_path(nw))
    &&& c.privileged == Some(true)
    &&& c.ports is None
    &&& mounts_of(c) == seq![
        ("config"@, "/etc/ndnd"@, Some(false)),
        ("keys"@, "/etc/ndn/keys"@, Some(false)),
    ]
}

/// The `ndnd` container.
pub open spec fn ndnd_container(c: Container, nw: Network) -> bool {
    &&& c.name@ == "network"@
    &&& c.image == Some(nw.spec.ndnd.image)
    &&& texts(c.command) == Some(seq!["/ndnd"@])
    &&& texts(c.args) == Some(seq!["daemon"@, config_path(nw)])
    &&& c.privileged == Some(true)
    &&& c.ports matches Some(p) && p@.map_values(|x: ContainerPort| port_view(x)) == ndnd_ports(nw)
    &&& envs_of(c) == seq![lit_env("NDN_CLIENT_TRANSPORT"@, "unix://"@ + socket_path(nw))]
    &&& mounts_of(c) == seq![
        ("config"@, "/etc/ndnd"@, Some(true)),
        ("run-ndnd"@, "/run/ndnd"@, None::<bool>),
        ("keys"@, "/etc/ndn/keys"@, Some(true)),
    ]
}

/// The watch container: it links the router to its neighbors.
pub open spec fn watch_container(c: Container, nw: Network, image: Option<String>) -> bool {
    &&& c.name@ == "watch"@
    &&& c.image == image
    &&& texts(c.command) == Some(seq!["/sidecar"@])
    &&& c.args is None
    &&& c.privileged is None
    &&& c.ports is None
    &&& envs_of(c) == seq![
        lit_env("NDN_NETWORK_NAME"@, nw_name(nw)),
        lit_env("LOG"@, "debug"@),
        field_env("NDN_NETWORK_NAMESPACE"@, "metadata.namespace"@),
        field_env("NDN_ROUTER_NAME"@, "metadata.name"@),
        lit_env("NDN_CLIENT_TRANSPORT"@, "unix://"@ + socket_path(nw)),
    ]
    &&& mounts_of(c) == seq![("run-ndnd"@, "/run/ndnd"@, None::<bool>)]
}

/// A volume at a path of the node, made when absent.
pub open spec fn node_dir_volume(v: Volume, name: Seq<char>, path: Seq<char>) -> bool {
    &&& v.name@ == name
    &&& v.source matches VolumeSource::HostPath { path: p, type_: Some(t) } && p@ == path && t@
        == "DirectoryOrCreate"@
}

/// The volumes of the router pods: configuration, socket and keys, each in
/// the network's directory on the node.
pub open spec fn ds_volumes(v: Seq<Volume>, nw: Network) -> bool {
    &&& v.len() == 3
    &&& node_dir_volume(v[0], "config"@, "/etc/ndnd/"@ + ns_of(nw) + "/"@ + nw_name(nw))
    &&& node_dir_volume(v[1], "run-ndnd"@, "/run/ndnd/"@ + ns_of(nw) + "/"@ + nw_name(nw))
    &&& node_dir_volume(v[2], "keys"@, "/etc/ndn/keys/"@ + ns_of(nw) + "/"@ + nw_name(nw))
}

/// The labels of the DaemonSet and its pods.
pub open spec fn ds_labels(nw: Network) -> Map<Seq<char>, Seq<char>> {
    Map::<Seq<char>, Seq<char>>::empty().insert(DS_LABEL_KEY@, nw_name(nw))
}

fn strings(items: &[&str]) -> (r: Vec<String>)
    ensures
        r@.map_values(|s: String| s@) == items@.map_values(|s: &str| s@),
{
    let mut r: Vec<String> = Vec::new();
    let mut i: usize = 0;
    while i < items.len()
        invariant
            i <= items@.len(),
            r@.map_values(|s: String| s@) == items@.subrange(0, i as int).map_values(|s: &str| s@),
        decreases items@.len() - i,
    {
        r.push(lit(items[i]));
        assert(items@.subrange(0, i + 1).map_values(|s: &str| s@) =~= items@.subrange(
            0,
            i as int,
        ).map_values(|s: &str| s@).push(items@[i as int]@));
        assert(r@.map_values(|s: String| s@) =~= items@.subrange(0, i + 1).map_values(
            |s: &str| s@,
        ));
        i = i + 1;
    }
    assert(items@.subrange(0, items@.len() as int) =~= items@);
    r
}

fn init_container_of(nw: &Network, image: Option<String>, config: &String, socket: &String) -> (c:
    Container)
    requires
        config@ == config_path(*nw),
        socket@ == socket_path(*nw),
    ensures
        init_container(c, *nw, image),
{
    let command = strings(&["/init", "--output", config.as_str()]);
    let mounts = vec![
        volume_mount("config", CONTAINER_CONFIG_DIR, Some(false)),
        volume_mount("keys", CONTAINER_KEYS_DIR, Some(false)),
    ];
    let c = Container {
        name: lit("init"),
        image,
        command: Some(command),
        args: None,
        env: Some(network_init_env(nw, socket.as_str())),
        ports: None,
        volume_mounts: Some(mounts),
        privileged: Some(true),
    };
    proof {
        reveal_strlit("/etc/ndnd");
        reveal_strlit("/etc/ndn/keys");
        assert(texts(c.command) =~= Some(seq!["/init"@, "--output"@, config_path(*nw)]));
        assert(mounts_of(c) =~= seq![
            ("config"@, "/etc/ndnd"@, Some(false)),
            ("keys"@, "/etc/ndn/keys"@, Some(false)),
        ]);
    }
    c
}

fn host_port_of(name: &str, port: u16, protocol: &str) -> (p: ContainerPort)
    ensures
        port_view(p) == host_port(name@, port, protocol@),
{
    let n: i32 = port as i32;
    ContainerPort { name: Some(lit(name)), container_port: n, host_port: Some(n), protocol: Some(lit(protocol)) }
}

fn ndnd_ports_of(nw: &Network) -> (r: Vec<ContainerPort>)
    ensures
        r@.map_values(|x: ContainerPort| port_view(x)) == ndnd_ports(*nw),
{
    let mut ports = vec![host_port_of("udp", nw.spec.udp_unicast_port, "UDP")];
    match &nw.spec.faces {
        Some(faces) => {
            match &faces.tcp {
                Some(tcp) => {
                    ports.push(host_port_of("tcp", tcp.port, "TCP"));
                },
                None => {},
            }
            match &faces.websocket {
                Some(ws) => {
                    ports.push(host_port_of("websocket", ws.port, "TCP"));
                },
                None => {},
            }
        },
        None => {},
    }
    assert(ports@.map_values(|x: ContainerPort| port_view(x)) =~= ndnd_ports(*nw));
    ports
}

fn ndnd_container_of(nw: &Network, config: &String, socket: &String) -> (c: Container)
    requires
        config@ == config_path(*nw),
        socket@ == socket_path(*nw),
    ensures
        ndnd_container(c, *nw),
{
    let transport = join2("unix://", socket.as_str());
    let c = Container {
        name: lit("network"),
        image: Some(nw.spec.ndnd.image.clone()),
        command: Some(strings(&["/ndnd"])),
        args: Some(strings(&["daemon", config.as_str()])),
        env: Some(vec![env_value("NDN_CLIENT_TRANSPORT", transport)]),
        ports: Some(ndnd_ports_of(nw)),
        volume_mounts: Some(
            vec![
                volume_mount("config", CONTAINER_CONFIG_DIR, Some(true)),
                volume_mount("run-ndnd", CONTAINER_SOCKET_DIR, None),
                volume_mount("keys", CONTAINER_KEYS_DIR, Some(true)),
            ],
        ),
        privileged: Some(true),
    };
    proof {
        reveal_strlit("/etc/ndnd");
        reveal_strlit("/run/ndnd");
        reveal_strlit("/etc/ndn/keys");
        assert(texts(c.command) =~= Some(seq!["/ndnd"@]));
        assert(texts(c.args) =~= Some(seq!["daemon"@, config_path(*nw)]));
        assert(envs_of(c) =~= seq![lit_env("NDN_CLIENT_TRANSPORT"@, "unix://"@ + socket_path(*nw))]);
        assert(mounts_of(c) =~= seq![
            ("config"@, "/etc/ndnd"@, Some(true)),
            ("run-ndnd"@, "/run/ndnd"@, None::<bool>),
            ("keys"@, "/etc/ndn/keys"@, Some(true)),
        ]);
    }
    c
}

fn watch_container_of(nw: &Network, image: Option<String>, socket: &String) -> (c: Container)
    requires
        socket@ == socket_path(*nw),
    ensures
        watch_container(c, *nw, image),
{
    let transport = join2("unix://", socket.as_str());
    let c = Container {
        name: lit("watch"),
        image,
        command: Some(strings(&["/sidecar"])),
        args: None,
        env: Some(
            vec![
                env_value("NDN_NETWORK_NAME", nw.metadata.name_any()),
                env_literal("LOG", "debug"),
                env_field("NDN_NETWORK_NAMESPACE", "metadata.namespace"),
                env_field("NDN_ROUTER_NAME", "metadata.name"),
                env_value("NDN_CLIENT_TRANSPORT", transport),
            ],
        ),
        ports: None,
        volume_mounts: Some(vec![volume_mount("run-ndnd", CONTAINER_SOCKET_DIR, None)]),
        privileged: None,
    };
    proof {
        reveal_strlit("/run/ndnd");
        assert(texts(c.command) =~= Some(seq!["/sidecar"@]));
        assert(envs_of(c) =~= seq![
            lit_env("NDN_NETWORK_NAME"@, nw_name(*nw)),
            lit_env("LOG"@, "debug"@),
            field_env("NDN_NETWORK_NAMESPACE"@, "metadata.namespace"@),
            field_env("NDN_ROUTER_NAME"@, "metadata.name"@),
            lit_env("NDN_CLIENT_TRANSPORT"@, "unix://"@ + socket_path(*nw)),
        ]);
        assert(mounts_of(c) =~= seq![("run-ndnd"@, "/run/ndnd"@, None::<bool>)]);
    }
    c
}

/// The DaemonSet of a network's routers, as `create_owned_daemonset` builds
/// it with the operator image `image` and the ServiceAccount
/// `service_account`.
pub open spec fn daemonset_built(
    ds: DaemonSet,
    nw: Network,
    image: Option<String>,
    service_account: Option<String>,
) -> bool {
    &&& ds.metadata.name matches Some(n) && n@ == nw_name(nw)
    &&& can_own(nw) ==> (ds.metadata.owner_references matches Some(v) && v@.len() == 1
        && owned_by(v@[0], nw))
    &&& !can_own(nw) ==> ds.metadata.owner_references is None
    &&& ds.metadata.labels matches Some(l) && l@ == ds_labels(nw)
    &&& ds.spec matches Some(spec) && {
        &&& spec.selector matches Some(sel) && sel@ == ds_labels(nw)
        &&& spec.template.metadata matches Some(m) && m.labels matches Some(l) && l@
            == ds_labels(nw)
        &&& spec.template.spec matches Some(pod) && {
            &&& pod.service_account_name == service_account
            &&& pod.host_network == Some(true)
            &&& pod.dns_policy matches Some(d) && d@ == "ClusterFirstWithHostNet"@
            &&& crate::objects::opt_map_view(pod.node_selector)
                == crate::objects::opt_map_view(nw.spec.node_selector)
            &&& pod.init_containers matches Some(ic) && ic@.len() == 1 && init_container(
                ic@[0],
                nw,
                image,
            )
            &&& pod.containers@.len() == 2
            &&& ndnd_container(pod.containers@[0], nw)
            &&& watch_container(pod.containers@[1], nw, image)
            &&& pod.volumes matches Some(v) && ds_volumes(v@, nw)
        }
    }
}

/// The DaemonSet of a network: named after it and owned by it (when it can
/// own objects), labelled and selecting its pods by the network, running on
/// the host network with the given ServiceAccount and the spec's node
/// selector, with the init, `ndnd` and watch containers and the network's
/// node directories. `image` is the operator's image, used by the init and
/// watch containers.
pub fn create_owned_daemonset(nw: &Network, image: Option<String>, service_account: Option<String>) -> (r:
    Result<DaemonSet, Error>)
    requires
        nw.metadata.namespace is Some,
    ensures
        r matches Ok(ds) && daemonset_built(ds, *nw, image, service_account),
        r matches Ok(ds) ==> (ds.spec matches Some(s) && (s.template.spec matches Some(pod) && (
        pod.containers@.len() > 0 && (pod.containers@[0].ports matches Some(ps) && {
            &&& ps@.len() >= 1
            &&& opt_view(ps@[0].name) == Some("udp"@)
            &&& ps@[0].container_port == nw.spec.udp_unicast_port as i32
            &&& ps@[0].host_port == Some(nw.spec.udp_unicast_port as i32)
            &&& opt_view(ps@[0].protocol) == Some("UDP"@)
            &&& forall|j: int|
                1 <= j < ps@.len() ==> opt_view(#[trigger] ps@[j].protocol) == Some("TCP"@)
        })))),
{
    let oref = nw.owner_ref();
    let name = nw.metadata.name_any();
    let labels = crate::objects::single_entry(DS_LABEL_KEY, name.as_str());
    let config = nw.container_config_path();
    let socket = nw.container_socket_path();
    let image2 = match &image {
        Some(i) => Some(i.clone()),
        None => None,
    };
    let init = init_container_of(nw, image, &config, &socket);
    let ndnd = ndnd_container_of(nw, &config, &socket);
    let watch = watch_container_of(nw, image2, &socket);
    let volumes = vec![
        host_path_volume("config", nw.host_config_dir(), "DirectoryOrCreate"),
        host_path_volume("run-ndnd", nw.host_socket_dir(), "DirectoryOrCreate"),
        host_path_volume("keys", nw.host_keys_dir(), "DirectoryOrCreate"),
    ];
    let pod = PodSpec {
        node_name: None,
        service_account_name: service_account,
        host_network: Some(true),
        dns_policy: Some(lit("ClusterFirstWithHostNet")),
        node_selector: crate::objects::copy_opt_map(&nw.spec.node_selector),
        init_containers: Some(vec![init]),
        containers: vec![ndnd, watch],
        volumes: Some(volumes),
    };
    let mut tmeta = ObjectMeta::empty();
    tmeta.labels = Some(labels.duplicate());
    let mut meta = ObjectMeta::empty();
    meta.name = Some(name);
    meta.owner_references = match oref {
        Some(o) => Some(vec![o]),
        None => None,
    };
    meta.labels = Some(labels.duplicate());
    let spec = DaemonSetSpec {
        selector: Some(labels),
        template: PodTemplateSpec { metadata: Some(tmeta), spec: Some(pod) },
    };
    let ds = DaemonSet { metadata: meta, spec: Some(spec) };
    proof {
        assert(daemonset_built(ds, *nw, image, service_account));
        law_ndnd_udp_port(ds, *nw, image, service_account);
    }
    Ok(ds)
}

/// Everything a network applies in its namespace: its ServiceAccount, Role
/// and RoleBinding, its DaemonSet (with the operator image it chose), the
/// Services of its faces, and the status it then reports.
#[derive(Debug)]
pub struct NetworkPlan {
    pub service_account: ServiceAccount,
    pub role: Role,
    pub role_binding: RoleBinding,
    pub image: String,
    pub daemonset: DaemonSet,
    pub services: Vec<Service>,
    pub status: NetworkStatus,
}

/// What a network applies when it is reconciled: the RBAC objects named
/// after it, the RoleBinding granting its Role to its ServiceAccount, the
/// DaemonSet run by that ServiceAccount with the spec's operator image (else
/// `own_image`, else the default one), one Service per face the spec asks
/// for, and the status with the DaemonSet created and RBACReady, DSCreated
/// and Ready all true at the network's generation.
pub fn network_plan(nw: &Network, own_image: Option<String>) -> (r: NetworkPlan)
    requires
        can_own(*nw),
        nw.metadata.namespace is Some,
    ensures
        owned_named_meta(r.service_account.metadata, *nw),
        r.service_account.automount_service_account_token == Some(true),
        owned_named_meta(r.role.metadata, *nw),
        network_rules(r.role.rules@),
        owned_named_meta(r.role_binding.metadata, *nw),
        r.role_binding.role_ref.api_group@ == "rbac.authorization.k8s.io"@,
        r.role_binding.role_ref.kind@ == "Role"@,
        r.role_binding.role_ref.name@ == nw_name(*nw),
        r.role_binding.subjects@.len() == 1,
        r.role_binding.subjects@[0].kind@ == "ServiceAccount"@,
        r.role_binding.subjects@[0].name@ == nw_name(*nw),
        r.role_binding.subjects@[0].namespace == nw.metadata.namespace,
        r.image@ == match nw.spec.operator {
            Some(op) => op.image@,
            None => match own_image {
                Some(i) => i@,
                None => "ghcr.io/ndn-operator/ndn-operator:latest"@,
            },
        },
        daemonset_built(r.daemonset, *nw, Some(r.image), r.service_account.metadata.name),
        face_services_built(r.services@, *nw),
        status_applied(r.status, nw.metadata.generation.unwrap_or(0)),
{
    let service_account = nw.create_owned_sa();
    let role = nw.create_owned_role();
    let sa_name = service_account.metadata.name_any();
    let role_name = role.metadata.name_any();
    let role_binding = nw.create_owned_role_binding(sa_name, role_name);
    let image = nw.daemonset_image(own_image);
    let daemonset = create_owned_daemonset(
        nw,
        Some(image.clone()),
        crate::objects::copy_opt(&service_account.metadata.name),
    ).unwrap();
    let services = nw.face_services();
    let status = nw.status_after_apply();
    NetworkPlan { service_account, role, role_binding, image, daemonset, services, status }
}

/// The router's `ndnd` container publishes its UDP unicast face on the node:
/// its first port is named "udp", is the network's UDP port on both the
/// container and the node, and carries UDP; every further port (the public
/// TCP and WebSocket faces) carries TCP.
pub proof fn law_ndnd_udp_port(
    ds: DaemonSet,
    nw: Network,
    image: Option<String>,
    service_account: Option<String>,
)
    requires
        daemonset_built(ds, nw, image, service_account),
    ensures
        ds.spec matches Some(s) && (s.template.spec matches Some(pod) && (pod.containers@.len() > 0
            && (pod.containers@[0].ports matches Some(ps) && {
            &&& ps@.len() >= 1
            &&& opt_view(ps@[0].name) == Some("udp"@)
            &&& ps@[0].container_port == nw.spec.udp_unicast_port as i32
            &&& ps@[0].host_port == Some(nw.spec.udp_unicast_port as i32)
            &&& opt_view(ps@[0].protocol) == Some("UDP"@)
            &&& forall|j: int| 1 <= j < ps@.len() ==> opt_view(#[trigger] ps@[j].protocol) == Some("TCP"@)
        }))),
{
    let pod = ds.spec->0.template.spec->0;
    let ps = pod.containers@[0].ports->0;
    let v = ps@.map_values(|x: ContainerPort| port_view(x));
    assert(v == ndnd_ports(nw));
    assert(v[0] == port_view(ps@[0]));
    assert forall|j: int| 1 <= j < ps@.len() implies opt_view(#[trigger] ps@[j].protocol) == Some(
        "TCP"@,
    ) by {
        assert(v[j] == port_view(ps@[j]));
    }
}

} // verus!
