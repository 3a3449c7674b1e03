//! The `Network` resource: its spec, the paths its routers use on the node
//! and in their containers, and the objects the operator owns for it.
use vstd::prelude::*;

use crate::cert_controller::types::{Certificate, CertificateSpec, IssuerRef};
use crate::clock::Span;
use crate::conditions::{is_condition, list_view, upsert_condition_bool, upserted, Condition};
use crate::network_controller::router::{CertificateRef, Router, RouterSpec};
use crate::objects::{
    controller_owner_ref, is_controller_ref, map_or_empty, name_any_spec, opt_view, ObjectMeta,
    OwnerReference, StringMap,
};
use crate::text::{join2, join3, lit, same_text};
use crate::Error;

verus! {

/// Finalizer that the network controller puts on networks.
pub const NETWORK_FINALIZER: &'static str = "network.named-data.net/finalizer";

/// Name under which the network controller applies its changes.
pub const NETWORK_MANAGER_NAME: &'static str = "network-controller";

/// Label that ties routers and certificates to their network.
pub const NETWORK_LABEL_KEY: &'static str = "network.named-data.net/name";

/// Label that ties the DaemonSet, its pods and the face Services to their
/// network.
pub const DS_LABEL_KEY: &'static str = "network.named-data.net/managed-by";

/// Where the configuration of `ndnd` is mounted in its containers.
pub const CONTAINER_CONFIG_DIR: &'static str = "/etc/ndnd";

/// Where the socket of `ndnd` is mounted in its containers.
pub const CONTAINER_SOCKET_DIR: &'static str = "/run/ndnd";

/// Where the keys of a router are mounted in its containers.
pub const CONTAINER_KEYS_DIR: &'static str = "/etc/ndn/keys";

/// The node directory under which each network keeps its configuration, in
/// `<namespace>/<name>`.
pub const HOST_CONFIG_ROOT_DIR: &'static str = "/etc/ndnd";

/// The node directory under which each network keeps its socket.
pub const HOST_SOCKET_ROOT_DIR: &'static str = "/run/ndnd";

/// The node directory under which each network keeps its keys.
pub const HOST_KEYS_ROOT_DIR: &'static str = "/etc/ndn/keys";

/// The group and version of the operator's resources.
pub const NETWORK_API_VERSION: &'static str = "named-data.net/v1alpha1";

/// The IP family of the UDP face a router publishes to the others.
#[derive(Debug, Clone, Copy, PartialEq, Eq, Structural)]
pub enum IpFamily {
    IPv4,
    IPv6,
}

/// The family used when the spec names none.
pub fn default_ip_family() -> (r: IpFamily)
    ensures
        r == IpFamily::IPv4,
{
    IpFamily::IPv4
}

impl Default for IpFamily {
    fn default() -> (r: IpFamily)
        ensures
            r == IpFamily::IPv4,
    {
        IpFamily::IPv4
    }
}

/// The Service type used when a face template names none.
pub fn default_service_type() -> (r: String)
    ensures
        r@ == "LoadBalancer"@,
{
    lit("LoadBalancer")
}

/// The spec of the Service that exposes a face.
#[derive(Debug)]
pub struct FaceServiceTemplateSpec {
    /// The Service type (`LoadBalancer` by default).
    pub type_: String,
}

impl Default for FaceServiceTemplateSpec {
    fn default() -> (r: FaceServiceTemplateSpec)
        ensures
            r.type_@ == "LoadBalancer"@,
    {
        FaceServiceTemplateSpec { type_: default_service_type() }
    }
}

/// What the Service that exposes a face is made from: labels and annotations
/// to add, and its spec.
#[derive(Debug)]
pub struct FaceServiceTemplate {
    pub metadata: ObjectMeta,
    pub spec: FaceServiceTemplateSpec,
}

impl Default for FaceServiceTemplate {
    fn default() -> (r: FaceServiceTemplate)
        ensures
            r.metadata.labels is None,
            r.metadata.annotations is None,
            r.metadata.name is None,
            r.spec.type_@ == "LoadBalancer"@,
    {
        FaceServiceTemplate { metadata: ObjectMeta::empty(), spec: FaceServiceTemplateSpec::default() }
    }
}

/// A public TCP face.
#[derive(Debug)]
pub struct NetworkTcpFaceSpec {
    pub port: u16,
    pub service_template: FaceServiceTemplate,
}

impl Default for NetworkTcpFaceSpec {
    fn default() -> (r: NetworkTcpFaceSpec)
        ensures
            r.port == 6363,
            r.service_template.metadata.labels is None,
            r.service_template.metadata.annotations is None,
            r.service_template.spec.type_@ == "LoadBalancer"@,
    {
        NetworkTcpFaceSpec { port: 6363, service_template: FaceServiceTemplate::default() }
    }
}

/// A public WebSocket face.
#[derive(Debug)]
pub struct NetworkWebSocketFaceSpec {
    pub port: u16,
    pub service_template: FaceServiceTemplate,
}

impl Default for NetworkWebSocketFaceSpec {
    fn default() -> (r: NetworkWebSocketFaceSpec)
        ensures
            r.port == 9696,
            r.service_template.metadata.labels is None,
            r.service_template.metadata.annotations is None,
            r.service_template.spec.type_@ == "LoadBalancer"@,
    {
        NetworkWebSocketFaceSpec { port: 9696, service_template: FaceServiceTemplate::default() }
    }
}

/// The public faces of the routers of a network.
#[derive(Debug)]
pub struct FacesSpec {
    pub tcp: Option<NetworkTcpFaceSpec>,
    pub websocket: Option<NetworkWebSocketFaceSpec>,
}

impl Default for FacesSpec {
    fn default() -> (r: FacesSpec)
        ensures
            r.tcp is None,
            r.websocket is None,
    {
        FacesSpec { tcp: None, websocket: None }
    }
}

/// The image of `ndnd`.
#[derive(Debug)]
pub struct NdndSpec {
    pub image: String,
}

impl Default for NdndSpec {
    fn default() -> (r: NdndSpec)
        ensures
            r.image@ == "ghcr.io/named-data/ndnd:latest"@,
    {
        NdndSpec { image: lit("ghcr.io/named-data/ndnd:latest") }
    }
}

/// The image of the operator, which runs the init and watch containers.
#[derive(Debug)]
pub struct OperatorSpec {
    pub image: String,
}

impl Default for OperatorSpec {
    fn default() -> (r: OperatorSpec)
        ensures
            r.image@ == "ghcr.io/ndn-operator/ndn-operator:latest"@,
    {
        OperatorSpec { image: lit("ghcr.io/ndn-operator/ndn-operator:latest") }
    }
}

/// A certificate the routers of a network trust.
#[derive(Debug)]
pub struct TrustAnchorRef {
    /// The name of the certificate resource, e.g. "router-cert".
    pub name: String,
    /// "Certificate" or "ExternalCertificate".
    pub kind: String,
    /// Its namespace; the network's own when absent.
    pub namespace: Option<String>,
}

/// What a `Network` asks for.
#[derive(Debug)]
pub struct NetworkSpec {
    /// The application prefix injected into attached workloads, e.g.
    /// "/example/network".
    pub prefix: String,
    /// The routing domain of the network's routers; the prefix when absent.
    pub dv_network: Option<String>,
    /// The UDP port of the routers; unique across the networks of a cluster.
    pub udp_unicast_port: u16,
    /// The IP family of the UDP face each router publishes.
    pub ip_family: IpFamily,
    /// Where the routers may run.
    pub node_selector: Option<StringMap>,
    /// Settings for the router pods' template, by name; kept with the spec,
    /// not read by the operator.
    pub template: Option<StringMap>,
    /// The image of `ndnd`.
    pub ndnd: NdndSpec,
    /// The image of the operator; its own when absent.
    pub operator: Option<OperatorSpec>,
    /// Who signs the routers' certificates; an insecure network has none.
    pub router_cert_issuer: Option<IssuerRef>,
    /// The certificates the routers trust.
    pub trust_anchors: Option<Vec<TrustAnchorRef>>,
    /// The public faces of the routers.
    pub faces: Option<FacesSpec>,
}

/// The spec a network has when nothing is asked for: an empty prefix, port
/// 0, IPv4, the default `ndnd` image and nothing else.
pub open spec fn default_network_spec(s: NetworkSpec) -> bool {
    &&& s.prefix@ == Seq::<char>::empty()
    &&& s.dv_network is None
    &&& s.udp_unicast_port == 0
    &&& s.ip_family == IpFamily::IPv4
    &&& s.node_selector is None
    &&& s.template is None
    &&& s.ndnd.image@ == "ghcr.io/named-data/ndnd:latest"@
    &&& s.operator is None
    &&& s.router_cert_issuer is None
    &&& s.trust_anchors is None
    &&& s.faces is None
}

impl Default for NetworkSpec {
    fn default() -> (r: NetworkSpec)
        ensures
            default_network_spec(r),
    {
        NetworkSpec {
            prefix: String::new(),
            dv_network: None,
            udp_unicast_port: 0,
            ip_family: IpFamily::default(),
            node_selector: None,
            template: None,
            ndnd: NdndSpec::default(),
            operator: None,
            router_cert_issuer: None,
            trust_anchors: None,
            faces: None,
        }
    }
}

/// The observed state of a `Network`.
#[derive(Debug)]
pub struct NetworkStatus {
    /// Whether the DaemonSet was applied.
    pub ds_created: Option<bool>,
    /// Ready (DSCreated and RBACReady), DSCreated, RBACReady.
    pub conditions: Option<Vec<Condition>>,
}

/// A Named Data Networking network in the cluster.
#[derive(Debug)]
pub struct Network {
    pub metadata: ObjectMeta,
    pub spec: NetworkSpec,
    pub status: Option<NetworkStatus>,
}

/// A rule of a Role.
#[derive(Debug)]
pub struct PolicyRule {
    pub api_groups: Vec<String>,
    pub resources: Vec<String>,
    pub verbs: Vec<String>,
}

/// A ServiceAccount.
#[derive(Debug)]
pub struct ServiceAccount {
    pub metadata: ObjectMeta,
    pub automount_service_account_token: Option<bool>,
}

/// A Role.
#[derive(Debug)]
pub struct Role {
    pub metadata: ObjectMeta,
    pub rules: Vec<PolicyRule>,
}

/// What a RoleBinding grants.
#[derive(Debug)]
pub struct RoleRef {
    pub api_group: String,
    pub kind: String,
    pub name: String,
}

/// Who a RoleBinding grants it to.
#[derive(Debug)]
pub struct Subject {
    pub kind: String,
    pub name: String,
    pub namespace: Option<String>,
}

/// A RoleBinding.
#[derive(Debug)]
pub struct RoleBinding {
    pub metadata: ObjectMeta,
    pub role_ref: RoleRef,
    pub subjects: Vec<Subject>,
}

/// The routing domain of a network: `dvNetwork`, or the prefix.
pub open spec fn dv_network_of(spec: NetworkSpec) -> Seq<char> {
    match spec.dv_network {
        Some(d) => d@,
        None => spec.prefix@,
    }
}

/// The namespace of a network, when it has one.
pub open spec fn ns_of(n: Network) -> Seq<char> {
    n.metadata.namespace->0@
}

/// The network's name.
pub open spec fn nw_name(n: Network) -> Seq<char> {
    name_any_spec(n.metadata)
}

/// An owner reference that makes the network the controller of an object.
pub open spec fn owned_by(r: OwnerReference, n: Network) -> bool {
    is_controller_ref(
        r,
        NETWORK_API_VERSION@,
        "Network"@,
        n.metadata.name->0@,
        n.metadata.uid->0@,
    )
}

/// Whether the network can own objects: it has a name and a uid.
pub open spec fn can_own(n: Network) -> bool {
    n.metadata.name is Some && n.metadata.uid is Some
}

/// The labels of an object the network owns: its own, with the network label
/// set to its name.
pub open spec fn owned_labels(n: Network) -> Map<Seq<char>, Seq<char>> {
    map_or_empty(n.metadata.labels).insert(NETWORK_LABEL_KEY@, nw_name(n))
}

/// The metadata of an object named after the network and owned by it.
pub open spec fn owned_named_meta(m: ObjectMeta, n: Network) -> bool {
    &&& m.name matches Some(x) && x@ == nw_name(n)
    &&& m.owner_references matches Some(v) && v@.len() == 1 && owned_by(v@[0], n)
    &&& m.namespace is None
    &&& m.labels is None
    &&& m.annotations is None
}

impl Network {
    /// A network with the given name and spec, and nothing else.
    pub fn new(name: &str, spec: NetworkSpec) -> (r: Network)
        ensures
            r.metadata.name matches Some(n) && n@ == name@,
            r.metadata.namespace is None,
            r.metadata.uid is None,
            r.metadata.generation is None,
            r.metadata.labels is None,
            r.metadata.annotations is None,
            r.metadata.owner_references is None,
            r.spec == spec,
            r.status is None,
    {
        Network { metadata: ObjectMeta::named(name), spec, status: None }
    }

    /// The network an owner reference points to, as far as the reference
    /// tells: its name, with the default spec. The reference must name a
    /// `Network` of `named-data.net/v1alpha1` by a non-empty name.
    pub fn try_from(owner_ref: OwnerReference) -> (r: Result<Network, String>)
        ensures
            owner_ref.kind@ != "Network"@ ==> (r matches Err(m) && m@
                == "Expected kind 'Network', found '"@ + owner_ref.kind@ + "'"@),
            owner_ref.kind@ == "Network"@ && owner_ref.api_version@ != NETWORK_API_VERSION@ ==> (
            r matches Err(m) && m@ == "Expected apiVersion 'named-data.net/v1alpha1', found '"@
                + owner_ref.api_version@ + "'"@),
            owner_ref.kind@ == "Network"@ && owner_ref.api_version@ == NETWORK_API_VERSION@
                && owner_ref.name@.len() == 0 ==> (r matches Err(m) && m@
                == "OwnerReference name is empty"@),
            r is Ok <==> (owner_ref.kind@ == "Network"@ && owner_ref.api_version@
                == NETWORK_API_VERSION@ && owner_ref.name@.len() > 0),
            r matches Ok(n) ==> {
                &&& n.metadata.name == Some(owner_ref.name)
                &&& n.metadata.generate_name is None
                &&& n.metadata.namespace is None
                &&& n.metadata.uid is None
                &&& n.metadata.generation is None
                &&& n.metadata.labels is None
                &&& n.metadata.annotations is None
                &&& n.metadata.owner_references is None
                &&& default_network_spec(n.spec)
                &&& n.status is None
            },
    {
        if !same_text(owner_ref.kind.as_str(), "Network") {
            return Err(join3("Expected kind 'Network', found '", owner_ref.kind.as_str(), "'"));
        }
        if !same_text(owner_ref.api_version.as_str(), NETWORK_API_VERSION) {
            return Err(
                join3(
                    "Expected apiVersion 'named-data.net/v1alpha1', found '",
                    owner_ref.api_version.as_str(),
                    "'",
                ),
            );
        }
        proof {
            reveal_strlit("");
        }
        if same_text(owner_ref.name.as_str(), "") {
            return Err(lit("OwnerReference name is empty"));
        }
        assert(owner_ref.name@.len() > 0) by {
            if owner_ref.name@.len() == 0 {
                assert(owner_ref.name@ =~= ""@);
            }
        }
        let mut metadata = ObjectMeta::empty();
        metadata.name = Some(owner_ref.name);
        Ok(Network { metadata, spec: NetworkSpec::default(), status: None })
    }

    /// The routing domain of the network's routers: `dvNetwork`, or the
    /// application prefix when it is absent.
    pub fn dv_network(&self) -> (r: String)
        ensures
            r@ == dv_network_of(self.spec),
    {
        match &self.spec.dv_network {
            Some(d) => d.clone(),
            None => self.spec.prefix.clone(),
        }
    }

    fn socket_file_name(&self) -> (r: String)
        ensures
            r@ == nw_name(*self) + ".sock"@,
    {
        let n = self.metadata.name_any();
        join2(n.as_str(), ".sock")
    }

    fn config_file_name(&self) -> (r: String)
        ensures
            r@ == nw_name(*self) + ".yml"@,
    {
        let n = self.metadata.name_any();
        join2(n.as_str(), ".yml")
    }

    /// The socket of `ndnd` in its containers: `/run/ndnd/<name>.sock`.
    pub fn container_socket_path(&self) -> (r: String)
        ensures
            r@ == "/run/ndnd/"@ + nw_name(*self) + ".sock"@,
    {
        let f = self.socket_file_name();
        let r = join3(CONTAINER_SOCKET_DIR, "/", f.as_str());
        proof {
            reveal_strlit("/run/ndnd");
            reveal_strlit("/");
            reveal_strlit("/run/ndnd/");
            assert(r@ =~= "/run/ndnd/"@ + nw_name(*self) + ".sock"@);
        }
        r
    }

    /// The configuration of `ndnd` in its containers: `/etc/ndnd/<name>.yml`.
    pub fn container_config_path(&self) -> (r: String)
        ensures
            r@ == "/etc/ndnd/"@ + nw_name(*self) + ".yml"@,
    {
        let f = self.config_file_name();
        let r = join3(CONTAINER_CONFIG_DIR, "/", f.as_str());
        proof {
            reveal_strlit("/etc/ndnd");
            reveal_strlit("/");
            reveal_strlit("/etc/ndnd/");
            assert(r@ =~= "/etc/ndnd/"@ + nw_name(*self) + ".yml"@);
        }
        r
    }

    /// The keys in the router's containers: `/etc/ndn/keys`.
    pub fn container_keys_dir(&self) -> (r: String)
        ensures
            r@ == "/etc/ndn/keys"@,
    {
        lit(CONTAINER_KEYS_DIR)
    }

    /// `<root>/<namespace>/<name>` on the node.
    fn host_dir(&self, root: &str) -> (r: String)
        requires
            self.metadata.namespace is Some,
        ensures
            r@ == root@ + "/"@ + ns_of(*self) + "/"@ + nw_name(*self),
    {
        let ns = match &self.metadata.namespace {
            Some(ns) => ns.clone(),
            None => String::new(),
        };
        let n = self.metadata.name_any();
        let a = join3(root, "/", ns.as_str());
        join3(a.as_str(), "/", n.as_str())
    }

    /// The directory of the socket on the node: `/run/ndnd/<namespace>/<name>`.
    pub fn host_socket_dir(&self) -> (r: String)
        requires
            self.metadata.namespace is Some,
        ensures
            r@ == "/run/ndnd/"@ + ns_of(*self) + "/"@ + nw_name(*self),
    {
        let r = self.host_dir(HOST_SOCKET_ROOT_DIR);
        proof {
            reveal_strlit("/run/ndnd");
            reveal_strlit("/");
            reveal_strlit("/run/ndnd/");
            assert(r@ =~= "/run/ndnd/"@ + ns_of(*self) + "/"@ + nw_name(*self));
        }
        r
    }

    /// The socket on the node: `/run/ndnd/<namespace>/<name>/<name>.sock`.
    pub fn host_socket_path(&self) -> (r: String)
        requires
            self.metadata.namespace is Some,
        ensures
            r@ == "/run/ndnd/"@ + ns_of(*self) + "/"@ + nw_name(*self) + "/"@ + nw_name(*self)
                + ".sock"@,
    {
        let d = self.host_socket_dir();
        let f = self.socket_file_name();
        let r = join3(d.as_str(), "/", f.as_str());
        assert(r@ =~= "/run/ndnd/"@ + ns_of(*self) + "/"@ + nw_name(*self) + "/"@ + nw_name(*self)
            + ".sock"@);
        r
    }

    /// The directory of the configuration on the node:
    /// `/etc/ndnd/<namespace>/<name>`.
    pub fn host_config_dir(&self) -> (r: String)
        requires
            self.metadata.namespace is Some,
        ensures
            r@ == "/etc/ndnd/"@ + ns_of(*self) + "/"@ + nw_name(*self),
    {
        let r = self.host_dir(HOST_CONFIG_ROOT_DIR);
        proof {
            reveal_strlit("/etc/ndnd");
            reveal_strlit("/");
            reveal_strlit("/etc/ndnd/");
            assert(r@ =~= "/etc/ndnd/"@ + ns_of(*self) + "/"@ + nw_name(*self));
        }
        r
    }

    /// The configuration on the node: `/etc/ndnd/<namespace>/<name>/<name>.yml`.
    pub fn host_config_path(&self) -> (r: String)
        requires
            self.metadata.namespace is Some,
        ensures
            r@ == "/etc/ndnd/"@ + ns_of(*self) + "/"@ + nw_name(*self) + "/"@ + nw_name(*self)
                + ".yml"@,
    {
        let d = self.host_config_dir();
        let f = self.config_file_name();
        let r = join3(d.as_str(), "/", f.as_str());
        assert(r@ =~= "/etc/ndnd/"@ + ns_of(*self) + "/"@ + nw_name(*self) + "/"@ + nw_name(*self)
            + ".yml"@);
        r
    }

    /// The directory of the keys on the node: `/etc/ndn/keys/<namespace>/<name>`.
    pub fn host_keys_dir(&self) -> (r: String)
        requires
            self.metadata.namespace is Some,
        ensures
            r@ == "/etc/ndn/keys/"@ + ns_of(*self) + "/"@ + nw_name(*self),
    {
        let r = self.host_dir(HOST_KEYS_ROOT_DIR);
        proof {
            reveal_strlit("/etc/ndn/keys");
            reveal_strlit("/");
            reveal_strlit("/etc/ndn/keys/");
            assert(r@ =~= "/etc/ndn/keys/"@ + ns_of(*self) + "/"@ + nw_name(*self));
        }
        r
    }
}

/// A rule with these API groups, resources and verbs.
pub open spec fn rule_is(
    r: PolicyRule,
    groups: Seq<Seq<char>>,
    resources: Seq<Seq<char>>,
    verbs: Seq<Seq<char>>,
) -> bool {
    &&& r.api_groups@.map_values(|x: String| x@) == groups
    &&& r.resources@.map_values(|x: String| x@) == resources
    &&& r.verbs@.map_values(|x: String| x@) == verbs
}

/// The rules of the Role of a network: what its routers' pods may read and
/// patch.
pub open spec fn network_rules(rules: Seq<PolicyRule>) -> bool {
    &&& rules.len() == 5
    &&& rule_is(
        rules[0],
        seq!["named-data.net"@],
        seq!["routers/status"@],
        seq!["get"@, "patch"@],
    )
    &&& rule_is(
        rules[1],
        seq!["named-data.net"@],
        seq!["routers"@],
        seq!["get"@, "list"@, "watch"@],
    )
    &&& rule_is(
        rules[2],
        seq!["named-data.net"@],
        seq!["certificates"@, "externalcertificates"@],
        seq!["list"@, "watch"@],
    )
    &&& rule_is(
        rules[3],
        seq!["named-data.net"@],
        seq!["certificates/status"@, "externalcertificates/status"@],
        seq!["get"@],
    )
    &&& rule_is(rules[4], seq![""@], seq!["secrets"@], seq!["get"@])
}

fn strings1(a: &str) -> (r: Vec<String>)
    ensures
        r@.map_values(|x: String| x@) == seq![a@],
{
    let r = vec![lit(a)];
    assert(r@.map_values(|x: String| x@) =~= seq![a@]);
    r
}

fn strings2(a: &str, b: &str) -> (r: Vec<String>)
    ensures
        r@.map_values(|x: String| x@) == seq![a@, b@],
{
    let r = vec![lit(a), lit(b)];
    assert(r@.map_values(|x: String| x@) =~= seq![a@, b@]);
    r
}

fn strings3(a: &str, b: &str, c: &str) -> (r: Vec<String>)
    ensures
        r@.map_values(|x: String| x@) == seq![a@, b@, c@],
{
    let r = vec![lit(a), lit(b), lit(c)];
    assert(r@.map_values(|x: String| x@) =~= seq![a@, b@, c@]);
    r
}

/// Where a trust anchor is looked up.
#[derive(Debug, Clone, Copy, PartialEq, Eq, Structural)]
pub enum AnchorKind {
    Certificate,
    ExternalCertificate,
}

impl TrustAnchorRef {
    /// The kind of resource the anchor names; only `Certificate` and
    /// `ExternalCertificate` are supported.
    pub fn anchor_kind(&self) -> (r: Result<AnchorKind, Error>)
        ensures
            self.kind@ == "Certificate"@ ==> r == Ok::<AnchorKind, Error>(AnchorKind::Certificate),
            self.kind@ == "ExternalCertificate"@ ==> r == Ok::<AnchorKind, Error>(
                AnchorKind::ExternalCertificate,
            ),
            self.kind@ != "Certificate"@ && self.kind@ != "ExternalCertificate"@ ==> (r matches Err(
                Error::OtherError(m),
            ) && m@ == "Unsupported trust anchor kind: "@ + self.kind@),
    {
        proof {
            reveal_strlit("Certificate");
            reveal_strlit("ExternalCertificate");
            assert("Certificate"@.len() != "ExternalCertificate"@.len());
        }
        if crate::text::same_text(self.kind.as_str(), "Certificate") {
            Ok(AnchorKind::Certificate)
        } else if crate::text::same_text(self.kind.as_str(), "ExternalCertificate") {
            Ok(AnchorKind::ExternalCertificate)
        } else {
            Err(Error::OtherError(join2("Unsupported trust anchor kind: ", self.kind.as_str())))
        }
    }

    /// The namespace the anchor is looked up in: its own, or `default_ns`.
    pub fn anchor_namespace(&self, default_ns: &str) -> (r: String)
        ensures
            r@ == match self.namespace {
                Some(n) => n@,
                None => default_ns@,
            },
    {
        match &self.namespace {
            Some(n) => n.clone(),
            None => lit(default_ns),
        }
    }

    /// The certificate name an anchor resolves to, read from the status of
    /// the resource it names.
    pub fn cert_name_from_status(kind: AnchorKind, name: Option<String>) -> (r: Result<String, Error>)
        ensures
            name matches Some(n) ==> r == Ok::<String, Error>(n),
            name is None ==> (r matches Err(Error::OtherError(m)) && m@ == match kind {
                AnchorKind::Certificate => "Certificate name not found in status"@,
                AnchorKind::ExternalCertificate => "ExternalCertificate name not found in status"@,
            }),
    {
        match name {
            Some(n) => Ok(n),
            None => match kind {
                AnchorKind::Certificate => Err(
                    Error::OtherError(lit("Certificate name not found in status")),
                ),
                AnchorKind::ExternalCertificate => Err(
                    Error::OtherError(lit("ExternalCertificate name not found in status")),
                ),
            },
        }
    }
}

/// The Services of a network's public faces, as `face_services` builds them.
pub open spec fn face_services_built(r: Seq<Service>, nw: Network) -> bool {
    let tcp = match nw.spec.faces {
        Some(f) => f.tcp,
        None => None,
    };
    let ws = match nw.spec.faces {
        Some(f) => f.websocket,
        None => None,
    };
    let n_tcp: int = if tcp is Some {
        1
    } else {
        0
    };
    &&& r.len() == n_tcp + if ws is Some {
        1int
    } else {
        0
    }
    &&& tcp matches Some(t) ==> face_service(
        r[0],
        nw,
        "-tcp"@,
        t.service_template,
        "tcp"@,
        t.port,
    ) && crate::objects::opt_map_view(r[0].metadata.annotations)
        == crate::objects::opt_map_view(t.service_template.metadata.annotations)
    &&& ws matches Some(w) ==> face_service(
        r[n_tcp],
        nw,
        "-ws"@,
        w.service_template,
        "websocket"@,
        w.port,
    ) && r[n_tcp].metadata.annotations is None
}

/// The status of a network once everything is applied: the DaemonSet
/// created, and RBACReady, DSCreated and Ready, all true, at generation `gen`.
pub open spec fn status_applied(r: NetworkStatus, gen: i64) -> bool {
    &&& r.ds_created == Some(true)
    &&& exists|c1: Condition, c2: Condition, c3: Condition|
        applied_conditions(gen, c1, c2, c3) && list_view(r.conditions) == upserted(
            upserted(upserted(None, c1), c2),
            c3,
        )
}

/// The `Router` of a router pod `name` on the node `node_name`, as the
/// network owns it.
pub open spec fn owned_router(
    rt: Router,
    nw: Network,
    name: Seq<char>,
    node_name: Seq<char>,
    cert: Option<Certificate>,
) -> bool {
    &&& rt.metadata.name matches Some(n) && n@ == name
    &&& rt.metadata.namespace == nw.metadata.namespace
    &&& rt.metadata.owner_references matches Some(v) && v@.len() == 1 && owned_by(
        v@[0],
        nw,
    )
    &&& rt.metadata.labels matches Some(l) && l@ == owned_labels(nw)
    &&& rt.metadata.annotations matches Some(a) && a@ == map_or_empty(
        nw.metadata.annotations,
    )
    &&& rt.spec.prefix@ == nw.spec.prefix@ + "/"@ + name
    &&& rt.spec.node_name@ == node_name
    &&& match cert {
        Some(c) => rt.spec.cert matches Some(cr) && cr.name@ == match c.metadata.name {
            Some(n) => n@,
            None => Seq::empty(),
        } && cr.namespace == c.metadata.namespace,
        None => rt.spec.cert is None,
    }
    &&& rt.status is None
}

/// The `Certificate` of the router `router_name`, named `name`, as the
/// network owns it.
pub open spec fn owned_certificate(
    c: Certificate,
    nw: Network,
    name: Seq<char>,
    router_name: Seq<char>,
    cert_issuer: IssuerRef,
) -> bool {
    &&& c.metadata.name matches Some(n) && n@ == name
    &&& c.metadata.namespace == nw.metadata.namespace
    &&& c.metadata.owner_references matches Some(v) && v@.len() == 1 && owned_by(
        v@[0],
        nw,
    )
    &&& c.metadata.labels matches Some(l) && l@ == owned_labels(nw)
    &&& c.metadata.annotations matches Some(a) && a@ == map_or_empty(
        nw.metadata.annotations,
    )
    &&& c.spec.prefix@ == nw.spec.prefix@ + "/"@ + router_name + "/32=DV"@
    &&& c.spec.issuer == cert_issuer
    &&& c.spec.renew_interval == Some(Span { secs: 86400, nanos: 0 })
    &&& c.spec.renew_before == Some(Span { secs: 3600, nanos: 0 })
    &&& c.status is None
}

/// The three conditions a network shows once everything is applied:
/// RBACReady, DSCreated and Ready, all true.
pub open spec fn applied_conditions(gen: i64, c1: Condition, c2: Condition, c3: Condition) -> bool {
    &&& is_condition(
        c1,
        "RBACReady"@,
        true,
        "Applied"@,
        "ServiceAccount, Role, RoleBinding applied"@,
        gen,
        c1.last_transition_time,
    )
    &&& is_condition(
        c2,
        "DSCreated"@,
        true,
        "Created"@,
        "DaemonSet applied"@,
        gen,
        c2.last_transition_time,
    )
    &&& is_condition(c3, "Ready"@, true, "Ready"@, Seq::empty(), gen, c3.last_transition_time)
}

impl Network {
    /// The owner reference that makes the network the controller of an
    /// object, when the network has a name and a uid.
    pub fn owner_ref(&self) -> (r: Option<OwnerReference>)
        ensures
            can_own(*self) ==> (r matches Some(o) && owned_by(o, *self)),
            !can_own(*self) ==> r is None,
    {
        controller_owner_ref(&self.metadata, NETWORK_API_VERSION, "Network")
    }

    fn owned_meta(&self) -> (m: ObjectMeta)
        requires
            can_own(*self),
        ensures
            owned_named_meta(m, *self),
            m.uid is None,
            m.generate_name is None,
            m.generation is None,
    {
        let oref = match self.owner_ref() {
            Some(o) => o,
            None => {
                proof {
                    assert(false);
                }
                OwnerReference {
                    api_version: String::new(),
                    kind: String::new(),
                    name: String::new(),
                    uid: String::new(),
                    controller: None,
                    block_owner_deletion: None,
                }
            },
        };
        let mut m = ObjectMeta::empty();
        m.name = Some(self.metadata.name_any());
        m.owner_references = Some(vec![oref]);
        m
    }

    /// The ServiceAccount of the network's router pods, named after it.
    pub fn create_owned_sa(&self) -> (r: ServiceAccount)
        requires
            can_own(*self),
        ensures
            owned_named_meta(r.metadata, *self),
            r.automount_service_account_token == Some(true),
    {
        ServiceAccount { metadata: self.owned_meta(), automount_service_account_token: Some(true) }
    }

    /// The Role of the network's router pods: they may read and patch router
    /// status, watch routers and certificates, read certificate status and
    /// read Secrets.
    pub fn create_owned_role(&self) -> (r: Role)
        requires
            can_own(*self),
        ensures
            owned_named_meta(r.metadata, *self),
            network_rules(r.rules@),
    {
        let rules = vec![
            PolicyRule {
                api_groups: strings1("named-data.net"),
                resources: strings1("routers/status"),
                verbs: strings2("get", "patch"),
            },
            PolicyRule {
                api_groups: strings1("named-data.net"),
                resources: strings1("routers"),
                verbs: strings3("get", "list", "watch"),
            },
            PolicyRule {
                api_groups: strings1("named-data.net"),
                resources: strings2("certificates", "externalcertificates"),
                verbs: strings2("list", "watch"),
            },
            PolicyRule {
                api_groups: strings1("named-data.net"),
                resources: strings2("certificates/status", "externalcertificates/status"),
                verbs: strings1("get"),
            },
            PolicyRule {
                api_groups: strings1(""),
                resources: strings1("secrets"),
                verbs: strings1("get"),
            },
        ];
        Role { metadata: self.owned_meta(), rules }
    }

    /// The RoleBinding that grants the Role `role_name` to the ServiceAccount
    /// `sa_name` of the network's namespace.
    pub fn create_owned_role_binding(&self, sa_name: String, role_name: String) -> (r: RoleBinding)
        requires
            can_own(*self),
            self.metadata.namespace is Some,
        ensures
            owned_named_meta(r.metadata, *self),
            r.role_ref.api_group@ == "rbac.authorization.k8s.io"@,
            r.role_ref.kind@ == "Role"@,
            r.role_ref.name == role_name,
            r.subjects@.len() == 1,
            r.subjects@[0].kind@ == "ServiceAccount"@,
            r.subjects@[0].name == sa_name,
            r.subjects@[0].namespace == self.metadata.namespace,
    {
        let ns = crate::objects::copy_opt(&self.metadata.namespace);
        RoleBinding {
            metadata: self.owned_meta(),
            role_ref: RoleRef {
                api_group: lit("rbac.authorization.k8s.io"),
                kind: lit("Role"),
                name: role_name,
            },
            subjects: vec![Subject { kind: lit("ServiceAccount"), name: sa_name, namespace: ns }],
        }
    }

    /// The labels of an object the network owns.
    fn owned_label_map(&self) -> (r: StringMap)
        ensures
            r@ == owned_labels(*self),
    {
        let mut labels = self.metadata.labels_or_empty();
        labels.insert(lit(NETWORK_LABEL_KEY), self.metadata.name_any());
        labels
    }

    /// The `Router` of a router pod `name` on the node `node_name`, owned by
    /// the network, with the network's labels (and the network label) and
    /// annotations, the prefix `<prefix>/<name>`, and the certificate given.
    pub fn create_owned_router(&self, name: &str, node_name: &str, cert: Option<Certificate>) -> (r:
        Result<Router, Error>)
        ensures
            !can_own(*self) ==> (r matches Err(Error::OtherError(m)) && m@
                == "Failed to create owner reference"@),
            can_own(*self) ==> (r matches Ok(rt) && owned_router(rt, *self, name@, node_name@, cert)),
    {
        let oref = match self.owner_ref() {
            Some(o) => o,
            None => {
                return Err(Error::OtherError(lit("Failed to create owner reference")));
            },
        };
        let mut meta = ObjectMeta::empty();
        meta.name = Some(lit(name));
        meta.namespace = crate::objects::copy_opt(&self.metadata.namespace);
        meta.owner_references = Some(vec![oref]);
        meta.labels = Some(self.owned_label_map());
        meta.annotations = Some(self.metadata.annotations_or_empty());
        let cert_ref = match cert {
            Some(c) => Some(
                CertificateRef {
                    name: match c.metadata.name {
                        Some(n) => n,
                        None => String::new(),
                    },
                    namespace: c.metadata.namespace,
                },
            ),
            None => None,
        };
        let spec = RouterSpec {
            prefix: join3(self.spec.prefix.as_str(), "/", name),
            node_name: lit(node_name),
            cert: cert_ref,
        };
        Ok(Router { metadata: meta, spec, status: None })
    }

    /// The `Certificate` of router `router_name`, named `name`, owned by the
    /// network, for the prefix `<prefix>/<router_name>/32=DV`, signed by
    /// `cert_issuer`, valid for a day and renewed an hour before it expires.
    pub fn create_owned_certificate(&self, name: &str, router_name: &str, cert_issuer: &IssuerRef) -> (r:
        Result<Certificate, Error>)
        ensures
            !can_own(*self) ==> (r matches Err(Error::OtherError(m)) && m@
                == "Failed to create owner reference for certificate"@),
            can_own(*self) ==> (r matches Ok(c) && owned_certificate(c, *self, name@, router_name@, *cert_issuer)),
    {
        let oref = match self.owner_ref() {
            Some(o) => o,
            None => {
                return Err(Error::OtherError(lit("Failed to create owner reference for certificate")));
            },
        };
        let mut meta = ObjectMeta::empty();
        meta.name = Some(lit(name));
        meta.namespace = crate::objects::copy_opt(&self.metadata.namespace);
        meta.owner_references = Some(vec![oref]);
        meta.labels = Some(self.owned_label_map());
        meta.annotations = Some(self.metadata.annotations_or_empty());
        let p = join3(self.spec.prefix.as_str(), "/", router_name);
        let prefix = join2(p.as_str(), "/32=DV");
        let spec = CertificateSpec {
            prefix,
            issuer: cert_issuer.duplicate(),
            renew_before: Some(Span::from_secs(3600)),
            renew_interval: Some(Span::from_secs(86400)),
        };
        Ok(Certificate { metadata: meta, spec, status: None })
    }

    /// The image of the init and watch containers: the spec's operator image,
    /// else the operator's own image (when it could be read), else the
    /// default operator image.
    pub fn daemonset_image(&self, own_image: Option<String>) -> (r: String)
        ensures
            r@ == match self.spec.operator {
                Some(op) => op.image@,
                None => match own_image {
                    Some(i) => i@,
                    None => "ghcr.io/ndn-operator/ndn-operator:latest"@,
                },
            },
    {
        match &self.spec.operator {
            Some(op) => op.image.clone(),
            None => match own_image {
                Some(i) => i,
                None => OperatorSpec::default().image,
            },
        }
    }

    /// The status of a network once its RBAC, DaemonSet and face Services are
    /// applied: the DaemonSet created, and RBACReady, DSCreated and Ready.
    pub fn status_after_apply(&self) -> (r: NetworkStatus)
        ensures
            status_applied(r, self.metadata.generation.unwrap_or(0)),
    {
        let gen = self.metadata.generation_or_zero();
        let mut conds: Option<Vec<Condition>> = None;
        let ghost l0 = list_view(conds);
        upsert_condition_bool(
            &mut conds,
            "RBACReady",
            true,
            "Applied",
            Some("ServiceAccount, Role, RoleBinding applied"),
            gen,
        );
        let ghost l1 = list_view(conds);
        upsert_condition_bool(&mut conds, "DSCreated", true, "Created", Some("DaemonSet applied"), gen);
        let ghost l2 = list_view(conds);
        upsert_condition_bool(&mut conds, "Ready", true, "Ready", None, gen);
        proof {
            let c1 = choose|c: Condition|
                #![trigger upserted(l0, c)]
                is_condition(
                    c,
                    "RBACReady"@,
                    true,
                    "Applied"@,
                    "ServiceAccount, Role, RoleBinding applied"@,
                    gen,
                    c.last_transition_time,
                ) && l1 == upserted(l0, c);
            let c2 = choose|c: Condition|
                #![trigger upserted(l1, c)]
                is_condition(
                    c,
                    "DSCreated"@,
                    true,
                    "Created"@,
                    "DaemonSet applied"@,
                    gen,
                    c.last_transition_time,
                ) && l2 == upserted(l1, c);
            let c3 = choose|c: Condition|
                #![trigger upserted(l2, c)]
                is_condition(c, "Ready"@, true, "Ready"@, Seq::<char>::empty(), gen, c.last_transition_time)
                    && list_view(conds) == upserted(l2, c);
            assert(applied_conditions(gen, c1, c2, c3));
        }
        NetworkStatus { ds_created: Some(true), conditions: conds }
    }
}

/// A port of a Service, forwarded to the same port of the pods.
#[derive(Debug)]
pub struct ServicePort {
    pub name: String,
    pub protocol: String,
    pub port: i32,
    pub target_port: i32,
}

/// A Service that exposes a public face of the routers.
#[derive(Debug)]
pub struct Service {
    pub metadata: ObjectMeta,
    /// The Service type, e.g. "LoadBalancer".
    pub type_: String,
    /// The pods it selects.
    pub selector: StringMap,
    pub ports: Vec<ServicePort>,
}

/// The label that selects the pods of the network's DaemonSet.
pub open spec fn ds_selector(n: Network) -> Map<Seq<char>, Seq<char>> {
    Map::<Seq<char>, Seq<char>>::empty().insert(DS_LABEL_KEY@, nw_name(n))
}

/// The Service of a public face: named `<name>-<suffix>`, owned by the
/// network, in its namespace, selecting its pods, labelled with the selector
/// and the template's labels, of the template's type, with one TCP port
/// `port_name` forwarded to the same port.
pub open spec fn face_service(
    s: Service,
    n: Network,
    suffix: Seq<char>,
    template: FaceServiceTemplate,
    port_name: Seq<char>,
    port: u16,
) -> bool {
    &&& s.metadata.name matches Some(x) && x@ == nw_name(n) + suffix
    &&& s.metadata.namespace == n.metadata.namespace
    &&& s.metadata.owner_references matches Some(v) && v@.len() == 1 && owned_by(v@[0], n)
    &&& s.metadata.labels matches Some(l) && l@ == ds_selector(n).union_prefer_right(
        map_or_empty(template.metadata.labels),
    )
    &&& s.type_ == template.spec.type_
    &&& s.selector@ == ds_selector(n)
    &&& s.ports@.len() == 1
    &&& s.ports@[0].name@ == port_name
    &&& s.ports@[0].protocol@ == "TCP"@
    &&& s.ports@[0].port == port as i32
    &&& s.ports@[0].target_port == port as i32
}

/// Whether a network asks for public faces.
pub open spec fn has_faces(n: Network) -> bool {
    n.spec.faces matches Some(f) && (f.tcp is Some || f.websocket is Some)
}

impl Network {
    fn face_service_of(
        &self,
        suffix: &str,
        template: &FaceServiceTemplate,
        port_name: &str,
        port: u16,
    ) -> (s: Service)
        requires
            can_own(*self),
        ensures
            face_service(s, *self, suffix@, *template, port_name@, port),
            s.metadata.annotations is None,
    {
        let oref = match self.owner_ref() {
            Some(o) => o,
            None => {
                proof {
                    assert(false);
                }
                OwnerReference {
                    api_version: String::new(),
                    kind: String::new(),
                    name: String::new(),
                    uid: String::new(),
                    controller: None,
                    block_owner_deletion: None,
                }
            },
        };
        let n = self.metadata.name_any();
        let selector = crate::objects::single_entry(DS_LABEL_KEY, n.as_str());
        let mut labels = selector.duplicate();
        match &template.metadata.labels {
            Some(extra) => labels.extend(extra),
            None => {
                assert(labels@.union_prefer_right(Map::<Seq<char>, Seq<char>>::empty()) =~= labels@);
            },
        }
        let mut meta = ObjectMeta::empty();
        meta.name = Some(join2(n.as_str(), suffix));
        meta.namespace = crate::objects::copy_opt(&self.metadata.namespace);
        meta.owner_references = Some(vec![oref]);
        meta.labels = Some(labels);
        let p: i32 = port as i32;
        Service {
            metadata: meta,
            type_: template.spec.type_.clone(),
            selector,
            ports: vec![ServicePort { name: lit(port_name), protocol: lit("TCP"), port: p, target_port: p }],
        }
    }

    /// The Services of the network's public faces: `<name>-tcp` for the TCP
    /// face (with its template's annotations) and `<name>-ws` for the
    /// WebSocket face, each when the spec asks for it.
    pub fn face_services(&self) -> (r: Vec<Service>)
        requires
            has_faces(*self) ==> can_own(*self),
        ensures
            face_services_built(r@, *self),
    {
        let mut out: Vec<Service> = Vec::new();
        match &self.spec.faces {
            None => {},
            Some(faces) => {
                match &faces.tcp {
                    Some(tcp) => {
                        let mut svc = self.face_service_of(
                            "-tcp",
                            &tcp.service_template,
                            "tcp",
                            tcp.port,
                        );
                        svc.metadata.annotations = crate::objects::copy_opt_map(
                            &tcp.service_template.metadata.annotations,
                        );
                        out.push(svc);
                    },
                    None => {},
                }
                match &faces.websocket {
                    Some(ws) => {
                        let svc = self.face_service_of(
                            "-ws",
                            &ws.service_template,
                            "websocket",
                            ws.port,
                        );
                        out.push(svc);
                    },
                    None => {},
                }
            },
        }
        out
    }
}

/// `p + x + "/" + y` determines `x` and `y` when `x` holds no '/'.
proof fn lemma_dir_split(p: Seq<char>, x1: Seq<char>, y1: Seq<char>, x2: Seq<char>, y2: Seq<char>)
    requires
        !x1.contains('/'),
        !x2.contains('/'),
        p + x1 + "/"@ + y1 == p + x2 + "/"@ + y2,
    ensures
        x1 == x2,
        y1 == y2,
{
    reveal_strlit("/");
    let s1 = p + x1 + "/"@ + y1;
    let s2 = p + x2 + "/"@ + y2;
    let n: int = p.len() as int;
    if x1.len() < x2.len() {
        assert(s1[n + x1.len()] == '/');
        assert(s2[n + x1.len()] == x2[x1.len() as int]);
        assert(x2.contains(x2[x1.len() as int]));
    } else if x2.len() < x1.len() {
        assert(s2[n + x2.len()] == '/');
        assert(s1[n + x2.len()] == x1[x2.len() as int]);
        assert(x1.contains(x1[x2.len() as int]));
    }
    assert(x1 =~= s1.subrange(n, n + x1.len()));
    assert(x2 =~= s2.subrange(n, n + x2.len()));
    assert(y1 =~= s1.subrange(n + x1.len() + 1, s1.len() as int));
    assert(y2 =~= s2.subrange(n + x2.len() + 1, s2.len() as int));
}

/// Each network has node directories of its own: two networks that differ in
/// namespace or name (namespaces hold no '/', as Kubernetes names do not)
/// get different config, socket and key directories on the node.
pub proof fn law_host_dirs_distinct(a: Network, b: Network)
    requires
        !ns_of(a).contains('/'),
        !ns_of(b).contains('/'),
        ns_of(a) != ns_of(b) || nw_name(a) != nw_name(b),
    ensures
        "/etc/ndnd/"@ + ns_of(a) + "/"@ + nw_name(a) != "/etc/ndnd/"@ + ns_of(b) + "/"@ + nw_name(b),
        "/run/ndnd/"@ + ns_of(a) + "/"@ + nw_name(a) != "/run/ndnd/"@ + ns_of(b) + "/"@ + nw_name(b),
        "/etc/ndn/keys/"@ + ns_of(a) + "/"@ + nw_name(a) != "/etc/ndn/keys/"@ + ns_of(b) + "/"@
            + nw_name(b),
{
    if "/etc/ndnd/"@ + ns_of(a) + "/"@ + nw_name(a) == "/etc/ndnd/"@ + ns_of(b) + "/"@ + nw_name(b) {
        lemma_dir_split("/etc/ndnd/"@, ns_of(a), nw_name(a), ns_of(b), nw_name(b));
    }
    if "/run/ndnd/"@ + ns_of(a) + "/"@ + nw_name(a) == "/run/ndnd/"@ + ns_of(b) + "/"@ + nw_name(b) {
        lemma_dir_split("/run/ndnd/"@, ns_of(a), nw_name(a), ns_of(b), nw_name(b));
    }
    if "/etc/ndn/keys/"@ + ns_of(a) + "/"@ + nw_name(a) == "/etc/ndn/keys/"@ + ns_of(b) + "/"@
        + nw_name(b) {
        lemma_dir_split("/etc/ndn/keys/"@, ns_of(a), nw_name(a), ns_of(b), nw_name(b));
    }
}

} // verus!
