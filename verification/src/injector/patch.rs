//! The patch the injector applies to a pod. Each list the patch rewrites
//! (the pod's volumes, and each container's mounts and environment) keeps the
//! pod's own items, except those an injected item replaces by name, and adds
//! the injected items at its end, as `retain` then `push` would.
use vstd::prelude::*;

use crate::injector::{CredentialMounts, ResolvedCertificate};
use crate::network_controller::network::{ns_of, nw_name, Network};
use crate::objects::{EnvVar, SecretProjection, Volume, VolumeMount, VolumeSource};
use crate::text::{decimal, decimal_text, join2, join3, lit, same_text};
use crate::Error;

verus! {

/// The volume of the `ndnd` socket.
pub const VOLUME_NAME: &'static str = "run-ndnd";

/// Where the `ndnd` socket is mounted in every container.
pub const MOUNT_PATH: &'static str = "/run/ndnd.sock";

/// The volume of the signing key and certificate.
pub const SIGNING_VOLUME_NAME: &'static str = "ndn-app-signing";

/// The volume of the trust anchors.
pub const TRUST_ANCHORS_VOLUME_NAME: &'static str = "ndn-app-trust-anchors";

/// The volume of the certificate chain.
pub const CERTIFICATE_CHAIN_VOLUME_NAME: &'static str = "ndn-app-certificate-chain";

/// Where the signing volume is mounted.
pub const SIGNING_MOUNT_PATH: &'static str = "/etc/ndn/app/signing";

/// Where the trust anchors are mounted.
pub const TRUST_ANCHORS_MOUNT_PATH: &'static str = "/etc/ndn/app/trust-anchors";

/// Where the certificate chain is mounted.
pub const CERTIFICATE_CHAIN_MOUNT_PATH: &'static str = "/etc/ndn/app/certificate-chain";

/// The signing key file.
pub const SIGNING_KEY_FILE: &'static str = "/etc/ndn/app/signing/ndn.key";

/// The signing certificate file.
pub const SIGNING_CERT_FILE: &'static str = "/etc/ndn/app/signing/ndn.cert";

/// What the injector reads of a container: its name and the names of its
/// mounts and environment variables.
#[derive(Debug)]
pub struct ContainerShape {
    pub name: String,
    pub volume_mounts: Vec<String>,
    pub env: Vec<String>,
}

/// What the injector reads of a pod spec: the names of its volumes and its
/// containers.
#[derive(Debug)]
pub struct PodShape {
    pub volumes: Vec<String>,
    pub containers: Vec<ContainerShape>,
}

/// An item of a rewritten list: the pod's own item at an index, or an
/// injected item; each with its name.
#[derive(Debug)]
pub enum Slot<T> {
    Keep(usize, String),
    Add(String, T),
}

/// The patch of one container.
#[derive(Debug)]
pub struct ContainerPatch {
    pub volume_mounts: Vec<Slot<VolumeMount>>,
    pub env: Vec<Slot<EnvVar>>,
}

/// The patch of a pod: its volumes, and one patch per container, in order.
#[derive(Debug)]
pub struct PodPatch {
    pub volumes: Vec<Slot<Volume>>,
    pub containers: Vec<ContainerPatch>,
}

/// The name of a slot.
pub open spec fn slot_name<T>(s: Slot<T>) -> Seq<char> {
    match s {
        Slot::Keep(_, n) => n@,
        Slot::Add(n, _) => n@,
    }
}

/// A slot by view: its name, and the index of the pod's item it keeps.
pub open spec fn slot_view<T>(s: Slot<T>) -> (Seq<char>, Option<usize>) {
    match s {
        Slot::Keep(i, n) => (n@, Some(i)),
        Slot::Add(n, _) => (n@, None),
    }
}

/// A list of slots by view.
pub open spec fn slots_view<T>(l: Seq<Slot<T>>) -> Seq<(Seq<char>, Option<usize>)> {
    l.map_values(|s: Slot<T>| slot_view(s))
}

/// A list without the items named `n`.
pub open spec fn without(l: Seq<(Seq<char>, Option<usize>)>, n: Seq<char>) -> Seq<
    (Seq<char>, Option<usize>),
>
    decreases l.len(),
{
    if l.len() == 0 {
        l
    } else {
        let w = without(l.drop_last(), n);
        if l.last().0 == n {
            w
        } else {
            w.push(l.last())
        }
    }
}

/// A list with an injected item named `n` in place of those of its name.
pub open spec fn upsert_view(l: Seq<(Seq<char>, Option<usize>)>, n: Seq<char>) -> Seq<
    (Seq<char>, Option<usize>),
> {
    without(l, n).push((n, None))
}

/// The pod's own items, each kept at its index.
pub open spec fn kept(names: Seq<String>) -> Seq<(Seq<char>, Option<usize>)> {
    Seq::new(names.len(), |i: int| (names[i]@, Some(i as usize)))
}

/// `upsert_view` when `cond` holds.
pub open spec fn upsert_if(
    cond: bool,
    l: Seq<(Seq<char>, Option<usize>)>,
    n: Seq<char>,
) -> Seq<(Seq<char>, Option<usize>)> {
    if cond {
        upsert_view(l, n)
    } else {
        l
    }
}

/// The volumes of the patched pod: the socket volume, then the credential
/// volumes the credentials ask for.
pub open spec fn volumes_view(names: Seq<String>, c: Option<CredentialMounts>) -> Seq<
    (Seq<char>, Option<usize>),
> {
    let v0 = upsert_view(kept(names), VOLUME_NAME@);
    match c {
        None => v0,
        Some(c) => {
            let v1 = upsert_if(c.signing is Some, v0, SIGNING_VOLUME_NAME@);
            let v2 = upsert_if(c.trust_anchors@.len() > 0, v1, TRUST_ANCHORS_VOLUME_NAME@);
            upsert_if(c.certificate_chain@.len() > 0, v2, CERTIFICATE_CHAIN_VOLUME_NAME@)
        },
    }
}

/// The mounts of a patched container: the socket, and in the target
/// container the credential mounts.
pub open spec fn mounts_view(names: Seq<String>, target: bool, c: Option<CredentialMounts>) -> Seq<
    (Seq<char>, Option<usize>),
> {
    let m0 = upsert_view(kept(names), VOLUME_NAME@);
    match c {
        Some(c) => if target {
            let m1 = upsert_if(c.signing is Some, m0, SIGNING_VOLUME_NAME@);
            let m2 = upsert_if(c.trust_anchors@.len() > 0, m1, TRUST_ANCHORS_VOLUME_NAME@);
            upsert_if(c.certificate_chain@.len() > 0, m2, CERTIFICATE_CHAIN_VOLUME_NAME@)
        } else {
            m0
        },
        None => m0,
    }
}

/// The environment of a patched container: the transport and prefix, and in
/// the target container the credential paths.
pub open spec fn env_view_of(names: Seq<String>, target: bool, c: Option<CredentialMounts>) -> Seq<
    (Seq<char>, Option<usize>),
> {
    let e0 = upsert_view(upsert_view(kept(names), "NDN_CLIENT_TRANSPORT"@), "NDN_PREFIX"@);
    match c {
        Some(c) => if target {
            let e1 = upsert_if(
                c.signing is Some,
                upsert_if(c.signing is Some, e0, "NDN_APP_SIGNING_KEY_FILE"@),
                "NDN_APP_SIGNING_CERT_FILE"@,
            );
            let e2 = upsert_if(c.trust_anchors@.len() > 0, e1, "NDN_APP_TRUST_ANCHOR_DIR"@);
            upsert_if(c.certificate_chain@.len() > 0, e2, "NDN_APP_CERTIFICATE_CHAIN_DIR"@)
        } else {
            e0
        },
        None => e0,
    }
}

/// A projection of one key of a Secret as a file.
pub open spec fn projection_is(
    p: SecretProjection,
    secret: Seq<char>,
    key: Seq<char>,
    path: Seq<char>,
) -> bool {
    p.secret_name@ == secret && p.key@ == key && p.path@ == path && p.optional == Some(false)
}

/// A read-only projected volume (mode 0444) of certificates, the `i`th read
/// from `ndn.cert` of the `i`th Secret into `<prefix>-<i>.cert`.
pub open spec fn bundle_volume(v: Volume, name: Seq<char>, prefix: Seq<char>, secrets: Seq<String>) -> bool {
    &&& v.name@ == name
    &&& v.source matches VolumeSource::Projected { default_mode, sources } && default_mode == Some(
        292i32,
    ) && sources@.len() == secrets.len() && forall|i: int|
        0 <= i < secrets.len() ==> projection_is(
            #[trigger] sources@[i],
            secrets[i]@,
            "ndn.cert"@,
            prefix + "-"@ + decimal(i as nat) + ".cert"@,
        )
}

/// The volume holding the signing key and certificate.
pub open spec fn signing_volume(v: Volume, s: ResolvedCertificate) -> bool {
    &&& v.name@ == SIGNING_VOLUME_NAME@
    &&& v.source matches VolumeSource::Projected { default_mode, sources } && default_mode == Some(
        292i32,
    ) && sources@.len() == 2 && (s.key_secret matches Some(k) && projection_is(
        sources@[0],
        k@,
        "ndn.key"@,
        "ndn.key"@,
    )) && projection_is(sources@[1], s.cert_secret@, "ndn.cert"@, "ndn.cert"@)
}

/// The socket of a network on the node.
pub open spec fn host_socket(nw: Network) -> Seq<char> {
    "/run/ndnd/"@ + ns_of(nw) + "/"@ + nw_name(nw) + "/"@ + nw_name(nw) + ".sock"@
}

/// What an injected volume of a given name holds.
pub open spec fn injected_volume(n: Seq<char>, v: Volume, nw: Network, c: Option<CredentialMounts>) -> bool {
    if n == VOLUME_NAME@ {
        v.name@ == n && (v.source matches VolumeSource::HostPath { path, type_: Some(t) } && path@
            == host_socket(nw) && t@ == "Socket"@)
    } else {
        c matches Some(c) && if n == SIGNING_VOLUME_NAME@ {
            c.signing matches Some(s) && signing_volume(v, s)
        } else if n == TRUST_ANCHORS_VOLUME_NAME@ {
            bundle_volume(v, n, "anchor"@, c.trust_anchors@)
        } else {
            n == CERTIFICATE_CHAIN_VOLUME_NAME@ && bundle_volume(
                v,
                n,
                "chain"@,
                c.certificate_chain@,
            )
        }
    }
}

/// The mount path of an injected mount, and whether it is read-only.
pub open spec fn injected_mount(n: Seq<char>, m: VolumeMount) -> bool {
    &&& m.name@ == n
    &&& if n == VOLUME_NAME@ {
        m.mount_path@ == MOUNT_PATH@ && m.read_only is None
    } else if n == SIGNING_VOLUME_NAME@ {
        m.mount_path@ == SIGNING_MOUNT_PATH@ && m.read_only == Some(true)
    } else if n == TRUST_ANCHORS_VOLUME_NAME@ {
        m.mount_path@ == TRUST_ANCHORS_MOUNT_PATH@ && m.read_only == Some(true)
    } else {
        n == CERTIFICATE_CHAIN_VOLUME_NAME@ && m.mount_path@ == CERTIFICATE_CHAIN_MOUNT_PATH@
            && m.read_only == Some(true)
    }
}

/// The value of an injected environment variable.
pub open spec fn injected_env(n: Seq<char>, e: EnvVar, nw: Network) -> bool {
    &&& e.name@ == n
    &&& e.field_path is None
    &&& e.value matches Some(v) && v@ == if n == "NDN_CLIENT_TRANSPORT"@ {
        "unix://"@ + MOUNT_PATH@
    } else if n == "NDN_PREFIX"@ {
        nw.spec.prefix@
    } else if n == "NDN_APP_SIGNING_KEY_FILE"@ {
        SIGNING_KEY_FILE@
    } else if n == "NDN_APP_SIGNING_CERT_FILE"@ {
        SIGNING_CERT_FILE@
    } else if n == "NDN_APP_TRUST_ANCHOR_DIR"@ {
        TRUST_ANCHORS_MOUNT_PATH@
    } else {
        CERTIFICATE_CHAIN_MOUNT_PATH@
    }
}

/// The index of the container named `name`, if there is one (the first).
pub open spec fn target_index(cs: Seq<ContainerShape>, name: Seq<char>) -> Option<int> {
    if exists|i: int| 0 <= i < cs.len() && cs[i].name@ == name {
        Some(
            choose|i: int|
                0 <= i < cs.len() && cs[i].name@ == name && forall|j: int|
                    0 <= j < i ==> cs[j].name@ != name,
        )
    } else {
        None
    }
}

impl<T> Slot<T> {
    /// The name of the slot.
    pub fn name(&self) -> (r: &String)
        ensures
            r@ == slot_name(*self),
    {
        match self {
            Slot::Keep(_, n) => n,
            Slot::Add(n, _) => n,
        }
    }
}

/// The slots keeping each of the pod's items.
fn keep_all<T>(names: &Vec<String>) -> (r: Vec<Slot<T>>)
    ensures
        slots_view(r@) == kept(names@),
        forall|x: Slot<T>| r@.contains(x) ==> x is Keep,
{
    let mut out: Vec<Slot<T>> = Vec::new();
    let mut i: usize = 0;
    while i < names.len()
        invariant
            i <= names@.len(),
            slots_view(out@) == kept(names@).subrange(0, i as int),
            forall|x: Slot<T>| out@.contains(x) ==> x is Keep,
        decreases names@.len() - i,
    {
        let ghost before = out@;
        let nm = names[i].clone();
        assert(nm@ == names@[i as int]@);
        out.push(Slot::Keep(i, nm));
        proof {
            assert(slots_view(out@) =~= slots_view(before).push(slot_view(out@.last())));
            assert(slots_view(out@) =~= kept(names@).subrange(0, i + 1));
            assert forall|x: Slot<T>| out@.contains(x) implies x is Keep by {
                let k = choose|k: int| 0 <= k < out@.len() && out@[k] == x;
                if k < before.len() {
                    assert(before.contains(x));
                }
            }
        }
        i = i + 1;
    }
    assert(kept(names@).subrange(0, names@.len() as int) =~= kept(names@));
    out
}

/// Replaces the items named like `slot` by `slot`, at the end.
pub fn upsert_slot<T>(list: &mut Vec<Slot<T>>, slot: Slot<T>)
    ensures
        slots_view(final(list)@) == without(slots_view(old(list)@), slot_name(slot)).push(
            slot_view(slot),
        ),
        forall|x: Slot<T>| final(list)@.contains(x) ==> old(list)@.contains(x) || x == slot,
        final(list)@.contains(slot),
{
    let ghost orig = list@;
    let total: usize = list.len();
    let mut rest: Vec<Slot<T>> = Vec::new();
    std::mem::swap(&mut rest, list);
    let ghost n = slot_name(slot);
    let mut out: Vec<Slot<T>> = Vec::new();
    let mut k: usize = 0;
    while rest.len() > 0
        invariant
            k + rest@.len() == orig.len(),
            orig.len() == total,
            rest@ == orig.subrange(k as int, orig.len() as int),
            slots_view(out@) == without(slots_view(orig.subrange(0, k as int)), n),
            forall|x: Slot<T>| out@.contains(x) ==> orig.contains(x),
            n == slot_name(slot),
        decreases rest@.len(),
    {
        let x = rest.remove(0);
        let ghost pre = slots_view(orig.subrange(0, k as int));
        proof {
            assert(x == orig[k as int]);
            assert(slots_view(orig.subrange(0, k + 1)).drop_last() =~= pre);
            assert(slots_view(orig.subrange(0, k + 1)).last() == slot_view(x));
        }
        let keep = !same_text(x.name().as_str(), slot.name().as_str());
        let ghost before = out@;
        if keep {
            out.push(x);
            proof {
                assert(slots_view(out@) =~= slots_view(before).push(slot_view(x)));
            }
        }
        proof {
            assert forall|y: Slot<T>| out@.contains(y) implies orig.contains(y) by {
                let j = choose|j: int| 0 <= j < out@.len() && out@[j] == y;
                if j < before.len() {
                    assert(before.contains(y));
                } else {
                    assert(orig[k as int] == y);
                }
            }
        }
        k = k + 1;
        proof {
            assert(rest@ =~= orig.subrange(k as int, orig.len() as int));
        }
    }
    assert(orig.subrange(0, orig.len() as int) =~= orig);
    let ghost before = out@;
    out.push(slot);
    proof {
        assert(slots_view(out@) =~= slots_view(before).push(slot_view(slot)));
        assert(out@[before.len() as int] == slot);
        assert forall|y: Slot<T>| out@.contains(y) implies orig.contains(y) || y == slot by {
            let j = choose|j: int| 0 <= j < out@.len() && out@[j] == y;
            if j < before.len() {
                assert(before.contains(y));
            }
        }
    }
    *list = out;
}

/// Every injected mount of a list holds what its name calls for.
pub open spec fn mounts_ok(l: Seq<Slot<VolumeMount>>) -> bool {
    forall|x: Slot<VolumeMount>| #[trigger]
        l.contains(x) ==> (x matches Slot::Add(n, m) ==> injected_mount(n@, m))
}

/// Every injected variable of a list holds what its name calls for.
pub open spec fn envs_ok(l: Seq<Slot<EnvVar>>, nw: Network) -> bool {
    forall|x: Slot<EnvVar>| #[trigger]
        l.contains(x) ==> (x matches Slot::Add(n, e) ==> injected_env(n@, e, nw))
}

/// Every injected volume of a list holds what its name calls for.
pub open spec fn volumes_ok(l: Seq<Slot<Volume>>, nw: Network, c: Option<CredentialMounts>) -> bool {
    forall|x: Slot<Volume>| #[trigger]
        l.contains(x) ==> (x matches Slot::Add(n, v) ==> injected_volume(n@, v, nw, c))
}

/// The patch of one container.
pub open spec fn container_patched(
    cp: ContainerPatch,
    shape: ContainerShape,
    target: bool,
    nw: Network,
    c: Option<CredentialMounts>,
) -> bool {
    &&& slots_view(cp.volume_mounts@) == mounts_view(shape.volume_mounts@, target, c)
    &&& mounts_ok(cp.volume_mounts@)
    &&& slots_view(cp.env@) == env_view_of(shape.env@, target, c)
    &&& envs_ok(cp.env@, nw)
}

/// An optional reference, dereferenced.
pub open spec fn deref_opt<T>(o: Option<&T>) -> Option<T> {
    match o {
        Some(x) => Some(*x),
        None => None,
    }
}

fn upsert_mount(list: &mut Vec<Slot<VolumeMount>>, m: VolumeMount)
    requires
        injected_mount(m.name@, m),
        mounts_ok(old(list)@),
    ensures
        slots_view(final(list)@) == upsert_view(slots_view(old(list)@), m.name@),
        mounts_ok(final(list)@),
{
    let n = m.name.clone();
    let ghost slot = Slot::Add(n, m);
    upsert_slot(list, Slot::Add(n, m));
    assert forall|x: Slot<VolumeMount>| #[trigger] list@.contains(x) implies (x matches Slot::Add(
        k,
        v,
    ) ==> injected_mount(k@, v)) by {
        if !old(list)@.contains(x) {
            assert(x == slot);
        }
    }
}

fn upsert_env(list: &mut Vec<Slot<EnvVar>>, e: EnvVar, Ghost(nw): Ghost<Network>)
    requires
        injected_env(e.name@, e, nw),
        envs_ok(old(list)@, nw),
    ensures
        slots_view(final(list)@) == upsert_view(slots_view(old(list)@), e.name@),
        envs_ok(final(list)@, nw),
{
    let n = e.name.clone();
    let ghost slot = Slot::Add(n, e);
    upsert_slot(list, Slot::Add(n, e));
    assert forall|x: Slot<EnvVar>| #[trigger] list@.contains(x) implies (x matches Slot::Add(k, v)
        ==> injected_env(k@, v, nw)) by {
        if !old(list)@.contains(x) {
            assert(x == slot);
        }
    }
}

fn upsert_volume(
    list: &mut Vec<Slot<Volume>>,
    v: Volume,
    Ghost(nw): Ghost<Network>,
    Ghost(c): Ghost<Option<CredentialMounts>>,
)
    requires
        injected_volume(v.name@, v, nw, c),
        volumes_ok(old(list)@, nw, c),
    ensures
        slots_view(final(list)@) == upsert_view(slots_view(old(list)@), v.name@),
        volumes_ok(final(list)@, nw, c),
{
    let n = v.name.clone();
    let ghost slot = Slot::Add(n, v);
    upsert_slot(list, Slot::Add(n, v));
    assert forall|x: Slot<Volume>| #[trigger] list@.contains(x) implies (x matches Slot::Add(k, w)
        ==> injected_volume(k@, w, nw, c)) by {
        if !old(list)@.contains(x) {
            assert(x == slot);
        }
    }
}

/// The volume of the `ndnd` socket: the network's socket on the node.
pub fn create_volume(network: &Network) -> (v: Volume)
    requires
        network.metadata.namespace is Some,
    ensures
        v.name@ == VOLUME_NAME@,
        injected_volume(VOLUME_NAME@, v, *network, None),
{
    Volume {
        name: lit(VOLUME_NAME),
        source: VolumeSource::HostPath { path: network.host_socket_path(), type_: Some(lit("Socket")) },
    }
}

/// The mount of the `ndnd` socket.
pub fn create_volume_mount() -> (m: VolumeMount)
    ensures
        m.name@ == VOLUME_NAME@,
        injected_mount(VOLUME_NAME@, m),
{
    VolumeMount { name: lit(VOLUME_NAME), mount_path: lit(MOUNT_PATH), read_only: None }
}

/// One key of a Secret as a file, the Secret required.
pub fn secret_projection(secret_name: &str, key: &str, path: &str) -> (p: SecretProjection)
    ensures
        projection_is(p, secret_name@, key@, path@),
{
    SecretProjection {
        secret_name: lit(secret_name),
        key: lit(key),
        path: lit(path),
        optional: Some(false),
    }
}

/// A read-only projected volume (mode 0444).
pub fn projected_volume(name: &str, sources: Vec<SecretProjection>) -> (v: Volume)
    ensures
        v.name@ == name@,
        v.source == (VolumeSource::Projected { default_mode: Some(292i32), sources }),
{
    Volume { name: lit(name), source: VolumeSource::Projected { default_mode: Some(292), sources } }
}

/// The volume of the signing key (`ndn.key`) and certificate (`ndn.cert`);
/// a signing certificate without a key Secret is refused.
pub fn create_signing_volume(signing: &ResolvedCertificate) -> (r: Result<Volume, Error>)
    ensures
        signing.key_secret is None ==> (r matches Err(Error::ValidationError(m)) && m@
            == "resolved signing certificate has no private key Secret"@),
        signing.key_secret is Some ==> (r matches Ok(v) && signing_volume(v, *signing)),
{
    let key_secret = match &signing.key_secret {
        Some(k) => k,
        None => {
            return Err(
                Error::ValidationError(lit("resolved signing certificate has no private key Secret")),
            );
        },
    };
    let sources = vec![
        secret_projection(key_secret.as_str(), "ndn.key", "ndn.key"),
        secret_projection(signing.cert_secret.as_str(), "ndn.cert", "ndn.cert"),
    ];
    Ok(projected_volume(SIGNING_VOLUME_NAME, sources))
}

/// A volume of certificates, the `i`th from the `i`th Secret into
/// `<file_prefix>-<i>.cert`.
pub fn create_cert_bundle_volume(volume_name: &str, file_prefix: &str, secrets: &Vec<String>) -> (v:
    Volume)
    ensures
        bundle_volume(v, volume_name@, file_prefix@, secrets@),
{
    let mut sources: Vec<SecretProjection> = Vec::new();
    let mut i: usize = 0;
    while i < secrets.len()
        invariant
            i <= secrets@.len(),
            sources@.len() == i,
            forall|j: int|
                0 <= j < i ==> projection_is(
                    #[trigger] sources@[j],
                    secrets@[j]@,
                    "ndn.cert"@,
                    file_prefix@ + "-"@ + decimal(j as nat) + ".cert"@,
                ),
        decreases secrets@.len() - i,
    {
        let idx = decimal_text(i as u64);
        let a = join3(file_prefix, "-", idx.as_str());
        let path = join2(a.as_str(), ".cert");
        sources.push(secret_projection(secrets[i].as_str(), "ndn.cert", path.as_str()));
        i = i + 1;
    }
    projected_volume(volume_name, sources)
}

/// A read-only mount of a credential volume.
pub fn credential_volume_mount(name: &str, mount_path: &str) -> (m: VolumeMount)
    ensures
        m.name@ == name@,
        m.mount_path@ == mount_path@,
        m.read_only == Some(true),
{
    VolumeMount { name: lit(name), mount_path: lit(mount_path), read_only: Some(true) }
}

/// A variable with a literal value.
pub fn env_var(name: &str, value: &str) -> (e: EnvVar)
    ensures
        e.name@ == name@,
        e.value matches Some(v) && v@ == value@,
        e.field_path is None,
{
    EnvVar { name: lit(name), value: Some(lit(value)), field_path: None }
}

/// `NDN_CLIENT_TRANSPORT`: the mounted socket.
pub fn create_env_var_transport() -> (e: EnvVar)
    ensures
        e.name@ == "NDN_CLIENT_TRANSPORT"@,
        e.value matches Some(v) && v@ == "unix://"@ + MOUNT_PATH@,
        e.field_path is None,
{
    let v = join2("unix://", MOUNT_PATH);
    EnvVar { name: lit("NDN_CLIENT_TRANSPORT"), value: Some(v), field_path: None }
}

/// `NDN_PREFIX`: the application prefix of the network.
pub fn create_env_var_prefix(network: &Network) -> (e: EnvVar)
    ensures
        e.name@ == "NDN_PREFIX"@,
        e.value matches Some(v) && v@ == network.spec.prefix@,
        e.field_path is None,
{
    EnvVar { name: lit("NDN_PREFIX"), value: Some(network.spec.prefix.clone()), field_path: None }
}

proof fn lemma_names_differ()
    ensures
        VOLUME_NAME@ != SIGNING_VOLUME_NAME@,
        VOLUME_NAME@ != TRUST_ANCHORS_VOLUME_NAME@,
        VOLUME_NAME@ != CERTIFICATE_CHAIN_VOLUME_NAME@,
        SIGNING_VOLUME_NAME@ != TRUST_ANCHORS_VOLUME_NAME@,
        SIGNING_VOLUME_NAME@ != CERTIFICATE_CHAIN_VOLUME_NAME@,
        TRUST_ANCHORS_VOLUME_NAME@ != CERTIFICATE_CHAIN_VOLUME_NAME@,
        "NDN_CLIENT_TRANSPORT"@ != "NDN_PREFIX"@,
        "NDN_APP_SIGNING_KEY_FILE"@ != "NDN_CLIENT_TRANSPORT"@,
        "NDN_APP_SIGNING_KEY_FILE"@ != "NDN_PREFIX"@,
        "NDN_APP_SIGNING_CERT_FILE"@ != "NDN_CLIENT_TRANSPORT"@,
        "NDN_APP_SIGNING_CERT_FILE"@ != "NDN_PREFIX"@,
        "NDN_APP_SIGNING_CERT_FILE"@ != "NDN_APP_SIGNING_KEY_FILE"@,
        "NDN_APP_TRUST_ANCHOR_DIR"@ != "NDN_CLIENT_TRANSPORT"@,
        "NDN_APP_TRUST_ANCHOR_DIR"@ != "NDN_PREFIX"@,
        "NDN_APP_TRUST_ANCHOR_DIR"@ != "NDN_APP_SIGNING_KEY_FILE"@,
        "NDN_APP_TRUST_ANCHOR_DIR"@ != "NDN_APP_SIGNING_CERT_FILE"@,
        "NDN_APP_CERTIFICATE_CHAIN_DIR"@ != "NDN_CLIENT_TRANSPORT"@,
        "NDN_APP_CERTIFICATE_CHAIN_DIR"@ != "NDN_PREFIX"@,
        "NDN_APP_CERTIFICATE_CHAIN_DIR"@ != "NDN_APP_SIGNING_KEY_FILE"@,
        "NDN_APP_CERTIFICATE_CHAIN_DIR"@ != "NDN_APP_SIGNING_CERT_FILE"@,
        "NDN_APP_CERTIFICATE_CHAIN_DIR"@ != "NDN_APP_TRUST_ANCHOR_DIR"@,
{
    reveal_strlit("run-ndnd");
    reveal_strlit("ndn-app-signing");
    reveal_strlit("ndn-app-trust-anchors");
    reveal_strlit("ndn-app-certificate-chain");
    reveal_strlit("NDN_CLIENT_TRANSPORT");
    reveal_strlit("NDN_PREFIX");
    reveal_strlit("NDN_APP_SIGNING_KEY_FILE");
    reveal_strlit("NDN_APP_SIGNING_CERT_FILE");
    reveal_strlit("NDN_APP_TRUST_ANCHOR_DIR");
    reveal_strlit("NDN_APP_CERTIFICATE_CHAIN_DIR");
    assert(VOLUME_NAME@.len() != SIGNING_VOLUME_NAME@.len());
    assert(VOLUME_NAME@.len() != TRUST_ANCHORS_VOLUME_NAME@.len());
    assert(VOLUME_NAME@.len() != CERTIFICATE_CHAIN_VOLUME_NAME@.len());
    assert(SIGNING_VOLUME_NAME@.len() != TRUST_ANCHORS_VOLUME_NAME@.len());
    assert(SIGNING_VOLUME_NAME@.len() != CERTIFICATE_CHAIN_VOLUME_NAME@.len());
    assert(TRUST_ANCHORS_VOLUME_NAME@.len() != CERTIFICATE_CHAIN_VOLUME_NAME@.len());
    assert("NDN_CLIENT_TRANSPORT"@.len() != "NDN_PREFIX"@.len());
    assert("NDN_APP_SIGNING_KEY_FILE"@[8] != "NDN_CLIENT_TRANSPORT"@[8]);
    assert("NDN_APP_SIGNING_KEY_FILE"@.len() != "NDN_PREFIX"@.len());
    assert("NDN_APP_SIGNING_CERT_FILE"@.len() != "NDN_CLIENT_TRANSPORT"@.len());
    assert("NDN_APP_SIGNING_CERT_FILE"@.len() != "NDN_PREFIX"@.len());
    assert("NDN_APP_SIGNING_CERT_FILE"@.len() != "NDN_APP_SIGNING_KEY_FILE"@.len());
    assert("NDN_APP_TRUST_ANCHOR_DIR"@[8] != "NDN_CLIENT_TRANSPORT"@[8]);
    assert("NDN_APP_TRUST_ANCHOR_DIR"@.len() != "NDN_PREFIX"@.len());
    assert("NDN_APP_TRUST_ANCHOR_DIR"@[8] != "NDN_APP_SIGNING_KEY_FILE"@[8]);
    assert("NDN_APP_TRUST_ANCHOR_DIR"@.len() != "NDN_APP_SIGNING_CERT_FILE"@.len());
    assert("NDN_APP_CERTIFICATE_CHAIN_DIR"@.len() != "NDN_CLIENT_TRANSPORT"@.len());
    assert("NDN_APP_CERTIFICATE_CHAIN_DIR"@.len() != "NDN_PREFIX"@.len());
    assert("NDN_APP_CERTIFICATE_CHAIN_DIR"@.len() != "NDN_APP_SIGNING_KEY_FILE"@.len());
    assert("NDN_APP_CERTIFICATE_CHAIN_DIR"@.len() != "NDN_APP_SIGNING_CERT_FILE"@.len());
    assert("NDN_APP_CERTIFICATE_CHAIN_DIR"@.len() != "NDN_APP_TRUST_ANCHOR_DIR"@.len());
}

/// The patch of one container: the socket mount, the transport and prefix,
/// and, in the target container, the credential mounts and paths.
pub fn patch_container(
    shape: &ContainerShape,
    is_target: bool,
    network: &Network,
    credentials: Option<&CredentialMounts>,
) -> (cp: ContainerPatch)
    ensures
        container_patched(cp, *shape, is_target, *network, deref_opt(credentials)),
{
    proof {
        lemma_names_differ();
    }
    let mut mounts: Vec<Slot<VolumeMount>> = keep_all(&shape.volume_mounts);
    let mut env: Vec<Slot<EnvVar>> = keep_all(&shape.env);
    upsert_mount(&mut mounts, create_volume_mount());
    upsert_env(&mut env, create_env_var_transport(), Ghost(*network));
    upsert_env(&mut env, create_env_var_prefix(network), Ghost(*network));
    if is_target {
        match credentials {
            Some(c) => {
                if c.signing.is_some() {
                    upsert_mount(
                        &mut mounts,
                        credential_volume_mount(SIGNING_VOLUME_NAME, SIGNING_MOUNT_PATH),
                    );
                    upsert_env(
                        &mut env,
                        env_var("NDN_APP_SIGNING_KEY_FILE", SIGNING_KEY_FILE),
                        Ghost(*network),
                    );
                    upsert_env(
                        &mut env,
                        env_var("NDN_APP_SIGNING_CERT_FILE", SIGNING_CERT_FILE),
                        Ghost(*network),
                    );
                }
                if c.trust_anchors.len() > 0 {
                    upsert_mount(
                        &mut mounts,
                        credential_volume_mount(TRUST_ANCHORS_VOLUME_NAME, TRUST_ANCHORS_MOUNT_PATH),
                    );
                    upsert_env(
                        &mut env,
                        env_var("NDN_APP_TRUST_ANCHOR_DIR", TRUST_ANCHORS_MOUNT_PATH),
                        Ghost(*network),
                    );
                }
                if c.certificate_chain.len() > 0 {
                    upsert_mount(
                        &mut mounts,
                        credential_volume_mount(
                            CERTIFICATE_CHAIN_VOLUME_NAME,
                            CERTIFICATE_CHAIN_MOUNT_PATH,
                        ),
                    );
                    upsert_env(
                        &mut env,
                        env_var("NDN_APP_CERTIFICATE_CHAIN_DIR", CERTIFICATE_CHAIN_MOUNT_PATH),
                        Ghost(*network),
                    );
                }
            },
            None => {},
        }
    }
    ContainerPatch { volume_mounts: mounts, env }
}

/// Whether the patch can be built: the pod has a spec, the credentials'
/// container exists, and a signing certificate has its key Secret.
pub open spec fn patch_error(pod: Option<PodShape>, c: Option<CredentialMounts>) -> Option<Seq<char>> {
    match pod {
        None => Some("Pod has no spec to inject"@),
        Some(p) => match c {
            None => None,
            Some(c) => if target_index(p.containers@, c.container@) is None {
                Some("credential target container `"@ + c.container@ + "` does not exist in Pod"@)
            } else if c.signing matches Some(s) && s.key_secret is None {
                Some("resolved signing certificate has no private key Secret"@)
            } else {
                None
            },
        },
    }
}

/// Whether container `i` receives the credentials.
pub open spec fn is_target(p: PodShape, c: Option<CredentialMounts>, i: int) -> bool {
    c matches Some(c) && target_index(p.containers@, c.container@) == Some(i)
}

fn find_target(cs: &Vec<ContainerShape>, name: &str) -> (r: Option<usize>)
    ensures
        match r {
            Some(i) => target_index(cs@, name@) == Some(i as int),
            None => target_index(cs@, name@) is None,
        },
{
    let mut i: usize = 0;
    while i < cs.len()
        invariant
            i <= cs@.len(),
            forall|j: int| 0 <= j < i ==> cs@[j].name@ != name@,
        decreases cs@.len() - i,
    {
        if same_text(cs[i].name.as_str(), name) {
            proof {
                let k = target_index(cs@, name@)->0;
                assert(cs@[i as int].name@ == name@);
                assert(0 <= k < cs@.len() && cs@[k].name@ == name@);
                if k < i {
                    assert(cs@[k].name@ != name@);
                }
                if k > i {
                    assert(cs@[i as int].name@ != name@);
                }
            }
            return Some(i);
        }
        i = i + 1;
    }
    None
}

/// What the patch of a pod holds: its volumes, and each container's patch.
pub open spec fn patch_built(
    patch: PodPatch,
    p: PodShape,
    nw: Network,
    c: Option<CredentialMounts>,
) -> bool {
    &&& slots_view(patch.volumes@) == volumes_view(p.volumes@, c)
    &&& volumes_ok(patch.volumes@, nw, c)
    &&& patch.containers@.len() == p.containers@.len()
    &&& forall|i: int|
        0 <= i < p.containers@.len() ==> container_patched(
            #[trigger] patch.containers@[i],
            p.containers@[i],
            is_target(p, c, i),
            nw,
            c,
        )
}

/// The patch that injects a pod: every container gets the `ndnd` socket and
/// the transport and prefix variables; the credentials' container alone gets
/// the credential mounts and paths; the pod gets the socket volume and the
/// credential volumes. The pod's own items stay unless an injected item has
/// their name.
pub fn build_patch(
    pod: Option<&PodShape>,
    network: &Network,
    credentials: Option<&CredentialMounts>,
) -> (r: Result<PodPatch, Error>)
    requires
        network.metadata.namespace is Some,
    ensures
        match patch_error(deref_opt(pod), deref_opt(credentials)) {
            Some(m) => r matches Err(Error::ValidationError(e)) && e@ == m,
            None => r matches Ok(patch) && patch_built(
                patch,
                deref_opt(pod)->0,
                *network,
                deref_opt(credentials),
            ),
        },
{
    proof {
        lemma_names_differ();
    }
    let p = match pod {
        None => {
            return Err(Error::ValidationError(lit("Pod has no spec to inject")));
        },
        Some(p) => p,
    };
    let target: Option<usize> = match credentials {
        None => None,
        Some(c) => match find_target(&p.containers, c.container.as_str()) {
            Some(i) => Some(i),
            None => {
                let m = join3(
                    "credential target container `",
                    c.container.as_str(),
                    "` does not exist in Pod",
                );
                return Err(Error::ValidationError(m));
            },
        },
    };
    let ghost c = deref_opt(credentials);
    let mut volumes: Vec<Slot<Volume>> = keep_all(&p.volumes);
    upsert_volume(&mut volumes, create_volume(network), Ghost(*network), Ghost(c));
    match credentials {
        None => {},
        Some(cm) => {
            match &cm.signing {
                Some(signing) => {
                    let v = create_signing_volume(signing)?;
                    upsert_volume(&mut volumes, v, Ghost(*network), Ghost(c));
                },
                None => {},
            }
            if cm.trust_anchors.len() > 0 {
                let v = create_cert_bundle_volume(
                    TRUST_ANCHORS_VOLUME_NAME,
                    "anchor",
                    &cm.trust_anchors,
                );
                upsert_volume(&mut volumes, v, Ghost(*network), Ghost(c));
            }
            if cm.certificate_chain.len() > 0 {
                let v = create_cert_bundle_volume(
                    CERTIFICATE_CHAIN_VOLUME_NAME,
                    "chain",
                    &cm.certificate_chain,
                );
                upsert_volume(&mut volumes, v, Ghost(*network), Ghost(c));
            }
        },
    }
    let mut containers: Vec<ContainerPatch> = Vec::new();
    let mut i: usize = 0;
    while i < p.containers.len()
        invariant
            i <= p.containers@.len(),
            containers@.len() == i,
            c == deref_opt(credentials),
            match credentials {
                None => target is None,
                Some(cm) => target matches Some(t) && target_index(p.containers@, cm.container@)
                    == Some(t as int),
            },
            forall|j: int|
                0 <= j < i ==> container_patched(
                    #[trigger] containers@[j],
                    p.containers@[j],
                    is_target(*p, c, j),
                    *network,
                    c,
                ),
        decreases p.containers@.len() - i,
    {
        let here = match target {
            Some(t) => t == i,
            None => false,
        };
        let cp = patch_container(&p.containers[i], here, network, credentials);
        containers.push(cp);
        i = i + 1;
    }
    Ok(PodPatch { volumes, containers })
}

proof fn lemma_without_contains(
    l: Seq<(Seq<char>, Option<usize>)>,
    n: Seq<char>,
    x: (Seq<char>, Option<usize>),
)
    ensures
        without(l, n).contains(x) <==> (l.contains(x) && x.0 != n),
    decreases l.len(),
{
    if l.len() > 0 {
        let d = l.drop_last();
        lemma_without_contains(d, n, x);
        assert(l =~= d.push(l.last()));
        vstd::seq_lib::lemma_seq_contains_after_push(d, l.last(), x);
        vstd::seq_lib::lemma_seq_contains_after_push(without(d, n), l.last(), x);
    }
}

proof fn lemma_upsert_contains(
    l: Seq<(Seq<char>, Option<usize>)>,
    n: Seq<char>,
    x: (Seq<char>, Option<usize>),
)
    ensures
        upsert_view(l, n).contains(x) <==> ((l.contains(x) && x.0 != n) || x == (n, None::<usize>)),
{
    lemma_without_contains(l, n, x);
    let w = without(l, n);
    if upsert_view(l, n).contains(x) {
        let k = choose|k: int| 0 <= k < w.push((n, None::<usize>)).len() && w.push((n, None::<usize>))[k] == x;
        if k < w.len() {
            assert(w[k] == x);
        }
    }
    if w.contains(x) {
        let k = choose|k: int| 0 <= k < w.len() && w[k] == x;
        assert(w.push((n, None::<usize>))[k] == x);
    }
    if x == (n, None::<usize>) {
        assert(w.push((n, None::<usize>))[w.len() as int] == x);
    }
}

proof fn lemma_upsert_if_contains(
    cond: bool,
    l: Seq<(Seq<char>, Option<usize>)>,
    n: Seq<char>,
    x: (Seq<char>, Option<usize>),
)
    ensures
        upsert_if(cond, l, n).contains(x) <==> if cond {
            (l.contains(x) && x.0 != n) || x == (n, None::<usize>)
        } else {
            l.contains(x)
        },
{
    if cond {
        lemma_upsert_contains(l, n, x);
    }
}

proof fn lemma_kept_contains(names: Seq<String>, x: (Seq<char>, Option<usize>))
    ensures
        kept(names).contains(x) ==> x.1 is Some,
        forall|j: int| 0 <= j < names.len() && x == (names[j]@, Some(j as usize)) ==> kept(names).contains(x),
{
    if kept(names).contains(x) {
        let k = choose|k: int| 0 <= k < kept(names).len() && kept(names)[k] == x;
    }
    assert forall|j: int| 0 <= j < names.len() && x == (names[j]@, Some(j as usize)) implies kept(
        names,
    ).contains(x) by {
        assert(kept(names)[j] == x);
    }
}

/// The credentials reach no container but their target: in any other
/// container, the only injected mount is the socket, and the only injected
/// variables are the transport and the prefix.
pub proof fn law_credentials_only_in_target(
    mounts: Seq<String>,
    env: Seq<String>,
    c: Option<CredentialMounts>,
    x: (Seq<char>, Option<usize>),
)
    ensures
        mounts_view(mounts, false, c).contains(x) && x.1 is None ==> x.0 == VOLUME_NAME@,
        env_view_of(env, false, c).contains(x) && x.1 is None ==> x.0 == "NDN_CLIENT_TRANSPORT"@
            || x.0 == "NDN_PREFIX"@,
{
    lemma_kept_contains(mounts, x);
    lemma_kept_contains(env, x);
    lemma_upsert_contains(kept(mounts), VOLUME_NAME@, x);
    lemma_upsert_contains(kept(env), "NDN_CLIENT_TRANSPORT"@, x);
    lemma_upsert_contains(upsert_view(kept(env), "NDN_CLIENT_TRANSPORT"@), "NDN_PREFIX"@, x);
}

/// Every container of an injected pod reaches the `ndnd` socket: it mounts
/// the socket and has the transport and prefix variables.
pub proof fn law_socket_injected(
    mounts: Seq<String>,
    env: Seq<String>,
    target: bool,
    c: Option<CredentialMounts>,
)
    ensures
        mounts_view(mounts, target, c).contains((VOLUME_NAME@, None::<usize>)),
        env_view_of(env, target, c).contains(("NDN_CLIENT_TRANSPORT"@, None::<usize>)),
        env_view_of(env, target, c).contains(("NDN_PREFIX"@, None::<usize>)),
{
    lemma_names_differ();
    let m = (VOLUME_NAME@, None::<usize>);
    let t = ("NDN_CLIENT_TRANSPORT"@, None::<usize>);
    let p = ("NDN_PREFIX"@, None::<usize>);
    let m0 = upsert_view(kept(mounts), VOLUME_NAME@);
    lemma_upsert_contains(kept(mounts), VOLUME_NAME@, m);
    let e_t = upsert_view(kept(env), "NDN_CLIENT_TRANSPORT"@);
    lemma_upsert_contains(kept(env), "NDN_CLIENT_TRANSPORT"@, t);
    let e0 = upsert_view(e_t, "NDN_PREFIX"@);
    lemma_upsert_contains(e_t, "NDN_PREFIX"@, t);
    lemma_upsert_contains(e_t, "NDN_PREFIX"@, p);
    match c {
        None => {},
        Some(cm) => if target {
            let s = cm.signing is Some;
            let a = cm.trust_anchors@.len() > 0;
            let ch = cm.certificate_chain@.len() > 0;
            let m1 = upsert_if(s, m0, SIGNING_VOLUME_NAME@);
            let m2 = upsert_if(a, m1, TRUST_ANCHORS_VOLUME_NAME@);
            lemma_upsert_if_contains(s, m0, SIGNING_VOLUME_NAME@, m);
            lemma_upsert_if_contains(a, m1, TRUST_ANCHORS_VOLUME_NAME@, m);
            lemma_upsert_if_contains(ch, m2, CERTIFICATE_CHAIN_VOLUME_NAME@, m);
            let k0 = upsert_if(s, e0, "NDN_APP_SIGNING_KEY_FILE"@);
            let e1 = upsert_if(s, k0, "NDN_APP_SIGNING_CERT_FILE"@);
            let e2 = upsert_if(a, e1, "NDN_APP_TRUST_ANCHOR_DIR"@);
            lemma_upsert_if_contains(s, e0, "NDN_APP_SIGNING_KEY_FILE"@, t);
            lemma_upsert_if_contains(s, k0, "NDN_APP_SIGNING_CERT_FILE"@, t);
            lemma_upsert_if_contains(a, e1, "NDN_APP_TRUST_ANCHOR_DIR"@, t);
            lemma_upsert_if_contains(ch, e2, "NDN_APP_CERTIFICATE_CHAIN_DIR"@, t);
            lemma_upsert_if_contains(s, e0, "NDN_APP_SIGNING_KEY_FILE"@, p);
            lemma_upsert_if_contains(s, k0, "NDN_APP_SIGNING_CERT_FILE"@, p);
            lemma_upsert_if_contains(a, e1, "NDN_APP_TRUST_ANCHOR_DIR"@, p);
            lemma_upsert_if_contains(ch, e2, "NDN_APP_CERTIFICATE_CHAIN_DIR"@, p);
        },
    }
}

/// The pod's own volumes stay in the patched pod, at their index, unless an
/// injected volume has their name.
pub proof fn law_pod_volumes_kept(names: Seq<String>, c: Option<CredentialMounts>, j: int)
    requires
        0 <= j < names.len(),
        names[j]@ != VOLUME_NAME@,
        names[j]@ != SIGNING_VOLUME_NAME@,
        names[j]@ != TRUST_ANCHORS_VOLUME_NAME@,
        names[j]@ != CERTIFICATE_CHAIN_VOLUME_NAME@,
    ensures
        volumes_view(names, c).contains((names[j]@, Some(j as usize))),
{
    let x = (names[j]@, Some(j as usize));
    lemma_kept_contains(names, x);
    let v0 = upsert_view(kept(names), VOLUME_NAME@);
    lemma_upsert_contains(kept(names), VOLUME_NAME@, x);
    match c {
        None => {},
        Some(cm) => {
            let s = cm.signing is Some;
            let a = cm.trust_anchors@.len() > 0;
            let v1 = upsert_if(s, v0, SIGNING_VOLUME_NAME@);
            let v2 = upsert_if(a, v1, TRUST_ANCHORS_VOLUME_NAME@);
            lemma_upsert_if_contains(s, v0, SIGNING_VOLUME_NAME@, x);
            lemma_upsert_if_contains(a, v1, TRUST_ANCHORS_VOLUME_NAME@, x);
            lemma_upsert_if_contains(
                cm.certificate_chain@.len() > 0,
                v2,
                CERTIFICATE_CHAIN_VOLUME_NAME@,
                x,
            );
        },
    }
}

/// How many items of a list have the name `n`.
pub open spec fn count_name(l: Seq<(Seq<char>, Option<usize>)>, n: Seq<char>) -> nat
    decreases l.len(),
{
    if l.len() == 0 {
        0
    } else {
        count_name(l.drop_last(), n) + if l.last().0 == n {
            1nat
        } else {
            0nat
        }
    }
}

proof fn lemma_count_without(l: Seq<(Seq<char>, Option<usize>)>, m: Seq<char>, n: Seq<char>)
    ensures
        count_name(without(l, m), n) == if n == m {
            0
        } else {
            count_name(l, n)
        },
    decreases l.len(),
{
    if l.len() > 0 {
        lemma_count_without(l.drop_last(), m, n);
        let w = without(l.drop_last(), m);
        if l.last().0 != m {
            assert(w.push(l.last()).drop_last() =~= w);
        }
    }
}

proof fn lemma_count_upsert(l: Seq<(Seq<char>, Option<usize>)>, m: Seq<char>, n: Seq<char>)
    ensures
        count_name(upsert_view(l, m), n) == if n == m {
            1
        } else {
            count_name(l, n)
        },
{
    lemma_count_without(l, m, n);
    let w = without(l, m);
    assert(w.push((m, None::<usize>)).drop_last() =~= w);
}

proof fn lemma_count_upsert_if(
    cond: bool,
    l: Seq<(Seq<char>, Option<usize>)>,
    m: Seq<char>,
    n: Seq<char>,
)
    ensures
        count_name(upsert_if(cond, l, m), n) == if cond && n == m {
            1
        } else {
            count_name(l, n)
        },
{
    if cond {
        lemma_count_upsert(l, m, n);
    }
}

proof fn lemma_count_pos(l: Seq<(Seq<char>, Option<usize>)>, n: Seq<char>, a: int)
    requires
        0 <= a < l.len(),
        l[a].0 == n,
    ensures
        count_name(l, n) >= 1,
    decreases l.len(),
{
    if a < l.len() - 1 {
        lemma_count_pos(l.drop_last(), n, a);
    }
}

/// In a list with at most one item named `n`, two items of that name are the
/// same item.
proof fn lemma_count_unique(l: Seq<(Seq<char>, Option<usize>)>, n: Seq<char>, a: int, b: int)
    requires
        count_name(l, n) <= 1,
        0 <= a < l.len(),
        0 <= b < l.len(),
        l[a].0 == n,
        l[b].0 == n,
    ensures
        a == b,
    decreases l.len(),
{
    let d = l.drop_last();
    let last = l.len() - 1;
    if a == last && b == last {
    } else if a == last {
        lemma_count_pos(d, n, b);
    } else if b == last {
        lemma_count_pos(d, n, a);
    } else {
        lemma_count_unique(d, n, a, b);
    }
}

/// A list that holds the injected item named `n` and no other item of that
/// name: every slot named `n` is injected, and there is one.
proof fn lemma_slot_injected<T>(l: Seq<Slot<T>>, n: Seq<char>)
    requires
        count_name(slots_view(l), n) == 1,
        slots_view(l).contains((n, None::<usize>)),
    ensures
        forall|x: Slot<T>| l.contains(x) && slot_name(x) == n ==> x is Add,
        exists|x: Slot<T>| l.contains(x) && slot_name(x) == n,
{
    let v = slots_view(l);
    let k0 = choose|k: int| 0 <= k < v.len() && v[k] == (n, None::<usize>);
    assert forall|x: Slot<T>| l.contains(x) && slot_name(x) == n implies x is Add by {
        let k = choose|k: int| 0 <= k < l.len() && l[k] == x;
        assert(v[k] == slot_view(x));
        lemma_count_unique(v, n, k, k0);
    }
    assert(v[k0] == slot_view(l[k0]));
    assert(slot_name(l[k0]) == slot_view(l[k0]).0);
    assert(l.contains(l[k0]) && slot_name(l[k0]) == n);
}

/// Whether the patch injects a variable named `n` into a container.
pub open spec fn env_injected(n: Seq<char>, target: bool, c: Option<CredentialMounts>) -> bool {
    ||| n == "NDN_CLIENT_TRANSPORT"@
    ||| n == "NDN_PREFIX"@
    ||| (target && (c matches Some(cm) && ((cm.signing is Some && (n == "NDN_APP_SIGNING_KEY_FILE"@
        || n == "NDN_APP_SIGNING_CERT_FILE"@)) || (cm.trust_anchors@.len() > 0 && n
        == "NDN_APP_TRUST_ANCHOR_DIR"@) || (cm.certificate_chain@.len() > 0 && n
        == "NDN_APP_CERTIFICATE_CHAIN_DIR"@))))
}

/// Whether the patch injects a mount named `n` into a container.
pub open spec fn mount_injected(n: Seq<char>, target: bool, c: Option<CredentialMounts>) -> bool {
    ||| n == VOLUME_NAME@
    ||| (target && (c matches Some(cm) && ((cm.signing is Some && n == SIGNING_VOLUME_NAME@) || (
    cm.trust_anchors@.len() > 0 && n == TRUST_ANCHORS_VOLUME_NAME@) || (
    cm.certificate_chain@.len() > 0 && n == CERTIFICATE_CHAIN_VOLUME_NAME@))))
}

proof fn lemma_env_none(names: Seq<String>, target: bool, c: Option<CredentialMounts>, n: Seq<char>)
    ensures
        env_view_of(names, target, c).contains((n, None::<usize>)) <==> env_injected(n, target, c),
        count_name(env_view_of(names, target, c), "NDN_CLIENT_TRANSPORT"@) == 1,
        count_name(env_view_of(names, target, c), "NDN_PREFIX"@) == 1,
{
    lemma_names_differ();
    let x = (n, None::<usize>);
    let tn = "NDN_CLIENT_TRANSPORT"@;
    let pn = "NDN_PREFIX"@;
    lemma_kept_contains(names, x);
    let e_t = upsert_view(kept(names), tn);
    lemma_upsert_contains(kept(names), tn, x);
    let e0 = upsert_view(e_t, pn);
    lemma_upsert_contains(e_t, pn, x);
    lemma_count_upsert(kept(names), tn, tn);
    lemma_count_upsert(e_t, pn, tn);
    lemma_count_upsert(kept(names), tn, pn);
    lemma_count_upsert(e_t, pn, pn);
    match c {
        None => {},
        Some(cm) => if target {
            let s = cm.signing is Some;
            let a = cm.trust_anchors@.len() > 0;
            let ch = cm.certificate_chain@.len() > 0;
            let kn = "NDN_APP_SIGNING_KEY_FILE"@;
            let cn = "NDN_APP_SIGNING_CERT_FILE"@;
            let an = "NDN_APP_TRUST_ANCHOR_DIR"@;
            let hn = "NDN_APP_CERTIFICATE_CHAIN_DIR"@;
            let k0 = upsert_if(s, e0, kn);
            let e1 = upsert_if(s, k0, cn);
            let e2 = upsert_if(a, e1, an);
            lemma_upsert_if_contains(s, e0, kn, x);
            lemma_upsert_if_contains(s, k0, cn, x);
            lemma_upsert_if_contains(a, e1, an, x);
            lemma_upsert_if_contains(ch, e2, hn, x);
            lemma_count_upsert_if(s, e0, kn, tn);
            lemma_count_upsert_if(s, k0, cn, tn);
            lemma_count_upsert_if(a, e1, an, tn);
            lemma_count_upsert_if(ch, e2, hn, tn);
            lemma_count_upsert_if(s, e0, kn, pn);
            lemma_count_upsert_if(s, k0, cn, pn);
            lemma_count_upsert_if(a, e1, an, pn);
            lemma_count_upsert_if(ch, e2, hn, pn);
        },
    }
}

proof fn lemma_mount_none(names: Seq<String>, target: bool, c: Option<CredentialMounts>, n: Seq<char>)
    ensures
        mounts_view(names, target, c).contains((n, None::<usize>)) <==> mount_injected(n, target, c),
        count_name(mounts_view(names, target, c), VOLUME_NAME@) == 1,
{
    lemma_names_differ();
    let x = (n, None::<usize>);
    let vn = VOLUME_NAME@;
    lemma_kept_contains(names, x);
    let m0 = upsert_view(kept(names), vn);
    lemma_upsert_contains(kept(names), vn, x);
    lemma_count_upsert(kept(names), vn, vn);
    match c {
        None => {},
        Some(cm) => if target {
            let s = cm.signing is Some;
            let a = cm.trust_anchors@.len() > 0;
            let ch = cm.certificate_chain@.len() > 0;
            let m1 = upsert_if(s, m0, SIGNING_VOLUME_NAME@);
            let m2 = upsert_if(a, m1, TRUST_ANCHORS_VOLUME_NAME@);
            lemma_upsert_if_contains(s, m0, SIGNING_VOLUME_NAME@, x);
            lemma_upsert_if_contains(a, m1, TRUST_ANCHORS_VOLUME_NAME@, x);
            lemma_upsert_if_contains(ch, m2, CERTIFICATE_CHAIN_VOLUME_NAME@, x);
            lemma_count_upsert_if(s, m0, SIGNING_VOLUME_NAME@, vn);
            lemma_count_upsert_if(a, m1, TRUST_ANCHORS_VOLUME_NAME@, vn);
            lemma_count_upsert_if(ch, m2, CERTIFICATE_CHAIN_VOLUME_NAME@, vn);
        },
    }
}

proof fn lemma_volume_socket(names: Seq<String>, c: Option<CredentialMounts>)
    ensures
        volumes_view(names, c).contains((VOLUME_NAME@, None::<usize>)),
        count_name(volumes_view(names, c), VOLUME_NAME@) == 1,
{
    lemma_names_differ();
    let x = (VOLUME_NAME@, None::<usize>);
    let vn = VOLUME_NAME@;
    let v0 = upsert_view(kept(names), vn);
    lemma_upsert_contains(kept(names), vn, x);
    lemma_count_upsert(kept(names), vn, vn);
    match c {
        None => {},
        Some(cm) => {
            let s = cm.signing is Some;
            let a = cm.trust_anchors@.len() > 0;
            let ch = cm.certificate_chain@.len() > 0;
            let v1 = upsert_if(s, v0, SIGNING_VOLUME_NAME@);
            let v2 = upsert_if(a, v1, TRUST_ANCHORS_VOLUME_NAME@);
            lemma_upsert_if_contains(s, v0, SIGNING_VOLUME_NAME@, x);
            lemma_upsert_if_contains(a, v1, TRUST_ANCHORS_VOLUME_NAME@, x);
            lemma_upsert_if_contains(ch, v2, CERTIFICATE_CHAIN_VOLUME_NAME@, x);
            lemma_count_upsert_if(s, v0, SIGNING_VOLUME_NAME@, vn);
            lemma_count_upsert_if(a, v1, TRUST_ANCHORS_VOLUME_NAME@, vn);
            lemma_count_upsert_if(ch, v2, CERTIFICATE_CHAIN_VOLUME_NAME@, vn);
        },
    }
}

/// The list holds an injected variable named `n`, with the value its name
/// calls for.
pub open spec fn has_injected_env(l: Seq<Slot<EnvVar>>, n: Seq<char>, nw: Network) -> bool {
    exists|x: Slot<EnvVar>| #[trigger]
        l.contains(x) && (x matches Slot::Add(k, e) && k@ == n && injected_env(n, e, nw))
}

/// The list holds an injected mount named `n`, at the path its name calls
/// for.
pub open spec fn has_injected_mount(l: Seq<Slot<VolumeMount>>, n: Seq<char>) -> bool {
    exists|x: Slot<VolumeMount>| #[trigger]
        l.contains(x) && (x matches Slot::Add(k, m) && k@ == n && injected_mount(n, m))
}

/// Every container of an injected pod reaches the `ndnd` socket, once: it has
/// exactly one `NDN_CLIENT_TRANSPORT` (`unix:///run/ndnd.sock`), one
/// `NDN_PREFIX` (the network's prefix) and one `run-ndnd` mount at
/// `/run/ndnd.sock`, each injected. The pod has exactly one `run-ndnd`
/// volume, the network's socket on the node. The container's own variables
/// and mounts stay, at their index, unless the patch injects one of their
/// name.
pub proof fn law_patched_pod_reaches_socket(
    patch: PodPatch,
    p: PodShape,
    nw: Network,
    c: Option<CredentialMounts>,
)
    requires
        patch_built(patch, p, nw, c),
    ensures
        forall|i: int|
            #![trigger patch.containers@[i]]
            0 <= i < p.containers@.len() ==> {
                let cp = patch.containers@[i];
                &&& count_name(slots_view(cp.env@), "NDN_CLIENT_TRANSPORT"@) == 1
                &&& count_name(slots_view(cp.env@), "NDN_PREFIX"@) == 1
                &&& count_name(slots_view(cp.volume_mounts@), VOLUME_NAME@) == 1
                &&& has_injected_env(cp.env@, "NDN_CLIENT_TRANSPORT"@, nw)
                &&& has_injected_env(cp.env@, "NDN_PREFIX"@, nw)
                &&& has_injected_mount(cp.volume_mounts@, VOLUME_NAME@)
                &&& forall|x: Slot<EnvVar>|
                    cp.env@.contains(x) && (slot_name(x) == "NDN_CLIENT_TRANSPORT"@ || slot_name(x)
                        == "NDN_PREFIX"@) ==> x is Add
                &&& forall|x: Slot<VolumeMount>|
                    cp.volume_mounts@.contains(x) && slot_name(x) == VOLUME_NAME@ ==> x is Add
                &&& forall|j: int|
                    0 <= j < p.containers@[i].env@.len() && !env_injected(
                        p.containers@[i].env@[j]@,
                        is_target(p, c, i),
                        c,
                    ) ==> slots_view(cp.env@).contains(
                        (p.containers@[i].env@[j]@, Some(j as usize)),
                    )
                &&& forall|j: int|
                    0 <= j < p.containers@[i].volume_mounts@.len() && !mount_injected(
                        p.containers@[i].volume_mounts@[j]@,
                        is_target(p, c, i),
                        c,
                    ) ==> slots_view(cp.volume_mounts@).contains(
                        (p.containers@[i].volume_mounts@[j]@, Some(j as usize)),
                    )
            },
        count_name(slots_view(patch.volumes@), VOLUME_NAME@) == 1,
        exists|x: Slot<Volume>| #[trigger]
            patch.volumes@.contains(x) && (x matches Slot::Add(k, v) && k@ == VOLUME_NAME@
                && injected_volume(VOLUME_NAME@, v, nw, c)),
        forall|x: Slot<Volume>| patch.volumes@.contains(x) && slot_name(x) == VOLUME_NAME@ ==> x is Add,
{
    lemma_names_differ();
    assert forall|i: int|
        #![trigger patch.containers@[i]]
        0 <= i < p.containers@.len() implies {
            let cp = patch.containers@[i];
            &&& count_name(slots_view(cp.env@), "NDN_CLIENT_TRANSPORT"@) == 1
            &&& count_name(slots_view(cp.env@), "NDN_PREFIX"@) == 1
            &&& count_name(slots_view(cp.volume_mounts@), VOLUME_NAME@) == 1
            &&& has_injected_env(cp.env@, "NDN_CLIENT_TRANSPORT"@, nw)
            &&& has_injected_env(cp.env@, "NDN_PREFIX"@, nw)
            &&& has_injected_mount(cp.volume_mounts@, VOLUME_NAME@)
            &&& forall|x: Slot<EnvVar>|
                cp.env@.contains(x) && (slot_name(x) == "NDN_CLIENT_TRANSPORT"@ || slot_name(x)
                    == "NDN_PREFIX"@) ==> x is Add
            &&& forall|x: Slot<VolumeMount>|
                cp.volume_mounts@.contains(x) && slot_name(x) == VOLUME_NAME@ ==> x is Add
            &&& forall|j: int|
                0 <= j < p.containers@[i].env@.len() && !env_injected(
                    p.containers@[i].env@[j]@,
                    is_target(p, c, i),
                    c,
                ) ==> slots_view(cp.env@).contains((p.containers@[i].env@[j]@, Some(j as usize)))
            &&& forall|j: int|
                0 <= j < p.containers@[i].volume_mounts@.len() && !mount_injected(
                    p.containers@[i].volume_mounts@[j]@,
                    is_target(p, c, i),
                    c,
                ) ==> slots_view(cp.volume_mounts@).contains(
                    (p.containers@[i].volume_mounts@[j]@, Some(j as usize)),
                )
        } by {
        let cp = patch.containers@[i];
        let shape = p.containers@[i];
        let t = is_target(p, c, i);
        assert(container_patched(cp, shape, t, nw, c));
        lemma_env_none(shape.env@, t, c, "NDN_CLIENT_TRANSPORT"@);
        lemma_env_none(shape.env@, t, c, "NDN_PREFIX"@);
        lemma_mount_none(shape.volume_mounts@, t, c, VOLUME_NAME@);
        lemma_slot_injected(cp.env@, "NDN_CLIENT_TRANSPORT"@);
        lemma_slot_injected(cp.env@, "NDN_PREFIX"@);
        lemma_slot_injected(cp.volume_mounts@, VOLUME_NAME@);
        lemma_env_has(cp.env@, "NDN_CLIENT_TRANSPORT"@, nw);
        lemma_env_has(cp.env@, "NDN_PREFIX"@, nw);
        lemma_mount_has(cp.volume_mounts@, VOLUME_NAME@);
        assert forall|j: int|
            0 <= j < shape.env@.len() && !env_injected(shape.env@[j]@, t, c) implies slots_view(
            cp.env@,
        ).contains((shape.env@[j]@, Some(j as usize))) by {
            lemma_env_kept(shape.env@, t, c, j);
        }
        assert forall|j: int|
            0 <= j < shape.volume_mounts@.len() && !mount_injected(
                shape.volume_mounts@[j]@,
                t,
                c,
            ) implies slots_view(cp.volume_mounts@).contains(
            (shape.volume_mounts@[j]@, Some(j as usize)),
        ) by {
            lemma_mount_kept(shape.volume_mounts@, t, c, j);
        }
    }
    lemma_volume_socket(p.volumes@, c);
    lemma_slot_injected(patch.volumes@, VOLUME_NAME@);
    let v = slots_view(patch.volumes@);
    let k0 = choose|k: int| 0 <= k < v.len() && v[k] == (VOLUME_NAME@, None::<usize>);
    assert(v[k0] == slot_view(patch.volumes@[k0]));
    assert(patch.volumes@.contains(patch.volumes@[k0]));
}

/// An injected variable named `n` in a list whose view holds `(n, None)` and
/// whose injected variables hold what their names call for.
proof fn lemma_env_has(l: Seq<Slot<EnvVar>>, n: Seq<char>, nw: Network)
    requires
        slots_view(l).contains((n, None::<usize>)),
        envs_ok(l, nw),
    ensures
        has_injected_env(l, n, nw),
{
    let v = slots_view(l);
    let k = choose|k: int| 0 <= k < v.len() && v[k] == (n, None::<usize>);
    assert(v[k] == slot_view(l[k]));
    assert(l.contains(l[k]));
}

proof fn lemma_mount_has(l: Seq<Slot<VolumeMount>>, n: Seq<char>)
    requires
        slots_view(l).contains((n, None::<usize>)),
        mounts_ok(l),
    ensures
        has_injected_mount(l, n),
{
    let v = slots_view(l);
    let k = choose|k: int| 0 <= k < v.len() && v[k] == (n, None::<usize>);
    assert(v[k] == slot_view(l[k]));
    assert(l.contains(l[k]));
}

proof fn lemma_env_kept(names: Seq<String>, target: bool, c: Option<CredentialMounts>, j: int)
    requires
        0 <= j < names.len(),
        !env_injected(names[j]@, target, c),
    ensures
        env_view_of(names, target, c).contains((names[j]@, Some(j as usize))),
{
    let x = (names[j]@, Some(j as usize));
    lemma_kept_contains(names, x);
    let e_t = upsert_view(kept(names), "NDN_CLIENT_TRANSPORT"@);
    lemma_upsert_contains(kept(names), "NDN_CLIENT_TRANSPORT"@, x);
    let e0 = upsert_view(e_t, "NDN_PREFIX"@);
    lemma_upsert_contains(e_t, "NDN_PREFIX"@, x);
    match c {
        None => {},
        Some(cm) => if target {
            let s = cm.signing is Some;
            let a = cm.trust_anchors@.len() > 0;
            let ch = cm.certificate_chain@.len() > 0;
            let k0 = upsert_if(s, e0, "NDN_APP_SIGNING_KEY_FILE"@);
            let e1 = upsert_if(s, k0, "NDN_APP_SIGNING_CERT_FILE"@);
            let e2 = upsert_if(a, e1, "NDN_APP_TRUST_ANCHOR_DIR"@);
            lemma_upsert_if_contains(s, e0, "NDN_APP_SIGNING_KEY_FILE"@, x);
            lemma_upsert_if_contains(s, k0, "NDN_APP_SIGNING_CERT_FILE"@, x);
            lemma_upsert_if_contains(a, e1, "NDN_APP_TRUST_ANCHOR_DIR"@, x);
            lemma_upsert_if_contains(ch, e2, "NDN_APP_CERTIFICATE_CHAIN_DIR"@, x);
        },
    }
}

proof fn lemma_mount_kept(names: Seq<String>, target: bool, c: Option<CredentialMounts>, j: int)
    requires
        0 <= j < names.len(),
        !mount_injected(names[j]@, target, c),
    ensures
        mounts_view(names, target, c).contains((names[j]@, Some(j as usize))),
{
    let x = (names[j]@, Some(j as usize));
    lemma_kept_contains(names, x);
    let m0 = upsert_view(kept(names), VOLUME_NAME@);
    lemma_upsert_contains(kept(names), VOLUME_NAME@, x);
    match c {
        None => {},
        Some(cm) => if target {
            let s = cm.signing is Some;
            let a = cm.trust_anchors@.len() > 0;
            let ch = cm.certificate_chain@.len() > 0;
            let m1 = upsert_if(s, m0, SIGNING_VOLUME_NAME@);
            let m2 = upsert_if(a, m1, TRUST_ANCHORS_VOLUME_NAME@);
            lemma_upsert_if_contains(s, m0, SIGNING_VOLUME_NAME@, x);
            lemma_upsert_if_contains(a, m1, TRUST_ANCHORS_VOLUME_NAME@, x);
            lemma_upsert_if_contains(ch, m2, CERTIFICATE_CHAIN_VOLUME_NAME@, x);
        },
    }
}

/// The credentials go to their container alone: in every container the
/// injected variables and mounts are exactly those `env_injected` and
/// `mount_injected` name for it (the socket's in every container; the signing
/// key and certificate, the trust anchors and the certificate chain, each as
/// the credentials ask for them, only in the credentials' container), each
/// holding the path its name calls for.
pub proof fn law_patched_pod_credentials(
    patch: PodPatch,
    p: PodShape,
    nw: Network,
    c: Option<CredentialMounts>,
)
    requires
        patch_built(patch, p, nw, c),
    ensures
        forall|i: int, n: Seq<char>|
            #![trigger patch.containers@[i], env_injected(n, is_target(p, c, i), c)]
            0 <= i < p.containers@.len() ==> (env_injected(n, is_target(p, c, i), c)
                <==> has_injected_env(patch.containers@[i].env@, n, nw)),
        forall|i: int, n: Seq<char>|
            #![trigger patch.containers@[i], mount_injected(n, is_target(p, c, i), c)]
            0 <= i < p.containers@.len() ==> (mount_injected(n, is_target(p, c, i), c)
                <==> has_injected_mount(patch.containers@[i].volume_mounts@, n)),
{
    assert forall|i: int, n: Seq<char>|
        0 <= i < p.containers@.len() implies (env_injected(n, is_target(p, c, i), c)
        <==> has_injected_env(patch.containers@[i].env@, n, nw)) by {
        let cp = patch.containers@[i];
        let shape = p.containers@[i];
        let t = is_target(p, c, i);
        assert(container_patched(cp, shape, t, nw, c));
        lemma_env_none(shape.env@, t, c, n);
        if env_injected(n, t, c) {
            lemma_env_has(cp.env@, n, nw);
        }
        if has_injected_env(cp.env@, n, nw) {
            let x = choose|x: Slot<EnvVar>|
                cp.env@.contains(x) && (x matches Slot::Add(k, e) && k@ == n && injected_env(
                    n,
                    e,
                    nw,
                ));
            let k = choose|k: int| 0 <= k < cp.env@.len() && cp.env@[k] == x;
            assert(slots_view(cp.env@)[k] == slot_view(x));
        }
    }
    assert forall|i: int, n: Seq<char>|
        0 <= i < p.containers@.len() implies (mount_injected(n, is_target(p, c, i), c)
        <==> has_injected_mount(patch.containers@[i].volume_mounts@, n)) by {
        let cp = patch.containers@[i];
        let shape = p.containers@[i];
        let t = is_target(p, c, i);
        assert(container_patched(cp, shape, t, nw, c));
        lemma_mount_none(shape.volume_mounts@, t, c, n);
        if mount_injected(n, t, c) {
            lemma_mount_has(cp.volume_mounts@, n);
        }
        if has_injected_mount(cp.volume_mounts@, n) {
            let x = choose|x: Slot<VolumeMount>|
                cp.volume_mounts@.contains(x) && (x matches Slot::Add(k, m) && k@ == n
                    && injected_mount(n, m));
            let k = choose|k: int| 0 <= k < cp.volume_mounts@.len() && cp.volume_mounts@[k] == x;
            assert(slots_view(cp.volume_mounts@)[k] == slot_view(x));
        }
    }
}

} // verus!
