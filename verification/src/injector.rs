//! The pod injector's logic: which application credentials a pod asks for by
//! its annotations, when a resolved certificate can serve, and the patch that
//! mounts the `ndnd` socket into every container and the credentials into
//! the one container named for them.
use vstd::prelude::*;

pub mod patch;

use crate::cert_controller::types::{Certificate, ExternalCertificate};
use crate::network_controller::pod_sync::Pod;
use crate::objects::{map_or_empty, StringMap};
use crate::split::{split_on, split_on_chars, split_once, split_once_chars, views};
use crate::text::{chars_of, join3, lit, string_from_chars, trim, trim_chars};
use crate::Error;

verus! {

/// Annotation naming the network a pod attaches to.
pub const ANNOTATION_NAME: &'static str = "networks.named-data.net/name";

/// Annotation naming the namespace of that network (the pod's own when
/// absent).
pub const ANNOTATION_NAMESPACE: &'static str = "networks.named-data.net/namespace";

/// Annotation naming the only container that receives credentials.
pub const ANNOTATION_CREDENTIAL_CONTAINER: &'static str = "credentials.named-data.net/container";

/// Annotation naming the certificate whose key and certificate sign.
pub const ANNOTATION_SIGNING: &'static str = "credentials.named-data.net/signing";

/// Annotation listing the trusted roots.
pub const ANNOTATION_TRUST_ANCHORS: &'static str = "credentials.named-data.net/trust-anchors";

/// Annotation listing the untrusted chain certificates.
pub const ANNOTATION_CERTIFICATE_CHAIN: &'static str = "credentials.named-data.net/certificate-chain";

/// The kind of resource a credential reference names.
#[derive(Debug, Clone, Copy, PartialEq, Eq, Structural)]
pub enum CredentialKind {
    Certificate,
    ExternalCertificate,
}

/// A credential reference, `<Kind>/<name>`.
#[derive(Debug)]
pub struct CredentialRef {
    pub kind: CredentialKind,
    pub name: String,
}

/// The credentials a pod asks for.
#[derive(Debug)]
pub struct CredentialRequest {
    /// The container that receives them.
    pub container: String,
    pub signing: Option<CredentialRef>,
    pub trust_anchors: Vec<CredentialRef>,
    pub certificate_chain: Vec<CredentialRef>,
}

/// A certificate that can serve: its certificate Secret and, when it has
/// one, its key Secret.
#[derive(Debug)]
pub struct ResolvedCertificate {
    pub key_secret: Option<String>,
    pub cert_secret: String,
}

/// What is mounted into the credentials' container.
#[derive(Debug)]
pub struct CredentialMounts {
    pub container: String,
    pub signing: Option<ResolvedCertificate>,
    /// The certificate Secrets of the trust anchors.
    pub trust_anchors: Vec<String>,
    /// The certificate Secrets of the chain.
    pub certificate_chain: Vec<String>,
}

/// A reference read from its text: the kind and name, or the message of the
/// error. The text is trimmed and split at its first '/'; the name must be
/// non-empty and hold no further '/'.
pub open spec fn parse_ref(raw: Seq<char>) -> Result<(CredentialKind, Seq<char>), Seq<char>> {
    match split_once(trim(raw), '/') {
        None => Err("credential reference `"@ + raw + "` must be Kind/name"@),
        Some((k, n)) => if n.len() == 0 || n.contains('/') {
            Err("credential reference `"@ + raw + "` has an invalid resource name"@)
        } else if k == "Certificate"@ {
            Ok((CredentialKind::Certificate, n))
        } else if k == "ExternalCertificate"@ {
            Ok((CredentialKind::ExternalCertificate, n))
        } else {
            Err("unsupported credential kind `"@ + k + "` in `"@ + raw + "`"@)
        },
    }
}

/// One item of a list: a blank item is an error; any other is a reference.
pub open spec fn parse_item(raw: Seq<char>) -> Result<(CredentialKind, Seq<char>), Seq<char>> {
    if trim(raw).len() == 0 {
        Err("credential reference list contains an empty item"@)
    } else {
        parse_ref(raw)
    }
}

/// The references of a list read in order; the first bad item (blank, or
/// failing `parse_ref`) fails the list.
pub open spec fn parse_items(items: Seq<Seq<char>>) -> Result<
    Seq<(CredentialKind, Seq<char>)>,
    Seq<char>,
>
    decreases items.len(),
{
    if items.len() == 0 {
        Ok(Seq::empty())
    } else {
        match parse_items(items.drop_last()) {
            Err(m) => Err(m),
            Ok(prev) => match parse_item(items.last()) {
                Ok(x) => Ok(prev.push(x)),
                Err(m) => Err(m),
            },
        }
    }
}

/// The references of an optional comma-separated list.
pub open spec fn parse_list(value: Option<Seq<char>>) -> Result<
    Seq<(CredentialKind, Seq<char>)>,
    Seq<char>,
> {
    match value {
        None => Ok(Seq::empty()),
        Some(v) => parse_items(split_on(v, ',')),
    }
}

/// A reference by view.
pub open spec fn ref_view(r: CredentialRef) -> (CredentialKind, Seq<char>) {
    (r.kind, r.name@)
}

/// The value of an annotation, if the pod has it.
pub open spec fn annotation(a: Map<Seq<char>, Seq<char>>, key: Seq<char>) -> Option<Seq<char>> {
    if a.contains_key(key) {
        Some(a[key])
    } else {
        None
    }
}

/// What the annotations of a pod ask for: nothing when none of signing, trust
/// anchors or chain is set; else the container (required, trimmed, non-empty)
/// and each reference, read in that order, the first error failing all.
pub open spec fn request_of(a: Map<Seq<char>, Seq<char>>) -> Result<
    Option<
        (
            Seq<char>,
            Option<(CredentialKind, Seq<char>)>,
            Seq<(CredentialKind, Seq<char>)>,
            Seq<(CredentialKind, Seq<char>)>,
        ),
    >,
    Seq<char>,
> {
    let signing = annotation(a, ANNOTATION_SIGNING@);
    let anchors = annotation(a, ANNOTATION_TRUST_ANCHORS@);
    let chain = annotation(a, ANNOTATION_CERTIFICATE_CHAIN@);
    if signing is None && anchors is None && chain is None {
        Ok(None)
    } else {
        match annotation(a, ANNOTATION_CREDENTIAL_CONTAINER@) {
            None => Err(
                "annotation `"@ + ANNOTATION_CREDENTIAL_CONTAINER@
                    + "` is required when application credentials are requested"@,
            ),
            Some(c) => if trim(c).len() == 0 {
                Err("annotation `"@ + ANNOTATION_CREDENTIAL_CONTAINER@ + "` cannot be empty"@)
            } else {
                let s = match signing {
                    None => Ok(None),
                    Some(v) => match parse_ref(v) {
                        Ok(x) => Ok(Some(x)),
                        Err(m) => Err(m),
                    },
                };
                match s {
                    Err(m) => Err(m),
                    Ok(s) => match parse_list(anchors) {
                        Err(m) => Err(m),
                        Ok(t) => match parse_list(chain) {
                            Err(m) => Err(m),
                            Ok(ch) => Ok(Some((trim(c), s, t, ch))),
                        },
                    },
                }
            },
        }
    }
}

/// The name of a kind.
pub open spec fn kind_text(k: CredentialKind) -> Seq<char> {
    match k {
        CredentialKind::Certificate => "Certificate"@,
        CredentialKind::ExternalCertificate => "ExternalCertificate"@,
    }
}

impl CredentialRef {
    /// Reads a reference `<Kind>/<name>`, where the kind is `Certificate` or
    /// `ExternalCertificate`.
    pub fn parse(raw: &str) -> (r: Result<CredentialRef, Error>)
        ensures
            match parse_ref(raw@) {
                Ok((k, n)) => r matches Ok(c) && c.kind == k && c.name@ == n,
                Err(m) => r matches Err(Error::ValidationError(e)) && e@ == m,
            },
    {
        let chars = chars_of(raw);
        let t = trim_chars(&chars);
        match split_once_chars(&t, '/') {
            None => Err(Error::ValidationError(join3("credential reference `", raw, "` must be Kind/name"))),
            Some((k, n)) => {
                if n.len() == 0 || crate::split::contains_char(&n, '/') {
                    return Err(
                        Error::ValidationError(
                            join3("credential reference `", raw, "` has an invalid resource name"),
                        ),
                    );
                }
                let ks = string_from_chars(k.as_slice());
                let name = string_from_chars(n.as_slice());
                if crate::text::same_text(ks.as_str(), "Certificate") {
                    Ok(CredentialRef { kind: CredentialKind::Certificate, name })
                } else if crate::text::same_text(ks.as_str(), "ExternalCertificate") {
                    Ok(CredentialRef { kind: CredentialKind::ExternalCertificate, name })
                } else {
                    let a = join3("unsupported credential kind `", ks.as_str(), "` in `");
                    let m = join3(a.as_str(), raw, "`");
                    Err(Error::ValidationError(m))
                }
            },
        }
    }
}

/// The name of a reference's kind.
pub fn kind_name(reference: &CredentialRef) -> (r: &'static str)
    ensures
        r@ == kind_text(reference.kind),
{
    match reference.kind {
        CredentialKind::Certificate => "Certificate",
        CredentialKind::ExternalCertificate => "ExternalCertificate",
    }
}

proof fn lemma_parse_items_err_extends(items: Seq<Seq<char>>, k: int)
    requires
        0 <= k <= items.len(),
        parse_items(items.subrange(0, k)) is Err,
    ensures
        parse_items(items) == parse_items(items.subrange(0, k)),
    decreases items.len() - k,
{
    if k == items.len() {
        assert(items.subrange(0, k) =~= items);
    } else {
        let d = items.drop_last();
        assert(d.subrange(0, k) =~= items.subrange(0, k));
        lemma_parse_items_err_extends(d, k);
    }
}

fn parse_item_exec(raw_chars: &Vec<char>) -> (r: Result<CredentialRef, Error>)
    ensures
        match parse_item(raw_chars@) {
            Ok((k, n)) => r matches Ok(c) && c.kind == k && c.name@ == n,
            Err(m) => r matches Err(Error::ValidationError(e)) && e@ == m,
        },
{
    let trimmed = trim_chars(raw_chars);
    if trimmed.len() == 0 {
        return Err(Error::ValidationError(lit("credential reference list contains an empty item")));
    }
    let raw = string_from_chars(raw_chars.as_slice());
    CredentialRef::parse(raw.as_str())
}

/// Reads a comma-separated list of references.
fn parse_list_exec(value: Option<&str>) -> (r: Result<Vec<CredentialRef>, Error>)
    ensures
        match parse_list(match value {
            Some(v) => Some(v@),
            None => None,
        }) {
            Ok(refs) => r matches Ok(v) && v@.map_values(|x: CredentialRef| ref_view(x)) == refs,
            Err(m) => r matches Err(Error::ValidationError(e)) && e@ == m,
        },
{
    match value {
        None => {
            let v: Vec<CredentialRef> = Vec::new();
            assert(v@.map_values(|x: CredentialRef| ref_view(x)) =~= Seq::<
                (CredentialKind, Seq<char>),
            >::empty());
            Ok(v)
        },
        Some(text) => {
            let chars = chars_of(text);
            let items = split_on_chars(&chars, ',');
            let ghost iv = views(items@);
            let mut out: Vec<CredentialRef> = Vec::new();
            let mut i: usize = 0;
            while i < items.len()
                invariant
                    i <= items@.len(),
                    iv == views(items@),
                    iv == split_on(text@, ','),
                    value matches Some(t) && t@ == text@,
                    parse_items(iv.subrange(0, i as int)) matches Ok(p) && out@.map_values(
                        |x: CredentialRef| ref_view(x),
                    ) == p,
                decreases items@.len() - i,
            {
                let ghost sub = iv.subrange(0, i + 1);
                proof {
                    assert(sub.drop_last() =~= iv.subrange(0, i as int));
                    assert(sub.last() == items@[i as int]@);
                }
                let c = match parse_item_exec(&items[i]) {
                    Ok(c) => c,
                    Err(e) => {
                        proof {
                            assert(parse_items(sub) == Err::<Seq<(CredentialKind, Seq<char>)>, Seq<char>>(parse_item(items@[i as int]@)->Err_0));
                            lemma_parse_items_err_extends(iv, i + 1);
                        }
                        return Err(e);
                    },
                };
                proof {
                    assert(out@.push(c).map_values(|x: CredentialRef| ref_view(x)) =~= out@.map_values(
                        |x: CredentialRef| ref_view(x),
                    ).push(ref_view(c)));
                }
                out.push(c);
                i = i + 1;
            }
            assert(iv.subrange(0, items@.len() as int) =~= iv);
            Ok(out)
        },
    }
}

/// The value of an annotation, if present.
fn annotation_of(a: &StringMap, key: &str) -> (r: Option<String>)
    ensures
        match r {
            Some(v) => annotation(a@, key@) == Some(v@),
            None => annotation(a@, key@) is None,
        },
{
    a.get(key)
}

/// Reads the credentials a pod asks for by its annotations: `None` when it
/// asks for none. The target container is required and trimmed; a bad
/// reference fails the whole request.
pub fn parse_credential_request(pod: &Pod) -> (r: Result<Option<CredentialRequest>, Error>)
    ensures
        match request_of(map_or_empty(pod.metadata.annotations)) {
            Ok(None) => r matches Ok(None),
            Ok(Some((c, s, t, ch))) => r matches Ok(Some(req)) && {
                &&& req.container@ == c
                &&& match s {
                    Some(x) => req.signing matches Some(y) && ref_view(y) == x,
                    None => req.signing is None,
                }
                &&& req.trust_anchors@.map_values(|x: CredentialRef| ref_view(x)) == t
                &&& req.certificate_chain@.map_values(|x: CredentialRef| ref_view(x)) == ch
            },
            Err(m) => r matches Err(Error::ValidationError(e)) && e@ == m,
        },
{
    let annotations = pod.metadata.annotations_or_empty();
    let signing = annotation_of(&annotations, ANNOTATION_SIGNING);
    let anchors = annotation_of(&annotations, ANNOTATION_TRUST_ANCHORS);
    let chain = annotation_of(&annotations, ANNOTATION_CERTIFICATE_CHAIN);
    if signing.is_none() && anchors.is_none() && chain.is_none() {
        return Ok(None);
    }
    let container = match annotation_of(&annotations, ANNOTATION_CREDENTIAL_CONTAINER) {
        None => {
            return Err(
                Error::ValidationError(
                    join3(
                        "annotation `",
                        ANNOTATION_CREDENTIAL_CONTAINER,
                        "` is required when application credentials are requested",
                    ),
                ),
            );
        },
        Some(c) => c,
    };
    let cchars = chars_of(container.as_str());
    let ctrim = trim_chars(&cchars);
    if ctrim.len() == 0 {
        return Err(
            Error::ValidationError(
                join3("annotation `", ANNOTATION_CREDENTIAL_CONTAINER, "` cannot be empty"),
            ),
        );
    }
    let signing_ref = match &signing {
        None => None,
        Some(v) => Some(CredentialRef::parse(v.as_str())?),
    };
    let anchors_ref: Option<&str> = match &anchors {
        Some(v) => Some(v.as_str()),
        None => None,
    };
    let trust_anchors = parse_list_exec(anchors_ref)?;
    let chain_ref: Option<&str> = match &chain {
        Some(v) => Some(v.as_str()),
        None => None,
    };
    let certificate_chain = parse_list_exec(chain_ref)?;
    Ok(
        Some(
            CredentialRequest {
                container: string_from_chars(ctrim.as_slice()),
                signing: signing_ref,
                trust_anchors,
                certificate_chain,
            },
        ),
    )
}

/// Whether a certificate can serve: a valid certificate with its Secret, and
/// a key Secret when it signs. The error says which is missing, naming the
/// reference as `<Kind>/<name>`.
pub open spec fn resolution(
    reference: CredentialRef,
    require_key: bool,
    key_exists: bool,
    key_secret: Option<String>,
    cert_exists: bool,
    cert_valid: bool,
    cert_secret: Option<String>,
) -> Result<(), Seq<char>> {
    let who = kind_text(reference.kind) + "/"@ + reference.name@;
    if !cert_exists || !cert_valid {
        Err("credential "@ + who + " does not have a ready valid certificate"@)
    } else if cert_secret is None {
        Err("credential "@ + who + " has no certificate Secret"@)
    } else if require_key && (!key_exists || key_secret is None) {
        Err("signing credential "@ + who + " does not have a private key Secret"@)
    } else {
        Ok(())
    }
}

/// Checks that a certificate can serve, from the fields of its status.
pub fn validate_resolved_certificate(
    reference: &CredentialRef,
    require_key: bool,
    key_exists: bool,
    key_secret: Option<String>,
    cert_exists: bool,
    cert_valid: bool,
    cert_secret: Option<String>,
) -> (r: Result<ResolvedCertificate, Error>)
    ensures
        match resolution(
            *reference,
            require_key,
            key_exists,
            key_secret,
            cert_exists,
            cert_valid,
            cert_secret,
        ) {
            Ok(()) => r matches Ok(rc) && rc.key_secret == key_secret && Some(rc.cert_secret)
                == cert_secret,
            Err(m) => r matches Err(Error::ValidationError(e)) && e@ == m,
        },
{
    let who = join3(kind_name(reference), "/", reference.name.as_str());
    if !cert_exists || !cert_valid {
        let m = join3("credential ", who.as_str(), " does not have a ready valid certificate");
        return Err(Error::ValidationError(m));
    }
    let cert_secret = match cert_secret {
        Some(c) => c,
        None => {
            let m = join3("credential ", who.as_str(), " has no certificate Secret");
            return Err(Error::ValidationError(m));
        },
    };
    if require_key && (!key_exists || key_secret.is_none()) {
        let m = join3("signing credential ", who.as_str(), " does not have a private key Secret");
        return Err(Error::ValidationError(m));
    }
    Ok(ResolvedCertificate { key_secret, cert_secret })
}

/// The network a pod attaches to, by its annotations: the named network in
/// the named namespace, or in the pod's own namespace ("" when it has none).
/// A pod without the name annotation is not injected.
pub fn network_of_pod(pod: &Pod) -> (r: Option<(String, String)>)
    ensures
        ({
            let a = map_or_empty(pod.metadata.annotations);
            match annotation(a, ANNOTATION_NAME@) {
                None => r is None,
                Some(n) => r matches Some((x, y)) && x@ == n && y@ == match annotation(
                    a,
                    ANNOTATION_NAMESPACE@,
                ) {
                    Some(ns) => ns,
                    None => match pod.metadata.namespace {
                        Some(ns) => ns@,
                        None => Seq::empty(),
                    },
                },
            }
        }),
{
    let annotations = pod.metadata.annotations_or_empty();
    match annotation_of(&annotations, ANNOTATION_NAME) {
        None => None,
        Some(name) => match annotation_of(&annotations, ANNOTATION_NAMESPACE) {
            Some(ns) => Some((name, ns)),
            None => {
                let ns = match &pod.metadata.namespace {
                    Some(ns) => ns.clone(),
                    None => String::new(),
                };
                Some((name, ns))
            },
        },
    }
}

/// The namespace in which a pod's credentials are resolved: the pod's own,
/// which it must have.
pub fn credentials_namespace(pod: &Pod) -> (r: Result<String, Error>)
    ensures
        pod.metadata.namespace matches Some(ns) ==> r == Ok::<String, Error>(ns),
        pod.metadata.namespace is None ==> (r matches Err(Error::ValidationError(m)) && m@
            == "application credential injection requires a Pod namespace"@),
{
    match &pod.metadata.namespace {
        Some(ns) => Ok(ns.clone()),
        None => Err(
            Error::ValidationError(lit("application credential injection requires a Pod namespace")),
        ),
    }
}

/// A `Certificate` as the cluster holds it, checked as a credential: it must
/// have a status, which must pass `validate_resolved_certificate`.
pub fn resolve_from_certificate(
    reference: &CredentialRef,
    require_key: bool,
    cert: &Certificate,
) -> (r: Result<ResolvedCertificate, Error>)
    ensures
        cert.status is None ==> (r matches Err(Error::ValidationError(m)) && m@ == "Certificate/"@
            + reference.name@ + " has no status"@),
        cert.status matches Some(st) ==> match resolution(
            *reference,
            require_key,
            st.key_exists,
            st.key.secret,
            st.cert_exists,
            st.cert.valid,
            st.cert.secret,
        ) {
            Ok(()) => r matches Ok(rc) && rc.key_secret == st.key.secret && Some(rc.cert_secret)
                == st.cert.secret,
            Err(m) => r matches Err(Error::ValidationError(e)) && e@ == m,
        },
{
    match &cert.status {
        None => Err(
            Error::ValidationError(join3("Certificate/", reference.name.as_str(), " has no status")),
        ),
        Some(st) => validate_resolved_certificate(
            reference,
            require_key,
            st.key_exists,
            crate::objects::copy_opt(&st.key.secret),
            st.cert_exists,
            st.cert.valid,
            crate::objects::copy_opt(&st.cert.secret),
        ),
    }
}

/// An `ExternalCertificate` as the cluster holds it, checked as a
/// credential.
pub fn resolve_from_external(
    reference: &CredentialRef,
    require_key: bool,
    cert: &ExternalCertificate,
) -> (r: Result<ResolvedCertificate, Error>)
    ensures
        cert.status is None ==> (r matches Err(Error::ValidationError(m)) && m@
            == "ExternalCertificate/"@ + reference.name@ + " has no status"@),
        cert.status matches Some(st) ==> match resolution(
            *reference,
            require_key,
            st.key_exists,
            st.key.secret,
            st.cert_exists,
            st.cert.valid,
            st.cert.secret,
        ) {
            Ok(()) => r matches Ok(rc) && rc.key_secret == st.key.secret && Some(rc.cert_secret)
                == st.cert.secret,
            Err(m) => r matches Err(Error::ValidationError(e)) && e@ == m,
        },
{
    match &cert.status {
        None => Err(
            Error::ValidationError(
                join3("ExternalCertificate/", reference.name.as_str(), " has no status"),
            ),
        ),
        Some(st) => validate_resolved_certificate(
            reference,
            require_key,
            st.key_exists,
            crate::objects::copy_opt(&st.key.secret),
            st.cert_exists,
            st.cert.valid,
            crate::objects::copy_opt(&st.cert.secret),
        ),
    }
}

} // verus!
