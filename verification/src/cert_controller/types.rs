//! The `Certificate` and `ExternalCertificate` resources.
use vstd::prelude::*;

use crate::clock::Span;
use crate::conditions::{list_view, Condition};
use crate::objects::{copy_opt, ObjectMeta};

verus! {

/// Finalizer that the certificate controller puts on its resources.
pub const CERTIFICATE_FINALIZER: &'static str = "certificate.named-data.net/finalizer";

/// The issuer of a certificate: another `Certificate` (possibly the certificate
/// itself, when it is self-signed).
#[derive(Debug)]
pub struct IssuerRef {
    /// The name of the issuer, e.g. "router-cert".
    pub name: String,
    /// The kind of the issuer; only "Certificate" is supported.
    pub kind: String,
    /// The namespace of the issuer; the certificate's own when absent.
    pub namespace: Option<String>,
}

/// What a `Certificate` asks for.
#[derive(Debug)]
pub struct CertificateSpec {
    /// The NDN prefix the key and certificate are made for.
    pub prefix: String,
    /// Who signs the certificate.
    pub issuer: IssuerRef,
    /// How long before expiry the certificate is renewed (7 days when absent).
    pub renew_before: Option<Span>,
    /// The validity period of an issued certificate (30 days when absent).
    pub renew_interval: Option<Span>,
}

/// What is known of the key of a certificate.
#[derive(Debug)]
pub struct KeyStatus {
    /// The full NDN name of the key.
    pub name: Option<String>,
    /// The signature type of the key, e.g. "ECDSA".
    pub sig_type: Option<String>,
    /// The Secret that holds the key.
    pub secret: Option<String>,
}

/// What is known of an issued certificate.
#[derive(Debug)]
pub struct CertStatus {
    /// The full NDN name of the certificate.
    pub name: Option<String>,
    /// The signature type, e.g. "ECDSA".
    pub sig_type: Option<String>,
    /// The name of the key that signed the certificate.
    pub signer_key: Option<String>,
    /// When the certificate was issued (RFC 3339).
    pub issued_at: Option<String>,
    /// When the certificate expires (RFC 3339).
    pub valid_until: Option<String>,
    /// The Secret that holds the certificate and its signer's certificate.
    pub secret: Option<String>,
    /// Whether the certificate has not expired.
    pub valid: bool,
}

/// The observed state of a `Certificate`.
#[derive(Debug)]
pub struct CertificateStatus {
    pub key: KeyStatus,
    pub cert: CertStatus,
    pub key_exists: bool,
    pub cert_exists: bool,
    pub needs_renewal: bool,
    /// Ready, IssuerReady, KeyReady, CertReady, RenewalRequired, Issuing.
    pub conditions: Option<Vec<Condition>>,
}

/// A certificate managed by the operator.
#[derive(Debug)]
pub struct Certificate {
    pub metadata: ObjectMeta,
    pub spec: CertificateSpec,
    pub status: Option<CertificateStatus>,
}

/// What an `ExternalCertificate` refers to: a Secret holding `ndn.cert` and,
/// optionally, `ndn.key`.
#[derive(Debug)]
pub struct ExternalCertificateSpec {
    pub secret_name: String,
}

/// The observed state of an `ExternalCertificate`.
#[derive(Debug)]
pub struct ExternalCertificateStatus {
    pub key: KeyStatus,
    pub cert: CertStatus,
    pub key_exists: bool,
    pub cert_exists: bool,
    pub conditions: Option<Vec<Condition>>,
}

/// A certificate made outside the operator and imported from a Secret.
#[derive(Debug)]
pub struct ExternalCertificate {
    pub metadata: ObjectMeta,
    pub spec: ExternalCertificateSpec,
    pub status: Option<ExternalCertificateStatus>,
}

/// A copy of an optional list of conditions.
pub fn copy_conditions(c: &Option<Vec<Condition>>) -> (r: Option<Vec<Condition>>)
    ensures
        list_view(r) == list_view(*c),
{
    match c {
        None => None,
        Some(v) => {
            let mut out: Vec<Condition> = Vec::new();
            let mut i: usize = 0;
            while i < v.len()
                invariant
                    i <= v@.len(),
                    out@ == v@.subrange(0, i as int),
                decreases v@.len() - i,
            {
                out.push(v[i].duplicate());
                proof {
                    assert(out@ =~= v@.subrange(0, i + 1));
                }
                i = i + 1;
            }
            assert(out@ =~= v@);
            Some(out)
        },
    }
}

/// Nothing known of a key.
pub open spec fn key_status_empty(k: KeyStatus) -> bool {
    k.name is None && k.sig_type is None && k.secret is None
}

/// Nothing known of a certificate.
pub open spec fn cert_status_empty(c: CertStatus) -> bool {
    &&& c.name is None
    &&& c.sig_type is None
    &&& c.signer_key is None
    &&& c.issued_at is None
    &&& c.valid_until is None
    &&& c.secret is None
    &&& !c.valid
}

impl Default for KeyStatus {
    fn default() -> (r: KeyStatus)
        ensures
            r.name is None,
            r.sig_type is None,
            r.secret is None,
    {
        KeyStatus { name: None, sig_type: None, secret: None }
    }
}

impl Default for CertStatus {
    fn default() -> (r: CertStatus)
        ensures
            r.name is None,
            r.sig_type is None,
            r.signer_key is None,
            r.issued_at is None,
            r.valid_until is None,
            r.secret is None,
            !r.valid,
    {
        CertStatus {
            name: None,
            sig_type: None,
            signer_key: None,
            issued_at: None,
            valid_until: None,
            secret: None,
            valid: false,
        }
    }
}

impl Default for CertificateStatus {
    fn default() -> (r: CertificateStatus)
        ensures
            key_status_empty(r.key),
            cert_status_empty(r.cert),
            !r.key_exists,
            !r.cert_exists,
            !r.needs_renewal,
            r.conditions is None,
    {
        CertificateStatus {
            key: KeyStatus::default(),
            cert: CertStatus::default(),
            key_exists: false,
            cert_exists: false,
            needs_renewal: false,
            conditions: None,
        }
    }
}

impl Default for ExternalCertificateStatus {
    fn default() -> (r: ExternalCertificateStatus)
        ensures
            key_status_empty(r.key),
            cert_status_empty(r.cert),
            !r.key_exists,
            !r.cert_exists,
            r.conditions is None,
    {
        ExternalCertificateStatus {
            key: KeyStatus::default(),
            cert: CertStatus::default(),
            key_exists: false,
            cert_exists: false,
            conditions: None,
        }
    }
}

impl KeyStatus {
    /// A copy.
    pub fn duplicate(&self) -> (r: KeyStatus)
        ensures
            r == *self,
    {
        KeyStatus {
            name: copy_opt(&self.name),
            sig_type: copy_opt(&self.sig_type),
            secret: copy_opt(&self.secret),
        }
    }
}

impl CertStatus {
    /// A copy.
    pub fn duplicate(&self) -> (r: CertStatus)
        ensures
            r == *self,
    {
        CertStatus {
            name: copy_opt(&self.name),
            sig_type: copy_opt(&self.sig_type),
            signer_key: copy_opt(&self.signer_key),
            issued_at: copy_opt(&self.issued_at),
            valid_until: copy_opt(&self.valid_until),
            secret: copy_opt(&self.secret),
            valid: self.valid,
        }
    }
}

impl CertificateStatus {
    /// A copy.
    pub fn duplicate(&self) -> (r: CertificateStatus)
        ensures
            r.key == self.key,
            r.cert == self.cert,
            r.key_exists == self.key_exists,
            r.cert_exists == self.cert_exists,
            r.needs_renewal == self.needs_renewal,
            list_view(r.conditions) == list_view(self.conditions),
    {
        CertificateStatus {
            key: self.key.duplicate(),
            cert: self.cert.duplicate(),
            key_exists: self.key_exists,
            cert_exists: self.cert_exists,
            needs_renewal: self.needs_renewal,
            conditions: copy_conditions(&self.conditions),
        }
    }
}

impl ExternalCertificateStatus {
    /// A copy.
    pub fn duplicate(&self) -> (r: ExternalCertificateStatus)
        ensures
            r.key == self.key,
            r.cert == self.cert,
            r.key_exists == self.key_exists,
            r.cert_exists == self.cert_exists,
            list_view(r.conditions) == list_view(self.conditions),
    {
        ExternalCertificateStatus {
            key: self.key.duplicate(),
            cert: self.cert.duplicate(),
            key_exists: self.key_exists,
            cert_exists: self.cert_exists,
            conditions: copy_conditions(&self.conditions),
        }
    }
}

impl IssuerRef {
    /// A copy.
    pub fn duplicate(&self) -> (r: IssuerRef)
        ensures
            r == *self,
    {
        IssuerRef { name: self.name.clone(), kind: self.kind.clone(), namespace: copy_opt(&self.namespace) }
    }
}

/// The API version of the operator's resources.
pub const API_VERSION: &'static str = "named-data.net/v1alpha1";

impl Certificate {
    /// Key of the private key in a key Secret.
    pub const SECRET_KEY: &'static str = "ndn.key";
    /// Key of the certificate in a certificate Secret.
    pub const CERT_KEY: &'static str = "ndn.cert";
    /// Key of the signer's certificate in a certificate Secret.
    pub const SIGNER_CERT_KEY: &'static str = "signer.cert";

    /// A certificate with the given name and spec, and no status yet.
    pub fn new(name: &str, spec: CertificateSpec) -> (c: Certificate)
        ensures
            c.metadata.name matches Some(n) && n@ == name@,
            c.metadata.namespace is None,
            c.metadata.uid is None,
            c.metadata.generation is None,
            c.metadata.labels is None,
            c.metadata.annotations is None,
            c.metadata.owner_references is None,
            c.spec == spec,
            c.status is None,
    {
        Certificate { metadata: ObjectMeta::named(name), spec, status: None }
    }
}

impl ExternalCertificate {
    /// Key of the private key in the referenced Secret.
    pub const SECRET_KEY: &'static str = "ndn.key";
    /// Key of the certificate in the referenced Secret.
    pub const CERT_KEY: &'static str = "ndn.cert";

    /// An external certificate with the given name and spec, and no status yet.
    pub fn new(name: &str, spec: ExternalCertificateSpec) -> (c: ExternalCertificate)
        ensures
            c.metadata.name matches Some(n) && n@ == name@,
            c.metadata.namespace is None,
            c.metadata.uid is None,
            c.metadata.generation is None,
            c.spec == spec,
            c.status is None,
    {
        ExternalCertificate { metadata: ObjectMeta::named(name), spec, status: None }
    }
}

} // verus!
