//! The steps of the certificate reconciler between its calls to the cluster
//! and to `ndnd sec`: which step a status asks for, where the signer's key and
//! certificate are found, what is handed to `sign-cert`, and the status after
//! a key or certificate is made.
use vstd::prelude::*;

use crate::cert_controller::crypto::{CertInfo, KeyInfo, SignCertParams};
use crate::cert_controller::reconcile::{
    availability_applied, expiry, observed_generation, renewal_time, validated,
    OUT_OF_RANGE_MESSAGE,
};
use crate::cert_controller::types::{CertStatus, Certificate, CertificateStatus, KeyStatus};
use crate::clock::{
    add_delta, delta_from_span, delta_of_span, format_rfc3339, instant_plus, instant_rfc3339,
    span_between, span_from_to, zero_delta, Delta, Instant, Span,
};
use crate::conditions::{is_condition, list_view, upsert_condition_bool, upserted, Condition};
use crate::helper::{entry_index, lookup_decoded, Decoded};
use crate::objects::{
    controller_owner_ref, is_controller_ref, name_any_spec, ObjectMeta, OwnerReference, StringMap,
};
use crate::text::{join2, lit, same_text};
use crate::Error;

verus! {

/// The step the reconciler takes for a certificate.
#[derive(Debug, Clone, Copy, PartialEq, Eq, Structural)]
pub enum CertStep {
    /// No key yet: generate one.
    CreateKey,
    /// A key but no certificate: issue one.
    IssueCert,
    /// A certificate due for renewal: issue a new one.
    RenewCert,
    /// A certificate not due for renewal: check it and wait until it expires.
    Validate,
}

/// The step a status asks for.
pub open spec fn step_of(s: CertificateStatus) -> CertStep {
    if !s.key_exists {
        CertStep::CreateKey
    } else if !s.cert_exists {
        CertStep::IssueCert
    } else if s.needs_renewal {
        CertStep::RenewCert
    } else {
        CertStep::Validate
    }
}

/// Where the signer's key and certificate are kept.
#[derive(Debug)]
pub struct SignerSecrets {
    /// The Secret with the signer's key, if the issuer has a key.
    pub key_secret: Option<String>,
    /// The Secret with the signer's certificate, if the issuer has one.
    pub cert_secret: Option<String>,
    /// Whether the issuer is the certificate itself.
    pub self_signed: bool,
}

/// Where the certificate of the signer comes from.
#[derive(Debug)]
pub enum SignerCert {
    /// Read from this Secret.
    FromSecret(String),
    /// The certificate just issued, for a self-signed certificate.
    Issued,
}

/// A Secret the operator writes: its metadata and its string data.
#[derive(Debug)]
pub struct Secret {
    pub metadata: ObjectMeta,
    pub string_data: Option<StringMap>,
}

/// An optional string by view, treating an absent one as the empty text.
pub open spec fn text_or_empty(s: Option<String>) -> Seq<char> {
    match s {
        Some(t) => t@,
        None => Seq::empty(),
    }
}

/// The validity period of a certificate issued now, as a delta: the spec's
/// interval (30 days when absent), or zero when `chrono` cannot hold it.
pub open spec fn issue_delta(c: Certificate) -> Delta {
    match delta_of_span(crate::cert_controller::reconcile::renew_interval_span(c)) {
        Some(d) => d,
        None => Delta { secs: 0, nanos: 0 },
    }
}

/// The KeyReady condition written once a key is made.
pub open spec fn key_made(
    c: Certificate,
    status: CertificateStatus,
    info: KeyInfo,
    secret: Seq<char>,
    n: CertificateStatus,
) -> bool {
    &&& n.key.name == Some(info.name)
    &&& n.key.sig_type == Some(info.sig_type)
    &&& n.key.secret matches Some(s) && s@ == secret
    &&& n.key_exists
    &&& n.cert == status.cert
    &&& n.cert_exists == status.cert_exists
    &&& n.needs_renewal == status.needs_renewal
    &&& exists|k: Condition|
        is_condition(
            k,
            "KeyReady"@,
            true,
            "KeyGenerated"@,
            "Key secret created"@,
            observed_generation(c),
            k.last_transition_time,
        ) && list_view(n.conditions) == upserted(list_view(status.conditions), k)
}

/// The status after a certificate is issued: IssuerReady, then the new
/// certificate's fields, then the availability conditions, then Issuing done.
pub open spec fn cert_issued(
    c: Certificate,
    status: CertificateStatus,
    info: CertInfo,
    secret: Seq<char>,
    n: CertificateStatus,
) -> bool {
    let gen = observed_generation(c);
    exists|k1: Condition, mid: CertificateStatus, k2: Condition|
        {
            &&& is_condition(
                k1,
                "IssuerReady"@,
                true,
                "IssuerResolved"@,
                "Issuer status available"@,
                gen,
                k1.last_transition_time,
            )
            &&& mid.key == status.key
            &&& mid.key_exists == status.key_exists
            &&& mid.needs_renewal == status.needs_renewal
            &&& mid.cert_exists
            &&& mid.cert.name == Some(info.name)
            &&& mid.cert.sig_type == Some(info.sig_type)
            &&& mid.cert.signer_key == Some(info.signer_key)
            &&& mid.cert.issued_at matches Some(t) && Some(t@) == instant_rfc3339(info.validity.0)
            &&& mid.cert.valid_until matches Some(t) && Some(t@) == instant_rfc3339(
                info.validity.1,
            )
            &&& mid.cert.secret matches Some(s) && s@ == secret
            &&& mid.cert.valid
            &&& list_view(mid.conditions) == upserted(list_view(status.conditions), k1)
            &&& n.key == mid.key
            &&& n.cert == mid.cert
            &&& n.key_exists == mid.key_exists
            &&& n.cert_exists == mid.cert_exists
            &&& n.needs_renewal == mid.needs_renewal
            &&& is_condition(
                k2,
                "Issuing"@,
                false,
                "Renewed"@,
                "Certificate (re)issued"@,
                gen,
                k2.last_transition_time,
            )
            &&& exists|after: CertificateStatus|
                availability_applied(gen, mid, after) && list_view(n.conditions) == upserted(
                    list_view(after.conditions),
                    k2,
                )
        }
}

impl Certificate {
    /// The step the reconciler takes for a status: make a key if there is
    /// none, issue a certificate if there is none, renew it if renewal is due,
    /// and otherwise check it.
    pub fn next_step(status: &CertificateStatus) -> (r: CertStep)
        ensures
            r == step_of(*status),
            !status.key_exists ==> r == CertStep::CreateKey,
            status.key_exists && !status.cert_exists ==> r == CertStep::IssueCert,
            status.key_exists && status.cert_exists && status.needs_renewal ==> r
                == CertStep::RenewCert,
            status.key_exists && status.cert_exists && !status.needs_renewal ==> r
                == CertStep::Validate,
    {
        if !status.key_exists {
            CertStep::CreateKey
        } else if !status.cert_exists {
            CertStep::IssueCert
        } else if status.needs_renewal {
            CertStep::RenewCert
        } else {
            CertStep::Validate
        }
    }

    /// The Validate step at the time `at`: the certificate is checked, its
    /// availability written, and the reconciler waits until it expires. An
    /// expired certificate fails, as a negative wait cannot be had.
    pub fn validate_step_at(&self, status: &CertificateStatus, at: Instant) -> (r: Result<
        (CertificateStatus, Span),
        Error,
    >)
        ensures
            r is Ok <==> {
                &&& expiry(*status) is Some
                &&& span_between(at, expiry(*status)->0) is Some
                &&& renewal_time(*self, *status) is Some
            },
            status.cert.valid_until is None ==> (r matches Err(Error::MissingAnnotation(m)) && m@
                == "validUntil"@),
            status.cert.valid_until is Some && expiry(*status) is None ==> r matches Err(
                Error::ParseError(_),
            ),
            expiry(*status) is Some && span_between(at, expiry(*status)->0) is None ==> (r matches Err(
                Error::OtherError(m),
            ) && m@ == OUT_OF_RANGE_MESSAGE@),
            r matches Ok((n, wait)) ==> {
                &&& Some(wait) == span_between(at, expiry(*status)->0)
                &&& exists|v: CertificateStatus|
                    validated(*self, *status, at, v) && availability_applied(
                        observed_generation(*self),
                        v,
                        n,
                    )
            },
    {
        let until = self.valid_until(status)?;
        let wait = match span_from_to(at, until) {
            Some(w) => w,
            None => {
                return Err(Error::OtherError(lit(OUT_OF_RANGE_MESSAGE)));
            },
        };
        let mut st = self.validate_cert_at(status, at)?;
        let ghost v = st;
        crate::cert_controller::reconcile::set_availability_conditions(self, &mut st);
        proof {
            assert(validated(*self, *status, at, v));
        }
        Ok((st, wait))
    }

    /// The namespace in which the issuer is looked up: the issuer's own, or
    /// `ns`. Only a `Certificate` can issue; any other kind is refused.
    pub fn issuer_namespace(&self, ns: &str) -> (r: Result<String, Error>)
        ensures
            self.spec.issuer.kind@ == "Certificate"@ ==> (r matches Ok(n) && n@ == match self.spec.issuer.namespace {
                Some(x) => x@,
                None => ns@,
            }),
            self.spec.issuer.kind@ != "Certificate"@ ==> (r matches Err(Error::OtherError(m)) && m@
                == "Unsupported issuer kind: "@ + self.spec.issuer.kind@),
    {
        if same_text(self.spec.issuer.kind.as_str(), "Certificate") {
            match &self.spec.issuer.namespace {
                Some(x) => Ok(x.clone()),
                None => Ok(lit(ns)),
            }
        } else {
            Err(
                Error::OtherError(join2("Unsupported issuer kind: ", self.spec.issuer.kind.as_str())),
            )
        }
    }

    /// Where the signer's key and certificate are kept, read from the issuer
    /// as the cluster returned it: each only if the issuer has it. The issuer
    /// signs itself when the two uids are equal (an absent uid reads as "").
    pub fn signer_secrets(&self, issuer: &Certificate) -> (r: Result<SignerSecrets, Error>)
        ensures
            issuer.status is None ==> (r matches Err(Error::OtherError(m)) && m@
                == "Issuer status not found"@),
            issuer.status matches Some(st) ==> (r matches Ok(s) && {
                &&& s.key_secret == if st.key_exists {
                    st.key.secret
                } else {
                    None
                }
                &&& s.cert_secret == if st.cert_exists {
                    st.cert.secret
                } else {
                    None
                }
                &&& s.self_signed == (text_or_empty(issuer.metadata.uid) == text_or_empty(
                    self.metadata.uid,
                ))
            }),
    {
        match &issuer.status {
            None => Err(Error::OtherError(lit("Issuer status not found"))),
            Some(st) => {
                let key_secret = if st.key_exists {
                    st.key.secret.clone()
                } else {
                    None
                };
                let cert_secret = if st.cert_exists {
                    st.cert.secret.clone()
                } else {
                    None
                };
                let a = match &issuer.metadata.uid {
                    Some(u) => u.clone(),
                    None => String::new(),
                };
                let b = match &self.metadata.uid {
                    Some(u) => u.clone(),
                    None => String::new(),
                };
                let self_signed = same_text(a.as_str(), b.as_str());
                Ok(SignerSecrets { key_secret, cert_secret, self_signed })
            },
        }
    }

    /// The Secret of the signer's key, which issuing needs.
    pub fn signer_key_secret(signer: &SignerSecrets) -> (r: Result<String, Error>)
        ensures
            signer.key_secret matches Some(k) ==> r == Ok::<String, Error>(k),
            signer.key_secret is None ==> (r matches Err(Error::OtherError(m)) && m@
                == "Signer key secret name not found"@),
    {
        match &signer.key_secret {
            Some(k) => Ok(k.clone()),
            None => Err(Error::OtherError(lit("Signer key secret name not found"))),
        }
    }

    /// The Secret of the certificate's own key, which issuing needs.
    pub fn own_key_secret(status: &CertificateStatus) -> (r: Result<String, Error>)
        ensures
            status.key.secret matches Some(k) ==> r == Ok::<String, Error>(k),
            status.key.secret is None ==> (r matches Err(Error::OtherError(m)) && m@
                == "Key secret not found"@),
    {
        match &status.key.secret {
            Some(k) => Ok(k.clone()),
            None => Err(Error::OtherError(lit("Key secret not found"))),
        }
    }

    /// Where the signer's certificate comes from: its Secret when the issuer
    /// has one, else the certificate just issued when it signs itself.
    pub fn signer_cert(signer: &SignerSecrets) -> (r: Result<SignerCert, Error>)
        ensures
            signer.cert_secret matches Some(c) ==> (r matches Ok(SignerCert::FromSecret(x)) && x
                == c),
            signer.cert_secret is None && signer.self_signed ==> r matches Ok(SignerCert::Issued),
            signer.cert_secret is None && !signer.self_signed ==> (r matches Err(
                Error::OtherError(m),
            ) && m@ == "Signer cert secret not found"@),
    {
        match &signer.cert_secret {
            Some(c) => Ok(SignerCert::FromSecret(c.clone())),
            None => if signer.self_signed {
                Ok(SignerCert::Issued)
            } else {
                Err(Error::OtherError(lit("Signer cert secret not found")))
            },
        }
    }

    /// What is handed to `sign-cert` at the time `at`: valid from `at` for the
    /// spec's interval, with the issuer's name.
    pub fn sign_params_at(&self, at: Instant) -> (r: SignCertParams)
        requires
            instant_plus(at, issue_delta(*self)) is Some,
        ensures
            r.start == Some(at),
            r.end == instant_plus(at, issue_delta(*self)),
            r.issuer matches Some(i) && i == self.spec.issuer.name,
            r.info is None,
    {
        let span = match self.spec.renew_interval {
            Some(s) => s,
            None => Span::from_secs(crate::cert_controller::reconcile::DEFAULT_RENEW_INTERVAL_SECS),
        };
        let d = match delta_from_span(span) {
            Some(d) => d,
            None => zero_delta(),
        };
        let end = add_delta(at, d);
        SignCertParams { start: Some(at), end, issuer: Some(self.spec.issuer.name.clone()), info: None }
    }

    /// `sign_params_at`, or `None` when the end of the validity period lies
    /// beyond what `chrono` holds.
    pub fn try_sign_params_at(&self, at: Instant) -> (r: Option<SignCertParams>)
        ensures
            instant_plus(at, issue_delta(*self)) is None ==> r is None,
            instant_plus(at, issue_delta(*self)) is Some ==> (r matches Some(p) && {
                &&& p.start == Some(at)
                &&& p.end == instant_plus(at, issue_delta(*self))
                &&& p.issuer matches Some(i) && i == self.spec.issuer.name
                &&& p.info is None
            }),
    {
        let span = match self.spec.renew_interval {
            Some(s) => s,
            None => Span::from_secs(crate::cert_controller::reconcile::DEFAULT_RENEW_INTERVAL_SECS),
        };
        let d = match delta_from_span(span) {
            Some(d) => d,
            None => zero_delta(),
        };
        match add_delta(at, d) {
            None => None,
            Some(_) => Some(self.sign_params_at(at)),
        }
    }

    /// The name of the Secret that holds the key: `<name>-key`.
    pub fn key_secret_name(&self) -> (r: String)
        ensures
            r@ == name_any_spec(self.metadata) + "-key"@,
    {
        let n = self.metadata.name_any();
        join2(n.as_str(), "-key")
    }

    /// The name of the Secret that holds the certificate: `<name>-cert`.
    pub fn cert_secret_name(&self) -> (r: String)
        ensures
            r@ == name_any_spec(self.metadata) + "-cert"@,
    {
        let n = self.metadata.name_any();
        join2(n.as_str(), "-cert")
    }

    /// A Secret named `name` holding `data`, owned by this certificate.
    pub fn create_owned_secret(&self, name: String, data: StringMap) -> (r: Secret)
        requires
            self.metadata.name is Some,
            self.metadata.uid is Some,
        ensures
            r.metadata.name == Some(name),
            r.metadata.namespace is None,
            r.metadata.labels is None,
            r.metadata.annotations is None,
            r.metadata.owner_references matches Some(v) && v@.len() == 1 && is_controller_ref(
                v@[0],
                crate::cert_controller::types::API_VERSION@,
                "Certificate"@,
                self.metadata.name->0@,
                self.metadata.uid->0@,
            ),
            r.string_data matches Some(d) && d@ == data@,
    {
        let oref = controller_owner_ref(
            &self.metadata,
            crate::cert_controller::types::API_VERSION,
            "Certificate",
        );
        let oref = match oref {
            Some(o) => o,
            None => {
                proof {
                    assert(false);
                }
                OwnerReference {
                    api_version: String::new(),
                    kind: String::new(),
                    name: String::new(),
                    uid: String::new(),
                    controller: None,
                    block_owner_deletion: None,
                }
            },
        };
        let mut meta = ObjectMeta::empty();
        meta.name = Some(name);
        meta.owner_references = Some(vec![oref]);
        Secret { metadata: meta, string_data: Some(data) }
    }

    /// The status after a key was made and stored in the Secret `secret`.
    pub fn status_after_key(&self, status: &CertificateStatus, info: &KeyInfo, secret: String) -> (r:
        CertificateStatus)
        ensures
            key_made(*self, *status, *info, secret@, r),
    {
        let mut n = status.duplicate();
        n.key.name = Some(info.name.clone());
        n.key.sig_type = Some(info.sig_type.clone());
        n.key.secret = Some(secret);
        n.key_exists = true;
        upsert_condition_bool(
            &mut n.conditions,
            "KeyReady",
            true,
            "KeyGenerated",
            Some("Key secret created"),
            self.metadata.generation_or_zero(),
        );
        n
    }

    /// The status after a certificate was issued and stored in the Secret
    /// `secret`. Its validity period is written in RFC 3339; a period outside
    /// what `chrono` holds is refused.
    pub fn status_after_issue(&self, status: &CertificateStatus, info: &CertInfo, secret: String) -> (r:
        Result<CertificateStatus, Error>)
        ensures
            r is Ok <==> (instant_rfc3339(info.validity.0) is Some && instant_rfc3339(
                info.validity.1,
            ) is Some),
            r is Err ==> (r matches Err(Error::OtherError(m)) && m@ == "validity out of range"@),
            r matches Ok(n) ==> cert_issued(*self, *status, *info, secret@, n),
    {
        let issued_at = match format_rfc3339(info.validity.0) {
            Some(t) => t,
            None => {
                return Err(Error::OtherError(lit("validity out of range")));
            },
        };
        let valid_until = match format_rfc3339(info.validity.1) {
            Some(t) => t,
            None => {
                return Err(Error::OtherError(lit("validity out of range")));
            },
        };
        let gen = self.metadata.generation_or_zero();
        let mut n = status.duplicate();
        upsert_condition_bool(
            &mut n.conditions,
            "IssuerReady",
            true,
            "IssuerResolved",
            Some("Issuer status available"),
            gen,
        );
        n.cert.name = Some(info.name.clone());
        n.cert.sig_type = Some(info.sig_type.clone());
        n.cert.signer_key = Some(info.signer_key.clone());
        n.cert.issued_at = Some(issued_at);
        n.cert.valid_until = Some(valid_until);
        n.cert.secret = Some(secret);
        n.cert.valid = true;
        n.cert_exists = true;
        let ghost mid = n;
        crate::cert_controller::reconcile::set_availability_conditions(self, &mut n);
        let ghost after = n;
        upsert_condition_bool(
            &mut n.conditions,
            "Issuing",
            false,
            "Renewed",
            Some("Certificate (re)issued"),
            gen,
        );
        proof {
            let k1 = choose|k: Condition|
                #![trigger upserted(list_view(status.conditions), k)]
                is_condition(
                    k,
                    "IssuerReady"@,
                    true,
                    "IssuerResolved"@,
                    "Issuer status available"@,
                    gen,
                    k.last_transition_time,
                ) && list_view(mid.conditions) == upserted(list_view(status.conditions), k);
            let k2 = choose|k: Condition|
                #![trigger upserted(list_view(after.conditions), k)]
                is_condition(
                    k,
                    "Issuing"@,
                    false,
                    "Renewed"@,
                    "Certificate (re)issued"@,
                    gen,
                    k.last_transition_time,
                ) && list_view(n.conditions) == upserted(list_view(after.conditions), k);
            assert(availability_applied(gen, mid, after));
        }
        Ok(n)
    }
}

/// The text stored under `key` in a decoded Secret: it must be there and be
/// UTF-8.
pub fn key_text_from_decoded(data: &Vec<(String, Decoded)>, key: &str) -> (r: Result<String, Error>)
    ensures
        entry_index(data@, key@) < 0 ==> (r matches Err(Error::OtherError(m)) && m@
            == "Key data not found"@),
        entry_index(data@, key@) >= 0 ==> match data@[entry_index(data@, key@)].1 {
            Decoded::Utf8(s) => r == Ok::<String, Error>(s),
            Decoded::Bytes(_) => r matches Err(Error::OtherError(m)) && m@
                == "Key data is not UTF-8"@,
        },
{
    match lookup_decoded(data, key) {
        None => Err(Error::OtherError(lit("Key data not found"))),
        Some(Decoded::Utf8(s)) => Ok(s.clone()),
        Some(Decoded::Bytes(_)) => Err(Error::OtherError(lit("Key data is not UTF-8"))),
    }
}

/// What a certificate's reconciler does next: without a key it makes one;
/// with a key but no certificate it issues the first certificate, whatever
/// the renewal flag says; with both it renews in the renewal window and
/// otherwise validates.
pub proof fn law_cert_steps(s: CertificateStatus)
    ensures
        !s.key_exists ==> step_of(s) == CertStep::CreateKey,
        s.key_exists && !s.cert_exists ==> step_of(s) == CertStep::IssueCert,
        s.key_exists && s.cert_exists && s.needs_renewal ==> step_of(s) == CertStep::RenewCert,
        s.key_exists && s.cert_exists && !s.needs_renewal ==> step_of(s) == CertStep::Validate,
{
}

} // verus!
