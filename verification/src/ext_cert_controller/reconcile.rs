//! The status of an `ExternalCertificate`, read from its Secret: the key is
//! optional, and the certificate alone makes it Ready.
use vstd::prelude::*;

use crate::cert_controller::crypto::{text_field, validity_of, CertInfo, KeyInfo};
use crate::cert_controller::types::{ExternalCertificate, ExternalCertificateStatus};
use crate::clock::{format_rfc3339, instant_lt, instant_rfc3339, is_before, now, Instant};
use crate::conditions::{
    condition_of, is_condition, law_upsert_then_read, list_view, status_text, upsert_condition_bool,
    upserted, Condition,
};
use crate::helper::{entry_index, lookup_decoded, Decoded};
use crate::objects::opt_view;

verus! {

/// Name under which the controller applies its changes.
pub const EXTERNAL_CERTIFICATE_MANAGER_NAME: &'static str = "external-cert-controller";

/// The UTF-8 text stored under `key`, if there is one.
pub open spec fn utf8_entry(data: Seq<(String, Decoded)>, key: Seq<char>) -> Option<Seq<char>> {
    let i = entry_index(data, key);
    if i < 0 {
        None
    } else {
        match data[i].1 {
            Decoded::Utf8(s) => Some(s@),
            Decoded::Bytes(_) => None,
        }
    }
}

/// The name and signature type a key text gives, if it gives both.
pub open spec fn key_fields(text: Seq<char>) -> Option<(Seq<char>, Seq<char>)> {
    match (text_field(text, "Name"@), text_field(text, "SigType"@)) {
        (Some(n), Some(s)) => Some((n, s)),
        _ => None,
    }
}

/// The name, signature type, signer key and validity period a certificate
/// text gives, if it gives them all; a text without a validity period is
/// valid from `at` to `at`.
pub open spec fn cert_fields(text: Seq<char>, at: Instant) -> Option<
    (Seq<char>, Seq<char>, Seq<char>, (Instant, Instant)),
> {
    match (
        validity_of(text),
        text_field(text, "Name"@),
        text_field(text, "SigType"@),
        text_field(text, "SignerKey"@),
    ) {
        (Some(Err(_)), _, _, _) => None,
        (v, Some(n), Some(s), Some(k)) => Some(
            (
                n,
                s,
                k,
                match v {
                    Some(Ok(p)) => p,
                    _ => (at, at),
                },
            ),
        ),
        _ => None,
    }
}

/// The generation the controller has observed: the object's, or 0.
pub open spec fn ext_generation(c: ExternalCertificate) -> i64 {
    match c.metadata.generation {
        Some(g) => g,
        None => 0,
    }
}

/// The three conditions written for an external certificate, in order:
/// KeyReady, CertReady, and Ready, which follows the certificate alone.
pub open spec fn ext_availability_conditions(
    key_ok: bool,
    cert_ok: bool,
    gen: i64,
    c1: Condition,
    c2: Condition,
    c3: Condition,
) -> bool {
    &&& is_condition(
        c1,
        "KeyReady"@,
        key_ok,
        if key_ok {
            "KeyAvailable"@
        } else {
            "KeyMissing"@
        },
        Seq::empty(),
        gen,
        c1.last_transition_time,
    )
    &&& is_condition(
        c2,
        "CertReady"@,
        cert_ok,
        if cert_ok {
            "CertAvailable"@
        } else {
            "CertMissingOrInvalid"@
        },
        Seq::empty(),
        gen,
        c2.last_transition_time,
    )
    &&& is_condition(
        c3,
        "Ready"@,
        cert_ok,
        if cert_ok {
            "Ready"@
        } else {
            "PrerequisitesNotReady"@
        },
        Seq::empty(),
        gen,
        c3.last_transition_time,
    )
}

/// Whether the key of a status is ready: it exists and its Secret is known.
pub open spec fn ext_key_ready(s: ExternalCertificateStatus) -> bool {
    s.key_exists && s.key.secret is Some
}

/// Whether the certificate of a status is ready: it exists, is valid, and its
/// Secret is known.
pub open spec fn ext_cert_ready(s: ExternalCertificateStatus) -> bool {
    s.cert_exists && s.cert.valid && s.cert.secret is Some
}

/// `after` is `before` with its availability conditions written; nothing
/// else changes.
pub open spec fn ext_availability_applied(
    gen: i64,
    before: ExternalCertificateStatus,
    after: ExternalCertificateStatus,
) -> bool {
    &&& after.key == before.key
    &&& after.cert == before.cert
    &&& after.key_exists == before.key_exists
    &&& after.cert_exists == before.cert_exists
    &&& exists|c1: Condition, c2: Condition, c3: Condition|
        ext_availability_conditions(
            ext_key_ready(before),
            ext_cert_ready(before),
            gen,
            c1,
            c2,
            c3,
        ) && list_view(after.conditions) == upserted(
            upserted(upserted(list_view(before.conditions), c1), c2),
            c3,
        )
}

/// Writes KeyReady, CertReady and Ready for an external certificate. Ready
/// needs only the certificate: one without its key can still serve as a
/// trust anchor.
pub fn set_external_availability_conditions(
    ecert: &ExternalCertificate,
    status: &mut ExternalCertificateStatus,
)
    ensures
        ext_availability_applied(ext_generation(*ecert), *old(status), *final(status)),
{
    let gen = ecert.metadata.generation_or_zero();
    let key_ok = status.key_exists && status.key.secret.is_some();
    let cert_ok = status.cert_exists && status.cert.valid && status.cert.secret.is_some();
    let mut conds = crate::cert_controller::types::copy_conditions(&status.conditions);
    let ghost l0 = list_view(conds);
    upsert_condition_bool(
        &mut conds,
        "KeyReady",
        key_ok,
        if key_ok {
            "KeyAvailable"
        } else {
            "KeyMissing"
        },
        None,
        gen,
    );
    let ghost l1 = list_view(conds);
    upsert_condition_bool(
        &mut conds,
        "CertReady",
        cert_ok,
        if cert_ok {
            "CertAvailable"
        } else {
            "CertMissingOrInvalid"
        },
        None,
        gen,
    );
    let ghost l2 = list_view(conds);
    upsert_condition_bool(
        &mut conds,
        "Ready",
        cert_ok,
        if cert_ok {
            "Ready"
        } else {
            "PrerequisitesNotReady"
        },
        None,
        gen,
    );
    proof {
        let c1 = choose|c: Condition|
            #![trigger upserted(l0, c)]
            is_condition(
                c,
                "KeyReady"@,
                key_ok,
                if key_ok {
                    "KeyAvailable"@
                } else {
                    "KeyMissing"@
                },
                Seq::<char>::empty(),
                gen,
                c.last_transition_time,
            ) && l1 == upserted(l0, c);
        let c2 = choose|c: Condition|
            #![trigger upserted(l1, c)]
            is_condition(
                c,
                "CertReady"@,
                cert_ok,
                if cert_ok {
                    "CertAvailable"@
                } else {
                    "CertMissingOrInvalid"@
                },
                Seq::<char>::empty(),
                gen,
                c.last_transition_time,
            ) && l2 == upserted(l1, c);
        let c3 = choose|c: Condition|
            #![trigger upserted(l2, c)]
            is_condition(
                c,
                "Ready"@,
                cert_ok,
                if cert_ok {
                    "Ready"@
                } else {
                    "PrerequisitesNotReady"@
                },
                Seq::<char>::empty(),
                gen,
                c.last_transition_time,
            ) && list_view(conds) == upserted(l2, c);
        assert(ext_availability_conditions(key_ok, cert_ok, gen, c1, c2, c3));
        assert(key_ok == ext_key_ready(*old(status)));
        assert(cert_ok == ext_cert_ready(*old(status)));
        assert(gen == ext_generation(*ecert));
        assert(l0 == list_view(old(status).conditions));
    }
    status.conditions = conds;
}

/// Whether the cluster's copy of an external certificate holds a valid
/// certificate (an absent object or status reads as not valid).
pub fn is_external_cert_valid(obj: Option<&ExternalCertificate>) -> (r: bool)
    ensures
        r == (obj matches Some(c) && c.status matches Some(s) && s.cert.valid),
{
    match obj {
        Some(c) => match &c.status {
            Some(s) => s.cert.valid,
            None => false,
        },
        None => false,
    }
}

/// The key part of a status read from a Secret: a UTF-8 `ndn.key` that gives
/// a name and signature type is recorded, with the Secret; otherwise the key
/// is marked absent and its other fields are kept.
pub open spec fn ext_key_read(
    status: ExternalCertificateStatus,
    data: Seq<(String, Decoded)>,
    secret_name: Seq<char>,
    n: ExternalCertificateStatus,
) -> bool {
    match utf8_entry(data, "ndn.key"@) {
        Some(t) => match key_fields(t) {
            Some((name, sig)) => {
                &&& opt_view(n.key.name) == Some(name)
                &&& opt_view(n.key.sig_type) == Some(sig)
                &&& opt_view(n.key.secret) == Some(secret_name)
                &&& n.key_exists
            },
            None => n.key == status.key && !n.key_exists,
        },
        None => n.key == status.key && !n.key_exists,
    }
}

/// The certificate part of a status read from a Secret at the time `at`: a
/// UTF-8 `ndn.cert` that parses is recorded, valid while `at` is before its
/// end; otherwise the certificate is marked absent and not valid, its other
/// fields kept.
pub open spec fn ext_cert_read(
    status: ExternalCertificateStatus,
    data: Seq<(String, Decoded)>,
    secret_name: Seq<char>,
    at: Instant,
    n: ExternalCertificateStatus,
) -> bool {
    let absent = n.cert == crate::cert_controller::types::CertStatus {
        valid: false,
        ..status.cert
    } && !n.cert_exists;
    match utf8_entry(data, "ndn.cert"@) {
        Some(t) => match cert_fields(t, at) {
            Some((name, sig, signer, validity)) => {
                &&& opt_view(n.cert.name) == Some(name)
                &&& opt_view(n.cert.sig_type) == Some(sig)
                &&& opt_view(n.cert.signer_key) == Some(signer)
                &&& opt_view(n.cert.issued_at) == instant_rfc3339(validity.0)
                &&& opt_view(n.cert.valid_until) == instant_rfc3339(validity.1)
                &&& opt_view(n.cert.secret) == Some(secret_name)
                &&& n.cert.valid == instant_lt(at, validity.1)
                &&& n.cert_exists
            },
            None => absent,
        },
        None => absent,
    }
}

/// The text stored under `key` when it is UTF-8.
fn utf8_text_of(data: &Vec<(String, Decoded)>, key: &str) -> (r: Option<String>)
    ensures
        opt_view(r) == utf8_entry(data@, key@),
{
    match lookup_decoded(data, key) {
        Some(Decoded::Utf8(s)) => Some(s.clone()),
        _ => None,
    }
}

impl ExternalCertificate {
    /// The status read at the time `at` from the decoded data of the Secret
    /// the certificate refers to, with its availability conditions written.
    pub fn status_from_secret_at(
        &self,
        status: &ExternalCertificateStatus,
        data: &Vec<(String, Decoded)>,
        at: Instant,
    ) -> (r: ExternalCertificateStatus)
        ensures
            exists|mid: ExternalCertificateStatus|
                {
                    &&& ext_key_read(*status, data@, self.spec.secret_name@, mid)
                    &&& ext_cert_read(*status, data@, self.spec.secret_name@, at, mid)
                    &&& list_view(mid.conditions) == list_view(status.conditions)
                    &&& ext_availability_applied(ext_generation(*self), mid, r)
                },
    {
        let mut n = status.duplicate();
        match utf8_text_of(data, "ndn.key") {
            Some(key_text) => match KeyInfo::from_key_text(key_text) {
                Ok(info) => {
                    n.key.name = Some(info.name);
                    n.key.sig_type = Some(info.sig_type);
                    n.key.secret = Some(self.spec.secret_name.clone());
                    n.key_exists = true;
                },
                Err(_) => {
                    n.key_exists = false;
                },
            },
            None => {
                n.key_exists = false;
            },
        }
        match utf8_text_of(data, "ndn.cert") {
            Some(cert_text) => match CertInfo::from_cert_text_at(cert_text, (at, at)) {
                Ok(info) => {
                    n.cert.name = Some(info.name);
                    n.cert.sig_type = Some(info.sig_type);
                    n.cert.signer_key = Some(info.signer_key);
                    n.cert.issued_at = format_rfc3339(info.validity.0);
                    n.cert.valid_until = format_rfc3339(info.validity.1);
                    n.cert.secret = Some(self.spec.secret_name.clone());
                    n.cert.valid = is_before(&at, &info.validity.1);
                    n.cert_exists = true;
                },
                Err(_) => {
                    n.cert_exists = false;
                    n.cert.valid = false;
                },
            },
            None => {
                n.cert_exists = false;
                n.cert.valid = false;
            },
        }
        let ghost mid = n;
        set_external_availability_conditions(self, &mut n);
        proof {
            assert(ext_key_read(*status, data@, self.spec.secret_name@, mid));
            assert(ext_cert_read(*status, data@, self.spec.secret_name@, at, mid));
        }
        n
    }

    /// The status read from the Secret's decoded data at the current time.
    pub fn status_from_secret(&self, status: &ExternalCertificateStatus, data: &Vec<(String, Decoded)>) -> (r:
        ExternalCertificateStatus)
        ensures
            exists|at: Instant, mid: ExternalCertificateStatus|
                {
                    &&& ext_key_read(*status, data@, self.spec.secret_name@, mid)
                    &&& ext_cert_read(*status, data@, self.spec.secret_name@, at, mid)
                    &&& list_view(mid.conditions) == list_view(status.conditions)
                    &&& ext_availability_applied(ext_generation(*self), mid, r)
                },
    {
        let at = now();
        self.status_from_secret_at(status, data, at)
    }
}

/// An external certificate whose availability was written is Ready exactly
/// when its certificate is ready, with or without its key.
pub proof fn law_external_ready_follows_cert(
    gen: i64,
    before: ExternalCertificateStatus,
    after: ExternalCertificateStatus,
)
    requires
        ext_availability_applied(gen, before, after),
    ensures
        condition_of(list_view(after.conditions), "Ready"@) matches Some(c) && c.status@
            == status_text(ext_cert_ready(before)),
{
    let (c1, c2, c3) = choose|c1: Condition, c2: Condition, c3: Condition|
        ext_availability_conditions(
            ext_key_ready(before),
            ext_cert_ready(before),
            gen,
            c1,
            c2,
            c3,
        ) && list_view(after.conditions) == upserted(
            upserted(upserted(list_view(before.conditions), c1), c2),
            c3,
        );
    law_upsert_then_read(upserted(upserted(list_view(before.conditions), c1), c2), c3);
}

} // verus!
