//! The decisions of the certificate reconciler: when a certificate is valid
//! and when it must be renewed, which conditions it shows, which step the
//! reconciler takes next, and the status after a key or certificate is made.
use vstd::prelude::*;

use crate::cert_controller::crypto::{CertInfo, KeyInfo, SignCertParams};
use crate::cert_controller::types::{
    copy_conditions, CertStatus, Certificate, CertificateStatus, KeyStatus,
};
use crate::clock::{
    add_delta, delta_from_span, delta_of_span, format_rfc3339, instant_le, instant_lt,
    instant_minus, instant_plus, instant_rfc3339, is_before, is_not_after, now, parse_rfc3339,
    rfc3339_instant, span_between, span_from_to, sub_delta, zero_delta, Delta, Instant, Span,
};
use crate::conditions::{
    condition_of, is_condition, law_upsert_then_read, list_view, status_text, upsert_condition_bool,
    upserted, Condition,
};
use crate::helper::{entry_index, lookup_decoded, Decoded};
use crate::objects::{copy_opt, opt_view};
use crate::text::{join2, lit};
use crate::Error;

verus! {

/// Name under which the certificate controller applies its changes.
pub const CERTIFICATE_MANAGER_NAME: &'static str = "cert-controller";

/// Seven days, the default time before expiry at which a certificate is renewed.
pub const DEFAULT_RENEW_BEFORE_SECS: u64 = 604800;

/// Thirty days, the default validity period of an issued certificate.
pub const DEFAULT_RENEW_INTERVAL_SECS: u64 = 2592000;

/// The time before expiry at which the certificate is renewed.
pub open spec fn renew_before_span(c: Certificate) -> Span {
    match c.spec.renew_before {
        Some(s) => s,
        None => Span { secs: DEFAULT_RENEW_BEFORE_SECS, nanos: 0 },
    }
}

/// The validity period of a certificate issued now.
pub open spec fn renew_interval_span(c: Certificate) -> Span {
    match c.spec.renew_interval {
        Some(s) => s,
        None => Span { secs: DEFAULT_RENEW_INTERVAL_SECS, nanos: 0 },
    }
}

/// When the certificate of a status expires, if the status says so in a form
/// that `chrono` reads.
pub open spec fn expiry(status: CertificateStatus) -> Option<Instant> {
    match status.cert.valid_until {
        Some(t) => rfc3339_instant(t@),
        None => None,
    }
}

/// When the certificate is due for renewal: its expiry less the renewal
/// window, if both can be had.
pub open spec fn renewal_time(c: Certificate, status: CertificateStatus) -> Option<Instant> {
    match expiry(status) {
        Some(v) => match delta_of_span(renew_before_span(c)) {
            Some(d) => instant_minus(v, d),
            None => None,
        },
        None => None,
    }
}

/// The generation the controller has observed: the object's, or 0.
pub open spec fn observed_generation(c: Certificate) -> i64 {
    match c.metadata.generation {
        Some(g) => g,
        None => 0,
    }
}

/// The reason of the RenewalRequired condition.
pub open spec fn renewal_reason(needs_renewal: bool) -> Seq<char> {
    if needs_renewal {
        "RenewalWindow"@
    } else {
        "NotInWindow"@
    }
}

/// The message of a Ready condition whose prerequisites are not all met.
pub open spec fn missing_message(key_ready: bool, cert_ready: bool) -> Seq<char> {
    if key_ready && cert_ready {
        Seq::empty()
    } else if !key_ready && !cert_ready {
        "Missing prerequisites: Key, Cert"@
    } else if !key_ready {
        "Missing prerequisites: Key"@
    } else {
        "Missing prerequisites: Cert"@
    }
}

/// Whether a key is ready: it exists and its Secret is known.
pub open spec fn key_ready(s: CertificateStatus) -> bool {
    s.key_exists && s.key.secret is Some
}

/// Whether a certificate is ready: it exists, is valid, and its Secret is known.
pub open spec fn cert_ready(s: CertificateStatus) -> bool {
    s.cert_exists && s.cert.valid && s.cert.secret is Some
}

/// The three conditions that availability writes, in order: KeyReady,
/// CertReady, and Ready (which needs both).
pub open spec fn availability_conditions(
    key_ok: bool,
    cert_ok: bool,
    gen: i64,
    c1: Condition,
    c2: Condition,
    c3: Condition,
) -> bool {
    &&& is_condition(
        c1,
        "KeyReady"@,
        key_ok,
        if key_ok {
            "KeyAvailable"@
        } else {
            "KeyMissing"@
        },
        Seq::empty(),
        gen,
        c1.last_transition_time,
    )
    &&& is_condition(
        c2,
        "CertReady"@,
        cert_ok,
        if cert_ok {
            "CertAvailable"@
        } else {
            "CertMissingOrInvalid"@
        },
        Seq::empty(),
        gen,
        c2.last_transition_time,
    )
    &&& is_condition(
        c3,
        "Ready"@,
        key_ok && cert_ok,
        if key_ok && cert_ok {
            "Ready"@
        } else {
            "PrerequisitesNotReady"@
        },
        missing_message(key_ok, cert_ok),
        gen,
        c3.last_transition_time,
    )
}

/// The message of a Ready condition whose prerequisites are not all met.
fn missing_prerequisites(key_ok: bool, cert_ok: bool) -> (r: Option<String>)
    ensures
        key_ok && cert_ok ==> r is None,
        !(key_ok && cert_ok) ==> (r matches Some(m) && m@ == missing_message(key_ok, cert_ok)),
{
    if key_ok && cert_ok {
        None
    } else if !key_ok && !cert_ok {
        Some(lit("Missing prerequisites: Key, Cert"))
    } else if !key_ok {
        Some(lit("Missing prerequisites: Key"))
    } else {
        Some(lit("Missing prerequisites: Cert"))
    }
}

/// Upserts KeyReady, CertReady and Ready (each stamped with the clock) into a
/// list of conditions, for the given readiness.
pub fn upsert_availability(
    conds: &mut Option<Vec<Condition>>,
    key_ok: bool,
    cert_ok: bool,
    gen: i64,
)
    ensures
        exists|c1: Condition, c2: Condition, c3: Condition|
            availability_conditions(key_ok, cert_ok, gen, c1, c2, c3) && list_view(*final(conds))
                == upserted(upserted(upserted(list_view(*old(conds)), c1), c2), c3),
{
    let ghost l0 = list_view(*conds);
    upsert_condition_bool(
        conds,
        "KeyReady",
        key_ok,
        if key_ok {
            "KeyAvailable"
        } else {
            "KeyMissing"
        },
        None,
        gen,
    );
    let ghost l1 = list_view(*conds);
    upsert_condition_bool(
        conds,
        "CertReady",
        cert_ok,
        if cert_ok {
            "CertAvailable"
        } else {
            "CertMissingOrInvalid"
        },
        None,
        gen,
    );
    let ghost l2 = list_view(*conds);
    let ready = key_ok && cert_ok;
    let msg = missing_prerequisites(key_ok, cert_ok);
    let msg_ref: Option<&str> = match &msg {
        Some(m) => Some(m.as_str()),
        None => None,
    };
    upsert_condition_bool(
        conds,
        "Ready",
        ready,
        if ready {
            "Ready"
        } else {
            "PrerequisitesNotReady"
        },
        msg_ref,
        gen,
    );
    proof {
        let c1 = choose|c: Condition|
            is_condition(
                c,
                "KeyReady"@,
                key_ok,
                if key_ok {
                    "KeyAvailable"@
                } else {
                    "KeyMissing"@
                },
                Seq::<char>::empty(),
                gen,
                c.last_transition_time,
            ) && l1 == upserted(l0, c);
        let c2 = choose|c: Condition|
            is_condition(
                c,
                "CertReady"@,
                cert_ok,
                if cert_ok {
                    "CertAvailable"@
                } else {
                    "CertMissingOrInvalid"@
                },
                Seq::<char>::empty(),
                gen,
                c.last_transition_time,
            ) && l2 == upserted(l1, c);
        let c3 = choose|c: Condition|
            is_condition(
                c,
                "Ready"@,
                ready,
                if ready {
                    "Ready"@
                } else {
                    "PrerequisitesNotReady"@
                },
                missing_message(key_ok, cert_ok),
                gen,
                c.last_transition_time,
            ) && list_view(*conds) == upserted(l2, c);
        assert(availability_conditions(key_ok, cert_ok, gen, c1, c2, c3));
    }
}

/// `after` is `before` with KeyReady, CertReady and Ready written for the
/// readiness of `before` at generation `gen`; nothing else changes.
pub open spec fn availability_applied(
    gen: i64,
    before: CertificateStatus,
    after: CertificateStatus,
) -> bool {
    &&& after.key == before.key
    &&& after.cert == before.cert
    &&& after.key_exists == before.key_exists
    &&& after.cert_exists == before.cert_exists
    &&& after.needs_renewal == before.needs_renewal
    &&& exists|c1: Condition, c2: Condition, c3: Condition|
        availability_conditions(key_ready(before), cert_ready(before), gen, c1, c2, c3)
            && list_view(after.conditions) == upserted(
            upserted(upserted(list_view(before.conditions), c1), c2),
            c3,
        )
}

/// `n` is `status` checked at the time `at`: the certificate is valid while
/// `at` is before its expiry, renewal is due once `at` has reached the renewal
/// time, and RenewalRequired says which; every other part is kept.
pub open spec fn validated(
    c: Certificate,
    status: CertificateStatus,
    at: Instant,
    n: CertificateStatus,
) -> bool {
    &&& renewal_time(c, status) is Some
    &&& n.key == status.key
    &&& n.cert == CertStatus { valid: instant_lt(at, expiry(status)->0), ..status.cert }
    &&& n.key_exists == status.key_exists
    &&& n.cert_exists == status.cert_exists
    &&& n.needs_renewal == instant_le(renewal_time(c, status)->0, at)
    &&& exists|k: Condition|
        is_condition(
            k,
            "RenewalRequired"@,
            n.needs_renewal,
            renewal_reason(n.needs_renewal),
            Seq::empty(),
            observed_generation(c),
            k.last_transition_time,
        ) && list_view(n.conditions) == upserted(list_view(status.conditions), k)
}

/// Writes the KeyReady, CertReady and Ready conditions of a certificate from
/// its status; Ready does not depend on whether renewal is due.
pub fn set_availability_conditions(cert: &Certificate, status: &mut CertificateStatus)
    ensures
        availability_applied(observed_generation(*cert), *old(status), *final(status)),
{
    let gen = cert.metadata.generation_or_zero();
    let key_ok = status.key_exists && status.key.secret.is_some();
    let cert_ok = status.cert_exists && status.cert.valid && status.cert.secret.is_some();
    let mut conds = copy_conditions(&status.conditions);
    let ghost before = list_view(conds);
    upsert_availability(&mut conds, key_ok, cert_ok, gen);
    proof {
        let (c1, c2, c3) = choose|c1: Condition, c2: Condition, c3: Condition|
            availability_conditions(key_ok, cert_ok, gen, c1, c2, c3) && list_view(conds)
                == upserted(upserted(upserted(before, c1), c2), c3);
        assert(availability_conditions(key_ok, cert_ok, gen, c1, c2, c3));
        assert(key_ok == key_ready(*old(status)));
        assert(cert_ok == cert_ready(*old(status)));
        assert(gen == observed_generation(*cert));
        assert(before == list_view(old(status).conditions));
    }
    status.conditions = conds;
}

/// Reads `validUntil` of a status.
pub fn valid_until_of(status: &CertificateStatus) -> (r: Result<Instant, Error>)
    ensures
        match status.cert.valid_until {
            None => r matches Err(Error::MissingAnnotation(m)) && m@ == "validUntil"@,
            Some(t) => match rfc3339_instant(t@) {
                Some(i) => r == Ok::<Instant, Error>(i),
                None => r matches Err(Error::ParseError(_)),
            },
        },
{
    match &status.cert.valid_until {
        None => Err(Error::MissingAnnotation(lit("validUntil"))),
        Some(t) => match parse_rfc3339(t.as_str()) {
            Ok(i) => Ok(i),
            Err(e) => Err(Error::ParseError(e)),
        },
    }
}

/// The message of `chrono`'s error for a span too long for a `TimeDelta`.
pub const OUT_OF_RANGE_MESSAGE: &'static str = "Source duration value is out of range for the target type";

/// The message given when shifting a time leaves the range `chrono` holds.
pub const OVERFLOW_MESSAGE: &'static str = "`DateTime - TimeDelta` overflowed";

impl Certificate {
    /// When the certificate of a status expires.
    pub fn valid_until(&self, status: &CertificateStatus) -> (r: Result<Instant, Error>)
        ensures
            r is Ok <==> expiry(*status) is Some,
            r matches Ok(i) ==> expiry(*status) == Some(i),
            status.cert.valid_until is None ==> (r matches Err(Error::MissingAnnotation(m)) && m@
                == "validUntil"@),
            status.cert.valid_until is Some && expiry(*status) is None ==> r matches Err(
                Error::ParseError(_),
            ),
    {
        valid_until_of(status)
    }

    /// When the certificate of a status is due for renewal: its expiry less the
    /// renewal window (7 days unless the spec says otherwise).
    pub fn renew_before(&self, status: &CertificateStatus) -> (r: Result<Instant, Error>)
        ensures
            r is Ok <==> renewal_time(*self, *status) is Some,
            r matches Ok(i) ==> renewal_time(*self, *status) == Some(i),
            expiry(*status) is Some && delta_of_span(renew_before_span(*self)) is None ==> (
            r matches Err(Error::OtherError(m)) && m@ == OUT_OF_RANGE_MESSAGE@),
    {
        let v = self.valid_until(status)?;
        let span = match self.spec.renew_before {
            Some(s) => s,
            None => Span::from_secs(DEFAULT_RENEW_BEFORE_SECS),
        };
        match delta_from_span(span) {
            None => Err(Error::OtherError(lit(OUT_OF_RANGE_MESSAGE))),
            Some(d) => match sub_delta(v, d) {
                Some(t) => Ok(t),
                None => Err(Error::OtherError(lit(OVERFLOW_MESSAGE))),
            },
        }
    }

    /// Checks a certificate against the time `now`: it is valid while `now` is
    /// before its expiry, and needs renewal once `now` has reached its renewal
    /// time. The RenewalRequired condition reflects the latter. Every other part
    /// of the status is kept.
    pub fn validate_cert_at(&self, status: &CertificateStatus, at: Instant) -> (r: Result<
        CertificateStatus,
        Error,
    >)
        ensures
            r is Ok <==> renewal_time(*self, *status) is Some,
            r matches Ok(n) ==> validated(*self, *status, at, n),
            status.cert.valid_until is None ==> (r matches Err(Error::MissingAnnotation(m)) && m@
                == "validUntil"@),
            status.cert.valid_until is Some && expiry(*status) is None ==> r matches Err(
                Error::ParseError(_),
            ),
    {
        let mut new_status = status.duplicate();
        let valid_until = self.valid_until(status)?;
        new_status.cert.valid = is_before(&at, &valid_until);
        let renew_at = self.renew_before(status)?;
        let needs = is_not_after(&renew_at, &at);
        new_status.needs_renewal = needs;
        let gen = self.metadata.generation_or_zero();
        upsert_condition_bool(
            &mut new_status.conditions,
            "RenewalRequired",
            needs,
            if needs {
                "RenewalWindow"
            } else {
                "NotInWindow"
            },
            None,
            gen,
        );
        Ok(new_status)
    }

    /// Checks a certificate against the current time of the clock, as
    /// `validate_cert_at` does.
    pub fn validate_cert(&self, status: &CertificateStatus) -> (r: Result<CertificateStatus, Error>)
        ensures
            r is Ok <==> renewal_time(*self, *status) is Some,
            r matches Ok(n) ==> exists|at: Instant| validated(*self, *status, at, n),
            status.cert.valid_until is None ==> (r matches Err(Error::MissingAnnotation(m)) && m@
                == "validUntil"@),
            status.cert.valid_until is Some && expiry(*status) is None ==> r matches Err(
                Error::ParseError(_),
            ),
    {
        let at = now();
        let r = self.validate_cert_at(status, at);
        proof {
            if r is Ok {
                assert(validated(*self, *status, at, r->Ok_0));
            }
        }
        r
    }
}

/// Whether the cluster's copy of a certificate holds a valid certificate (an
/// absent object or status reads as not valid): the condition the operator
/// waits on.
pub fn is_cert_valid(obj: Option<&Certificate>) -> (r: bool)
    ensures
        r == (obj matches Some(c) && c.status matches Some(s) && s.cert.valid),
{
    match obj {
        Some(c) => match &c.status {
            Some(s) => s.cert.valid,
            None => false,
        },
        None => false,
    }
}

/// A certificate whose availability was written is Ready exactly when its
/// key and its certificate are ready, whether or not renewal is due.
pub proof fn law_ready_follows_key_and_cert(gen: i64, before: CertificateStatus, after: CertificateStatus)
    requires
        availability_applied(gen, before, after),
    ensures
        condition_of(list_view(after.conditions), "Ready"@) matches Some(c) && c.status@
            == status_text(key_ready(before) && cert_ready(before)),
{
    let (c1, c2, c3) = choose|c1: Condition, c2: Condition, c3: Condition|
        availability_conditions(key_ready(before), cert_ready(before), gen, c1, c2, c3)
            && list_view(after.conditions) == upserted(
            upserted(upserted(list_view(before.conditions), c1), c2),
            c3,
        );
    law_upsert_then_read(upserted(upserted(list_view(before.conditions), c1), c2), c3);
}

} // verus!
