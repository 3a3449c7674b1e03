use chrono::{DateTime, Duration, Utc};
use operator::cert_controller::issue::{key_text_from_decoded, CertStep, SignerCert};
use operator::cert_controller::reconcile::{set_availability_conditions, OUT_OF_RANGE_MESSAGE};
use operator::cert_controller::types::{
    CertStatus, Certificate, CertificateSpec, CertificateStatus, IssuerRef, KeyStatus,
};
use operator::cert_controller::crypto::{CertInfo, KeyInfo};
use operator::clock::{Instant, Span};
use operator::conditions::Condition;
use operator::helper::Decoded;
use operator::Error;

fn instant(t: DateTime<Utc>) -> Instant {
    Instant { secs: t.timestamp(), nanos: t.timestamp_subsec_nanos() }
}

fn status_with(valid_until: DateTime<Utc>) -> CertificateStatus {
    CertificateStatus {
        key: KeyStatus {
            name: Some("k".into()),
            sig_type: Some("ECDSA".into()),
            secret: Some("ksec".into()),
        },
        cert: CertStatus {
            name: Some("c".into()),
            sig_type: Some("ECDSA".into()),
            signer_key: Some("sk".into()),
            issued_at: Some(Utc::now().to_rfc3339()),
            valid_until: Some(valid_until.to_rfc3339()),
            secret: Some("csec".into()),
            valid: true,
        },
        key_exists: true,
        cert_exists: true,
        needs_renewal: false,
        conditions: None,
    }
}

fn spec(renew_before: Option<Span>) -> CertificateSpec {
    CertificateSpec {
        prefix: "/test".into(),
        issuer: IssuerRef { name: "issuer".into(), kind: "Certificate".into(), namespace: None },
        renew_before,
        renew_interval: None,
    }
}

fn base_cert(valid_until: DateTime<Utc>) -> Certificate {
    let mut cert = Certificate::new("test-cert", spec(None));
    cert.status = Some(status_with(valid_until));
    cert
}

fn find<'a>(conds: &'a Option<Vec<Condition>>, type_: &str) -> &'a Condition {
    conds.as_ref().unwrap().iter().find(|c| c.type_ == type_).expect("Ready condition present")
}

fn check_not_in_renew_window() {
    let valid_until = Utc::now() + Duration::days(14);
    let cert = base_cert(valid_until);
    let status = cert.status.as_ref().unwrap().duplicate();
    let new_status = cert.validate_cert(&status).expect("validate");
    assert!(new_status.cert.valid);
    assert!(!new_status.needs_renewal, "Should not need renewal yet");
}

fn check_in_renew_window() {
    let valid_until = Utc::now() + Duration::days(5);
    let cert = base_cert(valid_until);
    let status = cert.status.as_ref().unwrap().duplicate();
    let new_status = cert.validate_cert(&status).expect("validate");
    assert!(new_status.cert.valid);
    assert!(new_status.needs_renewal, "Should need renewal when inside window");
}

fn check_expired() {
    let valid_until = Utc::now() - Duration::hours(1);
    let cert = base_cert(valid_until);
    let status = cert.status.as_ref().unwrap().duplicate();
    let new_status = cert.validate_cert(&status).expect("validate");
    assert!(!new_status.cert.valid, "Expired cert should be marked invalid");
    assert!(new_status.needs_renewal, "Expired cert needs renewal");
}

fn check_custom_renew_before() {
    let mut cert = Certificate::new("test-cert", spec(Some(Span { secs: 60 * 60 * 24 * 2, nanos: 0 })));
    let valid_until = Utc::now() + Duration::hours(47);
    cert.status = Some(status_with(valid_until));
    let status = cert.status.as_ref().unwrap().duplicate();
    let new_status = cert.validate_cert(&status).expect("validate");
    assert!(new_status.needs_renewal, "Inside custom renew window");
}

fn check_ready_true() {
    let valid_until = Utc::now() + Duration::days(30);
    let cert = base_cert(valid_until);
    let mut status = cert.status.as_ref().unwrap().duplicate();
    set_availability_conditions(&cert, &mut status);
    assert_eq!(find(&status.conditions, "Ready").status, "True");
}

fn check_ready_false_when_invalid() {
    let cert = base_cert(Utc::now() - Duration::hours(1));
    let mut status = cert.status.as_ref().unwrap().duplicate();
    status = cert.validate_cert(&status).expect("validate");
    set_availability_conditions(&cert, &mut status);
    assert_eq!(find(&status.conditions, "Ready").status, "False");
}

fn check_ready_independent_of_renewal() {
    let valid_until = Utc::now() + Duration::days(5);
    let cert = base_cert(valid_until);
    let status = cert.status.as_ref().unwrap().duplicate();
    let mut new_status = cert.validate_cert(&status).expect("validate");
    assert!(new_status.needs_renewal);
    set_availability_conditions(&cert, &mut new_status);
    assert_eq!(find(&new_status.conditions, "Ready").status, "True");
}

#[test]
fn reconcile_validate_cert_not_in_renew_window() {
    check_not_in_renew_window();
}

#[test]
fn reconcile_validate_cert_in_renew_window() {
    check_in_renew_window();
}

#[test]
fn reconcile_validate_cert_expired() {
    check_expired();
}

#[test]
fn reconcile_validate_cert_custom_renew_before() {
    check_custom_renew_before();
}

#[test]
fn reconcile_ready_true_when_key_and_cert_ready() {
    check_ready_true();
}

#[test]
fn reconcile_ready_false_when_cert_invalid() {
    check_ready_false_when_invalid();
}

#[test]
fn reconcile_ready_independent_of_renewal_required() {
    check_ready_independent_of_renewal();
}

#[test]
fn tests_validate_cert_not_in_renew_window() {
    check_not_in_renew_window();
}

#[test]
fn tests_validate_cert_in_renew_window() {
    check_in_renew_window();
}

#[test]
fn tests_validate_cert_expired() {
    check_expired();
}

#[test]
fn tests_validate_cert_custom_renew_before() {
    check_custom_renew_before();
}

#[test]
fn tests_ready_true_when_key_and_cert_ready() {
    check_ready_true();
}

#[test]
fn tests_ready_false_when_cert_invalid() {
    check_ready_false_when_invalid();
}

#[test]
fn tests_ready_independent_of_renewal_required() {
    check_ready_independent_of_renewal();
}

#[test]
fn validate_at_fixed_time_sets_validity_renewal_and_condition() {
    let until = DateTime::parse_from_rfc3339("2030-01-10T00:00:00+00:00").unwrap().with_timezone(&Utc);
    let cert = base_cert(until);
    let status = cert.status.as_ref().unwrap().duplicate();
    let at = instant(DateTime::parse_from_rfc3339("2030-01-02T00:00:00+00:00").unwrap().with_timezone(&Utc));
    let n = cert.validate_cert_at(&status, at).expect("validate");
    assert!(n.cert.valid);
    assert!(!n.needs_renewal);
    let c = find(&n.conditions, "RenewalRequired");
    assert_eq!(c.status, "False");
    assert_eq!(c.reason, "NotInWindow");
    let at2 = instant(DateTime::parse_from_rfc3339("2030-01-03T00:00:00+00:00").unwrap().with_timezone(&Utc));
    let n2 = cert.validate_cert_at(&status, at2).expect("validate");
    assert!(n2.needs_renewal, "the renewal time itself is inside the window");
    assert_eq!(find(&n2.conditions, "RenewalRequired").reason, "RenewalWindow");
}

#[test]
fn renew_before_is_expiry_less_window() {
    let until = DateTime::parse_from_rfc3339("2030-01-10T00:00:00+00:00").unwrap().with_timezone(&Utc);
    let cert = base_cert(until);
    let status = cert.status.as_ref().unwrap().duplicate();
    let r = cert.renew_before(&status).expect("renewal time");
    let expected = DateTime::parse_from_rfc3339("2030-01-03T00:00:00+00:00").unwrap();
    assert_eq!(r.secs, expected.timestamp());
    assert_eq!(r.nanos, 0);
}

#[test]
fn valid_until_missing_and_malformed() {
    let cert = base_cert(Utc::now());
    let mut status = cert.status.as_ref().unwrap().duplicate();
    status.cert.valid_until = None;
    match cert.valid_until(&status) {
        Err(Error::MissingAnnotation(m)) => assert_eq!(m, "validUntil"),
        other => panic!("unexpected {:?}", other),
    }
    status.cert.valid_until = Some("not a time".into());
    assert!(matches!(cert.valid_until(&status), Err(Error::ParseError(_))));
}

#[test]
fn validate_cert_reports_missing_and_malformed_expiry() {
    let cert = base_cert(Utc::now());
    let mut status = cert.status.as_ref().unwrap().duplicate();
    status.cert.valid_until = None;
    match cert.validate_cert(&status) {
        Err(Error::MissingAnnotation(m)) => assert_eq!(m, "validUntil"),
        other => panic!("unexpected {:?}", other),
    }
    status.cert.valid_until = Some("not a time".into());
    assert!(matches!(cert.validate_cert(&status), Err(Error::ParseError(_))));
}

#[test]
fn renew_before_out_of_range_is_an_error() {
    let mut cert = Certificate::new("c", spec(Some(Span { secs: u64::MAX, nanos: 0 })));
    cert.status = Some(status_with(Utc::now()));
    let status = cert.status.as_ref().unwrap().duplicate();
    match cert.renew_before(&status) {
        Err(Error::OtherError(m)) => assert_eq!(m, OUT_OF_RANGE_MESSAGE),
        other => panic!("unexpected {:?}", other),
    }
}

#[test]
fn next_step_follows_status_flags() {
    let mut s = status_with(Utc::now());
    assert_eq!(Certificate::next_step(&s), CertStep::Validate);
    s.needs_renewal = true;
    assert_eq!(Certificate::next_step(&s), CertStep::RenewCert);
    s.cert_exists = false;
    assert_eq!(Certificate::next_step(&s), CertStep::IssueCert);
    s.key_exists = false;
    assert_eq!(Certificate::next_step(&s), CertStep::CreateKey);
}

#[test]
fn validate_step_waits_until_expiry_and_refuses_expired() {
    let until = DateTime::parse_from_rfc3339("2030-01-10T00:00:00+00:00").unwrap().with_timezone(&Utc);
    let cert = base_cert(until);
    let status = cert.status.as_ref().unwrap().duplicate();
    let at = instant(DateTime::parse_from_rfc3339("2030-01-09T00:00:00+00:00").unwrap().with_timezone(&Utc));
    let (n, wait) = cert.validate_step_at(&status, at).expect("step");
    assert_eq!(wait, Span { secs: 86400, nanos: 0 });
    assert_eq!(find(&n.conditions, "Ready").status, "True");
    assert_eq!(find(&n.conditions, "RenewalRequired").status, "True");
    let late = instant(DateTime::parse_from_rfc3339("2030-01-11T00:00:00+00:00").unwrap().with_timezone(&Utc));
    match cert.validate_step_at(&status, late) {
        Err(Error::OtherError(m)) => assert_eq!(m, OUT_OF_RANGE_MESSAGE),
        other => panic!("unexpected {:?}", other),
    }
}

#[test]
fn issuer_kind_and_namespace() {
    let cert = base_cert(Utc::now());
    assert_eq!(cert.issuer_namespace("ns").unwrap(), "ns");
    let mut other = Certificate::new("c", spec(None));
    other.spec.issuer.namespace = Some("elsewhere".into());
    assert_eq!(other.issuer_namespace("ns").unwrap(), "elsewhere");
    other.spec.issuer.kind = "ClusterIssuer".into();
    match other.issuer_namespace("ns") {
        Err(Error::OtherError(m)) => assert_eq!(m, "Unsupported issuer kind: ClusterIssuer"),
        o => panic!("unexpected {:?}", o),
    }
}

#[test]
fn signer_secrets_follow_issuer_status() {
    let mut me = base_cert(Utc::now());
    me.metadata.uid = Some("u1".into());
    let mut issuer = base_cert(Utc::now());
    issuer.metadata.uid = Some("u1".into());
    let s = me.signer_secrets(&issuer).expect("issuer");
    assert_eq!(s.key_secret.as_deref(), Some("ksec"));
    assert_eq!(s.cert_secret.as_deref(), Some("csec"));
    assert!(s.self_signed);
    issuer.status.as_mut().unwrap().cert_exists = false;
    issuer.metadata.uid = Some("u2".into());
    let s = me.signer_secrets(&issuer).expect("issuer");
    assert!(s.cert_secret.is_none());
    assert!(!s.self_signed);
    match Certificate::signer_cert(&s) {
        Err(Error::OtherError(m)) => assert_eq!(m, "Signer cert secret not found"),
        o => panic!("unexpected {:?}", o),
    }
    issuer.status = None;
    match me.signer_secrets(&issuer) {
        Err(Error::OtherError(m)) => assert_eq!(m, "Issuer status not found"),
        o => panic!("unexpected {:?}", o),
    }
}

#[test]
fn self_signed_uses_the_issued_certificate() {
    let mut me = base_cert(Utc::now());
    me.metadata.uid = Some("u".into());
    let mut issuer = base_cert(Utc::now());
    issuer.metadata.uid = Some("u".into());
    issuer.status.as_mut().unwrap().cert_exists = false;
    let s = me.signer_secrets(&issuer).unwrap();
    assert!(matches!(Certificate::signer_cert(&s), Ok(SignerCert::Issued)));
}

#[test]
fn sign_params_cover_the_renew_interval() {
    let cert = base_cert(Utc::now());
    let at = Instant { secs: 1_000_000, nanos: 0 };
    let p = cert.sign_params_at(at);
    assert_eq!(p.start, Some(at));
    assert_eq!(p.end, Some(Instant { secs: 1_000_000 + 30 * 86400, nanos: 0 }));
    assert_eq!(p.issuer.as_deref(), Some("issuer"));
    let far = Instant { secs: DateTime::<Utc>::MAX_UTC.timestamp() - 86400, nanos: 0 };
    assert!(cert.try_sign_params_at(far).is_none());
}

#[test]
fn status_after_key_records_key_and_condition() {
    let mut cert = base_cert(Utc::now());
    cert.metadata.generation = Some(3);
    let mut status = status_with(Utc::now());
    status.key_exists = false;
    let info = KeyInfo { name: "/test/KEY/1".into(), sig_type: "ECDSA".into(), key_text: "x".into() };
    let n = cert.status_after_key(&status, &info, "test-cert-key".into());
    assert!(n.key_exists);
    assert_eq!(n.key.name.as_deref(), Some("/test/KEY/1"));
    assert_eq!(n.key.secret.as_deref(), Some("test-cert-key"));
    let c = find(&n.conditions, "KeyReady");
    assert_eq!(c.reason, "KeyGenerated");
    assert_eq!(c.message, "Key secret created");
    assert_eq!(c.observed_generation, Some(3));
}

#[test]
fn status_after_issue_records_certificate() {
    let cert = base_cert(Utc::now());
    let status = status_with(Utc::now());
    let info = CertInfo {
        name: "/test/KEY/1/issuer/v=1".into(),
        sig_type: "ECDSA".into(),
        signer_key: "/issuer/KEY/2".into(),
        validity: (Instant { secs: 0, nanos: 0 }, Instant { secs: 86400, nanos: 0 }),
        cert_text: "t".into(),
    };
    let n = cert.status_after_issue(&status, &info, "test-cert-cert".into()).expect("issued");
    assert_eq!(n.cert.issued_at.as_deref(), Some("1970-01-01T00:00:00+00:00"));
    assert_eq!(n.cert.valid_until.as_deref(), Some("1970-01-02T00:00:00+00:00"));
    assert_eq!(n.cert.secret.as_deref(), Some("test-cert-cert"));
    assert!(n.cert.valid && n.cert_exists);
    assert_eq!(find(&n.conditions, "Issuing").status, "False");
    assert_eq!(find(&n.conditions, "IssuerReady").reason, "IssuerResolved");
    assert_eq!(find(&n.conditions, "Ready").status, "True");
}

#[test]
fn secret_names_and_owned_secret() {
    let mut cert = base_cert(Utc::now());
    cert.metadata.uid = Some("uid-1".into());
    assert_eq!(cert.key_secret_name(), "test-cert-key");
    assert_eq!(cert.cert_secret_name(), "test-cert-cert");
    let mut data = operator::objects::StringMap::new();
    data.insert("ndn.key".into(), "KEY".into());
    let secret = cert.create_owned_secret("test-cert-key".into(), data);
    let owners = secret.metadata.owner_references.unwrap();
    assert_eq!(owners.len(), 1);
    assert_eq!(owners[0].kind, "Certificate");
    assert_eq!(owners[0].uid, "uid-1");
    assert_eq!(owners[0].controller, Some(true));
    assert_eq!(secret.string_data.unwrap().get("ndn.key").as_deref(), Some("KEY"));
}

#[test]
fn key_text_from_decoded_errors() {
    let data = vec![
        ("ndn.key".to_string(), Decoded::Utf8("KEY".into())),
        ("bin".to_string(), Decoded::Bytes(vec![0, 159])),
    ];
    assert_eq!(key_text_from_decoded(&data, "ndn.key").unwrap(), "KEY");
    match key_text_from_decoded(&data, "bin") {
        Err(Error::OtherError(m)) => assert_eq!(m, "Key data is not UTF-8"),
        o => panic!("unexpected {:?}", o),
    }
    match key_text_from_decoded(&data, "missing") {
        Err(Error::OtherError(m)) => assert_eq!(m, "Key data not found"),
        o => panic!("unexpected {:?}", o),
    }
}

#[test]
fn is_cert_valid_reads_status() {
    let cert = base_cert(Utc::now());
    assert!(operator::cert_controller::is_cert_valid(Some(&cert)));
    assert!(!operator::cert_controller::is_cert_valid(None));
    let bare = Certificate::new("c", spec(None));
    assert!(!operator::cert_controller::is_cert_valid(Some(&bare)));
}
