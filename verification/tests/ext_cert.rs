use operator::cert_controller::types::{ExternalCertificate, ExternalCertificateSpec, ExternalCertificateStatus};
use operator::clock::Instant;
use operator::ext_cert_controller::reconcile::{is_external_cert_valid, set_external_availability_conditions};
use operator::helper::Decoded;

const CERT: &str = "Name: /ext/KEY/1/self/v=1\nSigType: ECDSA\nSignerKey: /ext/KEY/1\nValidity: 2024-01-01 00:00:00 +0000 UTC - 2034-01-01 00:00:00 +0000 UTC\n";
const KEY: &str = "Name: /ext/KEY/1\nSigType: ECDSA\n";

fn ecert() -> ExternalCertificate {
    ExternalCertificate::new("ext", ExternalCertificateSpec { secret_name: "ext-secret".into() })
}

fn ready(st: &ExternalCertificateStatus) -> String {
    st.conditions.as_ref().unwrap().iter().find(|c| c.type_ == "Ready").unwrap().status.clone()
}

#[test]
fn certificate_without_key_is_ready() {
    let e = ecert();
    let data = vec![("ndn.cert".to_string(), Decoded::Utf8(CERT.into()))];
    let at = Instant { secs: 1_800_000_000, nanos: 0 };
    let st = e.status_from_secret_at(&ExternalCertificateStatus::default(), &data, at);
    assert!(st.cert_exists && st.cert.valid);
    assert!(!st.key_exists);
    assert_eq!(st.cert.name.as_deref(), Some("/ext/KEY/1/self/v=1"));
    assert_eq!(st.cert.valid_until.as_deref(), Some("2034-01-01T00:00:00+00:00"));
    assert_eq!(st.cert.secret.as_deref(), Some("ext-secret"));
    assert_eq!(ready(&st), "True");
}

#[test]
fn key_and_expired_certificate() {
    let e = ecert();
    let data = vec![
        ("ndn.cert".to_string(), Decoded::Utf8(CERT.into())),
        ("ndn.key".to_string(), Decoded::Utf8(KEY.into())),
    ];
    let late = Instant { secs: 2_100_000_000, nanos: 0 };
    let st = e.status_from_secret_at(&ExternalCertificateStatus::default(), &data, late);
    assert!(st.key_exists);
    assert_eq!(st.key.name.as_deref(), Some("/ext/KEY/1"));
    assert!(st.cert_exists && !st.cert.valid);
    assert_eq!(ready(&st), "False");
}

#[test]
fn missing_or_binary_certificate_is_absent() {
    let e = ecert();
    let data = vec![("ndn.cert".to_string(), Decoded::Bytes(vec![0, 255]))];
    let st = e.status_from_secret(&ExternalCertificateStatus::default(), &data);
    assert!(!st.cert_exists && !st.cert.valid);
    assert_eq!(ready(&st), "False");
    let mut with_status = ecert();
    let mut s = ExternalCertificateStatus::default();
    s.cert.valid = true;
    s.cert_exists = true;
    s.cert.secret = Some("x".into());
    set_external_availability_conditions(&with_status, &mut s);
    assert_eq!(ready(&s), "True");
    with_status.status = Some(s);
    assert!(is_external_cert_valid(Some(&with_status)));
    assert!(!is_external_cert_valid(None));
}
