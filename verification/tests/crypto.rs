use operator::cert_controller::crypto::{
    cert_info_from_output, key_info_from_output, keygen_args, sign_cert_args, CertInfo, KeyInfo,
    SignCertParams,
};
use operator::clock::Instant;
use operator::Error;

#[test]
fn key_text_fields() {
    let k = KeyInfo::from_key_text("Name: /a/KEY/1\nSigType: ECDSA\nOther: x\n".into()).unwrap();
    assert_eq!(k.name, "/a/KEY/1");
    assert_eq!(k.sig_type, "ECDSA");
    match KeyInfo::from_key_text("SigType: ECDSA\n".into()) {
        Err(Error::OtherError(m)) => assert_eq!(m, "Could not parse key name"),
        o => panic!("unexpected {:?}", o),
    }
    match KeyInfo::from_key_text("Name: n\n".into()) {
        Err(Error::OtherError(m)) => assert_eq!(m, "Could not parse sig type"),
        o => panic!("unexpected {:?}", o),
    }
}

#[test]
fn cert_text_fields_and_validity() {
    let text = "Name: /a/KEY/1/b/v=1\nSigType: ECDSA\nSignerKey: /b/KEY/2\nValidity: 2024-01-01 00:00:00 +0000 UTC - 2024-01-02 00:00:00 +0000 UTC\n";
    let c = CertInfo::from_cert_text(text.into()).unwrap();
    assert_eq!(c.signer_key, "/b/KEY/2");
    assert_eq!(c.validity.0, Instant { secs: 1_704_067_200, nanos: 0 });
    assert_eq!(c.validity.1, Instant { secs: 1_704_153_600, nanos: 0 });
    let bad = "Name: n\nSigType: s\nSignerKey: k\nValidity: junk - 2024-01-02 00:00:00 +0000 UTC\n";
    match CertInfo::from_cert_text(bad.into()) {
        Err(Error::OtherError(m)) => assert!(m.starts_with("Failed to parse start date: ")),
        o => panic!("unexpected {:?}", o),
    }
    let dflt = (Instant { secs: 5, nanos: 0 }, Instant { secs: 6, nanos: 0 });
    let c = CertInfo::from_cert_text_at("Name: n\nSigType: s\nSignerKey: k\n".into(), dflt).unwrap();
    assert_eq!(c.validity, dflt);
}

#[test]
fn ndnd_arguments() {
    assert_eq!(keygen_args("/p"), vec!["sec", "keygen", "/p", "ecc", "secp256r1"]);
    let mut p = SignCertParams::empty();
    p.start = Some(Instant { secs: 0, nanos: 0 });
    p.issuer = Some("iss".into());
    let args = sign_cert_args("/tmp/k", &p).unwrap();
    assert_eq!(args, vec!["sec", "sign-cert", "/tmp/k", "--start", "19700101000000", "--issuer", "iss"]);
}

#[test]
fn command_outputs() {
    match key_info_from_output(false, vec![], "boom".into()) {
        Err(Error::OtherError(m)) => assert_eq!(m, "ndnsec keygen failed: boom"),
        o => panic!("unexpected {:?}", o),
    }
    let k = key_info_from_output(true, b"Name: n\nSigType: s\n".to_vec(), String::new()).unwrap();
    assert_eq!(k.name, "n");
    match cert_info_from_output(false, vec![], "bad".into()) {
        Err(Error::OtherError(m)) => assert_eq!(m, "ndnsec sign failed: bad"),
        o => panic!("unexpected {:?}", o),
    }
    assert!(cert_info_from_output(true, vec![0xff], String::new()).is_err());
}
