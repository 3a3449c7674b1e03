use operator::helper::Decoded;
use operator::network_controller::IpFamily;
use operator::pod_init::{
    anchor_cert_fields, anchor_path, family_from_env, gen_config, inner_face, keychain_file,
    keychain_for, parse_flag, parse_port, router_cert_secrets, secret_value_utf8, GenConfigParams,
};
use operator::Error;

fn params() -> GenConfigParams {
    GenConfigParams {
        dv_network: "/root-network".into(),
        router_name: "router-0".into(),
        udp_unicast_port: 6364,
        keychain: "insecure".into(),
        socket_path: Some("/run/ndnd/net.sock".into()),
        trust_anchors: Some(vec!["/root/KEY/1/self/v=1".into()]),
        tcp_port: Some(6400),
        ws_port: None,
    }
}

#[test]
fn config_names_router_in_its_domain() {
    let cfg = gen_config(params());
    assert_eq!(cfg.dv.network, "/root-network");
    assert_eq!(cfg.dv.router, "/root-network/router-0");
    assert_eq!(cfg.dv.keychain, "insecure");
    assert_eq!(cfg.dv.trust_anchors.as_ref().unwrap().len(), 1);
    let udp = cfg.fw.faces.udp.as_ref().unwrap();
    assert!(udp.enabled_unicast);
    assert_eq!(udp.port_unicast, Some(6364));
    let tcp = cfg.fw.faces.tcp.as_ref().unwrap();
    assert!(tcp.enabled);
    assert_eq!(tcp.port_unicast, 6400);
    let ws = cfg.fw.faces.websocket.as_ref().unwrap();
    assert!(!ws.enabled, "an absent face is written disabled");
    assert_eq!(cfg.fw.faces.unix.as_ref().unwrap().socket_path, "/run/ndnd/net.sock");
}

#[test]
fn config_without_socket_uses_nfd_path_and_opens_websocket() {
    let mut p = params();
    p.socket_path = None;
    p.tcp_port = None;
    p.ws_port = Some(9797);
    let cfg = gen_config(p);
    assert_eq!(cfg.fw.faces.unix.as_ref().unwrap().socket_path, "/run/nfd/nfd.sock");
    assert!(!cfg.fw.faces.tcp.as_ref().unwrap().enabled);
    let ws = cfg.fw.faces.websocket.as_ref().unwrap();
    assert!(ws.enabled);
    assert_eq!(ws.bind, "0.0.0.0");
    assert_eq!(ws.port, 9797);
}

#[test]
fn keychain_paths() {
    assert_eq!(keychain_for(true, "/etc/ndn/keys"), "insecure");
    assert_eq!(keychain_for(false, "/etc/ndn/keys"), "dir:///etc/ndn/keys");
    assert_eq!(keychain_file("/k", "ndn.key"), "/k/ndn.key");
    assert_eq!(anchor_path("/k", "ns", "root"), "/k/trust-anchor-ns-root.cert");
}

#[test]
fn one_udp_face_by_preference_with_fallback() {
    let v4 = Some("10.0.0.1".to_string());
    let v6 = Some("fd00::1".to_string());
    assert_eq!(inner_face(&v4, &v6, IpFamily::IPv4, 6363).as_deref(), Some("udp://10.0.0.1:6363"));
    assert_eq!(inner_face(&v4, &v6, IpFamily::IPv6, 6363).as_deref(), Some("udp://[fd00::1]:6363"));
    assert_eq!(inner_face(&None, &v6, IpFamily::IPv4, 6363).as_deref(), Some("udp://[fd00::1]:6363"));
    assert_eq!(inner_face(&v4, &None, IpFamily::IPv6, 6363).as_deref(), Some("udp://10.0.0.1:6363"));
    assert_eq!(inner_face(&None, &None, IpFamily::IPv4, 6363), None);
}

#[test]
fn env_values_parse_like_std() {
    assert_eq!(parse_port("6363"), Some(6363));
    assert_eq!(parse_port("+80"), Some(80));
    assert_eq!(parse_port("65535"), Some(65535));
    assert_eq!(parse_port("65536"), None);
    assert_eq!(parse_port(""), None);
    assert_eq!(parse_port("+"), None);
    assert_eq!(parse_port("12a"), None);
    for s in ["0", "007", "65535", "x", "-1", " 1"] {
        assert_eq!(parse_port(s), s.parse::<u16>().ok(), "{s}");
    }
    assert_eq!(parse_flag("true"), Some(true));
    assert_eq!(parse_flag("false"), Some(false));
    assert_eq!(parse_flag("True"), None);
    assert_eq!(family_from_env(Some("IPv6")), IpFamily::IPv6);
    assert_eq!(family_from_env(Some("ipv6")), IpFamily::IPv4);
    assert_eq!(family_from_env(None), IpFamily::IPv4);
}

#[test]
fn secret_values_and_their_errors() {
    let data = vec![
        ("ndn.key".to_string(), Decoded::Utf8("KEY".into())),
        ("bin".to_string(), Decoded::Bytes(vec![255])),
    ];
    assert_eq!(secret_value_utf8(&data, "s", "ndn.key").unwrap(), "KEY");
    match secret_value_utf8(&data, "s", "bin") {
        Err(Error::OtherError(m)) => assert_eq!(m, "bin in secret s is not a valid UTF-8 string"),
        o => panic!("unexpected {:?}", o),
    }
    match secret_value_utf8(&data, "s", "ndn.cert") {
        Err(Error::OtherError(m)) => assert_eq!(m, "ndn.cert not found in secret s"),
        o => panic!("unexpected {:?}", o),
    }
}

#[test]
fn anchor_and_router_secret_errors() {
    match anchor_cert_fields("Certificate", "root", false, None, None) {
        Err(Error::OtherError(m)) => assert_eq!(m, "Status not found for Certificate `root`"),
        o => panic!("unexpected {:?}", o),
    }
    match anchor_cert_fields("Certificate", "root", true, None, None) {
        Err(Error::OtherError(m)) => assert_eq!(m, "Certificate name not found in status for `root`"),
        o => panic!("unexpected {:?}", o),
    }
    match anchor_cert_fields("Certificate", "root", true, Some("n".into()), None) {
        Err(Error::OtherError(m)) => assert_eq!(m, "Certificate secret not found in status for `root`"),
        o => panic!("unexpected {:?}", o),
    }
    assert_eq!(
        anchor_cert_fields("Certificate", "root", true, Some("n".into()), Some("s".into())).unwrap(),
        ("n".to_string(), "s".to_string())
    );
    match router_cert_secrets(None, Some("c".into())) {
        Err(Error::OtherError(m)) => assert_eq!(m, "Key secret not found"),
        o => panic!("unexpected {:?}", o),
    }
    match router_cert_secrets(Some("k".into()), None) {
        Err(Error::OtherError(m)) => assert_eq!(m, "Certificate secret not found"),
        o => panic!("unexpected {:?}", o),
    }
}
