use operator::fw::{FacesConfig, ForwarderConfig, TablesConfig};
use operator::dv::RouterConfig;
use operator::NdndConfig;

#[test]
fn forwarder_config_default_sections_enabled() {
    let cfg = ForwarderConfig::default();
    assert!(cfg.core.is_some());
    assert!(cfg.mgmt.is_some());
    assert!(cfg.faces.tcp.is_some());
    assert!(cfg.faces.udp.is_some());
    assert_eq!(cfg.fw.queue_size, Some(1024));
}

#[test]
fn udp_and_websocket_defaults_match_expected_values() {
    let faces = FacesConfig::default();
    let udp = faces.udp.as_ref().unwrap();
    assert_eq!(udp.port_unicast, Some(6363));
    assert_eq!(udp.enabled_unicast, false);
    let ws = faces.websocket.as_ref().unwrap();
    assert_eq!(ws.port, 9696);
    assert!(!ws.tls_enabled);
}

#[test]
fn default_tables_and_faces_are_disabled() {
    let t = TablesConfig::default();
    assert_eq!(t.content_store.capacity, 1024);
    assert_eq!(t.content_store.replacement_policy, "lru");
    assert_eq!(t.fib.hashtable.m, 5);
    let f = FacesConfig::default();
    assert!(!f.tcp.unwrap().enabled);
    assert_eq!(f.unix.unwrap().socket_path, "/run/nfd/nfd.sock");
}

#[test]
fn constructed_forwarder_serves_udp_and_unix_only() {
    let cfg = ForwarderConfig::new();
    assert!(cfg.faces.udp.as_ref().unwrap().enabled_unicast);
    assert!(cfg.faces.unix.as_ref().unwrap().enabled);
    assert!(cfg.faces.tcp.is_none());
    assert!(cfg.faces.websocket.is_none());
    assert!(cfg.tables.is_none());
}

#[test]
fn ndnd_config_new_is_insecure() {
    let cfg = NdndConfig::new("/net".into(), "/net/r1".into());
    assert_eq!(cfg.dv.network, "/net");
    assert_eq!(cfg.dv.router, "/net/r1");
    assert_eq!(cfg.dv.keychain, "insecure");
    assert!(cfg.dv.neighbors.is_none());
    let d = RouterConfig::default();
    assert_eq!(d.keychain, "");
}
