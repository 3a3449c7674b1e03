use operator::network_controller::network::AnchorKind;
use operator::cert_controller::IssuerRef;
use operator::network_controller::daemonset::{create_owned_daemonset, network_init_env, network_plan, trust_anchors_json};
use operator::network_controller::{
    FacesSpec, IpFamily, NdndSpec, Network, NetworkSpec, NetworkTcpFaceSpec, NetworkWebSocketFaceSpec,
    OperatorSpec, TrustAnchorRef,
};
use operator::objects::{ObjectMeta, OwnerReference, StringMap};
use operator::Error;

fn map(pairs: &[(&str, &str)]) -> StringMap {
    let mut m = StringMap::new();
    for (k, v) in pairs {
        m.insert(k.to_string(), v.to_string());
    }
    m
}

fn spec(prefix: &str) -> NetworkSpec {
    NetworkSpec {
        prefix: prefix.into(),
        dv_network: None,
        udp_unicast_port: 6363,
        ip_family: IpFamily::IPv4,
        node_selector: None,
        template: None,
        ndnd: NdndSpec::default(),
        operator: Some(OperatorSpec::default()),
        router_cert_issuer: Some(IssuerRef {
            name: "issuer".into(),
            kind: "Certificate".into(),
            namespace: None,
        }),
        trust_anchors: None,
        faces: None,
    }
}

fn sample_network() -> Network {
    let mut nw = Network::new("demo", spec("/example"));
    nw.metadata.namespace = Some("demo-ns".into());
    nw.metadata.uid = Some("uid-123".into());
    nw.metadata.labels = Some(map(&[("app", "demo")]));
    nw.metadata.annotations = Some(map(&[("anno", "value")]));
    nw
}

#[test]
fn path_helpers_match_expected_layout() {
    let nw = sample_network();
    assert!(nw.container_socket_path().ends_with("demo.sock"));
    assert!(nw.container_config_path().ends_with("demo.yml"));
    assert!(nw.host_socket_path().contains("demo-ns"));
    assert!(nw.host_config_path().contains("demo-ns"));
    assert!(nw.host_keys_dir().contains("demo-ns"));
}

#[test]
fn path_helpers_exact_values() {
    let nw = sample_network();
    assert_eq!(nw.container_socket_path(), "/run/ndnd/demo.sock");
    assert_eq!(nw.container_config_path(), "/etc/ndnd/demo.yml");
    assert_eq!(nw.container_keys_dir(), "/etc/ndn/keys");
    assert_eq!(nw.host_socket_dir(), "/run/ndnd/demo-ns/demo");
    assert_eq!(nw.host_socket_path(), "/run/ndnd/demo-ns/demo/demo.sock");
    assert_eq!(nw.host_config_dir(), "/etc/ndnd/demo-ns/demo");
    assert_eq!(nw.host_config_path(), "/etc/ndnd/demo-ns/demo/demo.yml");
    assert_eq!(nw.host_keys_dir(), "/etc/ndn/keys/demo-ns/demo");
}

#[test]
fn create_owned_service_account_has_owner_reference() {
    let nw = sample_network();
    let sa = nw.create_owned_sa();
    assert_eq!(sa.metadata.name.as_deref(), Some("demo"));
    let owner_refs = sa.metadata.owner_references.as_ref().unwrap();
    assert_eq!(owner_refs.len(), 1);
    assert_eq!(owner_refs[0].name, "demo");
}

#[test]
fn create_owned_role_binding_targets_service_account() {
    let nw = sample_network();
    let mut rb = nw.create_owned_role_binding("svc".into(), "role".into());
    let subject = rb.subjects.pop().unwrap();
    assert_eq!(subject.name, "svc");
    assert_eq!(subject.namespace.as_deref(), Some("demo-ns"));
    assert_eq!(rb.role_ref.name, "role");
}

#[test]
fn create_owned_role_grants_router_and_certificate_access() {
    let nw = sample_network();
    let role = nw.create_owned_role();
    assert_eq!(role.rules.len(), 5);
    assert_eq!(role.rules[0].resources, vec!["routers/status".to_string()]);
    assert_eq!(role.rules[0].verbs, vec!["get".to_string(), "patch".to_string()]);
    assert_eq!(role.rules[4].api_groups, vec!["".to_string()]);
    assert_eq!(role.rules[4].resources, vec!["secrets".to_string()]);
}

#[test]
fn create_owned_router_populates_labels_and_prefix() {
    let nw = sample_network();
    let router = nw.create_owned_router("router-1", "node-a", None).expect("router");
    assert_eq!(router.spec.prefix, "/example/router-1");
    assert_eq!(router.spec.node_name, "node-a");
    let labels = router.metadata.labels.unwrap();
    assert_eq!(labels.get(operator::network_controller::NETWORK_LABEL_KEY), Some("demo".into()));
    assert!(router.metadata.annotations.unwrap().contains_key("anno"));
}

#[test]
fn create_owned_certificate_uses_router_name() {
    let nw = sample_network();
    let issuer = nw.spec.router_cert_issuer.as_ref().unwrap().duplicate();
    let cert = nw.create_owned_certificate("router-1", "router-1", &issuer).expect("cert");
    assert_eq!(cert.spec.prefix, "/example/router-1/32=DV");
    assert_eq!(cert.spec.issuer.name, issuer.name);
    assert_eq!(cert.metadata.name.as_deref(), Some("router-1"));
}

#[test]
fn owned_objects_need_a_uid() {
    let mut nw = sample_network();
    nw.metadata.uid = None;
    match nw.create_owned_router("r", "n", None) {
        Err(Error::OtherError(m)) => assert_eq!(m, "Failed to create owner reference"),
        o => panic!("unexpected {:?}", o),
    }
    let issuer = nw.spec.router_cert_issuer.as_ref().unwrap().duplicate();
    match nw.create_owned_certificate("r", "r", &issuer) {
        Err(Error::OtherError(m)) => assert_eq!(m, "Failed to create owner reference for certificate"),
        o => panic!("unexpected {:?}", o),
    }
}

#[test]
fn default_ndnd_image() {
    let spec = NetworkSpec {
        prefix: "/test".into(),
        dv_network: None,
        udp_unicast_port: 6363,
        ip_family: IpFamily::IPv4,
        node_selector: None,
        template: None,
        ndnd: NdndSpec::default(),
        operator: None,
        router_cert_issuer: None,
        trust_anchors: None,
        faces: None,
    };
    assert_eq!(spec.ndnd.image, "ghcr.io/named-data/ndnd:latest");
}

fn network_with_prefix_and_dv_network(dv_network: Option<&str>) -> Network {
    let mut s = spec("/root-network/subnetwork1");
    s.dv_network = dv_network.map(str::to_string);
    s.operator = None;
    s.router_cert_issuer = None;
    Network::new("subnetwork1", s)
}

#[test]
fn explicit_dv_network_defines_the_routing_domain() {
    let network = network_with_prefix_and_dv_network(Some("/root-network"));
    assert_eq!(network.dv_network(), "/root-network");
}

#[test]
fn application_prefix_is_the_default_routing_domain() {
    let network = network_with_prefix_and_dv_network(None);
    assert_eq!(network.dv_network(), "/root-network/subnetwork1");
}

fn test_network() -> Network {
    let mut s = spec("/test");
    s.operator = Some(OperatorSpec { image: "test/operator:latest".into() });
    s.router_cert_issuer = None;
    let mut nw = Network::new("test-net", s);
    let mut meta = ObjectMeta::empty();
    meta.namespace = Some("test-ns".into());
    meta.uid = Some("dummy-uid".into());
    nw.metadata = meta;
    nw
}

#[test]
fn daemonset_builder_basic() {
    let nw = test_network();
    let ds = create_owned_daemonset(&nw, Some("opimg".into()), Some("sa".into())).expect("build ds");
    let tmpl = ds.spec.unwrap().template;
    let spec = tmpl.spec.unwrap();
    assert_eq!(spec.containers.len(), 2);
    let init_vec = spec.init_containers.as_ref().expect("init containers");
    assert!(!init_vec.is_empty());
    let init_ct = &init_vec[0];
    let env_names: Vec<String> = init_ct.env.as_ref().unwrap().iter().map(|e| e.name.clone()).collect();
    assert!(env_names.contains(&"NDN_NETWORK_NAME".to_string()));
    assert!(env_names.contains(&"NDN_SOCKET_PATH".to_string()));
}

#[test]
fn daemonset_containers_ports_and_volumes() {
    let mut nw = test_network();
    nw.metadata.name = Some("test-net".into());
    nw.spec.faces = Some(FacesSpec {
        tcp: Some(NetworkTcpFaceSpec::default()),
        websocket: Some(NetworkWebSocketFaceSpec::default()),
    });
    let ds = create_owned_daemonset(&nw, Some("opimg".into()), None).unwrap();
    assert_eq!(ds.metadata.owner_references.as_ref().unwrap()[0].kind, "Network");
    let spec = ds.spec.unwrap().template.spec.unwrap();
    let ndnd = &spec.containers[0];
    assert_eq!(ndnd.name, "network");
    assert_eq!(ndnd.image.as_deref(), Some("ghcr.io/named-data/ndnd:latest"));
    assert_eq!(ndnd.args.as_ref().unwrap(), &vec!["daemon".to_string(), "/etc/ndnd/test-net.yml".to_string()]);
    let ports = ndnd.ports.as_ref().unwrap();
    assert_eq!(ports.len(), 3);
    assert_eq!(ports[0].container_port, 6363);
    assert_eq!(ports[2].name.as_deref(), Some("websocket"));
    assert_eq!(ports[2].host_port, Some(9696));
    let watch = &spec.containers[1];
    assert_eq!(watch.image.as_deref(), Some("opimg"));
    let volumes = spec.volumes.unwrap();
    assert_eq!(volumes.len(), 3);
    assert_eq!(volumes[2].name, "keys");
}

#[test]
fn init_env_lists_router_settings() {
    let mut nw = test_network();
    nw.spec.faces = Some(FacesSpec { tcp: Some(NetworkTcpFaceSpec::default()), websocket: None });
    nw.spec.trust_anchors = Some(vec![
        TrustAnchorRef { name: "root".into(), kind: "Certificate".into(), namespace: None },
        TrustAnchorRef { name: "ext".into(), kind: "ExternalCertificate".into(), namespace: Some("o\"ther".into()) },
    ]);
    let env = network_init_env(&nw, "/run/ndnd/test-net.sock");
    let get = |n: &str| env.iter().find(|e| e.name == n).and_then(|e| e.value.clone());
    assert_eq!(get("NDN_UDP_UNICAST_PORT").as_deref(), Some("6363"));
    assert_eq!(get("NDN_INSECURE").as_deref(), Some("true"));
    assert_eq!(get("NDN_DV_NETWORK").as_deref(), Some("/test"));
    assert_eq!(get("NDN_IP_FAMILY").as_deref(), Some("IPv4"));
    assert_eq!(get("NDN_TCP_PORT").as_deref(), Some("6363"));
    assert_eq!(get("NDN_WS_PORT"), None);
    assert_eq!(
        get("NDN_TRUST_ANCHORS").as_deref(),
        Some(r#"[{"name":"root","kind":"Certificate"},{"name":"ext","kind":"ExternalCertificate","namespace":"o\"ther"}]"#)
    );
    let ns = env.iter().find(|e| e.name == "NDN_NETWORK_NAMESPACE").unwrap();
    assert_eq!(ns.field_path.as_deref(), Some("metadata.namespace"));
}

#[test]
fn trust_anchor_json_matches_serde_json() {
    let anchors = vec![TrustAnchorRef {
        name: "a\\b\n\u{1}".into(),
        kind: "Certificate".into(),
        namespace: Some("ns".into()),
    }];
    let expected = format!(
        "[{{\"name\":{},\"kind\":{},\"namespace\":{}}}]",
        serde_json::to_string("a\\b\n\u{1}").unwrap(),
        serde_json::to_string("Certificate").unwrap(),
        serde_json::to_string("ns").unwrap()
    );
    assert_eq!(trust_anchors_json(&anchors), expected);
    assert_eq!(trust_anchors_json(&vec![]), "[]");
}

#[test]
fn face_services_for_tcp_and_websocket() {
    let mut nw = sample_network();
    let mut tcp = NetworkTcpFaceSpec::default();
    tcp.port = 6464;
    tcp.service_template.metadata.labels = Some(map(&[("extra", "1")]));
    tcp.service_template.metadata.annotations = Some(map(&[("lb", "x")]));
    nw.spec.faces = Some(FacesSpec { tcp: Some(tcp), websocket: Some(NetworkWebSocketFaceSpec::default()) });
    let svcs = nw.face_services();
    assert_eq!(svcs.len(), 2);
    assert_eq!(svcs[0].metadata.name.as_deref(), Some("demo-tcp"));
    assert_eq!(svcs[0].type_, "LoadBalancer");
    assert_eq!(svcs[0].ports[0].port, 6464);
    assert_eq!(svcs[0].ports[0].target_port, 6464);
    let labels = svcs[0].metadata.labels.as_ref().unwrap();
    assert_eq!(labels.get("extra").as_deref(), Some("1"));
    assert_eq!(labels.get(operator::network_controller::DS_LABEL_KEY).as_deref(), Some("demo"));
    assert!(svcs[0].metadata.annotations.as_ref().unwrap().contains_key("lb"));
    assert_eq!(svcs[1].metadata.name.as_deref(), Some("demo-ws"));
    assert_eq!(svcs[1].ports[0].name, "websocket");
    assert!(svcs[1].metadata.annotations.is_none());
}

#[test]
fn status_after_apply_and_image_choice() {
    let mut nw = sample_network();
    nw.metadata.generation = Some(4);
    let st = nw.status_after_apply();
    assert_eq!(st.ds_created, Some(true));
    let conds = st.conditions.unwrap();
    let types: Vec<&str> = conds.iter().map(|c| c.type_.as_str()).collect();
    assert_eq!(types, vec!["RBACReady", "DSCreated", "Ready"]);
    assert!(conds.iter().all(|c| c.status == "True" && c.observed_generation == Some(4)));
    assert_eq!(nw.daemonset_image(Some("mine".into())), "ghcr.io/ndn-operator/ndn-operator:latest");
    nw.spec.operator = None;
    assert_eq!(nw.daemonset_image(Some("mine".into())), "mine");
    assert_eq!(nw.daemonset_image(None), "ghcr.io/ndn-operator/ndn-operator:latest");
}

#[test]
fn trust_anchor_kind_and_names() {
    let a = TrustAnchorRef { name: "r".into(), kind: "Secret".into(), namespace: None };
    match a.anchor_kind() {
        Err(Error::OtherError(m)) => assert_eq!(m, "Unsupported trust anchor kind: Secret"),
        o => panic!("unexpected {:?}", o),
    }
    assert_eq!(a.anchor_namespace("dflt"), "dflt");
    match TrustAnchorRef::cert_name_from_status(AnchorKind::ExternalCertificate, None) {
        Err(Error::OtherError(m)) => assert_eq!(m, "ExternalCertificate name not found in status"),
        o => panic!("unexpected {:?}", o),
    }
}

fn owner(kind: &str, api_version: &str, name: &str) -> OwnerReference {
    OwnerReference {
        api_version: api_version.into(),
        kind: kind.into(),
        name: name.into(),
        uid: "uid-1".into(),
        controller: Some(true),
        block_owner_deletion: None,
    }
}

#[test]
fn network_from_owner_reference() {
    let nw = Network::try_from(owner("Network", "named-data.net/v1alpha1", "demo")).expect("network");
    assert_eq!(nw.metadata.name.as_deref(), Some("demo"));
    assert!(nw.metadata.namespace.is_none());
    assert_eq!(nw.spec.prefix, "");
    assert_eq!(nw.spec.udp_unicast_port, 0);
    assert!(matches!(nw.spec.ip_family, IpFamily::IPv4));
    assert_eq!(nw.spec.ndnd.image, "ghcr.io/named-data/ndnd:latest");
    assert!(nw.spec.router_cert_issuer.is_none());
    assert!(nw.status.is_none());
}

#[test]
fn network_from_owner_reference_rejects_other_kinds() {
    let err = Network::try_from(owner("Router", "named-data.net/v1alpha1", "demo")).unwrap_err();
    assert_eq!(err, "Expected kind 'Network', found 'Router'");
    let err = Network::try_from(owner("Network", "v1", "demo")).unwrap_err();
    assert_eq!(err, "Expected apiVersion 'named-data.net/v1alpha1', found 'v1'");
    let err = Network::try_from(owner("Network", "named-data.net/v1alpha1", "")).unwrap_err();
    assert_eq!(err, "OwnerReference name is empty");
}

#[test]
fn default_network_spec_values() {
    let s = NetworkSpec::default();
    assert_eq!(s.prefix, "");
    assert!(s.dv_network.is_none());
    assert!(s.faces.is_none());
    assert!(s.operator.is_none());
}

#[test]
fn network_plan_applies_rbac_daemonset_services_and_status() {
    let mut nw = sample_network();
    nw.metadata.generation = Some(3);
    nw.spec.operator = None;
    nw.spec.faces = Some(FacesSpec { tcp: None, websocket: Some(NetworkWebSocketFaceSpec::default()) });
    let plan = network_plan(&nw, Some("registry/operator:v1".into()));
    assert_eq!(plan.service_account.metadata.name.as_deref(), Some("demo"));
    assert_eq!(plan.role.metadata.name.as_deref(), Some("demo"));
    assert_eq!(plan.role_binding.role_ref.name, "demo");
    assert_eq!(plan.role_binding.subjects[0].name, "demo");
    assert_eq!(plan.role_binding.subjects[0].namespace.as_deref(), Some("demo-ns"));
    assert_eq!(plan.image, "registry/operator:v1");
    assert_eq!(plan.daemonset.metadata.name.as_deref(), Some("demo"));
    let pod = plan.daemonset.spec.as_ref().unwrap().template.spec.as_ref().unwrap();
    assert_eq!(pod.service_account_name.as_deref(), Some("demo"));
    assert_eq!(pod.containers[1].image.as_deref(), Some("registry/operator:v1"));
    assert_eq!(plan.services.len(), 1);
    assert_eq!(plan.services[0].metadata.name.as_deref(), Some("demo-ws"));
    assert_eq!(plan.status.ds_created, Some(true));
    let conds = plan.status.conditions.as_ref().unwrap();
    assert!(conds.iter().all(|c| c.status == "True" && c.observed_generation == Some(3)));
    assert_eq!(conds.len(), 3);
}

#[test]
fn networks_get_their_own_node_directories() {
    let a = sample_network();
    let mut b = sample_network();
    b.metadata.namespace = Some("other-ns".into());
    let mut c = sample_network();
    c.metadata.name = Some("demo2".into());
    assert_ne!(a.host_config_dir(), b.host_config_dir());
    assert_ne!(a.host_config_dir(), c.host_config_dir());
    assert_ne!(a.host_socket_dir(), b.host_socket_dir());
    assert_ne!(a.host_keys_dir(), c.host_keys_dir());
}
