use operator::cert_controller::IssuerRef;
use operator::network_controller::daemonset::PodSpec;
use operator::network_controller::pod_sync::{pod_certificate, pod_router, pod_router_plan, Pod};
use operator::network_controller::{IpFamily, NdndSpec, Network, NetworkSpec, DS_LABEL_KEY};
use operator::objects::{ObjectMeta, StringMap};
use operator::Error;

fn pod(labelled: bool, node: Option<&str>) -> Pod {
    let mut meta = ObjectMeta::named("net-abcde");
    if labelled {
        let mut l = StringMap::new();
        l.insert(DS_LABEL_KEY.into(), "net".into());
        meta.labels = Some(l);
    }
    let spec = PodSpec {
        node_name: node.map(str::to_string),
        service_account_name: None,
        host_network: None,
        dns_policy: None,
        node_selector: None,
        init_containers: None,
        containers: vec![],
        volumes: None,
    };
    Pod { metadata: meta, spec: Some(spec) }
}

fn network(secure: bool) -> Network {
    let mut nw = Network::new(
        "net",
        NetworkSpec {
            prefix: "/net".into(),
            dv_network: None,
            udp_unicast_port: 6363,
            ip_family: IpFamily::IPv4,
            node_selector: None,
            template: None,
            ndnd: NdndSpec::default(),
            operator: None,
            router_cert_issuer: if secure {
                Some(IssuerRef { name: "root".into(), kind: "Certificate".into(), namespace: None })
            } else {
                None
            },
            trust_anchors: None,
            faces: None,
        },
    );
    nw.metadata.uid = Some("u".into());
    nw.metadata.namespace = Some("ns".into());
    nw
}

#[test]
fn router_pod_plan_and_objects() {
    let plan = pod_router_plan(&pod(true, Some("node-1"))).unwrap();
    assert_eq!(plan.network, "net");
    assert_eq!(plan.node_name, "node-1");
    assert_eq!(plan.router_name, "net-abcde");
    let nw = network(true);
    let cert = pod_certificate(&nw, &plan).unwrap().unwrap();
    assert_eq!(cert.spec.prefix, "/net/net-abcde/32=DV");
    let router = pod_router(&nw, &plan, Some(cert)).unwrap();
    assert_eq!(router.spec.cert.unwrap().name, "net-abcde");
    assert_eq!(router.spec.prefix, "/net/net-abcde");
    assert!(pod_certificate(&network(false), &plan).unwrap().is_none());
}

#[test]
fn router_pod_needs_label_and_node() {
    match pod_router_plan(&pod(false, Some("n"))) {
        Err(Error::MissingLabel(m)) => assert_eq!(m, DS_LABEL_KEY),
        o => panic!("unexpected {:?}", o),
    }
    match pod_router_plan(&pod(true, None)) {
        Err(Error::MissingAnnotation(m)) => assert_eq!(m, "node_name"),
        o => panic!("unexpected {:?}", o),
    }
}

#[test]
fn router_pod_objects_are_owned_labelled_and_namespaced() {
    let plan = pod_router_plan(&pod(true, Some("node-1"))).unwrap();
    let nw = network(true);
    let mut cert = pod_certificate(&nw, &plan).unwrap().unwrap();
    assert_eq!(cert.metadata.namespace.as_deref(), Some("ns"));
    let owners = cert.metadata.owner_references.as_ref().unwrap();
    assert_eq!(owners.len(), 1);
    assert_eq!((owners[0].name.as_str(), owners[0].uid.as_str(), owners[0].kind.as_str()), ("net", "u", "Network"));
    assert_eq!(cert.metadata.labels.as_ref().unwrap().get(operator::network_controller::NETWORK_LABEL_KEY).as_deref(), Some("net"));
    assert_eq!(cert.spec.renew_interval.map(|s| s.secs), Some(86400));
    assert_eq!(cert.spec.renew_before.map(|s| s.secs), Some(3600));
    assert_eq!(cert.spec.issuer.name, "root");
    cert.metadata.namespace = Some("cert-ns".into());
    let router = pod_router(&nw, &plan, Some(cert)).unwrap();
    assert_eq!(router.metadata.namespace.as_deref(), Some("ns"));
    assert_eq!(router.metadata.owner_references.as_ref().unwrap()[0].name, "net");
    assert_eq!(router.metadata.labels.as_ref().unwrap().get(operator::network_controller::NETWORK_LABEL_KEY).as_deref(), Some("net"));
    let cr = router.spec.cert.unwrap();
    assert_eq!((cr.name.as_str(), cr.namespace.as_deref()), ("net-abcde", Some("cert-ns")));
    assert!(router.status.is_none());
    let mut unowned = network(true);
    unowned.metadata.uid = None;
    match pod_router(&unowned, &plan, None) {
        Err(Error::OtherError(m)) => assert_eq!(m, "Failed to create owner reference"),
        o => panic!("unexpected {:?}", o),
    }
}
