use operator::injector::patch::{build_patch, create_env_var_prefix, ContainerShape, PodShape, Slot};
use operator::injector::{
    kind_name, network_of_pod, parse_credential_request, validate_resolved_certificate,
    CredentialKind, CredentialMounts, CredentialRef, ResolvedCertificate,
};
use operator::network_controller::pod_sync::Pod;
use operator::network_controller::{IpFamily, NdndSpec, Network, NetworkSpec};
use operator::objects::{ObjectMeta, StringMap};
use operator::Error;

fn sample_network() -> Network {
    let mut network = Network::new(
        "subnetwork1",
        NetworkSpec {
            prefix: "/root-network/subnetwork1".into(),
            dv_network: Some("/root-network".into()),
            udp_unicast_port: 6363,
            ip_family: IpFamily::IPv4,
            node_selector: None,
            template: None,
            ndnd: NdndSpec::default(),
            operator: None,
            router_cert_issuer: None,
            trust_anchors: None,
            faces: None,
        },
    );
    network.metadata.namespace = Some("mynetwork".into());
    network
}

fn pod_with_annotations(pairs: &[(&str, &str)]) -> Pod {
    let mut m = StringMap::new();
    for (k, v) in pairs {
        m.insert(k.to_string(), v.to_string());
    }
    let mut meta = ObjectMeta::empty();
    meta.annotations = Some(m);
    Pod { metadata: meta, spec: None }
}

#[test]
fn injected_prefix_remains_the_application_prefix() {
    let network = sample_network();
    assert_eq!(create_env_var_prefix(&network).value.as_deref(), Some("/root-network/subnetwork1"));
}

#[test]
fn parses_typed_credential_annotations() {
    let pod = pod_with_annotations(&[
        ("credentials.named-data.net/container", "producer"),
        ("credentials.named-data.net/signing", "Certificate/app-leaf"),
        ("credentials.named-data.net/trust-anchors", "Certificate/app-root,ExternalCertificate/imported-root"),
        ("credentials.named-data.net/certificate-chain", "Certificate/app-ca"),
    ]);
    let request = parse_credential_request(&pod).expect("valid credential annotations").expect("credentials requested");
    assert_eq!(request.container, "producer");
    let signing = request.signing.unwrap();
    assert_eq!(signing.kind, CredentialKind::Certificate);
    assert_eq!(signing.name, "app-leaf");
    assert_eq!(request.trust_anchors.len(), 2);
    assert_eq!(request.certificate_chain.len(), 1);
}

fn shape(name: &str, mounts: &[&str], env: &[&str]) -> ContainerShape {
    ContainerShape {
        name: name.into(),
        volume_mounts: mounts.iter().map(|s| s.to_string()).collect(),
        env: env.iter().map(|s| s.to_string()).collect(),
    }
}

fn slot_names<T>(v: &[Slot<T>]) -> Vec<String> {
    v.iter().map(|s| s.name().clone()).collect()
}

#[test]
fn patch_preserves_fields_and_mounts_credentials_only_in_target_container() {
    let pod = PodShape {
        volumes: vec!["existing".into()],
        containers: vec![shape("producer", &["existing"], &["KEEP_ME"]), shape("sidecar", &[], &[])],
    };
    let credentials = CredentialMounts {
        container: "producer".into(),
        signing: Some(ResolvedCertificate { key_secret: Some("leaf-key".into()), cert_secret: "leaf-cert".into() }),
        trust_anchors: vec!["root-cert".into()],
        certificate_chain: vec!["ca-cert".into(), "leaf-cert".into()],
    };
    let patch = build_patch(Some(&pod), &sample_network(), Some(&credentials)).expect("patch");
    assert!(slot_names(&patch.volumes).iter().any(|n| n == "existing"));
    let producer = &patch.containers[0];
    let producer_mounts = slot_names(&producer.volume_mounts);
    assert!(producer_mounts.iter().any(|n| n == "existing"));
    assert!(producer_mounts.iter().any(|n| n == "ndn-app-signing"));
    let producer_env = slot_names(&producer.env);
    assert!(producer_env.iter().any(|n| n == "KEEP_ME"));
    assert!(producer_env.iter().any(|n| n == "NDN_APP_SIGNING_KEY_FILE"));
    let sidecar = &patch.containers[1];
    assert!(slot_names(&sidecar.volume_mounts).iter().all(|n| n != "ndn-app-signing"));
    assert!(slot_names(&sidecar.env).iter().all(|n| !n.starts_with("NDN_APP_")));
}

#[test]
fn patch_lists_in_order_and_bundles_numbered() {
    let pod = PodShape {
        volumes: vec!["run-ndnd".into(), "data".into()],
        containers: vec![shape("app", &["data"], &["NDN_PREFIX", "X"])],
    };
    let credentials = CredentialMounts {
        container: "app".into(),
        signing: None,
        trust_anchors: vec![],
        certificate_chain: vec!["ca-cert".into(), "leaf-cert".into()],
    };
    let patch = build_patch(Some(&pod), &sample_network(), Some(&credentials)).unwrap();
    assert_eq!(slot_names(&patch.volumes), vec!["data", "run-ndnd", "ndn-app-certificate-chain"]);
    assert!(matches!(patch.volumes[0], Slot::Keep(1, _)));
    match &patch.volumes[2] {
        Slot::Add(_, v) => match &v.source {
            operator::objects::VolumeSource::Projected { default_mode, sources } => {
                assert_eq!(*default_mode, Some(0o444));
                assert_eq!(sources[1].secret_name, "leaf-cert");
                assert_eq!(sources[1].path, "chain-1.cert");
            }
            _ => panic!("projected volume expected"),
        },
        _ => panic!("added volume expected"),
    }
    match &patch.volumes[1] {
        Slot::Add(_, v) => match &v.source {
            operator::objects::VolumeSource::HostPath { path, type_ } => {
                assert_eq!(path, "/run/ndnd/mynetwork/subnetwork1/subnetwork1.sock");
                assert_eq!(type_.as_deref(), Some("Socket"));
            }
            _ => panic!("host path expected"),
        },
        _ => panic!("added volume expected"),
    }
    let env = slot_names(&patch.containers[0].env);
    assert_eq!(env, vec!["X", "NDN_CLIENT_TRANSPORT", "NDN_PREFIX", "NDN_APP_CERTIFICATE_CHAIN_DIR"]);
}

#[test]
fn rejects_unknown_credential_kind() {
    assert!(CredentialRef::parse("Secret/app-root").is_err());
}

#[test]
fn credential_reference_errors() {
    let msg = |r: Result<CredentialRef, Error>| match r {
        Err(Error::ValidationError(m)) => m,
        o => panic!("unexpected {:?}", o),
    };
    assert_eq!(msg(CredentialRef::parse("Secret/app-root")), "unsupported credential kind `Secret` in `Secret/app-root`");
    assert_eq!(msg(CredentialRef::parse("noslash")), "credential reference `noslash` must be Kind/name");
    assert_eq!(msg(CredentialRef::parse("Certificate/a/b")), "credential reference `Certificate/a/b` has an invalid resource name");
    assert_eq!(msg(CredentialRef::parse("Certificate/")), "credential reference `Certificate/` has an invalid resource name");
    let ok = CredentialRef::parse("  ExternalCertificate/root \n").unwrap();
    assert_eq!(ok.kind, CredentialKind::ExternalCertificate);
    assert_eq!(ok.name, "root");
    assert_eq!(kind_name(&ok), "ExternalCertificate");
}

#[test]
fn credential_request_errors() {
    let none = pod_with_annotations(&[("credentials.named-data.net/container", "x")]);
    assert!(parse_credential_request(&none).unwrap().is_none());
    let missing = pod_with_annotations(&[("credentials.named-data.net/signing", "Certificate/a")]);
    match parse_credential_request(&missing) {
        Err(Error::ValidationError(m)) => assert_eq!(
            m,
            "annotation `credentials.named-data.net/container` is required when application credentials are requested"
        ),
        o => panic!("unexpected {:?}", o),
    }
    let blank = pod_with_annotations(&[
        ("credentials.named-data.net/container", "  "),
        ("credentials.named-data.net/signing", "Certificate/a"),
    ]);
    match parse_credential_request(&blank) {
        Err(Error::ValidationError(m)) => assert_eq!(m, "annotation `credentials.named-data.net/container` cannot be empty"),
        o => panic!("unexpected {:?}", o),
    }
    let empty_item = pod_with_annotations(&[
        ("credentials.named-data.net/container", "app"),
        ("credentials.named-data.net/trust-anchors", "Certificate/a,,Certificate/b"),
    ]);
    match parse_credential_request(&empty_item) {
        Err(Error::ValidationError(m)) => assert_eq!(m, "credential reference list contains an empty item"),
        o => panic!("unexpected {:?}", o),
    }
}

#[test]
fn validates_ready_certificate_kinds_and_requires_a_signing_key() {
    let certificate = CredentialRef { kind: CredentialKind::Certificate, name: "leaf".into() };
    let r = validate_resolved_certificate(&certificate, true, true, Some("leaf-key".into()), true, true, Some("leaf-cert".into()))
        .expect("ready Certificate");
    assert_eq!(r.key_secret.as_deref(), Some("leaf-key"));
    assert_eq!(r.cert_secret, "leaf-cert");
    let external = CredentialRef { kind: CredentialKind::ExternalCertificate, name: "root".into() };
    assert!(validate_resolved_certificate(&external, false, false, None, true, true, Some("root-cert".into())).is_ok());
    assert!(validate_resolved_certificate(&external, true, false, None, true, true, Some("root-cert".into())).is_err());
}

#[test]
fn resolved_certificate_error_messages() {
    let r = CredentialRef { kind: CredentialKind::ExternalCertificate, name: "root".into() };
    let msg = |x: Result<ResolvedCertificate, Error>| match x {
        Err(Error::ValidationError(m)) => m,
        o => panic!("unexpected {:?}", o),
    };
    assert_eq!(
        msg(validate_resolved_certificate(&r, false, false, None, true, false, Some("c".into()))),
        "credential ExternalCertificate/root does not have a ready valid certificate"
    );
    assert_eq!(
        msg(validate_resolved_certificate(&r, false, false, None, true, true, None)),
        "credential ExternalCertificate/root has no certificate Secret"
    );
    assert_eq!(
        msg(validate_resolved_certificate(&r, true, true, None, true, true, Some("c".into()))),
        "signing credential ExternalCertificate/root does not have a private key Secret"
    );
}

#[test]
fn rejects_missing_credential_target_container() {
    let pod = PodShape { volumes: vec![], containers: vec![shape("consumer", &[], &[])] };
    let credentials = CredentialMounts {
        container: "missing".into(),
        signing: None,
        trust_anchors: vec![],
        certificate_chain: vec![],
    };
    assert!(build_patch(Some(&pod), &sample_network(), Some(&credentials)).is_err());
}

#[test]
fn patch_errors() {
    match build_patch(None, &sample_network(), None) {
        Err(Error::ValidationError(m)) => assert_eq!(m, "Pod has no spec to inject"),
        o => panic!("unexpected {:?}", o.map(|_| ())),
    }
    let pod = PodShape { volumes: vec![], containers: vec![shape("app", &[], &[])] };
    let creds = CredentialMounts {
        container: "app".into(),
        signing: Some(ResolvedCertificate { key_secret: None, cert_secret: "c".into() }),
        trust_anchors: vec![],
        certificate_chain: vec![],
    };
    match build_patch(Some(&pod), &sample_network(), Some(&creds)) {
        Err(Error::ValidationError(m)) => assert_eq!(m, "resolved signing certificate has no private key Secret"),
        o => panic!("unexpected {:?}", o.map(|_| ())),
    }
}

#[test]
fn network_of_pod_uses_annotations() {
    let mut pod = pod_with_annotations(&[("networks.named-data.net/name", "net")]);
    pod.metadata.namespace = Some("apps".into());
    assert_eq!(network_of_pod(&pod), Some(("net".to_string(), "apps".to_string())));
    let pod2 = pod_with_annotations(&[
        ("networks.named-data.net/name", "net"),
        ("networks.named-data.net/namespace", "nets"),
    ]);
    assert_eq!(network_of_pod(&pod2), Some(("net".to_string(), "nets".to_string())));
    assert_eq!(network_of_pod(&pod_with_annotations(&[])), None);
}

#[test]
fn socket_variables_injected_once_per_container() {
    let pod = PodShape {
        volumes: vec!["run-ndnd".into()],
        containers: vec![
            shape("a", &["run-ndnd", "data"], &["NDN_PREFIX", "NDN_CLIENT_TRANSPORT", "X"]),
            shape("b", &[], &[]),
        ],
    };
    let nw = sample_network();
    let patch = build_patch(Some(&pod), &nw, None).unwrap();
    for cp in &patch.containers {
        let env = slot_names(&cp.env);
        assert_eq!(env.iter().filter(|n| *n == "NDN_PREFIX").count(), 1);
        assert_eq!(env.iter().filter(|n| *n == "NDN_CLIENT_TRANSPORT").count(), 1);
        for s in &cp.env {
            if let Slot::Add(n, e) = s {
                match n.as_str() {
                    "NDN_PREFIX" => assert_eq!(e.value.as_deref(), Some(nw.spec.prefix.as_str())),
                    "NDN_CLIENT_TRANSPORT" => assert_eq!(e.value.as_deref(), Some("unix:///run/ndnd.sock")),
                    other => panic!("unexpected injected variable {other}"),
                }
            }
        }
        let mounts = slot_names(&cp.volume_mounts);
        assert_eq!(mounts.iter().filter(|n| *n == "run-ndnd").count(), 1);
    }
    assert!(slot_names(&patch.containers[0].env).iter().any(|n| n == "X"));
    assert!(slot_names(&patch.containers[0].volume_mounts).iter().any(|n| n == "data"));
    assert_eq!(slot_names(&patch.volumes).iter().filter(|n| *n == "run-ndnd").count(), 1);
}
