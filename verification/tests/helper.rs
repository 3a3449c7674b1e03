use operator::helper::{decode_secret, first_container_image, lookup_decoded, trim_trailing_newlines, Decoded};
use operator::network_controller::daemonset::PodSpec;
use operator::objects::Container;
use operator::Error;

#[test]
fn decode_secret_distinguishes_utf8_and_binary() {
    let data = Some(vec![
        ("plain".to_string(), b"hello".to_vec()),
        ("bin".to_string(), vec![0u8, 159u8]),
    ]);
    let decoded = decode_secret(data);
    match lookup_decoded(&decoded, "plain").unwrap() {
        Decoded::Utf8(s) => assert_eq!(s, "hello"),
        _ => panic!("expected utf8"),
    }
    match lookup_decoded(&decoded, "bin").unwrap() {
        Decoded::Bytes(bytes) => assert_eq!(bytes, &vec![0u8, 159u8]),
        _ => panic!("expected bytes"),
    }
}

#[test]
fn decode_secret_without_data_is_empty() {
    assert!(decode_secret(None).is_empty());
}

fn container(image: Option<&str>) -> Container {
    Container {
        name: "c".into(),
        image: image.map(str::to_string),
        command: None,
        args: None,
        env: None,
        ports: None,
        volume_mounts: None,
        privileged: None,
    }
}

fn pod_spec(containers: Vec<Container>) -> PodSpec {
    PodSpec {
        node_name: None,
        service_account_name: None,
        host_network: None,
        dns_policy: None,
        node_selector: None,
        init_containers: None,
        containers,
        volumes: None,
    }
}

#[test]
fn first_container_image_and_its_errors() {
    let spec = pod_spec(vec![container(Some("img:1")), container(Some("img:2"))]);
    assert_eq!(first_container_image(Some(&spec)).unwrap(), "img:1");
    let cases: Vec<(Option<PodSpec>, &str)> = vec![
        (None, "Pod spec not found"),
        (Some(pod_spec(vec![])), "Container not found"),
        (Some(pod_spec(vec![container(None)])), "Image not found"),
    ];
    for (spec, msg) in cases {
        match first_container_image(spec.as_ref()) {
            Err(Error::OtherError(m)) => assert_eq!(m, msg),
            o => panic!("unexpected {:?}", o),
        }
    }
}

#[test]
fn trailing_newlines_are_trimmed() {
    assert_eq!(trim_trailing_newlines("mynetwork\n\n"), "mynetwork");
    assert_eq!(trim_trailing_newlines("a\nb"), "a\nb");
    assert_eq!(trim_trailing_newlines(""), "");
}
