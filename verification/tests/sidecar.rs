use operator::network_controller::router::RouterStatus;
use operator::objects::StringMap;
use operator::sidecar::{link_changes, merged_neighbors};

fn map(pairs: &[(&str, &str)]) -> StringMap {
    let mut m = StringMap::new();
    for (k, v) in pairs {
        m.insert(k.to_string(), v.to_string());
    }
    m
}

#[test]
fn outer_neighbors_win_over_inner() {
    let st = RouterStatus {
        initialized: true,
        online: true,
        inner_face: None,
        inner_neighbors: map(&[("a", "udp://a"), ("b", "udp://b")]),
        outer_neighbors: map(&[("b", "tcp://b"), ("c", "tcp://c")]),
        conditions: None,
    };
    let m = merged_neighbors(Some(&st));
    assert_eq!(m.len(), 3);
    assert_eq!(m.get("b").as_deref(), Some("tcp://b"));
    assert_eq!(merged_neighbors(None).len(), 0);
}

#[test]
fn links_created_and_destroyed_by_name() {
    let current = map(&[("a", "udp://a"), ("b", "udp://b")]);
    let next = map(&[("b", "udp://b2"), ("c", "udp://c")]);
    let ch = link_changes(&current, &next);
    assert_eq!(ch.create, vec![("c".to_string(), "udp://c".to_string())]);
    assert_eq!(ch.destroy, vec![("a".to_string(), "udp://a".to_string())]);
    let same = link_changes(&next, &next);
    assert!(same.create.is_empty() && same.destroy.is_empty());
}

#[test]
fn links_change_in_order_of_name() {
    let current = map(&[("z", "udp://z"), ("m", "udp://m"), ("k", "udp://k")]);
    let next = map(&[("y", "udp://y"), ("b", "udp://b"), ("k", "udp://k"), ("c", "udp://c")]);
    let ch = link_changes(&current, &next);
    let names: Vec<&str> = ch.create.iter().map(|(k, _)| k.as_str()).collect();
    assert_eq!(names, vec!["b", "c", "y"]);
    let names: Vec<&str> = ch.destroy.iter().map(|(k, _)| k.as_str()).collect();
    assert_eq!(names, vec!["m", "z"]);
    assert_eq!(ch.create[2].1, "udp://y");
}
