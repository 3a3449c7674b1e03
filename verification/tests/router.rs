use operator::network_controller::router::{
    is_router_created, is_router_initialized, is_router_online, Router, RouterFaces, RouterSpec,
    RouterStatus, RouterStep,
};
use operator::neighbor_controller::neighbor::{Neighbor, NeighborSpec};
use operator::objects::StringMap;
use operator::Error;

fn router_with_status(created: bool, initialized: bool, online: bool) -> Router {
    let mut router = Router::new(
        "demo",
        RouterSpec { prefix: "/demo/router".into(), node_name: "node-a".into(), cert: None },
    );
    router.status = if created {
        Some(RouterStatus {
            initialized,
            online,
            inner_face: Some("udp://example".into()),
            inner_neighbors: StringMap::new(),
            outer_neighbors: StringMap::new(),
            conditions: None,
        })
    } else {
        None
    };
    router
}

#[test]
fn is_router_created_checks_presence() {
    assert!(is_router_created(Some(&router_with_status(true, true, true))));
    assert!(is_router_created(Some(&router_with_status(false, false, false))));
    assert!(!is_router_created(None));
}

#[test]
fn is_router_online_reflects_status() {
    assert!(is_router_online(Some(&router_with_status(true, true, true))));
    assert!(!is_router_online(Some(&router_with_status(true, true, false))));
}

#[test]
fn is_router_initialized_reflects_status() {
    assert!(is_router_initialized(Some(&router_with_status(true, true, true))));
    assert!(!is_router_initialized(Some(&router_with_status(true, false, true))));
}

fn labelled(name: &str, network: &str) -> Router {
    let mut r = router_with_status(true, true, true);
    r.metadata.name = Some(name.into());
    let mut labels = StringMap::new();
    labels.insert(operator::network_controller::NETWORK_LABEL_KEY.into(), network.into());
    r.metadata.labels = Some(labels);
    r
}

#[test]
fn base_conditions_name_missing_prerequisites() {
    let mut r = router_with_status(true, false, false);
    r.status.as_mut().unwrap().inner_face = None;
    let conds = r.base_conditions().unwrap();
    let types: Vec<&str> = conds.iter().map(|c| c.type_.as_str()).collect();
    assert_eq!(types, vec!["Initialized", "Online", "FaceReady", "NeighborsSynced", "Ready"]);
    assert_eq!(conds[4].status, "False");
    assert_eq!(conds[4].message, "Missing prerequisites: Initialized, Online, FaceReady");
    assert_eq!(conds[3].reason, "NotStarted");
    let ok = router_with_status(true, true, true).base_conditions().unwrap();
    assert_eq!(ok[4].status, "True");
    assert_eq!(ok[4].message, "");
    let only_face = {
        let mut r = router_with_status(true, true, true);
        r.status.as_mut().unwrap().inner_face = None;
        r.base_conditions().unwrap()
    };
    assert_eq!(only_face[4].message, "Missing prerequisites: FaceReady");
}

#[test]
fn reconcile_step_and_propagation() {
    assert!(matches!(router_with_status(true, true, false).reconcile_step(), Ok(RouterStep::Offline)));
    match router_with_status(true, true, true).reconcile_step() {
        Err(Error::OtherError(m)) => assert_eq!(m, "Network label not found"),
        o => panic!("unexpected {:?}", o),
    }
    let me = labelled("r1", "net");
    match me.reconcile_step() {
        Ok(RouterStep::Propagate { network, face }) => {
            assert_eq!(network, "net");
            assert_eq!(face.as_deref(), Some("udp://example"));
        }
        o => panic!("unexpected {:?}", o),
    }
    let face = Some("udp://1.2.3.4:6363".to_string());
    let mut other = labelled("r2", "net");
    assert!(me.inner_neighbor_entry(&face, &me).is_none());
    let (k, v) = me.inner_neighbor_entry(&face, &other).unwrap();
    assert_eq!((k.as_str(), v.as_str()), ("r1", "udp://1.2.3.4:6363"));
    assert!(me.inner_neighbor_entry(&None, &other).is_none());
    assert!(me.inner_neighbor_removal(&other).is_none());
    other.status.as_mut().unwrap().add_inner_neighbor(k, v);
    assert_eq!(me.inner_neighbor_removal(&other).as_deref(), Some("r1"));
    other.status.as_mut().unwrap().remove_inner_neighbor("r1");
    assert_eq!(other.status.as_ref().unwrap().inner_neighbors.len(), 0);
}

#[test]
fn mark_synced_sets_condition() {
    let r = router_with_status(true, true, true);
    let mut conds = r.base_conditions();
    r.mark_synced(&mut conds);
    let c = conds.unwrap().into_iter().find(|c| c.type_ == "NeighborsSynced").unwrap();
    assert_eq!(c.status, "True");
    assert_eq!(c.reason, "SyncOK");
}

#[test]
fn faces_as_a_set() {
    let f = RouterFaces {
        udp4: Some("udp://a".into()),
        tcp4: Some("tcp://a".into()),
        udp6: Some("udp://a".into()),
        tcp6: None,
    };
    let v = f.to_btree_set();
    assert_eq!(v, vec!["tcp://a".to_string(), "udp://a".to_string()]);
    let g = RouterFaces {
        udp4: Some("udp://b".into()),
        tcp4: Some("tcp://b".into()),
        udp6: Some("udp://[::1]:6363".into()),
        tcp6: Some("tcp://[::1]:6363".into()),
    };
    assert_eq!(
        g.to_btree_set(),
        vec![
            "tcp://[::1]:6363".to_string(),
            "tcp://b".to_string(),
            "udp://[::1]:6363".to_string(),
            "udp://b".to_string(),
        ]
    );
    assert!(RouterFaces::default().to_btree_set().is_empty());
}

#[test]
fn neighbor_applies_to_routers_of_its_network() {
    let n = Neighbor::new("ext", NeighborSpec { network: "net".into(), uri: "tcp://host:6363".into() });
    assert!(n.applies_to(&labelled("r1", "net")));
    assert!(!n.applies_to(&labelled("r1", "other")));
    assert!(!n.applies_to(&router_with_status(true, true, true)));
    let (k, v) = n.outer_entry();
    let mut st = router_with_status(true, true, true).status.unwrap();
    st.add_outer_neighbor(k, v);
    assert_eq!(st.outer_neighbors.get("ext").as_deref(), Some("tcp://host:6363"));
    st.remove_outer_neighbor("ext");
    assert!(!st.outer_neighbors.contains_key("ext"));
}
