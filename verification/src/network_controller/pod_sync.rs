//! What the pod-sync controller makes for each router pod of a network: a
//! `Router` named after the pod and, on a secured network, its `Certificate`.
use vstd::prelude::*;

use crate::cert_controller::types::Certificate;
use crate::network_controller::daemonset::PodSpec;
use crate::network_controller::network::{
    can_own, owned_certificate, owned_router, Network, DS_LABEL_KEY,
};
use crate::network_controller::router::Router;
use crate::objects::{map_or_empty, name_any_spec, ObjectMeta};
use crate::text::lit;
use crate::Error;

verus! {

/// Finalizer that the pod-sync controller puts on router pods.
pub const POD_FINALIZER: &'static str = "pod.named-data.net/finalizer";

/// Name under which the pod-sync controller applies its changes.
pub const POD_SYNC_MANAGER_NAME: &'static str = "pod-sync";

/// A pod.
#[derive(Debug)]
pub struct Pod {
    pub metadata: ObjectMeta,
    pub spec: Option<PodSpec>,
}

/// What a router pod says of its router: its network, its node and its name.
#[derive(Debug)]
pub struct PodRouterPlan {
    /// The network, from the pod's DaemonSet label.
    pub network: String,
    /// The node the pod runs on.
    pub node_name: String,
    /// The router's name: the pod's.
    pub router_name: String,
}

/// The node of a pod, once scheduled.
pub open spec fn pod_node(p: Pod) -> Option<String> {
    match p.spec {
        Some(s) => s.node_name,
        None => None,
    }
}

/// Reads what a router pod says of its router. The pod must carry the label
/// of its network's DaemonSet and be scheduled on a node.
pub fn pod_router_plan(pod: &Pod) -> (r: Result<PodRouterPlan, Error>)
    ensures
        !map_or_empty(pod.metadata.labels).contains_key(DS_LABEL_KEY@) ==> (r matches Err(
            Error::MissingLabel(m),
        ) && m@ == DS_LABEL_KEY@),
        map_or_empty(pod.metadata.labels).contains_key(DS_LABEL_KEY@) && pod_node(*pod) is None ==> (
        r matches Err(Error::MissingAnnotation(m)) && m@ == "node_name"@),
        r is Ok <==> (map_or_empty(pod.metadata.labels).contains_key(DS_LABEL_KEY@) && pod_node(
            *pod,
        ) is Some),
        r matches Ok(p) ==> {
            &&& p.network@ == map_or_empty(pod.metadata.labels)[DS_LABEL_KEY@]
            &&& p.node_name == pod_node(*pod)->0
            &&& p.router_name@ == name_any_spec(pod.metadata)
        },
{
    let labels = pod.metadata.labels_or_empty();
    let network = match labels.get(DS_LABEL_KEY) {
        Some(n) => n,
        None => {
            return Err(Error::MissingLabel(lit(DS_LABEL_KEY)));
        },
    };
    let node = match &pod.spec {
        Some(s) => crate::objects::copy_opt(&s.node_name),
        None => None,
    };
    let node_name = match node {
        Some(n) => n,
        None => {
            return Err(Error::MissingAnnotation(lit("node_name")));
        },
    };
    Ok(PodRouterPlan { network, node_name, router_name: pod.metadata.name_any() })
}

/// The `Certificate` a router pod needs: on a secured network, one named
/// after the router and signed by the network's issuer; none otherwise.
pub fn pod_certificate(nw: &Network, plan: &PodRouterPlan) -> (r: Result<Option<Certificate>, Error>)
    ensures
        nw.spec.router_cert_issuer is None ==> r matches Ok(None),
        nw.spec.router_cert_issuer is Some && !can_own(*nw) ==> (r matches Err(Error::OtherError(m))
            && m@ == "Failed to create owner reference for certificate"@),
        nw.spec.router_cert_issuer is Some && can_own(*nw) ==> (r matches Ok(Some(c))
            && owned_certificate(
            c,
            *nw,
            plan.router_name@,
            plan.router_name@,
            nw.spec.router_cert_issuer->0,
        )),
{
    match &nw.spec.router_cert_issuer {
        None => Ok(None),
        Some(issuer) => {
            let c = nw.create_owned_certificate(
                plan.router_name.as_str(),
                plan.router_name.as_str(),
                issuer,
            )?;
            Ok(Some(c))
        },
    }
}

/// The `Router` of a router pod, with the certificate the cluster holds for
/// it.
pub fn pod_router(nw: &Network, plan: &PodRouterPlan, cert: Option<Certificate>) -> (r: Result<
    Router,
    Error,
>)
    ensures
        !can_own(*nw) ==> (r matches Err(Error::OtherError(m)) && m@
            == "Failed to create owner reference"@),
        can_own(*nw) ==> (r matches Ok(rt) && owned_router(
            rt,
            *nw,
            plan.router_name@,
            plan.node_name@,
            cert,
        )),
{
    nw.create_owned_router(plan.router_name.as_str(), plan.node_name.as_str(), cert)
}

} // verus!
