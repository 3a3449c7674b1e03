//! The `Network` resource and what the operator builds for it: the DaemonSet
//! that runs `ndnd` on each node, its RBAC, the Services of its public faces,
//! the `Router` and `Certificate` of each router pod, and the decisions of the
//! router reconciler.
pub mod daemonset;
pub mod network;
pub mod pod_sync;
pub mod router;

pub use crate::network_controller::network::{
    default_ip_family, default_service_type, FaceServiceTemplate, FaceServiceTemplateSpec,
    FacesSpec, IpFamily, NdndSpec, Network, NetworkSpec, NetworkStatus,
    NetworkTcpFaceSpec, NetworkWebSocketFaceSpec, OperatorSpec, TrustAnchorRef,
    CONTAINER_CONFIG_DIR, CONTAINER_KEYS_DIR, CONTAINER_SOCKET_DIR, DS_LABEL_KEY,
    HOST_CONFIG_ROOT_DIR, HOST_KEYS_ROOT_DIR, HOST_SOCKET_ROOT_DIR, NETWORK_FINALIZER,
    NETWORK_LABEL_KEY, NETWORK_MANAGER_NAME,
};
pub use crate::network_controller::router::{Router, ROUTER_MANAGER_NAME};
