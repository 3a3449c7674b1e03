//! The router controller's resources and conditions, as the rest of the
//! operator names them.
pub use crate::network_controller::router::{
    is_router_created, is_router_initialized, is_router_online, CertificateRef, Router,
    RouterFaces, RouterSpec, RouterStatus, RouterStep, ROUTER_FINALIZER, ROUTER_MANAGER_NAME,
};
