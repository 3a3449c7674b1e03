//! An operator that runs Named Data Networking (NDN) in a Kubernetes cluster:
//! the resources it manages (networks, routers, certificates, neighbors), the
//! objects it builds for them (DaemonSets, RBAC, Services, injected pod
//! patches), the decisions of its reconcilers, and the configuration files it
//! writes for `ndnd`.
use vstd::prelude::*;

pub mod cert_controller;
pub mod clock;
pub mod conditions;
pub mod controllers;
pub mod ext_cert_controller;
pub mod helper;
pub mod injector;
pub mod ndnd;
pub mod neighbor_controller;
pub mod ndnd_config;
pub mod network_controller;
pub mod objects;
pub mod pattern;
pub mod pod_init;
pub mod router_controller;
pub mod sidecar;
pub mod split;
pub mod text;

pub use crate::ndnd::{dv, fw, NdndConfig};

verus! {

/// The errors of the operator's logic.
#[derive(Debug)]
pub enum Error {
    /// A label the logic needs is missing.
    MissingLabel(String),
    /// A field or annotation the logic needs is missing.
    MissingAnnotation(String),
    /// A resource does not hold what it must.
    ValidationError(String),
    /// A timestamp could not be read; the text is the parser's message.
    ParseError(String),
    /// Any other failure, with its message.
    OtherError(String),
}

} // verus!
