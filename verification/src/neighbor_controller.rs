//! The `Neighbor` resource: a public face of an external NDN network, which
//! every router of a local network links to.
pub mod neighbor;
