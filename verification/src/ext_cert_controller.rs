//! The reconciler of `ExternalCertificate`: what it reads from the Secret a
//! certificate refers to, and the conditions it writes.
pub mod reconcile;
