//! NDN certificates and keys: the `Certificate` and `ExternalCertificate`
//! resources, the parsing of the texts that `ndnd sec` prints, and the
//! decisions of the certificate reconciler.
pub mod crypto;
pub mod issue;
pub mod reconcile;

pub mod types;


pub use crate::cert_controller::crypto::{CertInfo, KeyInfo, SignCertParams};
pub use crate::cert_controller::reconcile::{is_cert_valid, CERTIFICATE_MANAGER_NAME};
pub use crate::cert_controller::types::{
    CertStatus, Certificate, CertificateSpec, CertificateStatus, ExternalCertificate,
    ExternalCertificateSpec, ExternalCertificateStatus, IssuerRef, KeyStatus,
    CERTIFICATE_FINALIZER,
};
pub use crate::ext_cert_controller::reconcile::is_external_cert_valid;
