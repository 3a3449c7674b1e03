//! The configuration file of `ndnd`: a DV router section and a forwarder
//! section.
use vstd::prelude::*;

pub mod dv;
pub mod fw;

use crate::ndnd::dv::RouterConfig;
use crate::ndnd::fw::ForwarderConfig;

verus! {

/// The whole configuration `ndnd daemon` reads.
#[derive(Debug)]
pub struct NdndConfig {
    pub dv: RouterConfig,
    pub fw: ForwarderConfig,
}

} // verus!
