//! User-mode CSRs: the counters, which read the machine counters.
use vstd::prelude::*;
use crate::global::XLen;
use super::m::PrivM;
use crate::processor::ProcessorCfg;

verus! {

/// The user-mode CSRs. They hold no state of their own: `instret` reads
/// `minstret` and `cycle` reads 0.
#[derive(Debug, Clone, Copy)]
pub struct PrivU {
    pub xlen: XLen,
}

impl PrivU {
    /// User CSRs for a hart of the configured width.
    pub fn new(cfg: &ProcessorCfg, m: &PrivM) -> (r: PrivU)
        ensures
            r.xlen == cfg.xlen,
    {
        PrivU { xlen: cfg.xlen }
    }
}

} // verus!
