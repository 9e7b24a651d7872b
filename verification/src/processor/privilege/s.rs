//! Supervisor-mode CSRs. `sstatus`, `sie` and `sip` are views of the
//! machine registers and are served by `PrivilegeStates`.
use vstd::prelude::*;
use crate::global::{RegT, XLen};
use super::csrs::{Cause, Satp, Tvec};
use super::m::PrivM;
use crate::processor::ProcessorCfg;

verus! {

/// The supervisor-mode CSRs a hart keeps of its own.
#[derive(Debug, Clone, Copy)]
pub struct PrivS {
    pub xlen: XLen,
    /// `sstatus.uie`, the one `sstatus` field not shared with `mstatus`.
    pub uie: RegT,
    pub stvec: Tvec,
    pub scounteren: RegT,
    pub sscratch: RegT,
    pub sepc: RegT,
    pub scause: Cause,
    pub stval: RegT,
    pub satp: Satp,
}

impl PrivS {
    /// Structural well-formedness: every register has the hart's width.
    pub open spec fn wf(self) -> bool {
        &&& self.stvec.xlen == self.xlen
        &&& self.scause.xlen == self.xlen
        &&& self.satp.xlen == self.xlen
    }

    /// Supervisor CSRs at reset: all zero.
    pub fn new(cfg: &ProcessorCfg, m: &PrivM) -> (r: PrivS)
        ensures
            r.wf(),
            r.xlen == cfg.xlen,
            r.uie == 0 && r.scounteren == 0 && r.sepc == 0 && r.stval == 0 && r.sscratch == 0,
            r.stvec.bits == 0 && r.scause.bits == 0 && r.satp.bits == 0,
    {
        let xlen = cfg.xlen;
        PrivS {
            xlen,
            uie: 0,
            stvec: Tvec { xlen, bits: 0 },
            scounteren: 0,
            sscratch: 0,
            sepc: 0,
            scause: Cause { xlen, bits: 0 },
            stval: 0,
            satp: Satp { xlen, bits: 0 },
        }
    }
}

} // verus!
