//! The hart: its configuration, state, privilege levels, traps and memory
//! system.
use vstd::prelude::*;
use crate::global::XLen;

pub mod trap;
pub mod privilege;
pub mod bus;
pub mod mmu;
pub mod extensions;
pub mod state;
pub mod decode;
pub mod decode_tree;
pub mod insn;
pub mod alu;
pub mod exec;
pub mod load_store;
pub mod exec_mem;
pub mod exec_float;
pub mod exec_fpu;
pub mod fetcher;
pub mod mulh;
pub mod cpu;

verus! {

/// The configuration of a hart.
#[derive(Debug, Clone)]
pub struct ProcessorCfg {
    /// Register width.
    pub xlen: XLen,
    /// Whether the page-table walker sets the accessed/dirty bits itself
    /// (else a clear bit faults).
    pub enable_dirty: bool,
    /// The ISA extensions, as lower-case letters.
    pub extensions: Vec<char>,
    /// Clock frequency in Hz.
    pub freq: usize,
}

/// Whether `exts` names extension `c`.
pub fn has_extension(exts: &Vec<char>, c: char) -> (r: bool)
    ensures
        r == exts@.contains(c),
{
    let mut i: usize = 0;
    while i < exts.len()
        invariant
            i <= exts.len(),
            forall|j: int| 0 <= j < i ==> exts@[j] != c,
        decreases exts.len() - i,
    {
        if exts[i] == c {
            return true;
        }
        i = i + 1;
    }
    false
}

} // verus!
