//! Traps: synchronous exceptions and asynchronous interrupts, with the cause
//! code and trap value each one reports.
use vstd::prelude::*;
use crate::global::{InsnT, RegT};

verus! {

/// A trap taken by a hart.
#[derive(Debug, Clone, Copy, PartialEq, Eq, Structural)]
pub enum Trap {
    Exception(Exception),
    Interrupt(Interrupt),
}

/// A synchronous exception, with the address or instruction it reports.
#[derive(Debug, Clone, Copy, PartialEq, Eq, Structural)]
pub enum Exception {
    FetchMisaligned(u64),
    LoadMisaligned(u64),
    StoreMisaligned(u64),
    IllegalInsn(InsnT),
    FetchAccess(u64),
    LoadAccess(u64),
    StoreAccess(u64),
    FetchPageFault(u64),
    LoadPageFault(u64),
    StorePageFault(u64),
    Breakpoint,
    UCall,
    SCall,
    MCall,
}

/// An asynchronous interrupt.
#[derive(Debug, Clone, Copy, PartialEq, Eq, Structural)]
pub enum Interrupt {
    USInt,
    SSInt,
    MSInt,
    UTInt,
    STInt,
    MTInt,
    UEInt,
    SEInt,
    MEInt,
}

impl Exception {
    /// The exception code written to `xcause`.
    pub open spec fn spec_code(self) -> RegT {
        match self {
            Exception::FetchMisaligned(_) => 0,
            Exception::FetchAccess(_) => 1,
            Exception::IllegalInsn(_) => 2,
            Exception::Breakpoint => 3,
            Exception::LoadMisaligned(_) => 4,
            Exception::LoadAccess(_) => 5,
            Exception::StoreMisaligned(_) => 6,
            Exception::StoreAccess(_) => 7,
            Exception::UCall => 8,
            Exception::SCall => 9,
            Exception::MCall => 11,
            Exception::FetchPageFault(_) => 12,
            Exception::LoadPageFault(_) => 13,
            Exception::StorePageFault(_) => 15,
        }
    }

    /// The trap value written to `xtval`: the faulting address, the illegal
    /// instruction, or 0.
    pub open spec fn spec_tval(self) -> RegT {
        match self {
            Exception::FetchMisaligned(a) => a,
            Exception::FetchAccess(a) => a,
            Exception::IllegalInsn(i) => i as RegT,
            Exception::Breakpoint => 0,
            Exception::LoadMisaligned(a) => a,
            Exception::LoadAccess(a) => a,
            Exception::StoreMisaligned(a) => a,
            Exception::StoreAccess(a) => a,
            Exception::UCall => 0,
            Exception::SCall => 0,
            Exception::MCall => 0,
            Exception::FetchPageFault(a) => a,
            Exception::LoadPageFault(a) => a,
            Exception::StorePageFault(a) => a,
        }
    }

    /// Whether the instruction that raised the exception counts as retired
    /// (breakpoints and environment calls do).
    pub open spec fn spec_executed(self) -> bool {
        match self {
            Exception::Breakpoint | Exception::UCall | Exception::SCall | Exception::MCall => true,
            _ => false,
        }
    }

    /// The exception code written to `xcause`.
    pub fn code(&self) -> (r: RegT)
        ensures
            r == self.spec_code(),
    {
        match self {
            Exception::FetchMisaligned(_) => 0,
            Exception::FetchAccess(_) => 1,
            Exception::IllegalInsn(_) => 2,
            Exception::Breakpoint => 3,
            Exception::LoadMisaligned(_) => 4,
            Exception::LoadAccess(_) => 5,
            Exception::StoreMisaligned(_) => 6,
            Exception::StoreAccess(_) => 7,
            Exception::UCall => 8,
            Exception::SCall => 9,
            Exception::MCall => 11,
            Exception::FetchPageFault(_) => 12,
            Exception::LoadPageFault(_) => 13,
            Exception::StorePageFault(_) => 15,
        }
    }

    /// The trap value written to `xtval`.
    pub fn tval(&self) -> (r: RegT)
        ensures
            r == self.spec_tval(),
    {
        match self {
            Exception::FetchMisaligned(a) => *a,
            Exception::FetchAccess(a) => *a,
            Exception::IllegalInsn(i) => *i as RegT,
            Exception::Breakpoint => 0,
            Exception::LoadMisaligned(a) => *a,
            Exception::LoadAccess(a) => *a,
            Exception::StoreMisaligned(a) => *a,
            Exception::StoreAccess(a) => *a,
            Exception::UCall => 0,
            Exception::SCall => 0,
            Exception::MCall => 0,
            Exception::FetchPageFault(a) => *a,
            Exception::LoadPageFault(a) => *a,
            Exception::StorePageFault(a) => *a,
        }
    }

    /// Whether the raising instruction counts as retired.
    pub fn executed(&self) -> (r: bool)
        ensures
            r == self.spec_executed(),
    {
        match self {
            Exception::Breakpoint => true,
            Exception::UCall => true,
            Exception::SCall => true,
            Exception::MCall => true,
            _ => false,
        }
    }
}

impl Interrupt {
    /// The interrupt code written to `xcause` (the bit of the interrupt in
    /// `mip`/`mie`).
    pub open spec fn spec_code(self) -> RegT {
        match self {
            Interrupt::USInt => 0,
            Interrupt::SSInt => 1,
            Interrupt::MSInt => 3,
            Interrupt::UTInt => 4,
            Interrupt::STInt => 5,
            Interrupt::MTInt => 7,
            Interrupt::UEInt => 8,
            Interrupt::SEInt => 9,
            Interrupt::MEInt => 11,
        }
    }

    /// The interrupt code written to `xcause`.
    pub fn code(&self) -> (r: RegT)
        ensures
            r == self.spec_code(),
    {
        match self {
            Interrupt::USInt => 0,
            Interrupt::SSInt => 1,
            Interrupt::MSInt => 3,
            Interrupt::UTInt => 4,
            Interrupt::STInt => 5,
            Interrupt::MTInt => 7,
            Interrupt::UEInt => 8,
            Interrupt::SEInt => 9,
            Interrupt::MEInt => 11,
        }
    }

    /// Interrupts report no trap value.
    pub fn tval(&self) -> (r: RegT)
        ensures
            r == 0,
    {
        0
    }
}

impl Trap {
    /// Whether the trap is an interrupt, its cause code and its trap value.
    pub open spec fn spec_cause(self) -> (bool, RegT, RegT) {
        match self {
            Trap::Exception(e) => (false, e.spec_code(), e.spec_tval()),
            Trap::Interrupt(i) => (true, i.spec_code(), 0),
        }
    }

    /// Whether the trap is an interrupt, its cause code and its trap value.
    pub fn cause(&self) -> (r: (bool, RegT, RegT))
        ensures
            r == self.spec_cause(),
    {
        match self {
            Trap::Exception(e) => (false, e.code(), e.tval()),
            Trap::Interrupt(i) => (true, i.code(), i.tval()),
        }
    }
}

} // verus!
