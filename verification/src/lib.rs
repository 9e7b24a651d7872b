//! A RISC-V hart model: privilege levels and their CSRs, traps, address
//! translation (Sv32/Sv39/Sv48 page tables, TLBs and PMP), bus reservations
//! and instruction semantics, each with its specification.
pub mod global;
pub mod bits;
pub mod processor;
