//! Loads, stores and atomic memory operations of a hart: alignment
//! checks, translation, reservations and the bus access.
use vstd::prelude::*;
use crate::global::RegT;
use crate::processor::bus::{byte_mask, first_touching, not_held_by, spec_read, spec_amo_u32, spec_amo_u64, AmoOp, Bus, Space};
use crate::processor::mmu::{spec_access_privilege, spec_translate, translate_frame, Mmu, MmuOpt};
use crate::processor::mmu::pte::supported_satp;
use crate::processor::privilege::PrivilegeStates;
use crate::processor::state::ProcessorState;
use crate::processor::trap::Exception;

verus! {

/// Whether an access of `n` bytes (a power of two) at `addr` is not
/// aligned to `n`.
pub open spec fn misaligned(addr: u64, n: u64) -> bool {
    addr & ((n - 1) as u64) != 0
}

/// Whether translating for an access of kind `opt` cannot meet an
/// unsupported `satp` mode.
pub open spec fn translatable(p: PrivilegeStates, opt: MmuOpt) -> bool {
    p.s is Some && spec_access_privilege(p, opt) != 3 ==> supported_satp(p.s->0.satp)
}

/// Whether `n` is an access size.
pub open spec fn access_size(n: u64) -> bool {
    n == 1 || n == 2 || n == 4 || n == 8
}

/// What a load of `n` bytes at `addr` returns, from the MMU `m0` and bus
/// `b0` before it and the bus `b1` after the translation: a misaligned
/// access faults, then the translation may fault, then the read gives the
/// value or an access fault.
pub open spec fn spec_load<S: Space>(
    m0: Mmu, b0: &Bus<S>, b1: &Bus<S>, s: ProcessorState, addr: u64, n: u64,
) -> Result<u64, Exception> {
    if misaligned(addr, n) {
        Err(Exception::LoadMisaligned(addr))
    } else {
        match spec_translate(m0.spec_tlb(MmuOpt::Load).entries@, &b0.space, s.privilege, s.config.enable_dirty, addr, n, MmuOpt::Load).0 {
            Err(e) => Err(e),
            Ok(pa) => match spec_read(&b1.space, pa, n as nat) {
                Some(v) => Ok(v),
                None => Err(Exception::LoadAccess(addr)),
            },
        }
    }
}

/// What an access (of kind `opt`) changes in the MMU and on the bus before
/// the data is moved: nothing when misaligned, else the translation's
/// changes.
pub open spec fn access_frame<S: Space>(
    m0: Mmu, m1: Mmu, b0: &Bus<S>, b1: &Bus<S>, s: ProcessorState, addr: u64, n: u64, opt: MmuOpt,
) -> bool {
    if misaligned(addr, n) {
        m1 == m0 && *b1 == *b0
    } else {
        translate_frame(m0, m1, b0, b1, s.privilege, s.config.enable_dirty, addr, n, opt)
    }
}

/// The translation result of an access.
pub open spec fn access_pa<S: Space>(m0: Mmu, b0: &Bus<S>, s: ProcessorState, addr: u64, n: u64, opt: MmuOpt)
    -> Result<u64, Exception> {
    spec_translate(m0.spec_tlb(opt).entries@, &b0.space, s.privilege, s.config.enable_dirty, addr, n, opt).0
}

/// The reservations after a store of `n` bytes at `addr` by hart `who`:
/// the first reservation touching them is dropped when another hart holds
/// it. (Ranges that wrap past the top of memory are not checked.)
pub open spec fn store_table(table: Seq<crate::processor::bus::LockEntry>, addr: u64, n: u64, who: usize)
    -> Seq<crate::processor::bus::LockEntry> {
    if addr as int + n as int > 0xffff_ffff_ffff_ffff {
        table
    } else {
        match first_touching(table, addr, n) {
            Some(i) => if table[i].holder != who { table.remove(i) } else { table },
            None => table,
        }
    }
}

/// Whether `b1` is `mid` after writing the low `n` bytes of `data` at
/// `pa`, with result `r` (an access fault for `addr` when the bytes do not
/// answer, and then nothing is written).
pub open spec fn written<S: Space>(mid: &S, b1: &S, pa: u64, n: u64, data: u64, addr: u64, r: Result<(), Exception>) -> bool {
    match spec_read(mid, pa, n as nat) {
        None => r == Err::<(), Exception>(Exception::StoreAccess(addr))
            && forall|x: u64| #[trigger] b1.spec_byte(x) == mid.spec_byte(x),
        Some(_) => r is Ok && spec_read(b1, pa, n as nat) == Some(data & byte_mask(n))
            && forall|x: u64| (x < pa || x as int >= pa as int + n) ==> #[trigger] b1.spec_byte(x) == mid.spec_byte(x),
    }
}

/// Loads `n` bytes at `addr` for the hart in state `s` (see `spec_load`).
pub fn load<S: Space>(s: &ProcessorState, mmu: &mut Mmu, bus: &mut Bus<S>, addr: RegT, n: u64) -> (r: Result<RegT, Exception>)
    requires
        s.wf(),
        old(mmu).wf(),
        access_size(n),
        translatable(s.privilege, MmuOpt::Load),
    ensures
        final(mmu).wf(),
        access_frame(*old(mmu), *final(mmu), old(bus), final(bus), *s, addr, n, MmuOpt::Load),
        r == spec_load(*old(mmu), old(bus), final(bus), *s, addr, n),
{
    if addr & (n - 1) != 0 {
        return Err(Exception::LoadMisaligned(addr));
    }
    let pa = mmu.translate(bus, &s.privilege, s.config.enable_dirty, addr, n, MmuOpt::Load)?;
    match bus.read(pa, n) {
        Ok(v) => Ok(v),
        Err(_) => Err(Exception::LoadAccess(addr)),
    }
}

/// Drops the first reservation touching the `n` bytes at `addr` when
/// another hart than `who` holds it.
fn invalidate_others<S: Space>(bus: &mut Bus<S>, addr: u64, n: u64, who: usize)
    requires
        old(bus).wf(),
        1 <= n <= 8,
    ensures
        final(bus).wf(),
        final(bus).space == old(bus).space,
        final(bus).lock_table@ == store_table(old(bus).lock_table@, addr, n, who),
{
    if addr > u64::MAX - n {
        return;
    }
    proof {
        crate::processor::bus::lemma_first_holder_touching(bus.lock_table@, addr, n);
    }
    if let Some(holder) = bus.lock_holder(addr, n) {
        if holder != who {
            bus.invalid_lock(addr, n, holder);
        }
    }
}

/// Stores the low `n` bytes of `data` at `addr` for the hart in state
/// `s`: a misaligned access faults; after the translation, a reservation
/// of another hart on the bytes (by virtual address) is dropped, then the
/// bytes are written (see `written`).
pub fn store<S: Space>(s: &ProcessorState, mmu: &mut Mmu, bus: &mut Bus<S>, addr: RegT, n: u64, data: RegT)
    -> (r: Result<(), Exception>)
    requires
        s.wf(),
        old(mmu).wf(),
        old(bus).wf(),
        access_size(n),
        translatable(s.privilege, MmuOpt::Store),
    ensures
        final(mmu).wf(),
        final(bus).wf(),
        misaligned(addr, n) ==> r == Err::<(), Exception>(Exception::StoreMisaligned(addr)) && *final(mmu) == *old(mmu)
            && *final(bus) == *old(bus),
        !misaligned(addr, n) ==> exists|mid: Bus<S>| #![trigger translate_frame(*old(mmu), *final(mmu), old(bus), &mid, s.privilege, s.config.enable_dirty, addr, n, MmuOpt::Store)] {
            &&& translate_frame(*old(mmu), *final(mmu), old(bus), &mid, s.privilege, s.config.enable_dirty, addr, n, MmuOpt::Store)
            &&& match access_pa(*old(mmu), old(bus), *s, addr, n, MmuOpt::Store) {
                Err(e) => r == Err::<(), Exception>(e) && *final(bus) == mid,
                Ok(pa) => {
                    &&& final(bus).lock_table@ == store_table(mid.lock_table@, addr, n, s.hartid)
                    &&& written(&mid.space, &final(bus).space, pa, n, data, addr, r)
                },
            }
        },
{
    if addr & (n - 1) != 0 {
        return Err(Exception::StoreMisaligned(addr));
    }
    let ghost b0 = *bus;
    let pa = mmu.translate(bus, &s.privilege, s.config.enable_dirty, addr, n, MmuOpt::Store);
    let ghost mid = *bus;
    let pa = match pa {
        Ok(pa) => pa,
        Err(e) => {
            assert(translate_frame(*old(mmu), *mmu, &b0, &mid, s.privilege, s.config.enable_dirty, addr, n, MmuOpt::Store));
            return Err(e);
        },
    };
    invalidate_others(bus, addr, n, s.hartid);
    let w = bus.write(pa, n, data);
    assert(translate_frame(*old(mmu), *mmu, &b0, &mid, s.privilege, s.config.enable_dirty, addr, n, MmuOpt::Store));
    match w {
        Ok(_) => Ok(()),
        Err(_) => Err(Exception::StoreAccess(addr)),
    }
}

/// Whether `(m1, b1, r)` is what `store` gives from `(m0, b0)` for the
/// hart in state `s` storing the low `n` bytes of `data` at `addr`.
pub open spec fn store_step<S: Space>(
    m0: Mmu, m1: Mmu, b0: &Bus<S>, b1: &Bus<S>, s: ProcessorState, addr: u64, n: u64, data: u64, r: Result<(), Exception>,
) -> bool {
    &&& m1.wf()
    &&& b1.wf()
    &&& misaligned(addr, n) ==> r == Err::<(), Exception>(Exception::StoreMisaligned(addr)) && m1 == m0 && *b1 == *b0
    &&& !misaligned(addr, n) ==> exists|mid: Bus<S>| #![trigger translate_frame(m0, m1, b0, &mid, s.privilege, s.config.enable_dirty, addr, n, MmuOpt::Store)] {
        &&& translate_frame(m0, m1, b0, &mid, s.privilege, s.config.enable_dirty, addr, n, MmuOpt::Store)
        &&& match access_pa(m0, b0, s, addr, n, MmuOpt::Store) {
            Err(e) => r == Err::<(), Exception>(e) && *b1 == mid,
            Ok(pa) => {
                &&& b1.lock_table@ == store_table(mid.lock_table@, addr, n, s.hartid)
                &&& written(&mid.space, &b1.space, pa, n, data, addr, r)
            },
        }
    }
}

/// The value an atomic operation on `n` bytes writes, from the value read.
pub open spec fn amo_written(op: AmoOp, n: u64, read: u64, src: u64) -> u64 {
    if n == 4 { spec_amo_u32(op, read as u32, src as u32) as u64 } else { spec_amo_u64(op, read, src) }
}

/// Whether `(m1, b1, r)` is what `amo` gives from `(m0, b0)`: like a store
/// of `n` bytes at `addr`, which reads the old value (returned) and writes
/// `amo_written` of it.
pub open spec fn amo_step<S: Space>(
    m0: Mmu, m1: Mmu, b0: &Bus<S>, b1: &Bus<S>, s: ProcessorState, addr: u64, n: u64, op: AmoOp, src: u64,
    r: Result<u64, Exception>,
) -> bool {
    &&& m1.wf()
    &&& b1.wf()
    &&& misaligned(addr, n) ==> r == Err::<u64, Exception>(Exception::StoreMisaligned(addr)) && m1 == m0 && *b1 == *b0
    &&& !misaligned(addr, n) ==> exists|mid: Bus<S>| #![trigger translate_frame(m0, m1, b0, &mid, s.privilege, s.config.enable_dirty, addr, n, MmuOpt::Store)] {
        &&& translate_frame(m0, m1, b0, &mid, s.privilege, s.config.enable_dirty, addr, n, MmuOpt::Store)
        &&& match access_pa(m0, b0, s, addr, n, MmuOpt::Store) {
            Err(e) => r == Err::<u64, Exception>(e) && *b1 == mid,
            Ok(pa) => {
                &&& b1.lock_table@ == store_table(mid.lock_table@, addr, n, s.hartid)
                &&& match spec_read(&mid.space, pa, n as nat) {
                    None => r == Err::<u64, Exception>(Exception::StoreAccess(addr))
                        && forall|x: u64| #[trigger] b1.space.spec_byte(x) == mid.space.spec_byte(x),
                    Some(v) => r == Ok::<u64, Exception>(v)
                        && spec_read(&b1.space, pa, n as nat) == Some(amo_written(op, n, v, src))
                        && forall|x: u64| (x < pa || x as int >= pa as int + n) ==> #[trigger] b1.space.spec_byte(x) == mid.space.spec_byte(x),
                }
            },
        }
    }
}

/// Atomically applies `op` with `src` to the `n` bytes (4 or 8) at
/// `addr`, returning the value read (see `amo_step`).
pub fn amo<S: Space>(s: &ProcessorState, mmu: &mut Mmu, bus: &mut Bus<S>, addr: RegT, n: u64, op: AmoOp, src: RegT)
    -> (r: Result<RegT, Exception>)
    requires
        s.wf(),
        old(mmu).wf(),
        old(bus).wf(),
        n == 4 || n == 8,
        translatable(s.privilege, MmuOpt::Store),
    ensures
        amo_step(*old(mmu), *final(mmu), old(bus), final(bus), *s, addr, n, op, src, r),
{
    if addr & (n - 1) != 0 {
        return Err(Exception::StoreMisaligned(addr));
    }
    let ghost b0 = *bus;
    let pa = mmu.translate(bus, &s.privilege, s.config.enable_dirty, addr, n, MmuOpt::Store);
    let ghost mid = *bus;
    let pa = match pa {
        Ok(pa) => pa,
        Err(e) => {
            assert(translate_frame(*old(mmu), *mmu, &b0, &mid, s.privilege, s.config.enable_dirty, addr, n, MmuOpt::Store));
            return Err(e);
        },
    };
    invalidate_others(bus, addr, n, s.hartid);
    assert(translate_frame(*old(mmu), *mmu, &b0, &mid, s.privilege, s.config.enable_dirty, addr, n, MmuOpt::Store));
    if n == 4 {
        match bus.amo_u32(pa, op, src as u32) {
            Ok(v) => {
                assert((v as u64) as u32 == v);
                Ok(v as u64)
            },
            Err(_) => Err(Exception::StoreAccess(addr)),
        }
    } else {
        match bus.amo_u64(pa, op, src) {
            Ok(v) => Ok(v),
            Err(_) => Err(Exception::StoreAccess(addr)),
        }
    }
}

/// Whether `(m1, b1, r)` is what `acquire` gives from `(m0, b0)` for the
/// hart in state `s` reserving `len` bytes at `addr`.
pub open spec fn acquire_step<S: Space>(
    m0: Mmu, m1: Mmu, b0: &Bus<S>, b1: &Bus<S>, s: ProcessorState, addr: u64, len: u64, r: Result<bool, Exception>,
) -> bool {
    &&& m1.wf()
    &&& b1.wf()
    &&& exists|mid: Bus<S>| #![trigger translate_frame(m0, m1, b0, &mid, s.privilege, s.config.enable_dirty, addr, len, MmuOpt::Load)] {
            &&& translate_frame(m0, m1, b0, &mid, s.privilege, s.config.enable_dirty, addr, len, MmuOpt::Load)
            &&& b1.space == mid.space
            &&& match access_pa(m0, b0, s, addr, len, MmuOpt::Load) {
                Err(e) => r == Err::<bool, Exception>(e) && b1.lock_table == mid.lock_table,
                Ok(pa) => if pa as int + len as int > 0xffff_ffff_ffff_ffff {
                    r == Ok::<bool, Exception>(false) && b1.lock_table == mid.lock_table
                } else if first_touching(mid.lock_table@, pa, len) is None {
                    r == Ok::<bool, Exception>(true) && b1.lock_table@
                        == mid.lock_table@.push(crate::processor::bus::LockEntry { addr: pa, len, holder: s.hartid })
                } else {
                    r == Ok::<bool, Exception>(false) && b1.lock_table@ == mid.lock_table@
                },
            }
        }
}

/// Reserves the `len` bytes at `addr` (translated for a load) for the
/// hart: `Ok(true)` when no reservation touched them. (A range that wraps
/// past the top of memory is not reserved.)
pub fn acquire<S: Space>(s: &ProcessorState, mmu: &mut Mmu, bus: &mut Bus<S>, addr: RegT, len: u64)
    -> (r: Result<bool, Exception>)
    requires
        s.wf(),
        old(mmu).wf(),
        old(bus).wf(),
        access_size(len),
        translatable(s.privilege, MmuOpt::Load),
        forall|i: int| 0 <= i < old(bus).lock_table@.len() ==> #[trigger] old(bus).lock_table@[i].holder != s.hartid,
    ensures
        acquire_step(*old(mmu), *final(mmu), old(bus), final(bus), *s, addr, len, r),
{
    let ghost b0 = *bus;
    let pa = mmu.translate(bus, &s.privilege, s.config.enable_dirty, addr, len, MmuOpt::Load);
    let ghost mid = *bus;
    assert(translate_frame(*old(mmu), *mmu, &b0, &mid, s.privilege, s.config.enable_dirty, addr, len, MmuOpt::Load));
    let pa = match pa {
        Ok(pa) => pa,
        Err(e) => {
            return Err(e);
        },
    };
    if pa > u64::MAX - len {
        return Ok(false);
    }
    assert(forall|i: int| 0 <= i < bus.lock_table@.len() ==> #[trigger] bus.lock_table@[i].holder != s.hartid);
    let ok = bus.acquire(pa, len, s.hartid);
    assert(final_state_of_acquire(&mid, bus, pa, len, s.hartid, ok));
    assert(access_pa(*old(mmu), old(bus), *s, addr, len, MmuOpt::Load) == Ok::<u64, Exception>(pa));
    assert(translate_frame(*old(mmu), *mmu, old(bus), &mid, s.privilege, s.config.enable_dirty, addr, len, MmuOpt::Load));
    Ok(ok)
}

/// Whether `b1` with answer `ok` is `mid` after reserving `len` bytes at
/// `pa` for `who`.
spec fn final_state_of_acquire<S: Space>(mid: &Bus<S>, b1: &Bus<S>, pa: u64, len: u64, who: usize, ok: bool) -> bool {
    &&& b1.space == mid.space
    &&& ok == (first_touching(mid.lock_table@, pa, len) is None)
    &&& ok ==> b1.lock_table@ == mid.lock_table@.push(crate::processor::bus::LockEntry { addr: pa, len, holder: who })
    &&& !ok ==> b1.lock_table@ == mid.lock_table@
}

/// Whether `(m1, b1, r)` is what `check_lock` gives from `(m0, b0)`.
pub open spec fn check_lock_step<S: Space>(
    m0: Mmu, m1: Mmu, b0: &Bus<S>, b1: &Bus<S>, s: ProcessorState, addr: u64, len: u64, r: Result<bool, Exception>,
) -> bool {
    &&& m1.wf()
    &&& b1.wf()
    &&& translate_frame(m0, m1, b0, b1, s.privilege, s.config.enable_dirty, addr, len, MmuOpt::Store)
    &&& match access_pa(m0, b0, s, addr, len, MmuOpt::Store) {
        Err(e) => r == Err::<bool, Exception>(e),
        Ok(pa) => r == Ok::<bool, Exception>(pa as int + len as int <= 0xffff_ffff_ffff_ffff
            && crate::processor::bus::first_holder(b1.lock_table@, pa, len) == Some(s.hartid)),
    }
}

/// Whether the hart still holds the first reservation touching the `len`
/// bytes at `addr` (translated for a store).
pub fn check_lock<S: Space>(s: &ProcessorState, mmu: &mut Mmu, bus: &mut Bus<S>, addr: RegT, len: u64)
    -> (r: Result<bool, Exception>)
    requires
        s.wf(),
        old(mmu).wf(),
        old(bus).wf(),
        access_size(len),
        translatable(s.privilege, MmuOpt::Store),
    ensures
        check_lock_step(*old(mmu), *final(mmu), old(bus), final(bus), *s, addr, len, r),
{
    let pa = mmu.translate(bus, &s.privilege, s.config.enable_dirty, addr, len, MmuOpt::Store)?;
    if pa > u64::MAX - len {
        return Ok(false);
    }
    match bus.lock_holder(pa, len) {
        Some(holder) => Ok(holder == s.hartid),
        None => Ok(false),
    }
}

/// Drops every reservation the hart holds.
pub fn release<S: Space>(s: &ProcessorState, bus: &mut Bus<S>)
    requires
        old(bus).wf(),
    ensures
        final(bus).wf(),
        final(bus).space == old(bus).space,
        final(bus).lock_table@ == old(bus).lock_table@.filter(not_held_by(s.hartid)),
{
    bus.release(s.hartid)
}

/// Loads a byte at `addr` (see `load`).
pub fn load_byte<S: Space>(s: &ProcessorState, mmu: &mut Mmu, bus: &mut Bus<S>, addr: RegT) -> (r: Result<RegT, Exception>)
    requires
        s.wf(),
        old(mmu).wf(),
        translatable(s.privilege, MmuOpt::Load),
    ensures
        final(mmu).wf(),
        access_frame(*old(mmu), *final(mmu), old(bus), final(bus), *s, addr, 1, MmuOpt::Load),
        r == spec_load(*old(mmu), old(bus), final(bus), *s, addr, 1),
{
    load(s, mmu, bus, addr, 1)
}

/// Loads a half word at `addr` (see `load`).
pub fn load_half_word<S: Space>(s: &ProcessorState, mmu: &mut Mmu, bus: &mut Bus<S>, addr: RegT) -> (r: Result<RegT, Exception>)
    requires
        s.wf(),
        old(mmu).wf(),
        translatable(s.privilege, MmuOpt::Load),
    ensures
        final(mmu).wf(),
        access_frame(*old(mmu), *final(mmu), old(bus), final(bus), *s, addr, 2, MmuOpt::Load),
        r == spec_load(*old(mmu), old(bus), final(bus), *s, addr, 2),
{
    load(s, mmu, bus, addr, 2)
}

/// Loads a word at `addr` (see `load`).
pub fn load_word<S: Space>(s: &ProcessorState, mmu: &mut Mmu, bus: &mut Bus<S>, addr: RegT) -> (r: Result<RegT, Exception>)
    requires
        s.wf(),
        old(mmu).wf(),
        translatable(s.privilege, MmuOpt::Load),
    ensures
        final(mmu).wf(),
        access_frame(*old(mmu), *final(mmu), old(bus), final(bus), *s, addr, 4, MmuOpt::Load),
        r == spec_load(*old(mmu), old(bus), final(bus), *s, addr, 4),
{
    load(s, mmu, bus, addr, 4)
}

/// Loads a double word at `addr` (see `load`).
pub fn load_double_word<S: Space>(s: &ProcessorState, mmu: &mut Mmu, bus: &mut Bus<S>, addr: RegT) -> (r: Result<RegT, Exception>)
    requires
        s.wf(),
        old(mmu).wf(),
        translatable(s.privilege, MmuOpt::Load),
    ensures
        final(mmu).wf(),
        access_frame(*old(mmu), *final(mmu), old(bus), final(bus), *s, addr, 8, MmuOpt::Load),
        r == spec_load(*old(mmu), old(bus), final(bus), *s, addr, 8),
{
    load(s, mmu, bus, addr, 8)
}

/// Stores the low byte of `data` at `addr` (see `store`).
pub fn store_byte<S: Space>(s: &ProcessorState, mmu: &mut Mmu, bus: &mut Bus<S>, addr: RegT, data: RegT)
    -> (r: Result<(), Exception>)
    requires
        s.wf(),
        old(mmu).wf(),
        old(bus).wf(),
        translatable(s.privilege, MmuOpt::Store),
    ensures
        store_step(*old(mmu), *final(mmu), old(bus), final(bus), *s, addr, 1, data, r),
{
    store(s, mmu, bus, addr, 1, data)
}

/// Stores the low half word of `data` at `addr` (see `store`).
pub fn store_half_word<S: Space>(s: &ProcessorState, mmu: &mut Mmu, bus: &mut Bus<S>, addr: RegT, data: RegT)
    -> (r: Result<(), Exception>)
    requires
        s.wf(),
        old(mmu).wf(),
        old(bus).wf(),
        translatable(s.privilege, MmuOpt::Store),
    ensures
        store_step(*old(mmu), *final(mmu), old(bus), final(bus), *s, addr, 2, data, r),
{
    store(s, mmu, bus, addr, 2, data)
}

/// Stores the low word of `data` at `addr` (see `store`).
pub fn store_word<S: Space>(s: &ProcessorState, mmu: &mut Mmu, bus: &mut Bus<S>, addr: RegT, data: RegT)
    -> (r: Result<(), Exception>)
    requires
        s.wf(),
        old(mmu).wf(),
        old(bus).wf(),
        translatable(s.privilege, MmuOpt::Store),
    ensures
        store_step(*old(mmu), *final(mmu), old(bus), final(bus), *s, addr, 4, data, r),
{
    store(s, mmu, bus, addr, 4, data)
}

/// Stores the low double word of `data` at `addr` (see `store`).
pub fn store_double_word<S: Space>(s: &ProcessorState, mmu: &mut Mmu, bus: &mut Bus<S>, addr: RegT, data: RegT)
    -> (r: Result<(), Exception>)
    requires
        s.wf(),
        old(mmu).wf(),
        old(bus).wf(),
        translatable(s.privilege, MmuOpt::Store),
    ensures
        store_step(*old(mmu), *final(mmu), old(bus), final(bus), *s, addr, 8, data, r),
{
    store(s, mmu, bus, addr, 8, data)
}

/// Atomically applies `op` with `src` to the word at `addr`, returning
/// the value read (see `amo`).
pub fn amo_word<S: Space>(s: &ProcessorState, mmu: &mut Mmu, bus: &mut Bus<S>, addr: RegT, op: AmoOp, src: RegT)
    -> (r: Result<RegT, Exception>)
    requires
        s.wf(),
        old(mmu).wf(),
        old(bus).wf(),
        translatable(s.privilege, MmuOpt::Store),
    ensures
        amo_step(*old(mmu), *final(mmu), old(bus), final(bus), *s, addr, 4, op, src, r),
{
    amo(s, mmu, bus, addr, 4, op, src)
}

/// Atomically applies `op` with `src` to the double word at `addr`, returning
/// the value read (see `amo`).
pub fn amo_double_word<S: Space>(s: &ProcessorState, mmu: &mut Mmu, bus: &mut Bus<S>, addr: RegT, op: AmoOp, src: RegT)
    -> (r: Result<RegT, Exception>)
    requires
        s.wf(),
        old(mmu).wf(),
        old(bus).wf(),
        translatable(s.privilege, MmuOpt::Store),
    ensures
        amo_step(*old(mmu), *final(mmu), old(bus), final(bus), *s, addr, 8, op, src, r),
{
    amo(s, mmu, bus, addr, 8, op, src)
}

} // verus!
