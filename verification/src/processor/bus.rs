//! The memory a hart reaches: an address space of readable and writable
//! locations, and the bus over it that also keeps the reservations of
//! load-reserved/store-conditional pairs.
use vstd::prelude::*;

verus! {

/// A physical address space. Each access either reaches a location of the
/// space or fails with the address it was made to.
pub trait Space {
    /// The byte at `addr`, or `None` when no location answers there.
    spec fn spec_byte(&self, addr: u64) -> Option<u8>;

    /// Reads the byte at `addr`.
    fn read_u8(&self, addr: u64) -> (r: Result<u8, u64>)
        ensures
            r == match self.spec_byte(addr) {
                Some(b) => Ok::<u8, u64>(b),
                None => Err::<u8, u64>(addr),
            },
    ;

    /// Writes the byte at `addr`; other locations are left alone.
    fn write_u8(&mut self, addr: u64, data: u8) -> (r: Result<(), u64>)
        ensures
            old(self).spec_byte(addr) is Some ==> r is Ok,
            old(self).spec_byte(addr) is None ==> r == Err::<(), u64>(addr),
            r is Ok ==> final(self).spec_byte(addr) == Some(data),
            forall|a: u64| a != addr ==> #[trigger] final(self).spec_byte(a) == old(self).spec_byte(a),
            r is Err ==> forall|a: u64| #[trigger] final(self).spec_byte(a) == old(self).spec_byte(a),
    ;
}

/// The little-endian value of the `n` bytes from `addr`, when all of them
/// answer.
pub open spec fn spec_read<S: Space>(s: &S, addr: u64, n: nat) -> Option<u64>
    decreases n,
{
    if n == 0 {
        Some(0)
    } else if addr as int + n > 0x1_0000_0000_0000_0000 {
        None
    } else {
        match (s.spec_byte(addr), spec_read(s, (addr + 1) as u64, (n - 1) as nat)) {
            (Some(b), Some(rest)) => Some(((b as u64) | (rest << 8)) as u64),
            _ => None,
        }
    }
}

/// A RAM region of `bytes.len()` bytes starting at `base`.
pub struct Ram {
    pub base: u64,
    pub bytes: Vec<u8>,
}

impl Ram {
    /// A zeroed RAM region of `size` bytes at `base`.
    pub fn new(base: u64, size: usize) -> (r: Ram)
        requires
            base as int + size <= 0x1_0000_0000_0000_0000,
        ensures
            r.base == base,
            r.bytes@.len() == size,
            forall|i: int| 0 <= i < size ==> r.bytes@[i] == 0,
    {
        let mut bytes: Vec<u8> = Vec::new();
        while bytes.len() < size
            invariant
                bytes@.len() <= size,
                forall|i: int| 0 <= i < bytes@.len() ==> bytes@[i] == 0,
            decreases size - bytes@.len(),
        {
            bytes.push(0);
        }
        Ram { base, bytes }
    }
}

impl Space for Ram {
    open spec fn spec_byte(&self, addr: u64) -> Option<u8> {
        if self.base <= addr && addr - self.base < self.bytes@.len() {
            Some(self.bytes@[addr - self.base])
        } else {
            None
        }
    }

    fn read_u8(&self, addr: u64) -> (r: Result<u8, u64>) {
        if self.base <= addr && addr - self.base < self.bytes.len() as u64 {
            Ok(self.bytes[(addr - self.base) as usize])
        } else {
            Err(addr)
        }
    }

    fn write_u8(&mut self, addr: u64, data: u8) -> (r: Result<(), u64>) {
        if self.base <= addr && addr - self.base < self.bytes.len() as u64 {
            let i = (addr - self.base) as usize;
            self.bytes.set(i, data);
            Ok(())
        } else {
            Err(addr)
        }
    }
}

/// The mask of the low `n` bytes of a 64-bit value.
pub open spec fn byte_mask(n: u64) -> u64 {
    if n >= 8 { 0xffff_ffff_ffff_ffffu64 } else { ((1u64 << (n * 8)) - 1) as u64 }
}

/// Reads the `n` bytes from `addr` as a little-endian value.
pub fn read_le<S: Space>(s: &S, addr: u64, n: u64) -> (r: Result<u64, u64>)
    requires
        n <= 8,
    ensures
        match spec_read(s, addr, n as nat) {
            Some(v) => r == Ok::<u64, u64>(v),
            None => r is Err,
        },
    decreases n,
{
    if n == 0 {
        return Ok(0);
    }
    if n - 1 > 0xffff_ffff_ffff_ffff - addr {
        return Err(addr);
    }
    let b = s.read_u8(addr)?;
    if n == 1 {
        proof {
            assert(spec_read(s, (addr + 1) as u64, 0) == Some(0u64));
            lemma_byte_masks(b as u64, 0, 0, 0);
        }
        return Ok(b as u64);
    }
    let rest = read_le(s, addr + 1, n - 1)?;
    Ok((b as u64) | (rest << 8))
}

/// Bytes: the low byte of `d` followed by the low `n - 1` bytes of `d >> 8`
/// are the low `n` bytes of `d`.
pub proof fn lemma_byte_split(d: u64, n: u64)
    by (bit_vector)
    requires
        1 <= n <= 8,
    ensures
        ((d as u8) as u64) | (((d >> 8) & byte_mask((n - 1) as u64)) << 8) == d & byte_mask(n),
{
}

/// Byte-mask facts of little-endian reads and writes.
proof fn lemma_byte_masks(x: u64, b: u64, rest: u64, k: u64)
    by (bit_vector)
    ensures
        x | (0u64 << 8) == x,
        ((x as u8) as u64) | (0u64 << 8) == x & byte_mask(1),
        byte_mask(0) == 0,
        byte_mask(4) == 0xffff_ffffu64,
        x <= 0xffff_ffff ==> x & byte_mask(4) == x,
        x & byte_mask(8) == x,
        rest <= byte_mask(k) && b <= 0xff && k < 8 ==> (b | (rest << 8)) <= byte_mask((k + 1) as u64),
{
}

/// Writes the low `n` bytes of `data` little-endian from `addr`, where every
/// one of them answers.
fn write_le_present<S: Space>(s: &mut S, addr: u64, n: u64, data: u64)
    requires
        1 <= n <= 8,
        spec_read(old(s), addr, n as nat) is Some,
    ensures
        spec_read(final(s), addr, n as nat) == Some(data & byte_mask(n)),
        forall|a: u64| (a < addr || a as int >= addr as int + n) ==> #[trigger] final(s).spec_byte(a) == old(s).spec_byte(a),
    decreases n,
{
    let _ = s.write_u8(addr, data as u8);
    proof {
        lemma_byte_split(data, n);
    }
    if n == 1 {
        proof {
            assert(spec_read(final(s), (addr + 1) as u64, 0) == Some(0u64));
            lemma_byte_masks(data, 0, 0, 0);
        }
        return;
    }
    let ghost mid = *s;
    proof {
        assert(spec_read(&mid, (addr + 1) as u64, (n - 1) as nat) == spec_read(old(s), (addr + 1) as u64, (n - 1) as nat)) by {
            lemma_read_frame(&mid, old(s), (addr + 1) as u64, (n - 1) as nat);
        }
    }
    write_le_present(s, addr + 1, n - 1, data >> 8);
}

/// Reads of `n` bytes from `addr` depend only on those bytes.
pub proof fn lemma_read_frame<S: Space>(s1: &S, s2: &S, addr: u64, n: nat)
    requires
        forall|a: u64| addr <= a && (a as int) < (addr as int) + n ==> #[trigger] s1.spec_byte(a) == s2.spec_byte(a),
    ensures
        spec_read(s1, addr, n) == spec_read(s2, addr, n),
    decreases n,
{
    if n > 0 && addr as int + n <= 0x1_0000_0000_0000_0000 {
        assert(s1.spec_byte(addr) == s2.spec_byte(addr));
        if n > 1 {
            lemma_read_frame(s1, s2, (addr + 1) as u64, (n - 1) as nat);
        } else {
            assert(spec_read(s1, (addr + 1) as u64, 0) == spec_read(s2, (addr + 1) as u64, 0));
        }
    }
}

/// Writes the low `n` bytes of `data` little-endian from `addr`. When one of
/// the bytes does not answer nothing is written.
pub fn write_le<S: Space>(s: &mut S, addr: u64, n: u64, data: u64) -> (r: Result<(), u64>)
    requires
        1 <= n <= 8,
    ensures
        r is Ok <==> spec_read(old(s), addr, n as nat) is Some,
        r is Ok ==> spec_read(final(s), addr, n as nat) == Some(data & byte_mask(n)),
        r is Ok ==> forall|a: u64| (a < addr || a as int >= addr as int + n) ==> #[trigger] final(s).spec_byte(a) == old(s).spec_byte(a),
        r is Err ==> forall|a: u64| #[trigger] final(s).spec_byte(a) == old(s).spec_byte(a),
{
    match read_le(s, addr, n) {
        Ok(_) => {
            write_le_present(s, addr, n, data);
            Ok(())
        },
        Err(e) => Err(e),
    }
}

/// A reservation of the bytes `addr .. addr + len` held by hart `holder`.
#[derive(Debug, Clone, Copy)]
pub struct LockEntry {
    pub addr: u64,
    pub len: u64,
    pub holder: usize,
}

impl LockEntry {
    /// Well-formedness: the reserved range is nonempty and fits in 64 bits.
    pub open spec fn wf(self) -> bool {
        self.len >= 1 && self.addr as int + self.len as int <= 0xffff_ffff_ffff_ffff
    }

    /// The test `lock_holder` makes: one of the two ranges has an end inside
    /// the other.
    pub open spec fn spec_touches(self, addr: u64, len: u64) -> bool {
        let (a, l, ea, el) = (addr as int, len as int, self.addr as int, self.len as int);
        (a >= ea && a < ea + el) || (a + l - 1 >= ea && a + l - 1 < ea + el)
            || (ea >= a && ea < a + l) || (ea + el - 1 >= a && ea + el - 1 < a + l)
    }

    /// The holder, when the bytes `addr .. addr + len` overlap the reserved
    /// range.
    pub fn lock_holder(&self, addr: u64, len: u64) -> (r: Option<usize>)
        requires
            self.wf(),
            len >= 1,
            addr as int + len as int <= 0xffff_ffff_ffff_ffff,
        ensures
            r == (if self.spec_touches(addr, len) { Some(self.holder) } else { None }),
    {
        if addr >= self.addr && addr < self.addr + self.len || addr + len - 1 >= self.addr && addr + len - 1
            < self.addr + self.len || self.addr >= addr && self.addr < addr + len || self.addr + self.len - 1
            >= addr && self.addr + self.len - 1 < addr + len {
            Some(self.holder)
        } else {
            None
        }
    }
}

/// A reservation's test is exactly range overlap: for nonempty ranges,
/// `lock_holder` answers when the two ranges share a byte.
pub proof fn lemma_touches_is_overlap(e: LockEntry, addr: u64, len: u64)
    requires
        e.wf(),
        len >= 1,
    ensures
        e.spec_touches(addr, len) <==> exists|x: int|
            #[trigger] in_range(x, addr as int, len as int) && in_range(x, e.addr as int, e.len as int),
{
    if e.spec_touches(addr, len) {
        let (a, l, ea, el) = (addr as int, len as int, e.addr as int, e.len as int);
        if a >= ea && a < ea + el {
            assert(in_range(a, a, l) && in_range(a, ea, el));
        } else if a + l - 1 >= ea && a + l - 1 < ea + el {
            assert(in_range(a + l - 1, a, l) && in_range(a + l - 1, ea, el));
        } else if ea >= a && ea < a + l {
            assert(in_range(ea, a, l) && in_range(ea, ea, el));
        } else {
            assert(in_range(ea + el - 1, a, l) && in_range(ea + el - 1, ea, el));
        }
    }
}

/// Whether `x` is one of `a .. a + l`.
pub open spec fn in_range(x: int, a: int, l: int) -> bool {
    a <= x < a + l
}

/// The holder of the first reservation in `table` that touches the bytes
/// `addr .. addr + len`.
pub open spec fn first_holder(table: Seq<LockEntry>, addr: u64, len: u64) -> Option<usize>
    decreases table.len(),
{
    if table.len() == 0 {
        None
    } else if table[0].spec_touches(addr, len) {
        Some(table[0].holder)
    } else {
        first_holder(table.drop_first(), addr, len)
    }
}

/// The index of the first reservation in `table` that touches the bytes
/// `addr .. addr + len`.
pub open spec fn first_touching(table: Seq<LockEntry>, addr: u64, len: u64) -> Option<int>
    decreases table.len(),
{
    if table.len() == 0 {
        None
    } else if table[0].spec_touches(addr, len) {
        Some(0)
    } else {
        match first_touching(table.drop_first(), addr, len) {
            Some(i) => Some(i + 1),
            None => None,
        }
    }
}

/// Whether a reservation is held by someone other than `who`.
pub open spec fn not_held_by(who: usize) -> spec_fn(LockEntry) -> bool {
    |e: LockEntry| e.holder != who
}

/// `o` with `k` added to its index.
pub open spec fn shifted(o: Option<int>, k: int) -> Option<int> {
    match o {
        Some(j) => Some(j + k),
        None => None,
    }
}

/// An atomic memory operation: how the value read is combined with the
/// source operand into the value written.
#[derive(Debug, Clone, Copy, PartialEq, Eq, Structural)]
pub enum AmoOp {
    Swap,
    Add,
    And,
    Or,
    Xor,
    Max,
    Min,
    MaxU,
    MinU,
}

/// The 32-bit value an atomic operation writes.
pub open spec fn spec_amo_u32(op: AmoOp, read: u32, src: u32) -> u32 {
    match op {
        AmoOp::Swap => src,
        AmoOp::Add => ((read as int + src as int) % 0x1_0000_0000) as u32,
        AmoOp::And => src & read,
        AmoOp::Or => src | read,
        AmoOp::Xor => src ^ read,
        AmoOp::Max => if (src as i32) >= (read as i32) { src } else { read },
        AmoOp::Min => if (src as i32) <= (read as i32) { src } else { read },
        AmoOp::MaxU => if src >= read { src } else { read },
        AmoOp::MinU => if src <= read { src } else { read },
    }
}

/// The 64-bit value an atomic operation writes.
pub open spec fn spec_amo_u64(op: AmoOp, read: u64, src: u64) -> u64 {
    match op {
        AmoOp::Swap => src,
        AmoOp::Add => ((read as int + src as int) % 0x1_0000_0000_0000_0000) as u64,
        AmoOp::And => src & read,
        AmoOp::Or => src | read,
        AmoOp::Xor => src ^ read,
        AmoOp::Max => if (src as i64) >= (read as i64) { src } else { read },
        AmoOp::Min => if (src as i64) <= (read as i64) { src } else { read },
        AmoOp::MaxU => if src >= read { src } else { read },
        AmoOp::MinU => if src <= read { src } else { read },
    }
}

/// The 32-bit value an atomic operation writes.
pub fn amo_u32_value(op: AmoOp, read: u32, src: u32) -> (r: u32)
    ensures
        r == spec_amo_u32(op, read, src),
{
    match op {
        AmoOp::Swap => src,
        AmoOp::Add => src.wrapping_add(read),
        AmoOp::And => src & read,
        AmoOp::Or => src | read,
        AmoOp::Xor => src ^ read,
        AmoOp::Max => if (src as i32) >= (read as i32) { src } else { read },
        AmoOp::Min => if (src as i32) <= (read as i32) { src } else { read },
        AmoOp::MaxU => if src >= read { src } else { read },
        AmoOp::MinU => if src <= read { src } else { read },
    }
}

/// The 64-bit value an atomic operation writes.
pub fn amo_u64_value(op: AmoOp, read: u64, src: u64) -> (r: u64)
    ensures
        r == spec_amo_u64(op, read, src),
{
    match op {
        AmoOp::Swap => src,
        AmoOp::Add => src.wrapping_add(read),
        AmoOp::And => src & read,
        AmoOp::Or => src | read,
        AmoOp::Xor => src ^ read,
        AmoOp::Max => if (src as i64) >= (read as i64) { src } else { read },
        AmoOp::Min => if (src as i64) <= (read as i64) { src } else { read },
        AmoOp::MaxU => if src >= read { src } else { read },
        AmoOp::MinU => if src <= read { src } else { read },
    }
}

/// The bus of a system: its address space and the reservations harts hold
/// on it.
pub struct Bus<S: Space> {
    pub space: S,
    pub lock_table: Vec<LockEntry>,
}

impl<S: Space> Bus<S> {
    /// Well-formedness: every reservation is well formed.
    pub open spec fn wf(&self) -> bool {
        forall|i: int| 0 <= i < self.lock_table@.len() ==> #[trigger] self.lock_table@[i].wf()
    }

    /// A bus over `space` with no reservations.
    pub fn new(space: S) -> (r: Bus<S>)
        ensures
            r.wf(),
            r.space == space,
            r.lock_table@.len() == 0,
    {
        Bus { space, lock_table: Vec::new() }
    }

    /// Reads the `n` bytes from `addr` as a little-endian value.
    pub fn read(&self, addr: u64, n: u64) -> (r: Result<u64, u64>)
        requires
            n <= 8,
        ensures
            match spec_read(&self.space, addr, n as nat) {
                Some(v) => r == Ok::<u64, u64>(v),
                None => r is Err,
            },
    {
        read_le(&self.space, addr, n)
    }

    /// Writes the low `n` bytes of `data` from `addr`; nothing is written
    /// when one of them does not answer.
    pub fn write(&mut self, addr: u64, n: u64, data: u64) -> (r: Result<(), u64>)
        requires
            1 <= n <= 8,
        ensures
            final(self).lock_table == old(self).lock_table,
            r is Ok <==> spec_read(&old(self).space, addr, n as nat) is Some,
            r is Ok ==> spec_read(&final(self).space, addr, n as nat) == Some(data & byte_mask(n)),
            r is Ok ==> forall|a: u64| (a < addr || a as int >= addr as int + n) ==>
                #[trigger] final(self).space.spec_byte(a) == old(self).space.spec_byte(a),
            r is Err ==> forall|a: u64| #[trigger] final(self).space.spec_byte(a) == old(self).space.spec_byte(a),
    {
        write_le(&mut self.space, addr, n, data)
    }

    /// Reserves the bytes `addr .. addr + len` for hart `who`: `false` (and
    /// no change) when a reservation already touches them.
    pub fn acquire(&mut self, addr: u64, len: u64, who: usize) -> (r: bool)
        requires
            old(self).wf(),
            len >= 1,
            addr as int + len as int <= 0xffff_ffff_ffff_ffff,
            forall|i: int| 0 <= i < old(self).lock_table@.len() && old(self).lock_table@[i].spec_touches(addr, len)
                ==> #[trigger] old(self).lock_table@[i].holder != who,
        ensures
            final(self).wf(),
            final(self).space == old(self).space,
            r == (first_touching(old(self).lock_table@, addr, len) is None),
            r ==> final(self).lock_table@ == old(self).lock_table@.push(LockEntry { addr, len, holder: who }),
            !r ==> final(self).lock_table@ == old(self).lock_table@,
    {
        let mut i: usize = 0;
        assert(self.lock_table@.subrange(0, self.lock_table@.len() as int) =~= self.lock_table@);
        while i < self.lock_table.len()
            invariant
                i <= self.lock_table@.len(),
                self.wf(),
                self.space == old(self).space,
                len >= 1,
                addr as int + len as int <= 0xffff_ffff_ffff_ffff,
                first_touching(self.lock_table@, addr, len) == shifted(first_touching(self.lock_table@.subrange(i as int, self.lock_table@.len() as int), addr, len), i as int),
            decreases self.lock_table@.len() - i,
        {
            let sub = Ghost(self.lock_table@.subrange(i as int, self.lock_table@.len() as int));
            assert(sub@[0] == self.lock_table@[i as int]);
            assert(sub@.drop_first() == self.lock_table@.subrange(i as int + 1, self.lock_table@.len() as int));
            if self.lock_table[i].lock_holder(addr, len).is_some() {
                return false;
            }
            i = i + 1;
        }
        proof {
            assert(self.lock_table@.subrange(i as int, self.lock_table@.len() as int).len() == 0);
        }
        self.lock_table.push(LockEntry { addr, len, holder: who });
        true
    }

    /// The holder of the first reservation touching `addr .. addr + len`.
    pub fn lock_holder(&self, addr: u64, len: u64) -> (r: Option<usize>)
        requires
            self.wf(),
            len >= 1,
            addr as int + len as int <= 0xffff_ffff_ffff_ffff,
        ensures
            r == first_holder(self.lock_table@, addr, len),
    {
        let mut i: usize = 0;
        assert(self.lock_table@.subrange(0, self.lock_table@.len() as int) =~= self.lock_table@);
        while i < self.lock_table.len()
            invariant
                i <= self.lock_table@.len(),
                self.wf(),
                len >= 1,
                addr as int + len as int <= 0xffff_ffff_ffff_ffff,
                first_holder(self.lock_table@, addr, len) == first_holder(self.lock_table@.subrange(i as int, self.lock_table@.len() as int), addr, len),
            decreases self.lock_table@.len() - i,
        {
            let sub = Ghost(self.lock_table@.subrange(i as int, self.lock_table@.len() as int));
            assert(sub@[0] == self.lock_table@[i as int]);
            assert(sub@.drop_first() == self.lock_table@.subrange(i as int + 1, self.lock_table@.len() as int));
            if let Some(h) = self.lock_table[i].lock_holder(addr, len) {
                return Some(h);
            }
            i = i + 1;
        }
        None
    }

    /// Drops the first reservation touching `addr .. addr + len`, which must
    /// be held by `who`.
    pub fn invalid_lock(&mut self, addr: u64, len: u64, who: usize)
        requires
            old(self).wf(),
            len >= 1,
            addr as int + len as int <= 0xffff_ffff_ffff_ffff,
            first_touching(old(self).lock_table@, addr, len) is Some,
            old(self).lock_table@[first_touching(old(self).lock_table@, addr, len)->0].holder == who,
        ensures
            final(self).wf(),
            final(self).space == old(self).space,
            final(self).lock_table@ == old(self).lock_table@.remove(first_touching(old(self).lock_table@, addr, len)->0),
    {
        let ghost k = first_touching(self.lock_table@, addr, len)->0;
        let mut i: usize = 0;
        assert(self.lock_table@.subrange(0, self.lock_table@.len() as int) =~= self.lock_table@);
        while i < self.lock_table.len()
            invariant
                i <= self.lock_table@.len(),
                self.lock_table@ == old(self).lock_table@,
                self.space == old(self).space,
                self.wf(),
                len >= 1,
                addr as int + len as int <= 0xffff_ffff_ffff_ffff,
                first_touching(self.lock_table@, addr, len) == shifted(first_touching(self.lock_table@.subrange(i as int, self.lock_table@.len() as int), addr, len), i as int),
                first_touching(self.lock_table@, addr, len) == Some(k),
            decreases self.lock_table@.len() - i,
        {
            let sub = Ghost(self.lock_table@.subrange(i as int, self.lock_table@.len() as int));
            assert(sub@[0] == self.lock_table@[i as int]);
            assert(sub@.drop_first() == self.lock_table@.subrange(i as int + 1, self.lock_table@.len() as int));
            if self.lock_table[i].lock_holder(addr, len).is_some() {
                self.lock_table.remove(i);
                return;
            }
            i = i + 1;
        }
        proof {
            assert(self.lock_table@.subrange(i as int, self.lock_table@.len() as int).len() == 0);
        }
    }

    /// Drops every reservation held by `who`.
    pub fn release(&mut self, who: usize)
        requires
            old(self).wf(),
        ensures
            final(self).wf(),
            final(self).space == old(self).space,
            final(self).lock_table@ == old(self).lock_table@.filter(not_held_by(who)),
    {
        let mut kept: Vec<LockEntry> = Vec::new();
        let mut i: usize = 0;
        while i < self.lock_table.len()
            invariant
                i <= self.lock_table@.len(),
                self.wf(),
                kept@ == self.lock_table@.subrange(0, i as int).filter(not_held_by(who)),
                forall|j: int| 0 <= j < kept@.len() ==> #[trigger] kept@[j].wf(),
            decreases self.lock_table@.len() - i,
        {
            let e = self.lock_table[i];
            let ghost before = kept@;
            proof {
                let s1 = self.lock_table@.subrange(0, i as int + 1);
                assert(s1.drop_last() == self.lock_table@.subrange(0, i as int));
                assert(s1.last() == e);
                reveal(Seq::filter);
                assert(s1.filter(not_held_by(who)) == if not_held_by(who)(e) { before.push(e) } else { before });
                assert(not_held_by(who)(e) == (e.holder != who));
            }
            if e.holder != who {
                kept.push(e);
            }
            assert(kept@ == self.lock_table@.subrange(0, i as int + 1).filter(not_held_by(who)));
            i = i + 1;
        }
        proof {
            assert(self.lock_table@.subrange(0, self.lock_table@.len() as int) == self.lock_table@);
        }
        self.lock_table = kept;
    }

    /// Atomically reads the 4 bytes at `addr`, writes the result of `op` on
    /// them and `src`, and returns the value read.
    pub fn amo_u32(&mut self, addr: u64, op: AmoOp, src: u32) -> (r: Result<u32, u64>)
        ensures
            final(self).lock_table == old(self).lock_table,
            r is Ok <==> spec_read(&old(self).space, addr, 4) is Some,
            r is Ok ==> r->Ok_0 as u64 == spec_read(&old(self).space, addr, 4)->0,
            r is Ok ==> spec_read(&final(self).space, addr, 4) == Some(spec_amo_u32(op, r->Ok_0, src) as u64),
            r is Ok ==> forall|a: u64| (a < addr || a as int >= addr as int + 4) ==>
                #[trigger] final(self).space.spec_byte(a) == old(self).space.spec_byte(a),
            r is Err ==> forall|a: u64| #[trigger] final(self).space.spec_byte(a) == old(self).space.spec_byte(a),
    {
        let read = self.read(addr, 4)?;
        proof {
            lemma_read_bound(&self.space, addr, 4);
            lemma_byte_masks(0, 0, 0, 0);
        }
        let v = amo_u32_value(op, read as u32, src);
        let _ = self.write(addr, 4, v as u64);
        proof {
            lemma_byte_masks(v as u64, 0, 0, 0);
        }
        Ok(read as u32)
    }

    /// Atomically reads the 8 bytes at `addr`, writes the result of `op` on
    /// them and `src`, and returns the value read.
    pub fn amo_u64(&mut self, addr: u64, op: AmoOp, src: u64) -> (r: Result<u64, u64>)
        ensures
            final(self).lock_table == old(self).lock_table,
            r is Ok <==> spec_read(&old(self).space, addr, 8) is Some,
            r is Ok ==> r->Ok_0 == spec_read(&old(self).space, addr, 8)->0,
            r is Ok ==> spec_read(&final(self).space, addr, 8) == Some(spec_amo_u64(op, r->Ok_0, src)),
            r is Ok ==> forall|a: u64| (a < addr || a as int >= addr as int + 8) ==>
                #[trigger] final(self).space.spec_byte(a) == old(self).space.spec_byte(a),
            r is Err ==> forall|a: u64| #[trigger] final(self).space.spec_byte(a) == old(self).space.spec_byte(a),
    {
        let read = self.read(addr, 8)?;
        let v = amo_u64_value(op, read, src);
        let _ = self.write(addr, 8, v);
        proof {
            lemma_byte_masks(v, 0, 0, 0);
        }
        Ok(read)
    }
}

/// A read of `n` bytes is below `2^(8n)`.
pub proof fn lemma_read_bound<S: Space>(s: &S, addr: u64, n: nat)
    requires
        n <= 8,
        spec_read(s, addr, n) is Some,
    ensures
        spec_read(s, addr, n)->0 <= byte_mask(n as u64),
    decreases n,
{
    if n == 0 {
        lemma_byte_masks(0, 0, 0, 0);
    } else {
        lemma_read_bound(s, (addr + 1) as u64, (n - 1) as nat);
        let b = s.spec_byte(addr)->0 as u64;
        let rest = spec_read(s, (addr + 1) as u64, (n - 1) as nat)->0;
        let k = (n - 1) as u64;
        lemma_byte_masks(0, b, rest, k);
    }
}

/// What a lookup gives back of a reservation: once `acquire` has reserved
/// `addr .. addr + len` for `who` (no reservation touched it before),
/// `lock_holder` on that range answers `who`.
pub proof fn lemma_lock_holder_after_acquire(table: Seq<LockEntry>, addr: u64, len: u64, who: usize)
    requires
        len >= 1,
        first_touching(table, addr, len) is None,
    ensures
        first_holder(table.push(LockEntry { addr, len, holder: who }), addr, len) == Some(who),
    decreases table.len(),
{
    let e = LockEntry { addr, len, holder: who };
    if table.len() == 0 {
        assert(table.push(e)[0] == e);
    } else {
        assert(table.push(e)[0] == table[0]);
        assert(table.push(e).drop_first() == table.drop_first().push(e));
        lemma_lock_holder_after_acquire(table.drop_first(), addr, len, who);
    }
}

/// After `release(who)` no reservation is held by `who`, and every other
/// reservation is kept.
pub proof fn lemma_release(table: Seq<LockEntry>, who: usize)
    ensures
        forall|i: int| 0 <= i < table.filter(not_held_by(who)).len() ==> #[trigger] table.filter(not_held_by(who))[i].holder != who,
        forall|i: int| 0 <= i < table.len() && table[i].holder != who ==> table.filter(not_held_by(who)).contains(#[trigger] table[i]),
{
    assert forall|i: int| 0 <= i < table.filter(not_held_by(who)).len() implies #[trigger] table.filter(not_held_by(who))[i].holder != who by {
        table.lemma_filter_pred(not_held_by(who), i);
    }
    assert forall|i: int| 0 <= i < table.len() && table[i].holder != who implies table.filter(not_held_by(who)).contains(#[trigger] table[i]) by {
        table.lemma_filter_contains(not_held_by(who), i);
    }
}

/// The holder `lock_holder` reports is the holder of the first reservation
/// touching the range.
pub proof fn lemma_first_holder_touching(table: Seq<LockEntry>, addr: u64, len: u64)
    ensures
        match first_holder(table, addr, len) {
            Some(h) => first_touching(table, addr, len) matches Some(i) && 0 <= i < table.len() && table[i].holder == h,
            None => first_touching(table, addr, len) is None,
        },
    decreases table.len(),
{
    if table.len() > 0 && !table[0].spec_touches(addr, len) {
        lemma_first_holder_touching(table.drop_first(), addr, len);
    }
}

/// The bitwise operations do not depend on the order of their operands.
proof fn lemma_bitwise_commute(a: u32, b: u32, c: u64, d: u64)
    by (bit_vector)
    ensures
        a & b == b & a && a | b == b | a && a ^ b == b ^ a,
        c & d == d & c && c | d == d | c && c ^ d == d ^ c,
{
}

/// What a 32-bit atomic memory operation writes, from the word read and
/// the source operand: the source (swap); their sum modulo 2^32 (add);
/// their bitwise and, or, exclusive or; the larger or the smaller of the
/// two as signed numbers (max, min) or as unsigned ones (maxu, minu).
pub proof fn lemma_amo_u32_values(read: u32, src: u32)
    ensures
        spec_amo_u32(AmoOp::Swap, read, src) == src,
        spec_amo_u32(AmoOp::Add, read, src) as int == (read as int + src as int) % 0x1_0000_0000,
        spec_amo_u32(AmoOp::And, read, src) == read & src,
        spec_amo_u32(AmoOp::Or, read, src) == read | src,
        spec_amo_u32(AmoOp::Xor, read, src) == read ^ src,
        ({
            let r = spec_amo_u32(AmoOp::Max, read, src);
            (r == read || r == src) && r as i32 >= read as i32 && r as i32 >= src as i32
        }),
        ({
            let r = spec_amo_u32(AmoOp::Min, read, src);
            (r == read || r == src) && r as i32 <= read as i32 && r as i32 <= src as i32
        }),
        ({
            let r = spec_amo_u32(AmoOp::MaxU, read, src);
            (r == read || r == src) && r >= read && r >= src
        }),
        ({
            let r = spec_amo_u32(AmoOp::MinU, read, src);
            (r == read || r == src) && r <= read && r <= src
        }),
{
    lemma_bitwise_commute(read, src, 0, 0);
}

/// What a 64-bit atomic memory operation writes, from the double word read
/// and the source operand (see `lemma_amo_u32_values`), the sum modulo
/// 2^64.
pub proof fn lemma_amo_u64_values(read: u64, src: u64)
    ensures
        spec_amo_u64(AmoOp::Swap, read, src) == src,
        spec_amo_u64(AmoOp::Add, read, src) as int == (read as int + src as int) % 0x1_0000_0000_0000_0000,
        spec_amo_u64(AmoOp::And, read, src) == read & src,
        spec_amo_u64(AmoOp::Or, read, src) == read | src,
        spec_amo_u64(AmoOp::Xor, read, src) == read ^ src,
        ({
            let r = spec_amo_u64(AmoOp::Max, read, src);
            (r == read || r == src) && r as i64 >= read as i64 && r as i64 >= src as i64
        }),
        ({
            let r = spec_amo_u64(AmoOp::Min, read, src);
            (r == read || r == src) && r as i64 <= read as i64 && r as i64 <= src as i64
        }),
        ({
            let r = spec_amo_u64(AmoOp::MaxU, read, src);
            (r == read || r == src) && r >= read && r >= src
        }),
        ({
            let r = spec_amo_u64(AmoOp::MinU, read, src);
            (r == read || r == src) && r <= read && r <= src
        }),
{
    lemma_bitwise_commute(0, 0, read, src);
}

} // verus!
