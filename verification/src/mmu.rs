//! Flat byte-addressable memory with a permission byte per address.
//!
//! Every access, of any width, passes a bounds check and a per-byte
//! permission check before any data is touched; a refused access is reported
//! as a [`MemFault`] and leaves the memory unchanged.

use vstd::prelude::*;

verus! {

/// Permission bit that allows reading a byte.
pub const PERM_READ: u8 = 0b001;

/// Permission bit that allows writing a byte.
pub const PERM_WRITE: u8 = 0b010;

/// Permission bit that allows fetching a byte for execution.
pub const PERM_EXECUTE: u8 = 0b100;

/// The access rights of one byte of memory: a mask of the `PERM_*` bits.
#[derive(Clone, Copy, Debug)]
pub struct Permission(u8);

/// Whether permission `p` grants every bit of `mask`.
pub open spec fn grants(p: Permission, mask: u8) -> bool {
    p.mask() & mask == mask
}

impl Permission {
    /// The mask of permission bits this value grants.
    pub closed spec fn mask(self) -> u8 {
        self.0
    }

    /// Builds a permission value granting exactly the bits of `mask`.
    pub fn new(mask: u8) -> (p: Permission)
        ensures
            p.mask() == mask,
    {
        Permission(mask)
    }

    /// True when this permission grants every bit of `mask`.
    pub fn check(&self, mask: u8) -> (r: bool)
        ensures
            r == grants(*self, mask),
    {
        (self.0 & mask) == mask
    }
}

/// Why a memory access was refused.
#[derive(Clone, Copy, Debug, PartialEq, Eq, Structural)]
pub enum MemFault {
    /// Some byte of the access lies at or past the capacity.
    OutOfBounds,
    /// Some byte of the access lacks a required permission bit.
    PermissionDenied,
}

/// Every byte of the `width`-byte span starting at `addr` lies below `len`.
pub open spec fn span_in_bounds(addr: u64, width: nat, len: nat) -> bool {
    addr + width <= len
}

/// Every byte of the `width`-byte span starting at `addr` grants `mask`.
pub open spec fn span_grants(perms: Seq<Permission>, addr: u64, width: nat, mask: u8) -> bool {
    forall|k: int| addr <= k < addr + width ==> grants(#[trigger] perms[k], mask)
}

/// The value of the `width` bytes starting at `addr`, read little-endian.
pub open spec fn le_value(bytes: Seq<u8>, addr: int, width: nat) -> int
    decreases width,
{
    if width == 0 {
        0
    } else {
        bytes[addr] + 256 * le_value(bytes, addr + 1, (width - 1) as nat)
    }
}

/// The byte sequence after storing the low `width` bytes of `val` at `addr`,
/// little-endian.
pub open spec fn le_store(bytes: Seq<u8>, addr: int, width: nat, val: int) -> Seq<u8>
    decreases width,
{
    if width == 0 {
        bytes
    } else {
        le_store(bytes.update(addr, (val % 256) as u8), addr + 1, (width - 1) as nat, val / 256)
    }
}

/// Storing `width` bytes leaves the length of the sequence unchanged.
pub proof fn lemma_le_store_len(bytes: Seq<u8>, addr: int, width: nat, val: int)
    requires
        0 <= addr,
        addr + width <= bytes.len(),
    ensures
        le_store(bytes, addr, width, val).len() == bytes.len(),
    decreases width,
{
    if width > 0 {
        lemma_le_store_len(bytes.update(addr, (val % 256) as u8), addr + 1, (width - 1) as nat, val / 256);
    }
}

/// Storing `width` bytes leaves every byte outside the span unchanged.
pub proof fn lemma_le_store_outside(bytes: Seq<u8>, addr: int, width: nat, val: int)
    requires
        0 <= addr,
        addr + width <= bytes.len(),
    ensures
        forall|k: int|
            0 <= k < bytes.len() && !(addr <= k < addr + width) ==> le_store(
                bytes,
                addr,
                width,
                val,
            )[k] == bytes[k],
    decreases width,
{
    if width > 0 {
        let b1 = bytes.update(addr, (val % 256) as u8);
        let w1 = (width - 1) as nat;
        lemma_le_store_outside(b1, addr + 1, w1, val / 256);
        assert(le_store(bytes, addr, width, val) == le_store(b1, addr + 1, w1, val / 256));
        assert forall|k: int|
            0 <= k < bytes.len() && !(addr <= k < addr + width) implies le_store(
            bytes,
            addr,
            width,
            val,
        )[k] == bytes[k] by {
            assert(le_store(b1, addr + 1, w1, val / 256)[k] == b1[k]);
        }
    }
}

/// Round trip: reading back a span that was just stored yields the stored
/// value, for any value that fits in the span's width.
pub proof fn lemma_le_store_then_value(bytes: Seq<u8>, addr: int, width: nat, val: int)
    requires
        0 <= addr,
        addr + width <= bytes.len(),
        0 <= val < vstd::arithmetic::power2::pow2(8 * width),
    ensures
        le_value(le_store(bytes, addr, width, val), addr, width) == val,
    decreases width,
{
    if width == 0 {
        assert(vstd::arithmetic::power2::pow2(0) == 1) by {
            vstd::arithmetic::power2::lemma2_to64();
        }
    } else {
        let w1 = (width - 1) as nat;
        let b1 = bytes.update(addr, (val % 256) as u8);
        let s = le_store(b1, addr + 1, w1, val / 256);
        vstd::arithmetic::power2::lemma_pow2_adds(8 * w1, 8);
        assert(vstd::arithmetic::power2::pow2(8) == 256) by {
            vstd::arithmetic::power2::lemma2_to64();
        }
        vstd::arithmetic::div_mod::lemma_div_pos_is_pos(val, 256);
        assert(val / 256 < vstd::arithmetic::power2::pow2(8 * w1)) by {
            vstd::arithmetic::div_mod::lemma_multiply_divide_lt(
                val,
                256,
                vstd::arithmetic::power2::pow2(8 * w1) as int,
            );
        }
        lemma_le_store_then_value(b1, addr + 1, w1, val / 256);
        lemma_le_store_len(b1, addr + 1, w1, val / 256);
        lemma_le_store_outside(b1, addr + 1, w1, val / 256);
        assert(le_store(b1, addr + 1, w1, val / 256)[addr] == b1[addr]);
        assert(s[addr] == (val % 256) as u8);
        assert(le_value(s, addr, width) == s[addr] + 256 * le_value(s, addr + 1, w1));
        vstd::arithmetic::div_mod::lemma_fundamental_div_mod(val, 256);
    }
}

/// A byte whose permission grants only EXECUTE grants neither READ nor
/// WRITE, so both loads and stores at it are refused.
pub proof fn lemma_execute_only_denies(perms: Seq<Permission>, addr: u64)
    requires
        addr < perms.len(),
        perms[addr as int].mask() == PERM_EXECUTE,
    ensures
        !span_grants(perms, addr, 1, PERM_READ),
        !span_grants(perms, addr, 1, PERM_WRITE),
{
    assert(4u8 & 1u8 != 1u8 && 4u8 & 2u8 != 2u8) by (bit_vector);
    assert(!grants(perms[addr as int], PERM_READ));
    assert(!grants(perms[addr as int], PERM_WRITE));
}

/// A span whose last byte is the last byte below the capacity is in bounds;
/// a span whose last byte reaches the capacity itself is not.
pub proof fn lemma_span_bounds_edge(addr: u64, width: nat, len: nat)
    requires
        width >= 1,
    ensures
        addr + width - 1 == len - 1 ==> span_in_bounds(addr, width, len),
        addr + width - 1 == len ==> !span_in_bounds(addr, width, len),
{
}

/// A flat byte store of fixed capacity, paired with one permission byte per
/// address.
#[derive(Debug)]
pub struct Memory {
    data: Vec<u8>,
    perms: Vec<Permission>,
}

impl Memory {
    /// The stored bytes.
    pub closed spec fn bytes(self) -> Seq<u8> {
        self.data@
    }

    /// The permission of each byte.
    pub closed spec fn permissions(self) -> Seq<Permission> {
        self.perms@
    }

    /// The number of addressable bytes.
    pub open spec fn capacity(self) -> nat {
        self.bytes().len()
    }

    /// One permission entry per data byte.
    pub open spec fn wf(self) -> bool {
        self.permissions().len() == self.bytes().len()
    }

    /// Builds a memory of `size` zero bytes, every byte carrying permission
    /// `p`.
    pub fn with_permission(size: usize, p: Permission) -> (m: Memory)
        ensures
            m.wf(),
            m.capacity() == size,
            forall|k: int| 0 <= k < size ==> m.bytes()[k] == 0,
            forall|k: int| 0 <= k < size ==> m.permissions()[k] == p,
    {
        let mut data: Vec<u8> = Vec::new();
        let mut perms: Vec<Permission> = Vec::new();
        let mut i: usize = 0;
        while i < size
            invariant
                i <= size,
                data@.len() == i,
                perms@.len() == i,
                forall|k: int| 0 <= k < i ==> data@[k] == 0,
                forall|k: int| 0 <= k < i ==> perms@[k] == p,
            decreases size - i,
        {
            data.push(0);
            perms.push(p);
            i = i + 1;
        }
        Memory { data, perms }
    }

    /// Builds a memory of `size` zero bytes, every byte readable and
    /// writable.
    pub fn new(size: usize) -> (m: Memory)
        ensures
            m.wf(),
            m.capacity() == size,
            forall|k: int| 0 <= k < size ==> m.bytes()[k] == 0,
            forall|k: int| 0 <= k < size ==> m.permissions()[k].mask() == (PERM_READ | PERM_WRITE),
    {
        Memory::with_permission(size, Permission::new(PERM_READ | PERM_WRITE))
    }

    /// Reads the byte at `addr`.
    pub fn read8(&self, addr: u64) -> (r: Result<u8, MemFault>)
        requires
            self.wf(),
        ensures
            match r {
                Ok(v) => span_in_bounds(addr, 1, self.capacity()) && span_grants(
                    self.permissions(),
                    addr,
                    1,
                    PERM_READ,
                ) && v == self.bytes()[addr as int],
                Err(MemFault::OutOfBounds) => !span_in_bounds(addr, 1, self.capacity()),
                Err(MemFault::PermissionDenied) => span_in_bounds(addr, 1, self.capacity())
                    && !span_grants(self.permissions(), addr, 1, PERM_READ),
            },
    {
        let len = self.data.len() as u64;
        if addr >= len {
            return Err(MemFault::OutOfBounds);
        }
        let a = addr as usize;
        if !self.perms[a].check(PERM_READ) {
            return Err(MemFault::PermissionDenied);
        }
        Ok(self.data[a])
    }

    /// Writes `val` to the byte at `addr`.
    pub fn write8(&mut self, addr: u64, val: u8) -> (r: Result<(), MemFault>)
        requires
            old(self).wf(),
        ensures
            final(self).wf(),
            final(self).permissions() == old(self).permissions(),
            match r {
                Ok(v) => span_in_bounds(addr, 1, old(self).capacity()) && span_grants(
                    old(self).permissions(),
                    addr,
                    1,
                    PERM_WRITE,
                ) && final(self).bytes() == le_store(old(self).bytes(), addr as int, 1, val as int),
                Err(MemFault::OutOfBounds) => !span_in_bounds(addr, 1, old(self).capacity())
                    && final(self).bytes() == old(self).bytes(),
                Err(MemFault::PermissionDenied) => span_in_bounds(addr, 1, old(self).capacity())
                    && !span_grants(old(self).permissions(), addr, 1, PERM_WRITE)
                    && final(self).bytes() == old(self).bytes(),
            },
    {
        let len = self.data.len() as u64;
        if addr >= len {
            return Err(MemFault::OutOfBounds);
        }
        let a = addr as usize;
        if !self.perms[a].check(PERM_WRITE) {
            return Err(MemFault::PermissionDenied);
        }
        self.data[a] = val;
        proof {
            let b0 = old(self).bytes();
            let ad = addr as int;
            assert(val as int % 256 == val as int);
            assert(le_store(b0.update(ad, val), ad + 1, 0, val as int / 256) == b0.update(ad, val));
            assert(self.bytes() =~= le_store(b0, ad, 1, val as int));
        }
        Ok(())
    }

    /// Reads the two bytes at `addr` and `addr + 1`, little-endian.
    pub fn read16(&self, addr: u64) -> (r: Result<u16, MemFault>)
        requires
            self.wf(),
        ensures
            match r {
                Ok(v) => span_in_bounds(addr, 2, self.capacity()) && span_grants(
                    self.permissions(),
                    addr,
                    2,
                    PERM_READ,
                ) && v as int == le_value(self.bytes(), addr as int, 2),
                Err(MemFault::OutOfBounds) => !span_in_bounds(addr, 2, self.capacity()),
                Err(MemFault::PermissionDenied) => span_in_bounds(addr, 2, self.capacity())
                    && !span_grants(self.permissions(), addr, 2, PERM_READ),
            },
    {
        let len = self.data.len() as u64;
        if addr >= len || len - addr < 2 {
            return Err(MemFault::OutOfBounds);
        }
        let a = addr as usize;
        if !self.perms[a].check(PERM_READ) || !self.perms[a + 1].check(PERM_READ) {
            return Err(MemFault::PermissionDenied);
        }
        let x0 = self.data[a];
        let x1 = self.data[a + 1];
        let v = (x0 as u16) | ((x1 as u16) << 8u16);
        proof {
            let b = self.bytes();
            let ad = addr as int;
            assert(le_value(b, ad + 2, 0) == 0);
            assert(le_value(b, ad + 1, 1) == b[ad + 1] + 256 * le_value(b, ad + 2, 0));
            assert(le_value(b, ad, 2) == b[ad] + 256 * le_value(b, ad + 1, 1));
            assert((x0 as u16) | ((x1 as u16) << 8u16) == x0 + 256 * x1) by (bit_vector);
        }
        Ok(v)
    }

    /// Reads the four bytes at `addr` through `addr + 3`, little-endian.
    pub fn read32(&self, addr: u64) -> (r: Result<u32, MemFault>)
        requires
            self.wf(),
        ensures
            match r {
                Ok(v) => span_in_bounds(addr, 4, self.capacity()) && span_grants(
                    self.permissions(),
                    addr,
                    4,
                    PERM_READ,
                ) && v as int == le_value(self.bytes(), addr as int, 4),
                Err(MemFault::OutOfBounds) => !span_in_bounds(addr, 4, self.capacity()),
                Err(MemFault::PermissionDenied) => span_in_bounds(addr, 4, self.capacity())
                    && !span_grants(self.permissions(), addr, 4, PERM_READ),
            },
    {
        let len = self.data.len() as u64;
        if addr >= len || len - addr < 4 {
            return Err(MemFault::OutOfBounds);
        }
        let a = addr as usize;
        if !self.perms[a].check(PERM_READ) || !self.perms[a + 1].check(PERM_READ)
            || !self.perms[a + 2].check(PERM_READ) || !self.perms[a + 3].check(PERM_READ) {
            return Err(MemFault::PermissionDenied);
        }
        let x0 = self.data[a];
        let x1 = self.data[a + 1];
        let x2 = self.data[a + 2];
        let x3 = self.data[a + 3];
        let v = (x0 as u32) | ((x1 as u32) << 8u32) | ((x2 as u32) << 16u32) | ((x3 as u32)
            << 24u32);
        proof {
            let b = self.bytes();
            let ad = addr as int;
            assert(le_value(b, ad + 4, 0) == 0);
            assert(le_value(b, ad + 3, 1) == b[ad + 3] + 256 * le_value(b, ad + 4, 0));
            assert(le_value(b, ad + 2, 2) == b[ad + 2] + 256 * le_value(b, ad + 3, 1));
            assert(le_value(b, ad + 1, 3) == b[ad + 1] + 256 * le_value(b, ad + 2, 2));
            assert(le_value(b, ad, 4) == b[ad] + 256 * le_value(b, ad + 1, 3));
            assert((x0 as u32) | ((x1 as u32) << 8u32) | ((x2 as u32) << 16u32) | ((x3 as u32)
                << 24u32) == x0 + 256 * (x1 + 256 * (x2 + 256 * x3))) by (bit_vector);
        }
        Ok(v)
    }

    /// Writes the two bytes of `val` at `addr` and `addr + 1`,
    /// little-endian. A refused access mutates nothing.
    pub fn write16(&mut self, addr: u64, val: u16) -> (r: Result<(), MemFault>)
        requires
            old(self).wf(),
        ensures
            final(self).wf(),
            final(self).permissions() == old(self).permissions(),
            match r {
                Ok(v) => span_in_bounds(addr, 2, old(self).capacity()) && span_grants(
                    old(self).permissions(),
                    addr,
                    2,
                    PERM_WRITE,
                ) && final(self).bytes() == le_store(old(self).bytes(), addr as int, 2, val as int),
                Err(MemFault::OutOfBounds) => !span_in_bounds(addr, 2, old(self).capacity())
                    && final(self).bytes() == old(self).bytes(),
                Err(MemFault::PermissionDenied) => span_in_bounds(addr, 2, old(self).capacity())
                    && !span_grants(old(self).permissions(), addr, 2, PERM_WRITE)
                    && final(self).bytes() == old(self).bytes(),
            },
    {
        let len = self.data.len() as u64;
        if addr >= len || len - addr < 2 {
            return Err(MemFault::OutOfBounds);
        }
        let a = addr as usize;
        if !self.perms[a].check(PERM_WRITE) || !self.perms[a + 1].check(PERM_WRITE) {
            return Err(MemFault::PermissionDenied);
        }
        proof {
            assert(val & 0xff < 256 && (val >> 8u16) < 256) by (bit_vector);
        }
        let lo = (val & 0xff) as u8;
        let hi = (val >> 8u16) as u8;
        self.data[a] = lo;
        self.data[a + 1] = hi;
        proof {
            let b0 = old(self).bytes();
            let ad = addr as int;
            let v = val as int;
            assert(lo == val % 256 && hi == val / 256 && val / 256 < 256 && (val / 256) % 256
                == val / 256 && val / 256 / 256 == 0) by (bit_vector)
                requires
                    lo == (val & 0xff) as u8,
                    hi == (val >> 8u16) as u8,
            ;
            let b1 = b0.update(ad, lo);
            let b2 = b1.update(ad + 1, hi);
            assert(le_store(b2, ad + 2, 0, v / 256 / 256) == b2);
            assert(le_store(b1, ad + 1, 1, v / 256) == b2);
            assert(le_store(b0, ad, 2, v) == b2);
            assert(self.bytes() =~= b2);
        }
        Ok(())
    }

    /// Writes the four bytes of `val` at `addr` through `addr + 3`,
    /// little-endian. A refused access mutates nothing.
    pub fn write32(&mut self, addr: u64, val: u32) -> (r: Result<(), MemFault>)
        requires
            old(self).wf(),
        ensures
            final(self).wf(),
            final(self).permissions() == old(self).permissions(),
            match r {
                Ok(v) => span_in_bounds(addr, 4, old(self).capacity()) && span_grants(
                    old(self).permissions(),
                    addr,
                    4,
                    PERM_WRITE,
                ) && final(self).bytes() == le_store(old(self).bytes(), addr as int, 4, val as int),
                Err(MemFault::OutOfBounds) => !span_in_bounds(addr, 4, old(self).capacity())
                    && final(self).bytes() == old(self).bytes(),
                Err(MemFault::PermissionDenied) => span_in_bounds(addr, 4, old(self).capacity())
                    && !span_grants(old(self).permissions(), addr, 4, PERM_WRITE)
                    && final(self).bytes() == old(self).bytes(),
            },
    {
        let len = self.data.len() as u64;
        if addr >= len || len - addr < 4 {
            return Err(MemFault::OutOfBounds);
        }
        let a = addr as usize;
        if !self.perms[a].check(PERM_WRITE) || !self.perms[a + 1].check(PERM_WRITE)
            || !self.perms[a + 2].check(PERM_WRITE) || !self.perms[a + 3].check(PERM_WRITE) {
            return Err(MemFault::PermissionDenied);
        }
        proof {
            assert(val & 0xff < 256 && (val >> 8u32) & 0xff < 256 && (val >> 16u32) & 0xff < 256
                && (val >> 24u32) < 256) by (bit_vector);
        }
        let b0v = (val & 0xff) as u8;
        let b1v = ((val >> 8u32) & 0xff) as u8;
        let b2v = ((val >> 16u32) & 0xff) as u8;
        let b3v = (val >> 24u32) as u8;
        self.data[a] = b0v;
        self.data[a + 1] = b1v;
        self.data[a + 2] = b2v;
        self.data[a + 3] = b3v;
        proof {
            let b0 = old(self).bytes();
            let ad = addr as int;
            let v = val as int;
            assert(b0v == val % 256 && b1v == (val / 256) % 256 && b2v == (val / 65536) % 256
                && b3v == val / 16777216 && val / 256 / 256 == val / 65536 && val / 65536 / 256
                == val / 16777216 && val / 16777216 < 256 && val / 16777216 / 256 == 0 && (val
                / 16777216) % 256 == val / 16777216) by (bit_vector)
                requires
                    b0v == (val & 0xff) as u8,
                    b1v == ((val >> 8u32) & 0xff) as u8,
                    b2v == ((val >> 16u32) & 0xff) as u8,
                    b3v == (val >> 24u32) as u8,
            ;
            let s1 = b0.update(ad, b0v);
            let s2 = s1.update(ad + 1, b1v);
            let s3 = s2.update(ad + 2, b2v);
            let s4 = s3.update(ad + 3, b3v);
            assert(le_store(s4, ad + 4, 0, v / 16777216 / 256) == s4);
            assert(le_store(s3, ad + 3, 1, v / 16777216) == s4);
            assert(le_store(s2, ad + 2, 2, v / 65536) == s4);
            assert(le_store(s1, ad + 1, 3, v / 256) == s4);
            assert(le_store(b0, ad, 4, v) == s4);
            assert(self.bytes() =~= s4);
        }
        Ok(())
    }
}

} // verus!

