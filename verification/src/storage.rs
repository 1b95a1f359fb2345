//! A window of byte-addressed non-volatile storage, held in memory.
//!
//! The records of the mode and of the configuration are laid out in such a
//! window; whoever owns the device copies the window from and to it.

use vstd::prelude::*;
use vstd::string::*;
use crate::error::{general_fault, Result};

verus! {

/// The value of a byte that was never written.
pub const ERASED: u8 = 0xFF;

/// The bytes `bytes` with those from the position `at` on replaced by `data`.
pub open spec fn write_at(bytes: Seq<u8>, at: int, data: Seq<u8>) -> Seq<u8>
    recommends
        0 <= at,
        at + data.len() <= bytes.len(),
{
    bytes.subrange(0, at) + data + bytes.subrange(at + data.len(), bytes.len() as int)
}

/// The bytes of the storage addresses `base()`, `base() + 1`, ... in order.
#[derive(Clone, Debug, PartialEq, Eq)]
pub struct NvStorage {
    base: u32,
    bytes: Vec<u8>,
}

impl View for NvStorage {
    type V = Seq<u8>;

    /// The bytes of the window, the byte at `base()` first.
    closed spec fn view(&self) -> Seq<u8> {
        self.bytes@
    }
}

impl NvStorage {
    /// The address of the first byte of the window.
    pub closed spec fn base(&self) -> u32 {
        self.base
    }

    /// Whether the `len` bytes from `addr` on lie inside the window.
    pub open spec fn covers(&self, addr: u32, len: nat) -> bool {
        self.base() <= addr && addr + len <= self.base() + self@.len()
    }

    /// The `len` bytes from `addr` on.
    pub open spec fn bytes_at(&self, addr: u32, len: nat) -> Seq<u8>
        recommends
            self.covers(addr, len),
    {
        self@.subrange(addr - self.base(), addr - self.base() + len)
    }

    /// The bytes of the window after `data` was written from `addr` on.
    pub open spec fn written(&self, addr: u32, data: Seq<u8>) -> Seq<u8>
        recommends
            self.covers(addr, data.len()),
    {
        write_at(self@, addr - self.base(), data)
    }

    /// A window of `size` bytes from `base` on, none of them written yet.
    pub fn new(base: u32, size: u32) -> (r: NvStorage)
        ensures
            r.base() == base,
            r@.len() == size,
            forall|i: int| 0 <= i < size ==> r@[i] == ERASED,
    {
        let mut bytes: Vec<u8> = Vec::new();
        let mut i: u32 = 0;
        while i < size
            invariant
                i <= size,
                bytes@.len() == i,
                forall|k: int| 0 <= k < i ==> bytes@[k] == ERASED,
            decreases size - i,
        {
            bytes.push(ERASED);
            i += 1;
        }
        NvStorage { base, bytes }
    }

    /// The address of the first byte of the window.
    pub fn start(&self) -> (r: u32)
        ensures
            r == self.base(),
    {
        self.base
    }

    /// The number of bytes in the window.
    pub fn size(&self) -> (r: usize)
        ensures
            r == self@.len(),
    {
        self.bytes.len()
    }

    /// Whether the `len` bytes from `addr` on lie inside the window.
    fn in_window(&self, addr: u32, len: usize) -> (r: bool)
        ensures
            r == self.covers(addr, len as nat),
    {
        addr >= self.base && len <= self.bytes.len() && (addr - self.base) as usize
            <= self.bytes.len() - len
    }

    /// Reads the `len` bytes from `addr` on. Fails, with a general fault, if
    /// and only if they do not all lie inside the window.
    pub fn read(&self, addr: u32, len: usize) -> (r: Result<Vec<u8>>)
        ensures
            r is Ok <==> self.covers(addr, len as nat),
            r matches Ok(v) ==> v@ == self.bytes_at(addr, len as nat),
            r matches Err(e) ==> e is GeneralFault,
    {
        if !self.in_window(addr, len) {
            return Err(general_fault(String::from_str("storage read outside of the window")));
        }
        let off: usize = (addr - self.base) as usize;
        let size: usize = self.bytes.len();
        let mut out: Vec<u8> = Vec::new();
        let mut i: usize = 0;
        while i < len
            invariant
                i <= len,
                off + len <= size == self.bytes@.len(),
                out@ == self.bytes@.subrange(off as int, off + i),
            decreases len - i,
        {
            out.push(self.bytes[off + i]);
            i += 1;
            assert(out@ =~= self.bytes@.subrange(off as int, off + i));
        }
        Ok(out)
    }

    /// Writes `data` from `addr` on. Fails, with a general fault and without
    /// writing anything, if and only if `data` does not lie inside the window.
    pub fn write(&mut self, addr: u32, data: &[u8]) -> (r: Result<()>)
        ensures
            final(self).base() == old(self).base(),
            final(self)@.len() == old(self)@.len(),
            r is Ok <==> old(self).covers(addr, data@.len()),
            r is Ok ==> final(self)@ == old(self).written(addr, data@),
            r is Err ==> final(self)@ == old(self)@,
            r matches Err(e) ==> e is GeneralFault,
    {
        if !self.in_window(addr, data.len()) {
            return Err(general_fault(String::from_str("storage write outside of the window")));
        }
        let off: usize = (addr - self.base) as usize;
        let size: usize = self.bytes.len();
        let len: usize = data.len();
        let mut i: usize = 0;
        while i < len
            invariant
                i <= len,
                len == data@.len(),
                off + len <= size == self.bytes@.len(),
                self.base == old(self).base,
                self.bytes@.len() == old(self).bytes@.len(),
                self.bytes@ == old(self).bytes@.subrange(0, off as int) + data@.subrange(
                    0,
                    i as int,
                ) + old(self).bytes@.subrange(off + i, old(self).bytes@.len() as int),
            decreases len - i,
        {
            self.bytes.set(off + i, data[i]);
            i += 1;
            assert(self.bytes@ =~= old(self).bytes@.subrange(0, off as int) + data@.subrange(
                0,
                i as int,
            ) + old(self).bytes@.subrange(off + i, old(self).bytes@.len() as int));
        }
        assert(data@.subrange(0, len as int) =~= data@);
        Ok(())
    }
}

} // verus!
