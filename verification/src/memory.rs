//! The machine's memory.
//!
//! The machine addresses up to 4 KB (4096 bytes) of RAM, locations
//! `0x000..=0xFFF`.  The first 512 bytes, `0x000..=0x1FF`, are reserved
//! for the interpreter; most programs start at location `0x200`, some at
//! `0x600`.  Every single-byte access takes an [`Addr`], which is masked
//! to 12 bits on construction, so reads and writes are total functions:
//! no bounds violation is reachable once an address is well-formed.

use vstd::prelude::*;

use crate::error::Chip8Error;
use crate::types::Addr;

verus! {

/// Size of memory: 4096 bytes.
pub const RAM_SIZE: usize = 0x1000;

/// The contents of memory after loading `bytes` at `start`: the loaded
/// range is replaced, every other byte keeps its old value.
pub open spec fn load_result(ram: Seq<u8>, bytes: Seq<u8>, start: int) -> Seq<u8> {
    Seq::new(ram.len(), |i: int| {
        if start <= i < start + bytes.len() {
            bytes[i - start]
        } else {
            ram[i]
        }
    })
}

/// The system RAM: an ordered sequence of [`RAM_SIZE`] bytes.
#[derive(Debug)]
pub struct Ram(Vec<u8>);

impl View for Ram {
    type V = Seq<u8>;

    closed spec fn view(&self) -> Seq<u8> {
        self.0@
    }
}

impl Default for Ram {
    /// Zero-filled memory, as [`Ram::new`] gives.
    fn default() -> (r: Self)
        ensures
            r.wf(),
            forall|i: int| 0 <= i < RAM_SIZE ==> r@[i] == 0u8,
    {
        Self::new()
    }
}

impl Ram {
    /// Well-formed memory holds exactly [`RAM_SIZE`] bytes.
    pub open spec fn wf(&self) -> bool {
        self@.len() == RAM_SIZE
    }

    /// Create new, zero-filled `Ram`.
    pub fn new() -> (r: Self)
        ensures
            r.wf(),
            forall|i: int| 0 <= i < RAM_SIZE ==> r@[i] == 0u8,
    {
        let mut bytes: Vec<u8> = Vec::new();
        while bytes.len() < RAM_SIZE
            invariant
                bytes@.len() <= RAM_SIZE,
                forall|i: int| 0 <= i < bytes@.len() ==> bytes@[i] == 0u8,
            decreases RAM_SIZE - bytes@.len(),
        {
            bytes.push(0);
        }
        Ram(bytes)
    }

    /// Read the byte at `addr`.
    pub fn read(&self, addr: Addr) -> (b: u8)
        requires
            self.wf(),
        ensures
            b == self@[addr@ as int],
    {
        self.0[addr.get() as usize]
    }

    /// Write `b` to `addr`.
    pub fn write(&mut self, addr: Addr, b: u8)
        requires
            old(self).wf(),
        ensures
            final(self).wf(),
            final(self)@ == old(self)@.update(addr@ as int, b),
    {
        self.0[addr.get() as usize] = b;
    }

    /// Bulk-load a program image at `start`.
    ///
    /// Fails with a capacity error — and writes nothing — when `bytes` is
    /// longer than the memory past `start`; otherwise replaces exactly
    /// that range.
    pub fn load(&mut self, bytes: &Vec<u8>, start: Addr) -> (r: Result<(), Chip8Error>)
        requires
            old(self).wf(),
        ensures
            final(self).wf(),
            r is Ok <==> bytes@.len() <= RAM_SIZE - start@,
            r is Ok ==> final(self)@ == load_result(old(self)@, bytes@, start@ as int),
            r is Err ==> final(self)@ == old(self)@ && r == Err::<(), Chip8Error>(
                Chip8Error::Capacity,
            ),
    {
        let base = start.get() as usize;
        if bytes.len() > RAM_SIZE - base {
            return Err(Chip8Error::Capacity);
        }
        let mut k: usize = 0;
        while k < bytes.len()
            invariant
                self@.len() == RAM_SIZE,
                base == start@,
                k <= bytes@.len(),
                bytes@.len() <= RAM_SIZE - base,
                forall|i: int|
                    0 <= i < RAM_SIZE && !(base <= i < base + k) ==> self@[i] == old(self)@[i],
                forall|i: int| base <= i < base + k ==> self@[i] == bytes@[i - base],
            decreases bytes@.len() - k,
        {
            self.0[base + k] = bytes[k];
            k = k + 1;
        }
        proof {
            assert(self@ =~= load_result(old(self)@, bytes@, start@ as int));
        }
        Ok(())
    }
}

} // verus!
