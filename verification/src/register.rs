//! The machine's register file.
//!
//! Sixteen general-purpose 8-bit registers, usually written `Vx` where
//! `x` is a hexadecimal digit.  `VF` is reserved as a flag output by the
//! arithmetic, shift and draw instructions: the machine does not stop a
//! program from using it, but those instructions overwrite it.
//!
//! The address register `I`, the program counter, the call stack and the
//! two timers live on the machine itself; this module holds the indexed
//! `Vx` file.

use vstd::prelude::*;

verus! {

/// Memory address at which program (ROM) loading starts.
pub const PROGRAM_START: u16 = 0x200;

/// Number of general purpose registers `Vx`.
pub const NUM_GP_REGS: usize = 16;

/// Index of the flag register `VF`.
pub const FLAG_REG: u8 = 0xF;

/// The sixteen general-purpose registers `V0..=VF`.
#[derive(Debug)]
pub struct Regs(Vec<u8>);

impl View for Regs {
    type V = Seq<u8>;

    closed spec fn view(&self) -> Seq<u8> {
        self.0@
    }
}

impl Default for Regs {
    /// A zero-filled register file, as [`Regs::new`] gives.
    fn default() -> (r: Self)
        ensures
            r.wf(),
            forall|i: int| 0 <= i < NUM_GP_REGS ==> r@[i] == 0u8,
    {
        Self::new()
    }
}

impl Regs {
    /// A well-formed file holds exactly [`NUM_GP_REGS`] registers.
    pub open spec fn wf(&self) -> bool {
        self@.len() == NUM_GP_REGS
    }

    /// Create a new, zero-filled register file.
    pub fn new() -> (r: Self)
        ensures
            r.wf(),
            forall|i: int| 0 <= i < NUM_GP_REGS ==> r@[i] == 0u8,
    {
        let mut regs: Vec<u8> = Vec::new();
        while regs.len() < NUM_GP_REGS
            invariant
                regs@.len() <= NUM_GP_REGS,
                forall|i: int| 0 <= i < regs@.len() ==> regs@[i] == 0u8,
            decreases NUM_GP_REGS - regs@.len(),
        {
            regs.push(0);
        }
        Regs(regs)
    }

    /// Read `Vx`; the 4-bit index is valid by construction.
    pub fn read(&self, x: u8) -> (v: u8)
        requires
            self.wf(),
            x < NUM_GP_REGS,
        ensures
            v == self@[x as int],
    {
        self.0[x as usize]
    }

    /// Write `v` to `Vx`.
    pub fn write(&mut self, x: u8, v: u8)
        requires
            old(self).wf(),
            x < NUM_GP_REGS,
        ensures
            final(self).wf(),
            final(self)@ == old(self)@.update(x as int, v),
    {
        self.0[x as usize] = v;
    }
}

} // verus!
