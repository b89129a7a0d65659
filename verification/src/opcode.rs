//! Opcode fetch words and their decoding.
//!
//! An opcode is a raw 16-bit fetched word.  It decomposes losslessly into
//! four 4-bit nibbles `(n0, n1, n2, n3)`, from which every operand shape
//! is derived: `addr` is the low 12 bits, `x` is `n1`, `y` is `n2`, `kk`
//! the low byte and `n` the low nibble.  Decoding is a total function:
//! every 16-bit value decodes to some [`Instruction`], with unrecognized
//! patterns mapping to a logged no-op rather than an error.

use vstd::prelude::*;

use crate::instruction::{Instruction, Op};

verus! {

/// A type representing the individual nibbles of an [`OpCode`].
pub type OpCodeTuple = (u8, u8, u8, u8);

/// The high nibble `n0` of an opcode word.
pub open spec fn op_n0(op: u16) -> u8 {
    (op / 0x1000) as u8
}

/// The register nibble `x` (`n1`) of an opcode word.
pub open spec fn op_x(op: u16) -> u8 {
    ((op / 0x100) % 0x10) as u8
}

/// The register nibble `y` (`n2`) of an opcode word.
pub open spec fn op_y(op: u16) -> u8 {
    ((op / 0x10) % 0x10) as u8
}

/// The low nibble `n` (`n3`) of an opcode word.
pub open spec fn op_n(op: u16) -> u8 {
    (op % 0x10) as u8
}

/// The low byte `kk` of an opcode word.
pub open spec fn op_kk(op: u16) -> u8 {
    (op % 0x100) as u8
}

/// The 12-bit address `nnn` of an opcode word.
pub open spec fn op_addr(op: u16) -> u16 {
    op % 0x1000
}

/// A raw opcode word, immutable once fetched.
#[derive(Debug, Copy, Clone, PartialEq, Eq, Structural)]
pub struct OpCode(pub u16);

impl View for OpCode {
    type V = u16;

    open spec fn view(&self) -> u16 {
        self.0
    }
}

impl From<(u8, u8)> for OpCode {
    /// Combine two fetched bytes, high byte first.
    fn from(value: (u8, u8)) -> (r: Self) {
        OpCode((value.0 as u16) * 0x100 + (value.1 as u16))
    }
}

impl vstd::std_specs::convert::FromSpecImpl<(u8, u8)> for OpCode {
    open spec fn obeys_from_spec() -> bool {
        true
    }

    open spec fn from_spec(value: (u8, u8)) -> OpCode {
        OpCode((value.0 * 0x100 + value.1) as u16)
    }
}

/// The operation and operands that an opcode word decodes to, following
/// the dispatch table keyed on the high nibble and, where that is
/// ambiguous, the low byte or low nibble.
pub open spec fn spec_decode_raw(op: u16) -> (Op, Operands) {
    match (op_n0(op), op_x(op), op_y(op), op_n(op)) {
        (0x0, 0x0, 0xE, 0x0) => (Op::Cls, Operands::Empty),
        (0x0, 0x0, 0xE, 0xE) => (Op::Ret, Operands::Empty),
        (0x0, _, _, _) => (Op::Sys, Operands::Address(op_addr(op))),
        (0x1, _, _, _) => (Op::Jp, Operands::Address(op_addr(op))),
        (0x2, _, _, _) => (Op::Call, Operands::Address(op_addr(op))),
        (0x3, x, _, _) => (Op::SeByte, Operands::RegAndConst(x, op_kk(op))),
        (0x4, x, _, _) => (Op::SneByte, Operands::RegAndConst(x, op_kk(op))),
        (0x5, x, y, 0x0) => (Op::SeReg, Operands::Regs(x, y)),
        (0x6, x, _, _) => (Op::LdByte, Operands::RegAndConst(x, op_kk(op))),
        (0x7, x, _, _) => (Op::AddByte, Operands::RegAndConst(x, op_kk(op))),
        (0x8, x, y, 0x0) => (Op::LdReg, Operands::Regs(x, y)),
        (0x8, x, y, 0x1) => (Op::Or, Operands::Regs(x, y)),
        (0x8, x, y, 0x2) => (Op::And, Operands::Regs(x, y)),
        (0x8, x, y, 0x3) => (Op::Xor, Operands::Regs(x, y)),
        (0x8, x, y, 0x4) => (Op::AddReg, Operands::Regs(x, y)),
        (0x8, x, y, 0x5) => (Op::Sub, Operands::Regs(x, y)),
        (0x8, x, _, 0x6) => (Op::Shr, Operands::Reg(x)),
        (0x8, x, y, 0x7) => (Op::Subn, Operands::Regs(x, y)),
        (0x8, x, _, 0xE) => (Op::Shl, Operands::Reg(x)),
        (0x9, x, y, 0x0) => (Op::SneReg, Operands::Regs(x, y)),
        (0xA, _, _, _) => (Op::LdI, Operands::Address(op_addr(op))),
        (0xB, _, _, _) => (Op::JpV0, Operands::Address(op_addr(op))),
        (0xC, x, _, _) => (Op::Rnd, Operands::RegAndConst(x, op_kk(op))),
        (0xD, x, y, n) => (Op::Drw, Operands::RegsAndConst(x, y, n)),
        (0xE, x, 0x9, 0xE) => (Op::Skp, Operands::Reg(x)),
        (0xE, x, 0xA, 0x1) => (Op::Sknp, Operands::Reg(x)),
        (0xF, x, 0x0, 0x7) => (Op::LdDt, Operands::Reg(x)),
        (0xF, x, 0x0, 0xA) => (Op::LdKey, Operands::Reg(x)),
        (0xF, x, 0x1, 0x5) => (Op::SetDt, Operands::Reg(x)),
        (0xF, x, 0x1, 0x8) => (Op::SetSt, Operands::Reg(x)),
        (0xF, x, 0x1, 0xE) => (Op::AddI, Operands::Reg(x)),
        (0xF, x, 0x2, 0x9) => (Op::LdFont, Operands::Reg(x)),
        (0xF, x, 0x3, 0x3) => (Op::Bcd, Operands::Reg(x)),
        (0xF, x, 0x5, 0x5) => (Op::StoreRegs, Operands::Reg(x)),
        (0xF, x, 0x6, 0x5) => (Op::LoadRegs, Operands::Reg(x)),
        _ => (Op::Unknown, Operands::Empty),
    }
}

impl OpCode {
    /// Decompose into the four nibbles `(n0, n1, n2, n3)`, high first.
    pub fn to_match_tuple(self) -> (r: OpCodeTuple)
        ensures
            r == (op_n0(self@), op_x(self@), op_y(self@), op_n(self@)),
    {
        (
            (self.0 / 0x1000) as u8,
            ((self.0 / 0x100) % 0x10) as u8,
            ((self.0 / 0x10) % 0x10) as u8,
            (self.0 % 0x10) as u8,
        )
    }

    /// Decode this opcode to the [`Instruction`] it denotes.
    ///
    /// Decoding is total: every word maps to some instruction, with
    /// unrecognized patterns mapping to a no-op.
    pub fn decode(self) -> (r: Instruction)
        ensures
            r.opcode == self,
            (r.op, r.operands) == spec_decode_raw(self@),
            r.wf(),
    {
        let t = self.to_match_tuple();
        let addr = self.0 % 0x1000;
        let kk = (self.0 % 0x100) as u8;
        match t {
            (0x0, 0x0, 0xE, 0x0) => Instruction::new(self, Operands::Empty, Op::Cls),
            (0x0, 0x0, 0xE, 0xE) => Instruction::new(self, Operands::Empty, Op::Ret),
            (0x0, _, _, _) => Instruction::new(self, Operands::Address(addr), Op::Sys),
            (0x1, _, _, _) => Instruction::new(self, Operands::Address(addr), Op::Jp),
            (0x2, _, _, _) => Instruction::new(self, Operands::Address(addr), Op::Call),
            (0x3, x, _, _) => Instruction::new(self, Operands::RegAndConst(x, kk), Op::SeByte),
            (0x4, x, _, _) => Instruction::new(self, Operands::RegAndConst(x, kk), Op::SneByte),
            (0x5, x, y, 0x0) => Instruction::new(self, Operands::Regs(x, y), Op::SeReg),
            (0x6, x, _, _) => Instruction::new(self, Operands::RegAndConst(x, kk), Op::LdByte),
            (0x7, x, _, _) => Instruction::new(self, Operands::RegAndConst(x, kk), Op::AddByte),
            (0x8, x, y, 0x0) => Instruction::new(self, Operands::Regs(x, y), Op::LdReg),
            (0x8, x, y, 0x1) => Instruction::new(self, Operands::Regs(x, y), Op::Or),
            (0x8, x, y, 0x2) => Instruction::new(self, Operands::Regs(x, y), Op::And),
            (0x8, x, y, 0x3) => Instruction::new(self, Operands::Regs(x, y), Op::Xor),
            (0x8, x, y, 0x4) => Instruction::new(self, Operands::Regs(x, y), Op::AddReg),
            (0x8, x, y, 0x5) => Instruction::new(self, Operands::Regs(x, y), Op::Sub),
            (0x8, x, _, 0x6) => Instruction::new(self, Operands::Reg(x), Op::Shr),
            (0x8, x, y, 0x7) => Instruction::new(self, Operands::Regs(x, y), Op::Subn),
            (0x8, x, _, 0xE) => Instruction::new(self, Operands::Reg(x), Op::Shl),
            (0x9, x, y, 0x0) => Instruction::new(self, Operands::Regs(x, y), Op::SneReg),
            (0xA, _, _, _) => Instruction::new(self, Operands::Address(addr), Op::LdI),
            (0xB, _, _, _) => Instruction::new(self, Operands::Address(addr), Op::JpV0),
            (0xC, x, _, _) => Instruction::new(self, Operands::RegAndConst(x, kk), Op::Rnd),
            (0xD, x, y, n) => Instruction::new(self, Operands::RegsAndConst(x, y, n), Op::Drw),
            (0xE, x, 0x9, 0xE) => Instruction::new(self, Operands::Reg(x), Op::Skp),
            (0xE, x, 0xA, 0x1) => Instruction::new(self, Operands::Reg(x), Op::Sknp),
            (0xF, x, 0x0, 0x7) => Instruction::new(self, Operands::Reg(x), Op::LdDt),
            (0xF, x, 0x0, 0xA) => Instruction::new(self, Operands::Reg(x), Op::LdKey),
            (0xF, x, 0x1, 0x5) => Instruction::new(self, Operands::Reg(x), Op::SetDt),
            (0xF, x, 0x1, 0x8) => Instruction::new(self, Operands::Reg(x), Op::SetSt),
            (0xF, x, 0x1, 0xE) => Instruction::new(self, Operands::Reg(x), Op::AddI),
            (0xF, x, 0x2, 0x9) => Instruction::new(self, Operands::Reg(x), Op::LdFont),
            (0xF, x, 0x3, 0x3) => Instruction::new(self, Operands::Reg(x), Op::Bcd),
            (0xF, x, 0x5, 0x5) => Instruction::new(self, Operands::Reg(x), Op::StoreRegs),
            (0xF, x, 0x6, 0x5) => Instruction::new(self, Operands::Reg(x), Op::LoadRegs),
            _ => Instruction::new(self, Operands::Empty, Op::Unknown),
        }
    }
}

/// Operand variants of an opcode.
#[derive(Debug, Copy, Clone, PartialEq, Eq, Structural)]
pub enum Operands {
    /// No operands.
    Empty,
    /// 12-bit address (`nnn`).
    Address(u16),
    /// Register name (`x`).
    Reg(u8),
    /// Register names (`xy`).
    Regs(u8, u8),
    /// Register name and 8-bit constant (`xkk`).
    RegAndConst(u8, u8),
    /// Register names and 4-bit constant (`xyn`).
    RegsAndConst(u8, u8, u8),
}

} // verus!
