//! The instruction set and its semantics.
//!
//! Every instruction is two bytes, stored most-significant byte first.
//! The decoder maps each fetched word to an [`Instruction`]: a closed
//! enumeration of operation kinds with an explicit operand payload.  Each
//! operation's semantic effect on the machine is a function here, proved
//! against a transformation of the machine's mathematical view; the
//! program counter has already been advanced past the instruction when
//! the effect is applied, so jumps, calls and skips overwrite the
//! advanced value.
//!
//! In the descriptions of this module, the following variables are used:
//!
//! * `nnn` or `addr` - a 12-bit value, the lowest 12 bits of the instruction
//! * `n` or `nibble` - a 4-bit value, the lowest 4 bits of the instruction
//! * `x` - a 4-bit value, the lower 4 bits of the high byte of the instruction
//! * `y` - a 4-bit value, the upper 4 bits of the low byte of the instruction
//! * `kk` or `byte` - an 8-bit value, the lowest 8 bits of the instruction

use vstd::prelude::*;

use crate::display::{draw_collides, draw_fb};
use crate::error::{matches_fault, Chip8Error};
use crate::memory::RAM_SIZE;
use crate::opcode::{OpCode, Operands};
use crate::register::FLAG_REG;
use crate::types::Addr;
use crate::{wrap16, Chip8, Chip8View, RunState, STACK_SIZE};

verus! {

/// The closed enumeration of operation kinds.
#[derive(Debug, Copy, Clone, PartialEq, Eq, Structural)]
pub enum Op {
    /// `0nnn` — jump to a machine code routine; ignored by modern
    /// interpreters, a no-op here.
    Sys,
    /// `00E0` — clear the display.
    Cls,
    /// `00EE` — return from a subroutine.
    Ret,
    /// `1nnn` — jump to `nnn`.
    Jp,
    /// `2nnn` — call the subroutine at `nnn`.
    Call,
    /// `3xkk` — skip the next instruction if `Vx == kk`.
    SeByte,
    /// `4xkk` — skip the next instruction if `Vx != kk`.
    SneByte,
    /// `5xy0` — skip the next instruction if `Vx == Vy`.
    SeReg,
    /// `6xkk` — set `Vx = kk`.
    LdByte,
    /// `7xkk` — set `Vx = Vx + kk`, wrapping, no flag.
    AddByte,
    /// `8xy0` — set `Vx = Vy`.
    LdReg,
    /// `8xy1` — set `Vx = Vx | Vy`.
    Or,
    /// `8xy2` — set `Vx = Vx & Vy`.
    And,
    /// `8xy3` — set `Vx = Vx ^ Vy`.
    Xor,
    /// `8xy4` — set `Vx = Vx + Vy`, `VF` = carry.
    AddReg,
    /// `8xy5` — set `Vx = Vx - Vy`, `VF` = no borrow.
    Sub,
    /// `8xy6` — set `VF` to the low bit of `Vx`, then halve `Vx`.
    Shr,
    /// `8xy7` — set `Vx = Vy - Vx`, `VF` = no borrow.
    Subn,
    /// `8xyE` — set `VF` to the high bit of `Vx`, then double `Vx`.
    Shl,
    /// `9xy0` — skip the next instruction if `Vx != Vy`.
    SneReg,
    /// `Annn` — set `I = nnn`.
    LdI,
    /// `Bnnn` — jump to `nnn + V0`.
    JpV0,
    /// `Cxkk` — set `Vx` to a random byte masked with `kk`.
    Rnd,
    /// `Dxyn` — draw an `n`-byte sprite from `I` at `(Vx, Vy)`,
    /// `VF` = collision.
    Drw,
    /// `Ex9E` — skip the next instruction if key `Vx` is down.
    Skp,
    /// `ExA1` — skip the next instruction if key `Vx` is up.
    Sknp,
    /// `Fx07` — set `Vx` to the delay timer.
    LdDt,
    /// `Fx0A` — suspend until a key press, then store the key in `Vx`.
    LdKey,
    /// `Fx15` — set the delay timer to `Vx`.
    SetDt,
    /// `Fx18` — set the sound timer to `Vx`.
    SetSt,
    /// `Fx1E` — set `I = I + Vx`, masked to 12 bits.
    AddI,
    /// `Fx29` — point `I` at the built-in sprite for hex digit `Vx`.
    LdFont,
    /// `Fx33` — store the BCD digits of `Vx` at `I`, `I+1`, `I+2`.
    Bcd,
    /// `Fx55` — copy `V0..=Vx` into memory starting at `I`.
    StoreRegs,
    /// `Fx65` — copy memory starting at `I` into `V0..=Vx`.
    LoadRegs,
    /// Any unrecognized pattern — logged and skipped, never fatal.
    Unknown,
}

/// A decoded, executable instruction: the raw word it came from, its
/// operand payload and its operation kind.
#[derive(Debug, Copy, Clone, PartialEq, Eq, Structural)]
pub struct Instruction {
    /// The opcode this instruction was decoded from.
    pub opcode: OpCode,
    /// The operand payload.
    pub operands: Operands,
    /// The operation kind.
    pub op: Op,
}

impl Instruction {
    /// A well-formed instruction pairs each operation kind with its
    /// operand shape, and every register index and immediate fits its
    /// 4-bit field.  The decoder only produces well-formed instructions.
    pub open spec fn wf(self) -> bool {
        match self.op {
            Op::Sys | Op::Jp | Op::Call | Op::LdI | Op::JpV0 => self.operands matches Operands::Address(a) && a < 0x1000,
            Op::Cls | Op::Ret | Op::Unknown => self.operands is Empty,
            Op::SeByte | Op::SneByte | Op::LdByte | Op::AddByte | Op::Rnd => self.operands matches Operands::RegAndConst(x, _) && x < 16,
            Op::SeReg | Op::SneReg | Op::LdReg | Op::Or | Op::And | Op::Xor | Op::AddReg
                | Op::Sub | Op::Subn => self.operands matches Operands::Regs(x, y) && x < 16 && y < 16,
            Op::Shr | Op::Shl | Op::Skp | Op::Sknp | Op::LdDt | Op::LdKey | Op::SetDt
                | Op::SetSt | Op::AddI | Op::LdFont | Op::Bcd | Op::StoreRegs
                | Op::LoadRegs => self.operands matches Operands::Reg(x) && x < 16,
            Op::Drw => self.operands matches Operands::RegsAndConst(x, y, n) && x < 16 && y < 16
                && n < 16,
        }
    }

    /// Create a new `Instruction`.
    pub fn new(opcode: OpCode, ops: Operands, op: Op) -> (r: Self)
        ensures
            r == (Instruction { opcode, operands: ops, op }),
    {
        Self { opcode, operands: ops, op }
    }

    /// Execute this instruction's semantic effect on the machine.
    ///
    /// The program counter must already have been advanced past the
    /// instruction, so jumps, calls and skips overwrite the advanced
    /// value.  The random byte feeds only the random-number
    /// instruction.  A stack fault halts the machine and is reported;
    /// everything else succeeds.
    pub fn exec(self, chip8: &mut Chip8, rnd: u8) -> (r: Result<(), Chip8Error>)
        requires
            old(chip8).wf(),
            self.wf(),
        ensures
            final(chip8).wf(),
            final(chip8)@ == spec_exec(old(chip8)@, self, rnd).0,
            matches_fault(r, spec_exec(old(chip8)@, self, rnd).1),
    {
        match self.op {
            Op::Sys => {
                sys(chip8, self.operands);
                Ok(())
            },
            Op::Cls => {
                clear(chip8, self.operands);
                Ok(())
            },
            Op::Ret => ret(chip8, self.operands),
            Op::Jp => {
                jump(chip8, self.operands);
                Ok(())
            },
            Op::Call => call(chip8, self.operands),
            Op::SeByte => {
                skip_eq_byte(chip8, self.operands);
                Ok(())
            },
            Op::SneByte => {
                skip_ne_byte(chip8, self.operands);
                Ok(())
            },
            Op::SeReg => {
                skip_eq(chip8, self.operands);
                Ok(())
            },
            Op::LdByte => {
                load_byte(chip8, self.operands);
                Ok(())
            },
            Op::AddByte => {
                add_byte(chip8, self.operands);
                Ok(())
            },
            Op::LdReg => {
                load(chip8, self.operands);
                Ok(())
            },
            Op::Or => {
                or(chip8, self.operands);
                Ok(())
            },
            Op::And => {
                and(chip8, self.operands);
                Ok(())
            },
            Op::Xor => {
                xor(chip8, self.operands);
                Ok(())
            },
            Op::AddReg => {
                crate::instruction::add(chip8, self.operands);
                Ok(())
            },
            Op::Sub => {
                crate::instruction::sub(chip8, self.operands);
                Ok(())
            },
            Op::Shr => {
                shift_right(chip8, self.operands);
                Ok(())
            },
            Op::Subn => {
                sub_inv(chip8, self.operands);
                Ok(())
            },
            Op::Shl => {
                shift_left(chip8, self.operands);
                Ok(())
            },
            Op::SneReg => {
                skip_ne(chip8, self.operands);
                Ok(())
            },
            Op::LdI => {
                load_i(chip8, self.operands);
                Ok(())
            },
            Op::JpV0 => {
                jump0(chip8, self.operands);
                Ok(())
            },
            Op::Rnd => {
                rand_byte(chip8, self.operands, rnd);
                Ok(())
            },
            Op::Drw => {
                draw_sprite(chip8, self.operands);
                Ok(())
            },
            Op::Skp => {
                skip_pressed(chip8, self.operands);
                Ok(())
            },
            Op::Sknp => {
                skip_not_pressed(chip8, self.operands);
                Ok(())
            },
            Op::LdDt => {
                load_dt(chip8, self.operands);
                Ok(())
            },
            Op::LdKey => {
                wait_for_key(chip8, self.operands);
                Ok(())
            },
            Op::SetDt => {
                set_delay_timer(chip8, self.operands);
                Ok(())
            },
            Op::SetSt => {
                set_sound_timer(chip8, self.operands);
                Ok(())
            },
            Op::AddI => {
                add_i(chip8, self.operands);
                Ok(())
            },
            Op::LdFont => {
                load_sprite(chip8, self.operands);
                Ok(())
            },
            Op::Bcd => {
                store_bcd(chip8, self.operands);
                Ok(())
            },
            Op::StoreRegs => {
                store_regs(chip8, self.operands);
                Ok(())
            },
            Op::LoadRegs => {
                load_regs(chip8, self.operands);
                Ok(())
            },
            Op::Unknown => {
                not_implemented(chip8, self.operands);
                Ok(())
            },
        }
    }

    /// The mnemonic of the operation, for front ends that trace
    /// execution.
    pub fn name(&self) -> &'static str {
        match self.op {
            Op::Sys => "SYS",
            Op::Cls => "CLS",
            Op::Ret => "RET",
            Op::Jp => "JP",
            Op::Call => "CALL",
            Op::SeByte => "SE",
            Op::SneByte => "SNE",
            Op::SeReg => "SE",
            Op::LdByte => "LD",
            Op::AddByte => "ADD",
            Op::LdReg => "LD",
            Op::Or => "OR",
            Op::And => "AND",
            Op::Xor => "XOR",
            Op::AddReg => "ADD",
            Op::Sub => "SUB",
            Op::Shr => "SHR",
            Op::Subn => "SUBN",
            Op::Shl => "SHL",
            Op::SneReg => "SNE",
            Op::LdI => "LD",
            Op::JpV0 => "JP",
            Op::Rnd => "RND",
            Op::Drw => "DRW",
            Op::Skp => "SKP",
            Op::Sknp => "SKNP",
            Op::LdDt => "LD",
            Op::LdKey => "LD",
            Op::SetDt => "LD",
            Op::SetSt => "LD",
            Op::AddI => "ADD",
            Op::LdFont => "LD",
            Op::Bcd => "LD",
            Op::StoreRegs => "LD",
            Op::LoadRegs => "LD",
            Op::Unknown => "???",
        }
    }
}

/// A machine that skipped the next instruction when `cond` holds: the
/// program counter moves two further bytes, wrapping at 16 bits.
pub open spec fn spec_skip(v: Chip8View, cond: bool) -> Chip8View {
    if cond {
        Chip8View { pc: wrap16(v.pc + 2), ..v }
    } else {
        v
    }
}

/// `SYS addr` — a jump to a machine code routine; ignored by modern
/// interpreters.
pub open spec fn spec_sys(v: Chip8View) -> Chip8View {
    v
}

/// An unrecognized opcode — logged by the front end and otherwise
/// ignored; the already advanced program counter stands.
pub open spec fn spec_not_implemented(v: Chip8View) -> Chip8View {
    v
}

/// `CLS` — every pixel of the framebuffer goes dark.
pub open spec fn spec_clear(v: Chip8View) -> Chip8View {
    Chip8View { fb: Seq::new(v.fb.len(), |i: int| false), ..v }
}

/// `RET` — the program counter returns to the address on top of the
/// stack, which pops; with no pending call the machine halts with a
/// stack underflow.
pub open spec fn spec_ret(v: Chip8View) -> (Chip8View, Option<Chip8Error>) {
    if v.stack.len() == 0 {
        (Chip8View { state: RunState::Halted, ..v }, Some(Chip8Error::StackUnderflow))
    } else {
        (Chip8View { pc: v.stack.last(), stack: v.stack.drop_last(), ..v }, None)
    }
}

/// `JP addr` — the program counter becomes `nnn`.
pub open spec fn spec_jump(v: Chip8View, nnn: u16) -> Chip8View {
    Chip8View { pc: nnn, ..v }
}

/// `CALL addr` — the (already advanced) program counter is pushed and
/// execution continues at `nnn`; with all 16 slots in use the machine
/// halts with a stack overflow.
pub open spec fn spec_call(v: Chip8View, nnn: u16) -> (Chip8View, Option<Chip8Error>) {
    if v.stack.len() >= STACK_SIZE {
        (Chip8View { state: RunState::Halted, ..v }, Some(Chip8Error::StackOverflow))
    } else {
        (Chip8View { stack: v.stack.push(v.pc), pc: nnn, ..v }, None)
    }
}

/// `SE Vx, byte` — skip when `Vx == kk`.
pub open spec fn spec_skip_eq_byte(v: Chip8View, x: u8, kk: u8) -> Chip8View {
    spec_skip(v, v.regs[x as int] == kk)
}

/// `SNE Vx, byte` — skip when `Vx != kk`.
pub open spec fn spec_skip_ne_byte(v: Chip8View, x: u8, kk: u8) -> Chip8View {
    spec_skip(v, v.regs[x as int] != kk)
}

/// `SE Vx, Vy` — skip when `Vx == Vy`.
pub open spec fn spec_skip_eq(v: Chip8View, x: u8, y: u8) -> Chip8View {
    spec_skip(v, v.regs[x as int] == v.regs[y as int])
}

/// `SNE Vx, Vy` — skip when `Vx != Vy`.
pub open spec fn spec_skip_ne(v: Chip8View, x: u8, y: u8) -> Chip8View {
    spec_skip(v, v.regs[x as int] != v.regs[y as int])
}

/// `LD Vx, byte` — `Vx` becomes `kk`.
pub open spec fn spec_load_byte(v: Chip8View, x: u8, kk: u8) -> Chip8View {
    Chip8View { regs: v.regs.update(x as int, kk), ..v }
}

/// `ADD Vx, byte` — `Vx` becomes `Vx + kk` modulo 256; no flag.
pub open spec fn spec_add_byte(v: Chip8View, x: u8, kk: u8) -> Chip8View {
    Chip8View { regs: v.regs.update(x as int, ((v.regs[x as int] + kk) % 0x100) as u8), ..v }
}

/// `LD Vx, Vy` — `Vx` becomes `Vy`.
pub open spec fn spec_load(v: Chip8View, x: u8, y: u8) -> Chip8View {
    Chip8View { regs: v.regs.update(x as int, v.regs[y as int]), ..v }
}

/// `OR Vx, Vy` — `Vx` becomes the bitwise OR of `Vx` and `Vy`.
pub open spec fn spec_or(v: Chip8View, x: u8, y: u8) -> Chip8View {
    Chip8View { regs: v.regs.update(x as int, v.regs[x as int] | v.regs[y as int]), ..v }
}

/// `AND Vx, Vy` — `Vx` becomes the bitwise AND of `Vx` and `Vy`.
pub open spec fn spec_and(v: Chip8View, x: u8, y: u8) -> Chip8View {
    Chip8View { regs: v.regs.update(x as int, v.regs[x as int] & v.regs[y as int]), ..v }
}

/// `XOR Vx, Vy` — `Vx` becomes the bitwise XOR of `Vx` and `Vy`.
pub open spec fn spec_xor(v: Chip8View, x: u8, y: u8) -> Chip8View {
    Chip8View { regs: v.regs.update(x as int, v.regs[x as int] ^ v.regs[y as int]), ..v }
}

/// `ADD Vx, Vy` — `VF` becomes the carry of `Vx + Vy`, and `Vx` the sum
/// modulo 256.
pub open spec fn spec_add(v: Chip8View, x: u8, y: u8) -> Chip8View {
    let sum = v.regs[x as int] + v.regs[y as int];
    let carry: u8 = if sum > 0xFF {
        1
    } else {
        0
    };
    Chip8View {
        regs: v.regs.update(FLAG_REG as int, carry).update(x as int, (sum % 0x100) as u8),
        ..v
    }
}

/// `SUB Vx, Vy` — `VF` becomes 1 exactly when no borrow occurs
/// (`Vx >= Vy`), and `Vx` the wrapping difference `Vx - Vy`.
pub open spec fn spec_sub(v: Chip8View, x: u8, y: u8) -> Chip8View {
    let no_borrow: u8 = if v.regs[x as int] >= v.regs[y as int] {
        1
    } else {
        0
    };
    let diff = ((v.regs[x as int] - v.regs[y as int]) % 0x100) as u8;
    Chip8View { regs: v.regs.update(FLAG_REG as int, no_borrow).update(x as int, diff), ..v }
}

/// `SHR Vx` — `VF` becomes the low bit of `Vx`, and `Vx` is halved.
pub open spec fn spec_shift_right(v: Chip8View, x: u8) -> Chip8View {
    let low: u8 = (v.regs[x as int] % 2) as u8;
    Chip8View {
        regs: v.regs.update(FLAG_REG as int, low).update(x as int, v.regs[x as int] / 2),
        ..v
    }
}

/// `SUBN Vx, Vy` — `VF` becomes 1 exactly when no borrow occurs
/// (`Vy >= Vx`), and `Vx` the wrapping difference `Vy - Vx`.
pub open spec fn spec_sub_inv(v: Chip8View, x: u8, y: u8) -> Chip8View {
    let no_borrow: u8 = if v.regs[y as int] >= v.regs[x as int] {
        1
    } else {
        0
    };
    let diff = ((v.regs[y as int] - v.regs[x as int]) % 0x100) as u8;
    Chip8View { regs: v.regs.update(FLAG_REG as int, no_borrow).update(x as int, diff), ..v }
}

/// `SHL Vx` — `VF` becomes the high bit of `Vx`, and `Vx` is doubled
/// modulo 256.
pub open spec fn spec_shift_left(v: Chip8View, x: u8) -> Chip8View {
    let high: u8 = (v.regs[x as int] / 0x80) as u8;
    Chip8View {
        regs: v.regs.update(FLAG_REG as int, high).update(
            x as int,
            ((v.regs[x as int] * 2) % 0x100) as u8,
        ),
        ..v
    }
}

/// `LD I, addr` — the address register becomes `nnn`.
pub open spec fn spec_load_i(v: Chip8View, nnn: u16) -> Chip8View {
    Chip8View { i: nnn, ..v }
}

/// `JP V0, addr` — the program counter becomes `nnn + V0`.
pub open spec fn spec_jump0(v: Chip8View, nnn: u16) -> Chip8View {
    Chip8View { pc: wrap16(nnn + v.regs[0]), ..v }
}

/// `RND Vx, byte` — `Vx` becomes the random byte masked with `kk`.
pub open spec fn spec_rand_byte(v: Chip8View, x: u8, kk: u8, rnd: u8) -> Chip8View {
    Chip8View { regs: v.regs.update(x as int, rnd & kk), ..v }
}

/// `SKP Vx` — skip when the key named by the low nibble of `Vx` is down.
pub open spec fn spec_skip_pressed(v: Chip8View, x: u8) -> Chip8View {
    spec_skip(v, v.keys[(v.regs[x as int] % 0x10) as int])
}

/// `SKNP Vx` — skip when the key named by the low nibble of `Vx` is up.
pub open spec fn spec_skip_not_pressed(v: Chip8View, x: u8) -> Chip8View {
    spec_skip(v, !v.keys[(v.regs[x as int] % 0x10) as int])
}

/// `LD Vx, DT` — `Vx` becomes the delay timer.
pub open spec fn spec_load_dt(v: Chip8View, x: u8) -> Chip8View {
    Chip8View { regs: v.regs.update(x as int, v.dt), ..v }
}

/// `LD Vx, K` — the machine suspends until a key press arrives for `Vx`;
/// the timers keep running meanwhile.
pub open spec fn spec_wait_for_key(v: Chip8View, x: u8) -> Chip8View {
    Chip8View { state: RunState::WaitingForKey(x), ..v }
}

/// `LD DT, Vx` — the delay timer becomes `Vx`.
pub open spec fn spec_set_delay_timer(v: Chip8View, x: u8) -> Chip8View {
    Chip8View { dt: v.regs[x as int], ..v }
}

/// `LD ST, Vx` — the sound timer becomes `Vx`.
pub open spec fn spec_set_sound_timer(v: Chip8View, x: u8) -> Chip8View {
    Chip8View { st: v.regs[x as int], ..v }
}

/// `ADD I, Vx` — the address register becomes `I + Vx`, masked to its 12
/// significant bits.
pub open spec fn spec_add_i(v: Chip8View, x: u8) -> Chip8View {
    Chip8View { i: ((v.i + v.regs[x as int]) % 0x1000) as u16, ..v }
}

/// `LD F, Vx` — the address register points at the built-in sprite of
/// the hex digit named by the low nibble of `Vx`: five bytes per glyph
/// from the bottom of the reserved interpreter region.
pub open spec fn spec_load_sprite(v: Chip8View, x: u8) -> Chip8View {
    Chip8View { i: ((v.regs[x as int] % 0x10) * 5) as u16, ..v }
}

/// `LD B, Vx` — the decimal digits of `Vx`: hundreds at `I`, tens at
/// `I + 1`, ones at `I + 2`, each address masked to 12 bits.
pub open spec fn spec_store_bcd(v: Chip8View, x: u8) -> Chip8View {
    let vx = v.regs[x as int];
    let a0 = v.i as int % 0x1000;
    let a1 = (v.i + 1) % 0x1000;
    let a2 = (v.i + 2) % 0x1000;
    Chip8View {
        ram: v.ram.update(a0, vx / 100).update(a1, (vx / 10) % 10).update(a2, vx % 10),
        ..v
    }
}

/// `LD [I], Vx` — memory from `I` on receives `V0..=Vx`, each address
/// masked to 12 bits; everything else keeps its byte.
pub open spec fn spec_store_regs(v: Chip8View, x: u8) -> Chip8View {
    Chip8View {
        ram: Seq::new(v.ram.len(), |a: int| {
            let k = (a - v.i) % 0x1000;
            if k <= x {
                v.regs[k]
            } else {
                v.ram[a]
            }
        }),
        ..v
    }
}

/// `LD Vx, [I]` — `V0..=Vx` receive memory from `I` on, each address
/// masked to 12 bits; the higher registers keep their values.
pub open spec fn spec_load_regs(v: Chip8View, x: u8) -> Chip8View {
    Chip8View {
        regs: Seq::new(v.regs.len(), |k: int| {
            if k <= x {
                v.ram[(v.i + k) % 0x1000]
            } else {
                v.regs[k]
            }
        }),
        ..v
    }
}

/// `DRW Vx, Vy, n` — the `n`-byte sprite at `I` (addresses masked to 12
/// bits) is XOR-blitted at `(Vx, Vy)` with coordinate wraparound, and
/// `VF` records whether any lit pixel was erased.
pub open spec fn spec_draw_sprite(v: Chip8View, x: u8, y: u8, n: u8) -> Chip8View {
    let sprite = Seq::new(n as nat, |k: int| v.ram[(v.i + k) % 0x1000]);
    let vf: u8 = if draw_collides(v.fb, sprite, v.regs[x as int], v.regs[y as int]) {
        1
    } else {
        0
    };
    Chip8View {
        fb: draw_fb(v.fb, sprite, v.regs[x as int], v.regs[y as int]),
        regs: v.regs.update(FLAG_REG as int, vf),
        ..v
    }
}

/// The machine and fault after executing one decoded instruction.  The
/// program counter has already been advanced past the instruction; the
/// random byte feeds only the random-number instruction.  An instruction
/// whose operand shape does not match its operation — which the decoder
/// never produces — does nothing.
pub open spec fn spec_exec(v: Chip8View, inst: Instruction, rnd: u8) -> (
    Chip8View,
    Option<Chip8Error>,
) {
    match (inst.op, inst.operands) {
        (Op::Sys, _) => (spec_sys(v), None),
        (Op::Cls, _) => (spec_clear(v), None),
        (Op::Ret, _) => spec_ret(v),
        (Op::Jp, Operands::Address(nnn)) => (spec_jump(v, nnn), None),
        (Op::Call, Operands::Address(nnn)) => spec_call(v, nnn),
        (Op::SeByte, Operands::RegAndConst(x, kk)) => (spec_skip_eq_byte(v, x, kk), None),
        (Op::SneByte, Operands::RegAndConst(x, kk)) => (spec_skip_ne_byte(v, x, kk), None),
        (Op::SeReg, Operands::Regs(x, y)) => (spec_skip_eq(v, x, y), None),
        (Op::LdByte, Operands::RegAndConst(x, kk)) => (spec_load_byte(v, x, kk), None),
        (Op::AddByte, Operands::RegAndConst(x, kk)) => (spec_add_byte(v, x, kk), None),
        (Op::LdReg, Operands::Regs(x, y)) => (spec_load(v, x, y), None),
        (Op::Or, Operands::Regs(x, y)) => (spec_or(v, x, y), None),
        (Op::And, Operands::Regs(x, y)) => (spec_and(v, x, y), None),
        (Op::Xor, Operands::Regs(x, y)) => (spec_xor(v, x, y), None),
        (Op::AddReg, Operands::Regs(x, y)) => (spec_add(v, x, y), None),
        (Op::Sub, Operands::Regs(x, y)) => (spec_sub(v, x, y), None),
        (Op::Shr, Operands::Reg(x)) => (spec_shift_right(v, x), None),
        (Op::Subn, Operands::Regs(x, y)) => (spec_sub_inv(v, x, y), None),
        (Op::Shl, Operands::Reg(x)) => (spec_shift_left(v, x), None),
        (Op::SneReg, Operands::Regs(x, y)) => (spec_skip_ne(v, x, y), None),
        (Op::LdI, Operands::Address(nnn)) => (spec_load_i(v, nnn), None),
        (Op::JpV0, Operands::Address(nnn)) => (spec_jump0(v, nnn), None),
        (Op::Rnd, Operands::RegAndConst(x, kk)) => (spec_rand_byte(v, x, kk, rnd), None),
        (Op::Drw, Operands::RegsAndConst(x, y, n)) => (spec_draw_sprite(v, x, y, n), None),
        (Op::Skp, Operands::Reg(x)) => (spec_skip_pressed(v, x), None),
        (Op::Sknp, Operands::Reg(x)) => (spec_skip_not_pressed(v, x), None),
        (Op::LdDt, Operands::Reg(x)) => (spec_load_dt(v, x), None),
        (Op::LdKey, Operands::Reg(x)) => (spec_wait_for_key(v, x), None),
        (Op::SetDt, Operands::Reg(x)) => (spec_set_delay_timer(v, x), None),
        (Op::SetSt, Operands::Reg(x)) => (spec_set_sound_timer(v, x), None),
        (Op::AddI, Operands::Reg(x)) => (spec_add_i(v, x), None),
        (Op::LdFont, Operands::Reg(x)) => (spec_load_sprite(v, x), None),
        (Op::Bcd, Operands::Reg(x)) => (spec_store_bcd(v, x), None),
        (Op::StoreRegs, Operands::Reg(x)) => (spec_store_regs(v, x), None),
        (Op::LoadRegs, Operands::Reg(x)) => (spec_load_regs(v, x), None),
        (Op::Unknown, _) => (spec_not_implemented(v), None),
        _ => (v, None),
    }
}

/// Advance the program counter two further bytes, as the skip
/// instructions do.
fn skip_next(chip8: &mut Chip8)
    requires
        old(chip8).wf(),
    ensures
        final(chip8).wf(),
        final(chip8)@ == (Chip8View { pc: wrap16(old(chip8)@.pc + 2), ..old(chip8)@ }),
{
    chip8.pc = ((chip8.pc as u32 + 2) % 0x10000) as u16;
    proof {
        assert(chip8@ =~= (Chip8View { pc: wrap16(old(chip8)@.pc + 2), ..old(chip8)@ }));
    }
}

/// `0nnn - SYS addr`
///
/// Jump to a machine code routine at `nnn`.
///
/// This instruction was only used on the computers the language was
/// originally implemented on; it is ignored by modern interpreters.
pub fn sys(chip8: &mut Chip8, operands: Operands)
    requires
        old(chip8).wf(),
    ensures
        final(chip8).wf(),
        final(chip8)@ == spec_sys(old(chip8)@),
{
    let _ = operands;
}

/// An unrecognized opcode pattern: treated as a no-op, never fatal; the
/// front end may log it.
pub fn not_implemented(chip8: &mut Chip8, operands: Operands)
    requires
        old(chip8).wf(),
    ensures
        final(chip8).wf(),
        final(chip8)@ == spec_not_implemented(old(chip8)@),
{
    let _ = operands;
}

/// `00E0 - CLS`
///
/// Clear the display.
pub fn clear(chip8: &mut Chip8, operands: Operands)
    requires
        old(chip8).wf(),
    ensures
        final(chip8).wf(),
        final(chip8)@ == spec_clear(old(chip8)@),
{
    let _ = operands;
    let mut k: usize = 0;
    while k < chip8.fb.len()
        invariant
            chip8@ == (Chip8View { fb: chip8@.fb, ..old(chip8)@ }),
            chip8@.fb.len() == old(chip8)@.fb.len(),
            k <= chip8@.fb.len(),
            forall|i: int| 0 <= i < k ==> chip8@.fb[i] == false,
            forall|i: int| k <= i < chip8@.fb.len() ==> chip8@.fb[i] == old(chip8)@.fb[i],
        decreases chip8@.fb.len() - k,
    {
        chip8.fb[k] = false;
        k = k + 1;
    }
    proof {
        assert(chip8@ =~= spec_clear(old(chip8)@));
    }
}

/// `00EE - RET`
///
/// Return from a subroutine: the program counter is set to the address
/// on top of the stack, which pops.  With no pending return address the
/// machine halts and the fault is reported.
pub fn ret(chip8: &mut Chip8, operands: Operands) -> (r: Result<(), Chip8Error>)
    requires
        old(chip8).wf(),
    ensures
        final(chip8).wf(),
        final(chip8)@ == spec_ret(old(chip8)@).0,
        matches_fault(r, spec_ret(old(chip8)@).1),
{
    let _ = operands;
    match chip8.pop() {
        Ok(addr) => {
            chip8.pc = addr;
            proof {
                assert(chip8@ =~= spec_ret(old(chip8)@).0);
            }
            Ok(())
        },
        Err(e) => {
            chip8.state = RunState::Halted;
            proof {
                assert(chip8@ =~= spec_ret(old(chip8)@).0);
            }
            Err(e)
        },
    }
}

/// `1nnn - JP addr`
///
/// Jump to location `nnn`.
pub fn jump(chip8: &mut Chip8, operands: Operands)
    requires
        old(chip8).wf(),
        operands matches Operands::Address(_nnn),
    ensures
        final(chip8).wf(),
        (operands matches Operands::Address(nnn) ==> final(chip8)@ == spec_jump(
            old(chip8)@,
            nnn,
        )),
{
    match operands {
        Operands::Address(nnn) => {
            chip8.pc = nnn;
            proof {
                assert(chip8@ =~= spec_jump(old(chip8)@, nnn));
            }
        },
        _ => {},
    }
}

/// `2nnn - CALL addr`
///
/// Call the subroutine at `nnn`: the current (already advanced) program
/// counter is pushed, then the program counter becomes `nnn`.  With all
/// sixteen stack slots in use the machine halts and the fault is
/// reported.
pub fn call(chip8: &mut Chip8, operands: Operands) -> (r: Result<(), Chip8Error>)
    requires
        old(chip8).wf(),
        operands matches Operands::Address(_nnn),
    ensures
        final(chip8).wf(),
        (operands matches Operands::Address(nnn) ==> final(chip8)@ == spec_call(
            old(chip8)@,
            nnn,
        ).0 && matches_fault(r, spec_call(old(chip8)@, nnn).1)),
{
    match operands {
        Operands::Address(nnn) => {
            let here = chip8.pc;
            match chip8.push(here) {
                Ok(_) => {
                    chip8.pc = nnn;
                    proof {
                        assert(chip8@ =~= spec_call(old(chip8)@, nnn).0);
                    }
                    Ok(())
                },
                Err(e) => {
                    chip8.state = RunState::Halted;
                    proof {
                        assert(chip8@ =~= spec_call(old(chip8)@, nnn).0);
                    }
                    Err(e)
                },
            }
        },
        _ => Ok(()),
    }
}

/// `3xkk - SE Vx, byte`
///
/// Skip the next instruction if `Vx == kk`.
pub fn skip_eq_byte(chip8: &mut Chip8, operands: Operands)
    requires
        old(chip8).wf(),
        operands matches Operands::RegAndConst(x, _kk) && x < 16,
    ensures
        final(chip8).wf(),
        (operands matches Operands::RegAndConst(x, kk) ==> final(chip8)@ == spec_skip_eq_byte(
            old(chip8)@,
            x,
            kk,
        )),
{
    match operands {
        Operands::RegAndConst(x, kk) => {
            if chip8.regs.read(x) == kk {
                skip_next(chip8);
            }
        },
        _ => {},
    }
}

/// `4xkk - SNE Vx, byte`
///
/// Skip the next instruction if `Vx != kk`.
pub fn skip_ne_byte(chip8: &mut Chip8, operands: Operands)
    requires
        old(chip8).wf(),
        operands matches Operands::RegAndConst(x, _kk) && x < 16,
    ensures
        final(chip8).wf(),
        (operands matches Operands::RegAndConst(x, kk) ==> final(chip8)@ == spec_skip_ne_byte(
            old(chip8)@,
            x,
            kk,
        )),
{
    match operands {
        Operands::RegAndConst(x, kk) => {
            if chip8.regs.read(x) != kk {
                skip_next(chip8);
            }
        },
        _ => {},
    }
}

/// `5xy0 - SE Vx, Vy`
///
/// Skip the next instruction if `Vx == Vy`.
pub fn skip_eq(chip8: &mut Chip8, operands: Operands)
    requires
        old(chip8).wf(),
        operands matches Operands::Regs(x, y) && x < 16 && y < 16,
    ensures
        final(chip8).wf(),
        (operands matches Operands::Regs(x, y) ==> final(chip8)@ == spec_skip_eq(
            old(chip8)@,
            x,
            y,
        )),
{
    match operands {
        Operands::Regs(x, y) => {
            if chip8.regs.read(x) == chip8.regs.read(y) {
                skip_next(chip8);
            }
        },
        _ => {},
    }
}

/// `9xy0 - SNE Vx, Vy`
///
/// Skip the next instruction if `Vx != Vy`.
pub fn skip_ne(chip8: &mut Chip8, operands: Operands)
    requires
        old(chip8).wf(),
        operands matches Operands::Regs(x, y) && x < 16 && y < 16,
    ensures
        final(chip8).wf(),
        (operands matches Operands::Regs(x, y) ==> final(chip8)@ == spec_skip_ne(
            old(chip8)@,
            x,
            y,
        )),
{
    match operands {
        Operands::Regs(x, y) => {
            if chip8.regs.read(x) != chip8.regs.read(y) {
                skip_next(chip8);
            }
        },
        _ => {},
    }
}

/// `6xkk - LD Vx, byte`
///
/// Set `Vx = kk`.
pub fn load_byte(chip8: &mut Chip8, operands: Operands)
    requires
        old(chip8).wf(),
        operands matches Operands::RegAndConst(x, _kk) && x < 16,
    ensures
        final(chip8).wf(),
        (operands matches Operands::RegAndConst(x, kk) ==> final(chip8)@ == spec_load_byte(
            old(chip8)@,
            x,
            kk,
        )),
{
    match operands {
        Operands::RegAndConst(x, kk) => {
            chip8.regs.write(x, kk);
            proof {
                assert(chip8@ =~= spec_load_byte(old(chip8)@, x, kk));
            }
        },
        _ => {},
    }
}

/// `7xkk - ADD Vx, byte`
///
/// Set `Vx = Vx + kk`, wrapping at 256; the flag register is untouched.
pub fn add_byte(chip8: &mut Chip8, operands: Operands)
    requires
        old(chip8).wf(),
        operands matches Operands::RegAndConst(x, _kk) && x < 16,
    ensures
        final(chip8).wf(),
        (operands matches Operands::RegAndConst(x, kk) ==> final(chip8)@ == spec_add_byte(
            old(chip8)@,
            x,
            kk,
        )),
{
    match operands {
        Operands::RegAndConst(x, kk) => {
            let vx = chip8.regs.read(x);
            let sum = ((vx as u16 + kk as u16) % 0x100) as u8;
            chip8.regs.write(x, sum);
            proof {
                assert(chip8@ =~= spec_add_byte(old(chip8)@, x, kk));
            }
        },
        _ => {},
    }
}

/// `8xy0 - LD Vx, Vy`
///
/// Set `Vx = Vy`.
pub fn load(chip8: &mut Chip8, operands: Operands)
    requires
        old(chip8).wf(),
        operands matches Operands::Regs(x, y) && x < 16 && y < 16,
    ensures
        final(chip8).wf(),
        (operands matches Operands::Regs(x, y) ==> final(chip8)@ == spec_load(old(chip8)@, x, y)),
{
    match operands {
        Operands::Regs(x, y) => {
            let vy = chip8.regs.read(y);
            chip8.regs.write(x, vy);
            proof {
                assert(chip8@ =~= spec_load(old(chip8)@, x, y));
            }
        },
        _ => {},
    }
}

/// `8xy1 - OR Vx, Vy`
///
/// Set `Vx = Vx | Vy`, the bitwise OR.
pub fn or(chip8: &mut Chip8, operands: Operands)
    requires
        old(chip8).wf(),
        operands matches Operands::Regs(x, y) && x < 16 && y < 16,
    ensures
        final(chip8).wf(),
        (operands matches Operands::Regs(x, y) ==> final(chip8)@ == spec_or(old(chip8)@, x, y)),
{
    match operands {
        Operands::Regs(x, y) => {
            let vx = chip8.regs.read(x);
            let vy = chip8.regs.read(y);
            chip8.regs.write(x, vx | vy);
            proof {
                assert(chip8@ =~= spec_or(old(chip8)@, x, y));
            }
        },
        _ => {},
    }
}

/// `8xy2 - AND Vx, Vy`
///
/// Set `Vx = Vx & Vy`, the bitwise AND.
pub fn and(chip8: &mut Chip8, operands: Operands)
    requires
        old(chip8).wf(),
        operands matches Operands::Regs(x, y) && x < 16 && y < 16,
    ensures
        final(chip8).wf(),
        (operands matches Operands::Regs(x, y) ==> final(chip8)@ == spec_and(old(chip8)@, x, y)),
{
    match operands {
        Operands::Regs(x, y) => {
            let vx = chip8.regs.read(x);
            let vy = chip8.regs.read(y);
            chip8.regs.write(x, vx & vy);
            proof {
                assert(chip8@ =~= spec_and(old(chip8)@, x, y));
            }
        },
        _ => {},
    }
}

/// `8xy3 - XOR Vx, Vy`
///
/// Set `Vx = Vx ^ Vy`, the bitwise exclusive OR.
pub fn xor(chip8: &mut Chip8, operands: Operands)
    requires
        old(chip8).wf(),
        operands matches Operands::Regs(x, y) && x < 16 && y < 16,
    ensures
        final(chip8).wf(),
        (operands matches Operands::Regs(x, y) ==> final(chip8)@ == spec_xor(old(chip8)@, x, y)),
{
    match operands {
        Operands::Regs(x, y) => {
            let vx = chip8.regs.read(x);
            let vy = chip8.regs.read(y);
            chip8.regs.write(x, vx ^ vy);
            proof {
                assert(chip8@ =~= spec_xor(old(chip8)@, x, y));
            }
        },
        _ => {},
    }
}

/// `8xy4 - ADD Vx, Vy`
///
/// Set `VF` to the carry of `Vx + Vy` — 1 when the sum exceeds 255,
/// else 0 — and `Vx` to the sum modulo 256.
pub fn add(chip8: &mut Chip8, operands: Operands)
    requires
        old(chip8).wf(),
        operands matches Operands::Regs(x, y) && x < 16 && y < 16,
    ensures
        final(chip8).wf(),
        (operands matches Operands::Regs(x, y) ==> final(chip8)@ == spec_add(old(chip8)@, x, y)),
{
    match operands {
        Operands::Regs(x, y) => {
            let vx = chip8.regs.read(x);
            let vy = chip8.regs.read(y);
            let sum = vx as u16 + vy as u16;
            let carry: u8 = if sum > 0xFF {
                1
            } else {
                0
            };
            chip8.regs.write(FLAG_REG, carry);
            chip8.regs.write(x, (sum % 0x100) as u8);
            proof {
                assert(chip8@ =~= spec_add(old(chip8)@, x, y));
            }
        },
        _ => {},
    }
}

/// `8xy5 - SUB Vx, Vy`
///
/// Set `VF` to 1 exactly when no borrow occurs (`Vx >= Vy`), and `Vx` to
/// the wrapping difference `Vx - Vy`.
pub fn sub(chip8: &mut Chip8, operands: Operands)
    requires
        old(chip8).wf(),
        operands matches Operands::Regs(x, y) && x < 16 && y < 16,
    ensures
        final(chip8).wf(),
        (operands matches Operands::Regs(x, y) ==> final(chip8)@ == spec_sub(old(chip8)@, x, y)),
{
    match operands {
        Operands::Regs(x, y) => {
            let vx = chip8.regs.read(x);
            let vy = chip8.regs.read(y);
            let no_borrow: u8 = if vx >= vy {
                1
            } else {
                0
            };
            let diff = ((vx as u16 + 0x100 - vy as u16) % 0x100) as u8;
            chip8.regs.write(FLAG_REG, no_borrow);
            chip8.regs.write(x, diff);
            proof {
                vstd::arithmetic::div_mod::lemma_mod_add_multiples_vanish(
                    vx - vy,
                    0x100,
                );
                assert(chip8@ =~= spec_sub(old(chip8)@, x, y));
            }
        },
        _ => {},
    }
}

/// `8xy6 - SHR Vx`
///
/// Set `VF` to the least-significant bit of `Vx`, then halve `Vx`.
pub fn shift_right(chip8: &mut Chip8, operands: Operands)
    requires
        old(chip8).wf(),
        operands matches Operands::Reg(x) && x < 16,
    ensures
        final(chip8).wf(),
        (operands matches Operands::Reg(x) ==> final(chip8)@ == spec_shift_right(old(chip8)@, x)),
{
    match operands {
        Operands::Reg(x) => {
            let vx = chip8.regs.read(x);
            chip8.regs.write(FLAG_REG, vx % 2);
            chip8.regs.write(x, vx / 2);
            proof {
                assert(chip8@ =~= spec_shift_right(old(chip8)@, x));
            }
        },
        _ => {},
    }
}

/// `8xy7 - SUBN Vx, Vy`
///
/// Set `VF` to 1 exactly when no borrow occurs (`Vy >= Vx`), and `Vx` to
/// the wrapping difference `Vy - Vx`.
pub fn sub_inv(chip8: &mut Chip8, operands: Operands)
    requires
        old(chip8).wf(),
        operands matches Operands::Regs(x, y) && x < 16 && y < 16,
    ensures
        final(chip8).wf(),
        (operands matches Operands::Regs(x, y) ==> final(chip8)@ == spec_sub_inv(
            old(chip8)@,
            x,
            y,
        )),
{
    match operands {
        Operands::Regs(x, y) => {
            let vx = chip8.regs.read(x);
            let vy = chip8.regs.read(y);
            let no_borrow: u8 = if vy >= vx {
                1
            } else {
                0
            };
            let diff = ((vy as u16 + 0x100 - vx as u16) % 0x100) as u8;
            chip8.regs.write(FLAG_REG, no_borrow);
            chip8.regs.write(x, diff);
            proof {
                vstd::arithmetic::div_mod::lemma_mod_add_multiples_vanish(
                    vy - vx,
                    0x100,
                );
                assert(chip8@ =~= spec_sub_inv(old(chip8)@, x, y));
            }
        },
        _ => {},
    }
}

/// `8xyE - SHL Vx`
///
/// Set `VF` to the most-significant bit of `Vx`, then double `Vx`
/// modulo 256.
pub fn shift_left(chip8: &mut Chip8, operands: Operands)
    requires
        old(chip8).wf(),
        operands matches Operands::Reg(x) && x < 16,
    ensures
        final(chip8).wf(),
        (operands matches Operands::Reg(x) ==> final(chip8)@ == spec_shift_left(old(chip8)@, x)),
{
    match operands {
        Operands::Reg(x) => {
            let vx = chip8.regs.read(x);
            chip8.regs.write(FLAG_REG, vx / 0x80);
            chip8.regs.write(x, ((vx as u16 * 2) % 0x100) as u8);
            proof {
                assert(chip8@ =~= spec_shift_left(old(chip8)@, x));
            }
        },
        _ => {},
    }
}

/// `Annn - LD I, addr`
///
/// Set `I = nnn`.
pub fn load_i(chip8: &mut Chip8, operands: Operands)
    requires
        old(chip8).wf(),
        operands matches Operands::Address(nnn) && nnn < 0x1000,
    ensures
        final(chip8).wf(),
        (operands matches Operands::Address(nnn) ==> final(chip8)@ == spec_load_i(
            old(chip8)@,
            nnn,
        )),
{
    match operands {
        Operands::Address(nnn) => {
            chip8.i = nnn;
            proof {
                assert(chip8@ =~= spec_load_i(old(chip8)@, nnn));
            }
        },
        _ => {},
    }
}

/// `Bnnn - JP V0, addr`
///
/// Jump to location `nnn + V0`.
pub fn jump0(chip8: &mut Chip8, operands: Operands)
    requires
        old(chip8).wf(),
        operands matches Operands::Address(nnn) && nnn < 0x1000,
    ensures
        final(chip8).wf(),
        (operands matches Operands::Address(nnn) ==> final(chip8)@ == spec_jump0(
            old(chip8)@,
            nnn,
        )),
{
    match operands {
        Operands::Address(nnn) => {
            let v0 = chip8.regs.read(0);
            chip8.pc = nnn + v0 as u16;
            proof {
                assert(chip8@ =~= spec_jump0(old(chip8)@, nnn));
            }
        },
        _ => {},
    }
}

/// `Cxkk - RND Vx, byte`
///
/// Set `Vx` to the supplied random byte masked with `kk`.  The byte
/// comes from the front end's source of randomness; the semantics here
/// hold whatever value arrives.
pub fn rand_byte(chip8: &mut Chip8, operands: Operands, rnd: u8)
    requires
        old(chip8).wf(),
        operands matches Operands::RegAndConst(x, _kk) && x < 16,
    ensures
        final(chip8).wf(),
        (operands matches Operands::RegAndConst(x, kk) ==> final(chip8)@ == spec_rand_byte(
            old(chip8)@,
            x,
            kk,
            rnd,
        )),
{
    match operands {
        Operands::RegAndConst(x, kk) => {
            chip8.regs.write(x, rnd & kk);
            proof {
                assert(chip8@ =~= spec_rand_byte(old(chip8)@, x, kk, rnd));
            }
        },
        _ => {},
    }
}

/// `Dxyn - DRW Vx, Vy, nibble`
///
/// Read `n` bytes of sprite from memory starting at `I` (each address
/// masked to 12 bits) and XOR-blit them onto the display at
/// `(Vx, Vy)` with coordinate wraparound.  `VF` becomes 1 exactly when
/// a lit pixel is erased.
pub fn draw_sprite(chip8: &mut Chip8, operands: Operands)
    requires
        old(chip8).wf(),
        operands matches Operands::RegsAndConst(x, y, n) && x < 16 && y < 16 && n < 16,
    ensures
        final(chip8).wf(),
        (operands matches Operands::RegsAndConst(x, y, n) ==> final(chip8)@ == spec_draw_sprite(
            old(chip8)@,
            x,
            y,
            n,
        )),
{
    match operands {
        Operands::RegsAndConst(x, y, n) => {
            let mut sprite: Vec<u8> = Vec::new();
            let mut k: u8 = 0;
            while k < n
                invariant
                    old(chip8).wf(),
                    chip8@ == old(chip8)@,
                    n < 16,
                    k <= n,
                    sprite@.len() == k as int,
                    forall|j: int|
                        0 <= j < k ==> sprite@[j] == old(chip8)@.ram[(old(chip8)@.i + j) % 0x1000],
                decreases n - k,
            {
                let a = Addr::new(chip8.i + k as u16);
                let b = chip8.ram.read(a);
                sprite.push(b);
                k = k + 1;
            }
            proof {
                assert(sprite@ =~= Seq::new(
                    n as nat,
                    |j: int| old(chip8)@.ram[(old(chip8)@.i + j) % 0x1000],
                ));
            }
            let vx = chip8.regs.read(x);
            let vy = chip8.regs.read(y);
            let collided = chip8.draw(vx, vy, &sprite);
            let vf: u8 = if collided {
                1
            } else {
                0
            };
            chip8.regs.write(FLAG_REG, vf);
            proof {
                assert(chip8@ =~= spec_draw_sprite(old(chip8)@, x, y, n));
            }
        },
        _ => {},
    }
}

/// `Ex9E - SKP Vx`
///
/// Skip the next instruction if the key named by the low nibble of `Vx`
/// is down in the keypad snapshot.
pub fn skip_pressed(chip8: &mut Chip8, operands: Operands)
    requires
        old(chip8).wf(),
        operands matches Operands::Reg(x) && x < 16,
    ensures
        final(chip8).wf(),
        (operands matches Operands::Reg(x) ==> final(chip8)@ == spec_skip_pressed(
            old(chip8)@,
            x,
        )),
{
    match operands {
        Operands::Reg(x) => {
            let key = chip8.regs.read(x) % 0x10;
            if chip8.keys[key as usize] {
                skip_next(chip8);
            }
        },
        _ => {},
    }
}

/// `ExA1 - SKNP Vx`
///
/// Skip the next instruction if the key named by the low nibble of `Vx`
/// is up in the keypad snapshot.
pub fn skip_not_pressed(chip8: &mut Chip8, operands: Operands)
    requires
        old(chip8).wf(),
        operands matches Operands::Reg(x) && x < 16,
    ensures
        final(chip8).wf(),
        (operands matches Operands::Reg(x) ==> final(chip8)@ == spec_skip_not_pressed(
            old(chip8)@,
            x,
        )),
{
    match operands {
        Operands::Reg(x) => {
            let key = chip8.regs.read(x) % 0x10;
            if !chip8.keys[key as usize] {
                skip_next(chip8);
            }
        },
        _ => {},
    }
}

/// `Fx07 - LD Vx, DT`
///
/// Set `Vx` to the delay timer value.
pub fn load_dt(chip8: &mut Chip8, operands: Operands)
    requires
        old(chip8).wf(),
        operands matches Operands::Reg(x) && x < 16,
    ensures
        final(chip8).wf(),
        (operands matches Operands::Reg(x) ==> final(chip8)@ == spec_load_dt(old(chip8)@, x)),
{
    match operands {
        Operands::Reg(x) => {
            let dt = chip8.dt;
            chip8.regs.write(x, dt);
            proof {
                assert(chip8@ =~= spec_load_dt(old(chip8)@, x));
            }
        },
        _ => {},
    }
}

/// `Fx0A - LD Vx, K`
///
/// Suspend the instruction cycle until a key press is observed; the key
/// value then lands in `Vx` and execution resumes.  The suspension is a
/// state, not a busy wait: the timers keep running.
pub fn wait_for_key(chip8: &mut Chip8, operands: Operands)
    requires
        old(chip8).wf(),
        operands matches Operands::Reg(x) && x < 16,
    ensures
        final(chip8).wf(),
        (operands matches Operands::Reg(x) ==> final(chip8)@ == spec_wait_for_key(
            old(chip8)@,
            x,
        )),
{
    match operands {
        Operands::Reg(x) => {
            chip8.state = RunState::WaitingForKey(x);
            proof {
                assert(chip8@ =~= spec_wait_for_key(old(chip8)@, x));
            }
        },
        _ => {},
    }
}

/// `Fx15 - LD DT, Vx`
///
/// Set the delay timer to `Vx`.
pub fn set_delay_timer(chip8: &mut Chip8, operands: Operands)
    requires
        old(chip8).wf(),
        operands matches Operands::Reg(x) && x < 16,
    ensures
        final(chip8).wf(),
        (operands matches Operands::Reg(x) ==> final(chip8)@ == spec_set_delay_timer(
            old(chip8)@,
            x,
        )),
{
    match operands {
        Operands::Reg(x) => {
            chip8.dt = chip8.regs.read(x);
            proof {
                assert(chip8@ =~= spec_set_delay_timer(old(chip8)@, x));
            }
        },
        _ => {},
    }
}

/// `Fx18 - LD ST, Vx`
///
/// Set the sound timer to `Vx`.
pub fn set_sound_timer(chip8: &mut Chip8, operands: Operands)
    requires
        old(chip8).wf(),
        operands matches Operands::Reg(x) && x < 16,
    ensures
        final(chip8).wf(),
        (operands matches Operands::Reg(x) ==> final(chip8)@ == spec_set_sound_timer(
            old(chip8)@,
            x,
        )),
{
    match operands {
        Operands::Reg(x) => {
            chip8.st = chip8.regs.read(x);
            proof {
                assert(chip8@ =~= spec_set_sound_timer(old(chip8)@, x));
            }
        },
        _ => {},
    }
}

/// `Fx1E - ADD I, Vx`
///
/// Set `I = I + Vx`, masked to the 12 significant address bits.
pub fn add_i(chip8: &mut Chip8, operands: Operands)
    requires
        old(chip8).wf(),
        operands matches Operands::Reg(x) && x < 16,
    ensures
        final(chip8).wf(),
        (operands matches Operands::Reg(x) ==> final(chip8)@ == spec_add_i(old(chip8)@, x)),
{
    match operands {
        Operands::Reg(x) => {
            let vx = chip8.regs.read(x);
            chip8.i = (chip8.i + vx as u16) % 0x1000;
            proof {
                assert(chip8@ =~= spec_add_i(old(chip8)@, x));
            }
        },
        _ => {},
    }
}

/// `Fx29 - LD F, Vx`
///
/// Point `I` at the built-in sprite of the hex digit named by the low
/// nibble of `Vx`: the glyphs sit five bytes apart from the bottom of
/// the reserved interpreter region.
pub fn load_sprite(chip8: &mut Chip8, operands: Operands)
    requires
        old(chip8).wf(),
        operands matches Operands::Reg(x) && x < 16,
    ensures
        final(chip8).wf(),
        (operands matches Operands::Reg(x) ==> final(chip8)@ == spec_load_sprite(old(chip8)@, x)),
{
    match operands {
        Operands::Reg(x) => {
            let digit = chip8.regs.read(x) % 0x10;
            chip8.i = digit as u16 * 5;
            proof {
                assert(chip8@ =~= spec_load_sprite(old(chip8)@, x));
            }
        },
        _ => {},
    }
}

/// `Fx33 - LD B, Vx`
///
/// Store the BCD representation of `Vx`: the hundreds digit at `I`, the
/// tens digit at `I + 1` and the ones digit at `I + 2`.
pub fn store_bcd(chip8: &mut Chip8, operands: Operands)
    requires
        old(chip8).wf(),
        operands matches Operands::Reg(x) && x < 16,
    ensures
        final(chip8).wf(),
        (operands matches Operands::Reg(x) ==> final(chip8)@ == spec_store_bcd(old(chip8)@, x)),
{
    match operands {
        Operands::Reg(x) => {
            let vx = chip8.regs.read(x);
            let a0 = Addr::new(chip8.i);
            let a1 = Addr::new(chip8.i + 1);
            let a2 = Addr::new(chip8.i + 2);
            chip8.ram.write(a0, vx / 100);
            chip8.ram.write(a1, (vx / 10) % 10);
            chip8.ram.write(a2, vx % 10);
            proof {
                assert(chip8@ =~= spec_store_bcd(old(chip8)@, x));
            }
        },
        _ => {},
    }
}

/// `Fx55 - LD [I], Vx`
///
/// Copy registers `V0..=Vx` into memory starting at `I`, each address
/// masked to 12 bits; `I` itself is unchanged.
pub fn store_regs(chip8: &mut Chip8, operands: Operands)
    requires
        old(chip8).wf(),
        operands matches Operands::Reg(x) && x < 16,
    ensures
        final(chip8).wf(),
        (operands matches Operands::Reg(x) ==> final(chip8)@ == spec_store_regs(old(chip8)@, x)),
{
    match operands {
        Operands::Reg(x) => {
            let mut k: u8 = 0;
            while k <= x
                invariant
                    old(chip8).wf(),
                    x < 16,
                    k <= x + 1,
                    chip8@ == (Chip8View { ram: chip8@.ram, ..old(chip8)@ }),
                    chip8@.ram.len() == RAM_SIZE,
                    forall|a: int|
                        0 <= a < RAM_SIZE ==> #[trigger] chip8@.ram[a] == (if (a - old(
                            chip8,
                        )@.i) % 0x1000 < k {
                            old(chip8)@.regs[(a - old(chip8)@.i) % 0x1000]
                        } else {
                            old(chip8)@.ram[a]
                        }),
                decreases x + 1 - k,
            {
                let a = Addr::new(chip8.i + k as u16);
                let vk = chip8.regs.read(k);
                chip8.ram.write(a, vk);
                proof {
                    let i0 = old(chip8)@.i as int;
                    crate::display::lemma_wrap_unwrap(i0, k as int, 0x1000);
                    assert forall|b: int|
                        0 <= b < RAM_SIZE && b != a@ as int implies #[trigger] ((b - i0)
                            % 0x1000) != k as int by {
                        if (b - i0) % 0x1000 == k as int {
                            crate::display::lemma_unwrap_wrap(i0, b, 0x1000);
                        }
                    }
                }
                k = k + 1;
            }
            proof {
                assert(chip8@.ram =~= spec_store_regs(old(chip8)@, x).ram);
                assert(chip8@ =~= spec_store_regs(old(chip8)@, x));
            }
        },
        _ => {},
    }
}

/// `Fx65 - LD Vx, [I]`
///
/// Copy memory starting at `I` into registers `V0..=Vx`, each address
/// masked to 12 bits; the higher registers and `I` are unchanged.
pub fn load_regs(chip8: &mut Chip8, operands: Operands)
    requires
        old(chip8).wf(),
        operands matches Operands::Reg(x) && x < 16,
    ensures
        final(chip8).wf(),
        (operands matches Operands::Reg(x) ==> final(chip8)@ == spec_load_regs(old(chip8)@, x)),
{
    match operands {
        Operands::Reg(x) => {
            let mut k: u8 = 0;
            while k <= x
                invariant
                    old(chip8).wf(),
                    x < 16,
                    k <= x + 1,
                    chip8@ == (Chip8View { regs: chip8@.regs, ..old(chip8)@ }),
                    chip8@.regs.len() == 16,
                    forall|j: int|
                        0 <= j < 16 ==> #[trigger] chip8@.regs[j] == (if j < k {
                            old(chip8)@.ram[(old(chip8)@.i + j) % 0x1000]
                        } else {
                            old(chip8)@.regs[j]
                        }),
                decreases x + 1 - k,
            {
                let a = Addr::new(chip8.i + k as u16);
                let b = chip8.ram.read(a);
                chip8.regs.write(k, b);
                k = k + 1;
            }
            proof {
                assert(chip8@.regs =~= spec_load_regs(old(chip8)@, x).regs);
                assert(chip8@ =~= spec_load_regs(old(chip8)@, x));
            }
        },
        _ => {},
    }
}

} // verus!
