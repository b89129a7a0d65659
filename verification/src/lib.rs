//! A verified CHIP-8 virtual machine core.
//!
//! The CHIP-8 is a simple 8-bit interpreted architecture: 4 KB of
//! addressable memory, sixteen general-purpose registers, a 16-level call
//! stack, two 60 Hz timers and a fixed two-byte instruction set.  This
//! crate models the central processing core — memory addressing, the
//! register file, opcode decoding and the semantics of every instruction —
//! and proves each operation against a mathematical model of the machine
//! state.  Rendering, audio and input are collaborators outside the core:
//! the core computes pixels, exposes the sound timer and reads a key
//! snapshot, and a front end drives the two clock domains (a variable-rate
//! instruction cycle and the fixed 60 Hz timer tick).

pub mod display;
pub mod error;
pub mod instruction;
pub mod memory;
pub mod opcode;
pub mod register;
pub mod types;

use vstd::prelude::*;

use error::{matches_fault, Chip8Error};
use instruction::{spec_exec, Instruction, Op};
use memory::{load_result, Ram, RAM_SIZE};
use opcode::{spec_decode_raw, OpCode, Operands};
use register::{Regs, NUM_GP_REGS, PROGRAM_START};
use types::Addr;

verus! {

/// Capacity of the call stack: up to 16 nested subroutines.
pub const STACK_SIZE: usize = 16;

/// Width of the display in pixels.
pub const DISPLAY_WIDTH: usize = 64;

/// Height of the display in pixels.
pub const DISPLAY_HEIGHT: usize = 32;

/// Number of pixels of the monochrome framebuffer.
pub const FB_SIZE: usize = 64 * 32;

/// Number of keys of the keypad.
pub const NUM_KEYS: usize = 16;

/// Execution state of the machine.
///
/// `WaitingForKey(x)` suspends the instruction cycle until a key press is
/// observed, which lands in `Vx`; the timers keep running.  `Halted` is
/// terminal: it is entered on a fatal stack fault or an external stop
/// request, and no further cycle has any effect.
#[derive(Debug, Copy, Clone, PartialEq, Eq, Structural)]
pub enum RunState {
    /// Fetching, decoding and executing instructions.
    Running,
    /// Suspended until a key press arrives; the payload is the index of
    /// the register that receives the key value.
    WaitingForKey(u8),
    /// Stopped for good.
    Halted,
}

/// The mathematical model of the whole machine state.
///
/// Every public operation of the core states its effect as a relation
/// between the machine's view before and after the call.
#[verifier::ext_equal]
pub ghost struct Chip8View {
    /// The 4096 bytes of RAM.
    pub ram: Seq<u8>,
    /// The sixteen registers `V0..=VF`.
    pub regs: Seq<u8>,
    /// The address register `I`; semantically 12-bit.
    pub i: u16,
    /// The program counter.
    pub pc: u16,
    /// The delay timer.
    pub dt: u8,
    /// The sound timer.
    pub st: u8,
    /// The call stack of return addresses, most recent last.
    pub stack: Seq<u16>,
    /// The monochrome framebuffer, row-major, `true` for a lit pixel.
    pub fb: Seq<bool>,
    /// The keypad snapshot, `true` for a held key.
    pub keys: Seq<bool>,
    /// The execution state.
    pub state: RunState,
}

/// Well-formedness of a machine view: every component has its fixed size,
/// the stack never exceeds its 16 slots, and the address register stays
/// within its 12 significant bits.
pub open spec fn view_wf(v: Chip8View) -> bool {
    &&& v.ram.len() == RAM_SIZE
    &&& v.regs.len() == NUM_GP_REGS
    &&& v.stack.len() <= STACK_SIZE
    &&& v.fb.len() == FB_SIZE
    &&& v.keys.len() == NUM_KEYS
    &&& v.i < 0x1000
    &&& (v.state matches RunState::WaitingForKey(x) ==> x < NUM_GP_REGS)
}

/// The state of a machine fresh out of [`Chip8::new`]: zero-filled memory
/// and registers, the program counter at the program start address, and
/// everything else empty, dark and running.
pub open spec fn initial_view() -> Chip8View {
    Chip8View {
        ram: Seq::new(RAM_SIZE as nat, |i: int| 0u8),
        regs: Seq::new(NUM_GP_REGS as nat, |i: int| 0u8),
        i: 0,
        pc: PROGRAM_START,
        dt: 0,
        st: 0,
        stack: Seq::empty(),
        fb: Seq::new(FB_SIZE as nat, |i: int| false),
        keys: Seq::new(NUM_KEYS as nat, |i: int| false),
        state: RunState::Running,
    }
}

/// A 16-bit wrap of an arbitrary integer, as the program counter uses.
pub open spec fn wrap16(x: int) -> u16 {
    (x % 0x10000) as u16
}

/// A timer value after one 60 Hz tick: decremented when nonzero, resting
/// at zero otherwise.
pub open spec fn dec_to_zero(t: u8) -> u8 {
    if t > 0 {
        (t - 1) as u8
    } else {
        0
    }
}

/// One 60 Hz timer tick: both timers decrement toward zero and nothing
/// else moves.
pub open spec fn tick_spec(v: Chip8View) -> Chip8View {
    Chip8View { dt: dec_to_zero(v.dt), st: dec_to_zero(v.st), ..v }
}

/// The 16-bit word fetched at `idx`: big-endian, high byte first, both
/// addresses masked to 12 bits.
pub open spec fn fetch_spec(v: Chip8View, idx: u16) -> u16 {
    let a0 = idx as int % 0x1000;
    let a1 = (a0 + 1) % 0x1000;
    (v.ram[a0] * 0x100 + v.ram[a1]) as u16
}

/// The machine and fault after one instruction cycle.
///
/// A running machine fetches the two bytes at the program counter,
/// advances the counter past them, decodes, and applies the
/// instruction's effect — so jumps, calls and skips overwrite the
/// advanced counter.  A waiting or halted machine does nothing.
pub open spec fn spec_cycle(v: Chip8View, rnd: u8) -> (Chip8View, Option<Chip8Error>) {
    if !(v.state is Running) {
        (v, None)
    } else {
        let opw = fetch_spec(v, v.pc);
        let advanced = Chip8View { pc: wrap16(v.pc + 2), ..v };
        let d = spec_decode_raw(opw);
        spec_exec(advanced, Instruction { opcode: OpCode(opw), operands: d.1, op: d.0 }, rnd)
    }
}

/// The CHIP-8 machine: memory, register file, timers, call stack,
/// framebuffer, keypad snapshot and execution state, mutated in place for
/// the life of the virtual machine.
#[derive(Debug)]
pub struct Chip8 {
    /// System RAM.
    pub ram: Ram,
    /// General purpose registers, `V0..=VF`.
    pub(crate) regs: Regs,
    /// Address register.
    pub(crate) i: u16,
    /// Program counter.
    pub(crate) pc: u16,
    /// Delay timer.
    pub(crate) dt: u8,
    /// Sound timer.
    pub(crate) st: u8,
    /// Call stack of return addresses.
    pub(crate) stack: Vec<u16>,
    /// Monochrome framebuffer, row-major.
    pub(crate) fb: Vec<bool>,
    /// Keypad snapshot.
    pub(crate) keys: Vec<bool>,
    /// Execution state.
    pub(crate) state: RunState,
}

impl View for Chip8 {
    type V = Chip8View;

    closed spec fn view(&self) -> Chip8View {
        Chip8View {
            ram: self.ram@,
            regs: self.regs@,
            i: self.i,
            pc: self.pc,
            dt: self.dt,
            st: self.st,
            stack: self.stack@,
            fb: self.fb@,
            keys: self.keys@,
            state: self.state,
        }
    }
}

impl Default for Chip8 {
    /// A machine in its initial state, as [`Chip8::new`] gives.
    fn default() -> (r: Self)
        ensures
            r.wf(),
            r@ == initial_view(),
    {
        Self::new()
    }
}

impl Chip8 {
    /// A well-formed machine is one whose view is.
    pub open spec fn wf(&self) -> bool {
        view_wf(self@)
    }

    /// Initialize a machine to its default state.
    pub fn new() -> (r: Self)
        ensures
            r.wf(),
            r@ == initial_view(),
    {
        let mut fb: Vec<bool> = Vec::new();
        while fb.len() < FB_SIZE
            invariant
                fb@.len() <= FB_SIZE,
                forall|i: int| 0 <= i < fb@.len() ==> fb@[i] == false,
            decreases FB_SIZE - fb@.len(),
        {
            fb.push(false);
        }
        let mut keys: Vec<bool> = Vec::new();
        while keys.len() < NUM_KEYS
            invariant
                keys@.len() <= NUM_KEYS,
                forall|i: int| 0 <= i < keys@.len() ==> keys@[i] == false,
            decreases NUM_KEYS - keys@.len(),
        {
            keys.push(false);
        }
        let r = Self {
            ram: Ram::new(),
            regs: Regs::new(),
            i: 0x000,
            pc: PROGRAM_START,
            dt: 0x0,
            st: 0x0,
            stack: Vec::new(),
            fb,
            keys,
            state: RunState::Running,
        };
        proof {
            assert(r@ =~= initial_view());
        }
        r
    }

    /// Fetch the [`OpCode`] stored at `idx`: two bytes, high byte first.
    pub fn get_opcode(&self, idx: u16) -> (r: OpCode)
        requires
            self.wf(),
        ensures
            r@ == fetch_spec(self@, idx),
    {
        let a0 = Addr::new(idx);
        let hi = self.ram.read(a0);
        let a1 = Addr::new(a0.get() + 1);
        let lo = self.ram.read(a1);
        OpCode::from((hi, lo))
    }

    /// Push a return address onto the call stack; fails with a stack
    /// overflow when all 16 slots are in use.
    pub fn push(&mut self, addr: u16) -> (r: Result<(), Chip8Error>)
        requires
            old(self).wf(),
        ensures
            final(self).wf(),
            old(self)@.stack.len() < STACK_SIZE ==> r is Ok && final(self)@ == (Chip8View {
                stack: old(self)@.stack.push(addr),
                ..old(self)@
            }),
            old(self)@.stack.len() >= STACK_SIZE ==> r == Err::<(), Chip8Error>(
                Chip8Error::StackOverflow,
            ) && final(self)@ == old(self)@,
    {
        if self.stack.len() < STACK_SIZE {
            self.stack.push(addr);
            proof {
                assert(self@ =~= (Chip8View { stack: old(self)@.stack.push(addr), ..old(self)@ }));
            }
            Ok(())
        } else {
            Err(Chip8Error::StackOverflow)
        }
    }

    /// Pop the most recent return address; fails with a stack underflow
    /// when no call is pending.
    pub fn pop(&mut self) -> (r: Result<u16, Chip8Error>)
        requires
            old(self).wf(),
        ensures
            final(self).wf(),
            old(self)@.stack.len() > 0 ==> r == Ok::<u16, Chip8Error>(old(self)@.stack.last())
                && final(self)@ == (Chip8View {
                stack: old(self)@.stack.drop_last(),
                ..old(self)@
            }),
            old(self)@.stack.len() == 0 ==> r == Err::<u16, Chip8Error>(
                Chip8Error::StackUnderflow,
            ) && final(self)@ == old(self)@,
    {
        match self.stack.pop() {
            Some(addr) => {
                proof {
                    assert(self@ =~= (Chip8View {
                        stack: old(self)@.stack.drop_last(),
                        ..old(self)@
                    }));
                }
                Ok(addr)
            },
            None => Err(Chip8Error::StackUnderflow),
        }
    }

    /// Load a program image into memory at the program start address.
    ///
    /// Fails with a capacity error — leaving memory untouched — when the
    /// image is larger than the memory past the start address.
    pub fn load_program(&mut self, bytes: &Vec<u8>) -> (r: Result<(), Chip8Error>)
        requires
            old(self).wf(),
        ensures
            final(self).wf(),
            r is Ok <==> bytes@.len() <= RAM_SIZE - PROGRAM_START,
            r is Ok ==> final(self)@ == (Chip8View {
                ram: load_result(old(self)@.ram, bytes@, PROGRAM_START as int),
                ..old(self)@
            }),
            r is Err ==> final(self)@ == old(self)@ && r == Err::<(), Chip8Error>(
                Chip8Error::Capacity,
            ),
    {
        let r = self.ram.load(bytes, Addr::new(PROGRAM_START));
        proof {
            if r is Ok {
                assert(self@ =~= (Chip8View {
                    ram: load_result(old(self)@.ram, bytes@, PROGRAM_START as int),
                    ..old(self)@
                }));
            } else {
                assert(self@ =~= old(self)@);
            }
        }
        r
    }

    /// One tick of the fixed 60 Hz timer clock, independent of the
    /// instruction rate: each timer decrements when nonzero and rests at
    /// zero until set again.
    pub fn tick(&mut self)
        requires
            old(self).wf(),
        ensures
            final(self).wf(),
            final(self)@ == tick_spec(old(self)@),
    {
        if self.dt > 0 {
            self.dt = self.dt - 1;
        }
        if self.st > 0 {
            self.st = self.st - 1;
        }
        proof {
            assert(self@ =~= tick_spec(old(self)@));
        }
    }

    /// Whether the audio collaborator should emit tone: the sound timer
    /// is nonzero.
    pub fn sound_active(&self) -> (r: bool)
        ensures
            r == (self@.st > 0),
    {
        self.st > 0
    }

    /// Record a key going down or up in the keypad snapshot.
    pub fn set_key(&mut self, key: u8, down: bool)
        requires
            old(self).wf(),
            key < NUM_KEYS,
        ensures
            final(self).wf(),
            final(self)@ == (Chip8View { keys: old(self)@.keys.update(key as int, down), ..old(
                self,
            )@ }),
    {
        self.keys[key as usize] = down;
        proof {
            assert(self@ =~= (Chip8View {
                keys: old(self)@.keys.update(key as int, down),
                ..old(self)@
            }));
        }
    }

    /// Deliver a key-press event.  A machine suspended on a wait-for-key
    /// instruction stores the key value in the recorded register and
    /// resumes; any other machine is unaffected.
    pub fn press_key(&mut self, key: u8)
        requires
            old(self).wf(),
            key < NUM_KEYS,
        ensures
            final(self).wf(),
            old(self)@.state matches RunState::WaitingForKey(x) ==> final(self)@ == (Chip8View {
                regs: old(self)@.regs.update(x as int, key),
                state: RunState::Running,
                ..old(self)@
            }),
            !(old(self)@.state is WaitingForKey) ==> final(self)@ == old(self)@,
    {
        match self.state {
            RunState::WaitingForKey(x) => {
                self.regs.write(x, key);
                self.state = RunState::Running;
                proof {
                    assert(self@ =~= (Chip8View {
                        regs: old(self)@.regs.update(x as int, key),
                        state: RunState::Running,
                        ..old(self)@
                    }));
                }
            },
            _ => {},
        }
    }

    /// An external stop request: the machine halts for good.
    pub fn halt(&mut self)
        requires
            old(self).wf(),
        ensures
            final(self).wf(),
            final(self)@ == (Chip8View { state: RunState::Halted, ..old(self)@ }),
    {
        self.state = RunState::Halted;
        proof {
            assert(self@ =~= (Chip8View { state: RunState::Halted, ..old(self)@ }));
        }
    }

    /// The program counter.
    pub fn pc(&self) -> (r: u16)
        ensures
            r == self@.pc,
    {
        self.pc
    }

    /// The address register `I`.
    pub fn i_reg(&self) -> (r: u16)
        ensures
            r == self@.i,
    {
        self.i
    }

    /// The delay timer.
    pub fn delay_timer(&self) -> (r: u8)
        ensures
            r == self@.dt,
    {
        self.dt
    }

    /// The sound timer.
    pub fn sound_timer(&self) -> (r: u8)
        ensures
            r == self@.st,
    {
        self.st
    }

    /// The register `Vx`.
    pub fn v_reg(&self, x: u8) -> (r: u8)
        requires
            self.wf(),
            x < NUM_GP_REGS,
        ensures
            r == self@.regs[x as int],
    {
        self.regs.read(x)
    }

    /// How many calls are pending on the stack.
    pub fn stack_len(&self) -> (r: usize)
        ensures
            r == self@.stack.len(),
    {
        self.stack.len()
    }

    /// The execution state.
    pub fn run_state(&self) -> (r: RunState)
        ensures
            r == self@.state,
    {
        self.state
    }

    /// One instruction cycle: fetch at the program counter, advance it
    /// by two, decode and execute.  The random byte feeds only the
    /// random-number instruction; the semantics hold whatever value
    /// arrives.  A stack fault halts the machine and is reported; a
    /// waiting or halted machine is left exactly as it is.
    pub fn cycle(&mut self, rnd: u8) -> (r: Result<(), Chip8Error>)
        requires
            old(self).wf(),
        ensures
            final(self).wf(),
            final(self)@ == spec_cycle(old(self)@, rnd).0,
            matches_fault(r, spec_cycle(old(self)@, rnd).1),
    {
        match self.state {
            RunState::Running => {},
            _ => {
                return Ok(());
            },
        }
        let opcode = self.get_opcode(self.pc);
        let inst = opcode.decode();
        self.pc = ((self.pc as u32 + 2) % 0x10000) as u16;
        proof {
            assert(self@ =~= (Chip8View { pc: wrap16(old(self)@.pc + 2), ..old(self)@ }));
        }
        inst.exec(self, rnd)
    }

    /// The pixel at column `col` of row `row`: `true` when lit.
    pub fn pixel(&self, col: usize, row: usize) -> (r: bool)
        requires
            self.wf(),
            col < DISPLAY_WIDTH,
            row < DISPLAY_HEIGHT,
        ensures
            r == self@.fb[row * DISPLAY_WIDTH + col],
    {
        self.fb[row * DISPLAY_WIDTH + col]
    }
}

/// Advancing a 16-bit counter by two, twice, is advancing it by four.
proof fn lemma_double_advance(pc: u16)
    ensures
        wrap16(wrap16(pc + 2) + 2) == wrap16(pc + 4),
{
    vstd::arithmetic::div_mod::lemma_mod_bound(pc + 2, 0x10000);
    vstd::arithmetic::div_mod::lemma_add_mod_noop(pc + 2, 2, 0x10000);
    vstd::arithmetic::div_mod::lemma_small_mod(2nat, 0x10000nat);
}

/// An unrecognized opcode is never fatal: the cycle that fetches one
/// reports no fault and leaves the whole machine unchanged except the
/// program counter, which advances the normal two bytes.
pub proof fn lemma_unknown_opcode_harmless(v: Chip8View, rnd: u8)
    requires
        view_wf(v),
        v.state is Running,
        spec_decode_raw(fetch_spec(v, v.pc)).0 is Unknown,
    ensures
        spec_cycle(v, rnd).1 is None,
        spec_cycle(v, rnd).0 == (Chip8View { pc: wrap16(v.pc + 2), ..v }),
{
}

/// A skip on `Vx == kk` moves the program counter exactly four bytes
/// past the instruction when the condition holds, exactly two
/// otherwise, and changes nothing else.
pub proof fn lemma_skip_eq_byte_pc(v: Chip8View, rnd: u8, x: u8, kk: u8)
    requires
        view_wf(v),
        v.state is Running,
        spec_decode_raw(fetch_spec(v, v.pc)) == (Op::SeByte, Operands::RegAndConst(x, kk)),
    ensures
        spec_cycle(v, rnd).1 is None,
        v.regs[x as int] == kk ==> spec_cycle(v, rnd).0.pc == wrap16(v.pc + 4),
        v.regs[x as int] != kk ==> spec_cycle(v, rnd).0.pc == wrap16(v.pc + 2),
        spec_cycle(v, rnd).0 == (Chip8View { pc: spec_cycle(v, rnd).0.pc, ..v }),
{
    lemma_double_advance(v.pc);
}

/// A skip on `Vx != kk` moves the program counter exactly four bytes
/// past the instruction when the condition holds, exactly two
/// otherwise, and changes nothing else.
pub proof fn lemma_skip_ne_byte_pc(v: Chip8View, rnd: u8, x: u8, kk: u8)
    requires
        view_wf(v),
        v.state is Running,
        spec_decode_raw(fetch_spec(v, v.pc)) == (Op::SneByte, Operands::RegAndConst(x, kk)),
    ensures
        spec_cycle(v, rnd).1 is None,
        v.regs[x as int] != kk ==> spec_cycle(v, rnd).0.pc == wrap16(v.pc + 4),
        v.regs[x as int] == kk ==> spec_cycle(v, rnd).0.pc == wrap16(v.pc + 2),
        spec_cycle(v, rnd).0 == (Chip8View { pc: spec_cycle(v, rnd).0.pc, ..v }),
{
    lemma_double_advance(v.pc);
}

/// A skip on `Vx == Vy` moves the program counter exactly four bytes
/// past the instruction when the condition holds, exactly two
/// otherwise, and changes nothing else.
pub proof fn lemma_skip_eq_pc(v: Chip8View, rnd: u8, x: u8, y: u8)
    requires
        view_wf(v),
        v.state is Running,
        spec_decode_raw(fetch_spec(v, v.pc)) == (Op::SeReg, Operands::Regs(x, y)),
    ensures
        spec_cycle(v, rnd).1 is None,
        v.regs[x as int] == v.regs[y as int] ==> spec_cycle(v, rnd).0.pc == wrap16(v.pc + 4),
        v.regs[x as int] != v.regs[y as int] ==> spec_cycle(v, rnd).0.pc == wrap16(v.pc + 2),
        spec_cycle(v, rnd).0 == (Chip8View { pc: spec_cycle(v, rnd).0.pc, ..v }),
{
    lemma_double_advance(v.pc);
}

/// A skip on `Vx != Vy` moves the program counter exactly four bytes
/// past the instruction when the condition holds, exactly two
/// otherwise, and changes nothing else.
pub proof fn lemma_skip_ne_pc(v: Chip8View, rnd: u8, x: u8, y: u8)
    requires
        view_wf(v),
        v.state is Running,
        spec_decode_raw(fetch_spec(v, v.pc)) == (Op::SneReg, Operands::Regs(x, y)),
    ensures
        spec_cycle(v, rnd).1 is None,
        v.regs[x as int] != v.regs[y as int] ==> spec_cycle(v, rnd).0.pc == wrap16(v.pc + 4),
        v.regs[x as int] == v.regs[y as int] ==> spec_cycle(v, rnd).0.pc == wrap16(v.pc + 2),
        spec_cycle(v, rnd).0 == (Chip8View { pc: spec_cycle(v, rnd).0.pc, ..v }),
{
    lemma_double_advance(v.pc);
}

/// A call records the instruction address immediately following it —
/// the program counter was advanced before the push — and the matching
/// return restores exactly that address and the caller's stack.  The
/// return may run from any later state whose stack still holds what the
/// call left: the subroutine body in between must merely balance its own
/// calls.
pub proof fn lemma_call_ret_round_trip(v: Chip8View, w: Chip8View, rnd1: u8, rnd2: u8, nnn: u16)
    requires
        view_wf(v),
        v.state is Running,
        v.stack.len() < STACK_SIZE,
        spec_decode_raw(fetch_spec(v, v.pc)) == (Op::Call, Operands::Address(nnn)),
        view_wf(w),
        w.state is Running,
        w.stack == spec_cycle(v, rnd1).0.stack,
        spec_decode_raw(fetch_spec(w, w.pc)) == (Op::Ret, Operands::Empty),
    ensures
        spec_cycle(v, rnd1).1 is None,
        spec_cycle(v, rnd1).0.pc == nnn,
        spec_cycle(v, rnd1).0.stack == v.stack.push(wrap16(v.pc + 2)),
        spec_cycle(w, rnd2).1 is None,
        spec_cycle(w, rnd2).0.pc == wrap16(v.pc + 2),
        spec_cycle(w, rnd2).0.stack == v.stack,
{
    let recorded = wrap16(v.pc + 2);
    assert(spec_cycle(v, rnd1).0.stack == v.stack.push(recorded));
    assert(w.stack.last() == recorded);
    assert(spec_cycle(w, rnd2).0.stack =~= v.stack);
}

/// The stack's limits, exactly: a call fails — halting the machine with
/// a stack overflow — precisely when all sixteen slots are in use, and
/// a return fails with a stack underflow precisely when no call is
/// pending.
pub proof fn lemma_stack_limits(v: Chip8View, nnn: u16)
    ensures
        v.stack.len() < STACK_SIZE ==> instruction::spec_call(v, nnn).1 is None,
        v.stack.len() >= STACK_SIZE ==> instruction::spec_call(v, nnn).1 == Some(
            Chip8Error::StackOverflow,
        ) && instruction::spec_call(v, nnn).0.state is Halted,
        v.stack.len() > 0 ==> instruction::spec_ret(v).1 is None,
        v.stack.len() == 0 ==> instruction::spec_ret(v).1 == Some(Chip8Error::StackUnderflow)
            && instruction::spec_ret(v).0.state is Halted,
{
}

} // verus!

