use chip8::error::Chip8Error;
use chip8::instruction;
use chip8::instruction::{Instruction, Op};
use chip8::memory::RAM_SIZE;
use chip8::opcode::{OpCode, Operands};
use chip8::register::PROGRAM_START;
use chip8::types::Addr;
use chip8::{Chip8, RunState};

fn load(c: &mut Chip8, words: &[u16]) {
    let mut bytes: Vec<u8> = Vec::new();
    for w in words {
        bytes.push((w >> 8) as u8);
        bytes.push((w & 0xFF) as u8);
    }
    c.load_program(&bytes).unwrap();
}

#[test]
fn fresh_machine_state() {
    let c = Chip8::new();
    assert_eq!(c.pc(), PROGRAM_START);
    assert_eq!(c.i_reg(), 0);
    assert_eq!(c.delay_timer(), 0);
    assert_eq!(c.sound_timer(), 0);
    assert_eq!(c.stack_len(), 0);
    assert_eq!(c.run_state(), RunState::Running);
    for x in 0..16 {
        assert_eq!(c.v_reg(x), 0);
    }
    assert_eq!(c.ram.read(Addr::new(0x200)), 0);
}

#[test]
fn get_opcode_is_big_endian() {
    let mut c = Chip8::new();
    c.ram.write(Addr::new(0x300), 0xFA);
    c.ram.write(Addr::new(0x301), 0xCE);
    let op = c.get_opcode(0x300);
    assert_eq!(op, OpCode::from((0xFA, 0xCE)));
    assert_eq!(op.to_match_tuple(), (0xF, 0xA, 0xC, 0xE));
}

#[test]
fn unknown_opcode_is_skipped() {
    let mut c = Chip8::new();
    // 5xy1 is not an instruction: the cycle must treat it as a no-op.
    load(&mut c, &[0x5121]);
    let inst = c.get_opcode(c.pc()).decode();
    assert_eq!(inst.name(), "???");
    c.cycle(0).unwrap();
    assert_eq!(c.pc(), PROGRAM_START + 2);
    assert_eq!(c.run_state(), RunState::Running);
    for x in 0..16 {
        assert_eq!(c.v_reg(x), 0);
    }
}

#[test]
fn every_word_decodes() {
    // The decoder is a total function: decoding can be exercised on a
    // sweep of words, including every high nibble, without a failure.
    for hi in 0..=0xFF_u16 {
        let word = (hi << 8) | 0x0E0;
        let inst = OpCode(word).decode();
        let _ = inst.name();
    }
}

#[test]
fn skip_advances_four_or_two() {
    // 3xkk — condition holds: PC advances by exactly 4.
    let mut c = Chip8::new();
    load(&mut c, &[0x3A05]);
    instruction::load_byte(&mut c, Operands::RegAndConst(0xA, 0x05));
    c.cycle(0).unwrap();
    assert_eq!(c.pc(), PROGRAM_START + 4);

    // 3xkk — condition fails: PC advances by exactly 2.
    let mut c = Chip8::new();
    load(&mut c, &[0x3A05]);
    instruction::load_byte(&mut c, Operands::RegAndConst(0xA, 0x06));
    c.cycle(0).unwrap();
    assert_eq!(c.pc(), PROGRAM_START + 2);

    // 4xkk — inverted condition.
    let mut c = Chip8::new();
    load(&mut c, &[0x4A05]);
    instruction::load_byte(&mut c, Operands::RegAndConst(0xA, 0x06));
    c.cycle(0).unwrap();
    assert_eq!(c.pc(), PROGRAM_START + 4);

    // 5xy0 — register equality.
    let mut c = Chip8::new();
    load(&mut c, &[0x5120]);
    c.cycle(0).unwrap();
    assert_eq!(c.pc(), PROGRAM_START + 4);

    // 9xy0 — register inequality, condition fails.
    let mut c = Chip8::new();
    load(&mut c, &[0x9120]);
    c.cycle(0).unwrap();
    assert_eq!(c.pc(), PROGRAM_START + 2);
}

#[test]
fn call_then_ret_returns_past_call() {
    let mut c = Chip8::new();
    // At 0x200: CALL 0x300.  At 0x300: RET.
    load(&mut c, &[0x2300]);
    c.ram.write(Addr::new(0x300), 0x00);
    c.ram.write(Addr::new(0x301), 0xEE);
    c.cycle(0).unwrap();
    assert_eq!(c.pc(), 0x300);
    assert_eq!(c.stack_len(), 1);
    c.cycle(0).unwrap();
    // The recorded address is the instruction right after the CALL.
    assert_eq!(c.pc(), PROGRAM_START + 2);
    assert_eq!(c.stack_len(), 0);
}

#[test]
fn sixteen_calls_then_overflow() {
    let mut c = Chip8::new();
    // 0x200 holds CALL 0x200: an endless self-call.
    load(&mut c, &[0x2200]);
    for depth in 1..=16 {
        c.cycle(0).unwrap();
        assert_eq!(c.stack_len(), depth);
    }
    let r = c.cycle(0);
    assert_eq!(r, Err(Chip8Error::StackOverflow));
    assert_eq!(c.stack_len(), 16);
    assert_eq!(c.run_state(), RunState::Halted);
    // Halted is terminal: a further cycle does nothing and reports Ok.
    c.cycle(0).unwrap();
    assert_eq!(c.stack_len(), 16);
}

#[test]
fn ret_with_empty_stack_underflows() {
    let mut c = Chip8::new();
    load(&mut c, &[0x00EE]);
    let r = c.cycle(0);
    assert_eq!(r, Err(Chip8Error::StackUnderflow));
    assert_eq!(c.run_state(), RunState::Halted);
}

#[test]
fn timers_tick_to_zero_and_rest() {
    let mut c = Chip8::new();
    instruction::load_byte(&mut c, Operands::RegAndConst(1, 2));
    instruction::set_delay_timer(&mut c, Operands::Reg(1));
    assert_eq!(c.delay_timer(), 2);
    c.tick();
    assert_eq!(c.delay_timer(), 1);
    c.tick();
    assert_eq!(c.delay_timer(), 0);
    c.tick();
    c.tick();
    assert_eq!(c.delay_timer(), 0);
}

#[test]
fn draw_wraps_at_right_edge() {
    let mut c = Chip8::new();
    // One solid 8-pixel row drawn at x = 60 on the 64-wide display:
    // columns 60..=63 light, then wrap to columns 0..=3.
    instruction::load_i(&mut c, Operands::Address(0x300));
    c.ram.write(Addr::new(0x300), 0xFF);
    instruction::load_byte(&mut c, Operands::RegAndConst(1, 60));
    instruction::load_byte(&mut c, Operands::RegAndConst(2, 0));
    instruction::draw_sprite(&mut c, Operands::RegsAndConst(1, 2, 1));
    for col in 60..64 {
        assert!(c.pixel(col, 0));
    }
    for col in 0..4 {
        assert!(c.pixel(col, 0));
    }
    for col in 4..60 {
        assert!(!c.pixel(col, 0));
    }
    assert_eq!(c.v_reg(0xF), 0);
}

#[test]
fn draw_reports_collision_and_erases() {
    let mut c = Chip8::new();
    instruction::load_i(&mut c, Operands::Address(0x300));
    c.ram.write(Addr::new(0x300), 0xFF);
    instruction::draw_sprite(&mut c, Operands::RegsAndConst(0, 0, 1));
    assert_eq!(c.v_reg(0xF), 0);
    // Drawing the same sprite again erases every pixel it lit.
    instruction::draw_sprite(&mut c, Operands::RegsAndConst(0, 0, 1));
    assert_eq!(c.v_reg(0xF), 1);
    for col in 0..8 {
        assert!(!c.pixel(col, 0));
    }
}

#[test]
fn rom_of_exactly_available_space_loads() {
    let mut c = Chip8::new();
    let bytes = vec![0xAB_u8; RAM_SIZE - PROGRAM_START as usize];
    assert_eq!(c.load_program(&bytes), Ok(()));
    assert_eq!(c.ram.read(Addr::new(0x200)), 0xAB);
    assert_eq!(c.ram.read(Addr::new(0xFFF)), 0xAB);
}

#[test]
fn rom_one_byte_too_long_is_refused_untouched() {
    let mut c = Chip8::new();
    let bytes = vec![0xAB_u8; RAM_SIZE - PROGRAM_START as usize + 1];
    assert_eq!(c.load_program(&bytes), Err(Chip8Error::Capacity));
    // No partial write happened.
    assert_eq!(c.ram.read(Addr::new(0x200)), 0);
    assert_eq!(c.ram.read(Addr::new(0xFFF)), 0);
}

#[test]
fn wait_for_key_suspends_until_press() {
    let mut c = Chip8::new();
    load(&mut c, &[0xF50A]);
    c.cycle(0).unwrap();
    assert_eq!(c.run_state(), RunState::WaitingForKey(5));
    let pc = c.pc();
    // Cycles do not advance while waiting; timers still tick.
    instruction::set_delay_timer(&mut c, Operands::Reg(0));
    c.cycle(0).unwrap();
    assert_eq!(c.pc(), pc);
    assert_eq!(c.run_state(), RunState::WaitingForKey(5));
    c.press_key(0xB);
    assert_eq!(c.run_state(), RunState::Running);
    assert_eq!(c.v_reg(5), 0xB);
}

#[test]
fn skip_on_key_state() {
    let mut c = Chip8::new();
    load(&mut c, &[0xE39E, 0xE3A1]);
    instruction::load_byte(&mut c, Operands::RegAndConst(3, 0x7));
    c.set_key(0x7, true);
    c.cycle(0).unwrap();
    // Key 7 is down: SKP skips.
    assert_eq!(c.pc(), PROGRAM_START + 4);
    c.set_key(0x7, false);
    // Back at the SKNP instruction: key 7 is up, so it skips too.
    instruction::jump(&mut c, Operands::Address(PROGRAM_START + 2));
    c.cycle(0).unwrap();
    assert_eq!(c.pc(), PROGRAM_START + 6);
}

#[test]
fn halt_is_terminal() {
    let mut c = Chip8::new();
    load(&mut c, &[0x6105]);
    c.halt();
    assert_eq!(c.run_state(), RunState::Halted);
    c.cycle(0).unwrap();
    assert_eq!(c.pc(), PROGRAM_START);
    assert_eq!(c.v_reg(1), 0);
}

#[test]
fn push_and_pop_report_limits() {
    let mut c = Chip8::new();
    for k in 0..16 {
        assert_eq!(c.push(0x200 + k), Ok(()));
    }
    assert_eq!(c.push(0x400), Err(Chip8Error::StackOverflow));
    for k in (0..16).rev() {
        assert_eq!(c.pop(), Ok(0x200 + k));
    }
    assert_eq!(c.pop(), Err(Chip8Error::StackUnderflow));
}

#[test]
fn cycle_runs_a_small_program() {
    let mut c = Chip8::new();
    // LD V1, 7; LD V2, 5; ADD V1, V2; LD B, V1 at I = 0x300.
    load(&mut c, &[0x6107, 0x6205, 0x8124, 0xA300, 0xF133]);
    for _ in 0..5 {
        c.cycle(0).unwrap();
    }
    assert_eq!(c.v_reg(1), 12);
    assert_eq!(c.ram.read(Addr::new(0x300)), 0);
    assert_eq!(c.ram.read(Addr::new(0x301)), 1);
    assert_eq!(c.ram.read(Addr::new(0x302)), 2);
}

#[test]
fn flag_register_overwrite_ordering() {
    // When VF itself is the destination, the result overwrites the flag:
    // the flag is written first, the sum last.
    let mut c = Chip8::new();
    instruction::load_byte(&mut c, Operands::RegAndConst(0xF, 0xFF));
    instruction::load_byte(&mut c, Operands::RegAndConst(2, 0x01));
    chip8::instruction::add(&mut c, Operands::Regs(0xF, 2));
    assert_eq!(c.v_reg(0xF), 0x00);
}

#[test]
fn fetch_wraps_at_address_space_edge() {
    let mut c = Chip8::new();
    c.ram.write(Addr::new(0xFFF), 0x12);
    c.ram.write(Addr::new(0x000), 0x34);
    assert_eq!(c.get_opcode(0xFFF), OpCode::from((0x12, 0x34)));
}

#[test]
fn decode_builds_instructions() {
    let inst = OpCode(0x00E0).decode();
    assert_eq!(inst, Instruction::new(OpCode(0x00E0), Operands::Empty, Op::Cls));
    assert_eq!(inst.name(), "CLS");
    assert_eq!(OpCode(0x8124).decode().name(), "ADD");
    assert_eq!(OpCode(0xD123).decode().name(), "DRW");
}
