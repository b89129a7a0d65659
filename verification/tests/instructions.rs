use chip8::instruction;
use chip8::opcode::Operands;
use chip8::types::Addr;
use chip8::Chip8;

fn set_reg(c: &mut Chip8, x: u8, value: u8) {
    instruction::load_byte(c, Operands::RegAndConst(x, value));
}

#[test]
fn add_carry_set_and_wrap() {
    let mut c = Chip8::new();
    set_reg(&mut c, 1, 0xFF);
    set_reg(&mut c, 2, 0x01);
    chip8::instruction::add(&mut c, Operands::Regs(1, 2));
    assert_eq!(c.v_reg(1), 0x00);
    assert_eq!(c.v_reg(0xF), 1);
}

#[test]
fn add_no_carry() {
    let mut c = Chip8::new();
    set_reg(&mut c, 1, 0x01);
    set_reg(&mut c, 2, 0x01);
    chip8::instruction::add(&mut c, Operands::Regs(1, 2));
    assert_eq!(c.v_reg(1), 0x02);
    assert_eq!(c.v_reg(0xF), 0);
}

#[test]
fn sub_no_borrow() {
    let mut c = Chip8::new();
    set_reg(&mut c, 1, 0x05);
    set_reg(&mut c, 2, 0x03);
    chip8::instruction::sub(&mut c, Operands::Regs(1, 2));
    assert_eq!(c.v_reg(1), 0x02);
    assert_eq!(c.v_reg(0xF), 1);
}

#[test]
fn sub_with_borrow() {
    let mut c = Chip8::new();
    set_reg(&mut c, 1, 0x03);
    set_reg(&mut c, 2, 0x05);
    chip8::instruction::sub(&mut c, Operands::Regs(1, 2));
    assert_eq!(c.v_reg(1), 0xFE);
    assert_eq!(c.v_reg(0xF), 0);
}

#[test]
fn sub_inv_follows_vy() {
    let mut c = Chip8::new();
    set_reg(&mut c, 1, 0x03);
    set_reg(&mut c, 2, 0x05);
    instruction::sub_inv(&mut c, Operands::Regs(1, 2));
    assert_eq!(c.v_reg(1), 0x02);
    assert_eq!(c.v_reg(0xF), 1);
}

#[test]
fn shift_right_odd() {
    let mut c = Chip8::new();
    set_reg(&mut c, 4, 0x03);
    instruction::shift_right(&mut c, Operands::Reg(4));
    assert_eq!(c.v_reg(4), 0x01);
    assert_eq!(c.v_reg(0xF), 1);
}

#[test]
fn shift_right_even() {
    let mut c = Chip8::new();
    set_reg(&mut c, 4, 0x04);
    instruction::shift_right(&mut c, Operands::Reg(4));
    assert_eq!(c.v_reg(4), 0x02);
    assert_eq!(c.v_reg(0xF), 0);
}

#[test]
fn shift_left_doubles_and_flags() {
    let mut c = Chip8::new();
    set_reg(&mut c, 4, 0x81);
    instruction::shift_left(&mut c, Operands::Reg(4));
    assert_eq!(c.v_reg(4), 0x02);
    assert_eq!(c.v_reg(0xF), 1);
}

#[test]
fn add_byte_wraps_without_flag() {
    let mut c = Chip8::new();
    set_reg(&mut c, 3, 0xFF);
    instruction::add_byte(&mut c, Operands::RegAndConst(3, 0x02));
    assert_eq!(c.v_reg(3), 0x01);
    assert_eq!(c.v_reg(0xF), 0);
}

#[test]
fn bitwise_ops() {
    let mut c = Chip8::new();
    set_reg(&mut c, 1, 0b1100);
    set_reg(&mut c, 2, 0b1010);
    instruction::or(&mut c, Operands::Regs(1, 2));
    assert_eq!(c.v_reg(1), 0b1110);
    set_reg(&mut c, 1, 0b1100);
    instruction::and(&mut c, Operands::Regs(1, 2));
    assert_eq!(c.v_reg(1), 0b1000);
    set_reg(&mut c, 1, 0b1100);
    instruction::xor(&mut c, Operands::Regs(1, 2));
    assert_eq!(c.v_reg(1), 0b0110);
}

#[test]
fn load_copies_vy() {
    let mut c = Chip8::new();
    set_reg(&mut c, 7, 0x42);
    instruction::load(&mut c, Operands::Regs(6, 7));
    assert_eq!(c.v_reg(6), 0x42);
}

#[test]
fn jump_sets_pc() {
    let mut c = Chip8::new();
    instruction::jump(&mut c, Operands::Address(0xABC));
    assert_eq!(c.pc(), 0xABC);
}

#[test]
fn jump0_adds_v0() {
    let mut c = Chip8::new();
    set_reg(&mut c, 0, 0x10);
    instruction::jump0(&mut c, Operands::Address(0x300));
    assert_eq!(c.pc(), 0x310);
}

#[test]
fn load_i_and_add_i_mask() {
    let mut c = Chip8::new();
    instruction::load_i(&mut c, Operands::Address(0xFFF));
    assert_eq!(c.i_reg(), 0xFFF);
    set_reg(&mut c, 2, 0x02);
    instruction::add_i(&mut c, Operands::Reg(2));
    assert_eq!(c.i_reg(), 0x001);
}

#[test]
fn rand_byte_masks_supplied_byte() {
    let mut c = Chip8::new();
    instruction::rand_byte(&mut c, Operands::RegAndConst(5, 0x0F), 0xAB);
    assert_eq!(c.v_reg(5), 0x0B);
}

#[test]
fn load_sprite_points_at_digit() {
    let mut c = Chip8::new();
    set_reg(&mut c, 1, 0x2A);
    instruction::load_sprite(&mut c, Operands::Reg(1));
    assert_eq!(c.i_reg(), 0xA * 5);
}

#[test]
fn store_bcd_digits() {
    let mut c = Chip8::new();
    set_reg(&mut c, 3, 234);
    instruction::load_i(&mut c, Operands::Address(0x300));
    instruction::store_bcd(&mut c, Operands::Reg(3));
    assert_eq!(c.ram.read(Addr::new(0x300)), 2);
    assert_eq!(c.ram.read(Addr::new(0x301)), 3);
    assert_eq!(c.ram.read(Addr::new(0x302)), 4);
}

#[test]
fn store_and_load_regs_round_trip() {
    let mut c = Chip8::new();
    set_reg(&mut c, 0, 0x11);
    set_reg(&mut c, 1, 0x22);
    set_reg(&mut c, 2, 0x33);
    instruction::load_i(&mut c, Operands::Address(0x400));
    instruction::store_regs(&mut c, Operands::Reg(2));
    assert_eq!(c.ram.read(Addr::new(0x400)), 0x11);
    assert_eq!(c.ram.read(Addr::new(0x401)), 0x22);
    assert_eq!(c.ram.read(Addr::new(0x402)), 0x33);
    set_reg(&mut c, 0, 0);
    set_reg(&mut c, 1, 0);
    set_reg(&mut c, 2, 0);
    set_reg(&mut c, 3, 0x77);
    instruction::load_regs(&mut c, Operands::Reg(2));
    assert_eq!(c.v_reg(0), 0x11);
    assert_eq!(c.v_reg(1), 0x22);
    assert_eq!(c.v_reg(2), 0x33);
    assert_eq!(c.v_reg(3), 0x77);
}

#[test]
fn timers_load_and_store() {
    let mut c = Chip8::new();
    set_reg(&mut c, 1, 9);
    instruction::set_delay_timer(&mut c, Operands::Reg(1));
    assert_eq!(c.delay_timer(), 9);
    instruction::set_sound_timer(&mut c, Operands::Reg(1));
    assert_eq!(c.sound_timer(), 9);
    assert!(c.sound_active());
    instruction::load_dt(&mut c, Operands::Reg(4));
    assert_eq!(c.v_reg(4), 9);
}

#[test]
fn clear_blanks_display() {
    let mut c = Chip8::new();
    instruction::load_i(&mut c, Operands::Address(0x300));
    c.ram.write(Addr::new(0x300), 0xFF);
    instruction::draw_sprite(&mut c, Operands::RegsAndConst(0, 0, 1));
    assert!(c.pixel(0, 0));
    instruction::clear(&mut c, Operands::Empty);
    for col in 0..8 {
        assert!(!c.pixel(col, 0));
    }
}
