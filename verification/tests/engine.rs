use emu6502::bus::Effect;
use emu6502::emulator::Emulator;
use emu6502::instruction::{Instruction, Mode};
use emu6502::outcome::Operand;
use emu6502::status::SRMask;

fn boot_with(program: &[u8]) -> Emulator {
    let mut rom = [0u8; 0x8000];
    rom[..program.len()].copy_from_slice(program);
    rom[0x7ffd] = 0x80;
    Emulator::init(rom)
}

/// The operand bytes that make an instruction in the given form refer to
/// `target`, after the index registers were set to X = 4 and Y = 6 and the
/// pointers in page zero were written.
fn operand_for(emu: &mut Emulator, opcode: u8, target: u16) -> Vec<u8> {
    emu.x = 0x04;
    emu.y = 0x06;
    let mode = Instruction::decode(opcode).unwrap().mode;
    let lo = |w: u16| (w & 0xff) as u8;
    let hi = |w: u16| (w >> 8) as u8;
    match mode {
        Mode::ZeroPage => vec![lo(target)],
        Mode::ZeroPageX => vec![lo(target).wrapping_sub(4)],
        Mode::ZeroPageY => vec![lo(target).wrapping_sub(6)],
        Mode::Absolute => vec![lo(target), hi(target)],
        Mode::AbsoluteX => vec![lo(target.wrapping_sub(4)), hi(target.wrapping_sub(4))],
        Mode::AbsoluteY => vec![lo(target.wrapping_sub(6)), hi(target.wrapping_sub(6))],
        Mode::IndirectX => {
            emu.write_byte_at(0x00f4, lo(target));
            emu.write_byte_at(0x00f5, hi(target));
            vec![0xf0]
        }
        Mode::IndirectY => {
            emu.write_byte_at(0x00f8, lo(target.wrapping_sub(6)));
            emu.write_byte_at(0x00f9, hi(target.wrapping_sub(6)));
            vec![0xf8]
        }
        _ => panic!("no memory operand"),
    }
}

/// A machine about to execute `opcode` on the byte at `target`, which holds
/// `value`. The instruction stands in RAM at $0300.
fn about_to(opcode: u8, target: u16, value: u8) -> Emulator {
    let mut emu = boot_with(&[]);
    let operand = operand_for(&mut emu, opcode, target);
    emu.write_byte_at(target, value);
    emu.pc = 0x0300;
    emu.write_byte_at(0x0300, opcode);
    for (i, b) in operand.iter().enumerate() {
        emu.write_byte_at(0x0301 + i as u16, *b);
    }
    emu
}

fn length_of(opcode: u8) -> u16 {
    1 + Instruction::decode(opcode).unwrap().mode.length()
}

fn target_of(opcode: u8) -> u16 {
    match Instruction::decode(opcode).unwrap().mode {
        Mode::ZeroPage | Mode::ZeroPageX | Mode::ZeroPageY => 0x0042,
        _ => 0x2345,
    }
}

#[test]
fn loads_in_every_form() {
    let lda = [0xa5u8, 0xb5, 0xad, 0xbd, 0xb9, 0xa1, 0xb1];
    let ldx = [0xa6u8, 0xb6, 0xae, 0xbe];
    let ldy = [0xa4u8, 0xb4, 0xac, 0xbc];
    for op in lda.iter().chain(&ldx).chain(&ldy) {
        let target = target_of(*op);
        let mut emu = about_to(*op, target, 0x9d);
        let step = emu.exec_instruction().unwrap();
        assert_eq!(step.operand, Operand::Address(target), "opcode {:02x}", op);
        assert_eq!(step.effect, Effect::Nothing);
        assert_eq!(step.at, 0x0300);
        assert_eq!(emu.pc, 0x0300 + length_of(*op), "opcode {:02x}", op);
        let loaded = if lda.contains(op) {
            emu.a
        } else if ldx.contains(op) {
            emu.x
        } else {
            emu.y
        };
        assert_eq!(loaded, 0x9d, "opcode {:02x}", op);
        assert!(emu.get_psr_bit(SRMask::Negative));
        assert!(!emu.get_psr_bit(SRMask::Zero));
    }
}

#[test]
fn immediate_loads() {
    // LDA #$00; LDX #$80; LDY #$7F
    let mut emu = boot_with(&[0xa9, 0x00, 0xa2, 0x80, 0xa0, 0x7f]);
    emu.a = 0x55;
    emu.exec_instruction().unwrap();
    assert_eq!(emu.a, 0x00);
    assert!(emu.get_psr_bit(SRMask::Zero));
    emu.exec_instruction().unwrap();
    assert_eq!(emu.x, 0x80);
    assert!(emu.get_psr_bit(SRMask::Negative));
    assert!(!emu.get_psr_bit(SRMask::Zero));
    emu.exec_instruction().unwrap();
    assert_eq!(emu.y, 0x7f);
    assert!(!emu.get_psr_bit(SRMask::Negative));
    assert_eq!(emu.pc, 0x8006);
}

#[test]
fn stores_in_every_form() {
    let sta = [0x85u8, 0x95, 0x8d, 0x9d, 0x99, 0x81, 0x91];
    let stx = [0x86u8, 0x96, 0x8e];
    let sty = [0x84u8, 0x94, 0x8c];
    for op in sta.iter().chain(&stx).chain(&sty) {
        let target = target_of(*op);
        let mut emu = about_to(*op, target, 0x00);
        emu.a = 0xa1;
        let sr = emu.sr;
        let expected = if sta.contains(op) {
            emu.a
        } else if stx.contains(op) {
            emu.x
        } else {
            emu.y
        };
        let step = emu.exec_instruction().unwrap();
        assert_eq!(step.operand, Operand::Address(target));
        assert_eq!(emu.bus.read(target), expected, "opcode {:02x}", op);
        assert_eq!(emu.sr, sr);
        assert_eq!(emu.pc, 0x0300 + length_of(*op));
    }
}

#[test]
fn a_store_to_rom_is_lost() {
    // STA $9000
    let mut emu = boot_with(&[0x8d, 0x00, 0x90]);
    emu.a = 0x77;
    let step = emu.exec_instruction().unwrap();
    assert_eq!(step.effect, Effect::Nothing);
    assert_eq!(emu.bus.read(0x9000), 0x00);
    assert_eq!(emu.pc, 0x8003);
}

#[test]
fn arithmetic_and_logic_in_every_form() {
    // opcode base, a, carry in, operand, result, carry out
    let rows: [(u8, u8, bool, u8, u8, bool); 5] = [
        (0x60, 0x14, true, 0x27, 0x3c, false),
        (0xe0, 0x50, true, 0x10, 0x40, true),
        (0x00, 0x0f, true, 0xf0, 0xff, true),
        (0x20, 0x3c, false, 0x0f, 0x0c, false),
        (0x40, 0xff, false, 0x0f, 0xf0, false),
    ];
    for (base, a, carry, m, result, carry_out) in rows {
        for form in [0x01u8, 0x05, 0x0d, 0x11, 0x15, 0x19, 0x1d] {
            let op = base + form;
            let target = target_of(op);
            let mut emu = about_to(op, target, m);
            emu.a = a;
            emu.set_sr_bit(SRMask::Carry, carry);
            emu.exec_instruction().unwrap();
            assert_eq!(emu.a, result, "opcode {:02x}", op);
            assert_eq!(emu.get_psr_bit(SRMask::Carry), carry_out, "opcode {:02x}", op);
            assert_eq!(emu.get_psr_bit(SRMask::Zero), result == 0);
            assert_eq!(emu.get_psr_bit(SRMask::Negative), result & 0x80 != 0);
            assert_eq!(emu.bus.read(target), m);
            assert_eq!(emu.pc, 0x0300 + length_of(op));
        }
        let mut emu = boot_with(&[base + 0x09, m]);
        emu.a = a;
        emu.set_sr_bit(SRMask::Carry, carry);
        let step = emu.exec_instruction().unwrap();
        assert_eq!(step.operand, Operand::Immediate(m));
        assert_eq!(emu.a, result);
        assert_eq!(emu.pc, 0x8002);
    }
}

#[test]
fn compares_in_every_form() {
    let cmp = [0xc1u8, 0xc5, 0xcd, 0xd1, 0xd5, 0xd9, 0xdd];
    let cpx = [0xe4u8, 0xec];
    let cpy = [0xc4u8, 0xcc];
    for op in cmp.iter().chain(&cpx).chain(&cpy) {
        for (m, carry, zero, negative) in
            [(0x03u8, true, false, false), (0x04, true, true, false), (0x05, false, false, true)]
        {
            let target = target_of(*op);
            let mut emu = about_to(*op, target, m);
            emu.a = 0x04;
            emu.x = 0x04;
            emu.y = 0x04;
            // The pointers and operand bytes were made for X = 4 and Y = 6.
            if cmp.contains(op) || cpx.contains(op) {
                emu.y = 0x06;
            }
            if cpy.contains(op) {
                emu.y = 0x04;
            }
            emu.exec_instruction().unwrap();
            assert_eq!(emu.get_psr_bit(SRMask::Carry), carry, "opcode {:02x}", op);
            assert_eq!(emu.get_psr_bit(SRMask::Zero), zero, "opcode {:02x}", op);
            assert_eq!(emu.get_psr_bit(SRMask::Negative), negative, "opcode {:02x}", op);
            assert_eq!(emu.a, 0x04);
            assert_eq!(emu.pc, 0x0300 + length_of(*op));
        }
    }
}

#[test]
fn immediate_compares_use_their_own_register() {
    // CMP #$10; CPX #$10; CPY #$10
    let mut emu = boot_with(&[0xc9, 0x10, 0xe0, 0x10, 0xc0, 0x10]);
    emu.a = 0x10;
    emu.x = 0x0f;
    emu.y = 0x11;
    emu.exec_instruction().unwrap();
    assert!(emu.get_psr_bit(SRMask::Carry));
    assert!(emu.get_psr_bit(SRMask::Zero));
    emu.exec_instruction().unwrap();
    assert!(!emu.get_psr_bit(SRMask::Carry));
    assert!(!emu.get_psr_bit(SRMask::Zero));
    assert!(emu.get_psr_bit(SRMask::Negative));
    emu.exec_instruction().unwrap();
    assert!(emu.get_psr_bit(SRMask::Carry));
    assert!(!emu.get_psr_bit(SRMask::Zero));
    assert!(!emu.get_psr_bit(SRMask::Negative));
}

#[test]
fn bit_in_both_forms() {
    for op in [0x24u8, 0x2c] {
        let target = target_of(op);
        let mut emu = about_to(op, target, 0xc0);
        emu.a = 0x3f;
        emu.exec_instruction().unwrap();
        assert!(emu.get_psr_bit(SRMask::Zero));
        assert!(emu.get_psr_bit(SRMask::Negative));
        assert!(emu.get_psr_bit(SRMask::Overflow));
        assert_eq!(emu.a, 0x3f);
        assert_eq!(emu.pc, 0x0300 + length_of(op));
    }
}

#[test]
fn shifts_on_memory_in_every_form() {
    // opcode base, carry in, operand, result, carry out
    let rows: [(u8, bool, u8, u8, bool); 4] = [
        (0x00, true, 0xc1, 0x82, true),
        (0x20, true, 0x41, 0x83, false),
        (0x40, true, 0x03, 0x01, true),
        (0x60, true, 0x02, 0x81, false),
    ];
    for (base, carry, m, result, carry_out) in rows {
        for form in [0x06u8, 0x0e, 0x16, 0x1e] {
            let op = base + form;
            let target = target_of(op);
            let mut emu = about_to(op, target, m);
            emu.a = 0x99;
            emu.set_sr_bit(SRMask::Carry, carry);
            let step = emu.exec_instruction().unwrap();
            assert_eq!(step.effect, Effect::Nothing);
            assert_eq!(emu.bus.read(target), result, "opcode {:02x}", op);
            assert_eq!(emu.get_psr_bit(SRMask::Carry), carry_out, "opcode {:02x}", op);
            assert_eq!(emu.get_psr_bit(SRMask::Negative), result & 0x80 != 0);
            assert_eq!(emu.a, 0x99);
            assert_eq!(emu.pc, 0x0300 + length_of(op));
        }
    }
}

#[test]
fn shifts_on_the_accumulator() {
    // SEC; ASL A; ROL A; LSR A; ROR A
    let mut emu = boot_with(&[0x38, 0x0a, 0x2a, 0x4a, 0x6a]);
    emu.a = 0xc1;
    emu.exec_instruction().unwrap();
    let step = emu.exec_instruction().unwrap();
    assert_eq!(step.operand, Operand::Accumulator);
    assert_eq!(emu.a, 0x82);
    assert!(emu.get_psr_bit(SRMask::Carry));
    emu.exec_instruction().unwrap();
    assert_eq!(emu.a, 0x05);
    assert!(emu.get_psr_bit(SRMask::Carry));
    emu.exec_instruction().unwrap();
    assert_eq!(emu.a, 0x02);
    assert!(emu.get_psr_bit(SRMask::Carry));
    emu.exec_instruction().unwrap();
    assert_eq!(emu.a, 0x81);
    assert!(!emu.get_psr_bit(SRMask::Carry));
    assert!(emu.get_psr_bit(SRMask::Negative));
    assert_eq!(emu.pc, 0x8005);
}

#[test]
fn increments_and_decrements_of_memory_wrap() {
    for (op, m, result) in [
        (0xe6u8, 0xffu8, 0x00u8),
        (0xf6, 0x7f, 0x80),
        (0xee, 0x00, 0x01),
        (0xfe, 0xfe, 0xff),
        (0xc6, 0x00, 0xff),
        (0xd6, 0x01, 0x00),
        (0xce, 0x80, 0x7f),
        (0xde, 0xff, 0xfe),
    ] {
        let target = target_of(op);
        let mut emu = about_to(op, target, m);
        emu.exec_instruction().unwrap();
        assert_eq!(emu.bus.read(target), result, "opcode {:02x}", op);
        assert_eq!(emu.get_psr_bit(SRMask::Zero), result == 0);
        assert_eq!(emu.get_psr_bit(SRMask::Negative), result & 0x80 != 0);
        assert_eq!(emu.pc, 0x0300 + length_of(op));
    }
}

#[test]
fn modifying_the_text_register_emits() {
    // INC $4000; DEC $4000; ASL $4000
    let mut emu = boot_with(&[0xee, 0x00, 0x40, 0xce, 0x00, 0x40, 0x0e, 0x00, 0x40]);
    assert_eq!(emu.exec_instruction().unwrap().effect, Effect::PutChar(0x01));
    assert_eq!(emu.exec_instruction().unwrap().effect, Effect::PutChar(0xff));
    assert_eq!(emu.exec_instruction().unwrap().effect, Effect::PutChar(0x00));
    assert_eq!(emu.bus.read(0x4000), 0x00);
}

#[test]
fn register_increments_and_decrements_wrap() {
    // INX; INY; DEX; DEX; DEY; DEY
    let mut emu = boot_with(&[0xe8, 0xc8, 0xca, 0xca, 0x88, 0x88]);
    emu.x = 0xff;
    emu.y = 0x7f;
    emu.exec_instruction().unwrap();
    assert_eq!(emu.x, 0x00);
    assert!(emu.get_psr_bit(SRMask::Zero));
    emu.exec_instruction().unwrap();
    assert_eq!(emu.y, 0x80);
    assert!(emu.get_psr_bit(SRMask::Negative));
    emu.exec_instruction().unwrap();
    assert_eq!(emu.x, 0xff);
    emu.exec_instruction().unwrap();
    assert_eq!(emu.x, 0xfe);
    emu.exec_instruction().unwrap();
    assert_eq!(emu.y, 0x7f);
    assert!(!emu.get_psr_bit(SRMask::Negative));
    emu.exec_instruction().unwrap();
    assert_eq!(emu.y, 0x7e);
    assert_eq!(emu.pc, 0x8006);
}

#[test]
fn transfers() {
    // TAX; TAY; TXA; TYA; TSX; TXS
    let mut emu = boot_with(&[0xaa, 0xa8, 0x8a, 0x98, 0xba, 0x9a]);
    emu.a = 0x80;
    emu.exec_instruction().unwrap();
    assert_eq!(emu.x, 0x80);
    assert!(emu.get_psr_bit(SRMask::Negative));
    emu.exec_instruction().unwrap();
    assert_eq!(emu.y, 0x80);
    emu.x = 0x00;
    emu.exec_instruction().unwrap();
    assert_eq!(emu.a, 0x00);
    assert!(emu.get_psr_bit(SRMask::Zero));
    emu.y = 0x11;
    emu.exec_instruction().unwrap();
    assert_eq!(emu.a, 0x11);
    assert!(!emu.get_psr_bit(SRMask::Zero));
    emu.sp = 0xf0;
    emu.exec_instruction().unwrap();
    assert_eq!(emu.x, 0xf0);
    assert!(emu.get_psr_bit(SRMask::Negative));
    assert_eq!(emu.pc, 0x8005);
}

#[test]
fn txs_leaves_the_flags() {
    for x in [0x00u8, 0x80, 0x7f] {
        // TXS
        let mut emu = boot_with(&[0x9a]);
        emu.x = x;
        emu.sr = 0x20;
        emu.exec_instruction().unwrap();
        assert_eq!(emu.sp, x);
        assert_eq!(emu.sr, 0x20);
    }
}

#[test]
fn flag_instructions() {
    // SEC; SEI; SED; CLC; CLI; CLD; CLV
    let mut emu = boot_with(&[0x38, 0x78, 0xf8, 0x18, 0x58, 0xd8, 0xb8]);
    emu.sr = 0x60;
    emu.exec_instruction().unwrap();
    assert_eq!(emu.sr, 0x61);
    emu.exec_instruction().unwrap();
    assert_eq!(emu.sr, 0x65);
    emu.exec_instruction().unwrap();
    assert_eq!(emu.sr, 0x6d);
    emu.exec_instruction().unwrap();
    assert_eq!(emu.sr, 0x6c);
    emu.exec_instruction().unwrap();
    assert_eq!(emu.sr, 0x68);
    emu.exec_instruction().unwrap();
    assert_eq!(emu.sr, 0x60);
    emu.exec_instruction().unwrap();
    assert_eq!(emu.sr, 0x20);
    assert_eq!(emu.pc, 0x8007);
}

#[test]
fn nop_moves_one_byte() {
    let mut emu = boot_with(&[0xea, 0xea]);
    let before = (emu.a, emu.x, emu.y, emu.sp, emu.sr);
    let step = emu.exec_instruction().unwrap();
    assert_eq!(step.operand, Operand::Implied);
    assert_eq!(emu.pc, 0x8001);
    assert_eq!((emu.a, emu.x, emu.y, emu.sp, emu.sr), before);
}

#[test]
fn jumps() {
    // JMP $8010 ... $8010: JMP ($0280)
    let mut program = [0u8; 0x20];
    program[0..3].copy_from_slice(&[0x4c, 0x10, 0x80]);
    program[0x10..0x13].copy_from_slice(&[0x6c, 0x80, 0x02]);
    let mut emu = boot_with(&program);
    emu.write_byte_at(0x0280, 0xcd);
    emu.write_byte_at(0x0281, 0xab);
    let step = emu.exec_instruction().unwrap();
    assert_eq!(step.operand, Operand::Address(0x8010));
    assert_eq!(emu.pc, 0x8010);
    let step = emu.exec_instruction().unwrap();
    assert_eq!(step.operand, Operand::Address(0xabcd));
    assert_eq!(emu.pc, 0xabcd);
    assert_eq!(emu.sp, 0xff);
}

#[test]
fn indirect_jump_reads_across_the_page_boundary() {
    // JMP ($02FF)
    let mut emu = boot_with(&[0x6c, 0xff, 0x02]);
    emu.write_byte_at(0x02ff, 0x34);
    emu.write_byte_at(0x0300, 0x12);
    emu.write_byte_at(0x0200, 0x56);
    emu.exec_instruction().unwrap();
    assert_eq!(emu.pc, 0x1234);
}

#[test]
fn the_program_counter_wraps() {
    let mut rom = [0u8; 0x8000];
    rom[0x7fff] = 0xea;
    rom[0x7ffc] = 0xff;
    rom[0x7ffd] = 0xff;
    let mut emu = Emulator::init(rom);
    emu.exec_instruction().unwrap();
    assert_eq!(emu.pc, 0x0000);

    // LDA #imm with the opcode at the last address
    rom[0x7fff] = 0xa9;
    let mut emu = Emulator::init(rom);
    emu.write_byte_at(0x0000, 0x5c);
    emu.exec_instruction().unwrap();
    assert_eq!(emu.a, 0x5c);
    assert_eq!(emu.pc, 0x0001);
}

#[test]
fn helpers_on_memory() {
    let mut emu = boot_with(&[]);
    emu.a = 0x11;
    emu.x = 0x22;
    emu.y = 0x33;
    assert_eq!(emu.sta(0x0010), Effect::Nothing);
    assert_eq!(emu.stx(0x0011), Effect::Nothing);
    assert_eq!(emu.sty(0x4000), Effect::PutChar(0x33));
    assert_eq!(emu.bus.read(0x0010), 0x11);
    assert_eq!(emu.bus.read(0x0011), 0x22);
    emu.write_byte_at(0x0020, 0x81);
    emu.asl_addr(0x0020);
    assert_eq!(emu.bus.read(0x0020), 0x02);
    emu.rol_addr(0x0020);
    assert_eq!(emu.bus.read(0x0020), 0x05);
    emu.lsr_addr(0x0020);
    assert_eq!(emu.bus.read(0x0020), 0x02);
    emu.ror_addr(0x0020);
    assert_eq!(emu.bus.read(0x0020), 0x81);
    emu.inc(0x0020);
    assert_eq!(emu.bus.read(0x0020), 0x82);
    emu.dec(0x0020);
    emu.dec(0x0020);
    assert_eq!(emu.bus.read(0x0020), 0x80);
    assert_eq!(emu.pc, 0x8000);
}
