use emu6502::emulator::Emulator;
use emu6502::status::SRMask;

fn cpu() -> Emulator {
    Emulator::init([0u8; 0x8000])
}

fn with(a: u8, carry: bool) -> Emulator {
    let mut emu = cpu();
    emu.a = a;
    emu.set_sr_bit(SRMask::Carry, carry);
    emu
}

fn as_signed(b: u8) -> i32 {
    if b < 128 {
        b as i32
    } else {
        b as i32 - 256
    }
}

#[test]
fn adc_for_every_input() {
    let mut emu = cpu();
    for carry in [false, true] {
        for a in 0..=255u8 {
            for m in 0..=255u8 {
                emu.a = a;
                emu.sr = if carry { 0x21 } else { 0x20 };
                let pc = emu.pc;
                emu.adc(m);
                let c = carry as u32;
                let sum = a as u32 + m as u32 + c;
                let res = (sum & 0xff) as u8;
                let same_sign = (a & 0x80) == (m & 0x80);
                let flipped = (res & 0x80) != (a & 0x80);
                let total = as_signed(a) + as_signed(m) + c as i32;
                assert_eq!(emu.a, res);
                assert_eq!(emu.get_psr_bit(SRMask::Carry), sum > 0xff);
                assert_eq!(emu.get_psr_bit(SRMask::Overflow), same_sign && flipped);
                assert_eq!(emu.get_psr_bit(SRMask::Overflow), !(-128..=127).contains(&total));
                assert_eq!(emu.get_psr_bit(SRMask::Zero), res == 0);
                assert_eq!(emu.get_psr_bit(SRMask::Negative), res & 0x80 != 0);
                assert_eq!(emu.pc, pc);
            }
        }
    }
}

#[test]
fn sbc_for_every_input() {
    let mut emu = cpu();
    for carry in [false, true] {
        for a in 0..=255u8 {
            for m in 0..=255u8 {
                emu.a = a;
                emu.sr = if carry { 0x61 } else { 0x60 };
                emu.sbc(m);
                let c = carry as u32;
                let sum = a as u32 + (!m) as u32 + c;
                let res = (sum & 0xff) as u8;
                let differ = (a & 0x80) != (m & 0x80);
                let flipped = (res & 0x80) != (a & 0x80);
                let total = as_signed(a) - as_signed(m) - (1 - c as i32);
                assert_eq!(emu.a, res);
                assert_eq!(emu.a, a.wrapping_sub(m).wrapping_sub(1 - c as u8));
                assert_eq!(emu.get_psr_bit(SRMask::Carry), sum > 0xff);
                assert_eq!(
                    emu.get_psr_bit(SRMask::Carry),
                    a as i32 - m as i32 - (1 - c as i32) >= 0
                );
                assert_eq!(emu.get_psr_bit(SRMask::Overflow), differ && flipped);
                assert_eq!(emu.get_psr_bit(SRMask::Overflow), !(-128..=127).contains(&total));
                assert_eq!(emu.get_psr_bit(SRMask::Zero), res == 0);
                assert_eq!(emu.get_psr_bit(SRMask::Negative), res & 0x80 != 0);
            }
        }
    }
}

#[test]
fn adc_positive_plus_positive_overflows() {
    let mut emu = with(0x50, false);
    emu.adc(0x50);
    assert_eq!(emu.a, 0xa0);
    assert!(emu.get_psr_bit(SRMask::Overflow));
    assert!(!emu.get_psr_bit(SRMask::Carry));
    assert!(emu.get_psr_bit(SRMask::Negative));
}

#[test]
fn adc_negative_plus_negative_overflows() {
    let mut emu = with(0x90, false);
    emu.adc(0x90);
    assert_eq!(emu.a, 0x20);
    assert!(emu.get_psr_bit(SRMask::Overflow));
    assert!(emu.get_psr_bit(SRMask::Carry));
}

#[test]
fn adc_mixed_signs_never_overflow() {
    let mut emu = with(0x50, false);
    emu.adc(0x90);
    assert_eq!(emu.a, 0xe0);
    assert!(!emu.get_psr_bit(SRMask::Overflow));
    assert!(!emu.get_psr_bit(SRMask::Carry));
    let mut emu = with(0xd0, false);
    emu.adc(0x50);
    assert_eq!(emu.a, 0x20);
    assert!(!emu.get_psr_bit(SRMask::Overflow));
    assert!(emu.get_psr_bit(SRMask::Carry));
}

#[test]
fn adc_takes_carry_in() {
    let mut emu = with(0xff, true);
    emu.adc(0x00);
    assert_eq!(emu.a, 0x00);
    assert!(emu.get_psr_bit(SRMask::Carry));
    assert!(emu.get_psr_bit(SRMask::Zero));
    assert!(!emu.get_psr_bit(SRMask::Overflow));
    let mut emu = with(0x7f, true);
    emu.adc(0x00);
    assert_eq!(emu.a, 0x80);
    assert!(emu.get_psr_bit(SRMask::Overflow));
}

#[test]
fn sbc_without_borrow() {
    let mut emu = with(0x50, true);
    emu.sbc(0x10);
    assert_eq!(emu.a, 0x40);
    assert!(emu.get_psr_bit(SRMask::Carry));
    assert!(!emu.get_psr_bit(SRMask::Overflow));
}

#[test]
fn sbc_with_borrow() {
    let mut emu = with(0x50, false);
    emu.sbc(0x10);
    assert_eq!(emu.a, 0x3f);
    assert!(emu.get_psr_bit(SRMask::Carry));
    let mut emu = with(0x10, true);
    emu.sbc(0x20);
    assert_eq!(emu.a, 0xf0);
    assert!(!emu.get_psr_bit(SRMask::Carry));
    assert!(emu.get_psr_bit(SRMask::Negative));
}

#[test]
fn sbc_overflows_on_differing_signs() {
    let mut emu = with(0x50, true);
    emu.sbc(0xb0);
    assert_eq!(emu.a, 0xa0);
    assert!(emu.get_psr_bit(SRMask::Overflow));
    let mut emu = with(0xd0, true);
    emu.sbc(0x70);
    assert_eq!(emu.a, 0x60);
    assert!(emu.get_psr_bit(SRMask::Overflow));
    let mut emu = with(0x50, true);
    emu.sbc(0x70);
    assert_eq!(emu.a, 0xe0);
    assert!(!emu.get_psr_bit(SRMask::Overflow));
}

#[test]
fn compares_set_carry_for_at_least() {
    for r in [0x00u8, 0x01, 0x7f, 0x80, 0xff] {
        for m in [0x00u8, 0x01, 0x7f, 0x80, 0xff] {
            let mut emu = cpu();
            emu.a = r;
            emu.cmp(m);
            assert_eq!(emu.get_psr_bit(SRMask::Carry), r >= m);
            assert_eq!(emu.get_psr_bit(SRMask::Zero), r == m);
            assert_eq!(emu.get_psr_bit(SRMask::Negative), r.wrapping_sub(m) & 0x80 != 0);
            assert_eq!(emu.a, r);

            let mut emu = cpu();
            emu.x = r;
            emu.a = 0xff;
            emu.cpx(m);
            assert_eq!(emu.get_psr_bit(SRMask::Carry), r >= m);
            assert_eq!(emu.get_psr_bit(SRMask::Zero), r == m);
            assert_eq!(emu.x, r);

            let mut emu = cpu();
            emu.y = r;
            emu.a = 0x00;
            emu.cpy(m);
            assert_eq!(emu.get_psr_bit(SRMask::Carry), r >= m);
            assert_eq!(emu.get_psr_bit(SRMask::Zero), r == m);
            assert_eq!(emu.y, r);
        }
    }
}

#[test]
fn logic_operations() {
    let mut emu = cpu();
    emu.a = 0b1100_1010;
    emu.and(0b1010_0110);
    assert_eq!(emu.a, 0b1000_0010);
    assert!(emu.get_psr_bit(SRMask::Negative));
    emu.ora(0b0101_0101);
    assert_eq!(emu.a, 0b1101_0111);
    emu.eor(0b1101_0111);
    assert_eq!(emu.a, 0);
    assert!(emu.get_psr_bit(SRMask::Zero));
    assert!(!emu.get_psr_bit(SRMask::Negative));
}

#[test]
fn loads_set_zero_and_negative() {
    let mut emu = cpu();
    emu.lda(0x80);
    assert_eq!(emu.a, 0x80);
    assert!(emu.get_psr_bit(SRMask::Negative));
    emu.ldx(0x00);
    assert_eq!(emu.x, 0x00);
    assert!(emu.get_psr_bit(SRMask::Zero));
    assert!(!emu.get_psr_bit(SRMask::Negative));
    emu.ldy(0x01);
    assert_eq!(emu.y, 0x01);
    assert!(!emu.get_psr_bit(SRMask::Zero));
}

#[test]
fn bit_copies_bits_six_and_seven() {
    let mut emu = cpu();
    emu.a = 0x0f;
    emu.bit(0xc0);
    assert!(emu.get_psr_bit(SRMask::Zero));
    assert!(emu.get_psr_bit(SRMask::Negative));
    assert!(emu.get_psr_bit(SRMask::Overflow));
    assert_eq!(emu.a, 0x0f);
    emu.bit(0x41);
    assert!(!emu.get_psr_bit(SRMask::Zero));
    assert!(!emu.get_psr_bit(SRMask::Negative));
    assert!(emu.get_psr_bit(SRMask::Overflow));
    emu.bit(0x01);
    assert!(!emu.get_psr_bit(SRMask::Overflow));
}

#[test]
fn shifts_and_rotates_for_every_byte() {
    for carry in [false, true] {
        for b in 0..=255u8 {
            let c = carry as u8;
            let mut emu = with(0x33, carry);
            assert_eq!(emu.asl(b), b << 1);
            assert_eq!(emu.get_psr_bit(SRMask::Carry), b & 0x80 != 0);
            assert_eq!(emu.get_psr_bit(SRMask::Zero), b << 1 == 0);
            assert_eq!(emu.get_psr_bit(SRMask::Negative), (b << 1) & 0x80 != 0);
            assert_eq!(emu.a, 0x33);

            let mut emu = with(0x33, carry);
            assert_eq!(emu.lsr(b), b >> 1);
            assert_eq!(emu.get_psr_bit(SRMask::Carry), b & 1 != 0);
            assert_eq!(emu.get_psr_bit(SRMask::Zero), b >> 1 == 0);
            assert!(!emu.get_psr_bit(SRMask::Negative));

            let mut emu = with(0x33, carry);
            assert_eq!(emu.rol(b), b << 1 | c);
            assert_eq!(emu.get_psr_bit(SRMask::Carry), b & 0x80 != 0);
            assert_eq!(emu.get_psr_bit(SRMask::Zero), b << 1 | c == 0);

            let mut emu = with(0x33, carry);
            assert_eq!(emu.ror(b), b >> 1 | c << 7);
            assert_eq!(emu.get_psr_bit(SRMask::Carry), b & 1 != 0);
            assert_eq!(emu.get_psr_bit(SRMask::Negative), carry);
        }
    }
}

#[test]
fn shift_exact_values() {
    let mut emu = with(0, false);
    assert_eq!(emu.asl(0x81), 0x02);
    assert!(emu.get_psr_bit(SRMask::Carry));
    assert_eq!(emu.rol(0x40), 0x81);
    assert!(!emu.get_psr_bit(SRMask::Carry));
    assert_eq!(emu.lsr(0x03), 0x01);
    assert!(emu.get_psr_bit(SRMask::Carry));
    assert_eq!(emu.ror(0x02), 0x81);
    assert!(!emu.get_psr_bit(SRMask::Carry));
}
