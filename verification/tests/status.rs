use emu6502::emulator::Emulator;
use emu6502::status::SRMask;

const FLAGS: [SRMask; 8] = [
    SRMask::Carry,
    SRMask::Zero,
    SRMask::Interrupt,
    SRMask::Decimal,
    SRMask::Break,
    SRMask::Reserved,
    SRMask::Overflow,
    SRMask::Negative,
];

fn fresh() -> Emulator {
    Emulator::init([0u8; 0x8000])
}

#[test]
fn masks_are_the_eight_bits_in_order() {
    for (i, flag) in FLAGS.iter().enumerate() {
        assert_eq!(flag.mask(), 1u8 << i);
    }
}

#[test]
fn reset_sets_reserved_only() {
    let emu = fresh();
    assert_eq!(emu.sr, 0b0010_0000);
    for flag in FLAGS {
        assert_eq!(emu.get_psr_bit(flag), flag == SRMask::Reserved);
    }
}

#[test]
fn set_sr_bit_changes_one_flag() {
    for start in [0x00u8, 0xff, 0xa5, 0x5a] {
        for flag in FLAGS {
            for val in [false, true] {
                let mut emu = fresh();
                emu.sr = start;
                emu.set_sr_bit(flag, val);
                for other in FLAGS {
                    let expected = if other == flag { val } else { start & other.mask() != 0 };
                    assert_eq!(emu.get_psr_bit(other), expected);
                }
            }
        }
    }
}

#[test]
fn set_sr_bit_exact_bytes() {
    let mut emu = fresh();
    emu.sr = 0b0010_0000;
    emu.set_sr_bit(SRMask::Carry, true);
    assert_eq!(emu.sr, 0b0010_0001);
    emu.set_sr_bit(SRMask::Negative, true);
    assert_eq!(emu.sr, 0b1010_0001);
    emu.set_sr_bit(SRMask::Carry, false);
    assert_eq!(emu.sr, 0b1010_0000);
    emu.set_sr_bit(SRMask::Carry, false);
    assert_eq!(emu.sr, 0b1010_0000);
}

#[test]
fn set_nz_for_every_byte() {
    for start in [0x00u8, 0xff, 0x20, 0x82, 0x7d] {
        for b in 0..=255u8 {
            let mut emu = fresh();
            emu.sr = start;
            emu.set_nz(b);
            assert_eq!(emu.get_psr_bit(SRMask::Zero), b == 0, "zero for {:02x}", b);
            assert_eq!(emu.get_psr_bit(SRMask::Negative), b & 0x80 != 0, "negative for {:02x}", b);
            assert_eq!(emu.sr & 0b0111_1101, start & 0b0111_1101);
        }
    }
}

#[test]
fn set_nz_does_not_call_every_nonzero_byte_negative() {
    let mut emu = fresh();
    emu.set_nz(0x01);
    assert!(!emu.get_psr_bit(SRMask::Zero));
    assert!(!emu.get_psr_bit(SRMask::Negative));
    emu.set_nz(0x7f);
    assert!(!emu.get_psr_bit(SRMask::Negative));
    emu.set_nz(0x80);
    assert!(emu.get_psr_bit(SRMask::Negative));
    assert!(!emu.get_psr_bit(SRMask::Zero));
    emu.set_nz(0x00);
    assert!(emu.get_psr_bit(SRMask::Zero));
    assert!(!emu.get_psr_bit(SRMask::Negative));
}
