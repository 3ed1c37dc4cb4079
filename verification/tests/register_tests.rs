use gb_core::memory::MEM_SIZE;
use gb_core::register::{Flags, Registers};

#[test]
fn test_default_registers() {
    let registers = Registers::default();
    assert_eq!(registers.a, 0);
    assert_eq!(registers.b, 0);
    assert_eq!(registers.c, 0);
    assert_eq!(registers.d, 0);
    assert_eq!(registers.e, 0);
    assert_eq!(registers.f, 0);
    assert_eq!(registers.h, 0);
    assert_eq!(registers.l, 0);
    assert_eq!(registers.pc, 0);
    assert_eq!(registers.sp, (MEM_SIZE as u16) - 0xe);
}

#[test]
fn test_get_bc() {
    let registers = Registers { b: 0x12, c: 0x34, ..Registers::default() };
    assert_eq!(registers.get_bc(), 0x1234);
}

#[test]
fn test_get_de() {
    let registers = Registers { d: 0x56, e: 0x78, ..Registers::default() };
    assert_eq!(registers.get_de(), 0x5678);
}

#[test]
fn test_get_hl() {
    let registers = Registers { h: 0x9A, l: 0xBC, ..Registers::default() };
    assert_eq!(registers.get_hl(), 0x9ABC);
}

#[test]
fn test_write_bc() {
    let mut registers = Registers::default();
    registers.write_bc(0x1234);
    assert_eq!(registers.b, 0x12);
    assert_eq!(registers.c, 0x34);
}

#[test]
fn test_write_de() {
    let mut registers = Registers::default();
    registers.write_de(0x5678);
    assert_eq!(registers.d, 0x56);
    assert_eq!(registers.e, 0x78);
}

#[test]
fn test_write_hl() {
    let mut registers = Registers::default();
    registers.write_hl(0x9ABC);
    assert_eq!(registers.h, 0x9A);
    assert_eq!(registers.l, 0xBC);
}

#[test]
fn test_flag_set() {
    let mut registers = Registers::default();
    registers.flag(Flags::Z, true);
    assert_eq!(registers.get_flag(Flags::Z), true);
    assert_eq!(registers.f, Flags::Z.mask());

    registers.flag(Flags::N, true);
    assert_eq!(registers.get_flag(Flags::N), true);
    assert_eq!(registers.f, Flags::Z.mask() | Flags::N.mask());
}

#[test]
fn test_flag_clear() {
    let mut registers =
        Registers { f: Flags::Z.mask() | Flags::N.mask(), ..Registers::default() };
    registers.flag(Flags::Z, false);
    assert_eq!(registers.get_flag(Flags::Z), false);
    assert_eq!(registers.get_flag(Flags::N), true);
    assert_eq!(registers.f, Flags::N.mask());
}

#[test]
fn test_get_flag() {
    let mut registers = Registers::default();
    registers.flag(Flags::H, true);
    assert_eq!(registers.get_flag(Flags::H), true);

    registers.flag(Flags::C, true);
    assert_eq!(registers.get_flag(Flags::C), true);
}

#[test]
fn test_write_af() {
    let mut registers = Registers::default();
    let value = 0x1234;
    registers.write_af(value);
    assert_eq!(registers.a, 0x12);
    assert_eq!(registers.f, 0x34);
}

#[test]
fn test_get_af() {
    let registers = Registers { a: 0x12, f: 0x34, ..Registers::default() };
    assert_eq!(registers.get_af(), 0x1234);
}

#[test]
fn flag_masks_are_the_top_nibble_bits() {
    assert_eq!(Flags::Z.mask(), 0b1000_0000);
    assert_eq!(Flags::N.mask(), 0b0100_0000);
    assert_eq!(Flags::H.mask(), 0b0010_0000);
    assert_eq!(Flags::C.mask(), 0b0001_0000);
}

#[test]
fn pair_round_trip_for_every_pair() {
    for v in [0x0000u16, 0x0001, 0x00FF, 0x0100, 0x1234, 0x8000, 0xABCD, 0xFFFF] {
        let mut registers = Registers::default();
        assert_eq!(registers.write_bc(v), v);
        assert_eq!(registers.get_bc(), v);
        assert_eq!(registers.write_de(v), v);
        assert_eq!(registers.get_de(), v);
        assert_eq!(registers.write_hl(v), v);
        assert_eq!(registers.get_hl(), v);
        assert_eq!(registers.write_af(v), v);
        assert_eq!(registers.get_af(), v);
    }
}

#[test]
fn writing_a_pair_leaves_the_other_cells() {
    let mut registers = Registers { a: 1, d: 4, e: 5, h: 6, l: 7, ..Registers::default() };
    registers.write_bc(0xBEEF);
    assert_eq!(registers.a, 1);
    assert_eq!(registers.d, 4);
    assert_eq!(registers.e, 5);
    assert_eq!(registers.h, 6);
    assert_eq!(registers.l, 7);
    assert_eq!(registers.f, 0);
    assert_eq!(registers.pc, 0);
    assert_eq!(registers.sp, 0x3FF2);
}

#[test]
fn flag_write_clears_the_low_nibble_whatever_it_held() {
    for prior in [0x00u8, 0x0F, 0x34, 0xFF, 0xA5, 0x01] {
        for set in [true, false] {
            for flag in [Flags::Z, Flags::N, Flags::H, Flags::C] {
                let mut registers = Registers { f: prior, ..Registers::default() };
                registers.flag(flag, set);
                assert_eq!(registers.f & 0x0F, 0);
                assert_eq!(registers.get_flag(flag), set);
            }
        }
    }
}

#[test]
fn flag_write_keeps_the_other_flags() {
    let mut registers = Registers { f: 0xFF, ..Registers::default() };
    registers.flag(Flags::H, false);
    assert_eq!(registers.f, 0xD0);
    assert!(registers.get_flag(Flags::Z));
    assert!(registers.get_flag(Flags::N));
    assert!(!registers.get_flag(Flags::H));
    assert!(registers.get_flag(Flags::C));
}

#[test]
fn flag_calls_chain() {
    let mut registers = Registers::default();
    registers.flag(Flags::Z, true).flag(Flags::C, true).flag(Flags::Z, false);
    assert_eq!(registers.f, 0x10);
}
