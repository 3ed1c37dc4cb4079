use gb_core::cpu::{Clock, Cpu, CpuError, Register16bit, Register8bit};
use gb_core::memory::Memory;
use gb_core::register::Flags::{C, H, N, Z};
use gb_core::register::Registers;

const TEST_SP_ADDR: u16 = 0x000F;

fn create_cpu() -> Cpu {
    Cpu {
        ime: false,
        clock: Clock { m: 0 },
        registers: Registers::default(),
        memory: Memory::new(),
        halted: false,
    }
}

#[test]
fn test_get_register_from_register16bit() {
    let mut cpu = create_cpu();
    cpu.registers.write_bc(0x1234);
    cpu.registers.write_de(0x5678);
    cpu.registers.write_hl(0x9ABC);

    assert_eq!(cpu.get_register_from_register16bit(Register16bit::BC), 0x1234);
    assert_eq!(cpu.get_register_from_register16bit(Register16bit::DE), 0x5678);
    assert_eq!(cpu.get_register_from_register16bit(Register16bit::HL), 0x9ABC);
}

#[test]
fn test_load_16bit_value_into_register() {
    let mut cpu = create_cpu();

    cpu.load_16bit_value_into_register(Register16bit::BC, 0x1111);
    assert_eq!(cpu.registers.get_bc(), 0x1111);
    assert_eq!(cpu.clock.m, 10);

    cpu.load_16bit_value_into_register(Register16bit::DE, 0x2222);
    assert_eq!(cpu.registers.get_de(), 0x2222);
    assert_eq!(cpu.clock.m, 20);

    cpu.load_16bit_value_into_register(Register16bit::HL, 0x3333);
    assert_eq!(cpu.registers.get_hl(), 0x3333);
    assert_eq!(cpu.clock.m, 30);
}

#[test]
fn test_load_8bit_value_into_register() {
    let mut cpu = create_cpu();

    cpu.load_8bit_value_into_register(Register8bit::A, 0xAA);
    assert_eq!(cpu.registers.a, 0xAA);
    assert_eq!(cpu.clock.m, 7);

    cpu.load_8bit_value_into_register(Register8bit::B, 0xBB);
    assert_eq!(cpu.registers.b, 0xBB);
    assert_eq!(cpu.clock.m, 14);
}

#[test]
fn test_inc_u8_refm() {
    let mut val = 0xFE;
    assert_eq!(Cpu::inc_u8_refm(&mut val), 0xFF);
    assert_eq!(val, 0xFF);

    assert_eq!(Cpu::inc_u8_refm(&mut val), 0x00);
    assert_eq!(val, 0x00);
}

#[test]
fn test_inc_8bit_register() {
    let mut cpu = create_cpu();
    cpu.registers.a = 0xFE;
    cpu.inc_8bit_register(Register8bit::A);
    assert_eq!(cpu.registers.a, 0xFF);
    assert_eq!(cpu.registers.get_flag(Z), false);
    assert_eq!(cpu.registers.get_flag(H), false);
    assert_eq!(cpu.clock.m, 4);
}

#[test]
fn test_inc_16bit_register() {
    let mut cpu = create_cpu();
    cpu.registers.write_bc(0xFFFE);
    cpu.inc_16bit_register(Register16bit::BC);
    assert_eq!(cpu.registers.get_bc(), 0xFFFF);
    assert_eq!(cpu.clock.m, 8);
}

#[test]
fn test_dec_8bit_register() {
    let mut cpu = create_cpu();
    cpu.registers.a = 0x01;
    cpu.dec_8bit_register(Register8bit::A);
    assert_eq!(cpu.registers.a, 0x00);
    assert_eq!(cpu.registers.get_flag(Z), true);
    assert_eq!(cpu.registers.get_flag(N), true);
    assert_eq!(cpu.registers.get_flag(H), true);
    assert_eq!(cpu.clock.m, 4);
}

#[test]
fn test_dec_16bit_register() {
    let mut cpu = create_cpu();
    cpu.registers.write_bc(0x0001);
    cpu.dec_16bit_register(Register16bit::BC);
    assert_eq!(cpu.registers.get_bc(), 0);
    assert_eq!(cpu.clock.m, 6);
}

#[test]
fn test_use_carry() {
    let mut cpu = create_cpu();
    cpu.registers.flag(C, true);
    assert_eq!(cpu.use_carry(true), 1);
    assert_eq!(cpu.use_carry(false), 0);
}

#[test]
fn test_add_8bit_value() {
    let mut cpu = create_cpu();
    cpu.registers.a = 0x50;
    cpu.add_8bit_value(0x10, false);
    assert_eq!(cpu.registers.a, 0x60);
    assert_eq!(cpu.registers.get_flag(Z), false);
    assert_eq!(cpu.registers.get_flag(N), false);
    assert_eq!(cpu.registers.get_flag(H), false);
    assert_eq!(cpu.registers.get_flag(C), false);
    assert_eq!(cpu.clock.m, 4);
}

#[test]
fn test_add_16bit_value() {
    let mut cpu = create_cpu();
    cpu.registers.write_hl(0x1000);
    cpu.add_16bit_value(0x0100);
    assert_eq!(cpu.registers.get_hl(), 0x1100);
    assert_eq!(cpu.registers.get_flag(H), false);
    assert_eq!(cpu.registers.get_flag(C), false);
    assert_eq!(cpu.registers.get_flag(N), false);
    assert_eq!(cpu.clock.m, 8);
}

#[test]
fn test_sub_8bit_value() {
    let mut cpu = create_cpu();
    cpu.registers.a = 0x60;
    cpu.sub_8bit_value(0x10, false);
    assert_eq!(cpu.registers.a, 0x50);
    assert_eq!(cpu.registers.get_flag(Z), false);
    assert_eq!(cpu.registers.get_flag(N), true);
    assert_eq!(cpu.registers.get_flag(H), false);
    assert_eq!(cpu.registers.get_flag(C), false);
    assert_eq!(cpu.clock.m, 4);
}

#[test]
fn test_push() {
    let mut cpu = create_cpu();
    cpu.registers.sp = TEST_SP_ADDR.wrapping_add(2);
    cpu.push(0x1234);

    assert_eq!(cpu.memory.read_word(TEST_SP_ADDR), 0x1234);
    assert_eq!(cpu.registers.sp, TEST_SP_ADDR);
    assert_eq!(cpu.clock.m, 16);
}

#[test]
fn test_pop_bc() {
    let mut cpu = create_cpu();
    cpu.registers.sp = TEST_SP_ADDR;
    cpu.memory.write_word(TEST_SP_ADDR, 0x1234);
    assert_eq!(cpu.pop_register16bit(Register16bit::BC), Ok(()));

    assert_eq!(cpu.registers.get_bc(), 0x1234);
    assert_eq!(cpu.registers.sp, TEST_SP_ADDR.wrapping_add(2));
    assert_eq!(cpu.clock.m, 12);
}

#[test]
fn test_pop_de() {
    let mut cpu = create_cpu();
    cpu.registers.sp = TEST_SP_ADDR;
    cpu.memory.write_word(TEST_SP_ADDR, 0x5678);
    assert_eq!(cpu.pop_register16bit(Register16bit::DE), Ok(()));

    assert_eq!(cpu.registers.get_de(), 0x5678);
    assert_eq!(cpu.registers.sp, TEST_SP_ADDR.wrapping_add(2));
    assert_eq!(cpu.clock.m, 12);
}

#[test]
fn test_pop_hl() {
    let mut cpu = create_cpu();
    cpu.registers.sp = TEST_SP_ADDR;
    cpu.memory.write_word(TEST_SP_ADDR, 0x9ABC);
    assert_eq!(cpu.pop_register16bit(Register16bit::HL), Ok(()));

    assert_eq!(cpu.registers.get_hl(), 0x9ABC);
    assert_eq!(cpu.registers.sp, TEST_SP_ADDR.wrapping_add(2));
    assert_eq!(cpu.clock.m, 12);
}

#[test]
fn test_pop_af() {
    let mut cpu = create_cpu();
    cpu.registers.sp = TEST_SP_ADDR;
    cpu.memory.write_word(TEST_SP_ADDR, 0x5678);
    cpu.pop_af();
    assert_eq!(cpu.registers.a, 0x56);

    assert_eq!(cpu.registers.get_af(), 0x5678);
    assert_eq!(cpu.registers.sp, TEST_SP_ADDR.wrapping_add(2));
    assert_eq!(cpu.clock.m, 12);
}

#[test]
fn pop_into_the_stack_pointer_is_refused() {
    let mut cpu = create_cpu();
    cpu.registers.sp = TEST_SP_ADDR;
    cpu.memory.write_word(TEST_SP_ADDR, 0x1234);
    assert_eq!(cpu.pop_register16bit(Register16bit::SP), Err(CpuError::InvalidOperand));
    assert_eq!(cpu.registers.sp, TEST_SP_ADDR);
    assert_eq!(cpu.clock.m, 0);
    assert_eq!(cpu.registers.get_hl(), 0);
}

#[test]
fn new_cpu_is_at_rest() {
    let cpu = Cpu::new();
    assert!(!cpu.ime);
    assert!(!cpu.halted);
    assert_eq!(cpu.clock.m, 0);
    assert_eq!(cpu.registers.sp, 0x3FF2);
    assert_eq!(cpu.registers.pc, 0);
    assert_eq!(cpu.registers.get_af(), 0);
    assert!(cpu.memory.boot_active());
}

#[test]
fn load_16bit_into_the_stack_pointer() {
    let mut cpu = create_cpu();
    cpu.registers.write_hl(0x0102);
    cpu.load_16bit_value_into_register(Register16bit::SP, 0xC0DE);
    assert_eq!(cpu.registers.sp, 0xC0DE);
    assert_eq!(cpu.get_register_from_register16bit(Register16bit::SP), 0xC0DE);
    assert_eq!(cpu.registers.get_hl(), 0x0102);
}

#[test]
fn register16_round_trip_for_every_selector() {
    for v in [0x0000u16, 0x00FF, 0x1234, 0xFFFF] {
        for r in [Register16bit::BC, Register16bit::DE, Register16bit::HL, Register16bit::SP] {
            let mut cpu = create_cpu();
            cpu.load_16bit_value_into_register(r, v);
            assert_eq!(cpu.get_register_from_register16bit(r), v);
        }
    }
}

#[test]
fn register8_selects_each_cell_and_the_memory_operand() {
    let mut cpu = create_cpu();
    cpu.registers.write_hl(0xC100);
    let all = [
        Register8bit::A,
        Register8bit::B,
        Register8bit::C,
        Register8bit::D,
        Register8bit::E,
        Register8bit::HlDirectMemory,
    ];
    for (i, r) in all.iter().enumerate() {
        cpu.write_register8(*r, 0x10 + i as u8);
    }
    assert_eq!(cpu.registers.a, 0x10);
    assert_eq!(cpu.registers.b, 0x11);
    assert_eq!(cpu.registers.c, 0x12);
    assert_eq!(cpu.registers.d, 0x13);
    assert_eq!(cpu.registers.e, 0x14);
    assert_eq!(cpu.memory.read_byte(0xC100), 0x15);
    assert_eq!(cpu.read_register8(Register8bit::HlDirectMemory), 0x15);
    cpu.write_register8(Register8bit::H, 0xC2);
    cpu.write_register8(Register8bit::L, 0x03);
    assert_eq!(cpu.registers.get_hl(), 0xC203);
    assert_eq!(cpu.read_register8(Register8bit::H), 0xC2);
    assert_eq!(cpu.read_register8(Register8bit::L), 0x03);
}

#[test]
fn inc_keeps_carry_and_wraps() {
    let mut cpu = create_cpu();
    cpu.registers.flag(C, true);
    cpu.registers.a = 0xFF;
    cpu.inc_8bit_register(Register8bit::A);
    assert_eq!(cpu.registers.a, 0x00);
    assert!(cpu.registers.get_flag(Z));
    assert!(!cpu.registers.get_flag(N));
    assert!(cpu.registers.get_flag(H));
    assert!(cpu.registers.get_flag(C));
}

#[test]
fn inc_sets_half_carry_when_the_low_nibble_overflows() {
    for (before, after, half) in [
        (0x0Eu8, 0x0Fu8, false),
        (0x0F, 0x10, true),
        (0x10, 0x11, false),
        (0x7F, 0x80, true),
        (0xFE, 0xFF, false),
    ] {
        let mut cpu = create_cpu();
        cpu.registers.b = before;
        cpu.inc_8bit_register(Register8bit::B);
        assert_eq!(cpu.registers.b, after);
        assert_eq!(cpu.registers.get_flag(H), half);
        assert!(!cpu.registers.get_flag(Z));
        assert!(!cpu.registers.get_flag(N));
        assert!(!cpu.registers.get_flag(C));
    }
}

#[test]
fn inc_and_dec_of_the_memory_operand() {
    let mut cpu = create_cpu();
    cpu.registers.write_hl(0xC000);
    cpu.memory.write_byte(0xC000, 0x0F);
    cpu.inc_8bit_register(Register8bit::HlDirectMemory);
    assert_eq!(cpu.memory.read_byte(0xC000), 0x10);
    assert!(cpu.registers.get_flag(H));
    cpu.dec_8bit_register(Register8bit::HlDirectMemory);
    cpu.dec_8bit_register(Register8bit::HlDirectMemory);
    assert_eq!(cpu.memory.read_byte(0xC000), 0x0E);
    assert!(!cpu.registers.get_flag(H));
    assert!(cpu.registers.get_flag(N));
    assert_eq!(cpu.clock.m, 12);
}

#[test]
fn inc_and_dec_16bit_wrap_and_reach_the_stack_pointer() {
    let mut cpu = create_cpu();
    cpu.registers.write_de(0xFFFF);
    cpu.inc_16bit_register(Register16bit::DE);
    assert_eq!(cpu.registers.get_de(), 0x0000);
    cpu.dec_16bit_register(Register16bit::DE);
    assert_eq!(cpu.registers.get_de(), 0xFFFF);
    cpu.registers.sp = 0x0000;
    cpu.dec_16bit_register(Register16bit::SP);
    assert_eq!(cpu.registers.sp, 0xFFFF);
    cpu.inc_16bit_register(Register16bit::SP);
    assert_eq!(cpu.registers.sp, 0x0000);
    assert_eq!(cpu.registers.f, 0);
}

#[test]
fn add_with_carry_in() {
    let mut cpu = create_cpu();
    cpu.registers.flag(C, true);
    cpu.registers.a = 0x0E;
    cpu.add_8bit_value(0x01, true);
    assert_eq!(cpu.registers.a, 0x10);
    assert!(cpu.registers.get_flag(H));
    assert!(!cpu.registers.get_flag(C));
    cpu.registers.flag(C, true);
    cpu.add_8bit_value(0x01, false);
    assert_eq!(cpu.registers.a, 0x11);
}

#[test]
fn sub_with_borrow_in() {
    let mut cpu = create_cpu();
    cpu.registers.flag(C, true);
    cpu.registers.a = 0x10;
    cpu.sub_8bit_value(0x0F, true);
    assert_eq!(cpu.registers.a, 0x00);
    assert!(cpu.registers.get_flag(Z));
    assert!(cpu.registers.get_flag(N));
    assert!(cpu.registers.get_flag(H));
    assert!(!cpu.registers.get_flag(C));
}

#[test]
fn add_16bit_keeps_zero_and_sets_carry() {
    let mut cpu = create_cpu();
    cpu.registers.flag(Z, true).flag(N, true);
    cpu.registers.write_hl(0xFFFF);
    cpu.add_16bit_value(0x0001);
    assert_eq!(cpu.registers.get_hl(), 0x0000);
    assert!(cpu.registers.get_flag(Z));
    assert!(!cpu.registers.get_flag(N));
    assert!(cpu.registers.get_flag(H));
    assert!(cpu.registers.get_flag(C));
}

#[test]
fn compare_sets_flags_and_keeps_the_accumulator() {
    let mut cpu = create_cpu();
    cpu.registers.a = 0x10;
    cpu.compare(0x10);
    assert_eq!(cpu.registers.a, 0x10);
    assert!(cpu.registers.get_flag(Z));
    assert!(cpu.registers.get_flag(N));
    cpu.compare(0x20);
    assert_eq!(cpu.registers.a, 0x10);
    assert!(!cpu.registers.get_flag(Z));
    assert!(cpu.registers.get_flag(C));
    cpu.compare(0x01);
    assert!(!cpu.registers.get_flag(C));
    assert!(cpu.registers.get_flag(H));
    assert_eq!(cpu.clock.m, 12);
}

#[test]
fn bitwise_operations_clear_all_but_zero() {
    let mut cpu = create_cpu();
    cpu.registers.f = 0xF0;
    cpu.registers.a = 0b1100;
    cpu.and(0b1010);
    assert_eq!(cpu.registers.a, 0b1000);
    assert_eq!(cpu.registers.f, 0x00);
    cpu.or(0b0001);
    assert_eq!(cpu.registers.a, 0b1001);
    cpu.xor(0b1001);
    assert_eq!(cpu.registers.a, 0);
    assert_eq!(cpu.registers.f, 0x80);
    assert_eq!(cpu.clock.m, 6);
}

#[test]
fn push_then_pop_round_trip() {
    let mut cpu = create_cpu();
    cpu.registers.sp = 0xD000;
    cpu.push(0x1234);
    assert_eq!(cpu.registers.sp, 0xCFFE);
    assert_eq!(cpu.memory.read_byte(0xCFFE), 0x12);
    assert_eq!(cpu.memory.read_byte(0xCFFF), 0x34);
    assert_eq!(cpu.pop(), 0x1234);
    assert_eq!(cpu.registers.sp, 0xD000);
    assert_eq!(cpu.clock.m, 16);
}

#[test]
fn push_wraps_the_stack_pointer() {
    let mut cpu = create_cpu();
    cpu.registers.sp = 0x0001;
    cpu.push(0xABCD);
    assert_eq!(cpu.registers.sp, 0xFFFF);
    assert_eq!(cpu.pop(), 0xABCD);
    assert_eq!(cpu.registers.sp, 0x0001);
}

#[test]
fn push_into_the_video_range_is_lost() {
    let mut cpu = create_cpu();
    cpu.registers.sp = 0x9000;
    cpu.push(0x1234);
    assert_eq!(cpu.pop(), 0x0000);
    assert_eq!(cpu.registers.sp, 0x9000);
}

#[test]
fn call_taken_and_not_taken() {
    let mut cpu = create_cpu();
    cpu.registers.sp = 0xD000;
    cpu.registers.pc = 0x0153;
    cpu.call(0x2000, false);
    assert_eq!(cpu.registers.pc, 0x0153);
    assert_eq!(cpu.registers.sp, 0xD000);
    assert_eq!(cpu.clock.m, 10);
    cpu.call(0x2000, true);
    assert_eq!(cpu.registers.pc, 0x2000);
    assert_eq!(cpu.registers.sp, 0xCFFE);
    assert_eq!(cpu.memory.read_word(0xCFFE), 0x0153);
    assert_eq!(cpu.clock.m, 27);
}

#[test]
fn return_taken_not_taken_and_plain() {
    let mut cpu = create_cpu();
    cpu.registers.sp = 0xD000;
    cpu.push(0x0153);
    cpu.push(0x0277);
    let start = cpu.clock.m;
    cpu.ret(false);
    assert_eq!(cpu.clock.m - start, 5);
    assert_eq!(cpu.registers.sp, 0xCFFC);
    cpu.ret(true);
    assert_eq!(cpu.clock.m - start, 16);
    assert_eq!(cpu.registers.pc, 0x0277);
    cpu.pure_ret();
    assert_eq!(cpu.clock.m - start, 26);
    assert_eq!(cpu.registers.pc, 0x0153);
    assert_eq!(cpu.registers.sp, 0xD000);
}

#[test]
fn restart_pushes_the_program_counter() {
    for vector in [0x00u16, 0x08, 0x10, 0x18, 0x20, 0x28, 0x30, 0x38] {
        let mut cpu = create_cpu();
        cpu.registers.sp = 0xD000;
        cpu.registers.pc = 0x0421;
        cpu.rst(vector);
        assert_eq!(cpu.registers.pc, vector);
        assert_eq!(cpu.memory.read_word(0xCFFE), 0x0421);
        assert_eq!(cpu.clock.m, 17);
    }
}

#[test]
fn jump_not_taken_costs_less_than_taken() {
    let mut cpu = create_cpu();
    cpu.jump(0x1234, false);
    assert_eq!(cpu.registers.pc, 0);
    assert_eq!(cpu.clock.m, 6);
    cpu.jump(0x1234, true);
    assert_eq!(cpu.registers.pc, 0x1234);
    assert_eq!(cpu.clock.m, 16);
}

#[test]
fn every_branch_costs_more_when_taken() {
    let cost = |run: &dyn Fn(&mut Cpu)| {
        let mut cpu = create_cpu();
        cpu.registers.sp = 0xD000;
        cpu.push(0x0200);
        let before = cpu.clock.m;
        run(&mut cpu);
        cpu.clock.m - before
    };
    assert_eq!(cost(&|cpu| cpu.jump(0x0100, true)), 10);
    assert_eq!(cost(&|cpu| cpu.jump(0x0100, false)), 6);
    assert_eq!(cost(&|cpu| cpu.jr(4, true)), 12);
    assert_eq!(cost(&|cpu| cpu.jr(4, false)), 8);
    assert_eq!(cost(&|cpu| cpu.call(0x0100, true)), 17);
    assert_eq!(cost(&|cpu| cpu.call(0x0100, false)), 10);
    assert_eq!(cost(&|cpu| cpu.ret(true)), 11);
    assert_eq!(cost(&|cpu| cpu.ret(false)), 5);
    assert_eq!(cost(&|cpu| cpu.pure_ret()), 10);
}

#[test]
fn write_register16_counts_no_cycle() {
    for r in [Register16bit::BC, Register16bit::DE, Register16bit::HL, Register16bit::SP] {
        let mut cpu = create_cpu();
        cpu.clock.m = u128::MAX;
        cpu.write_register16(r, 0xA55A);
        assert_eq!(cpu.get_register_from_register16bit(r), 0xA55A);
        assert_eq!(cpu.clock.m, u128::MAX);
    }
}

#[test]
fn store_direct_stores_and_costs_seven() {
    let mut cpu = create_cpu();
    cpu.store_direct(0xC777, 0x3C);
    assert_eq!(cpu.memory.read_byte(0xC777), 0x3C);
    assert_eq!(cpu.clock.m, 7);
    cpu.store_direct(0x4000, 0x3C);
    assert_eq!(cpu.memory.read_byte(0x4000), 0);
    assert_eq!(cpu.clock.m, 14);
}

#[test]
fn set_flags_latches_and_costs_four() {
    let mut cpu = create_cpu();
    cpu.registers.f = 0x0F;
    cpu.set_flags(gb_core::alu::FlagBits { z: true, n: false, h: true, c: false });
    assert_eq!(cpu.registers.f, 0xA0);
    assert_eq!(cpu.clock.m, 4);
}

#[test]
fn relative_jump_is_signed_and_wraps() {
    let mut cpu = create_cpu();
    cpu.registers.pc = 0x0100;
    cpu.jr(5, true);
    assert_eq!(cpu.registers.pc, 0x0105);
    assert_eq!(cpu.clock.m, 12);
    cpu.jr(-6, true);
    assert_eq!(cpu.registers.pc, 0x00FF);
    cpu.jr(-128, false);
    assert_eq!(cpu.registers.pc, 0x00FF);
    assert_eq!(cpu.clock.m, 32);
    cpu.registers.pc = 0x0001;
    cpu.jr(-2, true);
    assert_eq!(cpu.registers.pc, 0xFFFF);
    cpu.jr(127, true);
    assert_eq!(cpu.registers.pc, 0x007E);
}

#[test]
fn read_next_moves_the_program_counter() {
    let mut cpu = create_cpu();
    cpu.memory.write_byte(0x0000, 0xAA);
    cpu.memory.write_byte(0x0001, 0x34);
    cpu.memory.write_byte(0x0002, 0x12);
    assert_eq!(cpu.read_next(), 0xAA);
    assert_eq!(cpu.registers.pc, 1);
    assert_eq!(cpu.read_next_word(), 0x1234);
    assert_eq!(cpu.registers.pc, 3);
    cpu.registers.pc = 0xFFFF;
    assert_eq!(cpu.read_next(), 0);
    assert_eq!(cpu.registers.pc, 0);
}

#[test]
fn load_direct_mem_stores_at_the_pair() {
    let mut cpu = create_cpu();
    cpu.registers.write_de(0xC123);
    cpu.load_direct_mem(Register16bit::DE, 0x5A);
    assert_eq!(cpu.memory.read_byte(0xC123), 0x5A);
    assert_eq!(cpu.clock.m, 7);
}

#[test]
fn bit_test_of_a_clear_bit() {
    for bit in 0..8u8 {
        for carry in [false, true] {
            let mut cpu = create_cpu();
            cpu.registers.flag(C, carry).flag(N, true);
            cpu.registers.b = !(1u8 << bit);
            cpu.bit(bit, Register8bit::B);
            assert!(cpu.registers.get_flag(Z));
            assert!(cpu.registers.get_flag(H));
            assert!(!cpu.registers.get_flag(N));
            assert_eq!(cpu.registers.get_flag(C), carry);
            assert_eq!(cpu.registers.b, !(1u8 << bit));
            assert_eq!(cpu.clock.m, 8);
        }
    }
}

#[test]
fn bit_test_of_a_set_bit() {
    let mut cpu = create_cpu();
    cpu.registers.a = 0x80;
    cpu.bit(7, Register8bit::A);
    assert!(!cpu.registers.get_flag(Z));
    assert!(cpu.registers.get_flag(H));
}

#[test]
fn reset_clears_only_the_named_bit() {
    let mut cpu = create_cpu();
    cpu.registers.c = 0xFF;
    cpu.res(3, Register8bit::C);
    assert_eq!(cpu.registers.c, 0xF7);
    cpu.res(3, Register8bit::C);
    assert_eq!(cpu.registers.c, 0xF7);
    cpu.res(0, Register8bit::C);
    assert_eq!(cpu.registers.c, 0xF6);
    assert_eq!(cpu.registers.f, 0);
    assert_eq!(cpu.clock.m, 24);
}

#[test]
fn set_sets_only_the_named_bit() {
    let mut cpu = create_cpu();
    cpu.registers.write_hl(0xC000);
    cpu.set(7, Register8bit::HlDirectMemory);
    assert_eq!(cpu.memory.read_byte(0xC000), 0x80);
    cpu.set(0, Register8bit::HlDirectMemory);
    assert_eq!(cpu.memory.read_byte(0xC000), 0x81);
    assert_eq!(cpu.registers.f, 0);
}

#[test]
fn decimal_adjust_after_subtraction() {
    let mut cpu = create_cpu();
    cpu.registers.a = 0x0A;
    cpu.registers.flag(N, true);
    cpu.daa();
    assert_eq!(cpu.registers.a, 0x04);
    assert!(!cpu.registers.get_flag(C));
    assert!(cpu.registers.get_flag(N));
    assert!(!cpu.registers.get_flag(H));
}

#[test]
fn decimal_adjust_after_addition() {
    let mut cpu = create_cpu();
    cpu.registers.a = 0x0A;
    cpu.registers.flag(H, true);
    cpu.daa();
    assert_eq!(cpu.registers.a, 0x10);
    assert!(!cpu.registers.get_flag(C));
    assert!(!cpu.registers.get_flag(H));
    assert!(!cpu.registers.get_flag(Z));
    assert_eq!(cpu.clock.m, 4);
}

#[test]
fn rotates_cost_four_on_the_accumulator_and_eight_elsewhere() {
    let mut cpu = create_cpu();
    cpu.registers.a = 0x81;
    cpu.shift_left_c(Register8bit::A);
    assert_eq!(cpu.registers.a, 0x03);
    assert!(cpu.registers.get_flag(C));
    assert_eq!(cpu.clock.m, 4);
    cpu.registers.b = 0x01;
    cpu.shift_right_c(Register8bit::B);
    assert_eq!(cpu.registers.b, 0x80);
    assert!(cpu.registers.get_flag(C));
    assert_eq!(cpu.clock.m, 12);
}

#[test]
fn rotates_through_carry() {
    let mut cpu = create_cpu();
    cpu.registers.flag(C, true);
    cpu.registers.d = 0x00;
    cpu.shift_left(Register8bit::D);
    assert_eq!(cpu.registers.d, 0x01);
    assert!(!cpu.registers.get_flag(C));
    cpu.registers.flag(C, true);
    cpu.registers.e = 0x02;
    cpu.shift_right(Register8bit::E);
    assert_eq!(cpu.registers.e, 0x81);
    assert!(!cpu.registers.get_flag(C));
    cpu.registers.e = 0x01;
    cpu.shift_right(Register8bit::E);
    assert_eq!(cpu.registers.e, 0x00);
    assert!(cpu.registers.get_flag(C));
    assert!(cpu.registers.get_flag(Z));
}

#[test]
fn shifts_and_swap_on_registers() {
    let mut cpu = create_cpu();
    cpu.registers.b = 0x80;
    cpu.sla(Register8bit::B);
    assert_eq!(cpu.registers.b, 0x00);
    assert!(cpu.registers.get_flag(Z));
    assert!(cpu.registers.get_flag(C));
    cpu.registers.c = 0x81;
    cpu.sra(Register8bit::C);
    assert_eq!(cpu.registers.c, 0xC0);
    assert!(cpu.registers.get_flag(C));
    assert!(!cpu.registers.get_flag(Z));
    cpu.registers.d = 0x81;
    cpu.srl(Register8bit::D);
    assert_eq!(cpu.registers.d, 0x40);
    assert!(cpu.registers.get_flag(C));
    assert_eq!(cpu.clock.m, 24);
    cpu.registers.e = 0xA5;
    cpu.swap(Register8bit::E);
    assert_eq!(cpu.registers.e, 0x5A);
    assert_eq!(cpu.registers.f, 0);
    assert_eq!(cpu.clock.m, 26);
}
