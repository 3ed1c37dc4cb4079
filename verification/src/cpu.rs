//! The processor state and the operations that instructions are made of.
//! Each operation is stated as a function on `CpuState`, the mathematical
//! value of a processor, and the executable method is proved to compute it.

use vstd::prelude::*;
use crate::alu::{
    add16, add16_spec, add8, add8_spec, and8, bit_is_set, bit_reset, bit_reset_spec, bit_set,
    bit_set_spec, bit_test, bit_test_spec, daa, daa_spec, dec8, dec8_spec, inc8, inc8_spec,
    logic_flags, or8, rotate_left, rotate_left_carry, rotate_left_carry_spec, rotate_left_spec,
    rotate_right, rotate_right_carry, rotate_right_carry_spec, rotate_right_spec, shift_left,
    shift_left_spec,
    shift_right_arithmetic, shift_right_arithmetic_spec, shift_right_logical,
    shift_right_logical_spec, sub8, sub8_spec, swap, swap_spec, xor8, FlagBits,
};
use crate::helper::{combine_u8_to_u16, high_byte, low_byte, word_of};
use crate::memory::{lemma_word_read_after_write, Memory, MemoryView};
use crate::register::{flag_in, lemma_flag_byte, Flags, Registers};

verus! {

/// The cycle accumulator: elapsed machine cycles since construction.
pub struct Clock {
    pub m: u128,
}

/// A selector for an 8-bit operand: one of the seven registers, or the byte
/// in memory that HL points to.
#[derive(Copy, Clone, Debug, PartialEq, Eq, Structural)]
pub enum Register8bit {
    A,
    B,
    C,
    D,
    E,
    H,
    L,
    HlDirectMemory,
}

/// A selector for a 16-bit operand: a register pair or the stack pointer.
#[derive(Copy, Clone, Debug, PartialEq, Eq, Structural)]
pub enum Register16bit {
    BC,
    DE,
    HL,
    SP,
}

/// The conditions that are fatal to emulation.
#[derive(Copy, Clone, Debug, PartialEq, Eq, Structural)]
pub enum CpuError {
    /// The opcode has no entry in its table.
    UnimplementedOpcode(u8),
    /// An operation was asked for an operand it cannot take.
    InvalidOperand,
}

/// The processor: registers, memory, clock, interrupt-master-enable flag
/// and run state, owned as one value.
pub struct Cpu {
    pub ime: bool,
    pub clock: Clock,
    pub halted: bool,
    pub memory: Memory,
    pub registers: Registers,
}

/// The mathematical value of a processor: register file, address space,
/// elapsed cycles, interrupt-master-enable flag and run state.
pub struct CpuState {
    pub regs: Registers,
    pub mem: MemoryView,
    pub cycles: nat,
    pub ime: bool,
    pub halted: bool,
}

/// The address `pc` moved by `n`, modulo 65536.
pub open spec fn offset_address(pc: u16, n: int) -> u16 {
    ((pc + n) % 0x10000) as u16
}

impl CpuState {
    /// Each store of the address space has its fixed size.
    pub open spec fn wf(self) -> bool {
        self.mem.wf()
    }

    /// The four flags that the flag byte holds.
    pub open spec fn flags(self) -> FlagBits {
        FlagBits {
            z: flag_in(self.regs.f, Flags::Z),
            n: flag_in(self.regs.f, Flags::N),
            h: flag_in(self.regs.f, Flags::H),
            c: flag_in(self.regs.f, Flags::C),
        }
    }

    /// The state with the four flags latched; the low nibble of the flag byte
    /// becomes zero.
    pub open spec fn with_flags(self, bits: FlagBits) -> CpuState {
        CpuState { regs: Registers { f: bits.byte(), ..self.regs }, ..self }
    }

    /// The state after `n` more cycles.
    pub open spec fn tick(self, n: nat) -> CpuState {
        CpuState { cycles: self.cycles + n, ..self }
    }

    /// The state with the program counter at `pc`.
    pub open spec fn with_pc(self, pc: u16) -> CpuState {
        CpuState { regs: Registers { pc, ..self.regs }, ..self }
    }

    /// The state with the stack pointer at `sp`.
    pub open spec fn with_sp(self, sp: u16) -> CpuState {
        CpuState { regs: Registers { sp, ..self.regs }, ..self }
    }

    /// The state with the interrupt-master-enable flag at `ime`.
    pub open spec fn with_ime(self, ime: bool) -> CpuState {
        CpuState { ime, ..self }
    }

    /// The state after `byte` was written to memory at `addr`.
    pub open spec fn store(self, addr: u16, byte: u8) -> CpuState {
        CpuState { mem: self.mem.write(addr, byte), ..self }
    }

    /// The state after `word` was written to memory at `addr`, high byte
    /// first.
    pub open spec fn store_word(self, addr: u16, word: u16) -> CpuState {
        CpuState { mem: self.mem.write_word(addr, word), ..self }
    }

    /// The 8-bit operand that `r` selects.
    pub open spec fn reg8(self, r: Register8bit) -> u8 {
        match r {
            Register8bit::A => self.regs.a,
            Register8bit::B => self.regs.b,
            Register8bit::C => self.regs.c,
            Register8bit::D => self.regs.d,
            Register8bit::E => self.regs.e,
            Register8bit::H => self.regs.h,
            Register8bit::L => self.regs.l,
            Register8bit::HlDirectMemory => self.mem.read(self.regs.hl()),
        }
    }

    /// The state after `v` was written to the operand that `r` selects.
    pub open spec fn with_reg8(self, r: Register8bit, v: u8) -> CpuState {
        match r {
            Register8bit::A => CpuState { regs: Registers { a: v, ..self.regs }, ..self },
            Register8bit::B => CpuState { regs: Registers { b: v, ..self.regs }, ..self },
            Register8bit::C => CpuState { regs: Registers { c: v, ..self.regs }, ..self },
            Register8bit::D => CpuState { regs: Registers { d: v, ..self.regs }, ..self },
            Register8bit::E => CpuState { regs: Registers { e: v, ..self.regs }, ..self },
            Register8bit::H => CpuState { regs: Registers { h: v, ..self.regs }, ..self },
            Register8bit::L => CpuState { regs: Registers { l: v, ..self.regs }, ..self },
            Register8bit::HlDirectMemory => self.store(self.regs.hl(), v),
        }
    }

    /// The 16-bit operand that `r` selects.
    pub open spec fn reg16(self, r: Register16bit) -> u16 {
        match r {
            Register16bit::BC => self.regs.bc(),
            Register16bit::DE => self.regs.de(),
            Register16bit::HL => self.regs.hl(),
            Register16bit::SP => self.regs.sp,
        }
    }

    /// The state after `v` was written to the 16-bit operand that `r`
    /// selects, a pair taking the high byte in its first register.
    pub open spec fn with_reg16(self, r: Register16bit, v: u16) -> CpuState {
        match r {
            Register16bit::BC => CpuState {
                regs: Registers { b: high_byte(v), c: low_byte(v), ..self.regs },
                ..self
            },
            Register16bit::DE => CpuState {
                regs: Registers { d: high_byte(v), e: low_byte(v), ..self.regs },
                ..self
            },
            Register16bit::HL => CpuState {
                regs: Registers { h: high_byte(v), l: low_byte(v), ..self.regs },
                ..self
            },
            Register16bit::SP => self.with_sp(v),
        }
    }

    /// The state after `v` was written to the pair AF, the flag byte taking
    /// the low byte as it is.
    pub open spec fn with_af(self, v: u16) -> CpuState {
        CpuState { regs: Registers { a: high_byte(v), f: low_byte(v), ..self.regs }, ..self }
    }

    /// Load a word into a register pair or the stack pointer.
    pub open spec fn load16(self, r: Register16bit, v: u16) -> CpuState {
        self.with_reg16(r, v).tick(10)
    }

    /// Load a byte into an 8-bit operand.
    pub open spec fn load8(self, r: Register8bit, v: u8) -> CpuState {
        self.with_reg8(r, v).tick(7)
    }

    /// Store a byte in memory at `addr`.
    pub open spec fn store_direct(self, addr: u16, v: u8) -> CpuState {
        self.store(addr, v).tick(7)
    }

    /// Store a byte in memory at the address that `r` holds.
    pub open spec fn load_direct(self, r: Register16bit, v: u8) -> CpuState {
        self.store_direct(self.reg16(r), v)
    }

    /// Increment an 8-bit operand; Carry is kept.
    pub open spec fn inc8(self, r: Register8bit) -> CpuState {
        let (v, bits) = inc8_spec(self.reg8(r), self.flags().c);
        self.with_reg8(r, v).with_flags(bits).tick(4)
    }

    /// Decrement an 8-bit operand; Carry is kept.
    pub open spec fn dec8(self, r: Register8bit) -> CpuState {
        let (v, bits) = dec8_spec(self.reg8(r), self.flags().c);
        self.with_reg8(r, v).with_flags(bits).tick(4)
    }

    /// Increment a 16-bit operand, modulo 65536; no flag changes.
    pub open spec fn inc16(self, r: Register16bit) -> CpuState {
        self.with_reg16(r, offset_address(self.reg16(r), 1)).tick(8)
    }

    /// Decrement a 16-bit operand, modulo 65536; no flag changes.
    pub open spec fn dec16(self, r: Register16bit) -> CpuState {
        self.with_reg16(r, offset_address(self.reg16(r), -1)).tick(6)
    }

    /// Add `v`, and the Carry flag where `use_carry` asks for it, to the
    /// accumulator.
    pub open spec fn add_a(self, v: u8, use_carry: bool) -> CpuState {
        let (a, bits) = add8_spec(self.regs.a, v, use_carry && self.flags().c);
        self.with_reg8(Register8bit::A, a).with_flags(bits).tick(4)
    }

    /// Subtract `v`, and the Carry flag where `use_carry` asks for it, from
    /// the accumulator.
    pub open spec fn sub_a(self, v: u8, use_carry: bool) -> CpuState {
        let (a, bits) = sub8_spec(self.regs.a, v, use_carry && self.flags().c);
        self.with_reg8(Register8bit::A, a).with_flags(bits).tick(4)
    }

    /// Compare `v` with the accumulator: the flags of the subtraction, the
    /// accumulator as it was.
    pub open spec fn compare_a(self, v: u8) -> CpuState {
        self.with_flags(sub8_spec(self.regs.a, v, false).1).tick(4)
    }

    /// Add `v` to HL; Zero is kept.
    pub open spec fn add_hl(self, v: u16) -> CpuState {
        let (hl, bits) = add16_spec(self.regs.hl(), v, self.flags().z);
        self.with_reg16(Register16bit::HL, hl).with_flags(bits).tick(8)
    }

    /// The accumulator replaced by `a`, the flags of a bitwise operation
    /// latched.
    pub open spec fn logic_a(self, a: u8) -> CpuState {
        self.with_reg8(Register8bit::A, a).with_flags(logic_flags(a)).tick(2)
    }

    /// Push a word: the stack pointer goes down by two, the word is stored
    /// where it then points.
    pub open spec fn push(self, v: u16) -> CpuState {
        let sp = offset_address(self.regs.sp, -2);
        self.with_sp(sp).store_word(sp, v).tick(16)
    }

    /// The word on top of the stack.
    pub open spec fn top(self) -> u16 {
        self.mem.read_word(self.regs.sp)
    }

    /// Pop a word: the stack pointer goes up by two.
    pub open spec fn pop(self) -> CpuState {
        self.with_sp(offset_address(self.regs.sp, 2))
    }

    /// Pop the top of the stack into a register pair.
    pub open spec fn pop16(self, r: Register16bit) -> CpuState {
        self.pop().with_reg16(r, self.top()).tick(12)
    }

    /// Pop the top of the stack into AF.
    pub open spec fn pop_af(self) -> CpuState {
        self.pop().with_af(self.top()).tick(12)
    }

    /// Call: where `cond` holds, the program counter is pushed and replaced
    /// by `label`.
    pub open spec fn call(self, label: u16, cond: bool) -> CpuState {
        if cond {
            self.push(self.regs.pc).with_pc(label).tick(1)
        } else {
            self.tick(10)
        }
    }

    /// Conditional return: where `cond` holds, the program counter is popped.
    pub open spec fn ret(self, cond: bool) -> CpuState {
        if cond {
            self.pop().with_pc(self.top()).tick(11)
        } else {
            self.tick(5)
        }
    }

    /// Plain return: the program counter is popped, one cycle cheaper than a
    /// conditional return that is taken.
    pub open spec fn pure_ret(self) -> CpuState {
        self.pop().with_pc(self.top()).tick(10)
    }

    /// Restart: the program counter is pushed and replaced by `vector`.
    pub open spec fn rst(self, vector: u16) -> CpuState {
        self.push(self.regs.pc).with_pc(vector).tick(1)
    }

    /// Absolute jump, taken where `cond` holds. A jump that is not taken
    /// saves the four cycles in which the program counter is loaded.
    pub open spec fn jump(self, loc: u16, cond: bool) -> CpuState {
        if cond {
            self.with_pc(loc).tick(10)
        } else {
            self.tick(6)
        }
    }

    /// Relative jump: where `cond` holds, the program counter moves by the
    /// signed displacement `loc`, modulo 65536.
    pub open spec fn jr(self, loc: i16, cond: bool) -> CpuState {
        if cond {
            self.with_pc(offset_address(self.regs.pc, loc as int)).tick(12)
        } else {
            self.tick(8)
        }
    }

    /// The cost of a rotate: four cycles on the accumulator, eight elsewhere.
    pub open spec fn rotate_cost(r: Register8bit) -> nat {
        if r == Register8bit::A {
            4
        } else {
            8
        }
    }

    /// An 8-bit operand replaced by `result.0`, the flags `result.1` latched,
    /// `cost` cycles spent.
    pub open spec fn shifted(self, r: Register8bit, result: (u8, FlagBits), cost: nat) -> CpuState {
        self.with_reg8(r, result.0).with_flags(result.1).tick(cost)
    }

    /// Test a bit of an 8-bit operand; Carry is kept.
    pub open spec fn bit(self, bit: u8, r: Register8bit) -> CpuState {
        self.with_flags(bit_test_spec(self.reg8(r), bit, self.flags().c)).tick(8)
    }

    /// Clear a bit of an 8-bit operand; no flag changes.
    pub open spec fn res(self, bit: u8, r: Register8bit) -> CpuState {
        self.with_reg8(r, bit_reset_spec(self.reg8(r), bit)).tick(8)
    }

    /// Set a bit of an 8-bit operand; no flag changes.
    pub open spec fn set(self, bit: u8, r: Register8bit) -> CpuState {
        self.with_reg8(r, bit_set_spec(self.reg8(r), bit)).tick(8)
    }

    /// Decimal-adjust the accumulator.
    pub open spec fn daa(self) -> CpuState {
        let (a, bits) = daa_spec(self.regs.a, self.flags());
        self.with_reg8(Register8bit::A, a).with_flags(bits).tick(4)
    }

    /// Latch flags with no other change to the registers: the cost of an
    /// instruction that only does that.
    pub open spec fn set_flags(self, bits: FlagBits) -> CpuState {
        self.with_flags(bits).tick(4)
    }

    /// The byte at the program counter.
    pub open spec fn next_byte(self) -> u8 {
        self.mem.read(self.regs.pc)
    }

    /// The word at the program counter, low byte first.
    pub open spec fn next_word(self) -> u16 {
        word_of(self.mem.read(offset_address(self.regs.pc, 1)), self.mem.read(self.regs.pc))
    }

    /// The state with the program counter moved past `n` bytes.
    pub open spec fn skip(self, n: int) -> CpuState {
        self.with_pc(offset_address(self.regs.pc, n))
    }
}

impl View for Cpu {
    type V = CpuState;

    open spec fn view(&self) -> CpuState {
        CpuState {
            regs: self.registers,
            mem: self.memory@,
            cycles: self.clock.m as nat,
            ime: self.ime,
            halted: self.halted,
        }
    }
}

impl Cpu {
    /// Each store of the address space has its fixed size.
    pub open spec fn wf(&self) -> bool {
        self@.wf()
    }

    /// Whether the clock can count `n` more cycles.
    pub open spec fn can_tick(&self, n: nat) -> bool {
        self.clock.m + n <= u128::MAX
    }

    /// A processor at rest: registers at their defaults, memory zeroed with
    /// the boot store mapped in, no cycle elapsed, interrupts disabled,
    /// running.
    pub fn new() -> (cpu: Self)
        ensures
            cpu.wf(),
            cpu.registers == Registers::default_spec(),
            cpu@.mem == MemoryView::zeroed(),
            cpu@.cycles == 0,
            !cpu.ime,
            !cpu.halted,
    {
        Cpu {
            ime: false,
            clock: Clock { m: 0 },
            halted: false,
            memory: Memory::new(),
            registers: Registers::default(),
        }
    }

    /// Counts `n` more cycles.
    pub(crate) fn tick(&mut self, n: u128)
        requires
            old(self).can_tick(n as nat),
        ensures
            final(self)@ == old(self)@.tick(n as nat),
    {
        self.clock.m = self.clock.m + n;
    }

    /// The four flags as the flag byte holds them.
    pub fn flags(&self) -> (bits: FlagBits)
        ensures
            bits == self@.flags(),
    {
        FlagBits {
            z: self.registers.get_flag(Flags::Z),
            n: self.registers.get_flag(Flags::N),
            h: self.registers.get_flag(Flags::H),
            c: self.registers.get_flag(Flags::C),
        }
    }

    /// Latches the four flags.
    pub(crate) fn latch_flags(&mut self, bits: FlagBits)
        ensures
            final(self)@ == old(self)@.with_flags(bits),
    {
        proof {
            lemma_flag_byte(bits.z, bits.n, bits.h, bits.c);
        }
        self.registers.flag(Flags::Z, bits.z).flag(Flags::N, bits.n).flag(Flags::H, bits.h).flag(
            Flags::C,
            bits.c,
        );
    }

    /// The 8-bit operand that `register8bit` selects.
    pub fn read_register8(&self, register8bit: Register8bit) -> (v: u8)
        requires
            self.wf(),
        ensures
            v == self@.reg8(register8bit),
    {
        match register8bit {
            Register8bit::A => self.registers.a,
            Register8bit::B => self.registers.b,
            Register8bit::C => self.registers.c,
            Register8bit::D => self.registers.d,
            Register8bit::E => self.registers.e,
            Register8bit::H => self.registers.h,
            Register8bit::L => self.registers.l,
            Register8bit::HlDirectMemory => self.memory.read_byte(self.registers.get_hl()),
        }
    }

    /// Writes `v` to the 8-bit operand that `register8bit` selects.
    pub fn write_register8(&mut self, register8bit: Register8bit, v: u8)
        requires
            old(self).wf(),
        ensures
            final(self).wf(),
            final(self)@ == old(self)@.with_reg8(register8bit, v),
    {
        match register8bit {
            Register8bit::A => {
                self.registers.a = v;
            },
            Register8bit::B => {
                self.registers.b = v;
            },
            Register8bit::C => {
                self.registers.c = v;
            },
            Register8bit::D => {
                self.registers.d = v;
            },
            Register8bit::E => {
                self.registers.e = v;
            },
            Register8bit::H => {
                self.registers.h = v;
            },
            Register8bit::L => {
                self.registers.l = v;
            },
            Register8bit::HlDirectMemory => {
                let hl = self.registers.get_hl();
                self.memory.write_byte(hl, v);
            },
        }
    }

    /// The 16-bit operand that `register16bit` selects.
    #[inline]
    pub fn get_register_from_register16bit(&self, register16bit: Register16bit) -> (v: u16)
        ensures
            v == self@.reg16(register16bit),
    {
        match register16bit {
            Register16bit::BC => self.registers.get_bc(),
            Register16bit::DE => self.registers.get_de(),
            Register16bit::HL => self.registers.get_hl(),
            Register16bit::SP => self.registers.sp,
        }
    }

    /// Writes `value` to the 16-bit operand that `register16bit` selects; no
    /// cycle is counted.
    pub fn write_register16(&mut self, register16bit: Register16bit, value: u16)
        ensures
            final(self)@ == old(self)@.with_reg16(register16bit, value),
    {
        match register16bit {
            Register16bit::BC => {
                self.registers.write_bc(value);
            },
            Register16bit::DE => {
                self.registers.write_de(value);
            },
            Register16bit::HL => {
                self.registers.write_hl(value);
            },
            Register16bit::SP => {
                self.registers.sp = value;
            },
        }
    }

    /// Loads a word into a register pair or the stack pointer.
    #[inline]
    pub fn load_16bit_value_into_register(&mut self, register16bit: Register16bit, value: u16)
        requires
            old(self).can_tick(10),
        ensures
            final(self)@ == old(self)@.load16(register16bit, value),
    {
        self.write_register16(register16bit, value);
        self.tick(10);
    }

    /// Loads a byte into an 8-bit operand.
    #[inline]
    pub fn load_8bit_value_into_register(&mut self, register8bit: Register8bit, value: u8)
        requires
            old(self).wf(),
            old(self).can_tick(7),
        ensures
            final(self).wf(),
            final(self)@ == old(self)@.load8(register8bit, value),
    {
        self.write_register8(register8bit, value);
        self.tick(7);
    }

    /// Adds one to the byte behind `v`, modulo 256, and hands the new byte
    /// back.
    #[inline(always)]
    pub fn inc_u8_refm(v: &mut u8) -> (r: u8)
        ensures
            r == inc8_spec(*old(v), false).0,
            *final(v) == r,
    {
        *v = v.wrapping_add(1);
        *v
    }

    /// Increments an 8-bit operand and latches Zero, Subtract and Half-carry.
    #[inline]
    pub fn inc_8bit_register(&mut self, register8bit: Register8bit)
        requires
            old(self).wf(),
            old(self).can_tick(4),
        ensures
            final(self).wf(),
            final(self)@ == old(self)@.inc8(register8bit),
    {
        let carry = self.registers.get_flag(Flags::C);
        let (v, bits) = inc8(self.read_register8(register8bit), carry);
        self.write_register8(register8bit, v);
        self.latch_flags(bits);
        self.tick(4);
    }

    /// Increments a 16-bit operand; no flag changes.
    #[inline]
    pub fn inc_16bit_register(&mut self, register16bit: Register16bit)
        requires
            old(self).can_tick(8),
        ensures
            final(self)@ == old(self)@.inc16(register16bit),
    {
        let v = self.get_register_from_register16bit(register16bit).wrapping_add(1);
        self.write_register16(register16bit, v);
        self.tick(8);
    }

    /// Decrements an 8-bit operand and latches Zero, Subtract and Half-carry.
    #[inline]
    pub fn dec_8bit_register(&mut self, register8bit: Register8bit)
        requires
            old(self).wf(),
            old(self).can_tick(4),
        ensures
            final(self).wf(),
            final(self)@ == old(self)@.dec8(register8bit),
    {
        let carry = self.registers.get_flag(Flags::C);
        let (v, bits) = dec8(self.read_register8(register8bit), carry);
        self.write_register8(register8bit, v);
        self.latch_flags(bits);
        self.tick(4);
    }

    /// Decrements a 16-bit operand; no flag changes.
    #[inline]
    pub fn dec_16bit_register(&mut self, register16bit: Register16bit)
        requires
            old(self).can_tick(6),
        ensures
            final(self)@ == old(self)@.dec16(register16bit),
    {
        let v = self.get_register_from_register16bit(register16bit).wrapping_sub(1);
        self.write_register16(register16bit, v);
        self.tick(6);
    }

    /// One where a carry is asked for and the Carry flag is set, else zero.
    #[inline(always)]
    pub fn use_carry(&self, use_carry: bool) -> (c: u8)
        ensures
            c == if use_carry && self@.flags().c {
                1u8
            } else {
                0u8
            },
    {
        if use_carry && self.registers.get_flag(Flags::C) {
            1
        } else {
            0
        }
    }

    /// Adds `value` to the accumulator, with the Carry flag where `use_carry`
    /// asks for it.
    #[inline]
    pub fn add_8bit_value(&mut self, value: u8, use_carry: bool)
        requires
            old(self).can_tick(4),
        ensures
            final(self)@ == old(self)@.add_a(value, use_carry),
    {
        let carry = self.use_carry(use_carry) == 1;
        let (a, bits) = add8(self.registers.a, value, carry);
        self.registers.a = a;
        self.latch_flags(bits);
        self.tick(4);
    }

    /// Adds `value` to HL; Zero is kept.
    #[inline]
    pub fn add_16bit_value(&mut self, value: u16)
        requires
            old(self).can_tick(8),
        ensures
            final(self)@ == old(self)@.add_hl(value),
    {
        let zero = self.registers.get_flag(Flags::Z);
        let (hl, bits) = add16(self.registers.get_hl(), value, zero);
        self.registers.write_hl(hl);
        self.latch_flags(bits);
        self.tick(8);
    }

    /// Subtracts `value` from the accumulator, with the Carry flag where
    /// `use_carry` asks for it.
    #[inline]
    pub fn sub_8bit_value(&mut self, value: u8, use_carry: bool)
        requires
            old(self).can_tick(4),
        ensures
            final(self)@ == old(self)@.sub_a(value, use_carry),
    {
        let carry = self.use_carry(use_carry) == 1;
        let (a, bits) = sub8(self.registers.a, value, carry);
        self.registers.a = a;
        self.latch_flags(bits);
        self.tick(4);
    }

    /// Pushes a word: the stack pointer goes down by two and the word is stored
    /// where it then points.
    pub fn push(&mut self, v: u16)
        requires
            old(self).wf(),
            old(self).can_tick(16),
        ensures
            final(self).wf(),
            final(self)@ == old(self)@.push(v),
    {
        self.registers.sp = self.registers.sp.wrapping_sub(2);
        self.memory.write_word(self.registers.sp, v);
        self.tick(16);
    }

    /// Pops a word: reads it where the stack pointer points and moves the stack
    /// pointer up by two.
    pub fn pop(&mut self) -> (stack_data: u16)
        requires
            old(self).wf(),
        ensures
            stack_data == old(self)@.top(),
            final(self)@ == old(self)@.pop(),
    {
        let stack_data = self.memory.read_word(self.registers.sp);
        self.registers.sp = self.registers.sp.wrapping_add(2);
        stack_data
    }

    /// Pops the top of the stack into a register pair. The stack pointer is
    /// no target: asked for it, the call fails and changes nothing.
    pub fn pop_register16bit(&mut self, register16bit: Register16bit) -> (r: Result<(), CpuError>)
        requires
            old(self).wf(),
            old(self).can_tick(12),
        ensures
            final(self).wf(),
            register16bit == Register16bit::SP ==> r == Err::<(), CpuError>(
                CpuError::InvalidOperand,
            ) && final(self)@ == old(self)@,
            register16bit != Register16bit::SP ==> r == Ok::<(), CpuError>(()) && final(self)@
                == old(self)@.pop16(register16bit),
    {
        match register16bit {
            Register16bit::SP => Err(CpuError::InvalidOperand),
            _ => {
                let stack_data = self.pop();
                self.write_register16(register16bit, stack_data);
                self.tick(12);
                Ok(())
            },
        }
    }

    /// Pops the top of the stack into AF.
    pub fn pop_af(&mut self)
        requires
            old(self).wf(),
            old(self).can_tick(12),
        ensures
            final(self).wf(),
            final(self)@ == old(self)@.pop_af(),
    {
        let v = self.pop();
        self.registers.write_af(v);
        self.tick(12);
    }

    /// Call: where `cond` holds, pushes the program counter and continues at
    /// `label`.
    pub fn call(&mut self, label: u16, cond: bool)
        requires
            old(self).wf(),
            old(self).can_tick(17),
        ensures
            final(self).wf(),
            final(self)@ == old(self)@.call(label, cond),
    {
        if cond {
            self.push(self.registers.pc);
            self.registers.pc = label;
            self.tick(1);
        } else {
            self.tick(10);
        }
    }

    /// Plain return: pops the program counter, one cycle cheaper than a
    /// conditional return that is taken.
    #[inline(always)]
    pub fn pure_ret(&mut self)
        requires
            old(self).wf(),
            old(self).can_tick(10),
        ensures
            final(self).wf(),
            final(self)@ == old(self)@.pure_ret(),
    {
        self.registers.pc = self.pop();
        self.tick(10);
    }

    /// Conditional return: where `cond` holds, pops the program counter.
    pub fn ret(&mut self, cond: bool)
        requires
            old(self).wf(),
            old(self).can_tick(11),
        ensures
            final(self).wf(),
            final(self)@ == old(self)@.ret(cond),
    {
        if cond {
            self.registers.pc = self.pop();
            self.tick(11);
        } else {
            self.tick(5);
        }
    }

    /// Restart: pushes the program counter and continues at `new_pc`, one
    /// of the eight vectors 0x00, 0x08, up to 0x38.
    pub fn rst(&mut self, new_pc: u16)
        requires
            old(self).wf(),
            old(self).can_tick(17),
            new_pc <= 0x38,
            new_pc % 8 == 0,
        ensures
            final(self).wf(),
            final(self)@ == old(self)@.rst(new_pc),
    {
        self.push(self.registers.pc);
        self.registers.pc = new_pc;
        self.tick(1);
    }

    /// Latches the flags of a rotate or shift that gave `result` and moved
    /// `carry_flag` out.
    #[inline(always)]
    fn set_shift_flags(&mut self, result: u8, carry_flag: bool)
        ensures
            final(self)@ == old(self)@.with_flags(
                FlagBits { z: result == 0, n: false, h: false, c: carry_flag },
            ),
    {
        self.latch_flags(FlagBits { z: result == 0, n: false, h: false, c: carry_flag });
    }

    /// Writes the result of a rotate or shift to its operand, latches its
    /// flags and counts its cycles.
    #[inline(always)]
    fn shift_register8bit(&mut self, register8bit: Register8bit, result: (u8, FlagBits), cost: u128)
        requires
            old(self).wf(),
            old(self).can_tick(cost as nat),
            result.1 == (FlagBits { z: result.0 == 0, n: false, h: false, c: result.1.c }),
        ensures
            final(self).wf(),
            final(self)@ == old(self)@.shifted(register8bit, result, cost as nat),
    {
        self.write_register8(register8bit, result.0);
        self.set_shift_flags(result.0, result.1.c);
        self.tick(cost);
    }

    /// Four cycles for a rotate of the accumulator, eight for any other.
    fn rotate_cost(register8bit: Register8bit) -> (cost: u128)
        ensures
            cost == CpuState::rotate_cost(register8bit),
    {
        if let Register8bit::A = register8bit {
            4
        } else {
            8
        }
    }

    /// Rotate left through carry.
    pub fn shift_left(&mut self, register8bit: Register8bit)
        requires
            old(self).wf(),
            old(self).can_tick(8),
        ensures
            final(self).wf(),
            final(self)@ == old(self)@.shifted(
                register8bit,
                rotate_left_carry_spec(old(self)@.reg8(register8bit), old(self)@.flags().c),
                CpuState::rotate_cost(register8bit),
            ),
    {
        let carry = self.registers.get_flag(Flags::C);
        let result = rotate_left_carry(self.read_register8(register8bit), carry);
        self.shift_register8bit(register8bit, result, Self::rotate_cost(register8bit));
    }

    /// Rotate left.
    pub fn shift_left_c(&mut self, register8bit: Register8bit)
        requires
            old(self).wf(),
            old(self).can_tick(8),
        ensures
            final(self).wf(),
            final(self)@ == old(self)@.shifted(
                register8bit,
                rotate_left_spec(old(self)@.reg8(register8bit)),
                CpuState::rotate_cost(register8bit),
            ),
    {
        let result = rotate_left(self.read_register8(register8bit));
        self.shift_register8bit(register8bit, result, Self::rotate_cost(register8bit));
    }

    /// Rotate right.
    pub fn shift_right_c(&mut self, register8bit: Register8bit)
        requires
            old(self).wf(),
            old(self).can_tick(8),
        ensures
            final(self).wf(),
            final(self)@ == old(self)@.shifted(
                register8bit,
                rotate_right_spec(old(self)@.reg8(register8bit)),
                CpuState::rotate_cost(register8bit),
            ),
    {
        let result = rotate_right(self.read_register8(register8bit));
        self.shift_register8bit(register8bit, result, Self::rotate_cost(register8bit));
    }

    /// Rotate right through carry.
    pub fn shift_right(&mut self, register8bit: Register8bit)
        requires
            old(self).wf(),
            old(self).can_tick(8),
        ensures
            final(self).wf(),
            final(self)@ == old(self)@.shifted(
                register8bit,
                rotate_right_carry_spec(old(self)@.reg8(register8bit), old(self)@.flags().c),
                CpuState::rotate_cost(register8bit),
            ),
    {
        let carry = self.registers.get_flag(Flags::C);
        let result = rotate_right_carry(self.read_register8(register8bit), carry);
        self.shift_register8bit(register8bit, result, Self::rotate_cost(register8bit));
    }

    /// Exchanges the nibbles of an 8-bit operand.
    pub fn swap(&mut self, register8bit: Register8bit)
        requires
            old(self).wf(),
            old(self).can_tick(2),
        ensures
            final(self).wf(),
            final(self)@ == old(self)@.shifted(
                register8bit,
                swap_spec(old(self)@.reg8(register8bit)),
                2,
            ),
    {
        let result = swap(self.read_register8(register8bit));
        self.write_register8(register8bit, result.0);
        self.bit_op_set_flags(result.0);
        self.tick(2);
    }

    /// Latches the flags of a bitwise operation that gave `result`.
    fn bit_op_set_flags(&mut self, result: u8)
        ensures
            final(self)@ == old(self)@.with_flags(logic_flags(result)),
    {
        self.latch_flags(FlagBits { z: result == 0, n: false, h: false, c: false });
    }

    /// Replaces the accumulator by the result of a bitwise operation and
    /// latches its flags.
    fn bit_op_register_8bit(&mut self, result: u8)
        requires
            old(self).can_tick(2),
        ensures
            final(self)@ == old(self)@.logic_a(result),
    {
        self.registers.a = result;
        self.bit_op_set_flags(self.registers.a);
        self.tick(2);
    }

    /// Bitwise OR of the accumulator with `v`.
    pub fn or(&mut self, v: u8)
        requires
            old(self).can_tick(2),
        ensures
            final(self)@ == old(self)@.logic_a(old(self).registers.a | v),
    {
        let result = or8(self.registers.a, v);
        self.bit_op_register_8bit(result.0)
    }

    /// Bitwise AND of the accumulator with `v`.
    pub fn and(&mut self, v: u8)
        requires
            old(self).can_tick(2),
        ensures
            final(self)@ == old(self)@.logic_a(old(self).registers.a & v),
    {
        let result = and8(self.registers.a, v);
        self.bit_op_register_8bit(result.0)
    }

    /// Bitwise exclusive OR of the accumulator with `v`.
    pub fn xor(&mut self, v: u8)
        requires
            old(self).can_tick(2),
        ensures
            final(self)@ == old(self)@.logic_a(old(self).registers.a ^ v),
    {
        let result = xor8(self.registers.a, v);
        self.bit_op_register_8bit(result.0)
    }

    /// Compares `v` with the accumulator: latches the flags of the
    /// subtraction and leaves the accumulator as it is.
    pub fn compare(&mut self, v: u8)
        requires
            old(self).can_tick(4),
        ensures
            final(self)@ == old(self)@.compare_a(v),
    {
        let (_, bits) = sub8(self.registers.a, v, false);
        self.latch_flags(bits);
        self.tick(4);
    }

    /// Absolute jump: where `cond` holds, continues at `loc`. A jump that is
    /// not taken costs four cycles less.
    pub fn jump(&mut self, loc: u16, cond: bool)
        requires
            old(self).can_tick(10),
        ensures
            final(self)@ == old(self)@.jump(loc, cond),
    {
        if cond {
            self.registers.pc = loc;
            self.tick(10);
        } else {
            self.tick(6);
        }
    }

    /// Relative jump: where `cond` holds, moves the program counter by the
    /// signed displacement `loc`.
    pub fn jr(&mut self, loc: i16, cond: bool)
        requires
            old(self).can_tick(12),
        ensures
            final(self)@ == old(self)@.jr(loc, cond),
    {
        if cond {
            self.registers.pc = self.registers.pc.wrapping_add_signed(loc);
            self.tick(12);
        } else {
            self.tick(8);
        }
    }

    /// Fetches the byte at the program counter and moves past it.
    pub fn read_next(&mut self) -> (ret: u8)
        requires
            old(self).wf(),
        ensures
            ret == old(self)@.next_byte(),
            final(self)@ == old(self)@.skip(1),
    {
        let ret = self.memory.read_byte(self.registers.pc);
        self.registers.pc = self.registers.pc.wrapping_add(1);
        ret
    }

    /// Fetches the word at the program counter, low byte first, and moves
    /// past it.
    pub fn read_next_word(&mut self) -> (ret: u16)
        requires
            old(self).wf(),
        ensures
            ret == old(self)@.next_word(),
            final(self)@ == old(self)@.skip(2),
    {
        let low = self.memory.read_byte(self.registers.pc);
        let high = self.memory.read_byte(self.registers.pc.wrapping_add(1));
        self.registers.pc = self.registers.pc.wrapping_add(2);
        combine_u8_to_u16(high, low)
    }

    /// Stores `value` in memory at `addr`.
    pub fn store_direct(&mut self, addr: u16, value: u8)
        requires
            old(self).wf(),
            old(self).can_tick(7),
        ensures
            final(self).wf(),
            final(self)@ == old(self)@.store_direct(addr, value),
    {
        self.memory.write_byte(addr, value);
        self.tick(7);
    }

    /// Stores `value` in memory at the address that `register16bit` holds.
    pub fn load_direct_mem(&mut self, register16bit: Register16bit, value: u8)
        requires
            old(self).wf(),
            old(self).can_tick(7),
        ensures
            final(self).wf(),
            final(self)@ == old(self)@.load_direct(register16bit, value),
    {
        let reg = self.get_register_from_register16bit(register16bit);
        self.store_direct(reg, value);
    }

    /// Tests bit `bit` of an 8-bit operand; Carry is kept.
    pub fn bit(&mut self, bit: u8, register8bit: Register8bit)
        requires
            old(self).wf(),
            old(self).can_tick(8),
            bit < 8,
        ensures
            final(self).wf(),
            final(self)@ == old(self)@.bit(bit, register8bit),
    {
        let carry = self.registers.get_flag(Flags::C);
        let bits = bit_test(self.read_register8(register8bit), bit, carry);
        self.latch_flags(bits);
        self.tick(8);
    }

    /// Clears bit `bit` of an 8-bit operand.
    pub fn res(&mut self, bit: u8, register8bit: Register8bit)
        requires
            old(self).wf(),
            old(self).can_tick(8),
            bit < 8,
        ensures
            final(self).wf(),
            final(self)@ == old(self)@.res(bit, register8bit),
    {
        let v = bit_reset(self.read_register8(register8bit), bit);
        self.write_register8(register8bit, v);
        self.tick(8);
    }

    /// Sets bit `bit` of an 8-bit operand.
    pub fn set(&mut self, bit: u8, register8bit: Register8bit)
        requires
            old(self).wf(),
            old(self).can_tick(8),
            bit < 8,
        ensures
            final(self).wf(),
            final(self)@ == old(self)@.set(bit, register8bit),
    {
        let v = bit_set(self.read_register8(register8bit), bit);
        self.write_register8(register8bit, v);
        self.tick(8);
    }

    /// Decimal-adjusts the accumulator.
    pub fn daa(&mut self)
        requires
            old(self).can_tick(4),
        ensures
            final(self)@ == old(self)@.daa(),
    {
        let (a, bits) = daa(self.registers.a, self.flags());
        self.registers.a = a;
        self.latch_flags(bits);
        self.tick(4);
    }

    /// Latches the four flags as an instruction of its own.
    pub fn set_flags(&mut self, bits: FlagBits)
        requires
            old(self).can_tick(4),
        ensures
            final(self)@ == old(self)@.set_flags(bits),
    {
        self.latch_flags(bits);
        self.tick(4);
    }

    /// Shift left.
    pub fn sla(&mut self, register8bit: Register8bit)
        requires
            old(self).wf(),
            old(self).can_tick(8),
        ensures
            final(self).wf(),
            final(self)@ == old(self)@.shifted(
                register8bit,
                shift_left_spec(old(self)@.reg8(register8bit)),
                8,
            ),
    {
        let result = shift_left(self.read_register8(register8bit));
        self.shift_register8bit(register8bit, result, 8);
    }

    /// Arithmetic shift right.
    pub fn sra(&mut self, register8bit: Register8bit)
        requires
            old(self).wf(),
            old(self).can_tick(8),
        ensures
            final(self).wf(),
            final(self)@ == old(self)@.shifted(
                register8bit,
                shift_right_arithmetic_spec(old(self)@.reg8(register8bit)),
                8,
            ),
    {
        let result = shift_right_arithmetic(self.read_register8(register8bit));
        self.shift_register8bit(register8bit, result, 8);
    }

    /// Logical shift right.
    pub fn srl(&mut self, register8bit: Register8bit)
        requires
            old(self).wf(),
            old(self).can_tick(8),
        ensures
            final(self).wf(),
            final(self)@ == old(self)@.shifted(
                register8bit,
                shift_right_logical_spec(old(self)@.reg8(register8bit)),
                8,
            ),
    {
        let result = shift_right_logical(self.read_register8(register8bit));
        self.shift_register8bit(register8bit, result, 8);
    }
}

/// A word written to a 16-bit operand, the stack pointer among them, or to
/// the pair AF, is read back from it as it was written.
pub proof fn lemma_register16_round_trip(s: CpuState, r: Register16bit, v: u16)
    ensures
        s.with_reg16(r, v).reg16(r) == v,
        s.with_af(v).regs.af() == v,
{
}

/// The flags read after a latch are the flags that were latched, and the low
/// nibble of the flag byte is then zero.
pub proof fn lemma_flags_latched(s: CpuState, bits: FlagBits)
    ensures
        s.with_flags(bits).flags() == bits,
        s.with_flags(bits).regs.f & 0x0F == 0,
{
    lemma_flag_byte(bits.z, bits.n, bits.h, bits.c);
}

/// A pop after a push leaves the stack pointer where it was before the push.
/// It gives back the pushed word where a byte is stored behind each of the
/// two addresses under the stack pointer.
pub proof fn lemma_push_pop(s: CpuState, v: u16)
    requires
        s.wf(),
    ensures
        s.push(v).pop().regs.sp == s.regs.sp,
        s.mem.stored(offset_address(s.regs.sp, -2)) && s.mem.stored(offset_address(s.regs.sp, -1))
            ==> s.push(v).top() == v,
{
    let sp = offset_address(s.regs.sp, -2);
    assert(MemoryView::next(sp) == offset_address(s.regs.sp, -1));
    if s.mem.stored(sp) && s.mem.stored(MemoryView::next(sp)) {
        lemma_word_read_after_write(s.mem, sp, v);
    }
}

/// A relative jump, an absolute jump, a call and a conditional return each
/// cost more cycles when taken than when not taken: twelve against eight,
/// ten against six, seventeen against ten, eleven against five. A plain
/// return costs ten. A branch that is not taken changes nothing but the
/// cycle count.
pub proof fn lemma_branch_costs(s: CpuState, target: u16, loc: i16)
    ensures
        s.jr(loc, true).cycles == s.cycles + 12,
        s.jr(loc, false) == s.tick(8),
        s.jump(target, true).cycles == s.cycles + 10,
        s.jump(target, false) == s.tick(6),
        s.call(target, true).cycles == s.cycles + 17,
        s.call(target, false) == s.tick(10),
        s.ret(true).cycles == s.cycles + 11,
        s.ret(false) == s.tick(5),
        s.pure_ret().cycles == s.cycles + 10,
        s.jr(loc, true).cycles > s.jr(loc, false).cycles,
        s.jump(target, true).cycles > s.jump(target, false).cycles,
        s.call(target, true).cycles > s.call(target, false).cycles,
        s.ret(true).cycles > s.ret(false).cycles,
{
}

/// A test of a bit that is clear sets Zero and Half-carry, clears Subtract
/// and keeps Carry; a test of a bit that is set differs only in clearing
/// Zero. Only the flag byte and the cycle count change.
pub proof fn lemma_bit_test(s: CpuState, bit: u8, r: Register8bit)
    requires
        bit < 8,
    ensures
        s.bit(bit, r).flags().z == !bit_is_set(s.reg8(r), bit),
        s.bit(bit, r).flags().h,
        !s.bit(bit, r).flags().n,
        s.bit(bit, r).flags().c == s.flags().c,
        s.bit(bit, r).reg8(r) == s.reg8(r),
        s.bit(bit, r) == s.with_flags(s.bit(bit, r).flags()).tick(8),
{
    lemma_flags_latched(s, bit_test_spec(s.reg8(r), bit, s.flags().c));
}

} // verus!
