//! The execution engine: what each table entry does to the processor, and the
//! single step that fetches an opcode, looks it up and executes it.

use vstd::prelude::*;
use crate::alu::{
    rotate_left_carry_spec, rotate_left_spec, rotate_right_carry_spec, rotate_right_spec,
    shift_left_spec, shift_right_arithmetic_spec, shift_right_logical_spec, swap_spec, FlagBits,
};
use crate::cpu::{offset_address, Cpu, CpuError, CpuState, Register16bit, Register8bit};
use crate::opcode::{
    decode, decode_extended, extended_entry, primary_entry, AluOp, Condition, Extended,
    Instruction, ShiftOp,
};

verus! {

/// The most cycles that one step takes.
pub const MAX_STEP_COST: u128 = 20;

/// The immediate byte `d` read as a signed displacement in two's complement.
pub open spec fn displacement(d: u8) -> i16 {
    if d < 128 {
        d as i16
    } else {
        (d - 256) as i16
    }
}

/// The address 0xFF00 plus `offset`.
pub open spec fn high_address(offset: u8) -> u16 {
    (0xFF00 + offset) as u16
}

impl Instruction {
    /// Whether the entry is a load of a register from a register or an
    /// immediate.
    pub open spec fn is_load(self) -> bool {
        match self {
            Instruction::Load(_, _)
            | Instruction::LoadImmediate(_)
            | Instruction::LoadWord(_)
            | Instruction::LoadHlFromStackPointer
            | Instruction::LoadStackPointerFromHl => true,
            _ => false,
        }
    }

    /// Whether the entry is a load of the accumulator from memory.
    pub open spec fn is_fetch(self) -> bool {
        match self {
            Instruction::LoadAcc(_)
            | Instruction::LoadAccIncrement
            | Instruction::LoadAccDecrement
            | Instruction::LoadHighImmediate
            | Instruction::LoadHighC
            | Instruction::LoadAbsolute => true,
            _ => false,
        }
    }

    /// Whether the entry is a store.
    pub open spec fn is_store(self) -> bool {
        match self {
            Instruction::StoreAcc(_)
            | Instruction::StoreAccIncrement
            | Instruction::StoreAccDecrement
            | Instruction::StoreStackPointer
            | Instruction::StoreHighImmediate
            | Instruction::StoreHighC
            | Instruction::StoreAbsolute => true,
            _ => false,
        }
    }

    /// Whether the entry is an arithmetic, logic or flag operation.
    pub open spec fn is_arithmetic(self) -> bool {
        match self {
            Instruction::Increment16(_)
            | Instruction::Decrement16(_)
            | Instruction::Increment(_)
            | Instruction::Decrement(_)
            | Instruction::RotateAcc(_)
            | Instruction::AddToHl(_)
            | Instruction::DecimalAdjust
            | Instruction::Complement
            | Instruction::SetCarry
            | Instruction::ComplementCarry
            | Instruction::Alu(_, _)
            | Instruction::AluImmediate(_)
            | Instruction::AdjustAcc => true,
            _ => false,
        }
    }

    /// Whether the entry is a control-flow or stack operation.
    pub open spec fn is_control(self) -> bool {
        match self {
            Instruction::Nop
            | Instruction::Stop
            | Instruction::Halt
            | Instruction::DisableInterrupts
            | Instruction::EnableInterrupts
            | Instruction::JumpRelative(_)
            | Instruction::Return(_)
            | Instruction::PlainReturn
            | Instruction::ReturnEnable
            | Instruction::Pop(_)
            | Instruction::PopAf
            | Instruction::Push(_)
            | Instruction::PushAf
            | Instruction::Jump(_)
            | Instruction::JumpHl
            | Instruction::Call(_)
            | Instruction::Restart(_)
            | Instruction::Prefix => true,
            _ => false,
        }
    }
}

impl CpuState {
    /// Whether the flags meet a condition.
    pub open spec fn holds(self, condition: Condition) -> bool {
        match condition {
            Condition::Always => true,
            Condition::NotZero => !self.flags().z,
            Condition::Zero => self.flags().z,
            Condition::NotCarry => !self.flags().c,
            Condition::Carry => self.flags().c,
        }
    }

    /// The result and flags of a rotate or shift of `v`.
    pub open spec fn shift_result(self, op: ShiftOp, v: u8) -> (u8, FlagBits) {
        match op {
            ShiftOp::RotateLeft => rotate_left_spec(v),
            ShiftOp::RotateRight => rotate_right_spec(v),
            ShiftOp::RotateLeftCarry => rotate_left_carry_spec(v, self.flags().c),
            ShiftOp::RotateRightCarry => rotate_right_carry_spec(v, self.flags().c),
            ShiftOp::ShiftLeft => shift_left_spec(v),
            ShiftOp::ShiftRightArithmetic => shift_right_arithmetic_spec(v),
            ShiftOp::Swap => swap_spec(v),
            ShiftOp::ShiftRightLogical => shift_right_logical_spec(v),
        }
    }

    /// The cycles of a rotate or shift: a rotate takes four on the
    /// accumulator and eight elsewhere, a swap two, a shift eight.
    pub open spec fn shift_cost(op: ShiftOp, r: Register8bit) -> nat {
        match op {
            ShiftOp::RotateLeft | ShiftOp::RotateRight | ShiftOp::RotateLeftCarry
            | ShiftOp::RotateRightCarry => Self::rotate_cost(r),
            ShiftOp::Swap => 2,
            ShiftOp::ShiftLeft | ShiftOp::ShiftRightArithmetic | ShiftOp::ShiftRightLogical => 8,
        }
    }

    /// Rotate or shift an 8-bit operand.
    pub open spec fn shift(self, op: ShiftOp, r: Register8bit) -> CpuState {
        self.shifted(r, self.shift_result(op, self.reg8(r)), Self::shift_cost(op, r))
    }

    /// Operate on the accumulator with the byte `v`.
    pub open spec fn alu(self, op: AluOp, v: u8) -> CpuState {
        match op {
            AluOp::Add => self.add_a(v, false),
            AluOp::AddCarry => self.add_a(v, true),
            AluOp::Sub => self.sub_a(v, false),
            AluOp::SubCarry => self.sub_a(v, true),
            AluOp::And => self.logic_a(self.regs.a & v),
            AluOp::Xor => self.logic_a(self.regs.a ^ v),
            AluOp::Or => self.logic_a(self.regs.a | v),
            AluOp::Compare => self.compare_a(v),
        }
    }

    /// The state after an entry of the extended table was executed.
    pub open spec fn execute_extended(self, entry: Extended) -> CpuState {
        match entry {
            Extended::Shift(op, r) => self.shift(op, r),
            Extended::TestBit(bit, r) => self.bit(bit, r),
            Extended::ResetBit(bit, r) => self.res(bit, r),
            Extended::SetBit(bit, r) => self.set(bit, r),
        }
    }

    /// The state after the opcode at the program counter was fetched from the
    /// extended table and executed.
    pub open spec fn step_extended(self) -> CpuState {
        self.skip(1).execute_extended(extended_entry(self.next_byte()))
    }

    /// The state after a load of a register was executed; any other entry
    /// leaves the state as it is.
    pub open spec fn execute_load(self, instruction: Instruction) -> CpuState {
        let hl = self.regs.hl();
        match instruction {
            Instruction::Load(target, source) => self.load8(target, self.reg8(source)),
            Instruction::LoadImmediate(r) => self.skip(1).load8(r, self.next_byte()),
            Instruction::LoadWord(r) => self.skip(2).load16(r, self.next_word()),
            Instruction::LoadHlFromStackPointer => self.skip(1).load16(
                Register16bit::HL,
                offset_address(self.regs.sp, displacement(self.next_byte()) as int),
            ),
            Instruction::LoadStackPointerFromHl => self.load16(Register16bit::SP, hl),
            _ => self,
        }
    }

    /// The state after a load of the accumulator from memory was executed; any
    /// other entry leaves the state as it is.
    pub open spec fn execute_fetch(self, instruction: Instruction) -> CpuState {
        let hl = self.regs.hl();
        match instruction {
            Instruction::LoadAcc(r) => self.load8(Register8bit::A, self.mem.read(self.reg16(r))),
            Instruction::LoadAccIncrement => self.with_reg8(
                Register8bit::A,
                self.mem.read(hl),
            ).with_reg16(Register16bit::HL, offset_address(hl, 1)).tick(8),
            Instruction::LoadAccDecrement => self.with_reg8(
                Register8bit::A,
                self.mem.read(hl),
            ).with_reg16(Register16bit::HL, offset_address(hl, -1)).tick(6),
            Instruction::LoadHighImmediate => self.skip(1).load8(
                Register8bit::A,
                self.mem.read(high_address(self.next_byte())),
            ),
            Instruction::LoadHighC => self.load8(
                Register8bit::A,
                self.mem.read(high_address(self.regs.c)),
            ),
            Instruction::LoadAbsolute => self.skip(2).load8(
                Register8bit::A,
                self.mem.read(self.next_word()),
            ),
            _ => self,
        }
    }

    /// The state after a store was executed; any other entry leaves the state
    /// as it is.
    pub open spec fn execute_store(self, instruction: Instruction) -> CpuState {
        let hl = self.regs.hl();
        match instruction {
            Instruction::StoreAcc(r) => self.load_direct(r, self.regs.a),
            Instruction::StoreAccIncrement => self.store(hl, self.regs.a).with_reg16(
                Register16bit::HL,
                offset_address(hl, 1),
            ).tick(8),
            Instruction::StoreAccDecrement => self.store(hl, self.regs.a).with_reg16(
                Register16bit::HL,
                offset_address(hl, -1),
            ).tick(6),
            Instruction::StoreStackPointer => self.skip(2).store_word(
                self.next_word(),
                self.regs.sp,
            ).tick(20),
            Instruction::StoreHighImmediate => self.skip(1).store_direct(
                high_address(self.next_byte()),
                self.regs.a,
            ),
            Instruction::StoreHighC => self.store_direct(high_address(self.regs.c), self.regs.a),
            Instruction::StoreAbsolute => self.skip(2).store_direct(
                self.next_word(),
                self.regs.a,
            ),
            _ => self,
        }
    }

    /// The state after an arithmetic, logic or flag operation was executed;
    /// any other entry leaves the state as it is.
    pub open spec fn execute_arithmetic(self, instruction: Instruction) -> CpuState {
        match instruction {
            Instruction::Increment16(r) => self.inc16(r),
            Instruction::Decrement16(r) => self.dec16(r),
            Instruction::Increment(r) => self.inc8(r),
            Instruction::Decrement(r) => self.dec8(r),
            Instruction::RotateAcc(op) => self.shift(op, Register8bit::A),
            Instruction::AddToHl(r) => self.add_hl(self.reg16(r)),
            Instruction::DecimalAdjust => self.daa(),
            Instruction::Complement => self.with_reg8(Register8bit::A, !self.regs.a).set_flags(
                FlagBits { n: true, h: true, ..self.flags() },
            ),
            Instruction::SetCarry => self.set_flags(
                FlagBits { n: false, h: false, c: true, ..self.flags() },
            ),
            Instruction::ComplementCarry => self.set_flags(
                FlagBits { n: false, h: false, c: !self.flags().c, ..self.flags() },
            ),
            Instruction::Alu(op, source) => self.alu(op, self.reg8(source)),
            Instruction::AluImmediate(op) => self.skip(1).alu(op, self.next_byte()),
            Instruction::AdjustAcc => if self.next_byte() < 128 {
                self.skip(1).add_a(self.next_byte(), false)
            } else {
                self.skip(1).sub_a((256 - self.next_byte()) as u8, false)
            },
            _ => self,
        }
    }

    /// The state after a control-flow or stack operation was executed; any
    /// other entry leaves the state as it is.
    pub open spec fn execute_control(self, instruction: Instruction) -> CpuState {
        let hl = self.regs.hl();
        match instruction {
            Instruction::Nop => self.tick(1),
            Instruction::Stop => self.tick(4),
            Instruction::Halt => CpuState { halted: true, ..self }.tick(4),
            Instruction::DisableInterrupts => self.with_ime(false).tick(4),
            Instruction::EnableInterrupts => self.with_ime(true).tick(4),
            Instruction::JumpRelative(condition) => self.skip(1).jr(
                displacement(self.next_byte()),
                self.holds(condition),
            ),
            Instruction::Return(condition) => self.ret(self.holds(condition)),
            Instruction::PlainReturn => self.pure_ret(),
            Instruction::ReturnEnable => self.ret(true).with_ime(true),
            Instruction::Pop(r) => self.pop16(r),
            Instruction::PopAf => self.pop_af(),
            Instruction::Push(r) => self.push(self.reg16(r)),
            Instruction::PushAf => self.push(self.regs.af()),
            Instruction::Jump(condition) => self.skip(2).jump(
                self.next_word(),
                self.holds(condition),
            ),
            Instruction::JumpHl => self.jump(hl, true),
            Instruction::Call(condition) => self.skip(2).call(
                self.next_word(),
                self.holds(condition),
            ),
            Instruction::Restart(vector) => self.rst(vector),
            Instruction::Prefix => self.step_extended(),
            _ => self,
        }
    }

    /// The state after an entry of the primary table was executed, the
    /// program counter standing behind the opcode. Immediate operands are
    /// fetched from there on, a word low byte first.
    pub open spec fn execute(self, instruction: Instruction) -> CpuState {
        if instruction.is_load() {
            self.execute_load(instruction)
        } else if instruction.is_fetch() {
            self.execute_fetch(instruction)
        } else if instruction.is_store() {
            self.execute_store(instruction)
        } else if instruction.is_arithmetic() {
            self.execute_arithmetic(instruction)
        } else {
            self.execute_control(instruction)
        }
    }

    /// The state after one step. A halted processor stays as it is. A running
    /// one fetches the opcode at the program counter and moves past it; where
    /// the primary table has an entry for the opcode the entry is executed,
    /// and where it has none nothing more happens.
    pub open spec fn step(self) -> CpuState {
        if self.halted {
            self
        } else {
            match primary_entry(self.next_byte()) {
                Some(instruction) => self.skip(1).execute(instruction),
                None => self.skip(1),
            }
        }
    }

    /// The outcome of one step: the opcode is reported where the primary
    /// table has no entry for it.
    pub open spec fn step_outcome(self) -> Result<(), CpuError> {
        if !self.halted && primary_entry(self.next_byte()) is None {
            Err(CpuError::UnimplementedOpcode(self.next_byte()))
        } else {
            Ok(())
        }
    }
}

/// The immediate byte `d` as a signed displacement.
fn displacement_of(d: u8) -> (loc: i16)
    ensures
        loc == displacement(d),
{
    if d < 128 {
        d as i16
    } else {
        d as i16 - 256
    }
}

/// The address 0xFF00 plus `offset`.
fn high_address_of(offset: u8) -> (addr: u16)
    ensures
        addr == high_address(offset),
{
    0xFF00 + (offset as u16)
}

impl Cpu {
    /// Whether the flags meet a condition.
    pub fn holds(&self, condition: Condition) -> (held: bool)
        ensures
            held == self@.holds(condition),
    {
        let bits = self.flags();
        match condition {
            Condition::Always => true,
            Condition::NotZero => !bits.z,
            Condition::Zero => bits.z,
            Condition::NotCarry => !bits.c,
            Condition::Carry => bits.c,
        }
    }

    /// Rotates or shifts an 8-bit operand.
    pub fn shift(&mut self, op: ShiftOp, register8bit: Register8bit)
        requires
            old(self).wf(),
            old(self).can_tick(8),
        ensures
            final(self).wf(),
            final(self)@ == old(self)@.shift(op, register8bit),
    {
        match op {
            ShiftOp::RotateLeft => self.shift_left_c(register8bit),
            ShiftOp::RotateRight => self.shift_right_c(register8bit),
            ShiftOp::RotateLeftCarry => self.shift_left(register8bit),
            ShiftOp::RotateRightCarry => self.shift_right(register8bit),
            ShiftOp::ShiftLeft => self.sla(register8bit),
            ShiftOp::ShiftRightArithmetic => self.sra(register8bit),
            ShiftOp::Swap => self.swap(register8bit),
            ShiftOp::ShiftRightLogical => self.srl(register8bit),
        }
    }

    /// Operates on the accumulator with the byte `v`.
    pub fn alu(&mut self, op: AluOp, v: u8)
        requires
            old(self).can_tick(4),
        ensures
            final(self)@ == old(self)@.alu(op, v),
    {
        match op {
            AluOp::Add => self.add_8bit_value(v, false),
            AluOp::AddCarry => self.add_8bit_value(v, true),
            AluOp::Sub => self.sub_8bit_value(v, false),
            AluOp::SubCarry => self.sub_8bit_value(v, true),
            AluOp::And => self.and(v),
            AluOp::Xor => self.xor(v),
            AluOp::Or => self.or(v),
            AluOp::Compare => self.compare(v),
        }
    }

    /// Executes an entry of the extended table.
    pub fn execute_extended(&mut self, entry: Extended)
        requires
            old(self).wf(),
            old(self).can_tick(8),
            entry.wf(),
        ensures
            final(self).wf(),
            final(self)@ == old(self)@.execute_extended(entry),
    {
        match entry {
            Extended::Shift(op, r) => self.shift(op, r),
            Extended::TestBit(bit, r) => self.bit(bit, r),
            Extended::ResetBit(bit, r) => self.res(bit, r),
            Extended::SetBit(bit, r) => self.set(bit, r),
        }
    }

    /// Fetches an opcode, looks it up in the extended table and executes its
    /// entry. Every opcode has one.
    pub fn call_cb(&mut self)
        requires
            old(self).wf(),
            old(self).can_tick(8),
        ensures
            final(self).wf(),
            final(self)@ == old(self)@.step_extended(),
    {
        let code = self.read_next();
        let entry = decode_extended(code);
        self.execute_extended(entry);
    }

    /// Executes an entry that is a load of a register.
    fn execute_load(&mut self, instruction: Instruction)
        requires
            old(self).wf(),
            old(self).can_tick(MAX_STEP_COST as nat),
            instruction.wf(),
            instruction.is_load(),
        ensures
            final(self).wf(),
            final(self)@ == old(self)@.execute_load(instruction),
    {
        match instruction {
            Instruction::Load(target, source) => {
                let v = self.read_register8(source);
                self.load_8bit_value_into_register(target, v);
            },
            Instruction::LoadImmediate(r) => {
                let v = self.read_next();
                self.load_8bit_value_into_register(r, v);
            },
            Instruction::LoadWord(r) => {
                let v = self.read_next_word();
                self.load_16bit_value_into_register(r, v);
            },
            Instruction::LoadHlFromStackPointer => {
                let v = displacement_of(self.read_next());
                let target = self.registers.sp.wrapping_add_signed(v);
                self.load_16bit_value_into_register(Register16bit::HL, target);
            },
            Instruction::LoadStackPointerFromHl => {
                let hl = self.registers.get_hl();
                self.load_16bit_value_into_register(Register16bit::SP, hl);
            },
            _ => {},
        }
    }

    /// Executes an entry that is a load of the accumulator from memory.
    fn execute_fetch(&mut self, instruction: Instruction)
        requires
            old(self).wf(),
            old(self).can_tick(MAX_STEP_COST as nat),
            instruction.wf(),
            instruction.is_fetch(),
        ensures
            final(self).wf(),
            final(self)@ == old(self)@.execute_fetch(instruction),
    {
        match instruction {
            Instruction::LoadAcc(r) => {
                let v = self.memory.read_byte(self.get_register_from_register16bit(r));
                self.load_8bit_value_into_register(Register8bit::A, v);
            },
            Instruction::LoadAccIncrement => {
                let hl = self.registers.get_hl();
                self.registers.a = self.memory.read_byte(hl);
                self.registers.write_hl(hl.wrapping_add(1));
                self.tick(8);
            },
            Instruction::LoadAccDecrement => {
                let hl = self.registers.get_hl();
                self.registers.a = self.memory.read_byte(hl);
                self.registers.write_hl(hl.wrapping_sub(1));
                self.tick(6);
            },
            Instruction::LoadHighImmediate => {
                let v = self.read_next();
                let byte = self.memory.read_byte(high_address_of(v));
                self.load_8bit_value_into_register(Register8bit::A, byte);
            },
            Instruction::LoadHighC => {
                let byte = self.memory.read_byte(high_address_of(self.registers.c));
                self.load_8bit_value_into_register(Register8bit::A, byte);
            },
            Instruction::LoadAbsolute => {
                let v = self.read_next_word();
                let byte = self.memory.read_byte(v);
                self.load_8bit_value_into_register(Register8bit::A, byte);
            },
            _ => {},
        }
    }

    /// Executes an entry that is a store.
    fn execute_store(&mut self, instruction: Instruction)
        requires
            old(self).wf(),
            old(self).can_tick(MAX_STEP_COST as nat),
            instruction.wf(),
            instruction.is_store(),
        ensures
            final(self).wf(),
            final(self)@ == old(self)@.execute_store(instruction),
    {
        match instruction {
            Instruction::StoreAcc(r) => self.load_direct_mem(r, self.registers.a),
            Instruction::StoreAccIncrement => {
                let hl = self.registers.get_hl();
                self.memory.write_byte(hl, self.registers.a);
                self.registers.write_hl(hl.wrapping_add(1));
                self.tick(8);
            },
            Instruction::StoreAccDecrement => {
                let hl = self.registers.get_hl();
                self.memory.write_byte(hl, self.registers.a);
                self.registers.write_hl(hl.wrapping_sub(1));
                self.tick(6);
            },
            Instruction::StoreStackPointer => {
                let v = self.read_next_word();
                self.memory.write_word(v, self.registers.sp);
                self.tick(20);
            },
            Instruction::StoreHighImmediate => {
                let v = self.read_next();
                self.store_direct(high_address_of(v), self.registers.a);
            },
            Instruction::StoreHighC => {
                self.store_direct(high_address_of(self.registers.c), self.registers.a);
            },
            Instruction::StoreAbsolute => {
                let v = self.read_next_word();
                self.store_direct(v, self.registers.a);
            },
            _ => {},
        }
    }

    /// Executes an entry that is an arithmetic, logic or flag operation.
    fn execute_arithmetic(&mut self, instruction: Instruction)
        requires
            old(self).wf(),
            old(self).can_tick(MAX_STEP_COST as nat),
            instruction.wf(),
            instruction.is_arithmetic(),
        ensures
            final(self).wf(),
            final(self)@ == old(self)@.execute_arithmetic(instruction),
    {
        match instruction {
            Instruction::Increment16(r) => self.inc_16bit_register(r),
            Instruction::Decrement16(r) => self.dec_16bit_register(r),
            Instruction::Increment(r) => self.inc_8bit_register(r),
            Instruction::Decrement(r) => self.dec_8bit_register(r),
            Instruction::RotateAcc(op) => self.shift(op, Register8bit::A),
            Instruction::AddToHl(r) => {
                let v = self.get_register_from_register16bit(r);
                self.add_16bit_value(v);
            },
            Instruction::DecimalAdjust => self.daa(),
            Instruction::Complement => {
                let bits = self.flags();
                self.registers.a = !self.registers.a;
                self.set_flags(FlagBits { z: bits.z, n: true, h: true, c: bits.c });
            },
            Instruction::SetCarry => {
                let bits = self.flags();
                self.set_flags(FlagBits { z: bits.z, n: false, h: false, c: true });
            },
            Instruction::ComplementCarry => {
                let bits = self.flags();
                self.set_flags(FlagBits { z: bits.z, n: false, h: false, c: !bits.c });
            },
            Instruction::Alu(op, source) => {
                let v = self.read_register8(source);
                self.alu(op, v);
            },
            Instruction::AluImmediate(op) => {
                let v = self.read_next();
                self.alu(op, v);
            },
            Instruction::AdjustAcc => {
                let v = self.read_next();
                if v < 128 {
                    self.add_8bit_value(v, false);
                } else {
                    self.sub_8bit_value((256 - (v as u16)) as u8, false);
                }
            },
            _ => {},
        }
    }

    /// Executes an entry that is a control-flow or stack operation other than
    /// the pop of a register pair.
    fn execute_control(&mut self, instruction: Instruction)
        requires
            old(self).wf(),
            old(self).can_tick(MAX_STEP_COST as nat),
            instruction.wf(),
            instruction.is_control(),
            !(instruction is Pop),
        ensures
            final(self).wf(),
            final(self)@ == old(self)@.execute_control(instruction),
    {
        match instruction {
            Instruction::Nop => self.tick(1),
            Instruction::Stop => self.tick(4),
            Instruction::Halt => {
                self.halted = true;
                self.tick(4);
            },
            Instruction::DisableInterrupts => {
                self.ime = false;
                self.tick(4);
            },
            Instruction::EnableInterrupts => {
                self.ime = true;
                self.tick(4);
            },
            Instruction::JumpRelative(condition) => {
                let v = displacement_of(self.read_next());
                let cond = self.holds(condition);
                self.jr(v, cond);
            },
            Instruction::Return(condition) => {
                let cond = self.holds(condition);
                self.ret(cond);
            },
            Instruction::PlainReturn => self.pure_ret(),
            Instruction::ReturnEnable => {
                self.ret(true);
                self.ime = true;
            },
            Instruction::PopAf => self.pop_af(),
            Instruction::Push(r) => {
                let v = self.get_register_from_register16bit(r);
                self.push(v);
            },
            Instruction::PushAf => self.push(self.registers.get_af()),
            Instruction::Jump(condition) => {
                let v = self.read_next_word();
                let cond = self.holds(condition);
                self.jump(v, cond);
            },
            Instruction::JumpHl => self.jump(self.registers.get_hl(), true),
            Instruction::Call(condition) => {
                let v = self.read_next_word();
                let cond = self.holds(condition);
                self.call(v, cond);
            },
            Instruction::Restart(vector) => self.rst(vector),
            Instruction::Prefix => self.call_cb(),
            _ => {},
        }
    }

    /// Executes an entry of the primary table, the program counter standing
    /// behind the opcode. A pop into the stack pointer is refused and
    /// changes nothing.
    pub fn execute(&mut self, instruction: Instruction) -> (r: Result<(), CpuError>)
        requires
            old(self).wf(),
            old(self).can_tick(MAX_STEP_COST as nat),
            instruction.wf(),
        ensures
            final(self).wf(),
            instruction.valid_operand() ==> r == Ok::<(), CpuError>(()) && final(self)@ == old(
                self,
            )@.execute(instruction),
            !instruction.valid_operand() ==> r == Err::<(), CpuError>(CpuError::InvalidOperand)
                && final(self)@ == old(self)@,
    {
        match instruction {
            Instruction::Pop(r) => self.pop_register16bit(r),
            Instruction::Load(_, _)
            | Instruction::LoadImmediate(_)
            | Instruction::LoadWord(_)
            | Instruction::LoadHlFromStackPointer
            | Instruction::LoadStackPointerFromHl => {
                self.execute_load(instruction);
                Ok(())
            },
            Instruction::LoadAcc(_)
            | Instruction::LoadAccIncrement
            | Instruction::LoadAccDecrement
            | Instruction::LoadHighImmediate
            | Instruction::LoadHighC
            | Instruction::LoadAbsolute => {
                self.execute_fetch(instruction);
                Ok(())
            },
            Instruction::StoreAcc(_)
            | Instruction::StoreAccIncrement
            | Instruction::StoreAccDecrement
            | Instruction::StoreStackPointer
            | Instruction::StoreHighImmediate
            | Instruction::StoreHighC
            | Instruction::StoreAbsolute => {
                self.execute_store(instruction);
                Ok(())
            },
            Instruction::Increment16(_)
            | Instruction::Decrement16(_)
            | Instruction::Increment(_)
            | Instruction::Decrement(_)
            | Instruction::RotateAcc(_)
            | Instruction::AddToHl(_)
            | Instruction::DecimalAdjust
            | Instruction::Complement
            | Instruction::SetCarry
            | Instruction::ComplementCarry
            | Instruction::Alu(_, _)
            | Instruction::AluImmediate(_)
            | Instruction::AdjustAcc => {
                self.execute_arithmetic(instruction);
                Ok(())
            },
            _ => {
                self.execute_control(instruction);
                Ok(())
            },
        }
    }

    /// One step: fetch, look up, execute. A halted processor stays as it is.
    /// An opcode without an entry in the primary table is fatal: it is
    /// reported, with the program counter behind it and nothing else changed.
    /// Every instruction that is executed makes the clock grow.
    pub fn exec(&mut self) -> (r: Result<(), CpuError>)
        requires
            old(self).wf(),
            old(self).can_tick(MAX_STEP_COST as nat),
        ensures
            final(self).wf(),
            final(self)@ == old(self)@.step(),
            r == old(self)@.step_outcome(),
            !old(self).halted && r is Ok ==> final(self).clock.m > old(self).clock.m,
            old(self).halted || r is Err ==> final(self).clock.m == old(self).clock.m,
    {
        proof {
            lemma_step_cycles(old(self)@);
        }
        if self.halted {
            return Ok(());
        }
        let op_code = self.read_next();
        match decode(op_code) {
            Some(instruction) => self.execute(instruction),
            None => Err(CpuError::UnimplementedOpcode(op_code)),
        }
    }
}

/// A load of a register costs at least one cycle and at most ten.
pub proof fn lemma_load_cycles(s: CpuState, instruction: Instruction)
    requires
        instruction.is_load(),
    ensures
        s.cycles < s.execute_load(instruction).cycles <= s.cycles + 10,
{
}

/// A load of the accumulator from memory costs at least one cycle and at
/// most eight.
pub proof fn lemma_fetch_cycles(s: CpuState, instruction: Instruction)
    requires
        instruction.is_fetch(),
    ensures
        s.cycles < s.execute_fetch(instruction).cycles <= s.cycles + 8,
{
}

/// A store costs at least one cycle and at most twenty.
pub proof fn lemma_store_cycles(s: CpuState, instruction: Instruction)
    requires
        instruction.is_store(),
    ensures
        s.cycles < s.execute_store(instruction).cycles <= s.cycles + 20,
{
}

/// An arithmetic, logic or flag operation costs at least one cycle and at
/// most eight.
pub proof fn lemma_arithmetic_cycles(s: CpuState, instruction: Instruction)
    requires
        instruction.is_arithmetic(),
    ensures
        s.cycles < s.execute_arithmetic(instruction).cycles <= s.cycles + 8,
{
    if let Instruction::RotateAcc(op) = instruction {
        lemma_extended_cycles(s, Extended::Shift(op, Register8bit::A));
    }
}

/// An entry of the extended table costs at least one cycle and at most
/// eight.
pub proof fn lemma_extended_cycles(s: CpuState, entry: Extended)
    ensures
        s.cycles < s.execute_extended(entry).cycles <= s.cycles + 8,
{
}

/// A control-flow or stack operation costs at least one cycle and at most
/// seventeen.
pub proof fn lemma_control_cycles(s: CpuState, instruction: Instruction)
    requires
        instruction.is_control(),
    ensures
        s.cycles < s.execute_control(instruction).cycles <= s.cycles + 17,
{
    if instruction is Prefix {
        lemma_extended_cycles(s.skip(1), extended_entry(s.next_byte()));
    }
}

/// Every entry of the primary table costs at least one cycle and at most the
/// step's bound.
pub proof fn lemma_execute_cycles(s: CpuState, instruction: Instruction)
    ensures
        s.cycles < s.execute(instruction).cycles <= s.cycles + MAX_STEP_COST,
{
    if instruction.is_load() {
        lemma_load_cycles(s, instruction);
    } else if instruction.is_fetch() {
        lemma_fetch_cycles(s, instruction);
    } else if instruction.is_store() {
        lemma_store_cycles(s, instruction);
    } else if instruction.is_arithmetic() {
        lemma_arithmetic_cycles(s, instruction);
    } else {
        lemma_control_cycles(s, instruction);
    }
}

/// The cycle count is strictly increasing: a step of a running processor on
/// an opcode that has an entry adds the cost of the instruction, which is at
/// least one cycle. A halted processor stays as it is, and an opcode without
/// an entry moves the program counter and nothing else.
pub proof fn lemma_step_cycles(s: CpuState)
    ensures
        !s.halted && primary_entry(s.next_byte()) is Some ==> s.step().cycles > s.cycles,
        s.cycles <= s.step().cycles <= s.cycles + MAX_STEP_COST,
        s.halted ==> s.step() == s,
        !s.halted && primary_entry(s.next_byte()) is None ==> s.step() == s.skip(1),
{
    if !s.halted {
        match primary_entry(s.next_byte()) {
            Some(instruction) => {
                lemma_execute_cycles(s.skip(1), instruction);
            },
            None => {},
        }
    }
}

/// Once halted, always halted: no step leaves the halted state.
pub proof fn lemma_halted_stays(s: CpuState)
    requires
        s.halted,
    ensures
        s.step().halted,
{
}

} // verus!
