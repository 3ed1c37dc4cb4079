//! The two opcode tables: the primary table, and the extended table that
//! the prefix byte leads to. An entry says which operation an opcode asks for
//! and on which operands.

use vstd::prelude::*;
use crate::cpu::{Register16bit, Register8bit};

verus! {

/// The condition under which a jump, call or return is taken.
#[derive(Copy, Clone, Debug, PartialEq, Eq, Structural)]
pub enum Condition {
    Always,
    NotZero,
    Zero,
    NotCarry,
    Carry,
}

/// The eight operations of the accumulator with an 8-bit operand.
#[derive(Copy, Clone, Debug, PartialEq, Eq, Structural)]
pub enum AluOp {
    Add,
    AddCarry,
    Sub,
    SubCarry,
    And,
    Xor,
    Or,
    Compare,
}

/// The eight rotates and shifts of an 8-bit operand.
#[derive(Copy, Clone, Debug, PartialEq, Eq, Structural)]
pub enum ShiftOp {
    RotateLeft,
    RotateRight,
    RotateLeftCarry,
    RotateRightCarry,
    ShiftLeft,
    ShiftRightArithmetic,
    Swap,
    ShiftRightLogical,
}

/// An entry of the primary table.
#[derive(Copy, Clone, Debug, PartialEq, Eq, Structural)]
pub enum Instruction {
    /// No operation.
    Nop,
    /// Low-power stop; the state stays as it is.
    Stop,
    /// Leave the running state.
    Halt,
    /// Clear the interrupt-master-enable flag.
    DisableInterrupts,
    /// Set the interrupt-master-enable flag.
    EnableInterrupts,
    /// Load the immediate word into a 16-bit operand.
    LoadWord(Register16bit),
    /// Store the accumulator at the address a pair holds.
    StoreAcc(Register16bit),
    /// Store the accumulator at HL, then increment HL.
    StoreAccIncrement,
    /// Store the accumulator at HL, then decrement HL.
    StoreAccDecrement,
    /// Load the accumulator from the address a pair holds.
    LoadAcc(Register16bit),
    /// Load the accumulator from HL, then increment HL.
    LoadAccIncrement,
    /// Load the accumulator from HL, then decrement HL.
    LoadAccDecrement,
    /// Increment a 16-bit operand.
    Increment16(Register16bit),
    /// Decrement a 16-bit operand.
    Decrement16(Register16bit),
    /// Increment an 8-bit operand.
    Increment(Register8bit),
    /// Decrement an 8-bit operand.
    Decrement(Register8bit),
    /// Load the immediate byte into an 8-bit operand.
    LoadImmediate(Register8bit),
    /// Rotate the accumulator.
    RotateAcc(ShiftOp),
    /// Store the stack pointer at the immediate address.
    StoreStackPointer,
    /// Add a 16-bit operand to HL.
    AddToHl(Register16bit),
    /// Jump by the immediate signed displacement.
    JumpRelative(Condition),
    /// Decimal-adjust the accumulator.
    DecimalAdjust,
    /// Complement the accumulator.
    Complement,
    /// Set the Carry flag.
    SetCarry,
    /// Complement the Carry flag.
    ComplementCarry,
    /// Load the first operand from the second.
    Load(Register8bit, Register8bit),
    /// Operate on the accumulator with an 8-bit operand.
    Alu(AluOp, Register8bit),
    /// Operate on the accumulator with the immediate byte.
    AluImmediate(AluOp),
    /// Return where the condition holds.
    Return(Condition),
    /// Return.
    PlainReturn,
    /// Return and set the interrupt-master-enable flag.
    ReturnEnable,
    /// Pop a register pair.
    Pop(Register16bit),
    /// Pop AF.
    PopAf,
    /// Push a register pair.
    Push(Register16bit),
    /// Push AF.
    PushAf,
    /// Jump to the immediate address.
    Jump(Condition),
    /// Jump to the address in HL.
    JumpHl,
    /// Call the immediate address.
    Call(Condition),
    /// Restart at a vector.
    Restart(u16),
    /// Continue in the extended table.
    Prefix,
    /// Store the accumulator at 0xFF00 plus the immediate byte.
    StoreHighImmediate,
    /// Store the accumulator at 0xFF00 plus C.
    StoreHighC,
    /// Store the accumulator at the immediate address.
    StoreAbsolute,
    /// Load the accumulator from 0xFF00 plus the immediate byte.
    LoadHighImmediate,
    /// Load the accumulator from 0xFF00 plus C.
    LoadHighC,
    /// Load the accumulator from the immediate address.
    LoadAbsolute,
    /// Add the immediate signed byte to the accumulator: its magnitude is
    /// added where it is positive and subtracted where it is negative.
    AdjustAcc,
    /// Load HL with the stack pointer moved by the immediate signed byte.
    LoadHlFromStackPointer,
    /// Load the stack pointer from HL.
    LoadStackPointerFromHl,
}

/// An entry of the extended table.
#[derive(Copy, Clone, Debug, PartialEq, Eq, Structural)]
pub enum Extended {
    /// Rotate or shift an 8-bit operand.
    Shift(ShiftOp, Register8bit),
    /// Test a bit of an 8-bit operand.
    TestBit(u8, Register8bit),
    /// Clear a bit of an 8-bit operand.
    ResetBit(u8, Register8bit),
    /// Set a bit of an 8-bit operand.
    SetBit(u8, Register8bit),
}

impl Instruction {
    /// A restart names one of the eight vectors 0x00, 0x08, up to 0x38.
    pub open spec fn wf(self) -> bool {
        match self {
            Instruction::Restart(vector) => vector <= 0x38 && vector % 8 == 0,
            _ => true,
        }
    }

    /// Whether the entry can be executed: every one but a pop into the stack
    /// pointer.
    pub open spec fn valid_operand(self) -> bool {
        self != Instruction::Pop(Register16bit::SP)
    }
}

impl Extended {
    /// A bit operation names one of the bits 0 to 7.
    pub open spec fn wf(self) -> bool {
        match self {
            Extended::Shift(_, _) => true,
            Extended::TestBit(bit, _) => bit < 8,
            Extended::ResetBit(bit, _) => bit < 8,
            Extended::SetBit(bit, _) => bit < 8,
        }
    }
}

/// The 8-bit operand that the three bits `index` of an opcode select.
pub open spec fn operand_of(index: int) -> Register8bit {
    if index == 0 {
        Register8bit::B
    } else if index == 1 {
        Register8bit::C
    } else if index == 2 {
        Register8bit::D
    } else if index == 3 {
        Register8bit::E
    } else if index == 4 {
        Register8bit::H
    } else if index == 5 {
        Register8bit::L
    } else if index == 6 {
        Register8bit::HlDirectMemory
    } else {
        Register8bit::A
    }
}

/// The 16-bit operand that the two bits `index` of an opcode select.
pub open spec fn pair_of(index: int) -> Register16bit {
    if index == 0 {
        Register16bit::BC
    } else if index == 1 {
        Register16bit::DE
    } else if index == 2 {
        Register16bit::HL
    } else {
        Register16bit::SP
    }
}

/// The condition that the two bits `index` of an opcode select.
pub open spec fn condition_of(index: int) -> Condition {
    if index == 0 {
        Condition::NotZero
    } else if index == 1 {
        Condition::Zero
    } else if index == 2 {
        Condition::NotCarry
    } else {
        Condition::Carry
    }
}

/// The accumulator operation that the three bits `index` of an opcode
/// select.
pub open spec fn alu_of(index: int) -> AluOp {
    if index == 0 {
        AluOp::Add
    } else if index == 1 {
        AluOp::AddCarry
    } else if index == 2 {
        AluOp::Sub
    } else if index == 3 {
        AluOp::SubCarry
    } else if index == 4 {
        AluOp::And
    } else if index == 5 {
        AluOp::Xor
    } else if index == 6 {
        AluOp::Or
    } else {
        AluOp::Compare
    }
}

/// The rotate or shift that the three bits `index` of an opcode select.
pub open spec fn shift_of(index: int) -> ShiftOp {
    if index == 0 {
        ShiftOp::RotateLeft
    } else if index == 1 {
        ShiftOp::RotateRight
    } else if index == 2 {
        ShiftOp::RotateLeftCarry
    } else if index == 3 {
        ShiftOp::RotateRightCarry
    } else if index == 4 {
        ShiftOp::ShiftLeft
    } else if index == 5 {
        ShiftOp::ShiftRightArithmetic
    } else if index == 6 {
        ShiftOp::Swap
    } else {
        ShiftOp::ShiftRightLogical
    }
}

/// The first quarter of the primary table, 0x00 to 0x3F, by the row
/// (`op / 8`) and the column (`op % 8`) of the opcode.
pub open spec fn low_entry(row: int, col: int) -> Instruction {
    if col == 0 {
        if row == 0 {
            Instruction::Nop
        } else if row == 1 {
            Instruction::StoreStackPointer
        } else if row == 2 {
            Instruction::Stop
        } else if row == 3 {
            Instruction::JumpRelative(Condition::Always)
        } else {
            Instruction::JumpRelative(condition_of(row - 4))
        }
    } else if col == 1 {
        if row % 2 == 0 {
            Instruction::LoadWord(pair_of(row / 2))
        } else {
            Instruction::AddToHl(pair_of(row / 2))
        }
    } else if col == 2 {
        if row == 0 || row == 2 {
            Instruction::StoreAcc(pair_of(row / 2))
        } else if row == 1 || row == 3 {
            Instruction::LoadAcc(pair_of(row / 2))
        } else if row == 4 {
            Instruction::StoreAccIncrement
        } else if row == 5 {
            Instruction::LoadAccIncrement
        } else if row == 6 {
            Instruction::StoreAccDecrement
        } else {
            Instruction::LoadAccDecrement
        }
    } else if col == 3 {
        if row % 2 == 0 {
            Instruction::Increment16(pair_of(row / 2))
        } else {
            Instruction::Decrement16(pair_of(row / 2))
        }
    } else if col == 4 {
        Instruction::Increment(operand_of(row))
    } else if col == 5 {
        Instruction::Decrement(operand_of(row))
    } else if col == 6 {
        Instruction::LoadImmediate(operand_of(row))
    } else if row < 4 {
        Instruction::RotateAcc(shift_of(row))
    } else if row == 4 {
        Instruction::DecimalAdjust
    } else if row == 5 {
        Instruction::Complement
    } else if row == 6 {
        Instruction::SetCarry
    } else {
        Instruction::ComplementCarry
    }
}

/// The last quarter of the primary table, 0xC0 to 0xFF, by the row
/// (`(op - 0xC0) / 8`) and the column (`op % 8`) of the opcode. Eleven
/// opcodes of this quarter have no entry.
pub open spec fn high_entry(row: int, col: int) -> Option<Instruction> {
    if col == 0 {
        Some(
            if row < 4 {
                Instruction::Return(condition_of(row))
            } else if row == 4 {
                Instruction::StoreHighImmediate
            } else if row == 5 {
                Instruction::AdjustAcc
            } else if row == 6 {
                Instruction::LoadHighImmediate
            } else {
                Instruction::LoadHlFromStackPointer
            },
        )
    } else if col == 1 {
        Some(
            if row == 6 {
                Instruction::PopAf
            } else if row % 2 == 0 {
                Instruction::Pop(pair_of(row / 2))
            } else if row == 1 {
                Instruction::PlainReturn
            } else if row == 3 {
                Instruction::ReturnEnable
            } else if row == 5 {
                Instruction::JumpHl
            } else {
                Instruction::LoadStackPointerFromHl
            },
        )
    } else if col == 2 {
        Some(
            if row < 4 {
                Instruction::Jump(condition_of(row))
            } else if row == 4 {
                Instruction::StoreHighC
            } else if row == 5 {
                Instruction::StoreAbsolute
            } else if row == 6 {
                Instruction::LoadHighC
            } else {
                Instruction::LoadAbsolute
            },
        )
    } else if col == 3 {
        if row == 0 {
            Some(Instruction::Jump(Condition::Always))
        } else if row == 1 {
            Some(Instruction::Prefix)
        } else if row == 6 {
            Some(Instruction::DisableInterrupts)
        } else if row == 7 {
            Some(Instruction::EnableInterrupts)
        } else {
            None
        }
    } else if col == 4 {
        if row < 4 {
            Some(Instruction::Call(condition_of(row)))
        } else {
            None
        }
    } else if col == 5 {
        if row == 6 {
            Some(Instruction::PushAf)
        } else if row % 2 == 0 {
            Some(Instruction::Push(pair_of(row / 2)))
        } else if row == 1 {
            Some(Instruction::Call(Condition::Always))
        } else {
            None
        }
    } else if col == 6 {
        Some(Instruction::AluImmediate(alu_of(row)))
    } else {
        Some(Instruction::Restart((row * 8) as u16))
    }
}

/// The primary table: the entry of an opcode, or `None` where it has none.
/// The second quarter holds the loads between 8-bit operands, with the halt
/// in the place of a load of the memory operand from itself; the third
/// quarter holds the accumulator operations.
pub open spec fn primary_entry(op: u8) -> Option<Instruction> {
    let row = op as int / 8;
    let col = op as int % 8;
    if op < 0x40 {
        Some(low_entry(row, col))
    } else if op == 0x76 {
        Some(Instruction::Halt)
    } else if op < 0x80 {
        Some(Instruction::Load(operand_of(row - 8), operand_of(col)))
    } else if op < 0xC0 {
        Some(Instruction::Alu(alu_of(row - 16), operand_of(col)))
    } else {
        high_entry(row - 24, col)
    }
}

/// The extended table: two bits of the opcode select the family, three the
/// operation or the bit, three the operand. Every opcode has an entry.
pub open spec fn extended_entry(op: u8) -> Extended {
    let family = op as int / 64;
    let index = (op as int / 8) % 8;
    let operand = operand_of(op as int % 8);
    if family == 0 {
        Extended::Shift(shift_of(index), operand)
    } else if family == 1 {
        Extended::TestBit(index as u8, operand)
    } else if family == 2 {
        Extended::ResetBit(index as u8, operand)
    } else {
        Extended::SetBit(index as u8, operand)
    }
}

/// The primary table from 0x00 to 0x3F, entry by entry.
fn primary_low(op: u8) -> (entry: Option<Instruction>)
    requires
        0x00 <= op <= 0x3F,
    ensures
        entry == primary_entry(op),
        entry matches Some(i) ==> i.wf() && i.valid_operand(),
{
    match op {
        0x00 => Some(Instruction::Nop),
        0x01 => Some(Instruction::LoadWord(Register16bit::BC)),
        0x02 => Some(Instruction::StoreAcc(Register16bit::BC)),
        0x03 => Some(Instruction::Increment16(Register16bit::BC)),
        0x04 => Some(Instruction::Increment(Register8bit::B)),
        0x05 => Some(Instruction::Decrement(Register8bit::B)),
        0x06 => Some(Instruction::LoadImmediate(Register8bit::B)),
        0x07 => Some(Instruction::RotateAcc(ShiftOp::RotateLeft)),
        0x08 => Some(Instruction::StoreStackPointer),
        0x09 => Some(Instruction::AddToHl(Register16bit::BC)),
        0x0A => Some(Instruction::LoadAcc(Register16bit::BC)),
        0x0B => Some(Instruction::Decrement16(Register16bit::BC)),
        0x0C => Some(Instruction::Increment(Register8bit::C)),
        0x0D => Some(Instruction::Decrement(Register8bit::C)),
        0x0E => Some(Instruction::LoadImmediate(Register8bit::C)),
        0x0F => Some(Instruction::RotateAcc(ShiftOp::RotateRight)),
        0x10 => Some(Instruction::Stop),
        0x11 => Some(Instruction::LoadWord(Register16bit::DE)),
        0x12 => Some(Instruction::StoreAcc(Register16bit::DE)),
        0x13 => Some(Instruction::Increment16(Register16bit::DE)),
        0x14 => Some(Instruction::Increment(Register8bit::D)),
        0x15 => Some(Instruction::Decrement(Register8bit::D)),
        0x16 => Some(Instruction::LoadImmediate(Register8bit::D)),
        0x17 => Some(Instruction::RotateAcc(ShiftOp::RotateLeftCarry)),
        0x18 => Some(Instruction::JumpRelative(Condition::Always)),
        0x19 => Some(Instruction::AddToHl(Register16bit::DE)),
        0x1A => Some(Instruction::LoadAcc(Register16bit::DE)),
        0x1B => Some(Instruction::Decrement16(Register16bit::DE)),
        0x1C => Some(Instruction::Increment(Register8bit::E)),
        0x1D => Some(Instruction::Decrement(Register8bit::E)),
        0x1E => Some(Instruction::LoadImmediate(Register8bit::E)),
        0x1F => Some(Instruction::RotateAcc(ShiftOp::RotateRightCarry)),
        0x20 => Some(Instruction::JumpRelative(Condition::NotZero)),
        0x21 => Some(Instruction::LoadWord(Register16bit::HL)),
        0x22 => Some(Instruction::StoreAccIncrement),
        0x23 => Some(Instruction::Increment16(Register16bit::HL)),
        0x24 => Some(Instruction::Increment(Register8bit::H)),
        0x25 => Some(Instruction::Decrement(Register8bit::H)),
        0x26 => Some(Instruction::LoadImmediate(Register8bit::H)),
        0x27 => Some(Instruction::DecimalAdjust),
        0x28 => Some(Instruction::JumpRelative(Condition::Zero)),
        0x29 => Some(Instruction::AddToHl(Register16bit::HL)),
        0x2A => Some(Instruction::LoadAccIncrement),
        0x2B => Some(Instruction::Decrement16(Register16bit::HL)),
        0x2C => Some(Instruction::Increment(Register8bit::L)),
        0x2D => Some(Instruction::Decrement(Register8bit::L)),
        0x2E => Some(Instruction::LoadImmediate(Register8bit::L)),
        0x2F => Some(Instruction::Complement),
        0x30 => Some(Instruction::JumpRelative(Condition::NotCarry)),
        0x31 => Some(Instruction::LoadWord(Register16bit::SP)),
        0x32 => Some(Instruction::StoreAccDecrement),
        0x33 => Some(Instruction::Increment16(Register16bit::SP)),
        0x34 => Some(Instruction::Increment(Register8bit::HlDirectMemory)),
        0x35 => Some(Instruction::Decrement(Register8bit::HlDirectMemory)),
        0x36 => Some(Instruction::LoadImmediate(Register8bit::HlDirectMemory)),
        0x37 => Some(Instruction::SetCarry),
        0x38 => Some(Instruction::JumpRelative(Condition::Carry)),
        0x39 => Some(Instruction::AddToHl(Register16bit::SP)),
        0x3A => Some(Instruction::LoadAccDecrement),
        0x3B => Some(Instruction::Decrement16(Register16bit::SP)),
        0x3C => Some(Instruction::Increment(Register8bit::A)),
        0x3D => Some(Instruction::Decrement(Register8bit::A)),
        0x3E => Some(Instruction::LoadImmediate(Register8bit::A)),
        0x3F => Some(Instruction::ComplementCarry),
        _ => None,
    }
}

/// The primary table from 0x40 to 0x7F, entry by entry.
fn primary_loads(op: u8) -> (entry: Option<Instruction>)
    requires
        0x40 <= op <= 0x7F,
    ensures
        entry == primary_entry(op),
        entry matches Some(i) ==> i.wf() && i.valid_operand(),
{
    match op {
        0x40 => Some(Instruction::Load(Register8bit::B, Register8bit::B)),
        0x41 => Some(Instruction::Load(Register8bit::B, Register8bit::C)),
        0x42 => Some(Instruction::Load(Register8bit::B, Register8bit::D)),
        0x43 => Some(Instruction::Load(Register8bit::B, Register8bit::E)),
        0x44 => Some(Instruction::Load(Register8bit::B, Register8bit::H)),
        0x45 => Some(Instruction::Load(Register8bit::B, Register8bit::L)),
        0x46 => Some(Instruction::Load(Register8bit::B, Register8bit::HlDirectMemory)),
        0x47 => Some(Instruction::Load(Register8bit::B, Register8bit::A)),
        0x48 => Some(Instruction::Load(Register8bit::C, Register8bit::B)),
        0x49 => Some(Instruction::Load(Register8bit::C, Register8bit::C)),
        0x4A => Some(Instruction::Load(Register8bit::C, Register8bit::D)),
        0x4B => Some(Instruction::Load(Register8bit::C, Register8bit::E)),
        0x4C => Some(Instruction::Load(Register8bit::C, Register8bit::H)),
        0x4D => Some(Instruction::Load(Register8bit::C, Register8bit::L)),
        0x4E => Some(Instruction::Load(Register8bit::C, Register8bit::HlDirectMemory)),
        0x4F => Some(Instruction::Load(Register8bit::C, Register8bit::A)),
        0x50 => Some(Instruction::Load(Register8bit::D, Register8bit::B)),
        0x51 => Some(Instruction::Load(Register8bit::D, Register8bit::C)),
        0x52 => Some(Instruction::Load(Register8bit::D, Register8bit::D)),
        0x53 => Some(Instruction::Load(Register8bit::D, Register8bit::E)),
        0x54 => Some(Instruction::Load(Register8bit::D, Register8bit::H)),
        0x55 => Some(Instruction::Load(Register8bit::D, Register8bit::L)),
        0x56 => Some(Instruction::Load(Register8bit::D, Register8bit::HlDirectMemory)),
        0x57 => Some(Instruction::Load(Register8bit::D, Register8bit::A)),
        0x58 => Some(Instruction::Load(Register8bit::E, Register8bit::B)),
        0x59 => Some(Instruction::Load(Register8bit::E, Register8bit::C)),
        0x5A => Some(Instruction::Load(Register8bit::E, Register8bit::D)),
        0x5B => Some(Instruction::Load(Register8bit::E, Register8bit::E)),
        0x5C => Some(Instruction::Load(Register8bit::E, Register8bit::H)),
        0x5D => Some(Instruction::Load(Register8bit::E, Register8bit::L)),
        0x5E => Some(Instruction::Load(Register8bit::E, Register8bit::HlDirectMemory)),
        0x5F => Some(Instruction::Load(Register8bit::E, Register8bit::A)),
        0x60 => Some(Instruction::Load(Register8bit::H, Register8bit::B)),
        0x61 => Some(Instruction::Load(Register8bit::H, Register8bit::C)),
        0x62 => Some(Instruction::Load(Register8bit::H, Register8bit::D)),
        0x63 => Some(Instruction::Load(Register8bit::H, Register8bit::E)),
        0x64 => Some(Instruction::Load(Register8bit::H, Register8bit::H)),
        0x65 => Some(Instruction::Load(Register8bit::H, Register8bit::L)),
        0x66 => Some(Instruction::Load(Register8bit::H, Register8bit::HlDirectMemory)),
        0x67 => Some(Instruction::Load(Register8bit::H, Register8bit::A)),
        0x68 => Some(Instruction::Load(Register8bit::L, Register8bit::B)),
        0x69 => Some(Instruction::Load(Register8bit::L, Register8bit::C)),
        0x6A => Some(Instruction::Load(Register8bit::L, Register8bit::D)),
        0x6B => Some(Instruction::Load(Register8bit::L, Register8bit::E)),
        0x6C => Some(Instruction::Load(Register8bit::L, Register8bit::H)),
        0x6D => Some(Instruction::Load(Register8bit::L, Register8bit::L)),
        0x6E => Some(Instruction::Load(Register8bit::L, Register8bit::HlDirectMemory)),
        0x6F => Some(Instruction::Load(Register8bit::L, Register8bit::A)),
        0x70 => Some(Instruction::Load(Register8bit::HlDirectMemory, Register8bit::B)),
        0x71 => Some(Instruction::Load(Register8bit::HlDirectMemory, Register8bit::C)),
        0x72 => Some(Instruction::Load(Register8bit::HlDirectMemory, Register8bit::D)),
        0x73 => Some(Instruction::Load(Register8bit::HlDirectMemory, Register8bit::E)),
        0x74 => Some(Instruction::Load(Register8bit::HlDirectMemory, Register8bit::H)),
        0x75 => Some(Instruction::Load(Register8bit::HlDirectMemory, Register8bit::L)),
        0x76 => Some(Instruction::Halt),
        0x77 => Some(Instruction::Load(Register8bit::HlDirectMemory, Register8bit::A)),
        0x78 => Some(Instruction::Load(Register8bit::A, Register8bit::B)),
        0x79 => Some(Instruction::Load(Register8bit::A, Register8bit::C)),
        0x7A => Some(Instruction::Load(Register8bit::A, Register8bit::D)),
        0x7B => Some(Instruction::Load(Register8bit::A, Register8bit::E)),
        0x7C => Some(Instruction::Load(Register8bit::A, Register8bit::H)),
        0x7D => Some(Instruction::Load(Register8bit::A, Register8bit::L)),
        0x7E => Some(Instruction::Load(Register8bit::A, Register8bit::HlDirectMemory)),
        0x7F => Some(Instruction::Load(Register8bit::A, Register8bit::A)),
        _ => None,
    }
}

/// The primary table from 0x80 to 0xBF, entry by entry.
fn primary_alu(op: u8) -> (entry: Option<Instruction>)
    requires
        0x80 <= op <= 0xBF,
    ensures
        entry == primary_entry(op),
        entry matches Some(i) ==> i.wf() && i.valid_operand(),
{
    match op {
        0x80 => Some(Instruction::Alu(AluOp::Add, Register8bit::B)),
        0x81 => Some(Instruction::Alu(AluOp::Add, Register8bit::C)),
        0x82 => Some(Instruction::Alu(AluOp::Add, Register8bit::D)),
        0x83 => Some(Instruction::Alu(AluOp::Add, Register8bit::E)),
        0x84 => Some(Instruction::Alu(AluOp::Add, Register8bit::H)),
        0x85 => Some(Instruction::Alu(AluOp::Add, Register8bit::L)),
        0x86 => Some(Instruction::Alu(AluOp::Add, Register8bit::HlDirectMemory)),
        0x87 => Some(Instruction::Alu(AluOp::Add, Register8bit::A)),
        0x88 => Some(Instruction::Alu(AluOp::AddCarry, Register8bit::B)),
        0x89 => Some(Instruction::Alu(AluOp::AddCarry, Register8bit::C)),
        0x8A => Some(Instruction::Alu(AluOp::AddCarry, Register8bit::D)),
        0x8B => Some(Instruction::Alu(AluOp::AddCarry, Register8bit::E)),
        0x8C => Some(Instruction::Alu(AluOp::AddCarry, Register8bit::H)),
        0x8D => Some(Instruction::Alu(AluOp::AddCarry, Register8bit::L)),
        0x8E => Some(Instruction::Alu(AluOp::AddCarry, Register8bit::HlDirectMemory)),
        0x8F => Some(Instruction::Alu(AluOp::AddCarry, Register8bit::A)),
        0x90 => Some(Instruction::Alu(AluOp::Sub, Register8bit::B)),
        0x91 => Some(Instruction::Alu(AluOp::Sub, Register8bit::C)),
        0x92 => Some(Instruction::Alu(AluOp::Sub, Register8bit::D)),
        0x93 => Some(Instruction::Alu(AluOp::Sub, Register8bit::E)),
        0x94 => Some(Instruction::Alu(AluOp::Sub, Register8bit::H)),
        0x95 => Some(Instruction::Alu(AluOp::Sub, Register8bit::L)),
        0x96 => Some(Instruction::Alu(AluOp::Sub, Register8bit::HlDirectMemory)),
        0x97 => Some(Instruction::Alu(AluOp::Sub, Register8bit::A)),
        0x98 => Some(Instruction::Alu(AluOp::SubCarry, Register8bit::B)),
        0x99 => Some(Instruction::Alu(AluOp::SubCarry, Register8bit::C)),
        0x9A => Some(Instruction::Alu(AluOp::SubCarry, Register8bit::D)),
        0x9B => Some(Instruction::Alu(AluOp::SubCarry, Register8bit::E)),
        0x9C => Some(Instruction::Alu(AluOp::SubCarry, Register8bit::H)),
        0x9D => Some(Instruction::Alu(AluOp::SubCarry, Register8bit::L)),
        0x9E => Some(Instruction::Alu(AluOp::SubCarry, Register8bit::HlDirectMemory)),
        0x9F => Some(Instruction::Alu(AluOp::SubCarry, Register8bit::A)),
        0xA0 => Some(Instruction::Alu(AluOp::And, Register8bit::B)),
        0xA1 => Some(Instruction::Alu(AluOp::And, Register8bit::C)),
        0xA2 => Some(Instruction::Alu(AluOp::And, Register8bit::D)),
        0xA3 => Some(Instruction::Alu(AluOp::And, Register8bit::E)),
        0xA4 => Some(Instruction::Alu(AluOp::And, Register8bit::H)),
        0xA5 => Some(Instruction::Alu(AluOp::And, Register8bit::L)),
        0xA6 => Some(Instruction::Alu(AluOp::And, Register8bit::HlDirectMemory)),
        0xA7 => Some(Instruction::Alu(AluOp::And, Register8bit::A)),
        0xA8 => Some(Instruction::Alu(AluOp::Xor, Register8bit::B)),
        0xA9 => Some(Instruction::Alu(AluOp::Xor, Register8bit::C)),
        0xAA => Some(Instruction::Alu(AluOp::Xor, Register8bit::D)),
        0xAB => Some(Instruction::Alu(AluOp::Xor, Register8bit::E)),
        0xAC => Some(Instruction::Alu(AluOp::Xor, Register8bit::H)),
        0xAD => Some(Instruction::Alu(AluOp::Xor, Register8bit::L)),
        0xAE => Some(Instruction::Alu(AluOp::Xor, Register8bit::HlDirectMemory)),
        0xAF => Some(Instruction::Alu(AluOp::Xor, Register8bit::A)),
        0xB0 => Some(Instruction::Alu(AluOp::Or, Register8bit::B)),
        0xB1 => Some(Instruction::Alu(AluOp::Or, Register8bit::C)),
        0xB2 => Some(Instruction::Alu(AluOp::Or, Register8bit::D)),
        0xB3 => Some(Instruction::Alu(AluOp::Or, Register8bit::E)),
        0xB4 => Some(Instruction::Alu(AluOp::Or, Register8bit::H)),
        0xB5 => Some(Instruction::Alu(AluOp::Or, Register8bit::L)),
        0xB6 => Some(Instruction::Alu(AluOp::Or, Register8bit::HlDirectMemory)),
        0xB7 => Some(Instruction::Alu(AluOp::Or, Register8bit::A)),
        0xB8 => Some(Instruction::Alu(AluOp::Compare, Register8bit::B)),
        0xB9 => Some(Instruction::Alu(AluOp::Compare, Register8bit::C)),
        0xBA => Some(Instruction::Alu(AluOp::Compare, Register8bit::D)),
        0xBB => Some(Instruction::Alu(AluOp::Compare, Register8bit::E)),
        0xBC => Some(Instruction::Alu(AluOp::Compare, Register8bit::H)),
        0xBD => Some(Instruction::Alu(AluOp::Compare, Register8bit::L)),
        0xBE => Some(Instruction::Alu(AluOp::Compare, Register8bit::HlDirectMemory)),
        0xBF => Some(Instruction::Alu(AluOp::Compare, Register8bit::A)),
        _ => None,
    }
}

/// The primary table from 0xC0 to 0xFF, entry by entry.
fn primary_high(op: u8) -> (entry: Option<Instruction>)
    requires
        0xC0 <= op <= 0xFF,
    ensures
        entry == primary_entry(op),
        entry matches Some(i) ==> i.wf() && i.valid_operand(),
{
    match op {
        0xC0 => Some(Instruction::Return(Condition::NotZero)),
        0xC1 => Some(Instruction::Pop(Register16bit::BC)),
        0xC2 => Some(Instruction::Jump(Condition::NotZero)),
        0xC3 => Some(Instruction::Jump(Condition::Always)),
        0xC4 => Some(Instruction::Call(Condition::NotZero)),
        0xC5 => Some(Instruction::Push(Register16bit::BC)),
        0xC6 => Some(Instruction::AluImmediate(AluOp::Add)),
        0xC7 => Some(Instruction::Restart(0x00)),
        0xC8 => Some(Instruction::Return(Condition::Zero)),
        0xC9 => Some(Instruction::PlainReturn),
        0xCA => Some(Instruction::Jump(Condition::Zero)),
        0xCB => Some(Instruction::Prefix),
        0xCC => Some(Instruction::Call(Condition::Zero)),
        0xCD => Some(Instruction::Call(Condition::Always)),
        0xCE => Some(Instruction::AluImmediate(AluOp::AddCarry)),
        0xCF => Some(Instruction::Restart(0x08)),
        0xD0 => Some(Instruction::Return(Condition::NotCarry)),
        0xD1 => Some(Instruction::Pop(Register16bit::DE)),
        0xD2 => Some(Instruction::Jump(Condition::NotCarry)),
        0xD4 => Some(Instruction::Call(Condition::NotCarry)),
        0xD5 => Some(Instruction::Push(Register16bit::DE)),
        0xD6 => Some(Instruction::AluImmediate(AluOp::Sub)),
        0xD7 => Some(Instruction::Restart(0x10)),
        0xD8 => Some(Instruction::Return(Condition::Carry)),
        0xD9 => Some(Instruction::ReturnEnable),
        0xDA => Some(Instruction::Jump(Condition::Carry)),
        0xDC => Some(Instruction::Call(Condition::Carry)),
        0xDE => Some(Instruction::AluImmediate(AluOp::SubCarry)),
        0xDF => Some(Instruction::Restart(0x18)),
        0xE0 => Some(Instruction::StoreHighImmediate),
        0xE1 => Some(Instruction::Pop(Register16bit::HL)),
        0xE2 => Some(Instruction::StoreHighC),
        0xE5 => Some(Instruction::Push(Register16bit::HL)),
        0xE6 => Some(Instruction::AluImmediate(AluOp::And)),
        0xE7 => Some(Instruction::Restart(0x20)),
        0xE8 => Some(Instruction::AdjustAcc),
        0xE9 => Some(Instruction::JumpHl),
        0xEA => Some(Instruction::StoreAbsolute),
        0xEE => Some(Instruction::AluImmediate(AluOp::Xor)),
        0xEF => Some(Instruction::Restart(0x28)),
        0xF0 => Some(Instruction::LoadHighImmediate),
        0xF1 => Some(Instruction::PopAf),
        0xF2 => Some(Instruction::LoadHighC),
        0xF3 => Some(Instruction::DisableInterrupts),
        0xF5 => Some(Instruction::PushAf),
        0xF6 => Some(Instruction::AluImmediate(AluOp::Or)),
        0xF7 => Some(Instruction::Restart(0x30)),
        0xF8 => Some(Instruction::LoadHlFromStackPointer),
        0xF9 => Some(Instruction::LoadStackPointerFromHl),
        0xFA => Some(Instruction::LoadAbsolute),
        0xFB => Some(Instruction::EnableInterrupts),
        0xFE => Some(Instruction::AluImmediate(AluOp::Compare)),
        0xFF => Some(Instruction::Restart(0x38)),
        _ => None,
    }
}

/// The extended table from 0x00 to 0x3F, entry by entry.
fn extended_shifts(op: u8) -> (entry: Extended)
    requires
        0x00 <= op <= 0x3F,
    ensures
        entry == extended_entry(op),
        entry.wf(),
{
    match op {
        0x00 => Extended::Shift(ShiftOp::RotateLeft, Register8bit::B),
        0x01 => Extended::Shift(ShiftOp::RotateLeft, Register8bit::C),
        0x02 => Extended::Shift(ShiftOp::RotateLeft, Register8bit::D),
        0x03 => Extended::Shift(ShiftOp::RotateLeft, Register8bit::E),
        0x04 => Extended::Shift(ShiftOp::RotateLeft, Register8bit::H),
        0x05 => Extended::Shift(ShiftOp::RotateLeft, Register8bit::L),
        0x06 => Extended::Shift(ShiftOp::RotateLeft, Register8bit::HlDirectMemory),
        0x07 => Extended::Shift(ShiftOp::RotateLeft, Register8bit::A),
        0x08 => Extended::Shift(ShiftOp::RotateRight, Register8bit::B),
        0x09 => Extended::Shift(ShiftOp::RotateRight, Register8bit::C),
        0x0A => Extended::Shift(ShiftOp::RotateRight, Register8bit::D),
        0x0B => Extended::Shift(ShiftOp::RotateRight, Register8bit::E),
        0x0C => Extended::Shift(ShiftOp::RotateRight, Register8bit::H),
        0x0D => Extended::Shift(ShiftOp::RotateRight, Register8bit::L),
        0x0E => Extended::Shift(ShiftOp::RotateRight, Register8bit::HlDirectMemory),
        0x0F => Extended::Shift(ShiftOp::RotateRight, Register8bit::A),
        0x10 => Extended::Shift(ShiftOp::RotateLeftCarry, Register8bit::B),
        0x11 => Extended::Shift(ShiftOp::RotateLeftCarry, Register8bit::C),
        0x12 => Extended::Shift(ShiftOp::RotateLeftCarry, Register8bit::D),
        0x13 => Extended::Shift(ShiftOp::RotateLeftCarry, Register8bit::E),
        0x14 => Extended::Shift(ShiftOp::RotateLeftCarry, Register8bit::H),
        0x15 => Extended::Shift(ShiftOp::RotateLeftCarry, Register8bit::L),
        0x16 => Extended::Shift(ShiftOp::RotateLeftCarry, Register8bit::HlDirectMemory),
        0x17 => Extended::Shift(ShiftOp::RotateLeftCarry, Register8bit::A),
        0x18 => Extended::Shift(ShiftOp::RotateRightCarry, Register8bit::B),
        0x19 => Extended::Shift(ShiftOp::RotateRightCarry, Register8bit::C),
        0x1A => Extended::Shift(ShiftOp::RotateRightCarry, Register8bit::D),
        0x1B => Extended::Shift(ShiftOp::RotateRightCarry, Register8bit::E),
        0x1C => Extended::Shift(ShiftOp::RotateRightCarry, Register8bit::H),
        0x1D => Extended::Shift(ShiftOp::RotateRightCarry, Register8bit::L),
        0x1E => Extended::Shift(ShiftOp::RotateRightCarry, Register8bit::HlDirectMemory),
        0x1F => Extended::Shift(ShiftOp::RotateRightCarry, Register8bit::A),
        0x20 => Extended::Shift(ShiftOp::ShiftLeft, Register8bit::B),
        0x21 => Extended::Shift(ShiftOp::ShiftLeft, Register8bit::C),
        0x22 => Extended::Shift(ShiftOp::ShiftLeft, Register8bit::D),
        0x23 => Extended::Shift(ShiftOp::ShiftLeft, Register8bit::E),
        0x24 => Extended::Shift(ShiftOp::ShiftLeft, Register8bit::H),
        0x25 => Extended::Shift(ShiftOp::ShiftLeft, Register8bit::L),
        0x26 => Extended::Shift(ShiftOp::ShiftLeft, Register8bit::HlDirectMemory),
        0x27 => Extended::Shift(ShiftOp::ShiftLeft, Register8bit::A),
        0x28 => Extended::Shift(ShiftOp::ShiftRightArithmetic, Register8bit::B),
        0x29 => Extended::Shift(ShiftOp::ShiftRightArithmetic, Register8bit::C),
        0x2A => Extended::Shift(ShiftOp::ShiftRightArithmetic, Register8bit::D),
        0x2B => Extended::Shift(ShiftOp::ShiftRightArithmetic, Register8bit::E),
        0x2C => Extended::Shift(ShiftOp::ShiftRightArithmetic, Register8bit::H),
        0x2D => Extended::Shift(ShiftOp::ShiftRightArithmetic, Register8bit::L),
        0x2E => Extended::Shift(ShiftOp::ShiftRightArithmetic, Register8bit::HlDirectMemory),
        0x2F => Extended::Shift(ShiftOp::ShiftRightArithmetic, Register8bit::A),
        0x30 => Extended::Shift(ShiftOp::Swap, Register8bit::B),
        0x31 => Extended::Shift(ShiftOp::Swap, Register8bit::C),
        0x32 => Extended::Shift(ShiftOp::Swap, Register8bit::D),
        0x33 => Extended::Shift(ShiftOp::Swap, Register8bit::E),
        0x34 => Extended::Shift(ShiftOp::Swap, Register8bit::H),
        0x35 => Extended::Shift(ShiftOp::Swap, Register8bit::L),
        0x36 => Extended::Shift(ShiftOp::Swap, Register8bit::HlDirectMemory),
        0x37 => Extended::Shift(ShiftOp::Swap, Register8bit::A),
        0x38 => Extended::Shift(ShiftOp::ShiftRightLogical, Register8bit::B),
        0x39 => Extended::Shift(ShiftOp::ShiftRightLogical, Register8bit::C),
        0x3A => Extended::Shift(ShiftOp::ShiftRightLogical, Register8bit::D),
        0x3B => Extended::Shift(ShiftOp::ShiftRightLogical, Register8bit::E),
        0x3C => Extended::Shift(ShiftOp::ShiftRightLogical, Register8bit::H),
        0x3D => Extended::Shift(ShiftOp::ShiftRightLogical, Register8bit::L),
        0x3E => Extended::Shift(ShiftOp::ShiftRightLogical, Register8bit::HlDirectMemory),
        _ => Extended::Shift(ShiftOp::ShiftRightLogical, Register8bit::A),
    }
}

/// The extended table from 0x40 to 0x7F, entry by entry.
fn extended_bits(op: u8) -> (entry: Extended)
    requires
        0x40 <= op <= 0x7F,
    ensures
        entry == extended_entry(op),
        entry.wf(),
{
    match op {
        0x40 => Extended::TestBit(0, Register8bit::B),
        0x41 => Extended::TestBit(0, Register8bit::C),
        0x42 => Extended::TestBit(0, Register8bit::D),
        0x43 => Extended::TestBit(0, Register8bit::E),
        0x44 => Extended::TestBit(0, Register8bit::H),
        0x45 => Extended::TestBit(0, Register8bit::L),
        0x46 => Extended::TestBit(0, Register8bit::HlDirectMemory),
        0x47 => Extended::TestBit(0, Register8bit::A),
        0x48 => Extended::TestBit(1, Register8bit::B),
        0x49 => Extended::TestBit(1, Register8bit::C),
        0x4A => Extended::TestBit(1, Register8bit::D),
        0x4B => Extended::TestBit(1, Register8bit::E),
        0x4C => Extended::TestBit(1, Register8bit::H),
        0x4D => Extended::TestBit(1, Register8bit::L),
        0x4E => Extended::TestBit(1, Register8bit::HlDirectMemory),
        0x4F => Extended::TestBit(1, Register8bit::A),
        0x50 => Extended::TestBit(2, Register8bit::B),
        0x51 => Extended::TestBit(2, Register8bit::C),
        0x52 => Extended::TestBit(2, Register8bit::D),
        0x53 => Extended::TestBit(2, Register8bit::E),
        0x54 => Extended::TestBit(2, Register8bit::H),
        0x55 => Extended::TestBit(2, Register8bit::L),
        0x56 => Extended::TestBit(2, Register8bit::HlDirectMemory),
        0x57 => Extended::TestBit(2, Register8bit::A),
        0x58 => Extended::TestBit(3, Register8bit::B),
        0x59 => Extended::TestBit(3, Register8bit::C),
        0x5A => Extended::TestBit(3, Register8bit::D),
        0x5B => Extended::TestBit(3, Register8bit::E),
        0x5C => Extended::TestBit(3, Register8bit::H),
        0x5D => Extended::TestBit(3, Register8bit::L),
        0x5E => Extended::TestBit(3, Register8bit::HlDirectMemory),
        0x5F => Extended::TestBit(3, Register8bit::A),
        0x60 => Extended::TestBit(4, Register8bit::B),
        0x61 => Extended::TestBit(4, Register8bit::C),
        0x62 => Extended::TestBit(4, Register8bit::D),
        0x63 => Extended::TestBit(4, Register8bit::E),
        0x64 => Extended::TestBit(4, Register8bit::H),
        0x65 => Extended::TestBit(4, Register8bit::L),
        0x66 => Extended::TestBit(4, Register8bit::HlDirectMemory),
        0x67 => Extended::TestBit(4, Register8bit::A),
        0x68 => Extended::TestBit(5, Register8bit::B),
        0x69 => Extended::TestBit(5, Register8bit::C),
        0x6A => Extended::TestBit(5, Register8bit::D),
        0x6B => Extended::TestBit(5, Register8bit::E),
        0x6C => Extended::TestBit(5, Register8bit::H),
        0x6D => Extended::TestBit(5, Register8bit::L),
        0x6E => Extended::TestBit(5, Register8bit::HlDirectMemory),
        0x6F => Extended::TestBit(5, Register8bit::A),
        0x70 => Extended::TestBit(6, Register8bit::B),
        0x71 => Extended::TestBit(6, Register8bit::C),
        0x72 => Extended::TestBit(6, Register8bit::D),
        0x73 => Extended::TestBit(6, Register8bit::E),
        0x74 => Extended::TestBit(6, Register8bit::H),
        0x75 => Extended::TestBit(6, Register8bit::L),
        0x76 => Extended::TestBit(6, Register8bit::HlDirectMemory),
        0x77 => Extended::TestBit(6, Register8bit::A),
        0x78 => Extended::TestBit(7, Register8bit::B),
        0x79 => Extended::TestBit(7, Register8bit::C),
        0x7A => Extended::TestBit(7, Register8bit::D),
        0x7B => Extended::TestBit(7, Register8bit::E),
        0x7C => Extended::TestBit(7, Register8bit::H),
        0x7D => Extended::TestBit(7, Register8bit::L),
        0x7E => Extended::TestBit(7, Register8bit::HlDirectMemory),
        _ => Extended::TestBit(7, Register8bit::A),
    }
}

/// The extended table from 0x80 to 0xBF, entry by entry.
fn extended_resets(op: u8) -> (entry: Extended)
    requires
        0x80 <= op <= 0xBF,
    ensures
        entry == extended_entry(op),
        entry.wf(),
{
    match op {
        0x80 => Extended::ResetBit(0, Register8bit::B),
        0x81 => Extended::ResetBit(0, Register8bit::C),
        0x82 => Extended::ResetBit(0, Register8bit::D),
        0x83 => Extended::ResetBit(0, Register8bit::E),
        0x84 => Extended::ResetBit(0, Register8bit::H),
        0x85 => Extended::ResetBit(0, Register8bit::L),
        0x86 => Extended::ResetBit(0, Register8bit::HlDirectMemory),
        0x87 => Extended::ResetBit(0, Register8bit::A),
        0x88 => Extended::ResetBit(1, Register8bit::B),
        0x89 => Extended::ResetBit(1, Register8bit::C),
        0x8A => Extended::ResetBit(1, Register8bit::D),
        0x8B => Extended::ResetBit(1, Register8bit::E),
        0x8C => Extended::ResetBit(1, Register8bit::H),
        0x8D => Extended::ResetBit(1, Register8bit::L),
        0x8E => Extended::ResetBit(1, Register8bit::HlDirectMemory),
        0x8F => Extended::ResetBit(1, Register8bit::A),
        0x90 => Extended::ResetBit(2, Register8bit::B),
        0x91 => Extended::ResetBit(2, Register8bit::C),
        0x92 => Extended::ResetBit(2, Register8bit::D),
        0x93 => Extended::ResetBit(2, Register8bit::E),
        0x94 => Extended::ResetBit(2, Register8bit::H),
        0x95 => Extended::ResetBit(2, Register8bit::L),
        0x96 => Extended::ResetBit(2, Register8bit::HlDirectMemory),
        0x97 => Extended::ResetBit(2, Register8bit::A),
        0x98 => Extended::ResetBit(3, Register8bit::B),
        0x99 => Extended::ResetBit(3, Register8bit::C),
        0x9A => Extended::ResetBit(3, Register8bit::D),
        0x9B => Extended::ResetBit(3, Register8bit::E),
        0x9C => Extended::ResetBit(3, Register8bit::H),
        0x9D => Extended::ResetBit(3, Register8bit::L),
        0x9E => Extended::ResetBit(3, Register8bit::HlDirectMemory),
        0x9F => Extended::ResetBit(3, Register8bit::A),
        0xA0 => Extended::ResetBit(4, Register8bit::B),
        0xA1 => Extended::ResetBit(4, Register8bit::C),
        0xA2 => Extended::ResetBit(4, Register8bit::D),
        0xA3 => Extended::ResetBit(4, Register8bit::E),
        0xA4 => Extended::ResetBit(4, Register8bit::H),
        0xA5 => Extended::ResetBit(4, Register8bit::L),
        0xA6 => Extended::ResetBit(4, Register8bit::HlDirectMemory),
        0xA7 => Extended::ResetBit(4, Register8bit::A),
        0xA8 => Extended::ResetBit(5, Register8bit::B),
        0xA9 => Extended::ResetBit(5, Register8bit::C),
        0xAA => Extended::ResetBit(5, Register8bit::D),
        0xAB => Extended::ResetBit(5, Register8bit::E),
        0xAC => Extended::ResetBit(5, Register8bit::H),
        0xAD => Extended::ResetBit(5, Register8bit::L),
        0xAE => Extended::ResetBit(5, Register8bit::HlDirectMemory),
        0xAF => Extended::ResetBit(5, Register8bit::A),
        0xB0 => Extended::ResetBit(6, Register8bit::B),
        0xB1 => Extended::ResetBit(6, Register8bit::C),
        0xB2 => Extended::ResetBit(6, Register8bit::D),
        0xB3 => Extended::ResetBit(6, Register8bit::E),
        0xB4 => Extended::ResetBit(6, Register8bit::H),
        0xB5 => Extended::ResetBit(6, Register8bit::L),
        0xB6 => Extended::ResetBit(6, Register8bit::HlDirectMemory),
        0xB7 => Extended::ResetBit(6, Register8bit::A),
        0xB8 => Extended::ResetBit(7, Register8bit::B),
        0xB9 => Extended::ResetBit(7, Register8bit::C),
        0xBA => Extended::ResetBit(7, Register8bit::D),
        0xBB => Extended::ResetBit(7, Register8bit::E),
        0xBC => Extended::ResetBit(7, Register8bit::H),
        0xBD => Extended::ResetBit(7, Register8bit::L),
        0xBE => Extended::ResetBit(7, Register8bit::HlDirectMemory),
        _ => Extended::ResetBit(7, Register8bit::A),
    }
}

/// The extended table from 0xC0 to 0xFF, entry by entry.
fn extended_sets(op: u8) -> (entry: Extended)
    requires
        0xC0 <= op <= 0xFF,
    ensures
        entry == extended_entry(op),
        entry.wf(),
{
    match op {
        0xC0 => Extended::SetBit(0, Register8bit::B),
        0xC1 => Extended::SetBit(0, Register8bit::C),
        0xC2 => Extended::SetBit(0, Register8bit::D),
        0xC3 => Extended::SetBit(0, Register8bit::E),
        0xC4 => Extended::SetBit(0, Register8bit::H),
        0xC5 => Extended::SetBit(0, Register8bit::L),
        0xC6 => Extended::SetBit(0, Register8bit::HlDirectMemory),
        0xC7 => Extended::SetBit(0, Register8bit::A),
        0xC8 => Extended::SetBit(1, Register8bit::B),
        0xC9 => Extended::SetBit(1, Register8bit::C),
        0xCA => Extended::SetBit(1, Register8bit::D),
        0xCB => Extended::SetBit(1, Register8bit::E),
        0xCC => Extended::SetBit(1, Register8bit::H),
        0xCD => Extended::SetBit(1, Register8bit::L),
        0xCE => Extended::SetBit(1, Register8bit::HlDirectMemory),
        0xCF => Extended::SetBit(1, Register8bit::A),
        0xD0 => Extended::SetBit(2, Register8bit::B),
        0xD1 => Extended::SetBit(2, Register8bit::C),
        0xD2 => Extended::SetBit(2, Register8bit::D),
        0xD3 => Extended::SetBit(2, Register8bit::E),
        0xD4 => Extended::SetBit(2, Register8bit::H),
        0xD5 => Extended::SetBit(2, Register8bit::L),
        0xD6 => Extended::SetBit(2, Register8bit::HlDirectMemory),
        0xD7 => Extended::SetBit(2, Register8bit::A),
        0xD8 => Extended::SetBit(3, Register8bit::B),
        0xD9 => Extended::SetBit(3, Register8bit::C),
        0xDA => Extended::SetBit(3, Register8bit::D),
        0xDB => Extended::SetBit(3, Register8bit::E),
        0xDC => Extended::SetBit(3, Register8bit::H),
        0xDD => Extended::SetBit(3, Register8bit::L),
        0xDE => Extended::SetBit(3, Register8bit::HlDirectMemory),
        0xDF => Extended::SetBit(3, Register8bit::A),
        0xE0 => Extended::SetBit(4, Register8bit::B),
        0xE1 => Extended::SetBit(4, Register8bit::C),
        0xE2 => Extended::SetBit(4, Register8bit::D),
        0xE3 => Extended::SetBit(4, Register8bit::E),
        0xE4 => Extended::SetBit(4, Register8bit::H),
        0xE5 => Extended::SetBit(4, Register8bit::L),
        0xE6 => Extended::SetBit(4, Register8bit::HlDirectMemory),
        0xE7 => Extended::SetBit(4, Register8bit::A),
        0xE8 => Extended::SetBit(5, Register8bit::B),
        0xE9 => Extended::SetBit(5, Register8bit::C),
        0xEA => Extended::SetBit(5, Register8bit::D),
        0xEB => Extended::SetBit(5, Register8bit::E),
        0xEC => Extended::SetBit(5, Register8bit::H),
        0xED => Extended::SetBit(5, Register8bit::L),
        0xEE => Extended::SetBit(5, Register8bit::HlDirectMemory),
        0xEF => Extended::SetBit(5, Register8bit::A),
        0xF0 => Extended::SetBit(6, Register8bit::B),
        0xF1 => Extended::SetBit(6, Register8bit::C),
        0xF2 => Extended::SetBit(6, Register8bit::D),
        0xF3 => Extended::SetBit(6, Register8bit::E),
        0xF4 => Extended::SetBit(6, Register8bit::H),
        0xF5 => Extended::SetBit(6, Register8bit::L),
        0xF6 => Extended::SetBit(6, Register8bit::HlDirectMemory),
        0xF7 => Extended::SetBit(6, Register8bit::A),
        0xF8 => Extended::SetBit(7, Register8bit::B),
        0xF9 => Extended::SetBit(7, Register8bit::C),
        0xFA => Extended::SetBit(7, Register8bit::D),
        0xFB => Extended::SetBit(7, Register8bit::E),
        0xFC => Extended::SetBit(7, Register8bit::H),
        0xFD => Extended::SetBit(7, Register8bit::L),
        0xFE => Extended::SetBit(7, Register8bit::HlDirectMemory),
        _ => Extended::SetBit(7, Register8bit::A),
    }
}

/// Looks an opcode up in the primary table. Every entry is well-formed, and
/// none asks for a pop into the stack pointer.
pub fn decode(op: u8) -> (entry: Option<Instruction>)
    ensures
        entry == primary_entry(op),
        entry matches Some(i) ==> i.wf() && i.valid_operand(),
{
    if op < 0x40 {
        primary_low(op)
    } else if op < 0x80 {
        primary_loads(op)
    } else if op < 0xC0 {
        primary_alu(op)
    } else {
        primary_high(op)
    }
}

/// Looks an opcode up in the extended table. Every entry is well-formed.
pub fn decode_extended(op: u8) -> (entry: Extended)
    ensures
        entry == extended_entry(op),
        entry.wf(),
{
    if op < 0x40 {
        extended_shifts(op)
    } else if op < 0x80 {
        extended_bits(op)
    } else if op < 0xC0 {
        extended_resets(op)
    } else {
        extended_sets(op)
    }
}

} // verus!
