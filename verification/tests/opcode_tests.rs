use gb_core::cpu::{Register16bit, Register8bit};
use gb_core::opcode::{decode, decode_extended, AluOp, Condition, Extended, Instruction, ShiftOp};

#[test]
fn opcodes_without_an_entry() {
    let missing = [0xD3u8, 0xDB, 0xDD, 0xE3, 0xE4, 0xEB, 0xEC, 0xED, 0xF4, 0xFC, 0xFD];
    for op in 0..=0xFFu8 {
        assert_eq!(decode(op).is_none(), missing.contains(&op));
    }
}

#[test]
fn first_quarter_entries() {
    assert_eq!(decode(0x00), Some(Instruction::Nop));
    assert_eq!(decode(0x01), Some(Instruction::LoadWord(Register16bit::BC)));
    assert_eq!(decode(0x02), Some(Instruction::StoreAcc(Register16bit::BC)));
    assert_eq!(decode(0x08), Some(Instruction::StoreStackPointer));
    assert_eq!(decode(0x10), Some(Instruction::Stop));
    assert_eq!(decode(0x12), Some(Instruction::StoreAcc(Register16bit::DE)));
    assert_eq!(decode(0x18), Some(Instruction::JumpRelative(Condition::Always)));
    assert_eq!(decode(0x1A), Some(Instruction::LoadAcc(Register16bit::DE)));
    assert_eq!(decode(0x20), Some(Instruction::JumpRelative(Condition::NotZero)));
    assert_eq!(decode(0x22), Some(Instruction::StoreAccIncrement));
    assert_eq!(decode(0x28), Some(Instruction::JumpRelative(Condition::Zero)));
    assert_eq!(decode(0x2A), Some(Instruction::LoadAccIncrement));
    assert_eq!(decode(0x30), Some(Instruction::JumpRelative(Condition::NotCarry)));
    assert_eq!(decode(0x31), Some(Instruction::LoadWord(Register16bit::SP)));
    assert_eq!(decode(0x32), Some(Instruction::StoreAccDecrement));
    assert_eq!(decode(0x33), Some(Instruction::Increment16(Register16bit::SP)));
    assert_eq!(decode(0x34), Some(Instruction::Increment(Register8bit::HlDirectMemory)));
    assert_eq!(decode(0x35), Some(Instruction::Decrement(Register8bit::HlDirectMemory)));
    assert_eq!(decode(0x36), Some(Instruction::LoadImmediate(Register8bit::HlDirectMemory)));
    assert_eq!(decode(0x38), Some(Instruction::JumpRelative(Condition::Carry)));
    assert_eq!(decode(0x39), Some(Instruction::AddToHl(Register16bit::SP)));
    assert_eq!(decode(0x3A), Some(Instruction::LoadAccDecrement));
    assert_eq!(decode(0x3B), Some(Instruction::Decrement16(Register16bit::SP)));
    assert_eq!(decode(0x3E), Some(Instruction::LoadImmediate(Register8bit::A)));
    assert_eq!(decode(0x07), Some(Instruction::RotateAcc(ShiftOp::RotateLeft)));
    assert_eq!(decode(0x0F), Some(Instruction::RotateAcc(ShiftOp::RotateRight)));
    assert_eq!(decode(0x17), Some(Instruction::RotateAcc(ShiftOp::RotateLeftCarry)));
    assert_eq!(decode(0x1F), Some(Instruction::RotateAcc(ShiftOp::RotateRightCarry)));
    assert_eq!(decode(0x27), Some(Instruction::DecimalAdjust));
    assert_eq!(decode(0x2F), Some(Instruction::Complement));
    assert_eq!(decode(0x37), Some(Instruction::SetCarry));
    assert_eq!(decode(0x3F), Some(Instruction::ComplementCarry));
}

#[test]
fn load_block_entries() {
    assert_eq!(decode(0x40), Some(Instruction::Load(Register8bit::B, Register8bit::B)));
    assert_eq!(decode(0x4F), Some(Instruction::Load(Register8bit::C, Register8bit::A)));
    assert_eq!(
        decode(0x56),
        Some(Instruction::Load(Register8bit::D, Register8bit::HlDirectMemory))
    );
    assert_eq!(
        decode(0x70),
        Some(Instruction::Load(Register8bit::HlDirectMemory, Register8bit::B))
    );
    assert_eq!(decode(0x76), Some(Instruction::Halt));
    assert_eq!(
        decode(0x77),
        Some(Instruction::Load(Register8bit::HlDirectMemory, Register8bit::A))
    );
    assert_eq!(decode(0x7F), Some(Instruction::Load(Register8bit::A, Register8bit::A)));
    assert_eq!(decode(0x6C), Some(Instruction::Load(Register8bit::L, Register8bit::H)));
}

#[test]
fn alu_block_entries() {
    assert_eq!(decode(0x80), Some(Instruction::Alu(AluOp::Add, Register8bit::B)));
    assert_eq!(decode(0x8E), Some(Instruction::Alu(AluOp::AddCarry, Register8bit::HlDirectMemory)));
    assert_eq!(decode(0x97), Some(Instruction::Alu(AluOp::Sub, Register8bit::A)));
    assert_eq!(decode(0x99), Some(Instruction::Alu(AluOp::SubCarry, Register8bit::C)));
    assert_eq!(decode(0xA2), Some(Instruction::Alu(AluOp::And, Register8bit::D)));
    assert_eq!(decode(0xAB), Some(Instruction::Alu(AluOp::Xor, Register8bit::E)));
    assert_eq!(decode(0xB4), Some(Instruction::Alu(AluOp::Or, Register8bit::H)));
    assert_eq!(decode(0xBD), Some(Instruction::Alu(AluOp::Compare, Register8bit::L)));
}

#[test]
fn last_quarter_entries() {
    assert_eq!(decode(0xC0), Some(Instruction::Return(Condition::NotZero)));
    assert_eq!(decode(0xC1), Some(Instruction::Pop(Register16bit::BC)));
    assert_eq!(decode(0xC2), Some(Instruction::Jump(Condition::NotZero)));
    assert_eq!(decode(0xC3), Some(Instruction::Jump(Condition::Always)));
    assert_eq!(decode(0xC4), Some(Instruction::Call(Condition::NotZero)));
    assert_eq!(decode(0xC5), Some(Instruction::Push(Register16bit::BC)));
    assert_eq!(decode(0xC6), Some(Instruction::AluImmediate(AluOp::Add)));
    assert_eq!(decode(0xC8), Some(Instruction::Return(Condition::Zero)));
    assert_eq!(decode(0xC9), Some(Instruction::PlainReturn));
    assert_eq!(decode(0xCB), Some(Instruction::Prefix));
    assert_eq!(decode(0xCD), Some(Instruction::Call(Condition::Always)));
    assert_eq!(decode(0xCE), Some(Instruction::AluImmediate(AluOp::AddCarry)));
    assert_eq!(decode(0xD0), Some(Instruction::Return(Condition::NotCarry)));
    assert_eq!(decode(0xD1), Some(Instruction::Pop(Register16bit::DE)));
    assert_eq!(decode(0xD5), Some(Instruction::Push(Register16bit::DE)));
    assert_eq!(decode(0xD6), Some(Instruction::AluImmediate(AluOp::Sub)));
    assert_eq!(decode(0xD8), Some(Instruction::Return(Condition::Carry)));
    assert_eq!(decode(0xD9), Some(Instruction::ReturnEnable));
    assert_eq!(decode(0xDA), Some(Instruction::Jump(Condition::Carry)));
    assert_eq!(decode(0xDC), Some(Instruction::Call(Condition::Carry)));
    assert_eq!(decode(0xDE), Some(Instruction::AluImmediate(AluOp::SubCarry)));
    assert_eq!(decode(0xE0), Some(Instruction::StoreHighImmediate));
    assert_eq!(decode(0xE1), Some(Instruction::Pop(Register16bit::HL)));
    assert_eq!(decode(0xE2), Some(Instruction::StoreHighC));
    assert_eq!(decode(0xE5), Some(Instruction::Push(Register16bit::HL)));
    assert_eq!(decode(0xE6), Some(Instruction::AluImmediate(AluOp::And)));
    assert_eq!(decode(0xE8), Some(Instruction::AdjustAcc));
    assert_eq!(decode(0xE9), Some(Instruction::JumpHl));
    assert_eq!(decode(0xEA), Some(Instruction::StoreAbsolute));
    assert_eq!(decode(0xEE), Some(Instruction::AluImmediate(AluOp::Xor)));
    assert_eq!(decode(0xF0), Some(Instruction::LoadHighImmediate));
    assert_eq!(decode(0xF1), Some(Instruction::PopAf));
    assert_eq!(decode(0xF2), Some(Instruction::LoadHighC));
    assert_eq!(decode(0xF3), Some(Instruction::DisableInterrupts));
    assert_eq!(decode(0xF5), Some(Instruction::PushAf));
    assert_eq!(decode(0xF6), Some(Instruction::AluImmediate(AluOp::Or)));
    assert_eq!(decode(0xF8), Some(Instruction::LoadHlFromStackPointer));
    assert_eq!(decode(0xF9), Some(Instruction::LoadStackPointerFromHl));
    assert_eq!(decode(0xFA), Some(Instruction::LoadAbsolute));
    assert_eq!(decode(0xFB), Some(Instruction::EnableInterrupts));
    assert_eq!(decode(0xFE), Some(Instruction::AluImmediate(AluOp::Compare)));
}

#[test]
fn restart_vectors() {
    let ops = [0xC7u8, 0xCF, 0xD7, 0xDF, 0xE7, 0xEF, 0xF7, 0xFF];
    for (i, op) in ops.iter().enumerate() {
        assert_eq!(decode(*op), Some(Instruction::Restart(8 * i as u16)));
    }
}

#[test]
fn no_opcode_pops_into_the_stack_pointer() {
    for op in 0..=0xFFu8 {
        assert_ne!(decode(op), Some(Instruction::Pop(Register16bit::SP)));
    }
}

#[test]
fn extended_entries() {
    assert_eq!(decode_extended(0x00), Extended::Shift(ShiftOp::RotateLeft, Register8bit::B));
    assert_eq!(decode_extended(0x0F), Extended::Shift(ShiftOp::RotateRight, Register8bit::A));
    assert_eq!(
        decode_extended(0x16),
        Extended::Shift(ShiftOp::RotateLeftCarry, Register8bit::HlDirectMemory)
    );
    assert_eq!(decode_extended(0x19), Extended::Shift(ShiftOp::RotateRightCarry, Register8bit::C));
    assert_eq!(decode_extended(0x22), Extended::Shift(ShiftOp::ShiftLeft, Register8bit::D));
    assert_eq!(
        decode_extended(0x2B),
        Extended::Shift(ShiftOp::ShiftRightArithmetic, Register8bit::E)
    );
    assert_eq!(decode_extended(0x34), Extended::Shift(ShiftOp::Swap, Register8bit::H));
    assert_eq!(decode_extended(0x3D), Extended::Shift(ShiftOp::ShiftRightLogical, Register8bit::L));
    assert_eq!(decode_extended(0x40), Extended::TestBit(0, Register8bit::B));
    assert_eq!(decode_extended(0x7F), Extended::TestBit(7, Register8bit::A));
    assert_eq!(decode_extended(0x5E), Extended::TestBit(3, Register8bit::HlDirectMemory));
    assert_eq!(decode_extended(0x80), Extended::ResetBit(0, Register8bit::B));
    assert_eq!(decode_extended(0xBF), Extended::ResetBit(7, Register8bit::A));
    assert_eq!(decode_extended(0x9A), Extended::ResetBit(3, Register8bit::D));
    assert_eq!(decode_extended(0xC0), Extended::SetBit(0, Register8bit::B));
    assert_eq!(decode_extended(0xFF), Extended::SetBit(7, Register8bit::A));
    assert_eq!(decode_extended(0xE5), Extended::SetBit(4, Register8bit::L));
}

#[test]
fn extended_entries_follow_the_bit_fields() {
    let operands = [
        Register8bit::B,
        Register8bit::C,
        Register8bit::D,
        Register8bit::E,
        Register8bit::H,
        Register8bit::L,
        Register8bit::HlDirectMemory,
        Register8bit::A,
    ];
    for op in 0x40..=0xFFu8 {
        let bit = (op >> 3) & 7;
        let operand = operands[(op & 7) as usize];
        let expected = match op >> 6 {
            1 => Extended::TestBit(bit, operand),
            2 => Extended::ResetBit(bit, operand),
            _ => Extended::SetBit(bit, operand),
        };
        assert_eq!(decode_extended(op), expected);
    }
}
