//! The serializer: the inverse of the decoder, used by disassembly views and
//! by programmatic ROM construction.
use vstd::prelude::*;

use crate::{instruction_wf, Instruction, Register};

verus! {

/// Why an instruction value has no encoding.
#[derive(Eq, PartialEq, Debug, Structural)]
pub enum SerializationError {
    /// The operand combination has no opcode (for instance a register move
    /// between two special registers).
    UnserializableInstruction { instruction: Instruction },
    /// A subtraction whose result register is neither the minuend nor the
    /// subtrahend.
    InvalidSubtractionStoredIn { instruction: Instruction },
}

/// The two bytes that encode an instruction, or the error that says why
/// none do. Exactly the instructions produced by decoding, plus
/// `JumpToMachineCode` and `Unknown`, have encodings.
pub open spec fn spec_serialize(instruction: Instruction) -> Result<
    (u8, u8),
    SerializationError,
> {
    match instruction {
        Instruction::AddFromRegister {
            register1: Register::General(reg1_num),
            register2: Register::General(reg2_num),
        } => Ok((((0x80 + reg1_num) as u8), ((reg2_num * 16 + 0x4) as u8))),
        Instruction::AddFromRegister {
            register1: Register::I,
            register2: Register::General(reg_num),
        } => Ok((((0xf0 + reg_num) as u8), 0x1e)),
        Instruction::AddFromValue { register: Register::General(reg_num), value } => Ok(
            (((0x70 + reg_num) as u8), value),
        ),
        Instruction::And {
            register1: Register::General(reg1_num),
            register2: Register::General(reg2_num),
        } => Ok((((0x80 + reg1_num) as u8), ((reg2_num * 16 + 0x2) as u8))),
        Instruction::Call { address } => Ok(
            (((0x20 + address / 256) as u8), ((address % 256) as u8)),
        ),
        Instruction::ClearDisplay => Ok((0x00, 0xe0)),
        Instruction::DrawSprite {
            x_register: Register::General(x_reg),
            y_register: Register::General(y_reg),
            height,
        } => Ok((((0xd0 + x_reg) as u8), ((y_reg * 16 + height) as u8))),
        Instruction::JumpToAddress { address, add_register_0 } => if add_register_0 {
            Ok((((0xb0 + address / 256) as u8), ((address % 256) as u8)))
        } else {
            Ok((((0x10 + address / 256) as u8), ((address % 256) as u8)))
        },
        Instruction::JumpToMachineCode { address } => Ok(
            (((address / 256) as u8), ((address % 256) as u8)),
        ),
        Instruction::LoadAddressIntoIRegister { address } => Ok(
            (((0xa0 + address / 256) as u8), ((address % 256) as u8)),
        ),
        Instruction::LoadBcdValue { source: Register::General(reg_num) } => Ok(
            (((0xf0 + reg_num) as u8), 0x33),
        ),
        Instruction::LoadFromKeyPress { destination: Register::General(reg_num) } => Ok(
            (((0xf0 + reg_num) as u8), 0x0a),
        ),
        Instruction::LoadFromMemory { last_register: Register::General(reg_num) } => Ok(
            (((0xf0 + reg_num) as u8), 0x65),
        ),
        Instruction::LoadFromRegister {
            source: Register::DelayTimer,
            destination: Register::General(dest_num),
        } => Ok((((0xf0 + dest_num) as u8), 0x07)),
        Instruction::LoadFromRegister {
            source: Register::General(source_num),
            destination: Register::DelayTimer,
        } => Ok((((0xf0 + source_num) as u8), 0x15)),
        Instruction::LoadFromRegister {
            source: Register::General(source_num),
            destination: Register::SoundTimer,
        } => Ok((((0xf0 + source_num) as u8), 0x18)),
        Instruction::LoadFromRegister {
            source: Register::General(source_num),
            destination: Register::General(dest_num),
        } => Ok((((0x80 + dest_num) as u8), ((source_num * 16) as u8))),
        Instruction::LoadFromValue { destination: Register::General(reg_num), value } => Ok(
            (((0x60 + reg_num) as u8), value),
        ),
        Instruction::LoadIntoMemory { last_register: Register::General(reg_num) } => Ok(
            (((0xf0 + reg_num) as u8), 0x55),
        ),
        Instruction::LoadSpriteLocation { sprite_digit: Register::General(reg_num) } => Ok(
            (((0xf0 + reg_num) as u8), 0x29),
        ),
        Instruction::Or {
            register1: Register::General(reg1_num),
            register2: Register::General(reg2_num),
        } => Ok((((0x80 + reg1_num) as u8), ((reg2_num * 16 + 0x1) as u8))),
        Instruction::Return => Ok((0x00, 0xee)),
        Instruction::SetRandom { register: Register::General(reg_num), and_value } => Ok(
            (((0xc0 + reg_num) as u8), and_value),
        ),
        Instruction::ShiftLeft { register: Register::General(reg_num) } => Ok(
            (((0x80 + reg_num) as u8), 0x0e),
        ),
        Instruction::ShiftRight { register: Register::General(reg_num) } => Ok(
            (((0x80 + reg_num) as u8), 0x06),
        ),
        Instruction::SkipIfEqual { register: Register::General(reg_num), value } => Ok(
            (((0x30 + reg_num) as u8), value),
        ),
        Instruction::SkipIfKeyNotPressed { register: Register::General(reg_num) } => Ok(
            (((0xe0 + reg_num) as u8), 0xa1),
        ),
        Instruction::SkipIfKeyPressed { register: Register::General(reg_num) } => Ok(
            (((0xe0 + reg_num) as u8), 0x9e),
        ),
        Instruction::SkipIfNotEqual { register: Register::General(reg_num), value } => Ok(
            (((0x40 + reg_num) as u8), value),
        ),
        Instruction::SkipIfRegistersEqual {
            register1: Register::General(reg1_num),
            register2: Register::General(reg2_num),
        } => Ok((((0x50 + reg1_num) as u8), ((reg2_num * 16) as u8))),
        Instruction::SkipIfRegistersNotEqual {
            register1: Register::General(reg1_num),
            register2: Register::General(reg2_num),
        } => Ok((((0x90 + reg1_num) as u8), ((reg2_num * 16) as u8))),
        Instruction::Subtract {
            minuend: Register::General(min_num),
            subtrahend: Register::General(sub_num),
            stored_in: Register::General(stored_num),
        } => if stored_num == min_num {
            Ok((((0x80 + min_num) as u8), ((sub_num * 16 + 0x5) as u8)))
        } else if stored_num == sub_num {
            Ok((((0x80 + sub_num) as u8), ((min_num * 16 + 0x7) as u8)))
        } else {
            Err(SerializationError::InvalidSubtractionStoredIn { instruction })
        },
        Instruction::Unknown { bytes } => Ok((((bytes / 256) as u8), ((bytes % 256) as u8))),
        Instruction::Xor {
            register1: Register::General(reg1_num),
            register2: Register::General(reg2_num),
        } => Ok((((0x80 + reg1_num) as u8), ((reg2_num * 16 + 0x3) as u8))),
        _ => Err(SerializationError::UnserializableInstruction { instruction }),
    }
}

/// Encode an instruction as its two bytes, or report why it has no
/// encoding.
pub fn serialize_instruction(instruction: Instruction) -> (result: Result<
    (u8, u8),
    SerializationError,
>)
    requires
        instruction_wf(instruction),
    ensures
        result == spec_serialize(instruction),
{
    match instruction {
        Instruction::AddFromRegister {
            register1: Register::General(reg1_num),
            register2: Register::General(reg2_num),
        } => Ok((0x80 + reg1_num, reg2_num * 16 + 0x4)),
        Instruction::AddFromRegister {
            register1: Register::I,
            register2: Register::General(reg_num),
        } => Ok((0xf0 + reg_num, 0x1e)),
        Instruction::AddFromValue { register: Register::General(reg_num), value } => Ok(
            (0x70 + reg_num, value),
        ),
        Instruction::And {
            register1: Register::General(reg1_num),
            register2: Register::General(reg2_num),
        } => Ok((0x80 + reg1_num, reg2_num * 16 + 0x2)),
        Instruction::Call { address } => Ok((0x20 + (address / 256) as u8, (address % 256) as u8)),
        Instruction::ClearDisplay => Ok((0x00, 0xe0)),
        Instruction::DrawSprite {
            x_register: Register::General(x_reg),
            y_register: Register::General(y_reg),
            height,
        } => Ok((0xd0 + x_reg, y_reg * 16 + height)),
        Instruction::JumpToAddress { address, add_register_0 } => match add_register_0 {
            true => Ok((0xb0 + (address / 256) as u8, (address % 256) as u8)),
            false => Ok((0x10 + (address / 256) as u8, (address % 256) as u8)),
        },
        Instruction::JumpToMachineCode { address } => Ok(
            ((address / 256) as u8, (address % 256) as u8),
        ),
        Instruction::LoadAddressIntoIRegister { address } => Ok(
            (0xa0 + (address / 256) as u8, (address % 256) as u8),
        ),
        Instruction::LoadBcdValue { source: Register::General(reg_num) } => Ok(
            (0xf0 + reg_num, 0x33),
        ),
        Instruction::LoadFromKeyPress { destination: Register::General(reg_num) } => Ok(
            (0xf0 + reg_num, 0x0a),
        ),
        Instruction::LoadFromMemory { last_register: Register::General(reg_num) } => Ok(
            (0xf0 + reg_num, 0x65),
        ),
        Instruction::LoadFromRegister {
            source: Register::DelayTimer,
            destination: Register::General(dest_num),
        } => Ok((0xf0 + dest_num, 0x07)),
        Instruction::LoadFromRegister {
            source: Register::General(source_num),
            destination: Register::DelayTimer,
        } => Ok((0xf0 + source_num, 0x15)),
        Instruction::LoadFromRegister {
            source: Register::General(source_num),
            destination: Register::SoundTimer,
        } => Ok((0xf0 + source_num, 0x18)),
        Instruction::LoadFromRegister {
            source: Register::General(source_num),
            destination: Register::General(dest_num),
        } => Ok((0x80 + dest_num, source_num * 16)),
        Instruction::LoadFromValue { destination: Register::General(reg_num), value } => Ok(
            (0x60 + reg_num, value),
        ),
        Instruction::LoadIntoMemory { last_register: Register::General(reg_num) } => Ok(
            (0xf0 + reg_num, 0x55),
        ),
        Instruction::LoadSpriteLocation { sprite_digit: Register::General(reg_num) } => Ok(
            (0xf0 + reg_num, 0x29),
        ),
        Instruction::Or {
            register1: Register::General(reg1_num),
            register2: Register::General(reg2_num),
        } => Ok((0x80 + reg1_num, reg2_num * 16 + 0x1)),
        Instruction::Return => Ok((0x00, 0xee)),
        Instruction::SetRandom { register: Register::General(reg_num), and_value } => Ok(
            (0xc0 + reg_num, and_value),
        ),
        Instruction::ShiftLeft { register: Register::General(reg_num) } => Ok(
            (0x80 + reg_num, 0x0e),
        ),
        Instruction::ShiftRight { register: Register::General(reg_num) } => Ok(
            (0x80 + reg_num, 0x06),
        ),
        Instruction::SkipIfEqual { register: Register::General(reg_num), value } => Ok(
            (0x30 + reg_num, value),
        ),
        Instruction::SkipIfKeyNotPressed { register: Register::General(reg_num) } => Ok(
            (0xe0 + reg_num, 0xa1),
        ),
        Instruction::SkipIfKeyPressed { register: Register::General(reg_num) } => Ok(
            (0xe0 + reg_num, 0x9e),
        ),
        Instruction::SkipIfNotEqual { register: Register::General(reg_num), value } => Ok(
            (0x40 + reg_num, value),
        ),
        Instruction::SkipIfRegistersEqual {
            register1: Register::General(reg1_num),
            register2: Register::General(reg2_num),
        } => Ok((0x50 + reg1_num, reg2_num * 16)),
        Instruction::SkipIfRegistersNotEqual {
            register1: Register::General(reg1_num),
            register2: Register::General(reg2_num),
        } => Ok((0x90 + reg1_num, reg2_num * 16)),
        Instruction::Subtract {
            minuend: Register::General(min_num),
            subtrahend: Register::General(sub_num),
            stored_in: Register::General(stored_num),
        } => {
            if stored_num == min_num {
                Ok((0x80 + min_num, sub_num * 16 + 0x5))
            } else if stored_num == sub_num {
                Ok((0x80 + sub_num, min_num * 16 + 0x7))
            } else {
                Err(
                    SerializationError::InvalidSubtractionStoredIn {
                        instruction: Instruction::Subtract {
                            minuend: Register::General(min_num),
                            subtrahend: Register::General(sub_num),
                            stored_in: Register::General(stored_num),
                        },
                    },
                )
            }
        },
        Instruction::Unknown { bytes } => Ok(((bytes / 256) as u8, (bytes % 256) as u8)),
        Instruction::Xor {
            register1: Register::General(reg1_num),
            register2: Register::General(reg2_num),
        } => Ok((0x80 + reg1_num, reg2_num * 16 + 0x3)),
        instruction => Err(SerializationError::UnserializableInstruction { instruction }),
    }
}

} // verus!
