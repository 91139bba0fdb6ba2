//! The instruction decoder: a pure, total function from two instruction
//! bytes to a typed instruction.
use vstd::prelude::*;

use crate::{Instruction, Register};

verus! {

/// What the decoder returns for a 16-bit word, split into the four nibbles
/// `value1 value2 value3 value4`: the canonical CHIP-8 opcode table.
pub open spec fn spec_decode(byte1: u8, byte2: u8) -> Instruction {
    let value1 = byte1 / 16;
    let value2 = byte1 % 16;
    let value3 = byte2 / 16;
    let value4 = byte2 % 16;
    let address = ((value2 * 256 + byte2) as u16);
    if byte1 == 0x00 && byte2 == 0xe0 {
        Instruction::ClearDisplay
    } else if byte1 == 0x00 && byte2 == 0xee {
        Instruction::Return
    } else if value1 == 0x0 {
        Instruction::JumpToMachineCode { address }
    } else if value1 == 0x1 {
        Instruction::JumpToAddress { address, add_register_0: false }
    } else if value1 == 0x2 {
        Instruction::Call { address }
    } else if value1 == 0x3 {
        Instruction::SkipIfEqual { register: Register::General(value2), value: byte2 }
    } else if value1 == 0x4 {
        Instruction::SkipIfNotEqual { register: Register::General(value2), value: byte2 }
    } else if value1 == 0x5 && value4 == 0x0 {
        Instruction::SkipIfRegistersEqual {
            register1: Register::General(value2),
            register2: Register::General(value3),
        }
    } else if value1 == 0x6 {
        Instruction::LoadFromValue { destination: Register::General(value2), value: byte2 }
    } else if value1 == 0x7 {
        Instruction::AddFromValue { register: Register::General(value2), value: byte2 }
    } else if value1 == 0x8 && value4 == 0x0 {
        Instruction::LoadFromRegister {
            destination: Register::General(value2),
            source: Register::General(value3),
        }
    } else if value1 == 0x8 && value4 == 0x1 {
        Instruction::Or {
            register1: Register::General(value2),
            register2: Register::General(value3),
        }
    } else if value1 == 0x8 && value4 == 0x2 {
        Instruction::And {
            register1: Register::General(value2),
            register2: Register::General(value3),
        }
    } else if value1 == 0x8 && value4 == 0x3 {
        Instruction::Xor {
            register1: Register::General(value2),
            register2: Register::General(value3),
        }
    } else if value1 == 0x8 && value4 == 0x4 {
        Instruction::AddFromRegister {
            register1: Register::General(value2),
            register2: Register::General(value3),
        }
    } else if value1 == 0x8 && value4 == 0x5 {
        Instruction::Subtract {
            minuend: Register::General(value2),
            subtrahend: Register::General(value3),
            stored_in: Register::General(value2),
        }
    } else if value1 == 0x8 && value4 == 0x6 {
        Instruction::ShiftRight { register: Register::General(value2) }
    } else if value1 == 0x8 && value4 == 0x7 {
        Instruction::Subtract {
            minuend: Register::General(value3),
            subtrahend: Register::General(value2),
            stored_in: Register::General(value2),
        }
    } else if value1 == 0x8 && value4 == 0xe {
        Instruction::ShiftLeft { register: Register::General(value2) }
    } else if value1 == 0x9 && value4 == 0x0 {
        Instruction::SkipIfRegistersNotEqual {
            register1: Register::General(value2),
            register2: Register::General(value3),
        }
    } else if value1 == 0xa {
        Instruction::LoadAddressIntoIRegister { address }
    } else if value1 == 0xb {
        Instruction::JumpToAddress { address, add_register_0: true }
    } else if value1 == 0xc {
        Instruction::SetRandom { register: Register::General(value2), and_value: byte2 }
    } else if value1 == 0xd {
        Instruction::DrawSprite {
            x_register: Register::General(value2),
            y_register: Register::General(value3),
            height: value4,
        }
    } else if value1 == 0xe && value3 == 0x9 && value4 == 0xe {
        Instruction::SkipIfKeyPressed { register: Register::General(value2) }
    } else if value1 == 0xe && value3 == 0xa && value4 == 0x1 {
        Instruction::SkipIfKeyNotPressed { register: Register::General(value2) }
    } else if value1 == 0xf && value3 == 0x0 && value4 == 0x7 {
        Instruction::LoadFromRegister {
            destination: Register::General(value2),
            source: Register::DelayTimer,
        }
    } else if value1 == 0xf && value3 == 0x0 && value4 == 0xa {
        Instruction::LoadFromKeyPress { destination: Register::General(value2) }
    } else if value1 == 0xf && value3 == 0x1 && value4 == 0x5 {
        Instruction::LoadFromRegister {
            destination: Register::DelayTimer,
            source: Register::General(value2),
        }
    } else if value1 == 0xf && value3 == 0x1 && value4 == 0x8 {
        Instruction::LoadFromRegister {
            destination: Register::SoundTimer,
            source: Register::General(value2),
        }
    } else if value1 == 0xf && value3 == 0x1 && value4 == 0xe {
        Instruction::AddFromRegister {
            register1: Register::I,
            register2: Register::General(value2),
        }
    } else if value1 == 0xf && value3 == 0x2 && value4 == 0x9 {
        Instruction::LoadSpriteLocation { sprite_digit: Register::General(value2) }
    } else if value1 == 0xf && value3 == 0x3 && value4 == 0x3 {
        Instruction::LoadBcdValue { source: Register::General(value2) }
    } else if value1 == 0xf && value3 == 0x5 && value4 == 0x5 {
        Instruction::LoadIntoMemory { last_register: Register::General(value2) }
    } else if value1 == 0xf && value3 == 0x6 && value4 == 0x5 {
        Instruction::LoadFromMemory { last_register: Register::General(value2) }
    } else {
        Instruction::Unknown { bytes: ((byte1 * 256 + byte2) as u16) }
    }
}

/// Decode two instruction bytes. The decoder is total: a word that matches
/// no pattern of the opcode table becomes `Unknown` with the word kept.
pub fn get_instruction(byte1: u8, byte2: u8) -> (instruction: Instruction)
    ensures
        instruction == spec_decode(byte1, byte2),
{
    let value1 = byte1 / 16;
    let value2 = byte1 % 16;
    let value3 = byte2 / 16;
    let value4 = byte2 % 16;
    let address: u16 = (value2 as u16) * 256 + (byte2 as u16);

    match (value1, value2, value3, value4) {
        (0x0, 0x0, 0xe, 0x0) => Instruction::ClearDisplay,
        (0x0, 0x0, 0xe, 0xe) => Instruction::Return,
        (0x0, _, _, _) => Instruction::JumpToMachineCode { address },
        (0x1, _, _, _) => Instruction::JumpToAddress { address, add_register_0: false },
        (0x2, _, _, _) => Instruction::Call { address },
        (0x3, _, _, _) => Instruction::SkipIfEqual {
            register: Register::General(value2),
            value: byte2,
        },
        (0x4, _, _, _) => Instruction::SkipIfNotEqual {
            register: Register::General(value2),
            value: byte2,
        },
        (0x5, _, _, 0x0) => Instruction::SkipIfRegistersEqual {
            register1: Register::General(value2),
            register2: Register::General(value3),
        },
        (0x6, _, _, _) => Instruction::LoadFromValue {
            destination: Register::General(value2),
            value: byte2,
        },
        (0x7, _, _, _) => Instruction::AddFromValue {
            register: Register::General(value2),
            value: byte2,
        },
        (0x8, _, _, 0x0) => Instruction::LoadFromRegister {
            source: Register::General(value3),
            destination: Register::General(value2),
        },
        (0x8, _, _, 0x1) => Instruction::Or {
            register1: Register::General(value2),
            register2: Register::General(value3),
        },
        (0x8, _, _, 0x2) => Instruction::And {
            register1: Register::General(value2),
            register2: Register::General(value3),
        },
        (0x8, _, _, 0x3) => Instruction::Xor {
            register1: Register::General(value2),
            register2: Register::General(value3),
        },
        (0x8, _, _, 0x4) => Instruction::AddFromRegister {
            register1: Register::General(value2),
            register2: Register::General(value3),
        },
        (0x8, _, _, 0x5) => Instruction::Subtract {
            minuend: Register::General(value2),
            subtrahend: Register::General(value3),
            stored_in: Register::General(value2),
        },
        (0x8, _, _, 0x6) => Instruction::ShiftRight { register: Register::General(value2) },
        (0x8, _, _, 0x7) => Instruction::Subtract {
            minuend: Register::General(value3),
            subtrahend: Register::General(value2),
            stored_in: Register::General(value2),
        },
        (0x8, _, _, 0xe) => Instruction::ShiftLeft { register: Register::General(value2) },
        (0x9, _, _, 0x0) => Instruction::SkipIfRegistersNotEqual {
            register1: Register::General(value2),
            register2: Register::General(value3),
        },
        (0xa, _, _, _) => Instruction::LoadAddressIntoIRegister { address },
        (0xb, _, _, _) => Instruction::JumpToAddress { address, add_register_0: true },
        (0xc, _, _, _) => Instruction::SetRandom {
            register: Register::General(value2),
            and_value: byte2,
        },
        (0xd, _, _, _) => Instruction::DrawSprite {
            x_register: Register::General(value2),
            y_register: Register::General(value3),
            height: value4,
        },
        (0xe, _, 0x9, 0xe) => Instruction::SkipIfKeyPressed {
            register: Register::General(value2),
        },
        (0xe, _, 0xa, 0x1) => Instruction::SkipIfKeyNotPressed {
            register: Register::General(value2),
        },
        (0xf, _, 0x0, 0x7) => Instruction::LoadFromRegister {
            source: Register::DelayTimer,
            destination: Register::General(value2),
        },
        (0xf, _, 0x0, 0xa) => Instruction::LoadFromKeyPress {
            destination: Register::General(value2),
        },
        (0xf, _, 0x1, 0x5) => Instruction::LoadFromRegister {
            source: Register::General(value2),
            destination: Register::DelayTimer,
        },
        (0xf, _, 0x1, 0x8) => Instruction::LoadFromRegister {
            source: Register::General(value2),
            destination: Register::SoundTimer,
        },
        (0xf, _, 0x1, 0xe) => Instruction::AddFromRegister {
            register1: Register::I,
            register2: Register::General(value2),
        },
        (0xf, _, 0x2, 0x9) => Instruction::LoadSpriteLocation {
            sprite_digit: Register::General(value2),
        },
        (0xf, _, 0x3, 0x3) => Instruction::LoadBcdValue { source: Register::General(value2) },
        (0xf, _, 0x5, 0x5) => Instruction::LoadIntoMemory {
            last_register: Register::General(value2),
        },
        (0xf, _, 0x6, 0x5) => Instruction::LoadFromMemory {
            last_register: Register::General(value2),
        },
        _ => Instruction::Unknown { bytes: (byte1 as u16) * 256 + (byte2 as u16) },
    }
}

} // verus!
