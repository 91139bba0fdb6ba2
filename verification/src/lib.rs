//! A CHIP-8 interpreter core: machine state, instruction decoder, executor,
//! and serializer, together with the pure state transitions that the
//! surrounding driver needs (timer ticks, key latches, ROM loading, and the
//! debug view's address window).
use vstd::prelude::*;

pub mod display;
pub mod execution;
pub mod hardware;
pub mod input;
pub mod laws;
pub mod parser;
pub mod rendering;
pub mod roms;
pub mod serializer;
pub mod settings;

pub use execution::execute_instruction;
pub use hardware::Hardware;
pub use parser::get_instruction;
pub use serializer::serialize_instruction;

verus! {

/// One operand of a CHIP-8 instruction: a general register `V0`..`VF`,
/// or one of the three special registers.
#[derive(Eq, PartialEq, Debug, Clone, Copy, Structural)]
pub enum Register {
    General(u8),
    I,
    SoundTimer,
    DelayTimer,
}

/// A decoded CHIP-8 instruction. `Unknown` keeps the undecodable 16-bit
/// word for diagnostics.
#[derive(Eq, PartialEq, Debug, Clone, Copy, Structural)]
pub enum Instruction {
    AddFromRegister { register1: Register, register2: Register },
    AddFromValue { register: Register, value: u8 },
    And { register1: Register, register2: Register },
    Call { address: u16 },
    ClearDisplay,
    DrawSprite { x_register: Register, y_register: Register, height: u8 },
    JumpToAddress { address: u16, add_register_0: bool },
    JumpToMachineCode { address: u16 },
    LoadAddressIntoIRegister { address: u16 },
    LoadBcdValue { source: Register },
    LoadFromKeyPress { destination: Register },
    LoadFromMemory { last_register: Register },
    LoadFromRegister { destination: Register, source: Register },
    LoadFromValue { destination: Register, value: u8 },
    LoadIntoMemory { last_register: Register },
    LoadSpriteLocation { sprite_digit: Register },
    Or { register1: Register, register2: Register },
    Return,
    SetRandom { register: Register, and_value: u8 },
    ShiftLeft { register: Register },
    ShiftRight { register: Register },
    SkipIfEqual { register: Register, value: u8 },
    SkipIfKeyNotPressed { register: Register },
    SkipIfKeyPressed { register: Register },
    SkipIfNotEqual { register: Register, value: u8 },
    SkipIfRegistersEqual { register1: Register, register2: Register },
    SkipIfRegistersNotEqual { register1: Register, register2: Register },
    Subtract { minuend: Register, subtrahend: Register, stored_in: Register },
    Unknown { bytes: u16 },
    Xor { register1: Register, register2: Register },
}

/// A general-register operand names one of the sixteen registers.
pub open spec fn register_wf(register: Register) -> bool {
    register matches Register::General(x) ==> x < 16
}

/// The operand ranges that every decoded instruction satisfies: register
/// numbers below 16, addresses within the 12-bit address space, and sprite
/// heights below 16.
pub open spec fn instruction_wf(instruction: Instruction) -> bool {
    match instruction {
        Instruction::AddFromRegister { register1, register2 } => register_wf(register1)
            && register_wf(register2),
        Instruction::AddFromValue { register, value } => register_wf(register),
        Instruction::And { register1, register2 } => register_wf(register1) && register_wf(
            register2,
        ),
        Instruction::Call { address } => address <= 0xfff,
        Instruction::ClearDisplay => true,
        Instruction::DrawSprite { x_register, y_register, height } => register_wf(x_register)
            && register_wf(y_register) && height < 16,
        Instruction::JumpToAddress { address, add_register_0 } => address <= 0xfff,
        Instruction::JumpToMachineCode { address } => address <= 0xfff,
        Instruction::LoadAddressIntoIRegister { address } => address <= 0xfff,
        Instruction::LoadBcdValue { source } => register_wf(source),
        Instruction::LoadFromKeyPress { destination } => register_wf(destination),
        Instruction::LoadFromMemory { last_register } => register_wf(last_register),
        Instruction::LoadFromRegister { destination, source } => register_wf(destination)
            && register_wf(source),
        Instruction::LoadFromValue { destination, value } => register_wf(destination),
        Instruction::LoadIntoMemory { last_register } => register_wf(last_register),
        Instruction::LoadSpriteLocation { sprite_digit } => register_wf(sprite_digit),
        Instruction::Or { register1, register2 } => register_wf(register1) && register_wf(
            register2,
        ),
        Instruction::Return => true,
        Instruction::SetRandom { register, and_value } => register_wf(register),
        Instruction::ShiftLeft { register } => register_wf(register),
        Instruction::ShiftRight { register } => register_wf(register),
        Instruction::SkipIfEqual { register, value } => register_wf(register),
        Instruction::SkipIfKeyNotPressed { register } => register_wf(register),
        Instruction::SkipIfKeyPressed { register } => register_wf(register),
        Instruction::SkipIfNotEqual { register, value } => register_wf(register),
        Instruction::SkipIfRegistersEqual { register1, register2 } => register_wf(register1)
            && register_wf(register2),
        Instruction::SkipIfRegistersNotEqual { register1, register2 } => register_wf(register1)
            && register_wf(register2),
        Instruction::Subtract { minuend, subtrahend, stored_in } => register_wf(minuend)
            && register_wf(subtrahend) && register_wf(stored_in),
        Instruction::Unknown { bytes } => true,
        Instruction::Xor { register1, register2 } => register_wf(register1) && register_wf(
            register2,
        ),
    }
}

} // verus!
