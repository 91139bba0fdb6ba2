//! Assembly text for instructions and registers, used by the disassembly
//! view and by fault reports. Verus has no `core::fmt`, so the text is
//! built directly and specified against its intended character sequence.
use vstd::prelude::*;

use crate::{Instruction, Register};

verus! {

/// The lowercase hex character of a value below sixteen.
pub open spec fn hex_char(digit: int) -> char {
    if digit == 0 {
        '0'
    } else if digit == 1 {
        '1'
    } else if digit == 2 {
        '2'
    } else if digit == 3 {
        '3'
    } else if digit == 4 {
        '4'
    } else if digit == 5 {
        '5'
    } else if digit == 6 {
        '6'
    } else if digit == 7 {
        '7'
    } else if digit == 8 {
        '8'
    } else if digit == 9 {
        '9'
    } else if digit == 10 {
        'a'
    } else if digit == 11 {
        'b'
    } else if digit == 12 {
        'c'
    } else if digit == 13 {
        'd'
    } else if digit == 14 {
        'e'
    } else {
        'f'
    }
}

/// A value's lowercase hex digits, most significant first, with no
/// leading zeros.
pub open spec fn spec_hex(value: nat) -> Seq<char>
    decreases value,
{
    if value < 16 {
        seq![hex_char(value as int)]
    } else {
        spec_hex(value / 16) + seq![hex_char((value % 16) as int)]
    }
}

/// Hex digits as `spec_hex`, left-padded with zeros up to `width`
/// characters.
pub open spec fn spec_hex_padded(value: nat, width: nat) -> Seq<char> {
    if spec_hex(value).len() >= width {
        spec_hex(value)
    } else {
        Seq::new((width - spec_hex(value).len()) as nat, |i: int| '0') + spec_hex(value)
    }
}

/// A register's assembly name: `V` and a hex digit for a general
/// register, `I`, `ST` or `DT` for the special ones.
pub open spec fn spec_register_text(register: Register) -> Seq<char> {
    match register {
        Register::General(number) => "V"@ + spec_hex(number as nat),
        Register::I => "I"@,
        Register::SoundTimer => "ST"@,
        Register::DelayTimer => "DT"@,
    }
}

/// An instruction's assembly text: the mnemonic and its operands, hex
/// values unpadded but for `Unknown`'s four-digit word.
pub open spec fn spec_instruction_text(instruction: Instruction) -> Seq<char> {
    match instruction {
        Instruction::AddFromRegister { register1, register2 } => "ADD "@ + spec_register_text(
            register1,
        ) + ", "@ + spec_register_text(register2),
        Instruction::AddFromValue { register, value } => "ADD "@ + spec_register_text(register)
            + ", "@ + spec_hex(value as nat),
        Instruction::And { register1, register2 } => "AND "@ + spec_register_text(register1)
            + ", "@ + spec_register_text(register2),
        Instruction::Call { address } => "CALL "@ + spec_hex(address as nat),
        Instruction::ClearDisplay => "CLS"@,
        Instruction::DrawSprite { x_register, y_register, height } => "DRW "@
            + spec_register_text(x_register) + ", "@ + spec_register_text(y_register) + ", "@
            + spec_hex(height as nat),
        Instruction::JumpToAddress { address, add_register_0 } => if add_register_0 {
            "JP v0, "@ + spec_hex(address as nat)
        } else {
            "JP "@ + spec_hex(address as nat)
        },
        Instruction::JumpToMachineCode { address } => "SYS "@ + spec_hex(address as nat),
        Instruction::LoadAddressIntoIRegister { address } => "LD I, "@ + spec_hex(
            address as nat,
        ),
        Instruction::LoadBcdValue { source } => "LD B, "@ + spec_register_text(source),
        Instruction::LoadFromKeyPress { destination } => "LD "@ + spec_register_text(destination)
            + ", K"@,
        Instruction::LoadFromMemory { last_register } => "LD "@ + spec_register_text(
            last_register,
        ) + ", [I]"@,
        Instruction::LoadFromRegister { destination, source } => "LD "@ + spec_register_text(
            destination,
        ) + ", "@ + spec_register_text(source),
        Instruction::LoadFromValue { destination, value } => "LD "@ + spec_register_text(
            destination,
        ) + ", "@ + spec_hex(value as nat),
        Instruction::LoadIntoMemory { last_register } => "LD [I], "@ + spec_register_text(
            last_register,
        ),
        Instruction::LoadSpriteLocation { sprite_digit } => "LD F, "@ + spec_register_text(
            sprite_digit,
        ),
        Instruction::Or { register1, register2 } => "OR "@ + spec_register_text(register1)
            + ", "@ + spec_register_text(register2),
        Instruction::Return => "RET"@,
        Instruction::SetRandom { register, and_value } => "RND "@ + spec_register_text(register)
            + ", "@ + spec_hex(and_value as nat),
        Instruction::ShiftLeft { register } => "SHL "@ + spec_register_text(register),
        Instruction::ShiftRight { register } => "SHR "@ + spec_register_text(register),
        Instruction::SkipIfEqual { register, value } => "SE "@ + spec_register_text(register)
            + ", "@ + spec_hex(value as nat),
        Instruction::SkipIfKeyNotPressed { register } => "SKNP "@ + spec_register_text(register),
        Instruction::SkipIfKeyPressed { register } => "SKP "@ + spec_register_text(register),
        Instruction::SkipIfNotEqual { register, value } => "SNE "@ + spec_register_text(register)
            + ", "@ + spec_hex(value as nat),
        Instruction::SkipIfRegistersEqual { register1, register2 } => "SE "@
            + spec_register_text(register1) + ", "@ + spec_register_text(register2),
        Instruction::SkipIfRegistersNotEqual { register1, register2 } => "SNE "@
            + spec_register_text(register1) + ", "@ + spec_register_text(register2),
        Instruction::Subtract { minuend, subtrahend, stored_in } => if stored_in == minuend {
            "SUB "@ + spec_register_text(minuend) + ", "@ + spec_register_text(subtrahend)
        } else {
            "SUBN "@ + spec_register_text(minuend) + ", "@ + spec_register_text(subtrahend)
        },
        Instruction::Unknown { bytes } => "UNK 0x"@ + spec_hex_padded(bytes as nat, 4),
        Instruction::Xor { register1, register2 } => "XOR "@ + spec_register_text(register1)
            + ", "@ + spec_register_text(register2),
    }
}

/// The one-character string of a hex digit.
fn hex_str_of(digit: u8) -> (text: &'static str)
    requires
        digit < 16,
    ensures
        text@ == seq![hex_char(digit as int)],
{
    if digit == 0 {
        proof {
            reveal_strlit("0");
        }
        "0"
    } else if digit == 1 {
        proof {
            reveal_strlit("1");
        }
        "1"
    } else if digit == 2 {
        proof {
            reveal_strlit("2");
        }
        "2"
    } else if digit == 3 {
        proof {
            reveal_strlit("3");
        }
        "3"
    } else if digit == 4 {
        proof {
            reveal_strlit("4");
        }
        "4"
    } else if digit == 5 {
        proof {
            reveal_strlit("5");
        }
        "5"
    } else if digit == 6 {
        proof {
            reveal_strlit("6");
        }
        "6"
    } else if digit == 7 {
        proof {
            reveal_strlit("7");
        }
        "7"
    } else if digit == 8 {
        proof {
            reveal_strlit("8");
        }
        "8"
    } else if digit == 9 {
        proof {
            reveal_strlit("9");
        }
        "9"
    } else if digit == 10 {
        proof {
            reveal_strlit("a");
        }
        "a"
    } else if digit == 11 {
        proof {
            reveal_strlit("b");
        }
        "b"
    } else if digit == 12 {
        proof {
            reveal_strlit("c");
        }
        "c"
    } else if digit == 13 {
        proof {
            reveal_strlit("d");
        }
        "d"
    } else if digit == 14 {
        proof {
            reveal_strlit("e");
        }
        "e"
    } else {
        proof {
            reveal_strlit("f");
        }
        "f"
    }
}

/// A value's lowercase hex text without leading zeros.
pub fn hex_text(value: u16) -> (text: String)
    ensures
        text@ == spec_hex(value as nat),
    decreases value,
{
    if value < 16 {
        String::from_str(hex_str_of(value as u8))
    } else {
        let mut text = hex_text(value / 16);
        text.append(hex_str_of((value % 16) as u8));
        proof {
            assert(text@ =~= spec_hex(value as nat));
        }
        text
    }
}

/// A value's hex text, left-padded with zeros to at least `width`
/// characters.
pub fn hex_text_padded(value: u16, width: usize) -> (text: String)
    ensures
        text@ == spec_hex_padded(value as nat, width as nat),
{
    let digits = hex_text(value);
    let digit_count = digits.as_str().unicode_len();
    if digit_count >= width {
        digits
    } else {
        let mut text = String::new();
        let mut zeros: usize = 0;
        while zeros < width - digit_count
            invariant
                zeros <= width - digit_count,
                digit_count < width,
                text@ =~= Seq::new(zeros as nat, |i: int| '0'),
            decreases width - digit_count - zeros,
        {
            proof {
                reveal_strlit("0");
            }
            text.append("0");
            proof {
                assert(text@ =~= Seq::new((zeros + 1) as nat, |i: int| '0'));
            }
            zeros = zeros + 1;
        }
        text.append(digits.as_str());
        proof {
            assert(text@ =~= spec_hex_padded(value as nat, width as nat));
        }
        text
    }
}

/// A mnemonic followed by one register operand.
fn text_register_only(prefix: &str, register: Register) -> (text: String)
    ensures
        text@ == prefix@ + spec_register_text(register),
{
    let mut text = String::from_str(prefix);
    let operand = register.to_text();
    text.append(operand.as_str());
    text
}

/// A mnemonic followed by two register operands.
fn text_register_pair(prefix: &str, register1: Register, register2: Register) -> (text: String)
    ensures
        text@ == prefix@ + spec_register_text(register1) + ", "@ + spec_register_text(register2),
{
    let mut text = String::from_str(prefix);
    let first = register1.to_text();
    text.append(first.as_str());
    text.append(", ");
    let second = register2.to_text();
    text.append(second.as_str());
    text
}

/// A mnemonic followed by a register operand and a hex value.
fn text_register_value(prefix: &str, register: Register, value: u16) -> (text: String)
    ensures
        text@ == prefix@ + spec_register_text(register) + ", "@ + spec_hex(value as nat),
{
    let mut text = String::from_str(prefix);
    let operand = register.to_text();
    text.append(operand.as_str());
    text.append(", ");
    let digits = hex_text(value);
    text.append(digits.as_str());
    text
}

/// A mnemonic followed by a hex address.
fn text_address(prefix: &str, address: u16) -> (text: String)
    ensures
        text@ == prefix@ + spec_hex(address as nat),
{
    let mut text = String::from_str(prefix);
    let digits = hex_text(address);
    text.append(digits.as_str());
    text
}

impl Instruction {
    /// The instruction's assembly text.
    pub fn to_text(&self) -> (text: String)
        ensures
            text@ == spec_instruction_text(*self),
    {
        match *self {
            Instruction::AddFromRegister { register1, register2 } => text_register_pair(
                "ADD ",
                register1,
                register2,
            ),
            Instruction::AddFromValue { register, value } => text_register_value(
                "ADD ",
                register,
                value as u16,
            ),
            Instruction::And { register1, register2 } => text_register_pair(
                "AND ",
                register1,
                register2,
            ),
            Instruction::Call { address } => text_address("CALL ", address),
            Instruction::ClearDisplay => String::from_str("CLS"),
            Instruction::DrawSprite { x_register, y_register, height } => {
                let mut text = text_register_pair("DRW ", x_register, y_register);
                text.append(", ");
                let digits = hex_text(height as u16);
                text.append(digits.as_str());
                text
            },
            Instruction::JumpToAddress { address, add_register_0 } => {
                if add_register_0 {
                    text_address("JP v0, ", address)
                } else {
                    text_address("JP ", address)
                }
            },
            Instruction::JumpToMachineCode { address } => text_address("SYS ", address),
            Instruction::LoadAddressIntoIRegister { address } => text_address("LD I, ", address),
            Instruction::LoadBcdValue { source } => text_register_only("LD B, ", source),
            Instruction::LoadFromKeyPress { destination } => {
                let mut text = text_register_only("LD ", destination);
                text.append(", K");
                text
            },
            Instruction::LoadFromMemory { last_register } => {
                let mut text = text_register_only("LD ", last_register);
                text.append(", [I]");
                text
            },
            Instruction::LoadFromRegister { destination, source } => text_register_pair(
                "LD ",
                destination,
                source,
            ),
            Instruction::LoadFromValue { destination, value } => text_register_value(
                "LD ",
                destination,
                value as u16,
            ),
            Instruction::LoadIntoMemory { last_register } => text_register_only(
                "LD [I], ",
                last_register,
            ),
            Instruction::LoadSpriteLocation { sprite_digit } => text_register_only(
                "LD F, ",
                sprite_digit,
            ),
            Instruction::Or { register1, register2 } => text_register_pair(
                "OR ",
                register1,
                register2,
            ),
            Instruction::Return => String::from_str("RET"),
            Instruction::SetRandom { register, and_value } => text_register_value(
                "RND ",
                register,
                and_value as u16,
            ),
            Instruction::ShiftLeft { register } => text_register_only("SHL ", register),
            Instruction::ShiftRight { register } => text_register_only("SHR ", register),
            Instruction::SkipIfEqual { register, value } => text_register_value(
                "SE ",
                register,
                value as u16,
            ),
            Instruction::SkipIfKeyNotPressed { register } => text_register_only(
                "SKNP ",
                register,
            ),
            Instruction::SkipIfKeyPressed { register } => text_register_only("SKP ", register),
            Instruction::SkipIfNotEqual { register, value } => text_register_value(
                "SNE ",
                register,
                value as u16,
            ),
            Instruction::SkipIfRegistersEqual { register1, register2 } => text_register_pair(
                "SE ",
                register1,
                register2,
            ),
            Instruction::SkipIfRegistersNotEqual { register1, register2 } => text_register_pair(
                "SNE ",
                register1,
                register2,
            ),
            Instruction::Subtract { minuend, subtrahend, stored_in } => {
                if stored_in == minuend {
                    text_register_pair("SUB ", minuend, subtrahend)
                } else {
                    text_register_pair("SUBN ", minuend, subtrahend)
                }
            },
            Instruction::Unknown { bytes } => {
                let mut text = String::from_str("UNK 0x");
                let digits = hex_text_padded(bytes, 4);
                text.append(digits.as_str());
                text
            },
            Instruction::Xor { register1, register2 } => text_register_pair(
                "XOR ",
                register1,
                register2,
            ),
        }
    }
}

impl Register {
    /// The register's assembly name.
    pub fn to_text(&self) -> (text: String)
        ensures
            text@ == spec_register_text(*self),
    {
        match *self {
            Register::General(number) => {
                let mut text = String::from_str("V");
                let digits = hex_text(number as u16);
                text.append(digits.as_str());
                proof {
                    assert(text@ =~= spec_register_text(*self));
                }
                text
            },
            Register::I => String::from_str("I"),
            Register::SoundTimer => String::from_str("ST"),
            Register::DelayTimer => String::from_str("DT"),
        }
    }
}

} // verus!
