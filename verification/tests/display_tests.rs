use r8::{Instruction, Register};

#[test]
fn registers_print_their_assembly_names() {
    assert_eq!(Register::General(0xa).to_text(), "Va");
    assert_eq!(Register::General(3).to_text(), "V3");
    assert_eq!(Register::I.to_text(), "I");
    assert_eq!(Register::SoundTimer.to_text(), "ST");
    assert_eq!(Register::DelayTimer.to_text(), "DT");
}

#[test]
fn instructions_print_their_mnemonics() {
    let add = Instruction::AddFromValue { register: Register::General(3), value: 0x1c };
    assert_eq!(add.to_text(), "ADD V3, 1c");

    let call = Instruction::Call { address: 0x654 };
    assert_eq!(call.to_text(), "CALL 654");

    let jump = Instruction::JumpToAddress { address: 0x3e8, add_register_0: true };
    assert_eq!(jump.to_text(), "JP v0, 3e8");

    let draw = Instruction::DrawSprite {
        x_register: Register::General(4),
        y_register: Register::General(3),
        height: 3,
    };
    assert_eq!(draw.to_text(), "DRW V4, V3, 3");

    let unknown = Instruction::Unknown { bytes: 0x12 };
    assert_eq!(unknown.to_text(), "UNK 0x0012");

    let reverse = Instruction::Subtract {
        minuend: Register::General(2),
        subtrahend: Register::General(3),
        stored_in: Register::General(3),
    };
    assert_eq!(reverse.to_text(), "SUBN V2, V3");

    let load = Instruction::LoadFromMemory { last_register: Register::General(6) };
    assert_eq!(load.to_text(), "LD V6, [I]");
}
