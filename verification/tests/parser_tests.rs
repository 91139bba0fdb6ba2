use r8::{get_instruction, Instruction, Register};

#[test]
fn can_read_sys_instruction() {
    let expected = Instruction::JumpToMachineCode {address: 291};
    let result = get_instruction(0x01, 0x23);
    assert_eq!(result, expected);
}

#[test]
fn can_read_clear_screen_instruction() {
    let expected = Instruction::ClearDisplay;
    let result = get_instruction(0x00, 0xe0);
    assert_eq!(result, expected);
}

#[test]
fn can_read_return_instruction() {
    let expected = Instruction::Return;
    let result = get_instruction(0x00, 0xee);
    assert_eq!(result, expected);
}

#[test]
fn can_read_jump_to_address_instruction_without_addition() {
    let expected = Instruction::JumpToAddress {address: 291, add_register_0: false};
    let result = get_instruction(0x11, 0x23);
    assert_eq!(result, expected);
}

#[test]
fn can_read_call_instruction() {
    let expected = Instruction::Call {address: 291};
    let result = get_instruction(0x21, 0x23);
    assert_eq!(result, expected);
}

#[test]
fn can_read_skip_if_equal_to_value_instruction() {
    let expected = Instruction::SkipIfEqual {
        register: Register::General(0xa),
        value: 200
    };

    let result = get_instruction(0x3a, 0xc8);
    assert_eq!(result, expected);
}

#[test]
fn can_read_skip_if_not_equal_to_value_instruction() {
    let expected = Instruction::SkipIfNotEqual {
        register: Register::General(0xa),
        value: 200
    };

    let result = get_instruction(0x4a, 0xc8);
    assert_eq!(result, expected);
}

#[test]
fn can_read_skip_if_registers_equal_instruction() {
    let expected = Instruction::SkipIfRegistersEqual {
        register1: Register::General(0xa),
        register2: Register::General(0xb),
    };

    let result = get_instruction(0x5a, 0xb0);
    assert_eq!(result, expected);
}

#[test]
fn can_read_load_from_value_instruction() {
    let expected = Instruction::LoadFromValue {
        destination: Register::General(0xb),
        value: 0x3f,
    };

    let result = get_instruction(0x6b, 0x3f);
    assert_eq!(result, expected);
}

#[test]
fn can_read_add_from_value_instruction() {
    let expected = Instruction::AddFromValue {
        register: Register::General(0xb),
        value: 0xcd,
    };

    let result = get_instruction(0x7b, 0xcd);
    assert_eq!(result, expected);
}

#[test]
fn can_read_load_from_register_instruction() {
    let expected = Instruction::LoadFromRegister {
        source: Register::General(0xc),
        destination: Register::General(0xb)
    };

    let result = get_instruction(0x8b, 0xc0);
    assert_eq!(result, expected);
}

#[test]
fn can_read_or_instruction() {
    let expected = Instruction::Or {
        register1: Register::General(0xb),
        register2: Register::General(0xc),
    };

    let result = get_instruction(0x8b, 0xc1);
    assert_eq!(result, expected);
}

#[test]
fn can_read_and_instruction() {
    let expected = Instruction::And {
        register1: Register::General(0xb),
        register2: Register::General(0xc)
    };

    let result = get_instruction(0x8b, 0xc2);
    assert_eq!(result, expected);
}

#[test]
fn can_read_xor_instruction() {
    let expected = Instruction::Xor {
        register1: Register::General(0xb),
        register2: Register::General(0xc)
    };

    let result = get_instruction(0x8b, 0xc3);
    assert_eq!(result, expected);
}

#[test]
fn can_read_add_from_register_instruction() {
    let expected = Instruction::AddFromRegister {
        register1: Register::General(0xb),
        register2: Register::General(0xc),
    };

    let result = get_instruction(0x8b, 0xc4);
    assert_eq!(result, expected);
}

#[test]
fn can_read_subtract_register_y_from_x_instruction() {
    let expected = Instruction::Subtract {
        minuend: Register::General(0xb),
        subtrahend: Register::General(0xc),
        stored_in: Register::General(0xb)
    };

    let result = get_instruction(0x8b, 0xc5);
    assert_eq!(result, expected);
}

#[test]
fn can_read_subtract_register_x_from_y_instruction() {
    let expected = Instruction::Subtract {
        minuend: Register::General(0xc),
        subtrahend: Register::General(0xb),
        stored_in: Register::General(0xb)
    };

    let result = get_instruction(0x8b, 0xc7);
    assert_eq!(result, expected);
}

#[test]
fn can_read_shift_right_instruction() {
    let expected = Instruction::ShiftRight {
        register: Register::General(0xb),
    };

    let result = get_instruction(0x8b, 0x06);
    assert_eq!(result, expected);
}

#[test]
fn can_read_shift_left_instruction() {
    let expected = Instruction::ShiftLeft {
        register: Register::General(0xb),
    };

    let result = get_instruction(0x8b, 0x0e);
    assert_eq!(result, expected);
}

#[test]
fn can_read_skip_if_registers_not_equal_instruction() {
    let expected = Instruction::SkipIfRegistersNotEqual {
        register1: Register::General(0xb),
        register2: Register::General(0xc),
    };

    let result = get_instruction(0x9b, 0xc0);
    assert_eq!(result, expected);
}

#[test]
fn can_load_from_memory_to_i_register_instruction() {
    let expected = Instruction::LoadAddressIntoIRegister {
        address: 0x0123,
    };

    let result = get_instruction(0xa1, 0x23);
    assert_eq!(result, expected);
}

#[test]
fn can_read_jump_to_address_with_v0_instruction() {
    let expected = Instruction::JumpToAddress {
        address: 0x0123,
        add_register_0: true,
    };

    let result = get_instruction(0xB1, 0x23);
    assert_eq!(result, expected);
}

#[test]
fn can_read_set_random_byte_instruction() {
    let expected = Instruction::SetRandom {
        register: Register::General(0xb),
        and_value: 0x12
    };

    let result = get_instruction(0xCb, 0x12);
    assert_eq!(result, expected);
}

#[test]
fn can_read_draw_sprite_instruction() {
    let expected = Instruction::DrawSprite {
        x_register: Register::General(0xb),
        y_register: Register::General(0xc),
        height: 5,
    };

    let result = get_instruction(0xdb, 0xc5);
    assert_eq!(result, expected);
}

#[test]
fn can_read_skip_if_key_pressed_instruction() {
    let expected = Instruction::SkipIfKeyPressed {
        register: Register::General(0xb),
    };

    let result = get_instruction(0xeb, 0x9e);
    assert_eq!(result, expected);
}

#[test]
fn can_read_skip_if_key_not_pressed_instruction() {
    let expected = Instruction::SkipIfKeyNotPressed {
        register: Register::General(0xb),
    };

    let result = get_instruction(0xeb, 0xa1);
    assert_eq!(result, expected);
}

#[test]
fn can_read_load_register_from_delay_timer_instruction() {
    let expected = Instruction::LoadFromRegister {
        destination: Register::General(0xb),
        source: Register::DelayTimer,
    };

    let result = get_instruction(0xfb, 0x07);
    assert_eq!(result, expected);
}

#[test]
fn can_read_wait_for_key_press_instruction() {
    let expected = Instruction::LoadFromKeyPress {
        destination: Register::General(0xb)
    };

    let result = get_instruction(0xfb, 0x0a);
    assert_eq!(result, expected);
}

#[test]
fn can_read_load_delay_timer_from_register_instruction() {
    let expected = Instruction::LoadFromRegister {
        source: Register::General(0xb),
        destination: Register::DelayTimer,
    };

    let result = get_instruction(0xfb, 0x15);
    assert_eq!(result, expected);
}

#[test]
fn can_read_load_sound_timer_from_register_instruction() {
    let expected = Instruction::LoadFromRegister {
        source: Register::General(0xb),
        destination: Register::SoundTimer,
    };

    let result = get_instruction(0xfb, 0x18);
    assert_eq!(result, expected);
}

#[test]
fn can_read_add_to_i_register_instruction() {
    let expected = Instruction::AddFromRegister {
        register1: Register::I,
        register2: Register::General(0xb)
    };

    let result = get_instruction(0xfb, 0x1e);
    assert_eq!(result, expected);
}

#[test]
fn can_read_load_from_sprite_location_instruction() {
    let expected = Instruction::LoadSpriteLocation {
        sprite_digit: Register::General(0xb),
    };

    let result = get_instruction(0xfb, 0x29);
    assert_eq!(result, expected);
}

#[test]
fn can_read_load_bcd_value_instruction() {
    let expected = Instruction::LoadBcdValue {
        source: Register::General(0xb),
    };

    let result = get_instruction(0xfb, 0x33);
    assert_eq!(result, expected);
}

#[test]
fn can_read_load_into_memory_instruction() {
    let expected = Instruction::LoadIntoMemory {
        last_register: Register::General(0xb),
    };

    let result = get_instruction(0xfb, 0x55);
    assert_eq!(result, expected);
}

#[test]
fn can_read_load_from_memory_instruction() {
    let expected = Instruction::LoadFromMemory {
        last_register: Register::General(0xb),
    };

    let result = get_instruction(0xfb, 0x65);
    assert_eq!(result, expected);
}
