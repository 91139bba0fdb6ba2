use r8::serializer::SerializationError;
use r8::{get_instruction, serialize_instruction, Instruction, Register};

/// Every word that decodes to a known instruction through its canonical
/// encoding serializes back to the same two bytes, and `Unknown` always
/// round-trips exactly.
#[test]
fn serialize_inverts_decode_for_every_word() {
    for word in 0..=0xffff_u32 {
        let byte1 = (word >> 8) as u8;
        let byte2 = word as u8;
        let value1 = byte1 >> 4;
        let value2 = byte1 & 0x0f;
        let value3 = byte2 >> 4;
        let value4 = byte2 & 0x0f;
        let canonical = !(value1 == 0x8 && (value4 == 0x6 || value4 == 0xe) && value3 != 0)
            && !(value1 == 0x8 && value4 == 0x7 && value2 == value3);

        let instruction = get_instruction(byte1, byte2);
        let unknown = matches!(instruction, Instruction::Unknown { .. });
        if unknown || canonical {
            let (out1, out2) = serialize_instruction(instruction).unwrap();
            assert_eq!(
                (out1, out2),
                (byte1, byte2),
                "round trip failed for word {:04x}",
                word
            );
        }
    }
}

#[test]
fn shift_with_nonzero_middle_nibble_reencodes_canonically() {
    let instruction = get_instruction(0x83, 0x56);
    assert_eq!(instruction, Instruction::ShiftRight { register: Register::General(3) });
    assert_eq!(serialize_instruction(instruction).unwrap(), (0x83, 0x06));
}

#[test]
fn reverse_subtract_on_same_register_reencodes_as_subtract() {
    let instruction = get_instruction(0x84, 0x47);
    let (byte1, byte2) = serialize_instruction(instruction).unwrap();
    assert_eq!((byte1, byte2), (0x84, 0x45));
}

#[test]
fn skip_if_registers_equal_with_nonzero_low_nibble_is_unknown() {
    let instruction = get_instruction(0x5a, 0xb3);
    assert_eq!(instruction, Instruction::Unknown { bytes: 0x5ab3 });
    assert_eq!(serialize_instruction(instruction).unwrap(), (0x5a, 0xb3));
}

#[test]
fn special_register_combination_is_unserializable() {
    let instruction = Instruction::LoadFromRegister {
        destination: Register::DelayTimer,
        source: Register::SoundTimer,
    };
    match serialize_instruction(instruction).unwrap_err() {
        SerializationError::UnserializableInstruction { instruction: _ } => (),
        other => panic!("expected UnserializableInstruction, instead got {:?}", other),
    }
}

#[test]
fn subtraction_stored_outside_its_operands_is_rejected() {
    let instruction = Instruction::Subtract {
        minuend: Register::General(1),
        subtrahend: Register::General(2),
        stored_in: Register::General(3),
    };
    match serialize_instruction(instruction).unwrap_err() {
        SerializationError::InvalidSubtractionStoredIn { instruction: _ } => (),
        other => panic!("expected InvalidSubtractionStoredIn, instead got {:?}", other),
    }
}
