use r8::Hardware;

#[test]
fn sprite_font_0_loaded_at_hardware_creation() {
    let hardware = Hardware::new();        
    let start_address = hardware.font_addresses[0x0] as usize;
    assert_eq!(hardware.memory[start_address + 0], 0xf0, "Incorrect byte 1 value");
    assert_eq!(hardware.memory[start_address + 1], 0x90, "Incorrect byte 2 value");
    assert_eq!(hardware.memory[start_address + 2], 0x90, "Incorrect byte 3 value");
    assert_eq!(hardware.memory[start_address + 3], 0x90, "Incorrect byte 4 value");
    assert_eq!(hardware.memory[start_address + 4], 0xf0, "Incorrect byte 5 value");
}

#[test]
fn sprite_font_1_loaded_at_hardware_creation() {
    let hardware = Hardware::new();
    let start_address = hardware.font_addresses[0x1] as usize;
    assert_eq!(hardware.memory[start_address + 0], 0x20, "Incorrect byte 1 value");
    assert_eq!(hardware.memory[start_address + 1], 0x60, "Incorrect byte 2 value");
    assert_eq!(hardware.memory[start_address + 2], 0x20, "Incorrect byte 3 value");
    assert_eq!(hardware.memory[start_address + 3], 0x20, "Incorrect byte 4 value");
    assert_eq!(hardware.memory[start_address + 4], 0x70, "Incorrect byte 5 value");
}

#[test]
fn sprite_font_2_loaded_at_hardware_creation() {
    let hardware = Hardware::new();
    let start_address = hardware.font_addresses[0x2] as usize;
    assert_eq!(hardware.memory[start_address + 0], 0xf0, "Incorrect byte 1 value");
    assert_eq!(hardware.memory[start_address + 1], 0x10, "Incorrect byte 2 value");
    assert_eq!(hardware.memory[start_address + 2], 0xf0, "Incorrect byte 3 value");
    assert_eq!(hardware.memory[start_address + 3], 0x80, "Incorrect byte 4 value");
    assert_eq!(hardware.memory[start_address + 4], 0xf0, "Incorrect byte 5 value");
}

#[test]
fn sprite_font_3_loaded_at_hardware_creation() {
    let hardware = Hardware::new();
    let start_address = hardware.font_addresses[0x3] as usize;
    assert_eq!(hardware.memory[start_address + 0], 0xf0, "Incorrect byte 1 value");
    assert_eq!(hardware.memory[start_address + 1], 0x10, "Incorrect byte 2 value");
    assert_eq!(hardware.memory[start_address + 2], 0xf0, "Incorrect byte 3 value");
    assert_eq!(hardware.memory[start_address + 3], 0x10, "Incorrect byte 4 value");
    assert_eq!(hardware.memory[start_address + 4], 0xf0, "Incorrect byte 5 value");
}

#[test]
fn sprite_font_4_loaded_at_hardware_creation() {
    let hardware = Hardware::new();
    let start_address = hardware.font_addresses[0x4] as usize;
    assert_eq!(hardware.memory[start_address + 0], 0x90, "Incorrect byte 1 value");
    assert_eq!(hardware.memory[start_address + 1], 0x90, "Incorrect byte 2 value");
    assert_eq!(hardware.memory[start_address + 2], 0xf0, "Incorrect byte 3 value");
    assert_eq!(hardware.memory[start_address + 3], 0x10, "Incorrect byte 4 value");
    assert_eq!(hardware.memory[start_address + 4], 0x10, "Incorrect byte 5 value");
}

#[test]
fn sprite_font_5_loaded_at_hardware_creation() {
    let hardware = Hardware::new();
    let start_address = hardware.font_addresses[0x5] as usize;
    assert_eq!(hardware.memory[start_address + 0], 0xf0, "Incorrect byte 1 value");
    assert_eq!(hardware.memory[start_address + 1], 0x80, "Incorrect byte 2 value");
    assert_eq!(hardware.memory[start_address + 2], 0xf0, "Incorrect byte 3 value");
    assert_eq!(hardware.memory[start_address + 3], 0x10, "Incorrect byte 4 value");
    assert_eq!(hardware.memory[start_address + 4], 0xf0, "Incorrect byte 5 value");
}

#[test]
fn sprite_font_6_loaded_at_hardware_creation() {
    let hardware = Hardware::new();
    let start_address = hardware.font_addresses[0x6] as usize;
    assert_eq!(hardware.memory[start_address + 0], 0xf0, "Incorrect byte 1 value");
    assert_eq!(hardware.memory[start_address + 1], 0x80, "Incorrect byte 2 value");
    assert_eq!(hardware.memory[start_address + 2], 0xf0, "Incorrect byte 3 value");
    assert_eq!(hardware.memory[start_address + 3], 0x90, "Incorrect byte 4 value");
    assert_eq!(hardware.memory[start_address + 4], 0xf0, "Incorrect byte 5 value");
}

#[test]
fn sprite_font_7_loaded_at_hardware_creation() {
    let hardware = Hardware::new();
    let start_address = hardware.font_addresses[0x7] as usize;
    assert_eq!(hardware.memory[start_address + 0], 0xf0, "Incorrect byte 1 value");
    assert_eq!(hardware.memory[start_address + 1], 0x10, "Incorrect byte 2 value");
    assert_eq!(hardware.memory[start_address + 2], 0x20, "Incorrect byte 3 value");
    assert_eq!(hardware.memory[start_address + 3], 0x40, "Incorrect byte 4 value");
    assert_eq!(hardware.memory[start_address + 4], 0x40, "Incorrect byte 5 value");
}

#[test]
fn sprite_font_8_loaded_at_hardware_creation() {
    let hardware = Hardware::new();
    let start_address = hardware.font_addresses[0x8] as usize;
    assert_eq!(hardware.memory[start_address + 0], 0xf0, "Incorrect byte 1 value");
    assert_eq!(hardware.memory[start_address + 1], 0x90, "Incorrect byte 2 value");
    assert_eq!(hardware.memory[start_address + 2], 0xf0, "Incorrect byte 3 value");
    assert_eq!(hardware.memory[start_address + 3], 0x90, "Incorrect byte 4 value");
    assert_eq!(hardware.memory[start_address + 4], 0xf0, "Incorrect byte 5 value");
}

#[test]
fn sprite_font_9_loaded_at_hardware_creation() {
    let hardware = Hardware::new();
    let start_address = hardware.font_addresses[0x9] as usize;
    assert_eq!(hardware.memory[start_address + 0], 0xf0, "Incorrect byte 1 value");
    assert_eq!(hardware.memory[start_address + 1], 0x90, "Incorrect byte 2 value");
    assert_eq!(hardware.memory[start_address + 2], 0xf0, "Incorrect byte 3 value");
    assert_eq!(hardware.memory[start_address + 3], 0x10, "Incorrect byte 4 value");
    assert_eq!(hardware.memory[start_address + 4], 0xf0, "Incorrect byte 5 value");
}

#[test]
fn sprite_font_a_loaded_at_hardware_creation() {
    let hardware = Hardware::new();
    let start_address = hardware.font_addresses[0xa] as usize;
    assert_eq!(hardware.memory[start_address + 0], 0xf0, "Incorrect byte 1 value");
    assert_eq!(hardware.memory[start_address + 1], 0x90, "Incorrect byte 2 value");
    assert_eq!(hardware.memory[start_address + 2], 0xf0, "Incorrect byte 3 value");
    assert_eq!(hardware.memory[start_address + 3], 0x90, "Incorrect byte 4 value");
    assert_eq!(hardware.memory[start_address + 4], 0x90, "Incorrect byte 5 value");
}

#[test]
fn sprite_font_b_loaded_at_hardware_creation() {
    let hardware = Hardware::new();
    let start_address = hardware.font_addresses[0xb] as usize;
    assert_eq!(hardware.memory[start_address + 0], 0xe0, "Incorrect byte 1 value");
    assert_eq!(hardware.memory[start_address + 1], 0x90, "Incorrect byte 2 value");
    assert_eq!(hardware.memory[start_address + 2], 0xe0, "Incorrect byte 3 value");
    assert_eq!(hardware.memory[start_address + 3], 0x90, "Incorrect byte 4 value");
    assert_eq!(hardware.memory[start_address + 4], 0xe0, "Incorrect byte 5 value");
}

#[test]
fn sprite_font_c_loaded_at_hardware_creation() {
    let hardware = Hardware::new();
    let start_address = hardware.font_addresses[0xc] as usize;
    assert_eq!(hardware.memory[start_address + 0], 0xf0, "Incorrect byte 1 value");
    assert_eq!(hardware.memory[start_address + 1], 0x80, "Incorrect byte 2 value");
    assert_eq!(hardware.memory[start_address + 2], 0x80, "Incorrect byte 3 value");
    assert_eq!(hardware.memory[start_address + 3], 0x80, "Incorrect byte 4 value");
    assert_eq!(hardware.memory[start_address + 4], 0xf0, "Incorrect byte 5 value");
}

#[test]
fn sprite_font_d_loaded_at_hardware_creation() {
    let hardware = Hardware::new();
    let start_address = hardware.font_addresses[0xd] as usize;
    assert_eq!(hardware.memory[start_address + 0], 0xe0, "Incorrect byte 1 value");
    assert_eq!(hardware.memory[start_address + 1], 0x90, "Incorrect byte 2 value");
    assert_eq!(hardware.memory[start_address + 2], 0x90, "Incorrect byte 3 value");
    assert_eq!(hardware.memory[start_address + 3], 0x90, "Incorrect byte 4 value");
    assert_eq!(hardware.memory[start_address + 4], 0xe0, "Incorrect byte 5 value");
}

#[test]
fn sprite_font_e_loaded_at_hardware_creation() {
    let hardware = Hardware::new();
    let start_address = hardware.font_addresses[0xe] as usize;
    assert_eq!(hardware.memory[start_address + 0], 0xf0, "Incorrect byte 1 value");
    assert_eq!(hardware.memory[start_address + 1], 0x80, "Incorrect byte 2 value");
    assert_eq!(hardware.memory[start_address + 2], 0xf0, "Incorrect byte 3 value");
    assert_eq!(hardware.memory[start_address + 3], 0x80, "Incorrect byte 4 value");
    assert_eq!(hardware.memory[start_address + 4], 0xf0, "Incorrect byte 5 value");
}

#[test]
fn sprite_font_f_loaded_at_hardware_creation() {
    let hardware = Hardware::new();
    let start_address = hardware.font_addresses[0xf] as usize;
    assert_eq!(hardware.memory[start_address + 0], 0xf0, "Incorrect byte 1 value");
    assert_eq!(hardware.memory[start_address + 1], 0x80, "Incorrect byte 2 value");
    assert_eq!(hardware.memory[start_address + 2], 0xf0, "Incorrect byte 3 value");
    assert_eq!(hardware.memory[start_address + 3], 0x80, "Incorrect byte 4 value");
    assert_eq!(hardware.memory[start_address + 4], 0x80, "Incorrect byte 5 value");
}
