//! The configuration the front end hands to the driver: which ROM to run
//! and at which instruction and frame rates.
use vstd::prelude::*;

verus! {

pub struct Settings {
    pub rom_file: String,
    pub start_paused: bool,
    pub instructions_per_second: u16,
    pub frames_per_second: u8,
}

impl Settings {
    /// The driver's defaults: run immediately at 300 instructions and 60
    /// frames per second.
    pub fn with_rom_file(rom_file: String) -> (settings: Settings)
        ensures
            settings.rom_file == rom_file,
            settings.start_paused == false,
            settings.instructions_per_second == 300,
            settings.frames_per_second == 60,
    {
        Settings { rom_file, start_paused: false, instructions_per_second: 300, frames_per_second: 60 }
    }
}

} // verus!
