//! The state the renderer keeps between frames, and the pure pieces of
//! rendering: which slice of the address space the assembly view shows,
//! and how a framebuffer bit maps to a pixel.
use vstd::prelude::*;

use crate::hardware::Hardware;

verus! {

/// How many instruction addresses the assembly view shows at once.
pub const ADDRESS_DISPLAY_COUNT: u16 = 22;

/// The minimum number of instructions kept visible below the current one.
pub const MIN_HIGH_ADDRESS_BUFFER: u16 = 3;

pub struct RenderState {
    pub lowest_visible_address: u16,
    pub highest_visible_address: u16,
}

/// The first address the assembly view shows for a given program counter:
/// jump to the program counter when it left the visible range or changed
/// parity, scroll down when it came too close to the bottom, and stay
/// put otherwise.
pub open spec fn spec_window_start(lowest: u16, highest: u16, program_counter: u16) -> int {
    if lowest % 2 != program_counter % 2 {
        program_counter as int
    } else if lowest > program_counter {
        program_counter as int
    } else if highest < program_counter {
        program_counter as int
    } else if highest - program_counter < MIN_HIGH_ADDRESS_BUFFER * 2 {
        lowest + ((highest - program_counter) / 2) * 2
    } else {
        lowest as int
    }
}

impl RenderState {
    /// A fresh view, anchored at the first program address.
    pub fn new() -> (state: Self)
        ensures
            state.lowest_visible_address == 512,
            state.highest_visible_address == 512 + ADDRESS_DISPLAY_COUNT,
    {
        RenderState {
            lowest_visible_address: 512,
            highest_visible_address: 512 + ADDRESS_DISPLAY_COUNT,
        }
    }

    /// Move the visible window for the current program counter and return
    /// its first address.
    pub fn track_program_counter(&mut self, program_counter: u16) -> (first_memory_address: u16)
        requires
            program_counter <= 0xfff,
            old(self).lowest_visible_address <= 0xfff,
        ensures
            first_memory_address == spec_window_start(
                old(self).lowest_visible_address,
                old(self).highest_visible_address,
                program_counter,
            ),
            final(self).lowest_visible_address == first_memory_address,
            final(self).highest_visible_address == first_memory_address + ADDRESS_DISPLAY_COUNT
                * 2,
    {
        let lowest = self.lowest_visible_address;
        let highest = self.highest_visible_address;
        let first_memory_address = if lowest % 2 != program_counter % 2 {
            program_counter
        } else if lowest > program_counter {
            program_counter
        } else if highest < program_counter {
            program_counter
        } else if highest - program_counter < MIN_HIGH_ADDRESS_BUFFER * 2 {
            lowest + ((highest - program_counter) / 2) * 2
        } else {
            lowest
        };
        self.lowest_visible_address = first_memory_address;
        self.highest_visible_address = first_memory_address + ADDRESS_DISPLAY_COUNT * 2;
        first_memory_address
    }
}

/// Whether the framebuffer pixel at a row and column is lit: bytes pack
/// eight pixels, the most significant bit leftmost.
pub fn pixel_is_on(hardware: &Hardware, row: usize, column: usize) -> (lit: bool)
    requires
        hardware.wf(),
        row < 32,
        column < 64,
    ensures
        lit == ((hardware.framebuffer@[row as int]@[column as int / 8] >> ((7 - column % 8)
            as u8)) & 1 == 1),
{
    let byte = hardware.framebuffer[row][column / 8];
    (byte >> ((7 - column % 8) as u8)) & 1 == 1
}

} // verus!
