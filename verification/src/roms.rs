//! ROM loading: a ROM is a raw byte blob copied into memory at the first
//! program address; the rest of the program space is zeroed.
use vstd::prelude::*;

use crate::hardware::{Hardware, MEMORY_SIZE, PROGRAM_START_ADDRESS};

verus! {

/// Copy a ROM image into program memory. Bytes beyond the image, up to
/// the end of memory, are zeroed; the interpreter region below `0x200`
/// is untouched.
pub fn load_rom(hardware: &mut Hardware, rom: &[u8])
    requires
        old(hardware).wf(),
        rom@.len() <= MEMORY_SIZE - 512,
    ensures
        final(hardware).wf(),
        forall|a: int| 0 <= a < 512 ==> final(hardware).memory@[a] == old(hardware).memory@[a],
        forall|a: int|
            512 <= a < 512 + rom@.len() ==> final(hardware).memory@[a] == rom@[a - 512],
        forall|a: int| 512 + rom@.len() <= a < MEMORY_SIZE ==> final(hardware).memory@[a] == 0,
        *final(hardware) == (Hardware { memory: final(hardware).memory, ..(*old(hardware)) }),
{
    let mut address: usize = PROGRAM_START_ADDRESS as usize;
    while address < MEMORY_SIZE
        invariant
            512 <= address <= MEMORY_SIZE,
            hardware.wf(),
            forall|a: int| 0 <= a < 512 ==> hardware.memory@[a] == old(hardware).memory@[a],
            forall|a: int| 512 <= a < address ==> hardware.memory@[a] == 0,
            *hardware == (Hardware { memory: hardware.memory, ..(*old(hardware)) }),
        decreases MEMORY_SIZE - address,
    {
        hardware.memory[address] = 0;
        address = address + 1;
    }

    let mut index: usize = 0;
    while index < rom.len()
        invariant
            index <= rom@.len(),
            rom@.len() <= MEMORY_SIZE - 512,
            hardware.wf(),
            forall|a: int| 0 <= a < 512 ==> hardware.memory@[a] == old(hardware).memory@[a],
            forall|a: int| 512 <= a < 512 + index ==> hardware.memory@[a] == rom@[a - 512],
            forall|a: int| 512 + index <= a < MEMORY_SIZE ==> hardware.memory@[a] == 0,
            *hardware == (Hardware { memory: hardware.memory, ..(*old(hardware)) }),
        decreases rom@.len() - index,
    {
        hardware.memory[512 + index] = rom[index];
        index = index + 1;
    }
}

} // verus!
