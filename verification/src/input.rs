//! Key-level input events: the driver reports presses and releases of the
//! sixteen hex keys, and the machine state latches them for the executor.
use vstd::prelude::*;

use crate::hardware::Hardware;

verus! {

/// A key went down: it becomes the single currently held key.
pub fn handle_key_pressed(hardware: &mut Hardware, key: u8)
    requires
        key <= 0xf,
    ensures
        *final(hardware) == (Hardware { current_key_down: Some(key), ..(*old(hardware)) }),
{
    hardware.current_key_down = Some(key);
}

/// A key came up: if it was the currently held key, the hold ends and the
/// release is latched for the next `LoadFromKeyPress`; otherwise nothing
/// changes.
pub fn handle_key_released(hardware: &mut Hardware, key: u8)
    requires
        key <= 0xf,
    ensures
        *final(hardware) == if old(hardware).current_key_down == Some(key) {
            (Hardware {
                current_key_down: None,
                key_released_since_last_instruction: Some(key),
                ..(*old(hardware))
            })
        } else {
            *old(hardware)
        },
{
    let held = match hardware.current_key_down {
        Some(down) => down == key,
        None => false,
    };
    if held {
        hardware.current_key_down = None;
        hardware.key_released_since_last_instruction = Some(key);
    }
}

} // verus!
