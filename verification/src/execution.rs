//! The executor: applies one decoded instruction to the machine state and
//! reports a typed fault where the instruction cannot run.
use vstd::prelude::*;

use crate::hardware::{
    zeroed_framebuffer, Hardware, FRAMEBUFFER_HEIGHT, FRAMEBUFFER_WIDTH, MEMORY_SIZE, STACK_SIZE,
};
use crate::parser::spec_decode;
use crate::{register_wf, Instruction, Register};
use vstd::arithmetic::div_mod::{lemma_fundamental_div_mod_converse, lemma_mod_equivalence};

verus! {

/// A fault raised by the executor. Faults are program errors: the driver
/// treats every one of them as terminal.
#[derive(Eq, PartialEq, Debug, Structural)]
pub enum ExecutionError {
    /// An operand's register kind does not fit the instruction it is used in.
    InvalidRegisterForInstruction { instruction: Instruction },
    /// `JumpToMachineCode` and `Unknown` cannot be executed.
    UnhandleableInstruction { instruction: Instruction },
    /// A call with all sixteen stack slots already occupied.
    StackOverflow,
    /// A call or jump to an odd or out-of-range address.
    InvalidCallOrJumpAddress { address: u16 },
    /// A return with no call outstanding.
    EmptyStack,
    /// A font lookup for a register value above `0xF`.
    InvalidFontDigit { digit: u8 },
}

// ---------------------------------------------------------------------------
// What each successfully executed instruction does to the machine state.
// Every predicate relates the full pre-state to the full post-state; the
// fields it does not name are pinned unchanged by its own clauses.
// ---------------------------------------------------------------------------

/// The instruction only wrote general registers and advanced the program
/// counter by two; every other component is untouched.
pub open spec fn register_write_post(pre: Hardware, post: Hardware, new_registers: Seq<u8>) -> bool {
    &&& post.gen_registers@ == new_registers
    &&& post.program_counter == pre.program_counter + 2
    &&& post.memory@ == pre.memory@
    &&& post.framebuffer@ == pre.framebuffer@
    &&& post.stack@ == pre.stack@
    &&& post.stack_pointer == pre.stack_pointer
    &&& post.i_register == pre.i_register
    &&& post.delay_timer == pre.delay_timer
    &&& post.sound_timer == pre.sound_timer
}

/// The instruction only wrote the I register and advanced the program
/// counter by two.
pub open spec fn i_write_post(pre: Hardware, post: Hardware, new_i: int) -> bool {
    &&& post.i_register == new_i
    &&& post.program_counter == pre.program_counter + 2
    &&& post.gen_registers@ == pre.gen_registers@
    &&& post.memory@ == pre.memory@
    &&& post.framebuffer@ == pre.framebuffer@
    &&& post.stack@ == pre.stack@
    &&& post.stack_pointer == pre.stack_pointer
    &&& post.delay_timer == pre.delay_timer
    &&& post.sound_timer == pre.sound_timer
}

/// A skip instruction: the program counter advances by four on a taken
/// skip and by two otherwise; nothing else changes.
pub open spec fn skip_post(pre: Hardware, post: Hardware, taken: bool) -> bool {
    &&& post.program_counter == pre.program_counter + (if taken { 4int } else { 2int })
    &&& post.gen_registers@ == pre.gen_registers@
    &&& post.memory@ == pre.memory@
    &&& post.framebuffer@ == pre.framebuffer@
    &&& post.stack@ == pre.stack@
    &&& post.stack_pointer == pre.stack_pointer
    &&& post.i_register == pre.i_register
    &&& post.delay_timer == pre.delay_timer
    &&& post.sound_timer == pre.sound_timer
}

/// `Vx <- (Vx + Vy) mod 256`, then `VF` records whether the true sum
/// exceeded 255. `VF` is written after the sum, so a sum stored in `VF`
/// is overwritten by the flag.
pub open spec fn add_registers_post(pre: Hardware, post: Hardware, x: u8, y: u8) -> bool {
    let sum = pre.gen_registers@[x as int] + pre.gen_registers@[y as int];
    register_write_post(
        pre,
        post,
        pre.gen_registers@.update(x as int, ((sum % 256) as u8)).update(
            15,
            if sum > 255 { 1u8 } else { 0u8 },
        ),
    )
}

/// `D <- (M - S) mod 256`, then `VF <- 1` exactly when a borrow occurred
/// (`M < S`). The flag write follows the difference write.
pub open spec fn subtract_post(pre: Hardware, post: Hardware, m: u8, s: u8, d: u8) -> bool {
    let minuend = pre.gen_registers@[m as int];
    let subtrahend = pre.gen_registers@[s as int];
    register_write_post(
        pre,
        post,
        pre.gen_registers@.update(d as int, (((minuend - subtrahend) % 256) as u8)).update(
            15,
            if minuend < subtrahend { 1u8 } else { 0u8 },
        ),
    )
}

/// A successful call: the address is even, a slot is free, the current
/// program counter is pushed, and execution continues at the call target.
pub open spec fn call_post(pre: Hardware, post: Hardware, address: u16) -> bool {
    &&& pre.stack_pointer < STACK_SIZE
    &&& address % 2 == 0
    &&& post.stack@ == pre.stack@.update(pre.stack_pointer as int, pre.program_counter)
    &&& post.stack_pointer == pre.stack_pointer + 1
    &&& post.program_counter == address
    &&& post.gen_registers@ == pre.gen_registers@
    &&& post.memory@ == pre.memory@
    &&& post.framebuffer@ == pre.framebuffer@
    &&& post.i_register == pre.i_register
    &&& post.delay_timer == pre.delay_timer
    &&& post.sound_timer == pre.sound_timer
}

/// A successful return: the topmost pushed address becomes the program
/// counter and the slot count drops by one. The vacated slot keeps its
/// old content.
pub open spec fn return_post(pre: Hardware, post: Hardware) -> bool {
    &&& pre.stack_pointer > 0
    &&& post.program_counter == pre.stack@[pre.stack_pointer - 1]
    &&& post.stack_pointer == pre.stack_pointer - 1
    &&& post.stack@ == pre.stack@
    &&& post.gen_registers@ == pre.gen_registers@
    &&& post.memory@ == pre.memory@
    &&& post.framebuffer@ == pre.framebuffer@
    &&& post.i_register == pre.i_register
    &&& post.delay_timer == pre.delay_timer
    &&& post.sound_timer == pre.sound_timer
}

/// A successful jump: the program counter is overwritten and nothing else
/// moves.
pub open spec fn jump_post(pre: Hardware, post: Hardware, target: int) -> bool {
    &&& post.program_counter == target
    &&& post.gen_registers@ == pre.gen_registers@
    &&& post.memory@ == pre.memory@
    &&& post.framebuffer@ == pre.framebuffer@
    &&& post.stack@ == pre.stack@
    &&& post.stack_pointer == pre.stack_pointer
    &&& post.i_register == pre.i_register
    &&& post.delay_timer == pre.delay_timer
    &&& post.sound_timer == pre.sound_timer
}

/// The delay timer takes a general register's value.
pub open spec fn load_into_delay_post(pre: Hardware, post: Hardware, source: u8) -> bool {
    &&& post.delay_timer == pre.gen_registers@[source as int]
    &&& post.sound_timer == pre.sound_timer
    &&& post.program_counter == pre.program_counter + 2
    &&& post.gen_registers@ == pre.gen_registers@
    &&& post.memory@ == pre.memory@
    &&& post.framebuffer@ == pre.framebuffer@
    &&& post.stack@ == pre.stack@
    &&& post.stack_pointer == pre.stack_pointer
    &&& post.i_register == pre.i_register
}

/// The sound timer takes a general register's value.
pub open spec fn load_into_sound_post(pre: Hardware, post: Hardware, source: u8) -> bool {
    &&& post.sound_timer == pre.gen_registers@[source as int]
    &&& post.delay_timer == pre.delay_timer
    &&& post.program_counter == pre.program_counter + 2
    &&& post.gen_registers@ == pre.gen_registers@
    &&& post.memory@ == pre.memory@
    &&& post.framebuffer@ == pre.framebuffer@
    &&& post.stack@ == pre.stack@
    &&& post.stack_pointer == pre.stack_pointer
    &&& post.i_register == pre.i_register
}

/// Every framebuffer byte is zero and the program counter advanced by two.
pub open spec fn clear_display_post(pre: Hardware, post: Hardware) -> bool {
    &&& post.framebuffer@.len() == FRAMEBUFFER_HEIGHT
    &&& forall|r: int|
        0 <= r < FRAMEBUFFER_HEIGHT ==> (#[trigger] post.framebuffer@[r])@.len()
            == FRAMEBUFFER_WIDTH / 8
    &&& forall|r: int, c: int|
        0 <= r < FRAMEBUFFER_HEIGHT && 0 <= c < FRAMEBUFFER_WIDTH / 8
            ==> post.framebuffer@[r]@[c] == 0
    &&& post.program_counter == pre.program_counter + 2
    &&& post.gen_registers@ == pre.gen_registers@
    &&& post.memory@ == pre.memory@
    &&& post.stack@ == pre.stack@
    &&& post.stack_pointer == pre.stack_pointer
    &&& post.i_register == pre.i_register
    &&& post.delay_timer == pre.delay_timer
    &&& post.sound_timer == pre.sound_timer
}

/// The three decimal digits of `Vx` land at `I`, `I + 1`, `I + 2`;
/// the I register itself does not move.
pub open spec fn load_bcd_post(pre: Hardware, post: Hardware, x: u8) -> bool {
    let value = pre.gen_registers@[x as int];
    let base = pre.i_register as int;
    &&& post.memory@ == pre.memory@.update(base, (((value / 100) % 10) as u8)).update(
        base + 1,
        (((value / 10) % 10) as u8),
    ).update(base + 2, ((value % 10) as u8))
    &&& post.program_counter == pre.program_counter + 2
    &&& post.gen_registers@ == pre.gen_registers@
    &&& post.framebuffer@ == pre.framebuffer@
    &&& post.stack@ == pre.stack@
    &&& post.stack_pointer == pre.stack_pointer
    &&& post.i_register == pre.i_register
    &&& post.delay_timer == pre.delay_timer
    &&& post.sound_timer == pre.sound_timer
}

/// `V0 ..= Vx` are written to memory starting at `I`, and `I` moves past
/// the written block.
pub open spec fn load_into_memory_post(pre: Hardware, post: Hardware, x: u8) -> bool {
    let base = pre.i_register as int;
    &&& post.memory@.len() == pre.memory@.len()
    &&& forall|a: int|
        0 <= a < pre.memory@.len() ==> #[trigger] post.memory@[a] == if base <= a < base + x + 1 {
            pre.gen_registers@[a - base]
        } else {
            pre.memory@[a]
        }
    &&& post.i_register == pre.i_register + x + 1
    &&& post.program_counter == pre.program_counter + 2
    &&& post.gen_registers@ == pre.gen_registers@
    &&& post.framebuffer@ == pre.framebuffer@
    &&& post.stack@ == pre.stack@
    &&& post.stack_pointer == pre.stack_pointer
    &&& post.delay_timer == pre.delay_timer
    &&& post.sound_timer == pre.sound_timer
}

/// `V0 ..= Vx` are read from memory starting at `I`, and `I` moves past
/// the read block.
pub open spec fn load_from_memory_post(pre: Hardware, post: Hardware, x: u8) -> bool {
    let base = pre.i_register as int;
    &&& post.gen_registers@.len() == 16
    &&& forall|j: int|
        0 <= j < 16 ==> #[trigger] post.gen_registers@[j] == if j <= x {
            pre.memory@[base + j]
        } else {
            pre.gen_registers@[j]
        }
    &&& post.i_register == pre.i_register + x + 1
    &&& post.program_counter == pre.program_counter + 2
    &&& post.memory@ == pre.memory@
    &&& post.framebuffer@ == pre.framebuffer@
    &&& post.stack@ == pre.stack@
    &&& post.stack_pointer == pre.stack_pointer
    &&& post.delay_timer == pre.delay_timer
    &&& post.sound_timer == pre.sound_timer
}

/// The I register takes the font address of the digit held in `Vx`.
pub open spec fn load_sprite_location_post(pre: Hardware, post: Hardware, x: u8) -> bool {
    &&& pre.gen_registers@[x as int] <= 0xf
    &&& i_write_post(pre, post, pre.font_addresses@[pre.gen_registers@[x as int] as int] as int)
}

/// Waiting on a key: with a release latched, the released digit lands in
/// `Vx` and the program counter advances; with none, the whole state is
/// left as it was, so the instruction runs again on the next cycle.
pub open spec fn load_from_key_press_post(pre: Hardware, post: Hardware, x: u8) -> bool {
    match pre.key_released_since_last_instruction {
        Some(digit) => register_write_post(
            pre,
            post,
            pre.gen_registers@.update(x as int, digit),
        ),
        None => post == pre,
    }
}

/// Some freshly drawn byte, masked with the immediate, landed in `Vx`;
/// nothing is promised about which byte was drawn.
pub open spec fn set_random_post(pre: Hardware, post: Hardware, x: u8, and_value: u8) -> bool {
    exists|drawn: u8|
        register_write_post(
            pre,
            post,
            #[trigger] pre.gen_registers@.update(x as int, drawn & and_value),
        )
}

/// The sprite bits that an unaligned row XORs into the byte to the right
/// of its first byte: the row's low bits, moved to the top.
pub open spec fn right_bits(sprite_byte: u8, shift: u8) -> u8 {
    sprite_byte << ((8 - shift) as u8)
}

/// Sprite row `r` found an already-lit pixel under one of its set bits in
/// the pre-state framebuffer.
pub open spec fn sprite_row_collides(pre: Hardware, vx: u8, vy: u8, r: int) -> bool {
    let shift = vx % 8;
    let left_col = ((vx % 64) / 8) as int;
    let right_col = (left_col + 1) % 8;
    let row = (vy + r) % 32;
    let sprite_byte = pre.memory@[pre.i_register + r];
    ||| pre.framebuffer@[row]@[left_col] & (sprite_byte >> shift) != 0
    ||| shift > 0 && pre.framebuffer@[row]@[right_col] & right_bits(sprite_byte, shift) != 0
}

/// Sprite row `r` was XORed into framebuffer row `(Vy + r) mod 32`:
/// eight pixels starting at column `Vx mod 64`, wrapping to column zero
/// past the right edge; the row's other bytes are untouched.
pub open spec fn sprite_row_updated(
    pre: Hardware,
    post: Hardware,
    vx: u8,
    vy: u8,
    r: int,
) -> bool {
    let shift = vx % 8;
    let left_col = ((vx % 64) / 8) as int;
    let right_col = (left_col + 1) % 8;
    let row = (vy + r) % 32;
    let sprite_byte = pre.memory@[pre.i_register + r];
    &&& post.framebuffer@[row]@.len() == pre.framebuffer@[row]@.len()
    &&& post.framebuffer@[row]@[left_col] == pre.framebuffer@[row]@[left_col] ^ (sprite_byte
        >> shift)
    &&& shift > 0 ==> post.framebuffer@[row]@[right_col] == pre.framebuffer@[row]@[right_col]
        ^ right_bits(sprite_byte, shift)
    &&& shift == 0 ==> post.framebuffer@[row]@[right_col] == pre.framebuffer@[row]@[right_col]
    &&& forall|c: int|
        0 <= c < 8 && c != left_col && c != right_col ==> post.framebuffer@[row]@[c]
            == pre.framebuffer@[row]@[c]
}

/// Row `rr` of the framebuffer receives some sprite row when `height`
/// rows are drawn starting at row `vy mod 32`.
pub open spec fn sprite_touches_row(vy: u8, height: int, rr: int) -> bool {
    exists|r: int| 0 <= r < height && #[trigger] ((vy + r) % 32) == rr
}

/// A sprite of `height` rows read from memory at `I` was XORed into the
/// framebuffer at `(Vx mod 64, Vy mod 32)`, wrapping on both axes, and
/// `VF` records whether any pixel was turned off. The flag is written
/// after the rows, so a coordinate register named `VF` does not disturb
/// the drawing that already happened.
pub open spec fn draw_sprite_post(
    pre: Hardware,
    post: Hardware,
    x_reg: u8,
    y_reg: u8,
    height: u8,
) -> bool {
    let vx = pre.gen_registers@[x_reg as int];
    let vy = pre.gen_registers@[y_reg as int];
    let collision = exists|r: int|
        0 <= r < height && #[trigger] sprite_row_collides(pre, vx, vy, r);
    &&& post.framebuffer@.len() == FRAMEBUFFER_HEIGHT
    &&& forall|r: int| 0 <= r < height ==> #[trigger] sprite_row_updated(pre, post, vx, vy, r)
    &&& forall|rr: int|
        0 <= rr < 32 && !sprite_touches_row(vy, height as int, rr)
            ==> #[trigger] post.framebuffer@[rr] == pre.framebuffer@[rr]
    &&& post.gen_registers@ == pre.gen_registers@.update(
        15,
        if collision { 1u8 } else { 0u8 },
    )
    &&& post.program_counter == pre.program_counter + 2
    &&& post.memory@ == pre.memory@
    &&& post.stack@ == pre.stack@
    &&& post.stack_pointer == pre.stack_pointer
    &&& post.i_register == pre.i_register
    &&& post.delay_timer == pre.delay_timer
    &&& post.sound_timer == pre.sound_timer
}

// ---------------------------------------------------------------------------
// When the executor faults, and with which fault.
// ---------------------------------------------------------------------------

/// The fault an instruction raises against a given pre-state, or `None`
/// when it executes. This is exact in both directions: the executor
/// faults exactly when this function says so, with exactly this fault.
pub open spec fn instruction_fault(instruction: Instruction, pre: Hardware) -> Option<
    ExecutionError,
> {
    match instruction {
        Instruction::AddFromRegister { register1, register2 } => match (register1, register2) {
            (Register::General(x), Register::General(y)) => None,
            (Register::I, Register::General(x)) => None,
            _ => Some(ExecutionError::InvalidRegisterForInstruction { instruction }),
        },
        Instruction::AddFromValue { register, value } => match register {
            Register::General(x) => None,
            _ => Some(ExecutionError::InvalidRegisterForInstruction { instruction }),
        },
        Instruction::And { register1, register2 } => match (register1, register2) {
            (Register::General(x), Register::General(y)) => None,
            _ => Some(ExecutionError::InvalidRegisterForInstruction { instruction }),
        },
        Instruction::Call { address } => if pre.stack_pointer >= STACK_SIZE {
            Some(ExecutionError::StackOverflow)
        } else if address % 2 != 0 {
            Some(ExecutionError::InvalidCallOrJumpAddress { address })
        } else {
            None
        },
        Instruction::ClearDisplay => None,
        Instruction::DrawSprite { x_register, y_register, height } => match (
            x_register,
            y_register,
        ) {
            (Register::General(x), Register::General(y)) => None,
            _ => Some(ExecutionError::InvalidRegisterForInstruction { instruction }),
        },
        Instruction::JumpToAddress { address, add_register_0 } => {
            let target = address + if add_register_0 {
                pre.gen_registers@[0] as int
            } else {
                0int
            };
            if target < 512 || target > 0xfff || target % 2 != 0 {
                Some(ExecutionError::InvalidCallOrJumpAddress { address: target as u16 })
            } else {
                None
            }
        },
        Instruction::JumpToMachineCode { address } => Some(
            ExecutionError::UnhandleableInstruction { instruction },
        ),
        Instruction::LoadAddressIntoIRegister { address } => None,
        Instruction::LoadBcdValue { source } => match source {
            Register::General(x) => None,
            _ => Some(ExecutionError::InvalidRegisterForInstruction { instruction }),
        },
        Instruction::LoadFromKeyPress { destination } => match destination {
            Register::General(x) => None,
            _ => Some(ExecutionError::InvalidRegisterForInstruction { instruction }),
        },
        Instruction::LoadFromMemory { last_register } => match last_register {
            Register::General(x) => None,
            _ => Some(ExecutionError::InvalidRegisterForInstruction { instruction }),
        },
        Instruction::LoadFromRegister { destination, source } => match (destination, source) {
            (Register::General(d), Register::General(s)) => None,
            (Register::General(d), Register::DelayTimer) => None,
            (Register::General(d), Register::SoundTimer) => None,
            (Register::DelayTimer, Register::General(s)) => None,
            (Register::SoundTimer, Register::General(s)) => None,
            _ => Some(ExecutionError::InvalidRegisterForInstruction { instruction }),
        },
        Instruction::LoadFromValue { destination, value } => match destination {
            Register::General(x) => None,
            _ => Some(ExecutionError::InvalidRegisterForInstruction { instruction }),
        },
        Instruction::LoadIntoMemory { last_register } => match last_register {
            Register::General(x) => None,
            _ => Some(ExecutionError::InvalidRegisterForInstruction { instruction }),
        },
        Instruction::LoadSpriteLocation { sprite_digit } => match sprite_digit {
            Register::General(x) => if pre.gen_registers@[x as int] > 0xf {
                Some(
                    ExecutionError::InvalidFontDigit { digit: pre.gen_registers@[x as int] },
                )
            } else {
                None
            },
            _ => Some(ExecutionError::InvalidRegisterForInstruction { instruction }),
        },
        Instruction::Or { register1, register2 } => match (register1, register2) {
            (Register::General(x), Register::General(y)) => None,
            _ => Some(ExecutionError::InvalidRegisterForInstruction { instruction }),
        },
        Instruction::Return => if pre.stack_pointer == 0 {
            Some(ExecutionError::EmptyStack)
        } else {
            None
        },
        Instruction::SetRandom { register, and_value } => match register {
            Register::General(x) => None,
            _ => Some(ExecutionError::InvalidRegisterForInstruction { instruction }),
        },
        Instruction::ShiftLeft { register } => match register {
            Register::General(x) => None,
            _ => Some(ExecutionError::InvalidRegisterForInstruction { instruction }),
        },
        Instruction::ShiftRight { register } => match register {
            Register::General(x) => None,
            _ => Some(ExecutionError::InvalidRegisterForInstruction { instruction }),
        },
        Instruction::SkipIfEqual { register, value } => match register {
            Register::General(x) => None,
            _ => Some(ExecutionError::InvalidRegisterForInstruction { instruction }),
        },
        Instruction::SkipIfKeyNotPressed { register } => match register {
            Register::General(x) => None,
            _ => Some(ExecutionError::InvalidRegisterForInstruction { instruction }),
        },
        Instruction::SkipIfKeyPressed { register } => match register {
            Register::General(x) => None,
            _ => Some(ExecutionError::InvalidRegisterForInstruction { instruction }),
        },
        Instruction::SkipIfNotEqual { register, value } => match register {
            Register::General(x) => None,
            _ => Some(ExecutionError::InvalidRegisterForInstruction { instruction }),
        },
        Instruction::SkipIfRegistersEqual { register1, register2 } => match (
            register1,
            register2,
        ) {
            (Register::General(x), Register::General(y)) => None,
            _ => Some(ExecutionError::InvalidRegisterForInstruction { instruction }),
        },
        Instruction::SkipIfRegistersNotEqual { register1, register2 } => match (
            register1,
            register2,
        ) {
            (Register::General(x), Register::General(y)) => None,
            _ => Some(ExecutionError::InvalidRegisterForInstruction { instruction }),
        },
        Instruction::Subtract { minuend, subtrahend, stored_in } => match (
            minuend,
            subtrahend,
            stored_in,
        ) {
            (Register::General(m), Register::General(s), Register::General(d)) => None,
            _ => Some(ExecutionError::InvalidRegisterForInstruction { instruction }),
        },
        Instruction::Unknown { bytes } => Some(
            ExecutionError::UnhandleableInstruction { instruction },
        ),
        Instruction::Xor { register1, register2 } => match (register1, register2) {
            (Register::General(x), Register::General(y)) => None,
            _ => Some(ExecutionError::InvalidRegisterForInstruction { instruction }),
        },
    }
}

/// What a caller must establish before executing an instruction: a
/// well-formed machine, a program counter inside the address space, named
/// general registers within the register file, and, for the instructions
/// that read or write a memory block, that the block lies inside memory.
pub open spec fn execution_preconditions(instruction: Instruction, hardware: Hardware) -> bool {
    &&& hardware.wf()
    &&& hardware.program_counter < 0x1000
    &&& match instruction {
        Instruction::AddFromRegister { register1, register2 } => match (register1, register2) {
            (Register::General(x), Register::General(y)) => x < 16 && y < 16,
            (Register::I, Register::General(x)) => x < 16 && hardware.i_register
                + hardware.gen_registers@[x as int] <= 0xffff,
            _ => true,
        },
        Instruction::AddFromValue { register, value } => register_wf(register),
        Instruction::And { register1, register2 } => register_wf(register1) && register_wf(
            register2,
        ),
        Instruction::Call { address } => true,
        Instruction::ClearDisplay => true,
        Instruction::DrawSprite { x_register, y_register, height } => match (
            x_register,
            y_register,
        ) {
            (Register::General(x), Register::General(y)) => x < 16 && y < 16 && height < 16
                && hardware.i_register + height <= MEMORY_SIZE,
            _ => true,
        },
        Instruction::JumpToAddress { address, add_register_0 } => add_register_0
            ==> address + hardware.gen_registers@[0] <= 0xffff,
        Instruction::JumpToMachineCode { address } => true,
        Instruction::LoadAddressIntoIRegister { address } => true,
        Instruction::LoadBcdValue { source } => match source {
            Register::General(x) => x < 16 && hardware.i_register + 3 <= MEMORY_SIZE,
            _ => true,
        },
        Instruction::LoadFromKeyPress { destination } => register_wf(destination),
        Instruction::LoadFromMemory { last_register } => match last_register {
            Register::General(x) => x < 16 && hardware.i_register + x + 1 <= MEMORY_SIZE,
            _ => true,
        },
        Instruction::LoadFromRegister { destination, source } => register_wf(destination)
            && register_wf(source),
        Instruction::LoadFromValue { destination, value } => register_wf(destination),
        Instruction::LoadIntoMemory { last_register } => match last_register {
            Register::General(x) => x < 16 && hardware.i_register + x + 1 <= MEMORY_SIZE,
            _ => true,
        },
        Instruction::LoadSpriteLocation { sprite_digit } => register_wf(sprite_digit),
        Instruction::Or { register1, register2 } => register_wf(register1) && register_wf(
            register2,
        ),
        Instruction::Return => true,
        Instruction::SetRandom { register, and_value } => register_wf(register),
        Instruction::ShiftLeft { register } => register_wf(register),
        Instruction::ShiftRight { register } => register_wf(register),
        Instruction::SkipIfEqual { register, value } => register_wf(register),
        Instruction::SkipIfKeyNotPressed { register } => register_wf(register),
        Instruction::SkipIfKeyPressed { register } => register_wf(register),
        Instruction::SkipIfNotEqual { register, value } => register_wf(register),
        Instruction::SkipIfRegistersEqual { register1, register2 } => register_wf(register1)
            && register_wf(register2),
        Instruction::SkipIfRegistersNotEqual { register1, register2 } => register_wf(register1)
            && register_wf(register2),
        Instruction::Subtract { minuend, subtrahend, stored_in } => register_wf(minuend)
            && register_wf(subtrahend) && register_wf(stored_in),
        Instruction::Unknown { bytes } => true,
        Instruction::Xor { register1, register2 } => register_wf(register1) && register_wf(
            register2,
        ),
    }
}

/// The executed instruction's whole effect. The input latches and the font
/// table are never written by the executor; the rest is given per
/// instruction.
pub open spec fn execute_post(instruction: Instruction, pre: Hardware, post: Hardware) -> bool {
    &&& post.current_key_down == pre.current_key_down
    &&& post.key_released_since_last_instruction == pre.key_released_since_last_instruction
    &&& post.font_addresses@ == pre.font_addresses@
    &&& match instruction {
        Instruction::AddFromRegister { register1, register2 } => match (register1, register2) {
            (Register::General(x), Register::General(y)) => add_registers_post(pre, post, x, y),
            (Register::I, Register::General(x)) => i_write_post(
                pre,
                post,
                pre.i_register + pre.gen_registers@[x as int],
            ),
            _ => true,
        },
        Instruction::AddFromValue { register, value } => match register {
            Register::General(x) => register_write_post(
                pre,
                post,
                pre.gen_registers@.update(
                    x as int,
                    (((pre.gen_registers@[x as int] + value) % 256) as u8),
                ),
            ),
            _ => true,
        },
        Instruction::And { register1, register2 } => match (register1, register2) {
            (Register::General(x), Register::General(y)) => register_write_post(
                pre,
                post,
                pre.gen_registers@.update(
                    x as int,
                    pre.gen_registers@[x as int] & pre.gen_registers@[y as int],
                ),
            ),
            _ => true,
        },
        Instruction::Call { address } => call_post(pre, post, address),
        Instruction::ClearDisplay => clear_display_post(pre, post),
        Instruction::DrawSprite { x_register, y_register, height } => match (
            x_register,
            y_register,
        ) {
            (Register::General(x), Register::General(y)) => draw_sprite_post(
                pre,
                post,
                x,
                y,
                height,
            ),
            _ => true,
        },
        Instruction::JumpToAddress { address, add_register_0 } => jump_post(
            pre,
            post,
            address + if add_register_0 {
                pre.gen_registers@[0] as int
            } else {
                0int
            },
        ),
        Instruction::JumpToMachineCode { address } => true,
        Instruction::LoadAddressIntoIRegister { address } => i_write_post(
            pre,
            post,
            address as int,
        ),
        Instruction::LoadBcdValue { source } => match source {
            Register::General(x) => load_bcd_post(pre, post, x),
            _ => true,
        },
        Instruction::LoadFromKeyPress { destination } => match destination {
            Register::General(x) => load_from_key_press_post(pre, post, x),
            _ => true,
        },
        Instruction::LoadFromMemory { last_register } => match last_register {
            Register::General(x) => load_from_memory_post(pre, post, x),
            _ => true,
        },
        Instruction::LoadFromRegister { destination, source } => match (destination, source) {
            (Register::General(d), Register::General(s)) => register_write_post(
                pre,
                post,
                pre.gen_registers@.update(d as int, pre.gen_registers@[s as int]),
            ),
            (Register::General(d), Register::DelayTimer) => register_write_post(
                pre,
                post,
                pre.gen_registers@.update(d as int, pre.delay_timer),
            ),
            (Register::General(d), Register::SoundTimer) => register_write_post(
                pre,
                post,
                pre.gen_registers@.update(d as int, pre.sound_timer),
            ),
            (Register::DelayTimer, Register::General(s)) => load_into_delay_post(pre, post, s),
            (Register::SoundTimer, Register::General(s)) => load_into_sound_post(pre, post, s),
            _ => true,
        },
        Instruction::LoadFromValue { destination, value } => match destination {
            Register::General(x) => register_write_post(
                pre,
                post,
                pre.gen_registers@.update(x as int, value),
            ),
            _ => true,
        },
        Instruction::LoadIntoMemory { last_register } => match last_register {
            Register::General(x) => load_into_memory_post(pre, post, x),
            _ => true,
        },
        Instruction::LoadSpriteLocation { sprite_digit } => match sprite_digit {
            Register::General(x) => load_sprite_location_post(pre, post, x),
            _ => true,
        },
        Instruction::Or { register1, register2 } => match (register1, register2) {
            (Register::General(x), Register::General(y)) => register_write_post(
                pre,
                post,
                pre.gen_registers@.update(
                    x as int,
                    pre.gen_registers@[x as int] | pre.gen_registers@[y as int],
                ),
            ),
            _ => true,
        },
        Instruction::Return => return_post(pre, post),
        Instruction::SetRandom { register, and_value } => match register {
            Register::General(x) => set_random_post(pre, post, x, and_value),
            _ => true,
        },
        Instruction::ShiftLeft { register } => match register {
            Register::General(x) => register_write_post(
                pre,
                post,
                pre.gen_registers@.update(x as int, pre.gen_registers@[x as int] << 1),
            ),
            _ => true,
        },
        Instruction::ShiftRight { register } => match register {
            Register::General(x) => register_write_post(
                pre,
                post,
                pre.gen_registers@.update(x as int, pre.gen_registers@[x as int] >> 1),
            ),
            _ => true,
        },
        Instruction::SkipIfEqual { register, value } => match register {
            Register::General(x) => skip_post(pre, post, pre.gen_registers@[x as int] == value),
            _ => true,
        },
        Instruction::SkipIfKeyNotPressed { register } => match register {
            Register::General(x) => skip_post(
                pre,
                post,
                pre.current_key_down != Some(pre.gen_registers@[x as int]),
            ),
            _ => true,
        },
        Instruction::SkipIfKeyPressed { register } => match register {
            Register::General(x) => skip_post(
                pre,
                post,
                pre.current_key_down == Some(pre.gen_registers@[x as int]),
            ),
            _ => true,
        },
        Instruction::SkipIfNotEqual { register, value } => match register {
            Register::General(x) => skip_post(pre, post, pre.gen_registers@[x as int] != value),
            _ => true,
        },
        Instruction::SkipIfRegistersEqual { register1, register2 } => match (
            register1,
            register2,
        ) {
            (Register::General(x), Register::General(y)) => skip_post(
                pre,
                post,
                pre.gen_registers@[x as int] == pre.gen_registers@[y as int],
            ),
            _ => true,
        },
        Instruction::SkipIfRegistersNotEqual { register1, register2 } => match (
            register1,
            register2,
        ) {
            (Register::General(x), Register::General(y)) => skip_post(
                pre,
                post,
                pre.gen_registers@[x as int] != pre.gen_registers@[y as int],
            ),
            _ => true,
        },
        Instruction::Subtract { minuend, subtrahend, stored_in } => match (
            minuend,
            subtrahend,
            stored_in,
        ) {
            (Register::General(m), Register::General(s), Register::General(d)) => subtract_post(
                pre,
                post,
                m,
                s,
                d,
            ),
            _ => true,
        },
        Instruction::Unknown { bytes } => true,
        Instruction::Xor { register1, register2 } => match (register1, register2) {
            (Register::General(x), Register::General(y)) => register_write_post(
                pre,
                post,
                pre.gen_registers@.update(
                    x as int,
                    pre.gen_registers@[x as int] ^ pre.gen_registers@[y as int],
                ),
            ),
            _ => true,
        },
    }
}

// ---------------------------------------------------------------------------
// The executor.
// ---------------------------------------------------------------------------

/// Relies on rand::random::<u8>: a byte drawn from the thread-local RNG.
/// Nothing is promised of the drawn value.
#[verifier::external_body]
fn random_byte() -> u8 {
    rand::random::<u8>()
}

/// Adding distinct offsets below 32 to the same base lands on distinct
/// rows, even after wrapping.
proof fn lemma_mod32_injective(y: int, a: int, b: int)
    requires
        0 <= y,
        0 <= a < b < 32,
    ensures
        (y + a) % 32 != (y + b) % 32,
{
    if (y + a) % 32 == (y + b) % 32 {
        lemma_mod_equivalence(y + a, y + b, 32);
        lemma_fundamental_div_mod_converse(a - b, 32, -1, a - b + 32);
        assert(false);
    }
}

/// XOR sprite bits into one framebuffer byte, reporting whether any lit
/// pixel went dark: the byte had a set bit under the sprite bits.
fn fb_xor(framebuffer: &mut Vec<Vec<u8>>, row: usize, col: usize, bits: u8) -> (collision: bool)
    requires
        row < old(framebuffer)@.len(),
        col < old(framebuffer)@[row as int]@.len(),
    ensures
        collision == (old(framebuffer)@[row as int]@[col as int] & bits != 0),
        final(framebuffer)@.len() == old(framebuffer)@.len(),
        final(framebuffer)@[row as int]@ == old(framebuffer)@[row as int]@.update(
            col as int,
            old(framebuffer)@[row as int]@[col as int] ^ bits,
        ),
        forall|rr: int|
            0 <= rr < old(framebuffer)@.len() && rr != row ==> final(framebuffer)@[rr] == old(
                framebuffer,
            )@[rr],
{
    let current = framebuffer[row][col];
    let row_vec = &mut framebuffer[row];
    row_vec[col] = current ^ bits;
    current & bits != 0
}

/// XOR a sprite into the framebuffer, wrapping on both axes, and leave the
/// collision outcome in `VF`.
fn draw_sprite(hardware: &mut Hardware, x_reg: u8, y_reg: u8, height: u8)
    requires
        old(hardware).wf(),
        x_reg < 16,
        y_reg < 16,
        height < 16,
        old(hardware).i_register + height <= MEMORY_SIZE,
        old(hardware).program_counter < 0x1000,
    ensures
        final(hardware).wf(),
        final(hardware).current_key_down == old(hardware).current_key_down,
        final(hardware).key_released_since_last_instruction == old(
            hardware,
        ).key_released_since_last_instruction,
        final(hardware).font_addresses@ == old(hardware).font_addresses@,
        draw_sprite_post(*old(hardware), *final(hardware), x_reg, y_reg, height),
{
    let ghost pre = *old(hardware);
    let vx = hardware.gen_registers[x_reg as usize];
    let vy = hardware.gen_registers[y_reg as usize];
    let shift_amount = vx % 8;
    let left_col = ((vx % 64) / 8) as usize;
    let right_col = (left_col + 1) % 8;
    let base = hardware.i_register as usize;
    let mut collisions_found = false;
    let mut n: usize = 0;
    while n < height as usize
        invariant
            n <= height,
            x_reg < 16,
            y_reg < 16,
            height < 16,
            vx == pre.gen_registers@[x_reg as int],
            vy == pre.gen_registers@[y_reg as int],
            shift_amount == vx % 8,
            left_col == (vx % 64) / 8,
            right_col == (left_col + 1) % 8,
            base == pre.i_register,
            base + height <= MEMORY_SIZE,
            pre.wf(),
            hardware.wf(),
            hardware.memory@ == pre.memory@,
            hardware.gen_registers@ == pre.gen_registers@,
            hardware.stack@ == pre.stack@,
            hardware.stack_pointer == pre.stack_pointer,
            hardware.i_register == pre.i_register,
            hardware.program_counter == pre.program_counter,
            hardware.delay_timer == pre.delay_timer,
            hardware.sound_timer == pre.sound_timer,
            hardware.current_key_down == pre.current_key_down,
            hardware.key_released_since_last_instruction
                == pre.key_released_since_last_instruction,
            hardware.font_addresses@ == pre.font_addresses@,
            forall|r: int| 0 <= r < n ==> #[trigger] sprite_row_updated(pre, *hardware, vx, vy, r),
            forall|rr: int|
                0 <= rr < 32 && !sprite_touches_row(vy, n as int, rr)
                    ==> #[trigger] hardware.framebuffer@[rr] == pre.framebuffer@[rr],
            collisions_found == exists|r: int|
                0 <= r < n && #[trigger] sprite_row_collides(pre, vx, vy, r),
        decreases height - n,
    {
        let ghost at_row_start = *hardware;
        let ghost fb_before = hardware.framebuffer@;
        let row = ((vy as usize) + n) % 32;
        proof {
            assert forall|r: int| 0 <= r < n implies #[trigger] ((vy + r) % 32) != row as int by {
                lemma_mod32_injective(vy as int, r, n as int);
            }
            assert(!sprite_touches_row(vy, n as int, row as int));
            assert(hardware.framebuffer@[row as int] == pre.framebuffer@[row as int]);
            assert(left_col < 8);
            assert(right_col != left_col);
        }
        let sprite_byte = hardware.memory[base + n];
        let left_byte = sprite_byte >> shift_amount;

        let mut row_collision = fb_xor(&mut hardware.framebuffer, row, left_col, left_byte);
        if shift_amount > 0 {
            let right_byte = sprite_byte << (8 - shift_amount);
            let right_collision = fb_xor(&mut hardware.framebuffer, row, right_col, right_byte);
            row_collision = row_collision || right_collision;
        }

        proof {
            assert(row_collision == sprite_row_collides(pre, vx, vy, n as int));
            assert(sprite_row_updated(pre, *hardware, vx, vy, n as int));
            assert forall|r: int|
                0 <= r < n implies #[trigger] sprite_row_updated(pre, *hardware, vx, vy, r) by {
                assert(sprite_row_updated(pre, at_row_start, vx, vy, r));
                lemma_mod32_injective(vy as int, r, n as int);
                vstd::arithmetic::div_mod::lemma_mod_bound(vy + r, 32);
                assert(hardware.framebuffer@[(vy + r) % 32] == fb_before[(vy + r) % 32]);
            }
            assert forall|rr: int|
                0 <= rr < 32 && !sprite_touches_row(vy, n as int + 1, rr)
                    implies #[trigger] hardware.framebuffer@[rr] == pre.framebuffer@[rr] by {
                assert(((vy + n) % 32) == row as int);
                assert(rr != row as int);
                assert(!sprite_touches_row(vy, n as int, rr));
                assert(hardware.framebuffer@[rr] == fb_before[rr]);
            }
        }
        let ghost previously_found = collisions_found;
        if row_collision {
            collisions_found = true;
        }
        proof {
            if collisions_found {
                if row_collision {
                    assert(0 <= n < n + 1 && sprite_row_collides(pre, vx, vy, n as int));
                } else {
                    let r0 = choose|r: int|
                        0 <= r < n && #[trigger] sprite_row_collides(pre, vx, vy, r);
                    assert(0 <= r0 < n + 1 && sprite_row_collides(pre, vx, vy, r0));
                }
                assert(exists|r: int|
                    0 <= r < n + 1 && #[trigger] sprite_row_collides(pre, vx, vy, r));
            } else {
                assert forall|r: int|
                    0 <= r < n + 1 implies !#[trigger] sprite_row_collides(pre, vx, vy, r) by {
                    if r < n {
                        assert(!sprite_row_collides(pre, vx, vy, r));
                    }
                }
            }
        }
        n = n + 1;
    }

    let ghost drawn = *hardware;
    hardware.program_counter = hardware.program_counter + 2;
    hardware.gen_registers[15] = if collisions_found {
        1
    } else {
        0
    };
    proof {
        assert forall|r: int|
            0 <= r < height implies #[trigger] sprite_row_updated(
            pre,
            *hardware,
            pre.gen_registers@[x_reg as int],
            pre.gen_registers@[y_reg as int],
            r,
        ) by {
            assert(sprite_row_updated(pre, drawn, vx, vy, r));
        }
    }
}

/// Write `V0 ..= Vlast` to memory at `I`, then move `I` past the block.
fn store_registers(hardware: &mut Hardware, last: u8)
    requires
        old(hardware).wf(),
        last < 16,
        old(hardware).i_register + last + 1 <= MEMORY_SIZE,
        old(hardware).program_counter < 0x1000,
    ensures
        final(hardware).wf(),
        final(hardware).current_key_down == old(hardware).current_key_down,
        final(hardware).key_released_since_last_instruction == old(
            hardware,
        ).key_released_since_last_instruction,
        final(hardware).font_addresses@ == old(hardware).font_addresses@,
        load_into_memory_post(*old(hardware), *final(hardware), last),
{
    let ghost pre = *old(hardware);
    let base = hardware.i_register as usize;
    let mut index: usize = 0;
    while index <= last as usize
        invariant
            index <= last + 1,
            last < 16,
            base == pre.i_register,
            base + last + 1 <= MEMORY_SIZE,
            pre.wf(),
            hardware.wf(),
            forall|a: int|
                base <= a < base + index ==> #[trigger] hardware.memory@[a]
                    == pre.gen_registers@[a - base],
            forall|a: int|
                0 <= a < MEMORY_SIZE && !(base <= a < base + index) ==> #[trigger] hardware.memory@[a]
                    == pre.memory@[a],
            *hardware == (Hardware { memory: hardware.memory, ..pre }),
        decreases last + 1 - index,
    {
        hardware.memory[base + index] = hardware.gen_registers[index];
        index = index + 1;
    }
    hardware.i_register = hardware.i_register + last as u16 + 1;
    hardware.program_counter = hardware.program_counter + 2;
}

/// Read `V0 ..= Vlast` from memory at `I`, then move `I` past the block.
fn load_registers(hardware: &mut Hardware, last: u8)
    requires
        old(hardware).wf(),
        last < 16,
        old(hardware).i_register + last + 1 <= MEMORY_SIZE,
        old(hardware).program_counter < 0x1000,
    ensures
        final(hardware).wf(),
        final(hardware).current_key_down == old(hardware).current_key_down,
        final(hardware).key_released_since_last_instruction == old(
            hardware,
        ).key_released_since_last_instruction,
        final(hardware).font_addresses@ == old(hardware).font_addresses@,
        load_from_memory_post(*old(hardware), *final(hardware), last),
{
    let ghost pre = *old(hardware);
    let base = hardware.i_register as usize;
    let mut index: usize = 0;
    while index <= last as usize
        invariant
            index <= last + 1,
            last < 16,
            base == pre.i_register,
            base + last + 1 <= MEMORY_SIZE,
            pre.wf(),
            hardware.wf(),
            forall|j: int|
                0 <= j < index ==> #[trigger] hardware.gen_registers@[j] == pre.memory@[base + j],
            forall|j: int|
                index <= j < 16 ==> #[trigger] hardware.gen_registers@[j]
                    == pre.gen_registers@[j],
            *hardware == (Hardware { gen_registers: hardware.gen_registers, ..pre }),
        decreases last + 1 - index,
    {
        hardware.gen_registers[index] = hardware.memory[base + index];
        index = index + 1;
    }
    hardware.i_register = hardware.i_register + last as u16 + 1;
    hardware.program_counter = hardware.program_counter + 2;
}

/// Apply one decoded instruction to the machine state. Faults exactly as
/// `instruction_fault` says, leaving the state untouched; otherwise the
/// state changes exactly as `execute_post` says.
pub fn execute_instruction(instruction: Instruction, hardware: &mut Hardware) -> (result: Result<
    (),
    ExecutionError,
>)
    requires
        execution_preconditions(instruction, *old(hardware)),
    ensures
        final(hardware).wf(),
        (match instruction_fault(instruction, *old(hardware)) {
            Some(fault) => result == Err::<(), ExecutionError>(fault) && *final(hardware) == *old(
                hardware,
            ),
            None => result is Ok && execute_post(instruction, *old(hardware), *final(hardware)),
        }),
{
    let ghost pre = *old(hardware);
    match instruction {
        Instruction::AddFromRegister { register1, register2 } => match (register1, register2) {
            (Register::General(x), Register::General(y)) => {
                let reg1_value = hardware.gen_registers[x as usize];
                let reg2_value = hardware.gen_registers[y as usize];
                let sum = reg1_value as u16 + reg2_value as u16;
                hardware.gen_registers[x as usize] = (sum % 256) as u8;
                hardware.gen_registers[15] = if sum > 255 {
                    1
                } else {
                    0
                };
                hardware.program_counter = hardware.program_counter + 2;
                Ok(())
            },
            (Register::I, Register::General(x)) => {
                let value = hardware.gen_registers[x as usize];
                hardware.i_register = hardware.i_register + value as u16;
                hardware.program_counter = hardware.program_counter + 2;
                Ok(())
            },
            _ => Err(ExecutionError::InvalidRegisterForInstruction { instruction }),
        },
        Instruction::AddFromValue { register, value } => match register {
            Register::General(x) => {
                let current = hardware.gen_registers[x as usize];
                let sum = current as u16 + value as u16;
                hardware.gen_registers[x as usize] = (sum % 256) as u8;
                hardware.program_counter = hardware.program_counter + 2;
                Ok(())
            },
            _ => Err(ExecutionError::InvalidRegisterForInstruction { instruction }),
        },
        Instruction::And { register1, register2 } => match (register1, register2) {
            (Register::General(x), Register::General(y)) => {
                let result_value = hardware.gen_registers[x as usize] & hardware.gen_registers[y
                    as usize];
                hardware.gen_registers[x as usize] = result_value;
                hardware.program_counter = hardware.program_counter + 2;
                Ok(())
            },
            _ => Err(ExecutionError::InvalidRegisterForInstruction { instruction }),
        },
        Instruction::Call { address } => {
            if hardware.stack_pointer >= STACK_SIZE {
                return Err(ExecutionError::StackOverflow);
            }
            if address % 2 != 0 {
                return Err(ExecutionError::InvalidCallOrJumpAddress { address });
            }
            hardware.stack[hardware.stack_pointer] = hardware.program_counter;
            hardware.stack_pointer = hardware.stack_pointer + 1;
            hardware.program_counter = address;
            Ok(())
        },
        Instruction::ClearDisplay => {
            hardware.framebuffer = zeroed_framebuffer();
            hardware.program_counter = hardware.program_counter + 2;
            Ok(())
        },
        Instruction::DrawSprite { x_register, y_register, height } => match (
            x_register,
            y_register,
        ) {
            (Register::General(x), Register::General(y)) => {
                draw_sprite(hardware, x, y, height);
                Ok(())
            },
            _ => Err(ExecutionError::InvalidRegisterForInstruction { instruction }),
        },
        Instruction::JumpToAddress { address, add_register_0 } => {
            let target = if add_register_0 {
                address + hardware.gen_registers[0] as u16
            } else {
                address
            };
            if target < 512 || target > 0xfff || target % 2 != 0 {
                return Err(ExecutionError::InvalidCallOrJumpAddress { address: target });
            }
            hardware.program_counter = target;
            Ok(())
        },
        Instruction::JumpToMachineCode { address } => Err(
            ExecutionError::UnhandleableInstruction { instruction },
        ),
        Instruction::LoadAddressIntoIRegister { address } => {
            hardware.i_register = address;
            hardware.program_counter = hardware.program_counter + 2;
            Ok(())
        },
        Instruction::LoadBcdValue { source } => match source {
            Register::General(x) => {
                let base = hardware.i_register as usize;
                let value = hardware.gen_registers[x as usize];
                hardware.memory[base] = (value / 100) % 10;
                hardware.memory[base + 1] = (value / 10) % 10;
                hardware.memory[base + 2] = value % 10;
                hardware.program_counter = hardware.program_counter + 2;
                Ok(())
            },
            _ => Err(ExecutionError::InvalidRegisterForInstruction { instruction }),
        },
        Instruction::LoadFromKeyPress { destination } => match destination {
            Register::General(x) => {
                if let Some(digit) = hardware.key_released_since_last_instruction {
                    hardware.gen_registers[x as usize] = digit;
                    hardware.program_counter = hardware.program_counter + 2;
                }
                Ok(())
            },
            _ => Err(ExecutionError::InvalidRegisterForInstruction { instruction }),
        },
        Instruction::LoadFromMemory { last_register } => match last_register {
            Register::General(x) => {
                load_registers(hardware, x);
                Ok(())
            },
            _ => Err(ExecutionError::InvalidRegisterForInstruction { instruction }),
        },
        Instruction::LoadFromRegister { destination, source } => match (destination, source) {
            (Register::General(d), Register::General(s)) => {
                hardware.gen_registers[d as usize] = hardware.gen_registers[s as usize];
                hardware.program_counter = hardware.program_counter + 2;
                Ok(())
            },
            (Register::General(d), Register::DelayTimer) => {
                hardware.gen_registers[d as usize] = hardware.delay_timer;
                hardware.program_counter = hardware.program_counter + 2;
                Ok(())
            },
            (Register::General(d), Register::SoundTimer) => {
                hardware.gen_registers[d as usize] = hardware.sound_timer;
                hardware.program_counter = hardware.program_counter + 2;
                Ok(())
            },
            (Register::DelayTimer, Register::General(s)) => {
                hardware.delay_timer = hardware.gen_registers[s as usize];
                hardware.program_counter = hardware.program_counter + 2;
                Ok(())
            },
            (Register::SoundTimer, Register::General(s)) => {
                hardware.sound_timer = hardware.gen_registers[s as usize];
                hardware.program_counter = hardware.program_counter + 2;
                Ok(())
            },
            _ => Err(ExecutionError::InvalidRegisterForInstruction { instruction }),
        },
        Instruction::LoadFromValue { destination, value } => match destination {
            Register::General(x) => {
                hardware.gen_registers[x as usize] = value;
                hardware.program_counter = hardware.program_counter + 2;
                Ok(())
            },
            _ => Err(ExecutionError::InvalidRegisterForInstruction { instruction }),
        },
        Instruction::LoadIntoMemory { last_register } => match last_register {
            Register::General(x) => {
                store_registers(hardware, x);
                Ok(())
            },
            _ => Err(ExecutionError::InvalidRegisterForInstruction { instruction }),
        },
        Instruction::LoadSpriteLocation { sprite_digit } => match sprite_digit {
            Register::General(x) => {
                let digit = hardware.gen_registers[x as usize];
                if digit > 0xf {
                    return Err(ExecutionError::InvalidFontDigit { digit });
                }
                hardware.i_register = hardware.font_addresses[digit as usize];
                hardware.program_counter = hardware.program_counter + 2;
                Ok(())
            },
            _ => Err(ExecutionError::InvalidRegisterForInstruction { instruction }),
        },
        Instruction::Or { register1, register2 } => match (register1, register2) {
            (Register::General(x), Register::General(y)) => {
                let result_value = hardware.gen_registers[x as usize] | hardware.gen_registers[y
                    as usize];
                hardware.gen_registers[x as usize] = result_value;
                hardware.program_counter = hardware.program_counter + 2;
                Ok(())
            },
            _ => Err(ExecutionError::InvalidRegisterForInstruction { instruction }),
        },
        Instruction::Return => {
            if hardware.stack_pointer == 0 {
                return Err(ExecutionError::EmptyStack);
            }
            hardware.program_counter = hardware.stack[hardware.stack_pointer - 1];
            hardware.stack_pointer = hardware.stack_pointer - 1;
            Ok(())
        },
        Instruction::SetRandom { register, and_value } => match register {
            Register::General(x) => {
                let drawn = random_byte();
                hardware.gen_registers[x as usize] = drawn & and_value;
                hardware.program_counter = hardware.program_counter + 2;
                proof {
                    assert(register_write_post(
                        pre,
                        *hardware,
                        pre.gen_registers@.update(x as int, drawn & and_value),
                    ));
                }
                Ok(())
            },
            _ => Err(ExecutionError::InvalidRegisterForInstruction { instruction }),
        },
        Instruction::ShiftLeft { register } => match register {
            Register::General(x) => {
                let current = hardware.gen_registers[x as usize];
                hardware.gen_registers[x as usize] = current << 1;
                hardware.program_counter = hardware.program_counter + 2;
                Ok(())
            },
            _ => Err(ExecutionError::InvalidRegisterForInstruction { instruction }),
        },
        Instruction::ShiftRight { register } => match register {
            Register::General(x) => {
                let current = hardware.gen_registers[x as usize];
                hardware.gen_registers[x as usize] = current >> 1;
                hardware.program_counter = hardware.program_counter + 2;
                Ok(())
            },
            _ => Err(ExecutionError::InvalidRegisterForInstruction { instruction }),
        },
        Instruction::SkipIfEqual { register, value } => match register {
            Register::General(x) => {
                let taken = hardware.gen_registers[x as usize] == value;
                hardware.program_counter = hardware.program_counter + if taken {
                    4
                } else {
                    2
                };
                Ok(())
            },
            _ => Err(ExecutionError::InvalidRegisterForInstruction { instruction }),
        },
        Instruction::SkipIfKeyNotPressed { register } => match register {
            Register::General(x) => {
                let pressed = match hardware.current_key_down {
                    Some(key) => key == hardware.gen_registers[x as usize],
                    None => false,
                };
                hardware.program_counter = hardware.program_counter + if pressed {
                    2
                } else {
                    4
                };
                Ok(())
            },
            _ => Err(ExecutionError::InvalidRegisterForInstruction { instruction }),
        },
        Instruction::SkipIfKeyPressed { register } => match register {
            Register::General(x) => {
                let pressed = match hardware.current_key_down {
                    Some(key) => key == hardware.gen_registers[x as usize],
                    None => false,
                };
                hardware.program_counter = hardware.program_counter + if pressed {
                    4
                } else {
                    2
                };
                Ok(())
            },
            _ => Err(ExecutionError::InvalidRegisterForInstruction { instruction }),
        },
        Instruction::SkipIfNotEqual { register, value } => match register {
            Register::General(x) => {
                let taken = hardware.gen_registers[x as usize] != value;
                hardware.program_counter = hardware.program_counter + if taken {
                    4
                } else {
                    2
                };
                Ok(())
            },
            _ => Err(ExecutionError::InvalidRegisterForInstruction { instruction }),
        },
        Instruction::SkipIfRegistersEqual { register1, register2 } => match (
            register1,
            register2,
        ) {
            (Register::General(x), Register::General(y)) => {
                let taken = hardware.gen_registers[x as usize] == hardware.gen_registers[y
                    as usize];
                hardware.program_counter = hardware.program_counter + if taken {
                    4
                } else {
                    2
                };
                Ok(())
            },
            _ => Err(ExecutionError::InvalidRegisterForInstruction { instruction }),
        },
        Instruction::SkipIfRegistersNotEqual { register1, register2 } => match (
            register1,
            register2,
        ) {
            (Register::General(x), Register::General(y)) => {
                let taken = hardware.gen_registers[x as usize] != hardware.gen_registers[y
                    as usize];
                hardware.program_counter = hardware.program_counter + if taken {
                    4
                } else {
                    2
                };
                Ok(())
            },
            _ => Err(ExecutionError::InvalidRegisterForInstruction { instruction }),
        },
        Instruction::Subtract { minuend, subtrahend, stored_in } => match (
            minuend,
            subtrahend,
            stored_in,
        ) {
            (Register::General(m), Register::General(s), Register::General(d)) => {
                let minuend_value = hardware.gen_registers[m as usize];
                let subtrahend_value = hardware.gen_registers[s as usize];
                let borrow = minuend_value < subtrahend_value;
                let difference = minuend_value.wrapping_sub(subtrahend_value);
                hardware.gen_registers[d as usize] = difference;
                hardware.gen_registers[15] = if borrow {
                    1
                } else {
                    0
                };
                hardware.program_counter = hardware.program_counter + 2;
                Ok(())
            },
            _ => Err(ExecutionError::InvalidRegisterForInstruction { instruction }),
        },
        Instruction::Unknown { bytes } => Err(
            ExecutionError::UnhandleableInstruction { instruction },
        ),
        Instruction::Xor { register1, register2 } => match (register1, register2) {
            (Register::General(x), Register::General(y)) => {
                let result_value = hardware.gen_registers[x as usize] ^ hardware.gen_registers[y
                    as usize];
                hardware.gen_registers[x as usize] = result_value;
                hardware.program_counter = hardware.program_counter + 2;
                Ok(())
            },
            _ => Err(ExecutionError::InvalidRegisterForInstruction { instruction }),
        },
    }
}

/// Decide at run time whether an instruction meets the executor's
/// preconditions against the current machine state.
pub fn can_execute(instruction: &Instruction, hardware: &Hardware) -> (enabled: bool)
    requires
        hardware.wf(),
    ensures
        enabled == execution_preconditions(*instruction, *hardware),
{
    if !(hardware.program_counter < 0x1000) {
        return false;
    }
    match *instruction {
        Instruction::AddFromRegister { register1, register2 } => match (register1, register2) {
            (Register::General(x), Register::General(y)) => x < 16 && y < 16,
            (Register::I, Register::General(x)) => x < 16 && hardware.i_register as u32
                + hardware.gen_registers[x as usize] as u32 <= 0xffff,
            _ => true,
        },
        Instruction::AddFromValue { register, value } => general_in_range(register),
        Instruction::And { register1, register2 } => general_in_range(register1)
            && general_in_range(register2),
        Instruction::DrawSprite { x_register, y_register, height } => match (
            x_register,
            y_register,
        ) {
            (Register::General(x), Register::General(y)) => x < 16 && y < 16 && height < 16
                && hardware.i_register as u32 + height as u32 <= MEMORY_SIZE as u32,
            _ => true,
        },
        Instruction::JumpToAddress { address, add_register_0 } => !add_register_0 || address
            as u32 + hardware.gen_registers[0] as u32 <= 0xffff,
        Instruction::LoadBcdValue { source } => match source {
            Register::General(x) => x < 16 && hardware.i_register as u32 + 3 <= MEMORY_SIZE
                as u32,
            _ => true,
        },
        Instruction::LoadFromKeyPress { destination } => general_in_range(destination),
        Instruction::LoadFromMemory { last_register } => match last_register {
            Register::General(x) => x < 16 && hardware.i_register as u32 + x as u32 + 1
                <= MEMORY_SIZE as u32,
            _ => true,
        },
        Instruction::LoadFromRegister { destination, source } => general_in_range(destination)
            && general_in_range(source),
        Instruction::LoadFromValue { destination, value } => general_in_range(destination),
        Instruction::LoadIntoMemory { last_register } => match last_register {
            Register::General(x) => x < 16 && hardware.i_register as u32 + x as u32 + 1
                <= MEMORY_SIZE as u32,
            _ => true,
        },
        Instruction::LoadSpriteLocation { sprite_digit } => general_in_range(sprite_digit),
        Instruction::Or { register1, register2 } => general_in_range(register1)
            && general_in_range(register2),
        Instruction::SetRandom { register, and_value } => general_in_range(register),
        Instruction::ShiftLeft { register } => general_in_range(register),
        Instruction::ShiftRight { register } => general_in_range(register),
        Instruction::SkipIfEqual { register, value } => general_in_range(register),
        Instruction::SkipIfKeyNotPressed { register } => general_in_range(register),
        Instruction::SkipIfKeyPressed { register } => general_in_range(register),
        Instruction::SkipIfNotEqual { register, value } => general_in_range(register),
        Instruction::SkipIfRegistersEqual { register1, register2 } => general_in_range(register1)
            && general_in_range(register2),
        Instruction::SkipIfRegistersNotEqual { register1, register2 } => general_in_range(
            register1,
        ) && general_in_range(register2),
        Instruction::Subtract { minuend, subtrahend, stored_in } => general_in_range(minuend)
            && general_in_range(subtrahend) && general_in_range(stored_in),
        Instruction::Xor { register1, register2 } => general_in_range(register1)
            && general_in_range(register2),
        _ => true,
    }
}

/// A `General` operand names one of the sixteen registers; the special
/// operands carry no register number.
fn general_in_range(register: Register) -> (in_range: bool)
    ensures
        in_range == register_wf(register),
{
    match register {
        Register::General(x) => x < 16,
        _ => true,
    }
}

/// One instruction tick of the driver: fetch the two bytes at the program
/// counter, decode them, execute, and consume the key-release latch.
pub fn execute_next_instruction(hardware: &mut Hardware) -> (result: Result<(), ExecutionError>)
    requires
        old(hardware).wf(),
        old(hardware).program_counter + 1 < MEMORY_SIZE,
        execution_preconditions(
            spec_decode(
                old(hardware).memory@[old(hardware).program_counter as int],
                old(hardware).memory@[old(hardware).program_counter as int + 1],
            ),
            *old(hardware),
        ),
    ensures
        final(hardware).wf(),
        ({
            let instruction = spec_decode(
                old(hardware).memory@[old(hardware).program_counter as int],
                old(hardware).memory@[old(hardware).program_counter as int + 1],
            );
            match instruction_fault(instruction, *old(hardware)) {
                Some(fault) => result == Err::<(), ExecutionError>(fault) && *final(hardware)
                    == *old(hardware),
                None => result is Ok && final(hardware).key_released_since_last_instruction
                    is None && exists|mid: Hardware|
                    {
                        &&& #[trigger] execute_post(instruction, *old(hardware), mid)
                        &&& *final(hardware) == (Hardware {
                            key_released_since_last_instruction: None,
                            ..mid
                        })
                    },
            }
        }),
{
    let (byte1, byte2) = hardware.get_current_instruction_bytes();
    let instruction = crate::parser::get_instruction(byte1, byte2);
    let result = execute_instruction(instruction, hardware);
    if result.is_ok() {
        let ghost mid = *hardware;
        hardware.key_released_since_last_instruction = None;
        proof {
            assert(execute_post(instruction, *old(hardware), mid));
        }
    }
    result
}

} // verus!
