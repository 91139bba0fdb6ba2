//! The CHIP-8 machine state: memory, registers, timers, call stack, input
//! latches, framebuffer and font table, together with its construction and
//! the timer tick.
use vstd::prelude::*;

verus! {

pub const STACK_SIZE: usize = 16;
pub const MEMORY_SIZE: usize = 4096;
pub const FRAMEBUFFER_WIDTH: usize = 64;
pub const FRAMEBUFFER_HEIGHT: usize = 32;
pub const PROGRAM_START_ADDRESS: u16 = 512;

pub struct Hardware {
    pub memory: Vec<u8>,
    pub gen_registers: Vec<u8>,
    pub i_register: u16,
    pub sound_timer: u8,
    pub delay_timer: u8,
    pub program_counter: u16,
    pub stack: Vec<u16>,
    pub stack_pointer: usize,
    pub current_key_down: Option<u8>,
    pub key_released_since_last_instruction: Option<u8>,
    pub framebuffer: Vec<Vec<u8>>,
    pub font_addresses: Vec<u16>,
}

/// The five bytes of each hex digit's glyph, digit 0 first: 80 bytes in all.
pub open spec fn font_data() -> Seq<u8> {
    seq![
        0xf0, 0x90, 0x90, 0x90, 0xf0,
        0x20, 0x60, 0x20, 0x20, 0x70,
        0xf0, 0x10, 0xf0, 0x80, 0xf0,
        0xf0, 0x10, 0xf0, 0x10, 0xf0,
        0x90, 0x90, 0xf0, 0x10, 0x10,
        0xf0, 0x80, 0xf0, 0x10, 0xf0,
        0xf0, 0x80, 0xf0, 0x90, 0xf0,
        0xf0, 0x10, 0x20, 0x40, 0x40,
        0xf0, 0x90, 0xf0, 0x90, 0xf0,
        0xf0, 0x90, 0xf0, 0x10, 0xf0,
        0xf0, 0x90, 0xf0, 0x90, 0x90,
        0xe0, 0x90, 0xe0, 0x90, 0xe0,
        0xf0, 0x80, 0x80, 0x80, 0xf0,
        0xe0, 0x90, 0x90, 0x90, 0xe0,
        0xf0, 0x80, 0xf0, 0x80, 0xf0,
        0xf0, 0x80, 0xf0, 0x80, 0x80,
    ]
}

/// A timer value after one 60 Hz tick: counts down to zero and stays there.
pub open spec fn ticked_down(t: u8) -> u8 {
    if t > 0 {
        (t - 1) as u8
    } else {
        0
    }
}

/// The running machine's invariant, established at construction and kept
/// by every executed instruction: an even program counter inside the
/// program region, a stack pointer within its sixteen slots, and every
/// live stack slot holding an even return address in the program region.
pub open spec fn machine_invariant(hardware: Hardware) -> bool {
    &&& hardware.wf()
    &&& hardware.program_counter % 2 == 0
    &&& 512 <= hardware.program_counter < 0x1000
    &&& forall|s: int|
        0 <= s < hardware.stack_pointer ==> (#[trigger] hardware.stack@[s]) % 2 == 0 && 512
            <= hardware.stack@[s] < 0x1000
}

impl Hardware {
    /// Structural well-formedness: the fixed sizes of every component, and
    /// the stack pointer within its range.
    pub open spec fn wf(&self) -> bool {
        &&& self.memory@.len() == MEMORY_SIZE
        &&& self.gen_registers@.len() == 16
        &&& self.stack@.len() == STACK_SIZE
        &&& self.stack_pointer <= STACK_SIZE
        &&& self.framebuffer@.len() == FRAMEBUFFER_HEIGHT
        &&& forall|r: int|
            0 <= r < FRAMEBUFFER_HEIGHT ==> (#[trigger] self.framebuffer@[r])@.len()
                == FRAMEBUFFER_WIDTH / 8
        &&& self.font_addresses@.len() == 16
    }

    /// The font table as installed at construction: entry `d` holds the
    /// address of digit `d`'s glyph, and the addressed five bytes of memory
    /// hold that glyph.
    pub open spec fn font_table_loaded(&self) -> bool {
        &&& forall|d: int| 0 <= d < 16 ==> #[trigger] self.font_addresses@[d] == 5 * d
        &&& forall|d: int, k: int|
            0 <= d < 16 && 0 <= k < 5 ==> #[trigger] self.memory@[self.font_addresses@[d] + k]
                == font_data()[5 * d + k]
    }

    /// A fresh machine: zeroed memory (but for the font glyphs), registers,
    /// stack and framebuffer, no keys latched, and the program counter at the
    /// first program address.
    pub fn new() -> (hardware: Hardware)
        ensures
            hardware.wf(),
            machine_invariant(hardware),
            hardware.font_table_loaded(),
            hardware.program_counter == PROGRAM_START_ADDRESS,
            hardware.stack_pointer == 0,
            hardware.i_register == 0,
            hardware.sound_timer == 0,
            hardware.delay_timer == 0,
            hardware.current_key_down is None,
            hardware.key_released_since_last_instruction is None,
            forall|a: int| 80 <= a < MEMORY_SIZE ==> hardware.memory@[a] == 0,
            forall|x: int| 0 <= x < 16 ==> hardware.gen_registers@[x] == 0,
            forall|s: int| 0 <= s < STACK_SIZE ==> hardware.stack@[s] == 0,
            forall|r: int, c: int|
                0 <= r < FRAMEBUFFER_HEIGHT && 0 <= c < FRAMEBUFFER_WIDTH / 8
                    ==> hardware.framebuffer@[r]@[c] == 0,
    {
        let mut hardware = Hardware {
            memory: zeroed_bytes(MEMORY_SIZE),
            gen_registers: zeroed_bytes(16),
            i_register: 0,
            sound_timer: 0,
            delay_timer: 0,
            program_counter: PROGRAM_START_ADDRESS,
            stack: zeroed_words(STACK_SIZE),
            stack_pointer: 0,
            current_key_down: None,
            key_released_since_last_instruction: None,
            framebuffer: zeroed_framebuffer(),
            font_addresses: zeroed_words(16),
        };

        hardware.load_fonts();
        hardware
    }

    /// One 60 Hz tick: both timers count down toward zero.
    pub fn simulate_timer_tick(&mut self)
        ensures
            *final(self) == (Hardware {
                delay_timer: ticked_down(old(self).delay_timer),
                sound_timer: ticked_down(old(self).sound_timer),
                ..(*old(self))
            }),
    {
        self.delay_timer = if self.delay_timer > 0 {
            self.delay_timer - 1
        } else {
            0
        };
        self.sound_timer = if self.sound_timer > 0 {
            self.sound_timer - 1
        } else {
            0
        };
    }

    /// Install the sixteen five-byte font glyphs at the bottom of memory and
    /// point the font table at them.
    pub fn load_fonts(&mut self)
        requires
            old(self).wf(),
        ensures
            final(self).wf(),
            final(self).font_table_loaded(),
            forall|a: int| 80 <= a < MEMORY_SIZE ==> final(self).memory@[a] == old(self).memory@[a],
            final(self).gen_registers == old(self).gen_registers,
            final(self).i_register == old(self).i_register,
            final(self).sound_timer == old(self).sound_timer,
            final(self).delay_timer == old(self).delay_timer,
            final(self).program_counter == old(self).program_counter,
            final(self).stack == old(self).stack,
            final(self).stack_pointer == old(self).stack_pointer,
            final(self).current_key_down == old(self).current_key_down,
            final(self).key_released_since_last_instruction
                == old(self).key_released_since_last_instruction,
            final(self).framebuffer == old(self).framebuffer,
    {
        let glyphs: Vec<u8> = vec![
            0xf0, 0x90, 0x90, 0x90, 0xf0,
            0x20, 0x60, 0x20, 0x20, 0x70,
            0xf0, 0x10, 0xf0, 0x80, 0xf0,
            0xf0, 0x10, 0xf0, 0x10, 0xf0,
            0x90, 0x90, 0xf0, 0x10, 0x10,
            0xf0, 0x80, 0xf0, 0x10, 0xf0,
            0xf0, 0x80, 0xf0, 0x90, 0xf0,
            0xf0, 0x10, 0x20, 0x40, 0x40,
            0xf0, 0x90, 0xf0, 0x90, 0xf0,
            0xf0, 0x90, 0xf0, 0x10, 0xf0,
            0xf0, 0x90, 0xf0, 0x90, 0x90,
            0xe0, 0x90, 0xe0, 0x90, 0xe0,
            0xf0, 0x80, 0x80, 0x80, 0xf0,
            0xe0, 0x90, 0x90, 0x90, 0xe0,
            0xf0, 0x80, 0xf0, 0x80, 0xf0,
            0xf0, 0x80, 0xf0, 0x80, 0x80,
        ];
        proof {
            assert(glyphs@ =~= font_data());
        }

        let mut digit: usize = 0;
        while digit < 16
            invariant
                digit <= 16,
                self.font_addresses@.len() == 16,
                forall|d: int| 0 <= d < digit ==> #[trigger] self.font_addresses@[d] == 5 * d,
                *self == (Hardware { font_addresses: self.font_addresses, ..(*old(self)) }),
            decreases 16 - digit,
        {
            self.font_addresses[digit] = (digit as u16) * 5;
            digit = digit + 1;
        }

        let mut k: usize = 0;
        while k < 80
            invariant
                k <= 80,
                self.memory@.len() == MEMORY_SIZE,
                glyphs@ == font_data(),
                glyphs@.len() == 80,
                forall|a: int| 0 <= a < k ==> #[trigger] self.memory@[a] == font_data()[a],
                forall|a: int| k <= a < MEMORY_SIZE ==> self.memory@[a] == old(self).memory@[a],
                forall|d: int| 0 <= d < 16 ==> #[trigger] self.font_addresses@[d] == 5 * d,
                self.font_addresses@.len() == 16,
                *self == (Hardware { font_addresses: self.font_addresses, memory: self.memory, ..(*old(self)) }),
            decreases 80 - k,
        {
            self.memory[k] = glyphs[k];
            k = k + 1;
        }
    }

    /// The two instruction bytes that the program counter addresses.
    pub fn get_current_instruction_bytes(&self) -> (bytes: (u8, u8))
        requires
            self.wf(),
            self.program_counter + 1 < MEMORY_SIZE,
        ensures
            bytes.0 == self.memory@[self.program_counter as int],
            bytes.1 == self.memory@[self.program_counter as int + 1],
    {
        (
            self.memory[self.program_counter as usize],
            self.memory[self.program_counter as usize + 1],
        )
    }
}

/// A vector of `n` zero bytes.
fn zeroed_bytes(n: usize) -> (v: Vec<u8>)
    ensures
        v@.len() == n,
        forall|i: int| 0 <= i < n ==> v@[i] == 0,
{
    let mut v: Vec<u8> = Vec::new();
    let mut i: usize = 0;
    while i < n
        invariant
            i <= n,
            v@.len() == i,
            forall|k: int| 0 <= k < i ==> v@[k] == 0,
        decreases n - i,
    {
        v.push(0);
        i = i + 1;
    }
    v
}

/// A vector of `n` zero 16-bit words.
fn zeroed_words(n: usize) -> (v: Vec<u16>)
    ensures
        v@.len() == n,
        forall|i: int| 0 <= i < n ==> v@[i] == 0,
{
    let mut v: Vec<u16> = Vec::new();
    let mut i: usize = 0;
    while i < n
        invariant
            i <= n,
            v@.len() == i,
            forall|k: int| 0 <= k < i ==> v@[k] == 0,
        decreases n - i,
    {
        v.push(0);
        i = i + 1;
    }
    v
}

/// A cleared framebuffer: 32 rows of 8 zero bytes.
pub fn zeroed_framebuffer() -> (fb: Vec<Vec<u8>>)
    ensures
        fb@.len() == FRAMEBUFFER_HEIGHT,
        forall|r: int|
            0 <= r < FRAMEBUFFER_HEIGHT ==> (#[trigger] fb@[r])@.len() == FRAMEBUFFER_WIDTH / 8,
        forall|r: int, c: int|
            0 <= r < FRAMEBUFFER_HEIGHT && 0 <= c < FRAMEBUFFER_WIDTH / 8 ==> fb@[r]@[c] == 0,
{
    let mut fb: Vec<Vec<u8>> = Vec::new();
    let mut r: usize = 0;
    while r < FRAMEBUFFER_HEIGHT
        invariant
            r <= FRAMEBUFFER_HEIGHT,
            fb@.len() == r,
            forall|i: int| 0 <= i < r ==> (#[trigger] fb@[i])@.len() == FRAMEBUFFER_WIDTH / 8,
            forall|i: int, c: int|
                0 <= i < r && 0 <= c < FRAMEBUFFER_WIDTH / 8 ==> fb@[i]@[c] == 0,
        decreases FRAMEBUFFER_HEIGHT - r,
    {
        fb.push(zeroed_bytes(FRAMEBUFFER_WIDTH / 8));
        r = r + 1;
    }
    fb
}

} // verus!
