//! The laws that tie the components together: the decoder/serializer
//! round trips, the algebra of calls and returns, display clearing and
//! sprite drawing, and the machine invariant that execution maintains.
use vstd::prelude::*;

use crate::execution::{
    call_post, clear_display_post, execute_post, instruction_fault, return_post,
};
use crate::hardware::{machine_invariant, Hardware, FRAMEBUFFER_HEIGHT, FRAMEBUFFER_WIDTH};
use crate::parser::spec_decode;
use crate::serializer::{spec_serialize, SerializationError};
use crate::{instruction_wf, Instruction, Register};
use vstd::arithmetic::div_mod::{lemma_fundamental_div_mod, lemma_fundamental_div_mod_converse};

verus! {

/// Whether a two-byte word is the canonical encoding of the instruction
/// it decodes to. Two opcode families decode more words than the
/// serializer emits: the shift patterns ignore their middle nibble, and a
/// reverse subtraction between one and the same register re-encodes as
/// the plain subtraction.
pub open spec fn has_canonical_encoding(byte1: u8, byte2: u8) -> bool {
    let value1 = byte1 / 16;
    let value2 = byte1 % 16;
    let value3 = byte2 / 16;
    let value4 = byte2 % 16;
    &&& (value1 == 0x8 && (value4 == 0x6 || value4 == 0xe)) ==> value3 == 0
    &&& (value1 == 0x8 && value4 == 0x7) ==> value2 != value3
}

/// Every decoded instruction is well-formed: its register numbers are
/// nibbles, its addresses fit in twelve bits, and its sprite height is a
/// nibble.
pub proof fn lemma_decoded_instruction_wf(byte1: u8, byte2: u8)
    ensures
        instruction_wf(spec_decode(byte1, byte2)),
{
}

/// Decoding and re-serializing returns the original word, for every word
/// that decodes to a known instruction through its canonical encoding.
pub proof fn lemma_serialize_decode_round_trip(byte1: u8, byte2: u8)
    requires
        !(spec_decode(byte1, byte2) is Unknown),
        has_canonical_encoding(byte1, byte2),
    ensures
        spec_serialize(spec_decode(byte1, byte2)) == Ok::<(u8, u8), SerializationError>(
            (byte1, byte2),
        ),
{
    lemma_fundamental_div_mod(byte1 as int, 16);
    lemma_fundamental_div_mod(byte2 as int, 16);
    let value2 = byte1 % 16;
    let address = value2 * 256 + byte2;
    lemma_fundamental_div_mod_converse(address as int, 256, value2 as int, byte2 as int);
}

/// Decoding and re-serializing a word that decodes to `Unknown` returns
/// the original word: `Unknown` preserves its bytes exactly.
pub proof fn lemma_unknown_round_trip(byte1: u8, byte2: u8)
    requires
        spec_decode(byte1, byte2) is Unknown,
    ensures
        spec_decode(byte1, byte2)->bytes == byte1 * 256 + byte2,
        spec_serialize(spec_decode(byte1, byte2)) == Ok::<(u8, u8), SerializationError>(
            (byte1, byte2),
        ),
{
    let bytes = spec_decode(byte1, byte2)->bytes;
    lemma_fundamental_div_mod_converse(bytes as int, 256, byte1 as int, byte2 as int);
}

/// Clearing an already cleared display changes nothing: after the second
/// clear the framebuffer holds exactly the bytes the first clear left.
pub proof fn lemma_clear_display_idempotent(pre: Hardware, mid: Hardware, post: Hardware)
    requires
        pre.wf(),
        clear_display_post(pre, mid),
        clear_display_post(mid, post),
    ensures
        forall|r: int|
            0 <= r < FRAMEBUFFER_HEIGHT ==> #[trigger] post.framebuffer@[r]@
                == mid.framebuffer@[r]@,
        post.gen_registers@ == mid.gen_registers@,
        post.memory@ == mid.memory@,
        post.stack@ == mid.stack@,
        post.stack_pointer == mid.stack_pointer,
        post.i_register == mid.i_register,
{
    assert forall|r: int|
        0 <= r < FRAMEBUFFER_HEIGHT implies #[trigger] post.framebuffer@[r]@
        == mid.framebuffer@[r]@ by {
        assert(post.framebuffer@[r]@ =~= mid.framebuffer@[r]@);
    }
}

/// Two calls followed by two returns land back on the original program
/// counter with the original stack depth.
pub proof fn lemma_calls_then_returns_restore(
    s0: Hardware,
    s1: Hardware,
    s2: Hardware,
    s3: Hardware,
    s4: Hardware,
    address1: u16,
    address2: u16,
)
    requires
        s0.wf(),
        call_post(s0, s1, address1),
        call_post(s1, s2, address2),
        return_post(s2, s3),
        return_post(s3, s4),
    ensures
        s4.program_counter == s0.program_counter,
        s4.stack_pointer == s0.stack_pointer,
{
}

/// XOR with the same bits twice restores a byte.
proof fn lemma_u8_xor_twice(a: u8, b: u8)
    by (bit_vector)
    ensures
        a ^ b ^ b == a,
{
}

/// XOR onto a byte that shares no set bit leaves the written bits intact.
proof fn lemma_bits_survive_xor(a: u8, b: u8)
    by (bit_vector)
    requires
        a & b == 0,
    ensures
        (a ^ b) & b == b,
{
}

/// A zero shift moves nothing.
proof fn lemma_shift_by_zero(s: u8)
    by (bit_vector)
    ensures
        s >> 0u8 == s,
{
}

/// Splitting a nonzero byte at any position leaves set bits in at least
/// one half.
proof fn lemma_split_keeps_some_bit(s: u8, shift: u8)
    by (bit_vector)
    requires
        0 < shift < 8,
        s != 0,
    ensures
        (s >> shift) != 0 || (s << ((8 - shift) as u8)) != 0,
{
}

/// Drawing the same sprite at the same place twice restores the
/// framebuffer to its pre-draw contents: XOR is an involution. The
/// coordinate registers must not be `VF`, which the first draw clobbers.
pub proof fn lemma_draw_twice_restores_framebuffer(
    pre: Hardware,
    mid: Hardware,
    post: Hardware,
    x_reg: u8,
    y_reg: u8,
    height: u8,
)
    requires
        pre.wf(),
        x_reg < 16,
        y_reg < 16,
        x_reg != 15,
        y_reg != 15,
        height < 16,
        crate::execution::draw_sprite_post(pre, mid, x_reg, y_reg, height),
        crate::execution::draw_sprite_post(mid, post, x_reg, y_reg, height),
    ensures
        forall|rr: int|
            0 <= rr < FRAMEBUFFER_HEIGHT ==> #[trigger] post.framebuffer@[rr]@
                == pre.framebuffer@[rr]@,
{
    let vx = pre.gen_registers@[x_reg as int];
    let vy = pre.gen_registers@[y_reg as int];
    assert(mid.gen_registers@[x_reg as int] == vx);
    assert(mid.gen_registers@[y_reg as int] == vy);
    let shift = vx % 8;
    let left_col = ((vx % 64) / 8) as int;
    let right_col = (left_col + 1) % 8;
    assert forall|rr: int|
        0 <= rr < FRAMEBUFFER_HEIGHT implies #[trigger] post.framebuffer@[rr]@
        == pre.framebuffer@[rr]@ by {
        if crate::execution::sprite_touches_row(vy, height as int, rr) {
            let r = choose|r: int| 0 <= r < height && #[trigger] ((vy + r) % 32) == rr;
            assert(crate::execution::sprite_row_updated(pre, mid, vx, vy, r));
            assert(crate::execution::sprite_row_updated(mid, post, vx, vy, r));
            let sprite_byte = pre.memory@[pre.i_register + r];
            assert(mid.memory@[mid.i_register + r] == sprite_byte);
            lemma_u8_xor_twice(pre.framebuffer@[rr]@[left_col], sprite_byte >> shift);
            lemma_u8_xor_twice(
                pre.framebuffer@[rr]@[right_col],
                crate::execution::right_bits(sprite_byte, shift),
            );
            assert(post.framebuffer@[rr]@ =~= pre.framebuffer@[rr]@);
        } else {
            assert(mid.framebuffer@[rr] == pre.framebuffer@[rr]);
            assert(post.framebuffer@[rr] == mid.framebuffer@[rr]);
        }
    }
}

/// Drawing a sprite with at least one set bit twice onto a board that
/// had no lit pixel under it reports no collision the first time and a
/// collision the second time: `VF` is set exactly once, on the second
/// draw.
pub proof fn lemma_draw_twice_sets_collision_once(
    pre: Hardware,
    mid: Hardware,
    post: Hardware,
    x_reg: u8,
    y_reg: u8,
    height: u8,
)
    requires
        pre.wf(),
        x_reg < 16,
        y_reg < 16,
        x_reg != 15,
        y_reg != 15,
        height < 16,
        crate::execution::draw_sprite_post(pre, mid, x_reg, y_reg, height),
        crate::execution::draw_sprite_post(mid, post, x_reg, y_reg, height),
        forall|r: int|
            0 <= r < height ==> !#[trigger] crate::execution::sprite_row_collides(
                pre,
                pre.gen_registers@[x_reg as int],
                pre.gen_registers@[y_reg as int],
                r,
            ),
        exists|r: int| 0 <= r < height && #[trigger] pre.memory@[pre.i_register + r] != 0,
    ensures
        mid.gen_registers@[15] == 0,
        post.gen_registers@[15] == 1,
{
    let vx = pre.gen_registers@[x_reg as int];
    let vy = pre.gen_registers@[y_reg as int];
    assert(mid.gen_registers@[x_reg as int] == vx);
    assert(mid.gen_registers@[y_reg as int] == vy);
    let shift = vx % 8;
    let r0 = choose|r: int| 0 <= r < height && #[trigger] pre.memory@[pre.i_register + r] != 0;
    let sprite_byte = pre.memory@[pre.i_register + r0];
    assert(mid.memory@[mid.i_register + r0] == sprite_byte);
    assert(crate::execution::sprite_row_updated(pre, mid, vx, vy, r0));
    assert(!crate::execution::sprite_row_collides(pre, vx, vy, r0));
    let rr = (vy + r0) % 32;
    vstd::arithmetic::div_mod::lemma_mod_bound(vy + r0, 32);
    if shift == 0 {
        lemma_shift_by_zero(sprite_byte);
        lemma_bits_survive_xor(pre.framebuffer@[rr]@[((vx % 64) / 8) as int], sprite_byte >> shift);
    } else {
        lemma_split_keeps_some_bit(sprite_byte, shift);
        lemma_bits_survive_xor(pre.framebuffer@[rr]@[((vx % 64) / 8) as int], sprite_byte >> shift);
        lemma_bits_survive_xor(
            pre.framebuffer@[rr]@[((((vx % 64) / 8) as int) + 1) % 8],
            crate::execution::right_bits(sprite_byte, shift),
        );
    }
    assert(crate::execution::sprite_row_collides(mid, vx, vy, r0));
}

/// A successfully executed instruction keeps the machine invariant: the
/// program counter stays even and inside the program region, and the
/// stack stays within its slots with valid return addresses. The program
/// counter must sit far enough from the top of memory for a taken skip
/// to stay inside, and a call target must lie in the program region (the
/// executor checks a call's parity but not its range).
pub proof fn lemma_execute_preserves_machine_invariant(
    instruction: Instruction,
    pre: Hardware,
    post: Hardware,
)
    requires
        machine_invariant(pre),
        pre.program_counter + 4 < 0x1000,
        crate::execution::execution_preconditions(instruction, pre),
        instruction_wf(instruction),
        (instruction matches Instruction::Call { address } ==> address >= 512),
        instruction_fault(instruction, pre) is None,
        execute_post(instruction, pre, post),
    ensures
        machine_invariant(post),
{
    match instruction {
        Instruction::DrawSprite { x_register, y_register, height } => {
            match (x_register, y_register) {
                (Register::General(x), Register::General(y)) => {
                    let vx = pre.gen_registers@[x as int];
                    let vy = pre.gen_registers@[y as int];
                    assert forall|rr: int|
                        0 <= rr < FRAMEBUFFER_HEIGHT implies (#[trigger] post.framebuffer@[rr])@.len()
                        == FRAMEBUFFER_WIDTH / 8 by {
                        if crate::execution::sprite_touches_row(vy, height as int, rr) {
                            let r = choose|r: int|
                                0 <= r < height && #[trigger] ((vy + r) % 32) == rr;
                            assert(crate::execution::sprite_row_updated(pre, post, vx, vy, r));
                        }
                    }
                },
                _ => {},
            }
        },
        Instruction::SetRandom { register, and_value } => {
            match register {
                Register::General(x) => {
                    let drawn = choose|drawn: u8|
                        crate::execution::register_write_post(
                            pre,
                            post,
                            #[trigger] pre.gen_registers@.update(x as int, drawn & and_value),
                        );
                    assert(crate::execution::register_write_post(
                        pre,
                        post,
                        pre.gen_registers@.update(x as int, drawn & and_value),
                    ));
                },
                _ => {},
            }
        },
        _ => {},
    }
}

} // verus!
