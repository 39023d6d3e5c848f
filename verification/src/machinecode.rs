//! Bit-field extraction from instruction bytes.
//!
//! Every instruction starts with a byte whose most significant bits hold the
//! opcode field and whose least significant bits select a register. The
//! helpers here expose those fields: the opcode and the two nibbles as strings
//! of `'0'`/`'1'` characters (most significant bit first), and the register
//! field through the fixed register table.
use crate::Register;
use crate::reg_of;
use vstd::prelude::*;

verus! {

/// Character for one bit of `b`: `'1'` when bit `i` is set, else `'0'`.
pub open spec fn bit_char(b: u8, i: u32) -> char {
    if b & (1u8 << i) != 0 {
        '1'
    } else {
        '0'
    }
}

/// The five most significant bits of `b`, most significant first.
pub open spec fn opcode_bits(b: u8) -> Seq<char> {
    seq![bit_char(b, 7), bit_char(b, 6), bit_char(b, 5), bit_char(b, 4), bit_char(b, 3)]
}

/// The high nibble of `b`, most significant bit first.
pub open spec fn fronthalf_bits(b: u8) -> Seq<char> {
    seq![bit_char(b, 7), bit_char(b, 6), bit_char(b, 5), bit_char(b, 4)]
}

/// The low nibble of `b`, most significant bit first.
pub open spec fn backhalf_bits(b: u8) -> Seq<char> {
    seq![bit_char(b, 3), bit_char(b, 2), bit_char(b, 1), bit_char(b, 0)]
}

/// Relies on `String::push`: appends the given character to the end of the
/// string.
#[verifier::external_body]
fn push_char(s: &mut String, c: char)
    ensures
        final(s)@ == old(s)@.push(c),
{
    s.push(c)
}

/// Appends `'1'` or `'0'` according to bit `i` of `b`.
fn push_bit(s: &mut String, b: u8, i: u32)
    requires
        i < 8,
    ensures
        final(s)@ == old(s)@.push(bit_char(b, i)),
{
    if b & (1u8 << i) != 0 {
        push_char(s, '1');
    } else {
        push_char(s, '0');
    }
}

/// The opcode field of an instruction's first byte, as a five-character
/// binary string, most significant bit first.
pub fn get_opcode(byte: &u8) -> (s: String)
    ensures
        s@ == opcode_bits(*byte),
{
    let mut s = String::new();
    push_bit(&mut s, *byte, 7);
    push_bit(&mut s, *byte, 6);
    push_bit(&mut s, *byte, 5);
    push_bit(&mut s, *byte, 4);
    push_bit(&mut s, *byte, 3);
    proof {
        assert(s@ =~= opcode_bits(*byte));
    }
    s
}

/// The register selected by the low three bits of `byte`, via the fixed
/// register table (unmapped values fall back to the first general register).
pub fn get_register(byte: &u8) -> (r: Register)
    ensures
        r == reg_of(*byte & 7),
{
    let n = *byte & 7;
    if n == 0 {
        Register::A
    } else if n == 1 {
        Register::B
    } else if n == 2 {
        Register::C
    } else if n == 3 {
        Register::D
    } else if n == 4 {
        Register::E
    } else if n == 5 {
        Register::F
    } else if n == 6 {
        Register::IP
    } else {
        Register::A
    }
}

/// The high nibble of a byte as a four-character binary string, most
/// significant bit first.
pub fn get_fronthalf(byte: &u8) -> (s: String)
    ensures
        s@ == fronthalf_bits(*byte),
{
    let mut s = String::new();
    push_bit(&mut s, *byte, 7);
    push_bit(&mut s, *byte, 6);
    push_bit(&mut s, *byte, 5);
    push_bit(&mut s, *byte, 4);
    proof {
        assert(s@ =~= fronthalf_bits(*byte));
    }
    s
}

/// The low nibble of a byte as a four-character binary string, most
/// significant bit first.
pub fn get_backhalf(byte: &u8) -> (s: String)
    ensures
        s@ == backhalf_bits(*byte),
{
    let mut s = String::new();
    push_bit(&mut s, *byte, 3);
    push_bit(&mut s, *byte, 2);
    push_bit(&mut s, *byte, 1);
    push_bit(&mut s, *byte, 0);
    proof {
        assert(s@ =~= backhalf_bits(*byte));
    }
    s
}

} // verus!
