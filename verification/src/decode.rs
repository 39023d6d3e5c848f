//! Instruction decoding and encoding.
//!
//! Every instruction starts with a byte holding the opcode field in its most
//! significant bits and the first register operand in its least significant
//! bits. Two sibling encodings exist and are selected by [`Scheme`]: one with
//! a five-bit opcode over a three-bit register field, and an older one with a
//! four-bit opcode over a four-bit register field. Depending on the opcode the
//! instruction is one byte (no further operand), two bytes (a second register
//! in the next byte's low bits), or five bytes (a 32-bit little-endian
//! immediate in the next four bytes).
use crate::Fault;
use crate::Instruction;
use crate::Register;
use crate::reg_num;
use crate::reg_of;
use vstd::bytes::lemma_auto_spec_u32_to_from_le_bytes;
use vstd::bytes::spec_u32_from_le_bytes;
use vstd::bytes::spec_u32_to_le_bytes;
use vstd::bytes::u32_from_le_bytes;
use vstd::bytes::u32_to_le_bytes;
use vstd::prelude::*;

verus! {

/// Selects one of the two binary encodings.
#[derive(Clone, Copy, Debug, PartialEq, Eq, Structural)]
pub enum Scheme {
    /// Five-bit opcode field over a three-bit register field.
    FiveBit,
    /// Four-bit opcode field over a four-bit register field.
    FourBit,
}

/// Opcode field of an instruction's first byte.
pub open spec fn op_field(b: u8, s: Scheme) -> u8 {
    match s {
        Scheme::FiveBit => b >> 3,
        Scheme::FourBit => b >> 4,
    }
}

/// Register field of an instruction's first byte: its low bits, as many as
/// the scheme's opcode field leaves.
pub open spec fn reg_field(b: u8, s: Scheme) -> u8 {
    match s {
        Scheme::FiveBit => b & 7,
        Scheme::FourBit => b & 15,
    }
}

/// Register field of the second byte of a two-register instruction: its low
/// nibble, in both schemes.
pub open spec fn reg2_field(b: u8) -> u8 {
    b & 15
}

/// Encoded length in bytes of the instruction an opcode introduces, or 0 when
/// the opcode has no table entry in the scheme.
pub open spec fn op_len(op: u8, s: Scheme) -> int {
    match s {
        Scheme::FiveBit => if op == 0 || op == 2 || op == 3 || op == 5 || op == 7 || op == 9
            || op == 14 || op == 16 {
            5
        } else if op == 1 || op == 4 || op == 6 || op == 8 || op == 10 {
            2
        } else if op == 13 || op == 15 {
            1
        } else {
            0
        },
        Scheme::FourBit => if op == 0 || op == 3 || op == 5 || op == 7 || op == 9 || op == 12
            || op == 13 {
            5
        } else if op == 1 || op == 4 || op == 6 || op == 8 || op == 10 {
            2
        } else if op == 2 || op == 11 {
            1
        } else {
            0
        },
    }
}

/// Instruction built from an immediate-form opcode (length 5).
pub open spec fn imm_instr(op: u8, s: Scheme, r: Register, val: u32) -> Instruction
    recommends
        op_len(op, s) == 5,
{
    match s {
        Scheme::FiveBit => if op == 0 {
            Instruction::MOVD(r, val)
        } else if op == 2 {
            Instruction::JEQ(r, val)
        } else if op == 3 {
            Instruction::ADDD(r, val)
        } else if op == 5 {
            Instruction::SUBD(r, val)
        } else if op == 7 {
            Instruction::ANDD(r, val)
        } else if op == 9 {
            Instruction::ORD(r, val)
        } else if op == 14 {
            Instruction::LOD(r, val)
        } else {
            Instruction::JLT(r, val)
        },
        Scheme::FourBit => if op == 0 {
            Instruction::MOVD(r, val)
        } else if op == 3 {
            Instruction::ADDD(r, val)
        } else if op == 5 {
            Instruction::SUBD(r, val)
        } else if op == 7 {
            Instruction::ANDD(r, val)
        } else if op == 9 {
            Instruction::ORD(r, val)
        } else if op == 12 {
            Instruction::LOD(r, val)
        } else {
            Instruction::SETD(r, val)
        },
    }
}

/// Instruction built from a two-register opcode (length 2). The register
/// opcodes coincide in the two schemes.
pub open spec fn reg_instr(op: u8, r: Register, r2: Register) -> Instruction
    recommends
        op == 1 || op == 4 || op == 6 || op == 8 || op == 10,
{
    if op == 1 {
        Instruction::MOVR(r, r2)
    } else if op == 4 {
        Instruction::ADDR(r, r2)
    } else if op == 6 {
        Instruction::SUBR(r, r2)
    } else if op == 8 {
        Instruction::ANDR(r, r2)
    } else {
        Instruction::ORR(r, r2)
    }
}

/// Instruction built from a single-byte opcode (length 1).
pub open spec fn un_instr(op: u8, s: Scheme, r: Register) -> Instruction
    recommends
        op_len(op, s) == 1,
{
    match s {
        Scheme::FiveBit => if op == 13 {
            Instruction::NOT(r)
        } else {
            Instruction::SET(r)
        },
        Scheme::FourBit => if op == 2 {
            Instruction::JEZ(r)
        } else {
            Instruction::NOT(r)
        },
    }
}

/// The decoder's full behaviour: the instruction found in `mem` at `off`
/// under scheme `s` together with its encoded length, or the fault met.
/// An opcode with no table entry is an `InvalidOpcode` fault; an offset or a
/// multi-byte operand past the end of `mem` is a `TruncatedOperand` fault.
pub open spec fn spec_decode(mem: Seq<u8>, off: int, s: Scheme) -> Result<(Instruction, u32), Fault> {
    if !(0 <= off < mem.len()) {
        Err(Fault::TruncatedOperand)
    } else {
        let b = mem[off];
        let op = op_field(b, s);
        let r = reg_of(reg_field(b, s));
        let len = op_len(op, s);
        if len == 0 {
            Err(Fault::InvalidOpcode)
        } else if off + len > mem.len() {
            Err(Fault::TruncatedOperand)
        } else if len == 5 {
            Ok((imm_instr(op, s, r, spec_u32_from_le_bytes(mem.subrange(off + 1, off + 5))), 5))
        } else if len == 2 {
            Ok((reg_instr(op, r, reg_of(reg2_field(mem[off + 1]))), 2))
        } else {
            Ok((un_instr(op, s, r), 1))
        }
    }
}

/// Register selected by a register-field value, executable counterpart of
/// [`reg_of`].
fn register_of(n: u8) -> (r: Register)
    ensures
        r == reg_of(n),
{
    if n == 0 {
        Register::A
    } else if n == 1 {
        Register::B
    } else if n == 2 {
        Register::C
    } else if n == 3 {
        Register::D
    } else if n == 4 {
        Register::E
    } else if n == 5 {
        Register::F
    } else if n == 6 {
        Register::IP
    } else {
        Register::A
    }
}

/// Number under which a register is encoded, executable counterpart of
/// [`reg_num`].
fn register_num(r: Register) -> (n: u8)
    ensures
        n == reg_num(r),
{
    match r {
        Register::A => 0,
        Register::B => 1,
        Register::C => 2,
        Register::D => 3,
        Register::E => 4,
        Register::F => 5,
        Register::IP => 6,
    }
}

/// Encoded length the opcode's table entry gives, executable counterpart of
/// [`op_len`].
fn exec_op_len(op: u8, s: Scheme) -> (l: usize)
    ensures
        l == op_len(op, s),
{
    match s {
        Scheme::FiveBit => if op == 0 || op == 2 || op == 3 || op == 5 || op == 7 || op == 9
            || op == 14 || op == 16 {
            5
        } else if op == 1 || op == 4 || op == 6 || op == 8 || op == 10 {
            2
        } else if op == 13 || op == 15 {
            1
        } else {
            0
        },
        Scheme::FourBit => if op == 0 || op == 3 || op == 5 || op == 7 || op == 9 || op == 12
            || op == 13 {
            5
        } else if op == 1 || op == 4 || op == 6 || op == 8 || op == 10 {
            2
        } else if op == 2 || op == 11 {
            1
        } else {
            0
        },
    }
}

impl Instruction {
    /// Decode the instruction at `index` in `bytes` under scheme `scheme`,
    /// returning it with its encoded byte length, or the fault met. Decoding
    /// never panics and never reads a byte outside
    /// `bytes[index .. index + length]`.
    pub fn from_bytes(bytes: &Vec<u8>, index: usize, scheme: Scheme) -> (r: Result<
        (Instruction, u32),
        Fault,
    >)
        ensures
            r == spec_decode(bytes@, index as int, scheme),
    {
        if index >= bytes.len() {
            return Err(Fault::TruncatedOperand);
        }
        let b = bytes[index];
        let op: u8 = match scheme {
            Scheme::FiveBit => b >> 3,
            Scheme::FourBit => b >> 4,
        };
        let rf: u8 = match scheme {
            Scheme::FiveBit => b & 7,
            Scheme::FourBit => b & 15,
        };
        let r1 = register_of(rf);
        let len = exec_op_len(op, scheme);
        if len == 0 {
            return Err(Fault::InvalidOpcode);
        }
        if len > bytes.len() - index {
            return Err(Fault::TruncatedOperand);
        }
        if len == 5 {
            let mut operand: Vec<u8> = Vec::new();
            operand.push(bytes[index + 1]);
            operand.push(bytes[index + 2]);
            operand.push(bytes[index + 3]);
            operand.push(bytes[index + 4]);
            proof {
                assert(operand@ =~= bytes@.subrange(index + 1, index + 5));
            }
            let val = u32_from_le_bytes(operand.as_slice());
            Ok((imm_instr_exec(op, scheme, r1, val), 5))
        } else if len == 2 {
            let r2 = register_of(bytes[index + 1] & 15);
            Ok((reg_instr_exec(op, r1, r2), 2))
        } else {
            Ok((un_instr_exec(op, scheme, r1), 1))
        }
    }
}

/// Whether the scheme's opcode table has an entry for the instruction.
/// The flag-register-relative jumps and the flag-addressed store belong to
/// the five-bit encoding; the zero-test jump and the immediate-addressed
/// store to the four-bit one; all other operations to both.
pub open spec fn scheme_supports(s: Scheme, i: Instruction) -> bool {
    match i {
        Instruction::JEQ(_, _) => s is FiveBit,
        Instruction::JLT(_, _) => s is FiveBit,
        Instruction::SET(_) => s is FiveBit,
        Instruction::JEZ(_) => s is FourBit,
        Instruction::SETD(_, _) => s is FourBit,
        _ => true,
    }
}

/// Opcode under which the instruction is encoded in the scheme.
pub open spec fn opcode_of(i: Instruction, s: Scheme) -> u8
    recommends
        scheme_supports(s, i),
{
    match i {
        Instruction::MOVD(_, _) => 0,
        Instruction::MOVR(_, _) => 1,
        Instruction::JEQ(_, _) => 2,
        Instruction::JLT(_, _) => 16,
        Instruction::JEZ(_) => 2,
        Instruction::ADDD(_, _) => 3,
        Instruction::ADDR(_, _) => 4,
        Instruction::SUBD(_, _) => 5,
        Instruction::SUBR(_, _) => 6,
        Instruction::ANDD(_, _) => 7,
        Instruction::ANDR(_, _) => 8,
        Instruction::ORD(_, _) => 9,
        Instruction::ORR(_, _) => 10,
        Instruction::NOT(_) => if s is FiveBit {
            13
        } else {
            11
        },
        Instruction::LOD(_, _) => if s is FiveBit {
            14
        } else {
            12
        },
        Instruction::SET(_) => 15,
        Instruction::SETD(_, _) => 13,
    }
}

/// First byte of an encoded instruction: the opcode field over the first
/// register operand's number.
pub open spec fn pack_byte(op: u8, s: Scheme, r: Register) -> u8 {
    match s {
        Scheme::FiveBit => (op << 3) | reg_num(r),
        Scheme::FourBit => (op << 4) | reg_num(r),
    }
}

/// The bytes that encode the instruction under the scheme.
pub open spec fn spec_encode(i: Instruction, s: Scheme) -> Seq<u8>
    recommends
        scheme_supports(s, i),
{
    let op = opcode_of(i, s);
    match i {
        Instruction::MOVD(r, v) => seq![pack_byte(op, s, r)] + spec_u32_to_le_bytes(v),
        Instruction::MOVR(r, r2) => seq![pack_byte(op, s, r), reg_num(r2)],
        Instruction::JEQ(r, v) => seq![pack_byte(op, s, r)] + spec_u32_to_le_bytes(v),
        Instruction::JLT(r, v) => seq![pack_byte(op, s, r)] + spec_u32_to_le_bytes(v),
        Instruction::JEZ(r) => seq![pack_byte(op, s, r)],
        Instruction::ADDD(r, v) => seq![pack_byte(op, s, r)] + spec_u32_to_le_bytes(v),
        Instruction::ADDR(r, r2) => seq![pack_byte(op, s, r), reg_num(r2)],
        Instruction::SUBD(r, v) => seq![pack_byte(op, s, r)] + spec_u32_to_le_bytes(v),
        Instruction::SUBR(r, r2) => seq![pack_byte(op, s, r), reg_num(r2)],
        Instruction::ANDD(r, v) => seq![pack_byte(op, s, r)] + spec_u32_to_le_bytes(v),
        Instruction::ANDR(r, r2) => seq![pack_byte(op, s, r), reg_num(r2)],
        Instruction::ORD(r, v) => seq![pack_byte(op, s, r)] + spec_u32_to_le_bytes(v),
        Instruction::ORR(r, r2) => seq![pack_byte(op, s, r), reg_num(r2)],
        Instruction::NOT(r) => seq![pack_byte(op, s, r)],
        Instruction::LOD(r, v) => seq![pack_byte(op, s, r)] + spec_u32_to_le_bytes(v),
        Instruction::SET(r) => seq![pack_byte(op, s, r)],
        Instruction::SETD(r, v) => seq![pack_byte(op, s, r)] + spec_u32_to_le_bytes(v),
    }
}

/// Executable counterpart of [`pack_byte`].
fn pack_byte_exec(op: u8, s: Scheme, r: Register) -> (b: u8)
    requires
        op <= 16,
    ensures
        b == pack_byte(op, s, r),
{
    let n = register_num(r);
    match s {
        Scheme::FiveBit => (op << 3u8) | n,
        Scheme::FourBit => (op << 4u8) | n,
    }
}

impl Instruction {
    /// Encode the instruction under the scheme, or `None` when the scheme's
    /// opcode table has no entry for it.
    pub fn encode(&self, scheme: Scheme) -> (r: Option<Vec<u8>>)
        ensures
            match r {
                Some(v) => scheme_supports(scheme, *self) && v@ == spec_encode(*self, scheme),
                None => !scheme_supports(scheme, *self),
            },
    {
        match *self {
            Instruction::JEQ(_, _) | Instruction::JLT(_, _) | Instruction::SET(_) => {
                if let Scheme::FourBit = scheme {
                    return None;
                }
            },
            Instruction::JEZ(_) | Instruction::SETD(_, _) => {
                if let Scheme::FiveBit = scheme {
                    return None;
                }
            },
            _ => {},
        }
        let op = opcode_of_exec(*self, scheme);
        let out = match *self {
            Instruction::MOVD(r, v) => imm_encode(op, scheme, r, v),
            Instruction::MOVR(r, r2) => reg_encode(op, scheme, r, r2),
            Instruction::JEQ(r, v) => imm_encode(op, scheme, r, v),
            Instruction::JLT(r, v) => imm_encode(op, scheme, r, v),
            Instruction::JEZ(r) => un_encode(op, scheme, r),
            Instruction::ADDD(r, v) => imm_encode(op, scheme, r, v),
            Instruction::ADDR(r, r2) => reg_encode(op, scheme, r, r2),
            Instruction::SUBD(r, v) => imm_encode(op, scheme, r, v),
            Instruction::SUBR(r, r2) => reg_encode(op, scheme, r, r2),
            Instruction::ANDD(r, v) => imm_encode(op, scheme, r, v),
            Instruction::ANDR(r, r2) => reg_encode(op, scheme, r, r2),
            Instruction::ORD(r, v) => imm_encode(op, scheme, r, v),
            Instruction::ORR(r, r2) => reg_encode(op, scheme, r, r2),
            Instruction::NOT(r) => un_encode(op, scheme, r),
            Instruction::LOD(r, v) => imm_encode(op, scheme, r, v),
            Instruction::SET(r) => un_encode(op, scheme, r),
            Instruction::SETD(r, v) => imm_encode(op, scheme, r, v),
        };
        Some(out)
    }
}

/// Executable counterpart of [`opcode_of`].
fn opcode_of_exec(i: Instruction, s: Scheme) -> (op: u8)
    ensures
        op == opcode_of(i, s),
        op <= 16,
{
    match i {
        Instruction::MOVD(_, _) => 0,
        Instruction::MOVR(_, _) => 1,
        Instruction::JEQ(_, _) => 2,
        Instruction::JLT(_, _) => 16,
        Instruction::JEZ(_) => 2,
        Instruction::ADDD(_, _) => 3,
        Instruction::ADDR(_, _) => 4,
        Instruction::SUBD(_, _) => 5,
        Instruction::SUBR(_, _) => 6,
        Instruction::ANDD(_, _) => 7,
        Instruction::ANDR(_, _) => 8,
        Instruction::ORD(_, _) => 9,
        Instruction::ORR(_, _) => 10,
        Instruction::NOT(_) => match s {
            Scheme::FiveBit => 13,
            Scheme::FourBit => 11,
        },
        Instruction::LOD(_, _) => match s {
            Scheme::FiveBit => 14,
            Scheme::FourBit => 12,
        },
        Instruction::SET(_) => 15,
        Instruction::SETD(_, _) => 13,
    }
}

/// Bytes of an immediate-form instruction: packed first byte, then the
/// little-endian operand.
fn imm_encode(op: u8, s: Scheme, r: Register, v: u32) -> (out: Vec<u8>)
    requires
        op <= 16,
    ensures
        out@ == seq![pack_byte(op, s, r)] + spec_u32_to_le_bytes(v),
{
    let mut out: Vec<u8> = Vec::new();
    out.push(pack_byte_exec(op, s, r));
    let mut operand = u32_to_le_bytes(v);
    out.append(&mut operand);
    proof {
        assert(out@ =~= seq![pack_byte(op, s, r)] + spec_u32_to_le_bytes(v));
    }
    out
}

/// Bytes of a two-register instruction: packed first byte, then the second
/// register's number.
fn reg_encode(op: u8, s: Scheme, r: Register, r2: Register) -> (out: Vec<u8>)
    requires
        op <= 16,
    ensures
        out@ == seq![pack_byte(op, s, r), reg_num(r2)],
{
    let mut out: Vec<u8> = Vec::new();
    out.push(pack_byte_exec(op, s, r));
    out.push(register_num(r2));
    proof {
        assert(out@ =~= seq![pack_byte(op, s, r), reg_num(r2)]);
    }
    out
}

/// Byte of a single-byte instruction.
fn un_encode(op: u8, s: Scheme, r: Register) -> (out: Vec<u8>)
    requires
        op <= 16,
    ensures
        out@ == seq![pack_byte(op, s, r)],
{
    let mut out: Vec<u8> = Vec::new();
    out.push(pack_byte_exec(op, s, r));
    proof {
        assert(out@ =~= seq![pack_byte(op, s, r)]);
    }
    out
}

/// The opcode and register fields of a packed first byte come back out
/// unchanged.
proof fn lemma_pack_fields(op: u8, s: Scheme, r: Register)
    requires
        match s {
            Scheme::FiveBit => op <= 16,
            Scheme::FourBit => op <= 15,
        },
    ensures
        op_field(pack_byte(op, s, r), s) == op,
        reg_field(pack_byte(op, s, r), s) == reg_num(r),
{
    let rn = reg_num(r);
    match s {
        Scheme::FiveBit => {
            assert((((op << 3) | rn) >> 3) == op && (((op << 3) | rn) & 7) == rn) by (bit_vector)
                requires
                    op <= 16,
                    rn <= 6,
            ;
        },
        Scheme::FourBit => {
            assert((((op << 4) | rn) >> 4) == op && (((op << 4) | rn) & 15) == rn) by (bit_vector)
                requires
                    op <= 15,
                    rn <= 6,
            ;
        },
    }
}

/// A register number is below both register-field masks.
proof fn lemma_reg_num_masked(n: u8)
    requires
        n <= 6,
    ensures
        (n & 7) == n,
        (n & 15) == n,
{
    assert((n & 7) == n && (n & 15) == n) by (bit_vector)
        requires
            n <= 6,
    ;
}

/// Decoding an encoded immediate-form instruction at offset 0 gives it back.
proof fn lemma_rt_imm(op: u8, s: Scheme, r: Register, v: u32)
    requires
        op_len(op, s) == 5,
        match s {
            Scheme::FiveBit => op <= 16,
            Scheme::FourBit => op <= 15,
        },
    ensures
        spec_decode(seq![pack_byte(op, s, r)] + spec_u32_to_le_bytes(v), 0, s) == Ok::<
            (Instruction, u32),
            Fault,
        >((imm_instr(op, s, r, v), 5)),
{
    lemma_auto_spec_u32_to_from_le_bytes();
    lemma_pack_fields(op, s, r);
    crate::lemma_reg_of_reg_num(r);
    let enc = seq![pack_byte(op, s, r)] + spec_u32_to_le_bytes(v);
    assert(enc.len() == 5);
    assert(enc[0] == pack_byte(op, s, r));
    assert(enc.subrange(1, 5) =~= spec_u32_to_le_bytes(v));
}

/// Decoding an encoded two-register instruction at offset 0 gives it back.
proof fn lemma_rt_reg(op: u8, s: Scheme, r: Register, r2: Register)
    requires
        op == 1 || op == 4 || op == 6 || op == 8 || op == 10,
    ensures
        spec_decode(seq![pack_byte(op, s, r), reg_num(r2)], 0, s) == Ok::<
            (Instruction, u32),
            Fault,
        >((reg_instr(op, r, r2), 2)),
{
    lemma_pack_fields(op, s, r);
    lemma_reg_num_masked(reg_num(r2));
    crate::lemma_reg_of_reg_num(r);
    crate::lemma_reg_of_reg_num(r2);
}

/// Decoding an encoded single-byte instruction at offset 0 gives it back.
proof fn lemma_rt_un(op: u8, s: Scheme, r: Register)
    requires
        op_len(op, s) == 1,
        match s {
            Scheme::FiveBit => op <= 16,
            Scheme::FourBit => op <= 15,
        },
    ensures
        spec_decode(seq![pack_byte(op, s, r)], 0, s) == Ok::<(Instruction, u32), Fault>(
            (un_instr(op, s, r), 1),
        ),
{
    lemma_pack_fields(op, s, r);
    crate::lemma_reg_of_reg_num(r);
}

/// Round trip: encoding any instruction the scheme supports and decoding the
/// resulting bytes reproduces the operation kind and the operand values
/// exactly, and consumes exactly the encoded length.
#[verifier::rlimit(100)]
#[verifier::spinoff_prover]
pub proof fn lemma_encode_decode_roundtrip(i: Instruction, s: Scheme)
    requires
        scheme_supports(s, i),
    ensures
        spec_decode(spec_encode(i, s), 0, s) == Ok::<(Instruction, u32), Fault>(
            (i, spec_encode(i, s).len() as u32),
        ),
{
    lemma_auto_spec_u32_to_from_le_bytes();
    let op = opcode_of(i, s);
    match i {
        Instruction::MOVD(r, v) => lemma_rt_imm(op, s, r, v),
        Instruction::MOVR(r, r2) => lemma_rt_reg(op, s, r, r2),
        Instruction::JEQ(r, v) => lemma_rt_imm(op, s, r, v),
        Instruction::JLT(r, v) => lemma_rt_imm(op, s, r, v),
        Instruction::JEZ(r) => lemma_rt_un(op, s, r),
        Instruction::ADDD(r, v) => lemma_rt_imm(op, s, r, v),
        Instruction::ADDR(r, r2) => lemma_rt_reg(op, s, r, r2),
        Instruction::SUBD(r, v) => lemma_rt_imm(op, s, r, v),
        Instruction::SUBR(r, r2) => lemma_rt_reg(op, s, r, r2),
        Instruction::ANDD(r, v) => lemma_rt_imm(op, s, r, v),
        Instruction::ANDR(r, r2) => lemma_rt_reg(op, s, r, r2),
        Instruction::ORD(r, v) => lemma_rt_imm(op, s, r, v),
        Instruction::ORR(r, r2) => lemma_rt_reg(op, s, r, r2),
        Instruction::NOT(r) => lemma_rt_un(op, s, r),
        Instruction::LOD(r, v) => lemma_rt_imm(op, s, r, v),
        Instruction::SET(r) => lemma_rt_un(op, s, r),
        Instruction::SETD(r, v) => lemma_rt_imm(op, s, r, v),
    }
}

/// The decoder reads no byte outside the ones it reports as consumed: any
/// memory that agrees on `mem[off .. off + len]` decodes to the same
/// instruction and length at `off`, whatever stands before or after — so
/// advancing the pointer by `len` leaves neither overlap nor gap with the
/// next instruction.
pub proof fn lemma_decode_consumes_exactly(
    m1: Seq<u8>,
    m2: Seq<u8>,
    off: int,
    s: Scheme,
    i: Instruction,
    len: u32,
)
    requires
        spec_decode(m1, off, s) == Ok::<(Instruction, u32), Fault>((i, len)),
        off + len <= m2.len(),
        forall|j: int| off <= j < off + len ==> m1[j] == m2[j],
    ensures
        spec_decode(m2, off, s) == Ok::<(Instruction, u32), Fault>((i, len)),
{
    let b = m1[off];
    let op = op_field(b, s);
    let l = op_len(op, s);
    assert(l == 1 || l == 2 || l == 5);
    assert(len == l);
    assert(m2[off] == b);
    if l == 5 {
        assert(m1.subrange(off + 1, off + 5) =~= m2.subrange(off + 1, off + 5));
    }
    if l == 2 {
        assert(m2[off + 1] == m1[off + 1]);
    }
}

/// Executable counterpart of [`imm_instr`].
fn imm_instr_exec(op: u8, s: Scheme, r: Register, val: u32) -> (i: Instruction)
    ensures
        i == imm_instr(op, s, r, val),
{
    match s {
        Scheme::FiveBit => if op == 0 {
            Instruction::MOVD(r, val)
        } else if op == 2 {
            Instruction::JEQ(r, val)
        } else if op == 3 {
            Instruction::ADDD(r, val)
        } else if op == 5 {
            Instruction::SUBD(r, val)
        } else if op == 7 {
            Instruction::ANDD(r, val)
        } else if op == 9 {
            Instruction::ORD(r, val)
        } else if op == 14 {
            Instruction::LOD(r, val)
        } else {
            Instruction::JLT(r, val)
        },
        Scheme::FourBit => if op == 0 {
            Instruction::MOVD(r, val)
        } else if op == 3 {
            Instruction::ADDD(r, val)
        } else if op == 5 {
            Instruction::SUBD(r, val)
        } else if op == 7 {
            Instruction::ANDD(r, val)
        } else if op == 9 {
            Instruction::ORD(r, val)
        } else if op == 12 {
            Instruction::LOD(r, val)
        } else {
            Instruction::SETD(r, val)
        },
    }
}

/// Executable counterpart of [`reg_instr`].
fn reg_instr_exec(op: u8, r: Register, r2: Register) -> (i: Instruction)
    ensures
        i == reg_instr(op, r, r2),
{
    if op == 1 {
        Instruction::MOVR(r, r2)
    } else if op == 4 {
        Instruction::ADDR(r, r2)
    } else if op == 6 {
        Instruction::SUBR(r, r2)
    } else if op == 8 {
        Instruction::ANDR(r, r2)
    } else {
        Instruction::ORR(r, r2)
    }
}

/// Executable counterpart of [`un_instr`].
fn un_instr_exec(op: u8, s: Scheme, r: Register) -> (i: Instruction)
    ensures
        i == un_instr(op, s, r),
{
    match s {
        Scheme::FiveBit => if op == 13 {
            Instruction::NOT(r)
        } else {
            Instruction::SET(r)
        },
        Scheme::FourBit => if op == 2 {
            Instruction::JEZ(r)
        } else {
            Instruction::NOT(r)
        },
    }
}

} // verus!
