//! Emulator for a small 32-bit register machine: an instruction decoder for a
//! compact binary encoding, and an execution engine with registers, linear
//! memory and a memory-mapped display buffer.
use vstd::prelude::*;

pub mod decode;
pub mod display;
pub mod machine;
pub mod machinecode;

verus! {

/// The seven addressable locations of the machine: five general-purpose
/// registers, the flag/compare register, and the instruction pointer.
#[derive(Clone, Copy, Debug, PartialEq, Eq, Structural)]
pub enum Register {
    A,
    B,
    C,
    D,
    E,
    F,
    IP,
}

/// Number under which a register is encoded in an instruction's register field.
pub open spec fn reg_num(r: Register) -> u8 {
    match r {
        Register::A => 0,
        Register::B => 1,
        Register::C => 2,
        Register::D => 3,
        Register::E => 4,
        Register::F => 5,
        Register::IP => 6,
    }
}

/// Register selected by a register-field value; values with no table entry
/// fall back to the first general register.
pub open spec fn reg_of(n: u8) -> Register {
    if n == 0 {
        Register::A
    } else if n == 1 {
        Register::B
    } else if n == 2 {
        Register::C
    } else if n == 3 {
        Register::D
    } else if n == 4 {
        Register::E
    } else if n == 5 {
        Register::F
    } else if n == 6 {
        Register::IP
    } else {
        Register::A
    }
}

/// Every register comes back out of the table under its own number.
pub proof fn lemma_reg_of_reg_num(r: Register)
    ensures
        reg_of(reg_num(r)) == r,
{
}

/// A decoded instruction. Immediate and register forms of the same operation
/// are distinct opcodes on the wire, so they are distinct variants here
/// (`D` for direct/immediate operand, `R` for register operand).
#[derive(Clone, Copy, Debug, PartialEq, Eq, Structural)]
pub enum Instruction {
    /// Move an immediate value into a register.
    MOVD(Register, u32),
    /// Move the second register's value into the first.
    MOVR(Register, Register),
    /// Jump to the immediate target when the register equals the flag register.
    JEQ(Register, u32),
    /// Jump to the immediate target when the register is below the flag register.
    JLT(Register, u32),
    /// Jump to the address held by the flag register when the register is zero.
    JEZ(Register),
    /// Add an immediate value to a register, wrapping.
    ADDD(Register, u32),
    /// Add the second register to the first, wrapping.
    ADDR(Register, Register),
    /// Subtract an immediate value from a register, wrapping.
    SUBD(Register, u32),
    /// Subtract the second register from the first, wrapping.
    SUBR(Register, Register),
    /// Bitwise-and a register with an immediate value.
    ANDD(Register, u32),
    /// Bitwise-and the first register with the second.
    ANDR(Register, Register),
    /// Bitwise-or a register with an immediate value.
    ORD(Register, u32),
    /// Bitwise-or the first register with the second.
    ORR(Register, Register),
    /// Replace a register with its one's complement.
    NOT(Register),
    /// Load four little-endian bytes from the immediate address into a register.
    LOD(Register, u32),
    /// Store a register's four little-endian bytes at the address held by the
    /// flag register.
    SET(Register),
    /// Store a register's four little-endian bytes at the immediate address.
    SETD(Register, u32),
}

/// A condition that stops a run: the decoder met an opcode with no table
/// entry, an operand ran past the end of memory, or a load or store resolved
/// outside both RAM and the display buffer.
#[derive(Clone, Copy, Debug, PartialEq, Eq, Structural)]
pub enum Fault {
    /// The opcode field has no entry in the active scheme's table.
    InvalidOpcode,
    /// A multi-byte operand would read past the end of memory.
    TruncatedOperand,
    /// A load or store address resolves outside RAM and the display buffer.
    BoundsViolation,
}

} // verus!
