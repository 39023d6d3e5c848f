//! Machine state and instruction semantics.
//!
//! The machine holds seven 32-bit registers, a linear RAM whose low region is
//! reserved zero-filled space with the loaded program appended directly after
//! it, and a separately addressed display buffer reached through memory-mapped
//! addresses: a load or store whose address lies at or above [`MMIO_BASE`] is
//! rebased into the display buffer by subtracting that sentinel; every lower
//! address is a plain RAM offset.
use crate::Fault;
use crate::Instruction;
use crate::Register;
use crate::decode::Scheme;
use crate::decode::spec_decode;
use vstd::bytes::lemma_auto_spec_u32_to_from_le_bytes;
use vstd::bytes::spec_u32_from_le_bytes;
use vstd::bytes::spec_u32_to_le_bytes;
use vstd::bytes::u32_from_le_bytes;
use vstd::bytes::u32_to_le_bytes;
use vstd::prelude::*;
use vstd::wrapping::u32_specs;

verus! {

/// Size in bytes of the reserved zero-filled low region of RAM; the loaded
/// program starts at this offset and the instruction pointer is initialized
/// to it.
pub const RESERVED_LOW: usize = 65535 * 4;

/// Size in bytes of the memory-mapped display buffer.
pub const VID_MEM_SIZE: usize = 0x2A00;

/// Every load or store address at or above this sentinel is rebased into the
/// display buffer by subtracting it; every address below is a RAM offset.
pub const MMIO_BASE: u32 = 0xFFFF0000;

/// Whether the machine is still executing instructions. `Halted` is terminal:
/// once reached, no instruction is decoded or applied again.
#[derive(Clone, Copy, Debug, PartialEq, Eq, Structural)]
pub enum Status {
    Running,
    Halted,
}

/// Mathematical model of the machine state: the seven registers, RAM, the
/// display buffer, the loaded program's length, the active encoding scheme
/// and the run status.
pub ghost struct MachineView {
    pub reg_a: u32,
    pub reg_b: u32,
    pub reg_c: u32,
    pub reg_d: u32,
    pub reg_e: u32,
    pub reg_f: u32,
    pub reg_ip: u32,
    pub mem: Seq<u8>,
    pub vid: Seq<u8>,
    pub prog_len: nat,
    pub scheme: Scheme,
    pub status: Status,
}

impl MachineView {
    /// Value of a register.
    pub open spec fn reg(self, r: Register) -> u32 {
        match r {
            Register::A => self.reg_a,
            Register::B => self.reg_b,
            Register::C => self.reg_c,
            Register::D => self.reg_d,
            Register::E => self.reg_e,
            Register::F => self.reg_f,
            Register::IP => self.reg_ip,
        }
    }

    /// The same state with one register overwritten.
    pub open spec fn with_reg(self, r: Register, val: u32) -> MachineView {
        match r {
            Register::A => MachineView { reg_a: val, ..self },
            Register::B => MachineView { reg_b: val, ..self },
            Register::C => MachineView { reg_c: val, ..self },
            Register::D => MachineView { reg_d: val, ..self },
            Register::E => MachineView { reg_e: val, ..self },
            Register::F => MachineView { reg_f: val, ..self },
            Register::IP => MachineView { reg_ip: val, ..self },
        }
    }

    /// The same state, halted.
    pub open spec fn halted(self) -> MachineView {
        MachineView { status: Status::Halted, ..self }
    }

    /// First address past the loaded program: the halt boundary for the
    /// instruction pointer.
    pub open spec fn prog_end(self) -> int {
        RESERVED_LOW + self.prog_len
    }

    /// Well-formedness: RAM is exactly the reserved region followed by the
    /// program and lies wholly below the memory-mapped window, and the
    /// display buffer has its fixed size.
    pub open spec fn wf(self) -> bool {
        &&& self.mem.len() == RESERVED_LOW + self.prog_len
        &&& self.mem.len() <= MMIO_BASE
        &&& self.vid.len() == VID_MEM_SIZE
    }
}

/// Four little-endian bytes written into `s` at `off`.
pub open spec fn write4(s: Seq<u8>, off: int, bytes: Seq<u8>) -> Seq<u8>
    recommends
        0 <= off,
        off + 4 <= s.len(),
        bytes.len() == 4,
{
    s.update(off, bytes[0]).update(off + 1, bytes[1]).update(off + 2, bytes[2]).update(
        off + 3,
        bytes[3],
    )
}

/// The 32-bit value a load at `addr` observes: four little-endian bytes of
/// the display buffer at `addr - MMIO_BASE` when `addr` is at or above the
/// sentinel, else of RAM at `addr`; `None` when the four bytes do not fit
/// inside the addressed region.
pub open spec fn spec_read32(v: MachineView, addr: u32) -> Option<u32> {
    if addr >= MMIO_BASE {
        let off = addr - MMIO_BASE;
        if off + 4 <= v.vid.len() {
            Some(spec_u32_from_le_bytes(v.vid.subrange(off, off + 4)))
        } else {
            None
        }
    } else {
        if addr + 4 <= v.mem.len() {
            Some(spec_u32_from_le_bytes(v.mem.subrange(addr as int, addr + 4)))
        } else {
            None
        }
    }
}

/// The state a store of `x` at `addr` leaves: the four little-endian bytes of
/// `x` placed in the display buffer at `addr - MMIO_BASE` when `addr` is at
/// or above the sentinel, else in RAM at `addr`; `None` when the four bytes
/// do not fit inside the addressed region.
pub open spec fn spec_write32(v: MachineView, addr: u32, x: u32) -> Option<MachineView> {
    let bytes = spec_u32_to_le_bytes(x);
    if addr >= MMIO_BASE {
        let off = addr - MMIO_BASE;
        if off + 4 <= v.vid.len() {
            Some(MachineView { vid: write4(v.vid, off, bytes), ..v })
        } else {
            None
        }
    } else {
        if addr + 4 <= v.mem.len() {
            Some(MachineView { mem: write4(v.mem, addr as int, bytes), ..v })
        } else {
            None
        }
    }
}

/// One instruction's effect on the state: the new state and whether control
/// flow branched, or the fault met. Arithmetic is unsigned 32-bit with
/// wraparound; a conditional jump whose test fails changes nothing and does
/// not branch; a load or store whose address does not resolve inside RAM or
/// the display buffer is a `BoundsViolation` and leaves the state unchanged.
#[verifier::opaque]
pub open spec fn spec_exec(v: MachineView, i: Instruction) -> Result<(MachineView, bool), Fault> {
    match i {
        Instruction::MOVD(r, val) => Ok((v.with_reg(r, val), false)),
        Instruction::MOVR(t, s) => Ok((v.with_reg(t, v.reg(s)), false)),
        Instruction::JEQ(r, target) => if v.reg(r) == v.reg_f {
            Ok((v.with_reg(Register::IP, target), true))
        } else {
            Ok((v, false))
        },
        Instruction::JLT(r, target) => if v.reg(r) < v.reg_f {
            Ok((v.with_reg(Register::IP, target), true))
        } else {
            Ok((v, false))
        },
        Instruction::JEZ(r) => if v.reg(r) == 0 {
            Ok((v.with_reg(Register::IP, v.reg_f), true))
        } else {
            Ok((v, false))
        },
        Instruction::ADDD(r, val) => Ok(
            (v.with_reg(r, u32_specs::wrapping_add(v.reg(r), val)), false),
        ),
        Instruction::ADDR(r, r2) => Ok(
            (v.with_reg(r, u32_specs::wrapping_add(v.reg(r), v.reg(r2))), false),
        ),
        Instruction::SUBD(r, val) => Ok(
            (v.with_reg(r, u32_specs::wrapping_sub(v.reg(r), val)), false),
        ),
        Instruction::SUBR(r, r2) => Ok(
            (v.with_reg(r, u32_specs::wrapping_sub(v.reg(r), v.reg(r2))), false),
        ),
        Instruction::ANDD(r, val) => Ok((v.with_reg(r, v.reg(r) & val), false)),
        Instruction::ANDR(r, r2) => Ok((v.with_reg(r, v.reg(r) & v.reg(r2)), false)),
        Instruction::ORD(r, val) => Ok((v.with_reg(r, v.reg(r) | val), false)),
        Instruction::ORR(r, r2) => Ok((v.with_reg(r, v.reg(r) | v.reg(r2)), false)),
        Instruction::NOT(r) => Ok((v.with_reg(r, !v.reg(r)), false)),
        Instruction::LOD(r, addr) => match spec_read32(v, addr) {
            Some(x) => Ok((v.with_reg(r, x), false)),
            None => Err(Fault::BoundsViolation),
        },
        Instruction::SET(r) => match spec_write32(v, v.reg_f, v.reg(r)) {
            Some(v2) => Ok((v2, false)),
            None => Err(Fault::BoundsViolation),
        },
        Instruction::SETD(r, addr) => match spec_write32(v, addr, v.reg(r)) {
            Some(v2) => Ok((v2, false)),
            None => Err(Fault::BoundsViolation),
        },
    }
}

/// One step of the fetch-decode-execute loop. A halted machine stays as it
/// is. A running machine whose instruction pointer has reached or passed the
/// end of the loaded program halts without decoding any byte. Otherwise the
/// instruction at the pointer is decoded and applied; the pointer advances by
/// the instruction's encoded length (wrapping) unless the instruction
/// branched, in which case it stands as the instruction set it. A decode
/// fault or a bounds violation halts the machine with the state otherwise
/// unchanged.
pub open spec fn spec_step(v: MachineView) -> (MachineView, Result<Status, Fault>) {
    if v.status is Halted {
        (v, Ok(Status::Halted))
    } else if v.reg_ip >= v.prog_end() {
        (v.halted(), Ok(Status::Halted))
    } else {
        match spec_decode(v.mem, v.reg_ip as int, v.scheme) {
            Err(f) => (v.halted(), Err(f)),
            Ok((i, len)) => match spec_exec(v, i) {
                Err(f) => (v.halted(), Err(f)),
                Ok((v2, branched)) => if branched {
                    (v2, Ok(Status::Running))
                } else {
                    (
                        MachineView { reg_ip: u32_specs::wrapping_add(v2.reg_ip, len), ..v2 },
                        Ok(Status::Running),
                    )
                },
            },
        }
    }
}

/// Repeated stepping, at most `n` times: stops early when the machine halts
/// or a fault is met. The result is `Ok(Halted)` when the halt boundary was
/// reached, `Ok(Running)` when the step budget ran out first, and the fault
/// otherwise.
pub open spec fn spec_run(v: MachineView, n: nat) -> (MachineView, Result<Status, Fault>)
    decreases n,
{
    if v.status is Halted {
        (v, Ok(Status::Halted))
    } else if n == 0 {
        (v, Ok(Status::Running))
    } else {
        let (v2, r) = spec_step(v);
        match r {
            Err(f) => (v2, Err(f)),
            Ok(st) => if st is Halted {
                (v2, Ok(Status::Halted))
            } else {
                spec_run(v2, (n - 1) as nat)
            },
        }
    }
}

/// Applying an instruction never changes the sizes of RAM or the display
/// buffer, the program length, the encoding scheme or the run status: it
/// touches only registers and memory contents.
pub proof fn lemma_exec_preserves_shape(v: MachineView, i: Instruction)
    ensures
        match spec_exec(v, i) {
            Ok((v2, _branched)) => v2.mem.len() == v.mem.len() && v2.vid.len() == v.vid.len()
                && v2.prog_len == v.prog_len && v2.scheme == v.scheme && v2.status == v.status,
            Err(_) => true,
        },
{
    reveal(spec_exec);
}

/// Halt boundary: a running machine whose instruction pointer has reached or
/// passed the first address after the loaded program transitions immediately
/// to `Halted`, with every register and every byte of memory unchanged — no
/// further byte is decoded.
#[verifier::spinoff_prover]
pub proof fn lemma_step_at_boundary(v: MachineView)
    requires
        v.status is Running,
        v.reg_ip >= v.prog_end(),
    ensures
        spec_step(v) == (v.halted(), Ok::<Status, Fault>(Status::Halted)),
{
}

/// Wraparound law: an immediate add always succeeds and wraps modulo 2^32;
/// in particular adding 1 to a register holding `0xFFFF_FFFF` yields 0, with
/// no fault raised.
pub proof fn lemma_add_wraps(v: MachineView, r: Register, val: u32)
    ensures
        spec_exec(v, Instruction::ADDD(r, val)) == Ok::<(MachineView, bool), Fault>(
            (v.with_reg(r, u32_specs::wrapping_add(v.reg(r), val)), false),
        ),
        v.reg(r) == 0xFFFFFFFFu32 && val == 1 ==> spec_exec(v, Instruction::ADDD(r, val)) == Ok::<
            (MachineView, bool),
            Fault,
        >((v.with_reg(r, 0u32), false)),
{
    reveal(spec_exec);
}

/// Branch law: a jump-if-equal branches exactly when the named register
/// equals the flag register at the moment of execution; then the instruction
/// pointer becomes the target, nothing else changes, and the branch is
/// reported; otherwise the state is wholly unchanged and no branch is
/// reported.
pub proof fn lemma_branch_taken_iff(v: MachineView, r: Register, target: u32)
    ensures
        v.reg(r) == v.reg_f ==> spec_exec(v, Instruction::JEQ(r, target)) == Ok::<
            (MachineView, bool),
            Fault,
        >((v.with_reg(Register::IP, target), true)),
        v.reg(r) != v.reg_f ==> spec_exec(v, Instruction::JEQ(r, target)) == Ok::<
            (MachineView, bool),
            Fault,
        >((v, false)),
{
    reveal(spec_exec);
}

/// Memory-mapped routing: a store at or above the sentinel lands its four
/// little-endian bytes in the display buffer at `addr - MMIO_BASE`; a store
/// below the sentinel lands them in RAM at the literal address; nothing else
/// changes either way.
pub proof fn lemma_store_routing(v: MachineView, addr: u32, x: u32)
    ensures
        addr >= MMIO_BASE && addr - MMIO_BASE + 4 <= v.vid.len() ==> spec_write32(v, addr, x)
            == Some(
            MachineView { vid: write4(v.vid, addr - MMIO_BASE, spec_u32_to_le_bytes(x)), ..v },
        ),
        addr < MMIO_BASE && addr + 4 <= v.mem.len() ==> spec_write32(v, addr, x) == Some(
            MachineView { mem: write4(v.mem, addr as int, spec_u32_to_le_bytes(x)), ..v },
        ),
{
}

/// Reading back a stored value: after a store of `x` at `addr` succeeds, a
/// load at the same address returns exactly `x`, wherever the sentinel
/// routed the bytes.
pub proof fn lemma_store_then_load(v: MachineView, addr: u32, x: u32)
    requires
        spec_write32(v, addr, x) is Some,
    ensures
        spec_read32(spec_write32(v, addr, x).unwrap(), addr) == Some(x),
{
    lemma_auto_spec_u32_to_from_le_bytes();
    let v2 = spec_write32(v, addr, x).unwrap();
    let bytes = spec_u32_to_le_bytes(x);
    if addr >= MMIO_BASE {
        let off = addr - MMIO_BASE;
        assert(v2.vid.subrange(off, off + 4) =~= bytes);
    } else {
        assert(v2.mem.subrange(addr as int, addr + 4) =~= bytes);
    }
}

/// The same law at instruction level: an immediate-addressed store followed
/// by a load at the same address moves the stored register's value into the
/// load's destination register.
pub proof fn lemma_setd_then_lod(v: MachineView, src: Register, dst: Register, addr: u32)
    requires
        spec_write32(v, addr, v.reg(src)) is Some,
    ensures
        ({
            let v2 = spec_write32(v, addr, v.reg(src)).unwrap();
            &&& spec_exec(v, Instruction::SETD(src, addr)) == Ok::<(MachineView, bool), Fault>(
                (v2, false),
            )
            &&& spec_exec(v2, Instruction::LOD(dst, addr)) == Ok::<(MachineView, bool), Fault>(
                (v2.with_reg(dst, v.reg(src)), false),
            )
        }),
{
    reveal(spec_exec);
    lemma_store_then_load(v, addr, v.reg(src));
}

/// A decode fault halts the machine and is reported.
#[verifier::spinoff_prover]
proof fn lemma_step_decode_fault(v: MachineView, f: Fault)
    requires
        v.status is Running,
        v.reg_ip < v.prog_end(),
        spec_decode(v.mem, v.reg_ip as int, v.scheme) == Err::<(Instruction, u32), Fault>(f),
    ensures
        spec_step(v) == (v.halted(), Err::<Status, Fault>(f)),
{
}

/// An execution fault halts the machine and is reported.
#[verifier::spinoff_prover]
proof fn lemma_step_exec_fault(v: MachineView, i: Instruction, len: u32, f: Fault)
    requires
        v.status is Running,
        v.reg_ip < v.prog_end(),
        spec_decode(v.mem, v.reg_ip as int, v.scheme) == Ok::<(Instruction, u32), Fault>((i, len)),
        spec_exec(v, i) == Err::<(MachineView, bool), Fault>(f),
    ensures
        spec_step(v) == (v.halted(), Err::<Status, Fault>(f)),
{
}

/// An applied instruction leaves the machine running, and the pointer
/// advances by exactly the decoded instruction's byte length when no branch
/// occurred — the step consumes precisely the bytes the decoder interpreted,
/// leaving neither overlap nor gap before the next instruction; when a branch
/// occurred the pointer stands as the instruction set it.
#[verifier::spinoff_prover]
pub proof fn lemma_step_applied(v: MachineView, i: Instruction, len: u32, v2: MachineView, branched: bool)
    requires
        v.status is Running,
        v.reg_ip < v.prog_end(),
        spec_decode(v.mem, v.reg_ip as int, v.scheme) == Ok::<(Instruction, u32), Fault>((i, len)),
        spec_exec(v, i) == Ok::<(MachineView, bool), Fault>((v2, branched)),
    ensures
        spec_step(v) == if branched {
            (v2, Ok::<Status, Fault>(Status::Running))
        } else {
            (
                MachineView { reg_ip: u32_specs::wrapping_add(v2.reg_ip, len), ..v2 },
                Ok::<Status, Fault>(Status::Running),
            )
        },
{
}

/// The machine: registers, RAM, display buffer, program length, encoding
/// scheme and run status.
pub struct Machine {
    reg_a: u32,
    reg_b: u32,
    reg_c: u32,
    reg_d: u32,
    reg_e: u32,
    reg_f: u32,
    reg_ip: u32,
    memory: Vec<u8>,
    vid_memory: Vec<u8>,
    prog_len: usize,
    scheme: Scheme,
    status: Status,
}

impl View for Machine {
    type V = MachineView;

    closed spec fn view(&self) -> MachineView {
        MachineView {
            reg_a: self.reg_a,
            reg_b: self.reg_b,
            reg_c: self.reg_c,
            reg_d: self.reg_d,
            reg_e: self.reg_e,
            reg_f: self.reg_f,
            reg_ip: self.reg_ip,
            mem: self.memory@,
            vid: self.vid_memory@,
            prog_len: self.prog_len as nat,
            scheme: self.scheme,
            status: self.status,
        }
    }
}

impl Machine {
    /// A fresh machine running `program` under `scheme`: all registers zero
    /// except the instruction pointer, which starts at the first address past
    /// the reserved low region; RAM is that zero-filled region with the
    /// program appended; the display buffer is zero-filled.
    pub fn new(program: Vec<u8>, scheme: Scheme) -> (m: Machine)
        requires
            RESERVED_LOW + program@.len() <= MMIO_BASE,
        ensures
            m@.wf(),
            m@.reg_a == 0,
            m@.reg_b == 0,
            m@.reg_c == 0,
            m@.reg_d == 0,
            m@.reg_e == 0,
            m@.reg_f == 0,
            m@.reg_ip == RESERVED_LOW,
            m@.mem == Seq::new(RESERVED_LOW as nat, |i: int| 0u8) + program@,
            m@.vid == Seq::new(VID_MEM_SIZE as nat, |i: int| 0u8),
            m@.prog_len == program@.len(),
            m@.scheme == scheme,
            m@.status == Status::Running,
    {
        let ghost prog0 = program@;
        let prog_len = program.len();
        let mut program = program;
        let mut memory: Vec<u8> = vec![0u8; RESERVED_LOW];
        memory.append(&mut program);
        let vid_memory: Vec<u8> = vec![0u8; VID_MEM_SIZE];
        proof {
            assert(memory@ =~= Seq::new(RESERVED_LOW as nat, |i: int| 0u8) + prog0);
            assert(vid_memory@ =~= Seq::new(VID_MEM_SIZE as nat, |i: int| 0u8));
        }
        Machine {
            reg_a: 0,
            reg_b: 0,
            reg_c: 0,
            reg_d: 0,
            reg_e: 0,
            reg_f: 0,
            reg_ip: RESERVED_LOW as u32,
            memory,
            vid_memory,
            prog_len,
            scheme,
            status: Status::Running,
        }
    }

    /// Current value of a register.
    pub fn get_register(&self, reg: Register) -> (val: u32)
        ensures
            val == self@.reg(reg),
    {
        match reg {
            Register::A => self.reg_a,
            Register::B => self.reg_b,
            Register::C => self.reg_c,
            Register::D => self.reg_d,
            Register::E => self.reg_e,
            Register::F => self.reg_f,
            Register::IP => self.reg_ip,
        }
    }

    /// Overwrite one register; nothing else changes.
    pub fn set_register(&mut self, reg: Register, val: u32)
        ensures
            final(self)@ == old(self)@.with_reg(reg, val),
    {
        match reg {
            Register::A => self.reg_a = val,
            Register::B => self.reg_b = val,
            Register::C => self.reg_c = val,
            Register::D => self.reg_d = val,
            Register::E => self.reg_e = val,
            Register::F => self.reg_f = val,
            Register::IP => self.reg_ip = val,
        }
    }

    /// Read four little-endian bytes at `addr`, routed by the memory-mapped
    /// sentinel rule.
    fn read32(&self, addr: u32) -> (r: Option<u32>)
        ensures
            r == spec_read32(self@, addr),
    {
        if addr >= MMIO_BASE {
            let off = (addr - MMIO_BASE) as usize;
            if off + 4 <= self.vid_memory.len() {
                let mut operand: Vec<u8> = Vec::new();
                operand.push(self.vid_memory[off]);
                operand.push(self.vid_memory[off + 1]);
                operand.push(self.vid_memory[off + 2]);
                operand.push(self.vid_memory[off + 3]);
                proof {
                    assert(operand@ =~= self@.vid.subrange(off as int, off + 4));
                }
                Some(u32_from_le_bytes(operand.as_slice()))
            } else {
                None
            }
        } else {
            let a = addr as usize;
            if a + 4 <= self.memory.len() {
                let mut operand: Vec<u8> = Vec::new();
                operand.push(self.memory[a]);
                operand.push(self.memory[a + 1]);
                operand.push(self.memory[a + 2]);
                operand.push(self.memory[a + 3]);
                proof {
                    assert(operand@ =~= self@.mem.subrange(a as int, a + 4));
                }
                Some(u32_from_le_bytes(operand.as_slice()))
            } else {
                None
            }
        }
    }

    /// Write the four little-endian bytes of `x` at `addr`, routed by the
    /// memory-mapped sentinel rule; `false` (and no change) when the bytes do
    /// not fit inside the addressed region.
    fn write32(&mut self, addr: u32, x: u32) -> (ok: bool)
        ensures
            match spec_write32(old(self)@, addr, x) {
                Some(v2) => ok && final(self)@ == v2,
                None => !ok && final(self)@ == old(self)@,
            },
    {
        let bytes = u32_to_le_bytes(x);
        if addr >= MMIO_BASE {
            let off = (addr - MMIO_BASE) as usize;
            if off + 4 <= self.vid_memory.len() {
                self.vid_memory[off] = bytes[0];
                self.vid_memory[off + 1] = bytes[1];
                self.vid_memory[off + 2] = bytes[2];
                self.vid_memory[off + 3] = bytes[3];
                true
            } else {
                false
            }
        } else {
            let a = addr as usize;
            if a + 4 <= self.memory.len() {
                self.memory[a] = bytes[0];
                self.memory[a + 1] = bytes[1];
                self.memory[a + 2] = bytes[2];
                self.memory[a + 3] = bytes[3];
                true
            } else {
                false
            }
        }
    }

    /// Apply one decoded instruction to the state, reporting whether control
    /// flow branched. On a bounds violation the state is unchanged.
    pub fn exec_instruction(&mut self, instruction: Instruction) -> (r: Result<bool, Fault>)
        ensures
            match spec_exec(old(self)@, instruction) {
                Ok((v2, branched)) => r == Ok::<bool, Fault>(branched) && final(self)@ == v2,
                Err(f) => r == Err::<bool, Fault>(f) && final(self)@ == old(self)@,
            },
    {
        proof {
            reveal(spec_exec);
        }
        match instruction {
            Instruction::MOVD(reg, val) => {
                self.set_register(reg, val);
                Ok(false)
            },
            Instruction::MOVR(target, source) => {
                let val = self.get_register(source);
                self.set_register(target, val);
                Ok(false)
            },
            Instruction::JEQ(register, val) => {
                if self.get_register(register) == self.get_register(Register::F) {
                    self.set_register(Register::IP, val);
                    Ok(true)
                } else {
                    Ok(false)
                }
            },
            Instruction::JLT(register, val) => {
                if self.get_register(register) < self.get_register(Register::F) {
                    self.set_register(Register::IP, val);
                    Ok(true)
                } else {
                    Ok(false)
                }
            },
            Instruction::JEZ(register) => {
                if self.get_register(register) == 0 {
                    let target = self.get_register(Register::F);
                    self.set_register(Register::IP, target);
                    Ok(true)
                } else {
                    Ok(false)
                }
            },
            Instruction::ADDD(reg, val) => {
                let new_val = self.get_register(reg).wrapping_add(val);
                self.set_register(reg, new_val);
                Ok(false)
            },
            Instruction::ADDR(reg, other) => {
                let new_val = self.get_register(reg).wrapping_add(self.get_register(other));
                self.set_register(reg, new_val);
                Ok(false)
            },
            Instruction::SUBD(reg, val) => {
                let new_val = self.get_register(reg).wrapping_sub(val);
                self.set_register(reg, new_val);
                Ok(false)
            },
            Instruction::SUBR(reg, other) => {
                let new_val = self.get_register(reg).wrapping_sub(self.get_register(other));
                self.set_register(reg, new_val);
                Ok(false)
            },
            Instruction::ANDD(reg, val) => {
                let new_val = self.get_register(reg) & val;
                self.set_register(reg, new_val);
                Ok(false)
            },
            Instruction::ANDR(reg, other) => {
                let new_val = self.get_register(reg) & self.get_register(other);
                self.set_register(reg, new_val);
                Ok(false)
            },
            Instruction::ORD(reg, val) => {
                let new_val = self.get_register(reg) | val;
                self.set_register(reg, new_val);
                Ok(false)
            },
            Instruction::ORR(reg, other) => {
                let new_val = self.get_register(reg) | self.get_register(other);
                self.set_register(reg, new_val);
                Ok(false)
            },
            Instruction::NOT(reg) => {
                let new_val = !self.get_register(reg);
                self.set_register(reg, new_val);
                Ok(false)
            },
            Instruction::LOD(reg, addr) => {
                match self.read32(addr) {
                    Some(val) => {
                        self.set_register(reg, val);
                        Ok(false)
                    },
                    None => Err(Fault::BoundsViolation),
                }
            },
            Instruction::SET(reg) => {
                let val = self.get_register(reg);
                let addr = self.get_register(Register::F);
                if self.write32(addr, val) {
                    Ok(false)
                } else {
                    Err(Fault::BoundsViolation)
                }
            },
            Instruction::SETD(reg, addr) => {
                let val = self.get_register(reg);
                if self.write32(addr, val) {
                    Ok(false)
                } else {
                    Err(Fault::BoundsViolation)
                }
            },
        }
    }

    /// One step of the fetch-decode-execute loop, as [`spec_step`] states it.
    /// `Ok(Halted)` reports the terminal state (reaching the halt boundary,
    /// or a machine already halted); a fault halts the machine and is
    /// returned.
    #[verifier::rlimit(100)]
    #[verifier::spinoff_prover]
    pub fn step(&mut self) -> (r: Result<Status, Fault>)
        requires
            old(self)@.wf(),
        ensures
            final(self)@ == spec_step(old(self)@).0,
            r == spec_step(old(self)@).1,
            final(self)@.wf(),
            r == Ok::<Status, Fault>(Status::Running) ==> final(self)@.status is Running,
    {
        let ghost v0 = self@;
        match self.status {
            Status::Halted => {
                return Ok(Status::Halted);
            },
            Status::Running => {},
        }
        if self.reg_ip as u64 >= RESERVED_LOW as u64 + self.prog_len as u64 {
            self.status = Status::Halted;
            proof {
                lemma_step_at_boundary(v0);
            }
            return Ok(Status::Halted);
        }
        let decoded = Instruction::from_bytes(&self.memory, self.reg_ip as usize, self.scheme);
        match decoded {
            Err(f) => {
                self.status = Status::Halted;
                proof {
                    lemma_step_decode_fault(v0, f);
                }
                Err(f)
            },
            Ok((instruction, len)) => {
                let applied = self.exec_instruction(instruction);
                match applied {
                    Err(f) => {
                        self.status = Status::Halted;
                        proof {
                            lemma_step_exec_fault(v0, instruction, len, f);
                        }
                        Err(f)
                    },
                    Ok(branched) => {
                        proof {
                            lemma_step_applied(v0, instruction, len, self@, branched);
                            lemma_exec_preserves_shape(v0, instruction);
                        }
                        if !branched {
                            self.reg_ip = self.reg_ip.wrapping_add(len);
                        }
                        Ok(Status::Running)
                    },
                }
            },
        }
    }

    /// Step at most `max_steps` times, stopping early at the halt boundary or
    /// on a fault, as [`spec_run`] states it.
    pub fn run(&mut self, max_steps: u64) -> (r: Result<Status, Fault>)
        requires
            old(self)@.wf(),
        ensures
            final(self)@ == spec_run(old(self)@, max_steps as nat).0,
            r == spec_run(old(self)@, max_steps as nat).1,
            final(self)@.wf(),
    {
        let ghost v0 = self@;
        match self.status {
            Status::Halted => {
                return Ok(Status::Halted);
            },
            Status::Running => {},
        }
        let mut i: u64 = 0;
        while i < max_steps
            invariant
                v0 == old(self)@,
                i <= max_steps,
                self@.wf(),
                self@.status is Running,
                spec_run(v0, max_steps as nat) == spec_run(self@, (max_steps - i) as nat),
            decreases max_steps - i,
        {
            let ghost v_pre = self@;
            match self.step() {
                Err(f) => {
                    proof {
                        assert(spec_run(v_pre, (max_steps - i) as nat) == (self@, Err::<
                            Status,
                            Fault,
                        >(f)));
                    }
                    return Err(f);
                },
                Ok(Status::Halted) => {
                    return Ok(Status::Halted);
                },
                Ok(Status::Running) => {},
            }
            i = i + 1;
        }
        Ok(Status::Running)
    }

    /// The machine's run status.
    pub fn status(&self) -> (st: Status)
        ensures
            st == self@.status,
    {
        self.status
    }

    /// The active encoding scheme.
    pub fn scheme(&self) -> (s: Scheme)
        ensures
            s == self@.scheme,
    {
        self.scheme
    }

    /// Length in bytes of the loaded program.
    pub fn prog_len(&self) -> (n: usize)
        ensures
            n == self@.prog_len,
    {
        self.prog_len
    }

    /// Read-only view of RAM.
    pub fn memory(&self) -> (m: &Vec<u8>)
        ensures
            m@ == self@.mem,
    {
        &self.memory
    }

    /// Read-only view of the display buffer, for a presentation collaborator
    /// to consume between steps.
    pub fn vid_memory(&self) -> (m: &Vec<u8>)
        ensures
            m@ == self@.vid,
    {
        &self.vid_memory
    }
}

} // verus!
