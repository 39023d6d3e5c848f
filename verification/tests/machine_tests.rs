use orchidemu::Fault;
use orchidemu::Instruction;
use orchidemu::Register;
use orchidemu::decode::Scheme;
use orchidemu::machine::MMIO_BASE;
use orchidemu::machine::Machine;
use orchidemu::machine::RESERVED_LOW;
use orchidemu::machine::Status;
use orchidemu::machine::VID_MEM_SIZE;

fn fresh(program: Vec<u8>) -> Machine {
    Machine::new(program, Scheme::FiveBit)
}

#[test]
fn new_machine_initial_state() {
    let m = fresh(vec![0x68]);
    assert_eq!(m.get_register(Register::A), 0);
    assert_eq!(m.get_register(Register::B), 0);
    assert_eq!(m.get_register(Register::C), 0);
    assert_eq!(m.get_register(Register::D), 0);
    assert_eq!(m.get_register(Register::E), 0);
    assert_eq!(m.get_register(Register::F), 0);
    assert_eq!(m.get_register(Register::IP), RESERVED_LOW as u32);
    assert_eq!(m.status(), Status::Running);
    assert_eq!(m.prog_len(), 1);
    assert_eq!(m.memory().len(), RESERVED_LOW + 1);
    assert_eq!(m.vid_memory().len(), VID_MEM_SIZE);
    assert!(m.memory()[..RESERVED_LOW].iter().all(|&b| b == 0));
    assert_eq!(m.memory()[RESERVED_LOW], 0x68);
    assert!(m.vid_memory().iter().all(|&b| b == 0));
}

#[test]
fn set_and_get_registers() {
    let mut m = fresh(Vec::new());
    m.set_register(Register::C, 77);
    m.set_register(Register::F, 1234);
    assert_eq!(m.get_register(Register::C), 77);
    assert_eq!(m.get_register(Register::F), 1234);
    assert_eq!(m.get_register(Register::A), 0);
}

#[test]
fn move_instructions() {
    let mut m = fresh(Vec::new());
    assert_eq!(m.exec_instruction(Instruction::MOVD(Register::B, 99)), Ok(false));
    assert_eq!(m.get_register(Register::B), 99);
    assert_eq!(m.exec_instruction(Instruction::MOVR(Register::E, Register::B)), Ok(false));
    assert_eq!(m.get_register(Register::E), 99);
    assert_eq!(m.get_register(Register::B), 99);
}

#[test]
fn add_wraps_around() {
    // 0xFFFF_FFFF + 1 wraps to 0 with no fault.
    let mut m = fresh(Vec::new());
    m.set_register(Register::A, 0xFFFFFFFF);
    assert_eq!(m.exec_instruction(Instruction::ADDD(Register::A, 1)), Ok(false));
    assert_eq!(m.get_register(Register::A), 0);
}

#[test]
fn sub_wraps_around() {
    let mut m = fresh(Vec::new());
    m.set_register(Register::B, 0);
    assert_eq!(m.exec_instruction(Instruction::SUBD(Register::B, 1)), Ok(false));
    assert_eq!(m.get_register(Register::B), 0xFFFFFFFF);
}

#[test]
fn arithmetic_and_bitwise() {
    let mut m = fresh(Vec::new());
    m.set_register(Register::A, 10);
    m.set_register(Register::B, 3);
    assert_eq!(m.exec_instruction(Instruction::ADDR(Register::A, Register::B)), Ok(false));
    assert_eq!(m.get_register(Register::A), 13);
    assert_eq!(m.exec_instruction(Instruction::SUBR(Register::A, Register::B)), Ok(false));
    assert_eq!(m.get_register(Register::A), 10);
    m.set_register(Register::C, 0b1100);
    assert_eq!(m.exec_instruction(Instruction::ANDD(Register::C, 0b1010)), Ok(false));
    assert_eq!(m.get_register(Register::C), 0b1000);
    assert_eq!(m.exec_instruction(Instruction::ORD(Register::C, 0b0011)), Ok(false));
    assert_eq!(m.get_register(Register::C), 0b1011);
    m.set_register(Register::D, 0xF0F0F0F0);
    m.set_register(Register::E, 0x0FF00FF0);
    assert_eq!(m.exec_instruction(Instruction::ANDR(Register::D, Register::E)), Ok(false));
    assert_eq!(m.get_register(Register::D), 0x00F000F0);
    assert_eq!(m.exec_instruction(Instruction::ORR(Register::D, Register::E)), Ok(false));
    assert_eq!(m.get_register(Register::D), 0x0FF00FF0);
    assert_eq!(m.exec_instruction(Instruction::NOT(Register::D)), Ok(false));
    assert_eq!(m.get_register(Register::D), 0xF00FF00F);
}

#[test]
fn jump_if_equal_branches_iff_flag_matches() {
    // Taken: the register equals the flag register.
    let mut m = fresh(Vec::new());
    m.set_register(Register::A, 7);
    m.set_register(Register::F, 7);
    let ip_before = m.get_register(Register::IP);
    assert_eq!(m.exec_instruction(Instruction::JEQ(Register::A, 0x1234)), Ok(true));
    assert_eq!(m.get_register(Register::IP), 0x1234);
    // Not taken: the pointer and everything else stay unchanged.
    let mut m = fresh(Vec::new());
    m.set_register(Register::A, 7);
    m.set_register(Register::F, 8);
    assert_eq!(m.exec_instruction(Instruction::JEQ(Register::A, 0x1234)), Ok(false));
    assert_eq!(m.get_register(Register::IP), ip_before);
    assert_eq!(m.get_register(Register::A), 7);
    assert_eq!(m.get_register(Register::F), 8);
}

#[test]
fn jump_if_less_than() {
    let mut m = fresh(Vec::new());
    m.set_register(Register::B, 3);
    m.set_register(Register::F, 5);
    assert_eq!(m.exec_instruction(Instruction::JLT(Register::B, 0x4444)), Ok(true));
    assert_eq!(m.get_register(Register::IP), 0x4444);
    // Equality is not "less than".
    let mut m = fresh(Vec::new());
    m.set_register(Register::B, 5);
    m.set_register(Register::F, 5);
    let ip_before = m.get_register(Register::IP);
    assert_eq!(m.exec_instruction(Instruction::JLT(Register::B, 0x4444)), Ok(false));
    assert_eq!(m.get_register(Register::IP), ip_before);
}

#[test]
fn jump_if_zero_targets_flag_register() {
    let mut m = fresh(Vec::new());
    m.set_register(Register::F, 0x00C0FFEE);
    assert_eq!(m.exec_instruction(Instruction::JEZ(Register::C)), Ok(true));
    assert_eq!(m.get_register(Register::IP), 0x00C0FFEE);
    let mut m = fresh(Vec::new());
    m.set_register(Register::C, 1);
    m.set_register(Register::F, 0x00C0FFEE);
    let ip_before = m.get_register(Register::IP);
    assert_eq!(m.exec_instruction(Instruction::JEZ(Register::C)), Ok(false));
    assert_eq!(m.get_register(Register::IP), ip_before);
}

#[test]
fn store_at_sentinel_lands_in_display_buffer() {
    // A store to the sentinel address lands at offset 0 of the display
    // buffer, little-endian, and a load at the same address reads it back.
    let mut m = fresh(Vec::new());
    m.set_register(Register::A, 0xDEADBEEF);
    m.set_register(Register::F, MMIO_BASE);
    assert_eq!(m.exec_instruction(Instruction::SET(Register::A)), Ok(false));
    assert_eq!(&m.vid_memory()[0..4], &[0xEF, 0xBE, 0xAD, 0xDE]);
    assert!(m.memory().iter().all(|&b| b == 0));
    assert_eq!(m.exec_instruction(Instruction::LOD(Register::B, MMIO_BASE)), Ok(false));
    assert_eq!(m.get_register(Register::B), 0xDEADBEEF);
}

#[test]
fn store_above_sentinel_is_rebased() {
    let mut m = fresh(Vec::new());
    m.set_register(Register::A, 0x11223344);
    assert_eq!(m.exec_instruction(Instruction::SETD(Register::A, MMIO_BASE + 0x100)), Ok(false));
    assert_eq!(&m.vid_memory()[0x100..0x104], &[0x44, 0x33, 0x22, 0x11]);
    assert_eq!(m.exec_instruction(Instruction::LOD(Register::C, MMIO_BASE + 0x100)), Ok(false));
    assert_eq!(m.get_register(Register::C), 0x11223344);
}

#[test]
fn store_below_sentinel_lands_in_ram() {
    // An address below the sentinel is a literal RAM offset.
    let mut m = fresh(Vec::new());
    m.set_register(Register::A, 0xCAFEBABE);
    m.set_register(Register::F, 100);
    assert_eq!(m.exec_instruction(Instruction::SET(Register::A)), Ok(false));
    assert_eq!(&m.memory()[100..104], &[0xBE, 0xBA, 0xFE, 0xCA]);
    assert!(m.vid_memory().iter().all(|&b| b == 0));
    assert_eq!(m.exec_instruction(Instruction::LOD(Register::D, 100)), Ok(false));
    assert_eq!(m.get_register(Register::D), 0xCAFEBABE);
}

#[test]
fn load_store_out_of_bounds() {
    let mut m = fresh(Vec::new());
    // Past the end of the display buffer.
    let bad_vid = MMIO_BASE + (VID_MEM_SIZE as u32) - 3;
    assert_eq!(
        m.exec_instruction(Instruction::LOD(Register::A, bad_vid)),
        Err(Fault::BoundsViolation)
    );
    assert_eq!(
        m.exec_instruction(Instruction::SETD(Register::A, u32::MAX)),
        Err(Fault::BoundsViolation)
    );
    // Past the end of RAM but below the sentinel.
    let bad_ram = (RESERVED_LOW as u32) - 3;
    assert_eq!(
        m.exec_instruction(Instruction::LOD(Register::A, bad_ram)),
        Err(Fault::BoundsViolation)
    );
    m.set_register(Register::F, bad_ram);
    assert_eq!(m.exec_instruction(Instruction::SET(Register::A)), Err(Fault::BoundsViolation));
    // A failed store changes nothing.
    assert!(m.vid_memory().iter().all(|&b| b == 0));
    assert_eq!(m.status(), Status::Running);
}

#[test]
fn single_move_program_runs_and_halts() {
    // The five-byte move-immediate program: after one step the register
    // holds 5 and the pointer advanced by 5; the next step halts because the
    // program is exactly 5 bytes long.
    let mut m = fresh(vec![0x00, 0x05, 0x00, 0x00, 0x00]);
    assert_eq!(m.step(), Ok(Status::Running));
    assert_eq!(m.get_register(Register::A), 5);
    assert_eq!(m.get_register(Register::IP), RESERVED_LOW as u32 + 5);
    assert_eq!(m.step(), Ok(Status::Halted));
    assert_eq!(m.status(), Status::Halted);
}

#[test]
fn halt_boundary_without_decoding() {
    // An empty program puts the pointer at the boundary at once.
    let mut m = fresh(Vec::new());
    assert_eq!(m.step(), Ok(Status::Halted));
    assert_eq!(m.status(), Status::Halted);
    assert_eq!(m.get_register(Register::IP), RESERVED_LOW as u32);
    // Halted is terminal: further steps are no-ops.
    assert_eq!(m.step(), Ok(Status::Halted));
    assert_eq!(m.get_register(Register::IP), RESERVED_LOW as u32);
}

#[test]
fn invalid_opcode_halts_with_fault() {
    let mut m = fresh(vec![0x58]);
    assert_eq!(m.step(), Err(Fault::InvalidOpcode));
    assert_eq!(m.status(), Status::Halted);
    assert_eq!(m.step(), Ok(Status::Halted));
}

#[test]
fn truncated_operand_halts_with_fault() {
    let mut m = fresh(vec![0x00, 0x05]);
    assert_eq!(m.step(), Err(Fault::TruncatedOperand));
    assert_eq!(m.status(), Status::Halted);
}

#[test]
fn bounds_violation_halts_with_fault() {
    // A load reaching past the end of the display buffer.
    let mut m = fresh(vec![0x70, 0xFC, 0xFF, 0xFF, 0xFF]);
    assert_eq!(m.step(), Err(Fault::BoundsViolation));
    assert_eq!(m.status(), Status::Halted);
}

#[test]
fn branch_step_does_not_advance_pointer() {
    // JEQ with both registers zero branches; the pointer must be exactly the
    // target, not advanced further by the instruction's length.
    let mut m = fresh(vec![0x10, 0x05, 0x00, 0x04, 0x00]);
    assert_eq!(m.get_register(Register::IP), RESERVED_LOW as u32);
    assert_eq!(m.step(), Ok(Status::Running));
    assert_eq!(m.get_register(Register::IP), 0x00040005);
}

#[test]
fn run_until_halt() {
    // Move 5 into A, add 7, then reach the halt boundary.
    let mut m = fresh(vec![0x00, 0x05, 0x00, 0x00, 0x00, 0x18, 0x07, 0x00, 0x00, 0x00]);
    assert_eq!(m.run(100), Ok(Status::Halted));
    assert_eq!(m.get_register(Register::A), 12);
    assert_eq!(m.status(), Status::Halted);
}

#[test]
fn run_out_of_fuel_keeps_running() {
    let mut m = fresh(vec![0x00, 0x05, 0x00, 0x00, 0x00, 0x18, 0x07, 0x00, 0x00, 0x00]);
    assert_eq!(m.run(1), Ok(Status::Running));
    assert_eq!(m.get_register(Register::A), 5);
    assert_eq!(m.status(), Status::Running);
    assert_eq!(m.run(0), Ok(Status::Running));
    assert_eq!(m.run(5), Ok(Status::Halted));
    assert_eq!(m.get_register(Register::A), 12);
}

#[test]
fn run_reports_fault() {
    let mut m = fresh(vec![0x00, 0x05, 0x00, 0x00, 0x00, 0x58]);
    assert_eq!(m.run(10), Err(Fault::InvalidOpcode));
    assert_eq!(m.get_register(Register::A), 5);
    assert_eq!(m.status(), Status::Halted);
}

#[test]
fn four_bit_scheme_program() {
    // Move the loop exit address into the flag register, then take the
    // zero-test jump straight to the halt boundary.
    let end = RESERVED_LOW as u32 + 6;
    let mut program = vec![0x05];
    program.extend_from_slice(&end.to_le_bytes());
    program.push(0x20);
    let mut m = Machine::new(program, Scheme::FourBit);
    assert_eq!(m.step(), Ok(Status::Running));
    assert_eq!(m.get_register(Register::F), end);
    assert_eq!(m.step(), Ok(Status::Running));
    assert_eq!(m.get_register(Register::IP), end);
    assert_eq!(m.step(), Ok(Status::Halted));
    assert_eq!(m.status(), Status::Halted);
}

#[test]
fn program_can_write_glyphs_to_display() {
    // Store a glyph/color pair through the memory-mapped window and observe
    // it in the display snapshot: glyph 'H' with color byte 0x06.
    let mut m = fresh(Vec::new());
    m.set_register(Register::A, 0x0000_0648);
    m.set_register(Register::F, MMIO_BASE);
    assert_eq!(m.exec_instruction(Instruction::SET(Register::A)), Ok(false));
    let vid = m.vid_memory();
    assert_eq!(vid[0], b'H');
    assert_eq!(vid[1], 0x06);
}
