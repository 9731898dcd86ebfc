//! End-to-end instruction execution through the interpreter.

use rv32i::emulator::{Fault, Interpreter, Step};
use rv32i::mmu::MemFault;

const OP_LOAD: u32 = 0b0000011;
const OP_STORE: u32 = 0b0100011;
const OP_IMM: u32 = 0b0010011;
const OP_REG: u32 = 0b0110011;
const OP_BRANCH: u32 = 0b1100011;
const OP_JALR: u32 = 0b1100111;
const OP_LUI: u32 = 0b0110111;
const OP_AUIPC: u32 = 0b0010111;

fn enc_r(funct7: u32, rs2: u32, rs1: u32, funct3: u32, rd: u32) -> u32 {
    (funct7 << 25) | (rs2 << 20) | (rs1 << 15) | (funct3 << 12) | (rd << 7) | OP_REG
}

fn enc_i(imm: i32, rs1: u32, funct3: u32, rd: u32, opcode: u32) -> u32 {
    (((imm as u32) & 0xFFF) << 20) | (rs1 << 15) | (funct3 << 12) | (rd << 7) | opcode
}

fn enc_s(imm: i32, rs2: u32, rs1: u32, funct3: u32) -> u32 {
    let i = (imm as u32) & 0xFFF;
    ((i >> 5) << 25) | (rs2 << 20) | (rs1 << 15) | (funct3 << 12) | ((i & 0x1F) << 7) | OP_STORE
}

fn enc_b(imm: i32, rs2: u32, rs1: u32, funct3: u32) -> u32 {
    let i = (imm as u32) & 0x1FFF;
    (((i >> 12) & 1) << 31) | (((i >> 5) & 0x3F) << 25) | (rs2 << 20) | (rs1 << 15) | (funct3
        << 12) | (((i >> 1) & 0xF) << 8) | (((i >> 11) & 1) << 7) | OP_BRANCH
}

fn enc_u(imm20: u32, rd: u32, opcode: u32) -> u32 {
    (imm20 << 12) | (rd << 7) | opcode
}

fn enc_j(imm: i32, rd: u32) -> u32 {
    let i = (imm as u32) & 0x1F_FFFF;
    (((i >> 20) & 1) << 31) | (((i >> 1) & 0x3FF) << 21) | (((i >> 11) & 1) << 20) | (((i >> 12)
        & 0xFF) << 12) | (rd << 7) | 0b1101111
}

fn addi(rd: u32, rs1: u32, imm: i32) -> u32 {
    enc_i(imm, rs1, 0b000, rd, OP_IMM)
}

#[test]
fn scenario_jal_links_and_jumps() {
    let mut e = Interpreter::new();
    let r = e.execute_instruction(0b01000101010100000000000011101111u32);
    assert_eq!(r, Ok(Step::Continue));
    assert_eq!(e.register(1), 4);
    // J immediate: bit 20 of the word is immediate bit 11 (2048), bits 30:21
    // contribute 1024 + 64 + 16 + 4.
    assert_eq!(e.pc(), 3156);
}

#[test]
fn scenario_addi_from_zero_register() {
    let mut e = Interpreter::new();
    let r = e.execute_instruction(0b00000000000001000000010100010011u32);
    assert_eq!(r, Ok(Step::Continue));
    assert_eq!(e.register(10), 0);
    // The interpreter itself never advances pc on a non-jump.
    assert_eq!(e.pc(), 0);
}

#[test]
fn scenario_beq_taken_moves_pc() {
    let mut e = Interpreter::new();
    let r = e.execute_instruction(0b00000000000001111000010001100011u32);
    assert_eq!(r, Ok(Step::Continue));
    assert_eq!(e.pc(), 8);
}

#[test]
fn scenario_addi_negative_wraparound() {
    let mut e = Interpreter::new();
    let r = e.execute_instruction(0b11111111000000010000000100010011u32);
    assert_eq!(r, Ok(Step::Continue));
    assert_eq!(e.register(2), u64::MAX - 15);
}

#[test]
fn register_zero_stays_zero() {
    let mut e = Interpreter::new();
    assert_eq!(e.register(0), 0);
    assert_eq!(e.execute_instruction(addi(0, 0, 5)), Ok(Step::Continue));
    assert_eq!(e.register(0), 0);
    assert_eq!(e.execute_instruction(enc_u(0xFFFFF, 0, OP_LUI)), Ok(Step::Continue));
    assert_eq!(e.register(0), 0);
    assert_eq!(e.execute_instruction(enc_j(8, 0)), Ok(Step::Continue));
    assert_eq!(e.register(0), 0);
}

#[test]
fn lui_loads_upper_immediate() {
    let mut e = Interpreter::new();
    assert_eq!(e.execute_instruction(enc_u(0x12345, 5, OP_LUI)), Ok(Step::Continue));
    assert_eq!(e.register(5), 0x1234_5000);
    // Bit 31 set: the 32-bit value is sign-extended into the 64-bit slot.
    assert_eq!(e.execute_instruction(enc_u(0xFFFFF, 6, OP_LUI)), Ok(Step::Continue));
    assert_eq!(e.register(6), 0xFFFF_FFFF_FFFF_F000);
}

#[test]
fn auipc_adds_upper_immediate_to_pc() {
    let mut e = Interpreter::new();
    e.set_pc(0x1000);
    assert_eq!(e.execute_instruction(enc_u(0x1, 6, OP_AUIPC)), Ok(Step::Continue));
    assert_eq!(e.register(6), 0x2000);
    // A negative U immediate walks pc backwards.
    assert_eq!(e.execute_instruction(enc_u(0xFFFFF, 7, OP_AUIPC)), Ok(Step::Continue));
    assert_eq!(e.register(7), 0);
    assert_eq!(e.pc(), 0x1000);
}

#[test]
fn jalr_links_and_clears_bit_zero() {
    let mut e = Interpreter::new();
    assert_eq!(e.execute_instruction(addi(1, 0, 100)), Ok(Step::Continue));
    e.set_pc(0x50);
    assert_eq!(e.execute_instruction(enc_i(7, 1, 0b000, 2, OP_JALR)), Ok(Step::Continue));
    assert_eq!(e.register(2), 0x54);
    assert_eq!(e.pc(), 106);
}

#[test]
fn jalr_with_rd_equal_rs1_uses_the_link_value() {
    let mut e = Interpreter::new();
    assert_eq!(e.execute_instruction(addi(1, 0, 100)), Ok(Step::Continue));
    e.set_pc(0x50);
    // The link register is written before the target is read.
    assert_eq!(e.execute_instruction(enc_i(0, 1, 0b000, 1, OP_JALR)), Ok(Step::Continue));
    assert_eq!(e.register(1), 0x54);
    assert_eq!(e.pc(), 0x54);
}

#[test]
fn branch_comparisons() {
    let mut e = Interpreter::new();
    // x1 = -1 (signed), x2 = 1.
    assert_eq!(e.execute_instruction(addi(1, 0, -1)), Ok(Step::Continue));
    assert_eq!(e.execute_instruction(addi(2, 0, 1)), Ok(Step::Continue));

    // BNE taken.
    e.set_pc(0);
    assert_eq!(e.execute_instruction(enc_b(16, 2, 1, 0b001)), Ok(Step::Continue));
    assert_eq!(e.pc(), 16);

    // BEQ on unequal registers: pc does not move.
    e.set_pc(0);
    assert_eq!(e.execute_instruction(enc_b(16, 2, 1, 0b000)), Ok(Step::Continue));
    assert_eq!(e.pc(), 0);

    // BLT is signed: -1 < 1.
    e.set_pc(0);
    assert_eq!(e.execute_instruction(enc_b(8, 2, 1, 0b100)), Ok(Step::Continue));
    assert_eq!(e.pc(), 8);

    // BLTU is unsigned: 2^64 - 1 is not below 1.
    e.set_pc(0);
    assert_eq!(e.execute_instruction(enc_b(8, 2, 1, 0b110)), Ok(Step::Continue));
    assert_eq!(e.pc(), 0);

    // BGE on equal values is taken.
    e.set_pc(0);
    assert_eq!(e.execute_instruction(enc_b(12, 0, 0, 0b101)), Ok(Step::Continue));
    assert_eq!(e.pc(), 12);

    // BGEU: 2^64 - 1 >= 1.
    e.set_pc(0);
    assert_eq!(e.execute_instruction(enc_b(12, 2, 1, 0b111)), Ok(Step::Continue));
    assert_eq!(e.pc(), 12);

    // A backward branch wraps pc around zero.
    e.set_pc(4);
    assert_eq!(e.execute_instruction(enc_b(-8, 2, 1, 0b001)), Ok(Step::Continue));
    assert_eq!(e.pc(), u64::MAX - 3);
}

#[test]
fn branch_undefined_funct3_is_illegal() {
    let mut e = Interpreter::new();
    assert_eq!(e.execute_instruction(enc_b(8, 0, 0, 0b010)), Err(Fault::IllegalInstruction));
    assert_eq!(e.execute_instruction(enc_b(8, 0, 0, 0b011)), Err(Fault::IllegalInstruction));
    assert_eq!(e.pc(), 0);
}

#[test]
fn register_immediate_alu() {
    let mut e = Interpreter::new();
    assert_eq!(e.execute_instruction(addi(1, 0, 5)), Ok(Step::Continue));
    assert_eq!(e.register(1), 5);

    // SLTI: signed compares.
    assert_eq!(e.execute_instruction(enc_i(6, 1, 0b010, 2, OP_IMM)), Ok(Step::Continue));
    assert_eq!(e.register(2), 1);
    assert_eq!(e.execute_instruction(enc_i(-1, 1, 0b010, 3, OP_IMM)), Ok(Step::Continue));
    assert_eq!(e.register(3), 0);

    // SLTIU: the immediate is sign-extended, then compared unsigned.
    assert_eq!(e.execute_instruction(enc_i(-1, 1, 0b011, 4, OP_IMM)), Ok(Step::Continue));
    assert_eq!(e.register(4), 1);

    // XORI, ORI, ANDI.
    assert_eq!(e.execute_instruction(enc_i(0xFF, 1, 0b100, 5, OP_IMM)), Ok(Step::Continue));
    assert_eq!(e.register(5), 250);
    assert_eq!(e.execute_instruction(enc_i(0x0A, 1, 0b110, 6, OP_IMM)), Ok(Step::Continue));
    assert_eq!(e.register(6), 15);
    assert_eq!(e.execute_instruction(enc_i(0x0C, 1, 0b111, 7, OP_IMM)), Ok(Step::Continue));
    assert_eq!(e.register(7), 4);
}

#[test]
fn immediate_shifts() {
    let mut e = Interpreter::new();
    assert_eq!(e.execute_instruction(addi(1, 0, 5)), Ok(Step::Continue));

    // SLLI.
    assert_eq!(e.execute_instruction(enc_i(3, 1, 0b001, 2, OP_IMM)), Ok(Step::Continue));
    assert_eq!(e.register(2), 40);

    // x3 = -8: logical and arithmetic right shifts differ.
    assert_eq!(e.execute_instruction(addi(3, 0, -8)), Ok(Step::Continue));
    assert_eq!(e.execute_instruction(enc_i(1, 3, 0b101, 4, OP_IMM)), Ok(Step::Continue));
    assert_eq!(e.register(4), 0x7FFF_FFFF_FFFF_FFFC);
    // SRAI: high immediate bits 0100000.
    assert_eq!(
        e.execute_instruction(enc_i((0x20 << 5) | 1, 3, 0b101, 5, OP_IMM)),
        Ok(Step::Continue)
    );
    assert_eq!(e.register(5), (-4i64) as u64);

    // Shifts with any other high immediate bits are illegal.
    assert_eq!(
        e.execute_instruction(enc_i((0x20 << 5) | 1, 1, 0b001, 6, OP_IMM)),
        Err(Fault::IllegalInstruction)
    );
    assert_eq!(
        e.execute_instruction(enc_i((0x10 << 5) | 1, 1, 0b101, 6, OP_IMM)),
        Err(Fault::IllegalInstruction)
    );
    assert_eq!(e.register(6), 0);
}

#[test]
fn register_register_alu() {
    let mut e = Interpreter::new();
    assert_eq!(e.execute_instruction(addi(1, 0, 7)), Ok(Step::Continue));
    assert_eq!(e.execute_instruction(addi(2, 0, 3)), Ok(Step::Continue));

    assert_eq!(e.execute_instruction(enc_r(0, 2, 1, 0b000, 3)), Ok(Step::Continue));
    assert_eq!(e.register(3), 10);
    assert_eq!(e.execute_instruction(enc_r(0x20, 2, 1, 0b000, 4)), Ok(Step::Continue));
    assert_eq!(e.register(4), 4);
    // SUB below zero wraps in 64 bits.
    assert_eq!(e.execute_instruction(enc_r(0x20, 1, 2, 0b000, 5)), Ok(Step::Continue));
    assert_eq!(e.register(5), u64::MAX - 3);

    // SLL: 7 << 3.
    assert_eq!(e.execute_instruction(enc_r(0, 2, 1, 0b001, 6)), Ok(Step::Continue));
    assert_eq!(e.register(6), 56);

    // SLT / SLTU.
    assert_eq!(e.execute_instruction(enc_r(0, 2, 1, 0b010, 7)), Ok(Step::Continue));
    assert_eq!(e.register(7), 0);
    assert_eq!(e.execute_instruction(enc_r(0, 1, 2, 0b011, 8)), Ok(Step::Continue));
    assert_eq!(e.register(8), 1);

    // XOR / OR / AND.
    assert_eq!(e.execute_instruction(enc_r(0, 2, 1, 0b100, 9)), Ok(Step::Continue));
    assert_eq!(e.register(9), 4);
    assert_eq!(e.execute_instruction(enc_r(0, 2, 1, 0b110, 10)), Ok(Step::Continue));
    assert_eq!(e.register(10), 7);
    assert_eq!(e.execute_instruction(enc_r(0, 2, 1, 0b111, 11)), Ok(Step::Continue));
    assert_eq!(e.register(11), 3);

    // SRL / SRA on a negative value.
    assert_eq!(e.execute_instruction(addi(12, 0, -16)), Ok(Step::Continue));
    assert_eq!(e.execute_instruction(addi(13, 0, 2)), Ok(Step::Continue));
    assert_eq!(e.execute_instruction(enc_r(0, 13, 12, 0b101, 14)), Ok(Step::Continue));
    assert_eq!(e.register(14), 0x3FFF_FFFF_FFFF_FFFC);
    assert_eq!(e.execute_instruction(enc_r(0x20, 13, 12, 0b101, 15)), Ok(Step::Continue));
    assert_eq!(e.register(15), (-4i64) as u64);

    // Only the low five bits of rs2 shift: 65 shifts by 1.
    assert_eq!(e.execute_instruction(addi(16, 0, 65)), Ok(Step::Continue));
    assert_eq!(e.execute_instruction(enc_r(0, 16, 1, 0b001, 17)), Ok(Step::Continue));
    assert_eq!(e.register(17), 14);
}

#[test]
fn register_register_undefined_combo_is_illegal() {
    let mut e = Interpreter::new();
    assert_eq!(e.execute_instruction(enc_r(1, 0, 0, 0b000, 3)), Err(Fault::IllegalInstruction));
    assert_eq!(e.execute_instruction(enc_r(0x20, 0, 0, 0b100, 3)), Err(Fault::IllegalInstruction));
    assert_eq!(e.register(3), 0);
}

#[test]
fn store_then_load_round_trip() {
    let mut e = Interpreter::new();
    // x1 = 64, x2 = 0x12345678.
    assert_eq!(e.execute_instruction(addi(1, 0, 64)), Ok(Step::Continue));
    assert_eq!(e.execute_instruction(enc_u(0x12345, 2, OP_LUI)), Ok(Step::Continue));
    assert_eq!(e.execute_instruction(enc_i(0x678, 2, 0b000, 2, OP_IMM)), Ok(Step::Continue));
    assert_eq!(e.register(2), 0x1234_5678);

    // SW then every load flavour.
    assert_eq!(e.execute_instruction(enc_s(0, 2, 1, 0b010)), Ok(Step::Continue));
    assert_eq!(e.execute_instruction(enc_i(0, 1, 0b010, 3, OP_LOAD)), Ok(Step::Continue));
    assert_eq!(e.register(3), 0x1234_5678);
    assert_eq!(e.execute_instruction(enc_i(0, 1, 0b001, 4, OP_LOAD)), Ok(Step::Continue));
    assert_eq!(e.register(4), 0x5678);
    assert_eq!(e.execute_instruction(enc_i(0, 1, 0b101, 5, OP_LOAD)), Ok(Step::Continue));
    assert_eq!(e.register(5), 0x5678);
    assert_eq!(e.execute_instruction(enc_i(0, 1, 0b000, 6, OP_LOAD)), Ok(Step::Continue));
    assert_eq!(e.register(6), 0x78);
    assert_eq!(e.execute_instruction(enc_i(0, 1, 0b100, 7, OP_LOAD)), Ok(Step::Continue));
    assert_eq!(e.register(7), 0x78);

    // An unaligned word round trip through a different offset.
    assert_eq!(e.execute_instruction(enc_s(13, 2, 1, 0b010)), Ok(Step::Continue));
    assert_eq!(e.execute_instruction(enc_i(13, 1, 0b010, 8, OP_LOAD)), Ok(Step::Continue));
    assert_eq!(e.register(8), 0x1234_5678);
}

#[test]
fn signed_loads_sign_extend() {
    let mut e = Interpreter::new();
    assert_eq!(e.execute_instruction(addi(1, 0, 64)), Ok(Step::Continue));
    assert_eq!(e.execute_instruction(addi(2, 0, -1)), Ok(Step::Continue));

    // SB stores 0xFF; LB sees -1, LBU sees 255.
    assert_eq!(e.execute_instruction(enc_s(0, 2, 1, 0b000)), Ok(Step::Continue));
    assert_eq!(e.execute_instruction(enc_i(0, 1, 0b000, 3, OP_LOAD)), Ok(Step::Continue));
    assert_eq!(e.register(3), u64::MAX);
    assert_eq!(e.execute_instruction(enc_i(0, 1, 0b100, 4, OP_LOAD)), Ok(Step::Continue));
    assert_eq!(e.register(4), 0xFF);
    // The neighbouring byte was not touched by SB.
    assert_eq!(e.execute_instruction(enc_i(0, 1, 0b001, 5, OP_LOAD)), Ok(Step::Continue));
    assert_eq!(e.register(5), 0xFF);

    // SH stores 0xFFFF; LH sees -1, LHU sees 65535.
    assert_eq!(e.execute_instruction(enc_s(8, 2, 1, 0b001)), Ok(Step::Continue));
    assert_eq!(e.execute_instruction(enc_i(8, 1, 0b001, 6, OP_LOAD)), Ok(Step::Continue));
    assert_eq!(e.register(6), u64::MAX);
    assert_eq!(e.execute_instruction(enc_i(8, 1, 0b101, 7, OP_LOAD)), Ok(Step::Continue));
    assert_eq!(e.register(7), 0xFFFF);
}

#[test]
fn memory_access_faults_through_the_interpreter() {
    let mut e = Interpreter::new();
    // x1 = 4 MiB, the capacity.
    assert_eq!(e.execute_instruction(enc_u(0x400, 1, OP_LUI)), Ok(Step::Continue));
    assert_eq!(e.register(1), 0x40_0000);

    assert_eq!(
        e.execute_instruction(enc_i(0, 1, 0b010, 2, OP_LOAD)),
        Err(Fault::Memory(MemFault::OutOfBounds))
    );
    // The last full word below the capacity is fine.
    assert_eq!(e.execute_instruction(enc_i(-4, 1, 0b010, 2, OP_LOAD)), Ok(Step::Continue));
    assert_eq!(e.register(2), 0);
    // A word spanning the boundary is refused.
    assert_eq!(
        e.execute_instruction(enc_i(-3, 1, 0b010, 2, OP_LOAD)),
        Err(Fault::Memory(MemFault::OutOfBounds))
    );
    assert_eq!(
        e.execute_instruction(enc_s(0, 0, 1, 0b010)),
        Err(Fault::Memory(MemFault::OutOfBounds))
    );
    assert_eq!(e.execute_instruction(enc_s(-4, 0, 1, 0b010)), Ok(Step::Continue));
}

#[test]
fn undefined_load_store_widths_are_illegal() {
    let mut e = Interpreter::new();
    assert_eq!(
        e.execute_instruction(enc_i(0, 0, 0b011, 5, OP_LOAD)),
        Err(Fault::IllegalInstruction)
    );
    assert_eq!(
        e.execute_instruction(enc_i(0, 0, 0b110, 5, OP_LOAD)),
        Err(Fault::IllegalInstruction)
    );
    assert_eq!(e.execute_instruction(enc_s(0, 0, 0, 0b011)), Err(Fault::IllegalInstruction));
}

#[test]
fn fence_family_is_a_no_op() {
    let mut e = Interpreter::new();
    assert_eq!(e.execute_instruction(addi(1, 0, 9)), Ok(Step::Continue));
    assert_eq!(e.execute_instruction(0x0000_000F), Ok(Step::Continue));
    assert_eq!(e.execute_instruction(0x8330_000F), Ok(Step::Continue));
    assert_eq!(e.execute_instruction(0x0100_000F), Ok(Step::Continue));
    assert_eq!(e.pc(), 0);
    assert_eq!(e.register(1), 9);
}

#[test]
fn ecall_and_ebreak_signal_the_caller() {
    let mut e = Interpreter::new();
    assert_eq!(e.execute_instruction(0x0000_0073), Ok(Step::EnvironmentCall));
    assert_eq!(e.execute_instruction(0x0010_0073), Ok(Step::Breakpoint));
    // Any other SYSTEM encoding is not supported.
    assert_eq!(e.execute_instruction(0x0020_0073), Err(Fault::IllegalInstruction));
    assert_eq!(e.execute_instruction(0x0010_1073), Err(Fault::IllegalInstruction));
    assert_eq!(e.pc(), 0);
}

#[test]
fn unknown_opcodes_are_illegal() {
    let mut e = Interpreter::new();
    assert_eq!(e.execute_instruction(0), Err(Fault::IllegalInstruction));
    assert_eq!(e.execute_instruction(0x0000_007F), Err(Fault::IllegalInstruction));
    assert_eq!(e.execute_instruction(0xFFFF_FFFF), Err(Fault::IllegalInstruction));
    assert_eq!(e.pc(), 0);
    assert_eq!(e.register(1), 0);
}

#[test]
fn pc_advance_belongs_to_the_caller() {
    let mut e = Interpreter::new();
    assert_eq!(e.execute_instruction(addi(1, 0, 1)), Ok(Step::Continue));
    assert_eq!(e.pc(), 0);
    e.set_pc(e.pc() + 4);
    assert_eq!(e.pc(), 4);
    e.set_pc(40);
    assert_eq!(e.execute_instruction(addi(1, 1, 1)), Ok(Step::Continue));
    assert_eq!(e.pc(), 40);
    assert_eq!(e.register(1), 2);
}
