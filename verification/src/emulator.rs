//! The interpreter: architectural state owner and instruction executor.
//!
//! An [`Interpreter`] owns a 32-slot register file, a program counter and a
//! [`Memory`]. [`Interpreter::execute_instruction`] decodes one 32-bit word,
//! dispatches on its opcode and applies the instruction's semantics. Every
//! fault (illegal instruction, memory out of bounds, permission denied) is
//! reported as a typed result, never by terminating the process. Register 0
//! is hard-wired to zero: writes to it are discarded.
//!
//! The program counter is changed only by the control-transfer instructions;
//! the `+ 4` advance on every other path is the caller's fetch loop's
//! responsibility.

use crate::formats::{
    funct3_of, funct7_of, imm_b_of, imm_i_of, imm_j_of, imm_s_of, imm_u_of, opcode_of, rd_of,
    rs1_of, rs2_of, sext, BType, IType, JType, RType, SType, UType,
};
use crate::mmu::{
    le_store, le_value, span_grants, span_in_bounds, MemFault, Memory, Permission, PERM_READ,
    PERM_WRITE,
};
use vstd::prelude::*;

verus! {

/// The default memory capacity of a freshly built interpreter: 4 MiB.
pub const DEFAULT_MEMORY_SIZE: usize = 4 * 1024 * 1024;

/// How an instruction completed without fault.
#[derive(Clone, Copy, Debug, PartialEq, Eq, Structural)]
pub enum Step {
    /// Ordinary completion; the caller advances the program counter.
    Continue,
    /// An ECALL; the caller defines the environment-call semantics.
    EnvironmentCall,
    /// An EBREAK; the caller defines the breakpoint semantics.
    Breakpoint,
}

/// Why an instruction could not execute.
#[derive(Clone, Copy, Debug, PartialEq, Eq, Structural)]
pub enum Fault {
    /// The opcode, or its funct3/funct7 refinement, is not in the supported
    /// table.
    IllegalInstruction,
    /// A load or store was refused by the memory.
    Memory(MemFault),
}

/// A mathematical snapshot of the architectural state: register file,
/// program counter, memory bytes and their permissions.
pub ghost struct Machine {
    pub regs: Seq<u64>,
    pub pc: u64,
    pub mem: Seq<u8>,
    pub perms: Seq<Permission>,
}

impl Machine {
    /// 32 registers, register 0 hard-wired to zero, one permission per byte.
    pub open spec fn wf(self) -> bool {
        &&& self.regs.len() == 32
        &&& self.regs[0] == 0
        &&& self.mem.len() == self.perms.len()
    }
}

/// The register file after writing `v` to register `rd`: a write to
/// register 0 is discarded.
pub open spec fn write_reg(regs: Seq<u64>, rd: u8, v: u64) -> Seq<u64> {
    if rd == 0 {
        regs
    } else {
        regs.update(rd as int, v)
    }
}

/// The 64-bit two's-complement register pattern of a signed immediate value.
pub open spec fn as_reg(v: int) -> u64 {
    (v as i64) as u64
}

/// LUI: the destination register receives the sign-extended U immediate.
pub open spec fn step_lui(m: Machine, ins: u32) -> (Machine, Result<Step, Fault>) {
    (
        Machine { regs: write_reg(m.regs, rd_of(ins), as_reg(imm_u_of(ins))), ..m },
        Ok(Step::Continue),
    )
}

/// AUIPC: the destination register receives pc plus the U immediate.
pub open spec fn step_auipc(m: Machine, ins: u32) -> (Machine, Result<Step, Fault>) {
    (
        Machine {
            regs: write_reg(m.regs, rd_of(ins), m.pc.wrapping_add_signed(imm_u_of(ins) as i64)),
            ..m
        },
        Ok(Step::Continue),
    )
}

/// JAL: the destination register receives pc + 4, and pc moves by the J
/// immediate.
pub open spec fn step_jal(m: Machine, ins: u32) -> (Machine, Result<Step, Fault>) {
    (
        Machine {
            regs: write_reg(m.regs, rd_of(ins), m.pc.wrapping_add(4)),
            pc: m.pc.wrapping_add_signed(imm_j_of(ins) as i64),
            ..m
        },
        Ok(Step::Continue),
    )
}

/// JALR: the destination register receives pc + 4, and pc becomes rs1 plus
/// the I immediate, with bit 0 cleared. The link register is written first,
/// so a target whose rs1 equals rd uses the link value.
pub open spec fn step_jalr(m: Machine, ins: u32) -> (Machine, Result<Step, Fault>) {
    let regs = write_reg(m.regs, rd_of(ins), m.pc.wrapping_add(4));
    (
        Machine {
            regs,
            pc: regs[rs1_of(ins) as int].wrapping_add_signed(imm_i_of(ins) as i64) & !1u64,
            ..m
        },
        Ok(Step::Continue),
    )
}

/// Branches: pc moves by the B immediate exactly when the comparison
/// selected by funct3 holds of rs1 and rs2; funct3 values 2 and 3 are
/// illegal.
pub open spec fn step_branch(m: Machine, ins: u32) -> (Machine, Result<Step, Fault>) {
    let f3 = funct3_of(ins);
    let r1 = m.regs[rs1_of(ins) as int];
    let r2 = m.regs[rs2_of(ins) as int];
    if f3 == 2 || f3 == 3 {
        (m, Err(Fault::IllegalInstruction))
    } else {
        let taken = if f3 == 0 {
            r1 == r2
        } else if f3 == 1 {
            r1 != r2
        } else if f3 == 4 {
            (r1 as i64) < (r2 as i64)
        } else if f3 == 5 {
            (r1 as i64) >= (r2 as i64)
        } else if f3 == 6 {
            r1 < r2
        } else {
            r1 >= r2
        };
        (
            Machine {
                pc: if taken {
                    m.pc.wrapping_add_signed(imm_b_of(ins) as i64)
                } else {
                    m.pc
                },
                ..m
            },
            Ok(Step::Continue),
        )
    }
}

/// Loads: the effective address is rs1 plus the I immediate; every byte of
/// the span must be in bounds and readable, else the matching memory fault
/// is returned and nothing changes. The loaded value is sign- or
/// zero-extended as funct3 selects; funct3 values 3, 6 and 7 are illegal.
pub open spec fn step_load(m: Machine, ins: u32) -> (Machine, Result<Step, Fault>) {
    let f3 = funct3_of(ins);
    let eff = m.regs[rs1_of(ins) as int].wrapping_add_signed(imm_i_of(ins) as i64);
    if f3 == 0 || f3 == 1 || f3 == 2 || f3 == 4 || f3 == 5 {
        let width: nat = if f3 == 0 || f3 == 4 {
            1
        } else if f3 == 1 || f3 == 5 {
            2
        } else {
            4
        };
        if !span_in_bounds(eff, width, m.mem.len()) {
            (m, Err(Fault::Memory(MemFault::OutOfBounds)))
        } else if !span_grants(m.perms, eff, width, PERM_READ) {
            (m, Err(Fault::Memory(MemFault::PermissionDenied)))
        } else {
            let v = if f3 == 0 {
                as_reg(sext(m.mem[eff as int] as u64, 8))
            } else if f3 == 4 {
                m.mem[eff as int] as u64
            } else if f3 == 1 {
                as_reg(sext(le_value(m.mem, eff as int, 2) as u64, 16))
            } else if f3 == 5 {
                le_value(m.mem, eff as int, 2) as u64
            } else {
                as_reg(sext(le_value(m.mem, eff as int, 4) as u64, 32))
            };
            (Machine { regs: write_reg(m.regs, rd_of(ins), v), ..m }, Ok(Step::Continue))
        }
    } else {
        (m, Err(Fault::IllegalInstruction))
    }
}

/// Stores: the effective address is rs1 plus the S immediate; every byte of
/// the span must be in bounds and writable, else the matching memory fault
/// is returned and nothing is written. The value of rs2 is truncated to the
/// width funct3 selects; funct3 values above 2 are illegal.
pub open spec fn step_store(m: Machine, ins: u32) -> (Machine, Result<Step, Fault>) {
    let f3 = funct3_of(ins);
    let eff = m.regs[rs1_of(ins) as int].wrapping_add_signed(imm_s_of(ins) as i64);
    let r2 = m.regs[rs2_of(ins) as int];
    if f3 == 0 || f3 == 1 || f3 == 2 {
        let width: nat = if f3 == 0 {
            1
        } else if f3 == 1 {
            2
        } else {
            4
        };
        let val: int = if f3 == 0 {
            (r2 as u8) as int
        } else if f3 == 1 {
            (r2 as u16) as int
        } else {
            (r2 as u32) as int
        };
        if !span_in_bounds(eff, width, m.mem.len()) {
            (m, Err(Fault::Memory(MemFault::OutOfBounds)))
        } else if !span_grants(m.perms, eff, width, PERM_WRITE) {
            (m, Err(Fault::Memory(MemFault::PermissionDenied)))
        } else {
            (Machine { mem: le_store(m.mem, eff as int, width, val), ..m }, Ok(Step::Continue))
        }
    } else {
        (m, Err(Fault::IllegalInstruction))
    }
}

/// Register-immediate operations, selected by funct3; the shifts are further
/// refined by the high immediate bits, exactly one pattern of which is legal
/// for SLLI and two for SRLI/SRAI.
pub open spec fn step_op_imm(m: Machine, ins: u32) -> (Machine, Result<Step, Fault>) {
    let f3 = funct3_of(ins);
    let r1 = m.regs[rs1_of(ins) as int];
    let imm = imm_i_of(ins);
    let shamt = rs2_of(ins);
    if f3 == 0 {
        (
            Machine { regs: write_reg(m.regs, rd_of(ins), r1.wrapping_add_signed(imm as i64)), ..m },
            Ok(Step::Continue),
        )
    } else if f3 == 2 {
        let v: u64 = if (r1 as i64) < (imm as i64) {
            1
        } else {
            0
        };
        (Machine { regs: write_reg(m.regs, rd_of(ins), v), ..m }, Ok(Step::Continue))
    } else if f3 == 3 {
        let v: u64 = if r1 < as_reg(imm) {
            1
        } else {
            0
        };
        (Machine { regs: write_reg(m.regs, rd_of(ins), v), ..m }, Ok(Step::Continue))
    } else if f3 == 4 {
        (Machine { regs: write_reg(m.regs, rd_of(ins), r1 ^ as_reg(imm)), ..m }, Ok(Step::Continue))
    } else if f3 == 6 {
        (Machine { regs: write_reg(m.regs, rd_of(ins), r1 | as_reg(imm)), ..m }, Ok(Step::Continue))
    } else if f3 == 7 {
        (Machine { regs: write_reg(m.regs, rd_of(ins), r1 & as_reg(imm)), ..m }, Ok(Step::Continue))
    } else if f3 == 1 {
        if funct7_of(ins) == 0 {
            (
                Machine { regs: write_reg(m.regs, rd_of(ins), r1 << shamt), ..m },
                Ok(Step::Continue),
            )
        } else {
            (m, Err(Fault::IllegalInstruction))
        }
    } else {
        if funct7_of(ins) == 0 {
            (
                Machine { regs: write_reg(m.regs, rd_of(ins), r1 >> shamt), ..m },
                Ok(Step::Continue),
            )
        } else if funct7_of(ins) == 0b0100000 {
            (
                Machine {
                    regs: write_reg(m.regs, rd_of(ins), (((r1 as i64) >> shamt)) as u64),
                    ..m
                },
                Ok(Step::Continue),
            )
        } else {
            (m, Err(Fault::IllegalInstruction))
        }
    }
}

/// Register-register operations, selected by funct3 and funct7; shift
/// amounts come from the low five bits of rs2's value.
pub open spec fn step_op(m: Machine, ins: u32) -> (Machine, Result<Step, Fault>) {
    let f3 = funct3_of(ins);
    let f7 = funct7_of(ins);
    let r1 = m.regs[rs1_of(ins) as int];
    let r2 = m.regs[rs2_of(ins) as int];
    let sh = r2 & 0b11111;
    if f3 == 0 && f7 == 0 {
        (
            Machine { regs: write_reg(m.regs, rd_of(ins), r1.wrapping_add(r2)), ..m },
            Ok(Step::Continue),
        )
    } else if f3 == 0 && f7 == 0b0100000 {
        (
            Machine { regs: write_reg(m.regs, rd_of(ins), r1.wrapping_sub(r2)), ..m },
            Ok(Step::Continue),
        )
    } else if f3 == 1 && f7 == 0 {
        (Machine { regs: write_reg(m.regs, rd_of(ins), r1 << sh), ..m }, Ok(Step::Continue))
    } else if f3 == 2 && f7 == 0 {
        let v: u64 = if (r1 as i64) < (r2 as i64) {
            1
        } else {
            0
        };
        (Machine { regs: write_reg(m.regs, rd_of(ins), v), ..m }, Ok(Step::Continue))
    } else if f3 == 3 && f7 == 0 {
        let v: u64 = if r1 < r2 {
            1
        } else {
            0
        };
        (Machine { regs: write_reg(m.regs, rd_of(ins), v), ..m }, Ok(Step::Continue))
    } else if f3 == 4 && f7 == 0 {
        (Machine { regs: write_reg(m.regs, rd_of(ins), r1 ^ r2), ..m }, Ok(Step::Continue))
    } else if f3 == 5 && f7 == 0 {
        (Machine { regs: write_reg(m.regs, rd_of(ins), r1 >> sh), ..m }, Ok(Step::Continue))
    } else if f3 == 5 && f7 == 0b0100000 {
        (
            Machine { regs: write_reg(m.regs, rd_of(ins), (((r1 as i64) >> sh)) as u64), ..m },
            Ok(Step::Continue),
        )
    } else if f3 == 6 && f7 == 0 {
        (Machine { regs: write_reg(m.regs, rd_of(ins), r1 | r2), ..m }, Ok(Step::Continue))
    } else if f3 == 7 && f7 == 0 {
        (Machine { regs: write_reg(m.regs, rd_of(ins), r1 & r2), ..m }, Ok(Step::Continue))
    } else {
        (m, Err(Fault::IllegalInstruction))
    }
}

/// SYSTEM: an I immediate field of 0 signals an environment call, 1 a
/// breakpoint; anything else, or a nonzero funct3, is illegal. State never
/// changes.
pub open spec fn step_system(m: Machine, ins: u32) -> (Machine, Result<Step, Fault>) {
    if funct3_of(ins) == 0 && ins >> 20 == 0 {
        (m, Ok(Step::EnvironmentCall))
    } else if funct3_of(ins) == 0 && ins >> 20 == 1 {
        (m, Ok(Step::Breakpoint))
    } else {
        (m, Err(Fault::IllegalInstruction))
    }
}

/// One instruction's effect on the machine: the next state and the reported
/// outcome, dispatched on the opcode. An opcode outside the table is an
/// illegal instruction and changes nothing; FENCE is a no-op.
pub open spec fn step_spec(m: Machine, ins: u32) -> (Machine, Result<Step, Fault>) {
    let op = opcode_of(ins);
    if op == 0b0110111 {
        step_lui(m, ins)
    } else if op == 0b0010111 {
        step_auipc(m, ins)
    } else if op == 0b1101111 {
        step_jal(m, ins)
    } else if op == 0b1100111 {
        step_jalr(m, ins)
    } else if op == 0b1100011 {
        step_branch(m, ins)
    } else if op == 0b0000011 {
        step_load(m, ins)
    } else if op == 0b0100011 {
        step_store(m, ins)
    } else if op == 0b0010011 {
        step_op_imm(m, ins)
    } else if op == 0b0110011 {
        step_op(m, ins)
    } else if op == 0b0001111 {
        (m, Ok(Step::Continue))
    } else if op == 0b1110011 {
        step_system(m, ins)
    } else {
        (m, Err(Fault::IllegalInstruction))
    }
}

/// A single RV32I hart: register file, program counter and memory.
#[derive(Debug)]
pub struct Interpreter {
    registers: Vec<u64>,
    pc: u64,
    mem: Memory,
}

impl View for Interpreter {
    type V = Machine;

    closed spec fn view(&self) -> Machine {
        Machine {
            regs: self.registers@,
            pc: self.pc,
            mem: self.mem.bytes(),
            perms: self.mem.permissions(),
        }
    }
}

impl Interpreter {
    /// The architectural invariant.
    pub open spec fn wf(self) -> bool {
        self@.wf()
    }

    /// Builds a hart with 32 zeroed registers, pc 0, and a zeroed
    /// read-write memory of [`DEFAULT_MEMORY_SIZE`] bytes.
    pub fn new() -> (r: Interpreter)
        ensures
            r.wf(),
            r@.pc == 0,
            forall|k: int| 0 <= k < 32 ==> r@.regs[k] == 0,
            r@.mem.len() == DEFAULT_MEMORY_SIZE,
            forall|k: int| 0 <= k < r@.mem.len() ==> r@.mem[k] == 0,
            forall|k: int|
                0 <= k < r@.perms.len() ==> r@.perms[k].mask() == (PERM_READ | PERM_WRITE),
    {
        let mut registers: Vec<u64> = Vec::new();
        let mut i: usize = 0;
        while i < 32
            invariant
                i <= 32,
                registers@.len() == i,
                forall|k: int| 0 <= k < i ==> registers@[k] == 0,
            decreases 32 - i,
        {
            registers.push(0);
            i = i + 1;
        }
        Interpreter { registers, pc: 0, mem: Memory::new(DEFAULT_MEMORY_SIZE) }
    }

    /// The current program counter.
    pub fn pc(&self) -> (r: u64)
        ensures
            r == self@.pc,
    {
        self.pc
    }

    /// Sets the program counter; the caller's fetch loop uses this for the
    /// `+ 4` advance after non-jump instructions.
    pub fn set_pc(&mut self, pc: u64)
        ensures
            final(self)@.pc == pc,
            final(self)@.regs == old(self)@.regs,
            final(self)@.mem == old(self)@.mem,
            final(self)@.perms == old(self)@.perms,
            old(self).wf() ==> final(self).wf(),
    {
        self.pc = pc;
    }

    /// The value of register `idx`.
    pub fn register(&self, idx: u8) -> (r: u64)
        requires
            self.wf(),
            idx < 32,
        ensures
            r == self@.regs[idx as int],
    {
        self.registers[idx as usize]
    }

    /// Reads register `r`.
    fn get_reg(&self, r: u8) -> (v: u64)
        requires
            self.wf(),
            r < 32,
        ensures
            v == self@.regs[r as int],
    {
        self.registers[r as usize]
    }

    /// Writes register `rd`, discarding writes to register 0.
    fn set_reg(&mut self, rd: u8, v: u64)
        requires
            old(self).wf(),
            rd < 32,
        ensures
            final(self).wf(),
            final(self)@.regs == write_reg(old(self)@.regs, rd, v),
            final(self)@.pc == old(self)@.pc,
            final(self)@.mem == old(self)@.mem,
            final(self)@.perms == old(self)@.perms,
    {
        if rd != 0 {
            self.registers[rd as usize] = v;
        }
    }

    /// LUI.
    fn exec_lui(&mut self, ins: u32) -> (r: Result<Step, Fault>)
        requires
            old(self).wf(),
            opcode_of(ins) == 0b0110111,
        ensures
            final(self).wf(),
            final(self)@ == step_spec(old(self)@, ins).0,
            r == step_spec(old(self)@, ins).1,
    {
        let dec = UType::decode(ins);
        self.set_reg(dec.rd, dec.imm as u64);
        Ok(Step::Continue)
    }

    /// AUIPC.
    fn exec_auipc(&mut self, ins: u32) -> (r: Result<Step, Fault>)
        requires
            old(self).wf(),
            opcode_of(ins) == 0b0010111,
        ensures
            final(self).wf(),
            final(self)@ == step_spec(old(self)@, ins).0,
            r == step_spec(old(self)@, ins).1,
    {
        let dec = UType::decode(ins);
        let v = self.pc.wrapping_add_signed(dec.imm);
        self.set_reg(dec.rd, v);
        Ok(Step::Continue)
    }

    /// JAL.
    fn exec_jal(&mut self, ins: u32) -> (r: Result<Step, Fault>)
        requires
            old(self).wf(),
            opcode_of(ins) == 0b1101111,
        ensures
            final(self).wf(),
            final(self)@ == step_spec(old(self)@, ins).0,
            r == step_spec(old(self)@, ins).1,
    {
        let dec = JType::decode(ins);
        let link = self.pc.wrapping_add(4);
        let target = self.pc.wrapping_add_signed(dec.imm);
        self.set_reg(dec.rd, link);
        self.pc = target;
        Ok(Step::Continue)
    }

    /// JALR.
    fn exec_jalr(&mut self, ins: u32) -> (r: Result<Step, Fault>)
        requires
            old(self).wf(),
            opcode_of(ins) == 0b1100111,
        ensures
            final(self).wf(),
            final(self)@ == step_spec(old(self)@, ins).0,
            r == step_spec(old(self)@, ins).1,
    {
        let dec = IType::decode(ins);
        let link = self.pc.wrapping_add(4);
        self.set_reg(dec.rd, link);
        let base = self.get_reg(dec.rs1);
        self.pc = base.wrapping_add_signed(dec.imm) & !1u64;
        Ok(Step::Continue)
    }

    /// BEQ, BNE, BLT, BGE, BLTU, BGEU.
    fn exec_branch(&mut self, ins: u32) -> (r: Result<Step, Fault>)
        requires
            old(self).wf(),
            opcode_of(ins) == 0b1100011,
        ensures
            final(self).wf(),
            final(self)@ == step_spec(old(self)@, ins).0,
            r == step_spec(old(self)@, ins).1,
    {
        let dec = BType::decode(ins);
        let r1 = self.get_reg(dec.rs1);
        let r2 = self.get_reg(dec.rs2);
        let taken = match dec.funct3 {
            0b000 => r1 == r2,
            0b001 => r1 != r2,
            0b100 => (r1 as i64) < (r2 as i64),
            0b101 => (r1 as i64) >= (r2 as i64),
            0b110 => r1 < r2,
            0b111 => r1 >= r2,
            _ => {
                return Err(Fault::IllegalInstruction);
            },
        };
        if taken {
            self.pc = self.pc.wrapping_add_signed(dec.imm);
        }
        Ok(Step::Continue)
    }

    /// LB, LH, LW, LBU, LHU.
    fn exec_load(&mut self, ins: u32) -> (r: Result<Step, Fault>)
        requires
            old(self).wf(),
            opcode_of(ins) == 0b0000011,
        ensures
            final(self).wf(),
            final(self)@ == step_spec(old(self)@, ins).0,
            r == step_spec(old(self)@, ins).1,
    {
        let dec = IType::decode(ins);
        let base = self.get_reg(dec.rs1);
        let eff = base.wrapping_add_signed(dec.imm);
        match dec.funct3 {
            0b000 => match self.mem.read8(eff) {
                Ok(b) => {
                    let v = crate::formats::sign_extend(b as u64, 8);
                    self.set_reg(dec.rd, v as u64);
                    Ok(Step::Continue)
                },
                Err(e) => Err(Fault::Memory(e)),
            },
            0b100 => match self.mem.read8(eff) {
                Ok(b) => {
                    self.set_reg(dec.rd, b as u64);
                    Ok(Step::Continue)
                },
                Err(e) => Err(Fault::Memory(e)),
            },
            0b001 => match self.mem.read16(eff) {
                Ok(h) => {
                    let v = crate::formats::sign_extend(h as u64, 16);
                    self.set_reg(dec.rd, v as u64);
                    Ok(Step::Continue)
                },
                Err(e) => Err(Fault::Memory(e)),
            },
            0b101 => match self.mem.read16(eff) {
                Ok(h) => {
                    self.set_reg(dec.rd, h as u64);
                    Ok(Step::Continue)
                },
                Err(e) => Err(Fault::Memory(e)),
            },
            0b010 => match self.mem.read32(eff) {
                Ok(w) => {
                    let v = crate::formats::sign_extend(w as u64, 32);
                    self.set_reg(dec.rd, v as u64);
                    Ok(Step::Continue)
                },
                Err(e) => Err(Fault::Memory(e)),
            },
            _ => Err(Fault::IllegalInstruction),
        }
    }

    /// SB, SH, SW.
    fn exec_store(&mut self, ins: u32) -> (r: Result<Step, Fault>)
        requires
            old(self).wf(),
            opcode_of(ins) == 0b0100011,
        ensures
            final(self).wf(),
            final(self)@ == step_spec(old(self)@, ins).0,
            r == step_spec(old(self)@, ins).1,
    {
        let dec = SType::decode(ins);
        let base = self.get_reg(dec.rs1);
        let val = self.get_reg(dec.rs2);
        let eff = base.wrapping_add_signed(dec.imm);
        match dec.funct3 {
            0b000 => match self.mem.write8(eff, #[verifier::truncate] (val as u8)) {
                Ok(_) => Ok(Step::Continue),
                Err(e) => Err(Fault::Memory(e)),
            },
            0b001 => match self.mem.write16(eff, #[verifier::truncate] (val as u16)) {
                Ok(_) => Ok(Step::Continue),
                Err(e) => Err(Fault::Memory(e)),
            },
            0b010 => match self.mem.write32(eff, #[verifier::truncate] (val as u32)) {
                Ok(_) => Ok(Step::Continue),
                Err(e) => Err(Fault::Memory(e)),
            },
            _ => Err(Fault::IllegalInstruction),
        }
    }

    /// ADDI, SLTI, SLTIU, XORI, ORI, ANDI, SLLI, SRLI, SRAI.
    fn exec_op_imm(&mut self, ins: u32) -> (r: Result<Step, Fault>)
        requires
            old(self).wf(),
            opcode_of(ins) == 0b0010011,
        ensures
            final(self).wf(),
            final(self)@ == step_spec(old(self)@, ins).0,
            r == step_spec(old(self)@, ins).1,
    {
        let dec = IType::decode(ins);
        let r1 = self.get_reg(dec.rs1);
        proof {
            assert(((ins >> 20) & 0b11111) < 32 && (ins >> 25) < 128) by (bit_vector);
        }
        let shamt = ((ins >> 20) & 0b11111) as u8;
        let f7 = (ins >> 25) as u8;
        match dec.funct3 {
            0b000 => {
                self.set_reg(dec.rd, r1.wrapping_add_signed(dec.imm));
                Ok(Step::Continue)
            },
            0b010 => {
                let v: u64 = if (r1 as i64) < dec.imm {
                    1
                } else {
                    0
                };
                self.set_reg(dec.rd, v);
                Ok(Step::Continue)
            },
            0b011 => {
                let v: u64 = if r1 < (dec.imm as u64) {
                    1
                } else {
                    0
                };
                self.set_reg(dec.rd, v);
                Ok(Step::Continue)
            },
            0b100 => {
                self.set_reg(dec.rd, r1 ^ (dec.imm as u64));
                Ok(Step::Continue)
            },
            0b110 => {
                self.set_reg(dec.rd, r1 | (dec.imm as u64));
                Ok(Step::Continue)
            },
            0b111 => {
                self.set_reg(dec.rd, r1 & (dec.imm as u64));
                Ok(Step::Continue)
            },
            0b001 => {
                if f7 == 0 {
                    self.set_reg(dec.rd, r1 << shamt);
                    Ok(Step::Continue)
                } else {
                    Err(Fault::IllegalInstruction)
                }
            },
            _ => {
                if f7 == 0 {
                    self.set_reg(dec.rd, r1 >> shamt);
                    Ok(Step::Continue)
                } else if f7 == 0b0100000 {
                    self.set_reg(dec.rd, #[verifier::truncate] (((r1 as i64) >> shamt) as u64));
                    Ok(Step::Continue)
                } else {
                    Err(Fault::IllegalInstruction)
                }
            },
        }
    }

    /// ADD, SUB, SLL, SLT, SLTU, XOR, SRL, SRA, OR, AND.
    fn exec_op(&mut self, ins: u32) -> (r: Result<Step, Fault>)
        requires
            old(self).wf(),
            opcode_of(ins) == 0b0110011,
        ensures
            final(self).wf(),
            final(self)@ == step_spec(old(self)@, ins).0,
            r == step_spec(old(self)@, ins).1,
    {
        let dec = RType::decode(ins);
        let r1 = self.get_reg(dec.rs1);
        let r2 = self.get_reg(dec.rs2);
        let sh = r2 & 0b11111;
        proof {
            assert(r2 & 0b11111 < 64) by (bit_vector);
        }
        match (dec.funct3, dec.funct7) {
            (0b000, 0) => {
                self.set_reg(dec.rd, r1.wrapping_add(r2));
                Ok(Step::Continue)
            },
            (0b000, 0b0100000) => {
                self.set_reg(dec.rd, r1.wrapping_sub(r2));
                Ok(Step::Continue)
            },
            (0b001, 0) => {
                self.set_reg(dec.rd, r1 << sh);
                Ok(Step::Continue)
            },
            (0b010, 0) => {
                let v: u64 = if (r1 as i64) < (r2 as i64) {
                    1
                } else {
                    0
                };
                self.set_reg(dec.rd, v);
                Ok(Step::Continue)
            },
            (0b011, 0) => {
                let v: u64 = if r1 < r2 {
                    1
                } else {
                    0
                };
                self.set_reg(dec.rd, v);
                Ok(Step::Continue)
            },
            (0b100, 0) => {
                self.set_reg(dec.rd, r1 ^ r2);
                Ok(Step::Continue)
            },
            (0b101, 0) => {
                self.set_reg(dec.rd, r1 >> sh);
                Ok(Step::Continue)
            },
            (0b101, 0b0100000) => {
                self.set_reg(dec.rd, #[verifier::truncate] (((r1 as i64) >> sh) as u64));
                Ok(Step::Continue)
            },
            (0b110, 0) => {
                self.set_reg(dec.rd, r1 | r2);
                Ok(Step::Continue)
            },
            (0b111, 0) => {
                self.set_reg(dec.rd, r1 & r2);
                Ok(Step::Continue)
            },
            _ => Err(Fault::IllegalInstruction),
        }
    }

    /// ECALL and EBREAK.
    fn exec_system(&mut self, ins: u32) -> (r: Result<Step, Fault>)
        requires
            old(self).wf(),
            opcode_of(ins) == 0b1110011,
        ensures
            final(self).wf(),
            final(self)@ == step_spec(old(self)@, ins).0,
            r == step_spec(old(self)@, ins).1,
    {
        let dec = IType::decode(ins);
        let raw = ins >> 20;
        if dec.funct3 == 0 && raw == 0 {
            Ok(Step::EnvironmentCall)
        } else if dec.funct3 == 0 && raw == 1 {
            Ok(Step::Breakpoint)
        } else {
            Err(Fault::IllegalInstruction)
        }
    }

    /// Executes one instruction: decodes `ins`'s low seven bits as the
    /// opcode, dispatches to the matching format and semantics, and reports
    /// completion or a typed fault. The whole effect is pinned down by
    /// [`step_spec`].
    pub fn execute_instruction(&mut self, ins: u32) -> (r: Result<Step, Fault>)
        requires
            old(self).wf(),
        ensures
            final(self).wf(),
            final(self)@ == step_spec(old(self)@, ins).0,
            r == step_spec(old(self)@, ins).1,
    {
        let opcode = ins & 0b1111111;
        match opcode {
            0b0110111 => self.exec_lui(ins),
            0b0010111 => self.exec_auipc(ins),
            0b1101111 => self.exec_jal(ins),
            0b1100111 => self.exec_jalr(ins),
            0b1100011 => self.exec_branch(ins),
            0b0000011 => self.exec_load(ins),
            0b0100011 => self.exec_store(ins),
            0b0010011 => self.exec_op_imm(ins),
            0b0110011 => self.exec_op(ins),
            0b0001111 => Ok(Step::Continue),
            0b1110011 => self.exec_system(ins),
            _ => Err(Fault::IllegalInstruction),
        }
    }
}

/// Register 0 stays hard-wired to zero across any instruction: whatever word
/// executes from a well-formed state, slot 0 of the next state's register
/// file still reads zero.
pub proof fn lemma_step_preserves_zero_register(m: Machine, ins: u32)
    requires
        m.wf(),
    ensures
        step_spec(m, ins).0.regs.len() == 32,
        step_spec(m, ins).0.regs[0] == 0,
{
    assert(((ins >> 7) & 0b11111) < 32) by (bit_vector);
    assert(rd_of(ins) < 32);
}

} // verus!

