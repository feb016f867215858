//! The interpreter: decode and execute one instruction.
//!
//! The semantics of every instruction is a specification function from the
//! machine view to the machine view, and [`Cpu::decode_execute`] is proved
//! to implement it. The decoded fields and immediates follow the standard
//! RISC-V encodings.

use vstd::prelude::*;

use crate::bits::{lemma_inst_field_bounds, lemma_u64_mask_bounds};
use crate::cpu::{
    csr_read, csr_write, spec_cpu_load_r, spec_cpu_load_s, spec_cpu_store_r, spec_cpu_store_s,
    spec_update_paging, Cpu, CpuView, Mode,
};
use crate::csr::{MEPC, MSTATUS, SEPC, SSTATUS};
use crate::exception::Exception;

verus! {

/// The opcode field, bits 6 to 0.
pub open spec fn opcode_of(inst: u32) -> u32 {
    inst & 0x7f
}

/// The destination register field, bits 11 to 7.
pub open spec fn rd_of(inst: u32) -> u32 {
    (inst & 0x00000f80) >> 7
}

/// The first source register field, bits 19 to 15.
pub open spec fn rs1_of(inst: u32) -> u32 {
    (inst & 0x000f8000) >> 15
}

/// The second source register field, bits 24 to 20.
pub open spec fn rs2_of(inst: u32) -> u32 {
    (inst & 0x01f00000) >> 20
}

/// The funct3 field, bits 14 to 12.
pub open spec fn funct3_of(inst: u32) -> u32 {
    (inst & 0x00007000) >> 12
}

/// The funct7 field, bits 31 to 25.
pub open spec fn funct7_of(inst: u32) -> u32 {
    (inst & 0xfe000000) >> 25
}

/// The CSR address field, bits 31 to 20.
pub open spec fn csr_addr_of(inst: u32) -> u32 {
    (inst & 0xfff00000) >> 20
}

/// The sign-extended I-type immediate.
pub open spec fn imm_i(inst: u32) -> u64 {
    ((((inst & 0xfff00000) as i32) as i64) >> 20) as u64
}

/// The sign-extended S-type immediate.
pub open spec fn imm_s(inst: u32) -> u64 {
    (((((inst & 0xfe000000) as i32) as i64) >> 20) as u64) | (((inst >> 7) & 0x1f) as u64)
}

/// The sign-extended B-type immediate.
pub open spec fn imm_b(inst: u32) -> u64 {
    ((((inst & 0x80000000) as i32) as i64 >> 19) as u64) | (((inst >> 20) & 0x7e0) as u64) | (((
    inst & 0x80) << 4) as u64) | (((inst >> 7) & 0x1e) as u64)
}

/// The sign-extended U-type immediate, already shifted into place.
pub open spec fn imm_u(inst: u32) -> u64 {
    (((inst & 0xfffff000) as i32) as i64) as u64
}

/// The sign-extended J-type immediate.
pub open spec fn imm_j(inst: u32) -> u64 {
    ((((inst & 0x80000000) as i32) as i64 >> 11) as u64) | (((inst >> 20) & 0x7fe) as u64) | (((
    inst >> 9) & 0x800) as u64) | ((inst & 0xff000) as u64)
}

/// A byte sign-extended to 64 bits.
pub open spec fn sext8(v: u64) -> u64 {
    ((v as i8) as i64) as u64
}

/// A halfword sign-extended to 64 bits.
pub open spec fn sext16(v: u64) -> u64 {
    ((v as i16) as i64) as u64
}

/// A word sign-extended to 64 bits.
pub open spec fn sext32(v: u64) -> u64 {
    ((v as i32) as i64) as u64
}

/// The register file after a write: register zero is hardwired to zero, so
/// a write to it changes nothing.
pub open spec fn reg_write(regs: Seq<u64>, rd: int, v: u64) -> Seq<u64> {
    if rd == 0 {
        regs
    } else {
        regs.update(rd, v)
    }
}

/// The state after a write of `v` to register `rd`.
pub open spec fn with_reg(c: CpuView, rd: int, v: u64) -> CpuView {
    CpuView { regs: reg_write(c.regs, rd, v), ..c }
}

/// The state after the program counter is set to `pc`.
pub open spec fn with_pc(c: CpuView, pc: u64) -> CpuView {
    CpuView { pc, ..c }
}

/// Semantics of the load opcode: the effective address is `rs1` plus the
/// I-type immediate; the loaded value is sign- or zero-extended into `rd`.
pub open spec fn spec_exec_load(c: CpuView, inst: u32) -> (Result<(), Exception>, CpuView) {
    let addr = c.regs[rs1_of(inst) as int].wrapping_add(imm_i(inst));
    let rd = rd_of(inst) as int;
    let f3 = funct3_of(inst);
    if f3 == 0x7 {
        (Err(Exception::IllegalInstruction), c)
    } else {
        let size: usize = if f3 == 0x0 || f3 == 0x4 {
            8
        } else if f3 == 0x1 || f3 == 0x5 {
            16
        } else if f3 == 0x2 || f3 == 0x6 {
            32
        } else {
            64
        };
        let c1 = spec_cpu_load_s(c, addr, size);
        match spec_cpu_load_r(c, addr, size) {
            Err(e) => (Err(e), c1),
            Ok(v) => {
                let value = if f3 == 0x0 {
                    sext8(v)
                } else if f3 == 0x1 {
                    sext16(v)
                } else if f3 == 0x2 {
                    sext32(v)
                } else {
                    v
                };
                (Ok(()), with_reg(c1, rd, value))
            },
        }
    }
}

/// Semantics of the OP-IMM opcode: register-immediate arithmetic; shift
/// amounts come from the low six bits of the immediate, and a right-shift
/// word whose upper funct bits name neither the logical nor the arithmetic
/// shift is an illegal instruction.
pub open spec fn spec_exec_op_imm(c: CpuView, inst: u32) -> (Result<(), Exception>, CpuView) {
    let imm = imm_i(inst);
    let shamt = (imm & 0x3f) as u32;
    let x = c.regs[rs1_of(inst) as int];
    let rd = rd_of(inst) as int;
    let f3 = funct3_of(inst);
    if f3 == 0x0 {
        (Ok(()), with_reg(c, rd, x.wrapping_add(imm)))
    } else if f3 == 0x1 {
        (Ok(()), with_reg(c, rd, x << shamt))
    } else if f3 == 0x2 {
        (Ok(()), with_reg(c, rd, if (x as i64) < (imm as i64) { 1 } else { 0 }))
    } else if f3 == 0x3 {
        (Ok(()), with_reg(c, rd, if x < imm { 1 } else { 0 }))
    } else if f3 == 0x4 {
        (Ok(()), with_reg(c, rd, x ^ imm))
    } else if f3 == 0x5 {
        if funct7_of(inst) >> 1 == 0x00 {
            (Ok(()), with_reg(c, rd, x >> shamt))
        } else if funct7_of(inst) >> 1 == 0x10 {
            (Ok(()), with_reg(c, rd, ((x as i64) >> shamt) as u64))
        } else {
            (Err(Exception::IllegalInstruction), c)
        }
    } else if f3 == 0x6 {
        (Ok(()), with_reg(c, rd, x | imm))
    } else {
        (Ok(()), with_reg(c, rd, x & imm))
    }
}

/// Semantics of AUIPC: `rd` receives the address of the instruction plus
/// the U-type immediate.
pub open spec fn spec_exec_auipc(c: CpuView, inst: u32) -> (Result<(), Exception>, CpuView) {
    (Ok(()), with_reg(c, rd_of(inst) as int, c.pc.wrapping_sub(4).wrapping_add(imm_u(inst))))
}

/// Semantics of the OP-IMM-32 opcode: 32-bit register-immediate arithmetic,
/// with the result sign-extended to 64 bits.
pub open spec fn spec_exec_op_imm32(c: CpuView, inst: u32) -> (Result<(), Exception>, CpuView) {
    let imm = imm_i(inst);
    let shamt = (imm & 0x1f) as u32;
    let x = c.regs[rs1_of(inst) as int];
    let rd = rd_of(inst) as int;
    let f3 = funct3_of(inst);
    if f3 == 0x0 {
        (Ok(()), with_reg(c, rd, ((x.wrapping_add(imm) as i32) as i64) as u64))
    } else if f3 == 0x1 {
        (Ok(()), with_reg(c, rd, ((x.wrapping_shl(shamt) as i32) as i64) as u64))
    } else if f3 == 0x5 {
        if funct7_of(inst) == 0x00 {
            (Ok(()), with_reg(c, rd, ((((x as u32) >> shamt) as i32) as i64) as u64))
        } else if funct7_of(inst) == 0x20 {
            (Ok(()), with_reg(c, rd, (((x as i32) >> shamt) as i64) as u64))
        } else {
            (Err(Exception::IllegalInstruction), c)
        }
    } else {
        (Err(Exception::IllegalInstruction), c)
    }
}

/// Semantics of the store opcode: the effective address is `rs1` plus the
/// S-type immediate; the low bits of `rs2` are stored. A width selector
/// above the doubleword is an illegal instruction.
pub open spec fn spec_exec_store(c: CpuView, inst: u32) -> (Result<(), Exception>, CpuView) {
    let addr = c.regs[rs1_of(inst) as int].wrapping_add(imm_s(inst));
    let value = c.regs[rs2_of(inst) as int];
    let f3 = funct3_of(inst);
    if f3 > 0x3 {
        (Err(Exception::IllegalInstruction), c)
    } else {
        let size: usize = if f3 == 0x0 {
            8
        } else if f3 == 0x1 {
            16
        } else if f3 == 0x2 {
            32
        } else {
            64
        };
        let c1 = spec_cpu_store_s(c, addr, size, value);
        match spec_cpu_store_r(c, addr, size, value) {
            Err(e) => (Err(e), c1),
            Ok(_) => (Ok(()), c1),
        }
    }
}

/// Semantics of one atomic memory operation of width `size`: the old memory
/// value lands in `rd` and `new` is stored back.
pub open spec fn spec_exec_amo_one(
    c: CpuView,
    inst: u32,
    size: usize,
    swap: bool,
) -> (Result<(), Exception>, CpuView) {
    let addr = c.regs[rs1_of(inst) as int];
    let y = c.regs[rs2_of(inst) as int];
    let rd = rd_of(inst) as int;
    let c1 = spec_cpu_load_s(c, addr, size);
    match spec_cpu_load_r(c, addr, size) {
        Err(e) => (Err(e), c1),
        Ok(t) => {
            let new = if swap {
                y
            } else {
                t.wrapping_add(y)
            };
            let c2 = spec_cpu_store_s(c1, addr, size, new);
            match spec_cpu_store_r(c1, addr, size, new) {
                Err(e) => (Err(e), c2),
                Ok(_) => (Ok(()), with_reg(c2, rd, t)),
            }
        },
    }
}

/// Semantics of the atomic opcode: the supported subset is AMOADD and
/// AMOSWAP at 32 and 64 bits; the hart is single, so the read-modify-write
/// is architecturally atomic.
pub open spec fn spec_exec_amo(c: CpuView, inst: u32) -> (Result<(), Exception>, CpuView) {
    let f3 = funct3_of(inst);
    let funct5 = (funct7_of(inst) & 0x7c) >> 2;
    if f3 == 0x2 && funct5 == 0x00 {
        spec_exec_amo_one(c, inst, 32, false)
    } else if f3 == 0x3 && funct5 == 0x00 {
        spec_exec_amo_one(c, inst, 64, false)
    } else if f3 == 0x2 && funct5 == 0x01 {
        spec_exec_amo_one(c, inst, 32, true)
    } else if f3 == 0x3 && funct5 == 0x01 {
        spec_exec_amo_one(c, inst, 64, true)
    } else {
        (Err(Exception::IllegalInstruction), c)
    }
}

/// Semantics of the OP opcode: register-register arithmetic; a division by
/// zero yields all ones.
pub open spec fn spec_exec_op(c: CpuView, inst: u32) -> (Result<(), Exception>, CpuView) {
    let x = c.regs[rs1_of(inst) as int];
    let y = c.regs[rs2_of(inst) as int];
    let shamt = (y & 0x3f) as u32;
    let rd = rd_of(inst) as int;
    let f3 = funct3_of(inst);
    let f7 = funct7_of(inst);
    if f3 == 0x0 && f7 == 0x00 {
        (Ok(()), with_reg(c, rd, x.wrapping_add(y)))
    } else if f3 == 0x0 && f7 == 0x01 {
        (Ok(()), with_reg(c, rd, x.wrapping_mul(y)))
    } else if f3 == 0x0 && f7 == 0x20 {
        (Ok(()), with_reg(c, rd, x.wrapping_sub(y)))
    } else if f3 == 0x1 && f7 == 0x00 {
        (Ok(()), with_reg(c, rd, x.wrapping_shl(shamt)))
    } else if f3 == 0x2 && f7 == 0x00 {
        (Ok(()), with_reg(c, rd, if (x as i64) < (y as i64) { 1 } else { 0 }))
    } else if f3 == 0x3 && f7 == 0x00 {
        (Ok(()), with_reg(c, rd, if x < y { 1 } else { 0 }))
    } else if f3 == 0x4 && f7 == 0x00 {
        (Ok(()), with_reg(c, rd, x ^ y))
    } else if f3 == 0x5 && f7 == 0x00 {
        (Ok(()), with_reg(c, rd, x >> shamt))
    } else if f3 == 0x5 && f7 == 0x01 {
        (Ok(()), with_reg(c, rd, if y == 0 { 0xffff_ffff_ffff_ffff } else { x / y }))
    } else if f3 == 0x5 && f7 == 0x20 {
        (Ok(()), with_reg(c, rd, ((x as i64) >> shamt) as u64))
    } else if f3 == 0x6 && f7 == 0x00 {
        (Ok(()), with_reg(c, rd, x | y))
    } else if f3 == 0x7 && f7 == 0x00 {
        (Ok(()), with_reg(c, rd, x & y))
    } else {
        (Err(Exception::IllegalInstruction), c)
    }
}

/// Semantics of LUI: `rd` receives the U-type immediate.
pub open spec fn spec_exec_lui(c: CpuView, inst: u32) -> (Result<(), Exception>, CpuView) {
    (Ok(()), with_reg(c, rd_of(inst) as int, imm_u(inst)))
}

/// Semantics of the OP-32 opcode: 32-bit register-register arithmetic with
/// the result sign-extended; an unsigned division by zero yields all ones
/// and a remainder by zero yields the dividend.
pub open spec fn spec_exec_op32(c: CpuView, inst: u32) -> (Result<(), Exception>, CpuView) {
    let x = c.regs[rs1_of(inst) as int];
    let y = c.regs[rs2_of(inst) as int];
    let shamt = (y & 0x1f) as u32;
    let rd = rd_of(inst) as int;
    let f3 = funct3_of(inst);
    let f7 = funct7_of(inst);
    if f3 == 0x0 && f7 == 0x00 {
        (Ok(()), with_reg(c, rd, ((x.wrapping_add(y) as i32) as i64) as u64))
    } else if f3 == 0x0 && f7 == 0x20 {
        (Ok(()), with_reg(c, rd, (x.wrapping_sub(y) as i32) as u64))
    } else if f3 == 0x1 && f7 == 0x00 {
        (Ok(()), with_reg(c, rd, (((x as u32).wrapping_shl(shamt)) as i32) as u64))
    } else if f3 == 0x5 && f7 == 0x00 {
        (Ok(()), with_reg(c, rd, (((x as u32) >> shamt) as i32) as u64))
    } else if f3 == 0x5 && f7 == 0x01 {
        let value = if (y as u32) == 0 {
            0xffff_ffff_ffff_ffff
        } else {
            ((((x as u32) / (y as u32)) as i32) as u64)
        };
        (Ok(()), with_reg(c, rd, value))
    } else if f3 == 0x5 && f7 == 0x20 {
        (Ok(()), with_reg(c, rd, (((x as i32) >> shamt) as i64) as u64))
    } else if f3 == 0x7 && f7 == 0x01 {
        let value = if (y as u32) == 0 {
            x
        } else {
            ((((x as u32) % (y as u32)) as i32) as u64)
        };
        (Ok(()), with_reg(c, rd, value))
    } else {
        (Err(Exception::IllegalInstruction), c)
    }
}

/// Semantics of the branch opcode: a taken branch sets the program counter
/// to the branch's own address plus the B-type immediate.
pub open spec fn spec_exec_branch(c: CpuView, inst: u32) -> (Result<(), Exception>, CpuView) {
    let x = c.regs[rs1_of(inst) as int];
    let y = c.regs[rs2_of(inst) as int];
    let target = c.pc.wrapping_sub(4).wrapping_add(imm_b(inst));
    let f3 = funct3_of(inst);
    if f3 == 0x0 {
        (Ok(()), if x == y { with_pc(c, target) } else { c })
    } else if f3 == 0x1 {
        (Ok(()), if x != y { with_pc(c, target) } else { c })
    } else if f3 == 0x4 {
        (Ok(()), if (x as i64) < (y as i64) { with_pc(c, target) } else { c })
    } else if f3 == 0x5 {
        (Ok(()), if (x as i64) >= (y as i64) { with_pc(c, target) } else { c })
    } else if f3 == 0x6 {
        (Ok(()), if x < y { with_pc(c, target) } else { c })
    } else if f3 == 0x7 {
        (Ok(()), if x >= y { with_pc(c, target) } else { c })
    } else {
        (Err(Exception::IllegalInstruction), c)
    }
}

/// Semantics of JALR: `rd` receives the address of the next instruction and
/// the program counter becomes `rs1` plus the I-type immediate, with its
/// lowest bit cleared.
pub open spec fn spec_exec_jalr(c: CpuView, inst: u32) -> (Result<(), Exception>, CpuView) {
    let target = c.regs[rs1_of(inst) as int].wrapping_add(imm_i(inst)) & !1u64;
    (Ok(()), with_reg(with_pc(c, target), rd_of(inst) as int, c.pc))
}

/// Semantics of JAL: `rd` receives the address of the next instruction and
/// the program counter becomes the jump's own address plus the J-type
/// immediate.
pub open spec fn spec_exec_jal(c: CpuView, inst: u32) -> (Result<(), Exception>, CpuView) {
    let target = c.pc.wrapping_sub(4).wrapping_add(imm_j(inst));
    (Ok(()), with_pc(with_reg(c, rd_of(inst) as int, c.pc), target))
}

/// Semantics of SRET: the program counter is restored from `sepc`; the mode
/// comes from the SPP bit; the supervisor interrupt-enable bit is restored
/// from SPIE; SPIE becomes one and SPP becomes user.
pub open spec fn spec_exec_sret(c: CpuView) -> CpuView {
    let sstatus = csr_read(c.csr, SSTATUS as int);
    let mode2 = if (sstatus >> 8) & 1 == 1 {
        Mode::Supervisor
    } else {
        Mode::User
    };
    let s1 = if (sstatus >> 5) & 1 == 1 {
        sstatus | (1u64 << 1)
    } else {
        sstatus & !(1u64 << 1)
    };
    let s2 = s1 | (1u64 << 5);
    let s3 = s2 & !(1u64 << 8);
    CpuView {
        pc: csr_read(c.csr, SEPC as int),
        mode: mode2,
        csr: csr_write(c.csr, SSTATUS as int, s3),
        ..c
    }
}

/// Semantics of MRET: the program counter is restored from `mepc`; the mode
/// comes from the MPP field; the machine interrupt-enable bit is restored
/// from MPIE; MPIE becomes one and MPP becomes user.
pub open spec fn spec_exec_mret(c: CpuView) -> CpuView {
    let mstatus = csr_read(c.csr, MSTATUS as int);
    let mpp = (mstatus >> 11) & 0b11;
    let mode2 = if mpp == 3 {
        Mode::Machine
    } else if mpp == 1 {
        Mode::Supervisor
    } else {
        Mode::User
    };
    let m1 = if (mstatus >> 7) & 1 == 1 {
        mstatus | (1u64 << 3)
    } else {
        mstatus & !(1u64 << 3)
    };
    let m2 = m1 | (1u64 << 7);
    let m3 = m2 & !(3u64 << 11);
    CpuView {
        pc: csr_read(c.csr, MEPC as int),
        mode: mode2,
        csr: csr_write(c.csr, MSTATUS as int, m3),
        ..c
    }
}

/// Semantics of one CSR instruction: the old CSR value is read, the new
/// value is written, the old value lands in `rd`, and the paging state is
/// re-derived in case `satp` was written.
pub open spec fn spec_exec_csr_one(c: CpuView, inst: u32, new_value: u64) -> CpuView {
    let a = csr_addr_of(inst) as int;
    let t = csr_read(c.csr, a);
    let c1 = CpuView { csr: csr_write(c.csr, a, new_value), ..c };
    let c2 = with_reg(c1, rd_of(inst) as int, t);
    spec_update_paging(c2, a)
}

/// Semantics of the SYSTEM opcode: environment calls and breakpoints raise
/// their exceptions; SRET and MRET return from traps; SFENCE.VMA is a
/// no-op; the CSR instructions read and write the CSR file.
pub open spec fn spec_exec_system(c: CpuView, inst: u32) -> (Result<(), Exception>, CpuView) {
    let f3 = funct3_of(inst);
    let f7 = funct7_of(inst);
    let r2 = rs2_of(inst);
    let a = csr_addr_of(inst) as int;
    let t = csr_read(c.csr, a);
    let rs1v = c.regs[rs1_of(inst) as int];
    let uimm = rs1_of(inst) as u64;
    if f3 == 0x0 {
        if r2 == 0x0 && f7 == 0x0 {
            match c.mode {
                Mode::User => (Err(Exception::EnvironmentCallFromUMode), c),
                Mode::Supervisor => (Err(Exception::EnvironmentCallFromSMode), c),
                Mode::Machine => (Err(Exception::EnvironmentCallFromMMode), c),
            }
        } else if r2 == 0x1 && f7 == 0x0 {
            (Err(Exception::Breakpoint), c)
        } else if r2 == 0x2 && f7 == 0x8 {
            (Ok(()), spec_exec_sret(c))
        } else if r2 == 0x2 && f7 == 0x18 {
            (Ok(()), spec_exec_mret(c))
        } else if f7 == 0x9 {
            (Ok(()), c)
        } else {
            (Err(Exception::IllegalInstruction), c)
        }
    } else if f3 == 0x1 {
        (Ok(()), spec_exec_csr_one(c, inst, rs1v))
    } else if f3 == 0x2 {
        (Ok(()), spec_exec_csr_one(c, inst, t | rs1v))
    } else if f3 == 0x3 {
        (Ok(()), spec_exec_csr_one(c, inst, t & !rs1v))
    } else if f3 == 0x5 {
        (Ok(()), spec_exec_csr_one(c, inst, uimm))
    } else if f3 == 0x6 {
        (Ok(()), spec_exec_csr_one(c, inst, t | uimm))
    } else if f3 == 0x7 {
        (Ok(()), spec_exec_csr_one(c, inst, t & !uimm))
    } else {
        (Err(Exception::IllegalInstruction), c)
    }
}

/// Semantics of one decoded instruction against the machine state whose
/// program counter has already advanced past it. An unrecognised encoding
/// is an illegal instruction.
pub open spec fn spec_execute(c: CpuView, inst: u32) -> (Result<(), Exception>, CpuView) {
    let opcode = opcode_of(inst);
    if opcode == 0x03 {
        spec_exec_load(c, inst)
    } else if opcode == 0x0f {
        if funct3_of(inst) == 0x0 {
            (Ok(()), c)
        } else {
            (Err(Exception::IllegalInstruction), c)
        }
    } else if opcode == 0x13 {
        spec_exec_op_imm(c, inst)
    } else if opcode == 0x17 {
        spec_exec_auipc(c, inst)
    } else if opcode == 0x1b {
        spec_exec_op_imm32(c, inst)
    } else if opcode == 0x23 {
        spec_exec_store(c, inst)
    } else if opcode == 0x2f {
        spec_exec_amo(c, inst)
    } else if opcode == 0x33 {
        spec_exec_op(c, inst)
    } else if opcode == 0x37 {
        spec_exec_lui(c, inst)
    } else if opcode == 0x3b {
        spec_exec_op32(c, inst)
    } else if opcode == 0x63 {
        spec_exec_branch(c, inst)
    } else if opcode == 0x67 {
        spec_exec_jalr(c, inst)
    } else if opcode == 0x6f {
        spec_exec_jal(c, inst)
    } else if opcode == 0x73 {
        spec_exec_system(c, inst)
    } else {
        (Err(Exception::IllegalInstruction), c)
    }
}

/// Law: after SRET the mode equals the decoded SPP bit of `sstatus`, the
/// supervisor interrupt-enable bit equals the prior SPIE bit, SPIE becomes
/// one, SPP becomes user, and the program counter is restored from `sepc`.
pub proof fn lemma_sret_restores(c: CpuView)
    requires
        c.csr.len() == crate::csr::CSR_COUNT,
    ensures
        ({
            let c2 = spec_exec_sret(c);
            let old_s = csr_read(c.csr, SSTATUS as int);
            let new_s = csr_read(c2.csr, SSTATUS as int);
            &&& c2.pc == csr_read(c.csr, SEPC as int)
            &&& c2.mode == (if (old_s >> 8) & 1 == 1 {
                Mode::Supervisor
            } else {
                Mode::User
            })
            &&& (new_s >> 1) & 1 == (old_s >> 5) & 1
            &&& (new_s >> 5) & 1 == 1
            &&& (new_s >> 8) & 1 == 0
        }),
{
    let s = csr_read(c.csr, SSTATUS as int);
    if (s >> 5) & 1 == 1 {
        let n = ((s | (1u64 << 1)) | (1u64 << 5)) & !(1u64 << 8);
        assert((n >> 1) & 1 == 1 && (n >> 5) & 1 == 1 && (n >> 8) & 1 == 0) by (bit_vector)
            requires
                n == ((s | (1u64 << 1)) | (1u64 << 5)) & !(1u64 << 8),
        ;
    } else {
        let n = ((s & !(1u64 << 1)) | (1u64 << 5)) & !(1u64 << 8);
        assert((n >> 1) & 1 == 0 && (n >> 5) & 1 == 1 && (n >> 8) & 1 == 0 && (s >> 5) & 1 == 0)
            by (bit_vector)
            requires
                n == ((s & !(1u64 << 1)) | (1u64 << 5)) & !(1u64 << 8),
                (s >> 5) & 1 != 1,
        ;
    }
}

/// Law: after MRET the mode equals the decoded MPP field of `mstatus`, the
/// machine interrupt-enable bit equals the prior MPIE bit, MPIE becomes
/// one, MPP becomes user, and the program counter is restored from `mepc`.
pub proof fn lemma_mret_restores(c: CpuView)
    requires
        c.csr.len() == crate::csr::CSR_COUNT,
    ensures
        ({
            let c2 = spec_exec_mret(c);
            let old_m = csr_read(c.csr, MSTATUS as int);
            let new_m = csr_read(c2.csr, MSTATUS as int);
            let mpp = (old_m >> 11) & 0b11;
            &&& c2.pc == csr_read(c.csr, MEPC as int)
            &&& c2.mode == (if mpp == 3 {
                Mode::Machine
            } else if mpp == 1 {
                Mode::Supervisor
            } else {
                Mode::User
            })
            &&& (new_m >> 3) & 1 == (old_m >> 7) & 1
            &&& (new_m >> 7) & 1 == 1
            &&& (new_m >> 11) & 0b11 == 0
        }),
{
    let m = csr_read(c.csr, MSTATUS as int);
    if (m >> 7) & 1 == 1 {
        let n = ((m | (1u64 << 3)) | (1u64 << 7)) & !(3u64 << 11);
        assert((n >> 3) & 1 == 1 && (n >> 7) & 1 == 1 && (n >> 11) & 0b11 == 0) by (bit_vector)
            requires
                n == ((m | (1u64 << 3)) | (1u64 << 7)) & !(3u64 << 11),
        ;
    } else {
        let n = ((m & !(1u64 << 3)) | (1u64 << 7)) & !(3u64 << 11);
        assert((n >> 3) & 1 == 0 && (n >> 7) & 1 == 1 && (n >> 11) & 0b11 == 0 && (m >> 7) & 1
            == 0) by (bit_vector)
            requires
                n == ((m & !(1u64 << 3)) | (1u64 << 7)) & !(3u64 << 11),
                (m >> 7) & 1 != 1,
        ;
    }
}

/// Law: sign extension of a loaded byte fills the upper bits with its sign
/// bit; in particular a loaded byte of 0xff lands in the destination
/// register as a word of all ones.
pub proof fn lemma_lb_sign_extends()
    ensures
        sext8(0xff) == 0xffff_ffff_ffff_ffff,
        forall|v: u64| v <= 0x7f ==> #[trigger] sext8(v) == v,
{
    assert(((0xffu64 as i8) as i64) as u64 == 0xffff_ffff_ffff_ffff) by (bit_vector);
    assert(forall|v: u64| v <= 0x7f ==> #[trigger] (((v as i8) as i64) as u64) == v)
        by (bit_vector);
}

/// Law: AUIPC leaves in `rd` the address of the instruction itself plus the
/// shifted, sign-extended U-type immediate, and moves nothing else; a
/// destination of register zero discards the write, register zero being
/// hardwired to zero.
pub proof fn lemma_auipc(c: CpuView, inst: u32)
    requires
        c.regs.len() == 32,
        opcode_of(inst) == 0x17,
    ensures
        ({
            let (r, c2) = spec_execute(c, inst);
            &&& r is Ok
            &&& c2.pc == c.pc
            &&& rd_of(inst) != 0 ==> c2.regs[rd_of(inst) as int] == c.pc.wrapping_sub(
                4,
            ).wrapping_add(imm_u(inst))
            &&& rd_of(inst) == 0 ==> c2.regs == c.regs
        }),
{
    lemma_inst_field_bounds();
}

impl Cpu {
    /// Write a value to a general register; a write to register zero is
    /// ignored.
    fn set_reg(&mut self, rd: usize, v: u64)
        requires
            old(self)@.regs.len() == 32,
            rd < 32,
        ensures
            final(self)@ == (CpuView { regs: reg_write(old(self)@.regs, rd as int, v), ..old(
                self,
            )@ }),
    {
        if rd != 0 {
            self.regs[rd] = v;
        }
    }

    /// Execute a load instruction.
    fn exec_load(&mut self, inst: u32) -> (r: Result<(), Exception>)
        requires
            old(self)@.wf(),
        ensures
            final(self)@.wf(),
            r == spec_exec_load(old(self)@, inst).0,
            final(self)@ == spec_exec_load(old(self)@, inst).1,
    {
        proof {
            lemma_inst_field_bounds();
        }
        let rd = ((inst & 0x00000f80) >> 7) as usize;
        let rs1 = ((inst & 0x000f8000) >> 15) as usize;
        let f3 = (inst & 0x00007000) >> 12;
        let imm = ((((inst & 0xfff00000) as i32) as i64) >> 20i64) as u64;
        let addr = self.reg(rs1).wrapping_add(imm);
        if f3 == 0x7 {
            return Err(Exception::IllegalInstruction);
        }
        let size: usize = if f3 == 0x0 || f3 == 0x4 {
            8
        } else if f3 == 0x1 || f3 == 0x5 {
            16
        } else if f3 == 0x2 || f3 == 0x6 {
            32
        } else {
            64
        };
        let v = match self.load(addr, size) {
            Ok(v) => v,
            Err(e) => {
                return Err(e);
            },
        };
        let value = if f3 == 0x0 {
            ((v as i8) as i64) as u64
        } else if f3 == 0x1 {
            ((v as i16) as i64) as u64
        } else if f3 == 0x2 {
            ((v as i32) as i64) as u64
        } else {
            v
        };
        self.set_reg(rd, value);
        Ok(())
    }

    /// Execute an OP-IMM instruction.
    fn exec_op_imm(&mut self, inst: u32) -> (r: Result<(), Exception>)
        requires
            old(self)@.wf(),
        ensures
            final(self)@.wf(),
            r == spec_exec_op_imm(old(self)@, inst).0,
            final(self)@ == spec_exec_op_imm(old(self)@, inst).1,
    {
        proof {
            lemma_inst_field_bounds();
            lemma_u64_mask_bounds();
        }
        let rd = ((inst & 0x00000f80) >> 7) as usize;
        let rs1 = ((inst & 0x000f8000) >> 15) as usize;
        let f3 = (inst & 0x00007000) >> 12;
        let f7 = (inst & 0xfe000000) >> 25;
        let imm = ((((inst & 0xfff00000) as i32) as i64) >> 20i64) as u64;
        let shamt = (imm & 0x3f) as u32;
        let x = self.reg(rs1);
        if f3 == 0x0 {
            self.set_reg(rd, x.wrapping_add(imm));
        } else if f3 == 0x1 {
            self.set_reg(rd, x << shamt);
        } else if f3 == 0x2 {
            self.set_reg(rd, if (x as i64) < (imm as i64) { 1 } else { 0 });
        } else if f3 == 0x3 {
            self.set_reg(rd, if x < imm { 1 } else { 0 });
        } else if f3 == 0x4 {
            self.set_reg(rd, x ^ imm);
        } else if f3 == 0x5 {
            if f7 >> 1 == 0x00 {
                self.set_reg(rd, x >> shamt);
            } else if f7 >> 1 == 0x10 {
                self.set_reg(rd, ((x as i64) >> shamt) as u64);
            } else {
                return Err(Exception::IllegalInstruction);
            }
        } else if f3 == 0x6 {
            self.set_reg(rd, x | imm);
        } else {
            self.set_reg(rd, x & imm);
        }
        Ok(())
    }

    /// Execute an OP-IMM-32 instruction.
    fn exec_op_imm32(&mut self, inst: u32) -> (r: Result<(), Exception>)
        requires
            old(self)@.wf(),
        ensures
            final(self)@.wf(),
            r == spec_exec_op_imm32(old(self)@, inst).0,
            final(self)@ == spec_exec_op_imm32(old(self)@, inst).1,
    {
        proof {
            lemma_inst_field_bounds();
            lemma_u64_mask_bounds();
        }
        let rd = ((inst & 0x00000f80) >> 7) as usize;
        let rs1 = ((inst & 0x000f8000) >> 15) as usize;
        let f3 = (inst & 0x00007000) >> 12;
        let f7 = (inst & 0xfe000000) >> 25;
        let imm = ((((inst & 0xfff00000) as i32) as i64) >> 20i64) as u64;
        let shamt = (imm & 0x1f) as u32;
        let x = self.reg(rs1);
        if f3 == 0x0 {
            self.set_reg(rd, ((x.wrapping_add(imm) as i32) as i64) as u64);
            Ok(())
        } else if f3 == 0x1 {
            self.set_reg(rd, ((x.wrapping_shl(shamt) as i32) as i64) as u64);
            Ok(())
        } else if f3 == 0x5 {
            if f7 == 0x00 {
                self.set_reg(rd, ((((x as u32) >> shamt) as i32) as i64) as u64);
                Ok(())
            } else if f7 == 0x20 {
                self.set_reg(rd, (((x as i32) >> shamt) as i64) as u64);
                Ok(())
            } else {
                Err(Exception::IllegalInstruction)
            }
        } else {
            Err(Exception::IllegalInstruction)
        }
    }

    /// Execute a store instruction.
    fn exec_store(&mut self, inst: u32) -> (r: Result<(), Exception>)
        requires
            old(self)@.wf(),
        ensures
            final(self)@.wf(),
            r == spec_exec_store(old(self)@, inst).0,
            final(self)@ == spec_exec_store(old(self)@, inst).1,
    {
        proof {
            lemma_inst_field_bounds();
        }
        let rs1 = ((inst & 0x000f8000) >> 15) as usize;
        let rs2 = ((inst & 0x01f00000) >> 20) as usize;
        let f3 = (inst & 0x00007000) >> 12;
        let imm = (((((inst & 0xfe000000) as i32) as i64) >> 20i64) as u64) | (((inst >> 7) & 0x1f)
            as u64);
        let addr = self.reg(rs1).wrapping_add(imm);
        let value = self.reg(rs2);
        if f3 > 0x3 {
            return Err(Exception::IllegalInstruction);
        }
        let size: usize = if f3 == 0x0 {
            8
        } else if f3 == 0x1 {
            16
        } else if f3 == 0x2 {
            32
        } else {
            64
        };
        self.store(addr, size, value)
    }

    /// Execute one atomic memory operation of width `size`.
    fn exec_amo_one(&mut self, inst: u32, size: usize, swap: bool) -> (r: Result<(), Exception>)
        requires
            old(self)@.wf(),
        ensures
            final(self)@.wf(),
            r == spec_exec_amo_one(old(self)@, inst, size, swap).0,
            final(self)@ == spec_exec_amo_one(old(self)@, inst, size, swap).1,
    {
        proof {
            lemma_inst_field_bounds();
        }
        let rd = ((inst & 0x00000f80) >> 7) as usize;
        let rs1 = ((inst & 0x000f8000) >> 15) as usize;
        let rs2 = ((inst & 0x01f00000) >> 20) as usize;
        let addr = self.reg(rs1);
        let y = self.reg(rs2);
        let t = match self.load(addr, size) {
            Ok(v) => v,
            Err(e) => {
                return Err(e);
            },
        };
        let new = if swap {
            y
        } else {
            t.wrapping_add(y)
        };
        match self.store(addr, size, new) {
            Ok(_) => {},
            Err(e) => {
                return Err(e);
            },
        }
        self.set_reg(rd, t);
        Ok(())
    }

    /// Execute an atomic instruction.
    fn exec_amo(&mut self, inst: u32) -> (r: Result<(), Exception>)
        requires
            old(self)@.wf(),
        ensures
            final(self)@.wf(),
            r == spec_exec_amo(old(self)@, inst).0,
            final(self)@ == spec_exec_amo(old(self)@, inst).1,
    {
        let f3 = (inst & 0x00007000) >> 12;
        let f7 = (inst & 0xfe000000) >> 25;
        let funct5 = (f7 & 0x7c) >> 2;
        if f3 == 0x2 && funct5 == 0x00 {
            self.exec_amo_one(inst, 32, false)
        } else if f3 == 0x3 && funct5 == 0x00 {
            self.exec_amo_one(inst, 64, false)
        } else if f3 == 0x2 && funct5 == 0x01 {
            self.exec_amo_one(inst, 32, true)
        } else if f3 == 0x3 && funct5 == 0x01 {
            self.exec_amo_one(inst, 64, true)
        } else {
            Err(Exception::IllegalInstruction)
        }
    }

    /// Execute an OP instruction.
    fn exec_op(&mut self, inst: u32) -> (r: Result<(), Exception>)
        requires
            old(self)@.wf(),
        ensures
            final(self)@.wf(),
            r == spec_exec_op(old(self)@, inst).0,
            final(self)@ == spec_exec_op(old(self)@, inst).1,
    {
        proof {
            lemma_inst_field_bounds();
            lemma_u64_mask_bounds();
        }
        let rd = ((inst & 0x00000f80) >> 7) as usize;
        let rs1 = ((inst & 0x000f8000) >> 15) as usize;
        let rs2 = ((inst & 0x01f00000) >> 20) as usize;
        let f3 = (inst & 0x00007000) >> 12;
        let f7 = (inst & 0xfe000000) >> 25;
        let x = self.reg(rs1);
        let y = self.reg(rs2);
        let shamt = (y & 0x3f) as u32;
        if f3 == 0x0 && f7 == 0x00 {
            self.set_reg(rd, x.wrapping_add(y));
            Ok(())
        } else if f3 == 0x0 && f7 == 0x01 {
            self.set_reg(rd, x.wrapping_mul(y));
            Ok(())
        } else if f3 == 0x0 && f7 == 0x20 {
            self.set_reg(rd, x.wrapping_sub(y));
            Ok(())
        } else if f3 == 0x1 && f7 == 0x00 {
            self.set_reg(rd, x.wrapping_shl(shamt));
            Ok(())
        } else if f3 == 0x2 && f7 == 0x00 {
            self.set_reg(rd, if (x as i64) < (y as i64) { 1 } else { 0 });
            Ok(())
        } else if f3 == 0x3 && f7 == 0x00 {
            self.set_reg(rd, if x < y { 1 } else { 0 });
            Ok(())
        } else if f3 == 0x4 && f7 == 0x00 {
            self.set_reg(rd, x ^ y);
            Ok(())
        } else if f3 == 0x5 && f7 == 0x00 {
            self.set_reg(rd, x >> shamt);
            Ok(())
        } else if f3 == 0x5 && f7 == 0x01 {
            self.set_reg(rd, if y == 0 { 0xffff_ffff_ffff_ffff } else { x / y });
            Ok(())
        } else if f3 == 0x5 && f7 == 0x20 {
            self.set_reg(rd, ((x as i64) >> shamt) as u64);
            Ok(())
        } else if f3 == 0x6 && f7 == 0x00 {
            self.set_reg(rd, x | y);
            Ok(())
        } else if f3 == 0x7 && f7 == 0x00 {
            self.set_reg(rd, x & y);
            Ok(())
        } else {
            Err(Exception::IllegalInstruction)
        }
    }

    /// Execute an OP-32 instruction.
    fn exec_op32(&mut self, inst: u32) -> (r: Result<(), Exception>)
        requires
            old(self)@.wf(),
        ensures
            final(self)@.wf(),
            r == spec_exec_op32(old(self)@, inst).0,
            final(self)@ == spec_exec_op32(old(self)@, inst).1,
    {
        proof {
            lemma_inst_field_bounds();
            lemma_u64_mask_bounds();
        }
        let rd = ((inst & 0x00000f80) >> 7) as usize;
        let rs1 = ((inst & 0x000f8000) >> 15) as usize;
        let rs2 = ((inst & 0x01f00000) >> 20) as usize;
        let f3 = (inst & 0x00007000) >> 12;
        let f7 = (inst & 0xfe000000) >> 25;
        let x = self.reg(rs1);
        let y = self.reg(rs2);
        let shamt = (y & 0x1f) as u32;
        if f3 == 0x0 && f7 == 0x00 {
            self.set_reg(rd, ((x.wrapping_add(y) as i32) as i64) as u64);
            Ok(())
        } else if f3 == 0x0 && f7 == 0x20 {
            self.set_reg(rd, (x.wrapping_sub(y) as i32) as u64);
            Ok(())
        } else if f3 == 0x1 && f7 == 0x00 {
            self.set_reg(rd, (((x as u32).wrapping_shl(shamt)) as i32) as u64);
            Ok(())
        } else if f3 == 0x5 && f7 == 0x00 {
            self.set_reg(rd, (((x as u32) >> shamt) as i32) as u64);
            Ok(())
        } else if f3 == 0x5 && f7 == 0x01 {
            let value = if (y as u32) == 0 {
                0xffff_ffff_ffff_ffff
            } else {
                ((((x as u32) / (y as u32)) as i32) as u64)
            };
            self.set_reg(rd, value);
            Ok(())
        } else if f3 == 0x5 && f7 == 0x20 {
            self.set_reg(rd, (((x as i32) >> shamt) as i64) as u64);
            Ok(())
        } else if f3 == 0x7 && f7 == 0x01 {
            let value = if (y as u32) == 0 {
                x
            } else {
                ((((x as u32) % (y as u32)) as i32) as u64)
            };
            self.set_reg(rd, value);
            Ok(())
        } else {
            Err(Exception::IllegalInstruction)
        }
    }

    /// Execute a branch instruction.
    fn exec_branch(&mut self, inst: u32) -> (r: Result<(), Exception>)
        requires
            old(self)@.wf(),
        ensures
            final(self)@.wf(),
            r == spec_exec_branch(old(self)@, inst).0,
            final(self)@ == spec_exec_branch(old(self)@, inst).1,
    {
        proof {
            lemma_inst_field_bounds();
        }
        let rs1 = ((inst & 0x000f8000) >> 15) as usize;
        let rs2 = ((inst & 0x01f00000) >> 20) as usize;
        let f3 = (inst & 0x00007000) >> 12;
        let imm = (((((inst & 0x80000000) as i32) as i64) >> 19i64) as u64) | (((inst >> 20)
            & 0x7e0) as u64) | (((inst & 0x80) << 4) as u64) | (((inst >> 7) & 0x1e) as u64);
        let x = self.reg(rs1);
        let y = self.reg(rs2);
        let target = self.pc.wrapping_sub(4).wrapping_add(imm);
        let taken = if f3 == 0x0 {
            x == y
        } else if f3 == 0x1 {
            x != y
        } else if f3 == 0x4 {
            (x as i64) < (y as i64)
        } else if f3 == 0x5 {
            (x as i64) >= (y as i64)
        } else if f3 == 0x6 {
            x < y
        } else if f3 == 0x7 {
            x >= y
        } else {
            return Err(Exception::IllegalInstruction);
        };
        if taken {
            self.pc = target;
        }
        Ok(())
    }

    /// Execute a SYSTEM instruction.
    fn exec_system(&mut self, inst: u32) -> (r: Result<(), Exception>)
        requires
            old(self)@.wf(),
        ensures
            final(self)@.wf(),
            r == spec_exec_system(old(self)@, inst).0,
            final(self)@ == spec_exec_system(old(self)@, inst).1,
    {
        proof {
            lemma_inst_field_bounds();
        }
        let rd = ((inst & 0x00000f80) >> 7) as usize;
        let rs1 = ((inst & 0x000f8000) >> 15) as usize;
        let rs2 = ((inst & 0x01f00000) >> 20) as usize;
        let f3 = (inst & 0x00007000) >> 12;
        let f7 = (inst & 0xfe000000) >> 25;
        let a = ((inst & 0xfff00000) >> 20) as usize;
        if f3 == 0x0 {
            if rs2 == 0x0 && f7 == 0x0 {
                // ECALL
                match self.mode {
                    Mode::User => Err(Exception::EnvironmentCallFromUMode),
                    Mode::Supervisor => Err(Exception::EnvironmentCallFromSMode),
                    Mode::Machine => Err(Exception::EnvironmentCallFromMMode),
                }
            } else if rs2 == 0x1 && f7 == 0x0 {
                // EBREAK
                Err(Exception::Breakpoint)
            } else if rs2 == 0x2 && f7 == 0x8 {
                // SRET
                let sstatus = self.load_csr(SSTATUS);
                self.pc = self.load_csr(SEPC);
                self.mode = if (sstatus >> 8u64) & 1 == 1 {
                    Mode::Supervisor
                } else {
                    Mode::User
                };
                let s1 = if (sstatus >> 5u64) & 1 == 1 {
                    sstatus | (1u64 << 1)
                } else {
                    sstatus & !(1u64 << 1)
                };
                let s3 = (s1 | (1u64 << 5)) & !(1u64 << 8);
                self.store_csr(SSTATUS, s3);
                Ok(())
            } else if rs2 == 0x2 && f7 == 0x18 {
                // MRET
                let mstatus = self.load_csr(MSTATUS);
                self.pc = self.load_csr(MEPC);
                let mpp = (mstatus >> 11u64) & 0b11;
                self.mode = if mpp == 3 {
                    Mode::Machine
                } else if mpp == 1 {
                    Mode::Supervisor
                } else {
                    Mode::User
                };
                let m1 = if (mstatus >> 7u64) & 1 == 1 {
                    mstatus | (1u64 << 3)
                } else {
                    mstatus & !(1u64 << 3)
                };
                let m3 = (m1 | (1u64 << 7)) & !(3u64 << 11);
                self.store_csr(MSTATUS, m3);
                Ok(())
            } else if f7 == 0x9 {
                // SFENCE.VMA: a no-op on a single hart.
                Ok(())
            } else {
                Err(Exception::IllegalInstruction)
            }
        } else if f3 == 0x1 || f3 == 0x2 || f3 == 0x3 || f3 == 0x5 || f3 == 0x6 || f3 == 0x7 {
            let t = self.load_csr(a);
            let rs1v = self.reg(rs1);
            let uimm = rs1 as u64;
            let new_value = if f3 == 0x1 {
                rs1v
            } else if f3 == 0x2 {
                t | rs1v
            } else if f3 == 0x3 {
                t & !rs1v
            } else if f3 == 0x5 {
                uimm
            } else if f3 == 0x6 {
                t | uimm
            } else {
                t & !uimm
            };
            self.store_csr(a, new_value);
            self.set_reg(rd, t);
            self.update_paging(a);
            Ok(())
        } else {
            Err(Exception::IllegalInstruction)
        }
    }

    /// Decode and execute one instruction. The program counter has already
    /// advanced past the instruction; register zero still reads as zero
    /// afterwards, whatever the instruction wrote.
    pub fn decode_execute(&mut self, inst: u32) -> (r: Result<(), Exception>)
        requires
            old(self)@.wf(),
        ensures
            final(self)@.wf(),
            final(self)@.regs[0] == 0,
            r == spec_execute(old(self)@, inst).0,
            final(self)@ == spec_execute(old(self)@, inst).1,
    {
        let opcode = inst & 0x7f;
        if opcode == 0x03 {
            self.exec_load(inst)
        } else if opcode == 0x0f {
            // FENCE: a no-op, since instructions execute sequentially on a
            // single hart.
            let f3 = (inst & 0x00007000) >> 12;
            if f3 == 0x0 {
                Ok(())
            } else {
                Err(Exception::IllegalInstruction)
            }
        } else if opcode == 0x13 {
            self.exec_op_imm(inst)
        } else if opcode == 0x17 {
            // AUIPC
            proof {
                lemma_inst_field_bounds();
            }
            let rd = ((inst & 0x00000f80) >> 7) as usize;
            let imm = ((((inst & 0xfffff000) as i32) as i64)) as u64;
            let value = self.pc.wrapping_sub(4).wrapping_add(imm);
            self.set_reg(rd, value);
            Ok(())
        } else if opcode == 0x1b {
            self.exec_op_imm32(inst)
        } else if opcode == 0x23 {
            self.exec_store(inst)
        } else if opcode == 0x2f {
            self.exec_amo(inst)
        } else if opcode == 0x33 {
            self.exec_op(inst)
        } else if opcode == 0x37 {
            // LUI
            proof {
                lemma_inst_field_bounds();
            }
            let rd = ((inst & 0x00000f80) >> 7) as usize;
            let imm = ((((inst & 0xfffff000) as i32) as i64)) as u64;
            self.set_reg(rd, imm);
            Ok(())
        } else if opcode == 0x3b {
            self.exec_op32(inst)
        } else if opcode == 0x63 {
            self.exec_branch(inst)
        } else if opcode == 0x67 {
            // JALR
            proof {
                lemma_inst_field_bounds();
            }
            let rd = ((inst & 0x00000f80) >> 7) as usize;
            let rs1 = ((inst & 0x000f8000) >> 15) as usize;
            let imm = ((((inst & 0xfff00000) as i32) as i64) >> 20i64) as u64;
            let t = self.pc;
            self.pc = self.reg(rs1).wrapping_add(imm) & !1u64;
            self.set_reg(rd, t);
            Ok(())
        } else if opcode == 0x6f {
            // JAL
            proof {
                lemma_inst_field_bounds();
            }
            let rd = ((inst & 0x00000f80) >> 7) as usize;
            let imm = (((((inst & 0x80000000) as i32) as i64) >> 11i64) as u64) | (((inst >> 20)
                & 0x7fe) as u64) | (((inst >> 9) & 0x800) as u64) | ((inst & 0xff000) as u64);
            self.set_reg(rd, self.pc);
            self.pc = self.pc.wrapping_sub(4).wrapping_add(imm);
            Ok(())
        } else if opcode == 0x73 {
            self.exec_system(inst)
        } else {
            Err(Exception::IllegalInstruction)
        }
    }
}

} // verus!
