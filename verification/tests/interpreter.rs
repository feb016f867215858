//! Tests of instruction decoding and execution through whole fetch-execute
//! steps.

use rvcore::cpu::{Cpu, Mode};
use rvcore::encode::{
    encode_btype, encode_itype, encode_jtype, encode_rtype, encode_stype, encode_utype,
};
use rvcore::exception::Exception;
use rvcore::memory::MEMORY_BASE;

fn program(words: &[u32]) -> Vec<u8> {
    let mut bytes = Vec::new();
    for w in words {
        bytes.extend_from_slice(&w.to_le_bytes());
    }
    bytes
}

fn cpu_running(words: &[u32]) -> Cpu {
    let mut cpu = Cpu::new(program(words), Vec::new());
    for _ in 0..words.len() {
        assert!(cpu.step());
    }
    cpu
}

#[test]
fn addi_writes_destination_and_advances_pc() {
    // addi x1, x0, 42 at the base of memory.
    let mut cpu = Cpu::new(program(&[encode_itype(0x13, 1, 0, 0, 42)]), Vec::new());
    assert!(cpu.step());
    assert_eq!(cpu.reg(1), 42);
    assert_eq!(cpu.pc, 0x8000_0004);
}

#[test]
fn register_zero_is_hardwired() {
    // addi x0, x0, 42 leaves register zero at zero.
    let cpu = cpu_running(&[encode_itype(0x13, 0, 0, 0, 42)]);
    assert_eq!(cpu.reg(0), 0);
}

#[test]
fn lb_sign_extends_a_full_byte() {
    // auipc x2, 0; lb x1, 0x100(x2) — the byte at base + 0x100 is 0xff.
    let mut bytes = program(&[encode_utype(0x17, 2, 0), encode_itype(0x03, 1, 0, 2, 0x100)]);
    bytes.resize(0x101, 0);
    bytes[0x100] = 0xff;
    let mut cpu = Cpu::new(bytes, Vec::new());
    assert!(cpu.step());
    assert!(cpu.step());
    assert_eq!(cpu.reg(1), 0xFFFF_FFFF_FFFF_FFFF);
}

#[test]
fn lbu_zero_extends() {
    let mut bytes = program(&[encode_utype(0x17, 2, 0), encode_itype(0x03, 1, 4, 2, 0x100)]);
    bytes.resize(0x101, 0);
    bytes[0x100] = 0xff;
    let mut cpu = Cpu::new(bytes, Vec::new());
    assert!(cpu.step());
    assert!(cpu.step());
    assert_eq!(cpu.reg(1), 0xff);
}

#[test]
fn auipc_adds_shifted_immediate_to_instruction_address() {
    // auipc x1, 1 at the base of memory.
    let cpu = cpu_running(&[encode_utype(0x17, 1, 1)]);
    assert_eq!(cpu.reg(1), MEMORY_BASE + 0x1000);
}

#[test]
fn store_then_load_word_sign_extends() {
    // lui x1, 1; addi x1, x1, -1; auipc x3, 0; sw x1, 0xf8(x3); lw x2, 0xf4(x3)
    // writes 0xfff at base + 0x100 and reads it back.
    let cpu = cpu_running(&[
        encode_utype(0x37, 1, 1),
        encode_itype(0x13, 1, 0, 1, -1),
        encode_utype(0x17, 3, 0),
        encode_stype(0x23, 2, 3, 1, 0xf8),
        encode_itype(0x03, 2, 2, 3, 0xf8),
    ]);
    assert_eq!(cpu.reg(1), 0xfff);
    assert_eq!(cpu.reg(2), 0xfff);
}

#[test]
fn sd_and_ld_round_trip() {
    // x1 = -1 (all ones); store and load back as a doubleword.
    let cpu = cpu_running(&[
        encode_itype(0x13, 1, 0, 0, -1),
        encode_utype(0x17, 3, 0),
        encode_stype(0x23, 3, 3, 1, 0x100),
        encode_itype(0x03, 3, 3, 3, 0x100),
    ]);
    assert_eq!(cpu.reg(1), u64::MAX);
    assert_eq!(cpu.reg(3), u64::MAX);
}

#[test]
fn op_register_arithmetic() {
    // x1 = 21, x2 = 2: add, sub, mul.
    let cpu = cpu_running(&[
        encode_itype(0x13, 1, 0, 0, 21),
        encode_itype(0x13, 2, 0, 0, 2),
        encode_rtype(0x33, 3, 0, 1, 2, 0x00),
        encode_rtype(0x33, 4, 0, 1, 2, 0x20),
        encode_rtype(0x33, 5, 0, 1, 2, 0x01),
    ]);
    assert_eq!(cpu.reg(3), 23);
    assert_eq!(cpu.reg(4), 19);
    assert_eq!(cpu.reg(5), 42);
}

#[test]
fn divu_by_zero_yields_all_ones() {
    let cpu = cpu_running(&[
        encode_itype(0x13, 1, 0, 0, 42),
        encode_rtype(0x33, 3, 5, 1, 0, 0x01),
    ]);
    assert_eq!(cpu.reg(3), u64::MAX);
}

#[test]
fn divu_divides() {
    let cpu = cpu_running(&[
        encode_itype(0x13, 1, 0, 0, 42),
        encode_itype(0x13, 2, 0, 0, 5),
        encode_rtype(0x33, 3, 5, 1, 2, 0x01),
    ]);
    assert_eq!(cpu.reg(3), 8);
}

#[test]
fn slt_and_sltu_compare() {
    // x1 = -1 (unsigned max), x2 = 1.
    let cpu = cpu_running(&[
        encode_itype(0x13, 1, 0, 0, -1),
        encode_itype(0x13, 2, 0, 0, 1),
        encode_rtype(0x33, 3, 2, 1, 2, 0x00),
        encode_rtype(0x33, 4, 3, 1, 2, 0x00),
        encode_itype(0x13, 5, 2, 1, 0),
        encode_itype(0x13, 6, 3, 1, 0),
    ]);
    assert_eq!(cpu.reg(3), 1); // -1 < 1 signed
    assert_eq!(cpu.reg(4), 0); // max >= 1 unsigned
    assert_eq!(cpu.reg(5), 1); // slti: -1 < 0 signed
    assert_eq!(cpu.reg(6), 0); // sltiu: max >= 0 unsigned
}

#[test]
fn shifts_mask_their_amounts() {
    // srai of a negative value keeps the sign; srli does not.
    let cpu = cpu_running(&[
        encode_itype(0x13, 1, 0, 0, -8),
        encode_itype(0x13, 2, 5, 1, 2), // srli x2, x1, 2
        encode_itype(0x13, 3, 5, 1, 0x402), // srai x3, x1, 2 (funct6 0x10)
        encode_itype(0x13, 4, 1, 1, 1), // slli x4, x1, 1
    ]);
    assert_eq!(cpu.reg(2), (u64::MAX - 7) >> 2);
    assert_eq!(cpu.reg(3), u64::MAX - 1); // -8 >> 2 == -2
    assert_eq!(cpu.reg(4), u64::MAX - 15); // -8 << 1 == -16
}

#[test]
fn logic_ops_and_immediates() {
    let cpu = cpu_running(&[
        encode_itype(0x13, 1, 0, 0, 0b1100),
        encode_itype(0x13, 2, 4, 1, 0b1010), // xori
        encode_itype(0x13, 3, 6, 1, 0b1010), // ori
        encode_itype(0x13, 4, 7, 1, 0b1010), // andi
    ]);
    assert_eq!(cpu.reg(2), 0b0110);
    assert_eq!(cpu.reg(3), 0b1110);
    assert_eq!(cpu.reg(4), 0b1000);
}

#[test]
fn op32_sign_extends_results() {
    // addiw with overflow into bit 31 sign-extends; subw; sraw.
    let cpu = cpu_running(&[
        encode_utype(0x37, 1, 0x7ffff), // lui x1, 0x7ffff -> 0x7fff_f000
        encode_itype(0x1b, 2, 0, 1, -1), // addiw x2, x1, -1
        encode_itype(0x13, 3, 0, 0, 1),
        encode_rtype(0x3b, 4, 0, 1, 3, 0x00), // addw x4 = x1 + 1
        encode_rtype(0x3b, 5, 0, 3, 1, 0x20), // subw x5 = 1 - x1
    ]);
    assert_eq!(cpu.reg(2), 0x7fff_efff);
    assert_eq!(cpu.reg(4), 0x7fff_f001);
    assert_eq!(cpu.reg(5), (1u64.wrapping_sub(0x7fff_f000) as i32) as u64);
}

#[test]
fn divuw_and_remuw_handle_zero_divisors() {
    let cpu = cpu_running(&[
        encode_itype(0x13, 1, 0, 0, 42),
        encode_rtype(0x3b, 3, 5, 1, 0, 0x01), // divuw by zero
        encode_rtype(0x3b, 4, 7, 1, 0, 0x01), // remuw by zero
        encode_itype(0x13, 2, 0, 0, 5),
        encode_rtype(0x3b, 5, 5, 1, 2, 0x01), // divuw 42/5
        encode_rtype(0x3b, 6, 7, 1, 2, 0x01), // remuw 42%5
    ]);
    assert_eq!(cpu.reg(3), u64::MAX);
    assert_eq!(cpu.reg(4), 42);
    assert_eq!(cpu.reg(5), 8);
    assert_eq!(cpu.reg(6), 2);
}

#[test]
fn beq_taken_lands_exactly_on_its_label() {
    // beq x0, x0, +12: the branch at base sets the pc to base + 12.
    let mut cpu = Cpu::new(program(&[encode_btype(0x63, 0, 0, 0, 12)]), Vec::new());
    assert!(cpu.step());
    assert_eq!(cpu.pc, MEMORY_BASE + 12);
}

#[test]
fn beq_backwards_offset() {
    // Instruction 1: beq x0, x0, -4 jumps back to the base.
    let mut cpu = Cpu::new(
        program(&[encode_itype(0x13, 1, 0, 0, 7), encode_btype(0x63, 0, 0, 0, -4)]),
        Vec::new(),
    );
    assert!(cpu.step());
    assert!(cpu.step());
    assert_eq!(cpu.pc, MEMORY_BASE);
}

#[test]
fn branch_conditions() {
    // bne not taken when equal; blt/bge/bltu/bgeu on -1 versus 1.
    let mut cpu = Cpu::new(
        program(&[
            encode_itype(0x13, 1, 0, 0, -1),
            encode_itype(0x13, 2, 0, 0, 1),
            encode_btype(0x63, 1, 0, 0, 100), // bne x0, x0 -> not taken
            encode_btype(0x63, 4, 1, 2, 8),   // blt x1, x2 -> taken (signed)
            0,
            encode_btype(0x63, 6, 1, 2, 100), // bltu x1, x2 -> not taken (unsigned)
            encode_btype(0x63, 7, 1, 2, 8),   // bgeu x1, x2 -> taken
        ]),
        Vec::new(),
    );
    for _ in 0..3 {
        assert!(cpu.step());
    }
    assert_eq!(cpu.pc, MEMORY_BASE + 12);
    assert!(cpu.step());
    assert_eq!(cpu.pc, MEMORY_BASE + 20);
    assert!(cpu.step());
    assert_eq!(cpu.pc, MEMORY_BASE + 24);
    assert!(cpu.step());
    assert_eq!(cpu.pc, MEMORY_BASE + 32);
}

#[test]
fn jal_links_and_jumps() {
    let mut cpu = Cpu::new(program(&[encode_jtype(0x6f, 1, 16)]), Vec::new());
    assert!(cpu.step());
    assert_eq!(cpu.reg(1), MEMORY_BASE + 4);
    assert_eq!(cpu.pc, MEMORY_BASE + 16);
}

#[test]
fn jalr_links_and_clears_low_bit() {
    // x2 = base + 0x101 via auipc/addi; jalr x1, 0(x2) lands on base + 0x100.
    let mut cpu = Cpu::new(
        program(&[
            encode_utype(0x17, 2, 0),
            encode_itype(0x13, 2, 0, 2, 0x101),
            encode_itype(0x67, 1, 0, 2, 0),
        ]),
        Vec::new(),
    );
    assert!(cpu.step());
    assert!(cpu.step());
    assert!(cpu.step());
    assert_eq!(cpu.reg(1), MEMORY_BASE + 12);
    assert_eq!(cpu.pc, MEMORY_BASE + 0x100);
}

#[test]
fn amoadd_returns_old_value_and_updates_memory() {
    // x1 = base + 0x100 (aligned), memory there = 30, x2 = 12.
    let cpu = cpu_running(&[
        encode_utype(0x17, 1, 0),
        encode_itype(0x13, 1, 0, 1, 0x100),
        encode_itype(0x13, 3, 0, 0, 30),
        encode_stype(0x23, 2, 1, 3, 0),
        encode_itype(0x13, 2, 0, 0, 12),
        encode_rtype(0x2f, 4, 2, 1, 2, 0x00), // amoadd.w
        encode_itype(0x03, 5, 2, 1, 0),       // lw x5
    ]);
    assert_eq!(cpu.reg(4), 30);
    assert_eq!(cpu.reg(5), 42);
}

#[test]
fn amoswap_exchanges_values() {
    let cpu = cpu_running(&[
        encode_utype(0x17, 1, 0),
        encode_itype(0x13, 1, 0, 1, 0x100),
        encode_itype(0x13, 3, 0, 0, 30),
        encode_stype(0x23, 3, 1, 3, 0),
        encode_itype(0x13, 2, 0, 0, 12),
        encode_rtype(0x2f, 4, 3, 1, 2, 0x04), // amoswap.d (funct5 1 -> funct7 0x04)
        encode_itype(0x03, 5, 3, 1, 0),       // ld x5
    ]);
    assert_eq!(cpu.reg(4), 30);
    assert_eq!(cpu.reg(5), 12);
}

#[test]
fn fence_is_a_no_op() {
    let mut cpu = Cpu::new(Vec::new(), Vec::new());
    assert_eq!(cpu.decode_execute(0x0000_000f), Ok(()));
}

#[test]
fn unknown_opcode_is_illegal() {
    let mut cpu = Cpu::new(Vec::new(), Vec::new());
    assert_eq!(cpu.decode_execute(0xffff_ffff), Err(Exception::IllegalInstruction));
    assert_eq!(cpu.decode_execute(0x0000_0000), Err(Exception::IllegalInstruction));
}

#[test]
fn op_imm_shift_with_unknown_funct_is_illegal() {
    // An OP-IMM right-shift word whose upper immediate bits name neither the
    // logical nor the arithmetic shift.
    let mut cpu = Cpu::new(Vec::new(), Vec::new());
    assert_eq!(
        cpu.decode_execute(encode_itype(0x13, 1, 5, 1, 0x100)),
        Err(Exception::IllegalInstruction)
    );
    assert_eq!(cpu.decode_execute(0x04005013), Err(Exception::IllegalInstruction));
}

#[test]
fn store_with_unknown_width_is_illegal() {
    // A store word whose width selector lies above the doubleword.
    let mut cpu = Cpu::new(Vec::new(), Vec::new());
    assert_eq!(
        cpu.decode_execute(encode_stype(0x23, 4, 1, 2, 0)),
        Err(Exception::IllegalInstruction)
    );
    assert_eq!(
        cpu.decode_execute(encode_stype(0x23, 7, 1, 2, 0)),
        Err(Exception::IllegalInstruction)
    );
}

#[test]
fn ebreak_raises_breakpoint() {
    let mut cpu = Cpu::new(Vec::new(), Vec::new());
    assert_eq!(cpu.decode_execute(0x0010_0073), Err(Exception::Breakpoint));
}

#[test]
fn ecall_reflects_the_current_mode() {
    let mut cpu = Cpu::new(Vec::new(), Vec::new());
    assert_eq!(cpu.mode, Mode::Machine);
    assert_eq!(cpu.decode_execute(0x0000_0073), Err(Exception::EnvironmentCallFromMMode));
    cpu.mode = Mode::Supervisor;
    assert_eq!(cpu.decode_execute(0x0000_0073), Err(Exception::EnvironmentCallFromSMode));
    cpu.mode = Mode::User;
    assert_eq!(cpu.decode_execute(0x0000_0073), Err(Exception::EnvironmentCallFromUMode));
}

#[test]
fn lh_lhu_and_lwu_extend_as_specified() {
    // A halfword 0xff80 and word 0x8000_0001 at base + 0x100.
    let mut bytes = program(&[
        encode_utype(0x17, 2, 0),
        encode_itype(0x03, 1, 1, 2, 0x100), // lh
        encode_itype(0x03, 3, 5, 2, 0x100), // lhu
        encode_itype(0x03, 4, 6, 2, 0x104), // lwu
        encode_itype(0x03, 5, 2, 2, 0x104), // lw
    ]);
    bytes.resize(0x108, 0);
    bytes[0x100..0x102].copy_from_slice(&0xff80u16.to_le_bytes());
    bytes[0x104..0x108].copy_from_slice(&0x8000_0001u32.to_le_bytes());
    let mut cpu = Cpu::new(bytes, Vec::new());
    for _ in 0..5 {
        assert!(cpu.step());
    }
    assert_eq!(cpu.reg(1), 0xffff_ffff_ffff_ff80);
    assert_eq!(cpu.reg(3), 0xff80);
    assert_eq!(cpu.reg(4), 0x8000_0001);
    assert_eq!(cpu.reg(5), 0xffff_ffff_8000_0001);
}

#[test]
fn negative_store_offset() {
    // x3 = base + 8; sb x1, -4(x3) writes the byte at base + 4 after both
    // instructions there have run.
    let cpu = cpu_running(&[
        encode_itype(0x13, 1, 0, 0, 0x5a),
        encode_utype(0x17, 3, 0),
        encode_itype(0x13, 3, 0, 3, 0x100),
        encode_stype(0x23, 0, 3, 1, -4),
        encode_itype(0x03, 4, 4, 3, -4), // lbu x4, -4(x3)
    ]);
    assert_eq!(cpu.reg(4), 0x5a);
}

#[test]
fn sfence_vma_is_a_no_op() {
    // sfence.vma x0, x0: funct7 0x09, funct3 0, opcode 0x73.
    let mut cpu = Cpu::new(Vec::new(), Vec::new());
    assert_eq!(cpu.decode_execute(encode_rtype(0x73, 0, 0, 0, 0, 0x09)), Ok(()));
}

#[test]
fn loop_program_sums_one_to_five() {
    // x1 = counter, x4 = sum, x3 = limit 5:
    //   addi x3, x0, 5
    //   addi x1, x1, 1
    //   add  x4, x4, x1
    //   bne  x1, x3, -8
    let mut cpu = Cpu::new(
        program(&[
            encode_itype(0x13, 3, 0, 0, 5),
            encode_itype(0x13, 1, 0, 1, 1),
            encode_rtype(0x33, 4, 0, 4, 1, 0x00),
            encode_btype(0x63, 1, 1, 3, -8),
        ]),
        Vec::new(),
    );
    // 1 + 5 * 3 steps: the setup and five turns of the loop.
    for _ in 0..16 {
        assert!(cpu.step());
    }
    assert_eq!(cpu.reg(4), 15);
    assert_eq!(cpu.pc, MEMORY_BASE + 16);
}

#[test]
fn stack_pointer_starts_at_the_top_of_memory() {
    let cpu = Cpu::new(Vec::new(), Vec::new());
    assert_eq!(cpu.reg(2), 0x8000_0000 + 128 * 1024 * 1024);
    assert_eq!(cpu.pc, MEMORY_BASE);
}
