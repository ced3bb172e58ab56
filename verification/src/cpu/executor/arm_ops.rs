//! Execution of ARM (32-bit) instructions.
use vstd::prelude::*;
use crate::bits::{
    bit_u32, extract_bit_u32, extract_bits_u32, field_u32, lemma_u32_masks, sext24,
    sign_extend_24, byte_to_word_signed, half_to_word_signed, sign_extend_byte,
    sign_extend_half,
};
use crate::cpu::operations::{
    add_op, and_op, asr, bic_op, condition_holds, condition_of, eor_op, mvn_op, orr_op,
    rotr, rsb_op, should_branch, sub_op, add_with_carry_spec, arithmetic_shift_right,
    rotate_right, mul_cycles, mul_cycles_spec, Condition,
};
use crate::cpu::registers::{RegsView, THUMB_MODE, SIGN_FLAG, ZERO_FLAG};
use crate::cpu::{
    count_ones, count_set, in_list, load_list, load_list_ok, reg_step, store_list, store_list_ok,
    CpuView, Step, CPU,
};
use crate::memory::{
    read_u16_ok, read_u32_ok, read_u8_ok, spec_read_u16, spec_read_u32, spec_read_u8,
    spec_write_u16, spec_write_u32, spec_write_u8, write_u16_ok, write_u32_ok, write_u8_ok,
    MemView, Memory, MemoryAccess,
};

verus! {

broadcast use {crate::bits::group_bits, crate::cpu::registers::lemma_regs_len};

/// The executor that an ARM instruction is decoded to.
#[derive(Debug, Clone, Copy, PartialEq, Eq, Structural)]
pub enum ArmExecutor {
    NoOp,
    BranchAndBranchExchange,
    BlockDataTransfer,
    Branch,
    SoftwareInterrupt,
    Undefined,
    SingleDataTransfer,
    SingleDataSwap,
    Multiply,
    MultiplyLong,
    HalfwordDataTransferRegister,
    HalfwordDataTransferImmediate,
    PsrTransferMrs,
    PsrTransferMsr,
    DataProcessing,
}

/// The register numbered by the `len`-bit field at `start`.
pub open spec fn reg_at(regs: RegsView, opcode: u32, start: u32) -> u32 {
    regs.r[field_u32(opcode, start, 4) as int]
}

/// The condition field (bits 28..32).
pub open spec fn arm_cond(opcode: u32) -> Condition {
    condition_of(field_u32(opcode, 28, 4) as u16)
}

/// The condition field names a condition (0xF names none).
pub open spec fn arm_cond_valid(opcode: u32) -> bool {
    field_u32(opcode, 28, 4) != 0xF
}

/// The instruction's condition holds.
pub open spec fn arm_executes(regs: RegsView, opcode: u32) -> bool {
    condition_holds(regs, arm_cond(opcode))
}

/// A register operand shifted by an immediate amount (type 0 LSL, 1 LSR,
/// 2 ASR, 3 ROR; an amount of 0 means 32 for LSR and ASR and 1 for ROR).
pub open spec fn shift_imm_operand(rm_val: u32, shift_imm: u32, shift_type: u32) -> u32 {
    if shift_type == 0 {
        rm_val << shift_imm
    } else if shift_type == 1 {
        rm_val >> (if shift_imm == 0 { 32u32 } else { shift_imm })
    } else if shift_type == 2 {
        asr(rm_val, shift_imm)
    } else if shift_type == 3 {
        rotr(rm_val, if shift_imm == 0 { 1u32 } else { shift_imm })
    } else {
        rm_val
    }
}

/// The shift is one the shifter can do: an LSR or ASR by 32 overflows the
/// 32-bit shift.
pub open spec fn shift_imm_ok(shift_imm: u32, shift_type: u32) -> bool {
    !(shift_imm == 0 && (shift_type == 1 || shift_type == 2))
}

fn shifted_operand(rm_val: u32, shift_imm: u32, shift_type: u32) -> (r: u32)
    requires
        shift_imm < 32,
        shift_type < 4,
        shift_imm_ok(shift_imm, shift_type),
    ensures
        r == shift_imm_operand(rm_val, shift_imm, shift_type),
{
    match shift_type {
        0 => rm_val << shift_imm,
        1 => rm_val >> if shift_imm == 0 { 32 } else { shift_imm },
        2 => arithmetic_shift_right(rm_val, shift_imm),
        3 => rotate_right(rm_val, if shift_imm == 0 { 1 } else { shift_imm }),
        _ => rm_val,
    }
}

/// An ARM 12-bit immediate: the low byte rotated right by twice bits 8..12.
pub open spec fn expand_imm(imm: u32) -> u32 {
    let rotate = (imm >> 8u32) & 0xF;
    let imm_val = imm & 0xFF;
    if rotate == 0 {
        imm_val
    } else {
        rotr(imm_val, (rotate * 2) as u32)
    }
}

pub fn arm_expand_immediate(imm: u32) -> (r: u32)
    ensures
        r == expand_imm(imm),
{
    let rotate = (imm >> 8) & 0xF;
    let imm_val = imm & 0xFF;
    if rotate == 0 {
        imm_val
    } else {
        let rotate_bits = rotate * 2;
        rotate_right(imm_val, rotate_bits)
    }
}

/// The second operand of a register-form instruction (bits 0..12 as a
/// shifted register).
pub open spec fn reg_shift_operand(regs: RegsView, operand2: u32) -> u32 {
    shift_imm_operand(
        regs.r[field_u32(operand2, 0, 4) as int],
        field_u32(operand2, 7, 5),
        field_u32(operand2, 5, 2),
    )
}

pub open spec fn reg_shift_ok(operand2: u32) -> bool {
    shift_imm_ok(field_u32(operand2, 7, 5), field_u32(operand2, 5, 2))
}

// ---------------------------------------------------------------------------
// Branches

/// B: PC + 4 plus the sign-extended 24-bit word offset.
pub open spec fn branch_regs(regs: RegsView, opcode: u32) -> RegsView {
    let offset = sext24(field_u32(opcode, 0, 24)) * 4;
    regs.with_r(15, regs.pc().wrapping_add(4).wrapping_add_signed(offset as i32))
}

/// BL: LR is the address after the BL (PC after the fetch), and the branch
/// goes where B would.
pub open spec fn branch_with_link_regs(regs: RegsView, opcode: u32) -> RegsView {
    branch_regs(regs.with_r(14, regs.pc()), opcode)
}

/// BX: the T bit from bit 0 of Rn, and PC = Rn with bit 0 clear.
pub open spec fn branch_exchange_regs(regs: RegsView, opcode: u32) -> RegsView {
    let rn_val = reg_at(regs, opcode, 0);
    regs.with_flag(THUMB_MODE, bit_u32(rn_val, 0)).with_r(15, rn_val & !1u32)
}

/// BLX: LR is the visible PC + 4, then as BX.
pub open spec fn branch_with_link_register_regs(regs: RegsView, opcode: u32) -> RegsView {
    let rn_val = reg_at(regs, opcode, 0);
    regs.with_r(14, (regs.visible_pc() + 4) as u32).with_flag(THUMB_MODE, bit_u32(rn_val, 0)).with_r(
        15,
        rn_val & !1u32,
    )
}

/// The branch instructions, selected by bits 25..28, 24 and 4..8.
pub open spec fn branch_exchange_result(regs: RegsView, opcode: u32) -> (RegsView, u64) {
    if !arm_executes(regs, opcode) {
        (regs, 1)
    } else {
        let bit_24 = bit_u32(opcode, 24);
        let bits_27_25 = field_u32(opcode, 25, 3);
        let bits_7_4 = field_u32(opcode, 4, 4);
        if bits_27_25 == 0b101 && !bit_24 {
            (branch_regs(regs, opcode), 3)
        } else if bits_27_25 == 0b101 && bit_24 {
            (branch_with_link_regs(regs, opcode), 3)
        } else if bits_27_25 == 0b000 && bits_7_4 == 0b0001 {
            (branch_exchange_regs(regs, opcode), 2)
        } else if bits_27_25 == 0b000 && bits_7_4 == 0b0011 {
            (branch_with_link_register_regs(regs, opcode), 3)
        } else {
            (regs, 0)
        }
    }
}

/// The branch instructions run without overflow: the link address of BLX
/// fits in a word.
pub open spec fn branch_exchange_ok(regs: RegsView, opcode: u32) -> bool {
    &&& arm_cond_valid(opcode)
    &&& arm_executes(regs, opcode) && field_u32(opcode, 25, 3) == 0b000 && field_u32(opcode, 4, 4)
        == 0b0011 ==> regs.visible_pc() + 4 <= u32::MAX
}

// ---------------------------------------------------------------------------
// Block data transfer

/// The address of the lowest word of an LDM/STM block: Rn (increment
/// after), Rn + 4 (increment before), Rn - 4n (decrement before) or
/// Rn - 4n + 4 (decrement after), for n listed registers.
pub open spec fn block_start(regs: RegsView, opcode: u32) -> u32 {
    let p = bit_u32(opcode, 24);
    let u = bit_u32(opcode, 23);
    let base = reg_at(regs, opcode, 16);
    let num = count_set(field_u32(opcode, 0, 16), 16);
    let lowest = if u { base } else { base.wrapping_sub((num * 4) as u32) };
    if p == u { lowest.wrapping_add(4) } else { lowest }
}

/// LDM/STM: the registers of bits 0..16 to or from consecutive words in
/// ascending order from `block_start`; with W=1 Rn is written back to Rn
/// plus (U=1) or minus (U=0) four times their number.
pub open spec fn block_data_transfer_step(regs: RegsView, mem: MemView, opcode: u32) -> Step {
    if !arm_executes(regs, opcode) {
        reg_step(regs, mem, 1)
    } else {
        let u = bit_u32(opcode, 23);
        let w = bit_u32(opcode, 21);
        let l = bit_u32(opcode, 20);
        let rn = field_u32(opcode, 16, 4);
        let rlist = field_u32(opcode, 0, 16);
        let base = regs.r[rn as int];
        let num = count_set(rlist, 16);
        let start = block_start(regs, opcode);
        let regs2 = if l { load_list(regs, mem, rlist, start, 16) } else { regs };
        let mem2 = if l { mem } else { store_list(regs, mem, rlist, start, 16) };
        let final_addr = if u {
            base.wrapping_add((num * 4) as u32)
        } else {
            base.wrapping_sub((num * 4) as u32)
        };
        let regs3 = if w { regs2.with_r(rn as int, final_addr) } else { regs2 };
        Step { regs: regs3, mem: mem2, cycles: if l { (num + 1) as u64 } else { (num + 2) as u64 } }
    }
}

pub open spec fn block_data_transfer_ok(regs: RegsView, opcode: u32) -> bool {
    &&& arm_cond_valid(opcode)
    &&& arm_executes(regs, opcode) ==> {
        let rlist = field_u32(opcode, 0, 16);
        let start = block_start(regs, opcode);
        if bit_u32(opcode, 20) {
            load_list_ok(rlist, start, 16)
        } else {
            store_list_ok(rlist, start, 16)
        }
    }
}

// ---------------------------------------------------------------------------
// Exceptions

/// SWI: LR = PC - 4, CPSR = 0x13 (supervisor), PC = 0x08, R0 = the comment.
pub open spec fn software_interrupt_regs(regs: RegsView, opcode: u32) -> RegsView {
    regs.with_r(14, (regs.pc() - 4) as u32).with_cpsr(0x13).with_r(15, 0x08).with_r(
        0,
        field_u32(opcode, 0, 24),
    )
}

/// Undefined instruction: LR = PC - 4, CPSR = 0x1B, PC = 0x04.
pub open spec fn undefined_regs(regs: RegsView) -> RegsView {
    regs.with_r(14, (regs.pc() - 4) as u32).with_cpsr(0x1B).with_r(15, 0x04)
}

/// BKPT: LR = PC - 4, CPSR = 0x17 (abort), PC = 0x0C, R0 = the comment.
pub open spec fn bkpt_regs(regs: RegsView, opcode: u32) -> RegsView {
    regs.with_r(14, (regs.pc() - 4) as u32).with_cpsr(0x17).with_r(15, 0x0C).with_r(
        0,
        field_u32(opcode, 0, 20),
    )
}

// ---------------------------------------------------------------------------
// Single data transfer and swap

/// The offset of LDR/STR: the 12-bit immediate (I=0) or the shifted Rm (I=1).
pub open spec fn single_transfer_offset(regs: RegsView, opcode: u32) -> u32 {
    if !bit_u32(opcode, 25) {
        field_u32(opcode, 0, 12)
    } else {
        reg_shift_operand(regs, opcode)
    }
}

/// The address of LDR/STR: Rn plus (U=1) or minus (U=0) the offset.
pub open spec fn single_transfer_addr(regs: RegsView, opcode: u32) -> u32 {
    let base = reg_at(regs, opcode, 16);
    let offset = single_transfer_offset(regs, opcode);
    if bit_u32(opcode, 23) {
        base.wrapping_add(offset)
    } else {
        base.wrapping_sub(offset)
    }
}

/// The address LDR/STR accesses: Rn plus or minus the offset when
/// pre-indexed (P=1), Rn itself when post-indexed (P=0).
pub open spec fn single_access_addr(regs: RegsView, opcode: u32) -> u32 {
    if bit_u32(opcode, 24) {
        single_transfer_addr(regs, opcode)
    } else {
        reg_at(regs, opcode, 16)
    }
}

/// LDR/STR of a word or (B=1) a byte. Pre-indexed (P=1), the access is at
/// Rn +/- offset, written back to Rn when W=1; post-indexed (P=0), the
/// access is at Rn and Rn is then set to Rn +/- offset.
pub open spec fn single_data_transfer_step(regs: RegsView, mem: MemView, opcode: u32) -> Step {
    if !arm_executes(regs, opcode) {
        reg_step(regs, mem, 1)
    } else {
        let b = bit_u32(opcode, 22);
        let w = bit_u32(opcode, 21);
        let l = bit_u32(opcode, 20);
        let rn = field_u32(opcode, 16, 4);
        let rd = field_u32(opcode, 12, 4);
        let rd_val = regs.r[rd as int];
        let addr = single_access_addr(regs, opcode);
        let regs2 = if l {
            regs.with_r(
                rd as int,
                if b { spec_read_u8(mem, addr) as u32 } else { spec_read_u32(mem, addr) },
            )
        } else {
            regs
        };
        let mem2 = if l {
            mem
        } else if b {
            spec_write_u8(mem, addr, rd_val as u8)
        } else {
            spec_write_u32(mem, addr, rd_val)
        };
        let regs3 = if w || !bit_u32(opcode, 24) {
            regs2.with_r(rn as int, single_transfer_addr(regs, opcode))
        } else {
            regs2
        };
        Step { regs: regs3, mem: mem2, cycles: if l { 3 } else { 2 } }
    }
}

pub open spec fn single_data_transfer_ok(regs: RegsView, opcode: u32) -> bool {
    &&& arm_cond_valid(opcode)
    &&& bit_u32(opcode, 25) ==> reg_shift_ok(opcode)
    &&& arm_executes(regs, opcode) ==> {
        let addr = single_access_addr(regs, opcode);
        let b = bit_u32(opcode, 22);
        if bit_u32(opcode, 20) {
            if b { read_u8_ok(addr) } else { read_u32_ok(addr) }
        } else {
            if b { write_u8_ok(addr) } else { write_u32_ok(addr) }
        }
    }
}

/// SWP: Rd = mem[Rn], then mem[Rn] = Rm (the value Rm held before).
pub open spec fn single_data_swap_step(regs: RegsView, mem: MemView, opcode: u32) -> Step {
    if !arm_executes(regs, opcode) {
        reg_step(regs, mem, 1)
    } else {
        let addr = reg_at(regs, opcode, 16);
        let rm_val = reg_at(regs, opcode, 0);
        Step {
            regs: regs.with_r(field_u32(opcode, 12, 4) as int, spec_read_u32(mem, addr)),
            mem: spec_write_u32(mem, addr, rm_val),
            cycles: 4,
        }
    }
}

pub open spec fn single_data_swap_ok(regs: RegsView, opcode: u32) -> bool {
    &&& arm_cond_valid(opcode)
    &&& arm_executes(regs, opcode) ==> read_u32_ok(reg_at(regs, opcode, 16)) && write_u32_ok(
        reg_at(regs, opcode, 16),
    )
}

// ---------------------------------------------------------------------------
// Multiplies

/// N and Z from a result when S is set.
pub open spec fn with_nz_if(regs: RegsView, s: bool, v: u32) -> RegsView {
    if s {
        regs.with_flag(SIGN_FLAG, (v & 0x8000_0000) != 0).with_flag(ZERO_FLAG, v == 0)
    } else {
        regs
    }
}

/// MUL (bits 21..25 = 0): Rd = Rm * Rs; MLA (= 1): Rd = Rm * Rs + Rn; both
/// modulo 2^32, taking 1S + mI cycles with m = 1..4 from the significant
/// bytes of the multiplier Rs. Other values of bits 21..25 do nothing and
/// take 1 cycle.
pub open spec fn multiply_result(regs: RegsView, opcode: u32) -> (RegsView, u64) {
    if !arm_executes(regs, opcode) {
        (regs, 1)
    } else {
        let op = field_u32(opcode, 21, 4);
        let s = bit_u32(opcode, 20);
        let rd = field_u32(opcode, 16, 4) as int;
        let product = reg_at(regs, opcode, 0) as int * reg_at(regs, opcode, 8) as int;
        if op == 0 {
            let r = product as u32;
            (with_nz_if(regs.with_r(rd, r), s, r), mul_cycles_spec(reg_at(regs, opcode, 8)))
        } else if op == 1 {
            let r = (product + reg_at(regs, opcode, 12)) as u32;
            (with_nz_if(regs.with_r(rd, r), s, r), mul_cycles_spec(reg_at(regs, opcode, 8)))
        } else {
            (regs, 1)
        }
    }
}

/// The 64-bit product of UMULL/UMLAL (U, bit 22, clear: unsigned operands)
/// or SMULL/SMLAL (U set: signed operands), as a 64-bit pattern.
pub open spec fn long_product(regs: RegsView, opcode: u32) -> u64 {
    let rm = reg_at(regs, opcode, 0);
    let rs = reg_at(regs, opcode, 8);
    if bit_u32(opcode, 22) {
        ((rm as i32) as int * (rs as i32) as int) as u64
    } else {
        (rm as int * rs as int) as u64
    }
}

/// The long multiplies: RdHi:RdLo = Rm * Rs, plus RdHi:RdLo when A (bit 21)
/// is set, modulo 2^64. With S=1, N and Z come from the low word of the
/// product. 2 cycles.
pub open spec fn multiply_long_result(regs: RegsView, opcode: u32) -> (RegsView, u64) {
    if !arm_executes(regs, opcode) {
        (regs, 1)
    } else {
        let s = bit_u32(opcode, 20);
        let rdhi = field_u32(opcode, 16, 4) as int;
        let rdlo = field_u32(opcode, 12, 4) as int;
        let product = long_product(regs, opcode);
        let acc = regs.r[rdlo] as u64 | ((regs.r[rdhi] as u64) << 32u64);
        let total = if bit_u32(opcode, 21) { product.wrapping_add(acc) } else { product };
        let regs2 = regs.with_r(rdlo, total as u32).with_r(rdhi, (total >> 32u64) as u32);
        (with_nz_if(regs2, s, product as u32), 2)
    }
}

// ---------------------------------------------------------------------------
// Halfword and signed transfers

/// The offset of LDRH/STRH: `(bits 8..12 << 4) | bits 0..4` when post-indexed
/// or I=0; when pre-indexed with I=1, `bits 0..4` if bits 8..12 and Rm are
/// both 0, else `(bits 8..12 << 4) | Rm`.
pub open spec fn halfword_offset(regs: RegsView, opcode: u32) -> u32 {
    let upper = field_u32(opcode, 8, 4);
    let rm = field_u32(opcode, 0, 4);
    if !bit_u32(opcode, 24) || !bit_u32(opcode, 22) {
        (upper << 4u32) | (opcode & 0xF)
    } else if upper == 0 && rm == 0 {
        opcode & 0xF
    } else {
        (upper << 4u32) | regs.r[rm as int]
    }
}

/// Rn plus (U=1) or minus (U=0) the offset.
pub open spec fn halfword_indexed(regs: RegsView, opcode: u32) -> u32 {
    let base = reg_at(regs, opcode, 16);
    let offset = halfword_offset(regs, opcode);
    if bit_u32(opcode, 23) {
        base.wrapping_add(offset)
    } else {
        base.wrapping_sub(offset)
    }
}

/// The transfer address: indexed when pre-indexed (P=1), Rn when post-indexed.
pub open spec fn halfword_addr(regs: RegsView, opcode: u32) -> u32 {
    if bit_u32(opcode, 24) {
        halfword_indexed(regs, opcode)
    } else {
        reg_at(regs, opcode, 16)
    }
}

/// The loaded value for bits 4..8: LDRH for 1, 5, 0xD; LDRSB for 2, 7;
/// LDRSH for 3, 0xB; 0 otherwise.
pub open spec fn halfword_load_value(mem: MemView, addr: u32, op: u32) -> u32 {
    if op == 0x1 || op == 0x5 || op == 0xD {
        spec_read_u16(mem, addr) as u32
    } else if op == 0x2 || op == 0x7 {
        byte_to_word_signed(spec_read_u8(mem, addr))
    } else if op == 0x3 || op == 0xB {
        half_to_word_signed(spec_read_u16(mem, addr))
    } else {
        0
    }
}

/// STRH stores for bits 4..8 equal to 1, 9 or 0xB.
pub open spec fn halfword_stores(op: u32) -> bool {
    op == 0x1 || op == 0xB || op == 0x9
}

pub open spec fn halfword_transfer_step(regs: RegsView, mem: MemView, opcode: u32) -> Step {
    if !arm_executes(regs, opcode) {
        reg_step(regs, mem, 1)
    } else {
        let w = bit_u32(opcode, 21);
        let l = bit_u32(opcode, 20);
        let rn = field_u32(opcode, 16, 4) as int;
        let rd = field_u32(opcode, 12, 4) as int;
        let op = field_u32(opcode, 4, 4);
        let addr = halfword_addr(regs, opcode);
        let regs2 = if l { regs.with_r(rd, halfword_load_value(mem, addr, op)) } else { regs };
        let mem2 = if !l && halfword_stores(op) {
            spec_write_u16(mem, addr, regs.r[rd] as u16)
        } else {
            mem
        };
        let regs3 = if w { regs2.with_r(rn, halfword_indexed(regs, opcode)) } else { regs2 };
        Step { regs: regs3, mem: mem2, cycles: if l { 3 } else { 2 } }
    }
}

pub open spec fn halfword_transfer_ok(regs: RegsView, opcode: u32) -> bool {
    &&& arm_cond_valid(opcode)
    &&& arm_executes(regs, opcode) ==> {
        let addr = halfword_addr(regs, opcode);
        let op = field_u32(opcode, 4, 4);
        if bit_u32(opcode, 20) {
            (op == 0x1 || op == 0x5 || op == 0xD || op == 0x3 || op == 0xB ==> read_u16_ok(addr))
                && (op == 0x2 || op == 0x7 ==> read_u8_ok(addr))
        } else {
            halfword_stores(op) ==> write_u16_ok(addr)
        }
    }
}

// ---------------------------------------------------------------------------
// PSR transfer

/// MSR: the CPSR with the byte fields selected by bits 16..20 (control,
/// extension, status, flags) taken from the operand.
pub open spec fn msr_cpsr(cpsr: u32, value: u32, field_mask: u32) -> u32 {
    let c0 = if bit_u32(field_mask, 0) {
        (cpsr & 0xFFFF_FF00) | (value & 0x0000_00FF)
    } else {
        cpsr
    };
    let c1 = if bit_u32(field_mask, 1) {
        (c0 & 0xFFFF_00FF) | (value & 0x0000_FF00)
    } else {
        c0
    };
    let c2 = if bit_u32(field_mask, 2) {
        (c1 & 0xFF00_FFFF) | (value & 0x00FF_0000)
    } else {
        c1
    };
    if bit_u32(field_mask, 3) {
        (c2 & 0x00FF_FFFF) | (value & 0xFF00_0000)
    } else {
        c2
    }
}

/// The operand of a data-processing or MSR instruction: the rotated
/// immediate (I=1) or the shifted register.
pub open spec fn dp_operand(regs: RegsView, opcode: u32) -> u32 {
    let operand2 = field_u32(opcode, 0, 12);
    if bit_u32(opcode, 25) {
        expand_imm(operand2)
    } else {
        reg_shift_operand(regs, operand2)
    }
}

pub open spec fn dp_shift_ok(opcode: u32) -> bool {
    !bit_u32(opcode, 25) ==> reg_shift_ok(field_u32(opcode, 0, 12))
}

// ---------------------------------------------------------------------------
// Data processing

/// Rd = v, with N and Z from v when S is set.
pub open spec fn logic_regs(regs: RegsView, rd: u32, s: bool, v: u32) -> RegsView {
    let r = regs.with_r(rd as int, v);
    if s {
        r.with_nz(v)
    } else {
        r
    }
}

/// Rd = the adder result, with N, Z, C and V from it when S is set.
pub open spec fn arith_regs(regs: RegsView, rd: u32, s: bool, res: (u32, bool, bool)) -> RegsView {
    let r = regs.with_r(rd as int, res.0);
    if s {
        r.with_arith(res)
    } else {
        r
    }
}

/// The sixteen ALU operations selected by bits 21..25. SUB, RSB and CMP
/// subtract (carry in 1), ADD and CMN add (carry in 0); only ADC, SBC and
/// RSC take the C flag as the carry in.
pub open spec fn data_processing_regs(regs: RegsView, opcode: u32) -> RegsView {
    let op = field_u32(opcode, 21, 4);
    let s = bit_u32(opcode, 20);
    let rd = field_u32(opcode, 12, 4);
    let rn_val = reg_at(regs, opcode, 16);
    let operand = dp_operand(regs, opcode);
    let carry = regs.carry();
    if op == 0x0 {
        logic_regs(regs, rd, s, rn_val & operand)
    } else if op == 0x1 {
        logic_regs(regs, rd, s, rn_val ^ operand)
    } else if op == 0x2 {
        arith_regs(regs, rd, s, add_with_carry_spec(rn_val, !operand, true))
    } else if op == 0x3 {
        arith_regs(regs, rd, s, add_with_carry_spec(!rn_val, operand, true))
    } else if op == 0x4 {
        arith_regs(regs, rd, s, add_with_carry_spec(rn_val, operand, false))
    } else if op == 0x5 {
        arith_regs(regs, rd, s, add_with_carry_spec(rn_val, operand, carry))
    } else if op == 0x6 {
        arith_regs(regs, rd, s, add_with_carry_spec(rn_val, !operand, carry))
    } else if op == 0x7 {
        arith_regs(regs, rd, s, add_with_carry_spec(operand, !rn_val, carry))
    } else if op == 0x8 {
        regs.with_nz(rn_val & operand)
    } else if op == 0x9 {
        regs.with_nz(rn_val ^ operand)
    } else if op == 0xA {
        regs.with_arith(add_with_carry_spec(rn_val, !operand, true))
    } else if op == 0xB {
        regs.with_arith(add_with_carry_spec(rn_val, operand, false))
    } else if op == 0xC {
        logic_regs(regs, rd, s, rn_val | operand)
    } else if op == 0xD {
        logic_regs(regs, rd, s, operand)
    } else if op == 0xE {
        logic_regs(regs, rd, s, rn_val & !operand)
    } else {
        logic_regs(regs, rd, s, !operand)
    }
}

/// `then` and `cycles` when the condition holds; no change and 1 cycle otherwise.
pub open spec fn guarded(regs: RegsView, opcode: u32, then: RegsView, cycles: u64) -> (RegsView, u64) {
    if arm_executes(regs, opcode) {
        (then, cycles)
    } else {
        (regs, 1)
    }
}

pub open spec fn mrs_result(regs: RegsView, opcode: u32) -> (RegsView, u64) {
    guarded(regs, opcode, regs.with_r(field_u32(opcode, 12, 4) as int, regs.cpsr), 2)
}

pub open spec fn msr_result(regs: RegsView, opcode: u32) -> (RegsView, u64) {
    guarded(
        regs,
        opcode,
        regs.with_cpsr(msr_cpsr(regs.cpsr, dp_operand(regs, opcode), field_u32(opcode, 16, 4))),
        2,
    )
}

pub open spec fn data_processing_result(regs: RegsView, opcode: u32) -> (RegsView, u64) {
    guarded(regs, opcode, data_processing_regs(regs, opcode), 1)
}

/// A step that changes only registers.
pub open spec fn regs_step(r: (RegsView, u64), mem: MemView) -> Step {
    reg_step(r.0, mem, r.1)
}

// ---------------------------------------------------------------------------
// The step of every executor

/// What the executor does to the register file and memory.
pub open spec fn arm_step(kind: ArmExecutor, regs: RegsView, mem: MemView, opcode: u32) -> Step {
    match kind {
        ArmExecutor::NoOp => reg_step(regs, mem, 0),
        ArmExecutor::BranchAndBranchExchange => regs_step(branch_exchange_result(regs, opcode), mem),
        ArmExecutor::Branch => regs_step(branch_exchange_result(regs, opcode), mem),
        ArmExecutor::BlockDataTransfer => block_data_transfer_step(regs, mem, opcode),
        ArmExecutor::SoftwareInterrupt => reg_step(software_interrupt_regs(regs, opcode), mem, 3),
        ArmExecutor::Undefined => reg_step(undefined_regs(regs), mem, 3),
        ArmExecutor::SingleDataTransfer => single_data_transfer_step(regs, mem, opcode),
        ArmExecutor::SingleDataSwap => single_data_swap_step(regs, mem, opcode),
        ArmExecutor::Multiply => regs_step(multiply_result(regs, opcode), mem),
        ArmExecutor::MultiplyLong => regs_step(multiply_long_result(regs, opcode), mem),
        ArmExecutor::HalfwordDataTransferRegister => halfword_transfer_step(regs, mem, opcode),
        ArmExecutor::HalfwordDataTransferImmediate => halfword_transfer_step(regs, mem, opcode),
        ArmExecutor::PsrTransferMrs => regs_step(mrs_result(regs, opcode), mem),
        ArmExecutor::PsrTransferMsr => regs_step(msr_result(regs, opcode), mem),
        ArmExecutor::DataProcessing => regs_step(data_processing_result(regs, opcode), mem),
    }
}

/// The executor runs without a panic: the condition field names a
/// condition, no shift overflows, no arithmetic overflows and every memory
/// access is in range.
pub open spec fn arm_ok(kind: ArmExecutor, regs: RegsView, opcode: u32) -> bool {
    match kind {
        ArmExecutor::NoOp => true,
        ArmExecutor::BranchAndBranchExchange => branch_exchange_ok(regs, opcode),
        ArmExecutor::Branch => branch_exchange_ok(regs, opcode),
        ArmExecutor::BlockDataTransfer => block_data_transfer_ok(regs, opcode),
        ArmExecutor::SoftwareInterrupt => regs.pc() >= 4,
        ArmExecutor::Undefined => regs.pc() >= 4,
        ArmExecutor::SingleDataTransfer => single_data_transfer_ok(regs, opcode),
        ArmExecutor::SingleDataSwap => single_data_swap_ok(regs, opcode),
        ArmExecutor::Multiply => arm_cond_valid(opcode),
        ArmExecutor::MultiplyLong => arm_cond_valid(opcode),
        ArmExecutor::HalfwordDataTransferRegister => halfword_transfer_ok(regs, opcode),
        ArmExecutor::HalfwordDataTransferImmediate => halfword_transfer_ok(regs, opcode),
        ArmExecutor::PsrTransferMrs => arm_cond_valid(opcode),
        ArmExecutor::PsrTransferMsr => arm_cond_valid(opcode) && dp_shift_ok(opcode),
        ArmExecutor::DataProcessing => arm_cond_valid(opcode) && dp_shift_ok(opcode),
    }
}

impl CPU {
    /// Whether the condition of an ARM instruction holds.
    fn arm_condition_passed(&self, opcode: u32) -> (b: bool)
        requires
            arm_cond_valid(opcode),
        ensures
            b == arm_executes(self@.regs, opcode),
    {
        proof {
            lemma_u32_masks();
        }
        let cond = Condition::from(extract_bits_u32(opcode, 28, 32) as u16);
        should_branch(&self.registers, cond)
    }

    pub fn arm_no_op(&mut self, _opcode: u32) -> (cycles: u64)
        ensures
            final(self)@ == old(self)@,
            cycles == 0,
    {
        0
    }

    /// B, BL, BX and BLX.
    pub fn arm_branch_and_branch_exchange(&mut self, opcode: u32) -> (cycles: u64)
        requires
            branch_exchange_ok(old(self)@.regs, opcode),
        ensures
            final(self)@ == (CpuView { regs: branch_exchange_result(old(self)@.regs, opcode).0, ..old(self)@ }),
            cycles == branch_exchange_result(old(self)@.regs, opcode).1,
    {
        proof {
            lemma_u32_masks();
        }
        let should_exec = self.arm_condition_passed(opcode);
        if !should_exec {
            return 1;
        }
        let bit_24 = extract_bit_u32(opcode, 24);
        let bits_27_25 = extract_bits_u32(opcode, 25, 28);
        let bits_7_4 = extract_bits_u32(opcode, 4, 8);

        if bits_27_25 == 0b101 && !bit_24 {
            return self.arm_branch_impl(opcode);  // B - Branch
        }
        if bits_27_25 == 0b101 && bit_24 {
            return self.arm_branch_with_link(opcode);  // BL - Branch with Link
        }
        if bits_27_25 == 0b000 && bits_7_4 == 0b0001 {
            return self.arm_branch_exchange(opcode);  // BX - Branch and Exchange
        }
        if bits_27_25 == 0b000 && bits_7_4 == 0b0011 {
            return self.arm_branch_with_link_register(opcode);  // BLX
        }
        0
    }

    // B: Cond|101|0|Offset[23:0]; PC + 4 + offset * 4. Cycles: 2S + 1N.
    fn arm_branch_impl(&mut self, opcode: u32) -> (cycles: u64)
        ensures
            final(self)@ == (CpuView { regs: branch_regs(old(self)@.regs, opcode), ..old(self)@ }),
            cycles == 3,
    {
        proof {
            lemma_u32_masks();
        }
        let offset = extract_bits_u32(opcode, 0, 24);
        let signed_offset = sign_extend_24(offset);
        let branch_offset = signed_offset * 4;
        let pc = self.registers.get_pc();
        let target = pc.wrapping_add(4).wrapping_add_signed(branch_offset);
        self.registers.set_pc(target);
        3
    }

    // BL: LR = the address after the BL; the target is as for B.
    fn arm_branch_with_link(&mut self, opcode: u32) -> (cycles: u64)
        ensures
            final(self)@ == (CpuView { regs: branch_with_link_regs(old(self)@.regs, opcode), ..old(self)@ }),
            cycles == 3,
    {
        proof {
            lemma_u32_masks();
        }
        let offset = extract_bits_u32(opcode, 0, 24);
        let pc = self.registers.get_pc();
        self.registers.set_lr(pc);
        let branch_offset = sign_extend_24(offset) * 4;
        self.registers.set_pc(pc.wrapping_add(4).wrapping_add_signed(branch_offset));
        3
    }

    // BX: bit 0 of Rn selects Thumb state; PC = Rn with bit 0 clear.
    fn arm_branch_exchange(&mut self, opcode: u32) -> (cycles: u64)
        ensures
            final(self)@ == (CpuView { regs: branch_exchange_regs(old(self)@.regs, opcode), ..old(self)@ }),
            cycles == 2,
    {
        proof {
            lemma_u32_masks();
        }
        let rn = extract_bits_u32(opcode, 0, 4) as usize;
        let rn_val = self.registers.get_r(rn);
        if !extract_bit_u32(rn_val, 0) {
            self.registers.set_thumb_state(false);
            self.registers.set_pc(rn_val & !1);
        } else {
            self.registers.set_thumb_state(true);
            self.registers.set_pc(rn_val & !1);
        }
        2
    }

    // BLX: LR = visible PC + 4, then as BX.
    fn arm_branch_with_link_register(&mut self, opcode: u32) -> (cycles: u64)
        requires
            old(self)@.regs.visible_pc() + 4 <= u32::MAX,
        ensures
            final(self)@ == (CpuView {
                regs: branch_with_link_register_regs(old(self)@.regs, opcode),
                ..old(self)@
            }),
            cycles == 3,
    {
        proof {
            lemma_u32_masks();
        }
        let rn = extract_bits_u32(opcode, 0, 4) as usize;
        let rn_val = self.registers.get_r(rn);
        let pc = self.registers.get_visible_pc();
        self.registers.set_lr(pc + 4);
        if !extract_bit_u32(rn_val, 0) {
            self.registers.set_thumb_state(false);
            self.registers.set_pc(rn_val & !1);
        } else {
            self.registers.set_thumb_state(true);
            self.registers.set_pc(rn_val & !1);
        }
        3
    }

    /// LDM and STM. Cycles: n + 1 for LDM, n + 2 for STM (n registers).
    pub fn arm_block_data_transfer(&mut self, memory: &mut Memory, opcode: u32) -> (cycles: u64)
        requires
            old(memory)@.wf(),
            block_data_transfer_ok(old(self)@.regs, opcode),
        ensures
            ({
                let s = block_data_transfer_step(old(self)@.regs, old(memory)@, opcode);
                &&& final(self)@ == after(old(self)@, s)
                &&& final(memory)@ == s.mem
                &&& cycles == s.cycles
            }),
            final(memory)@.wf(),
    {
        proof {
            lemma_u32_masks();
        }
        if !self.arm_condition_passed(opcode) {
            return 1;
        }
        let p = extract_bit_u32(opcode, 24);
        let u = extract_bit_u32(opcode, 23);
        let w = extract_bit_u32(opcode, 21);
        let l = extract_bit_u32(opcode, 20);
        let rn = extract_bits_u32(opcode, 16, 20) as usize;
        let rlist = extract_bits_u32(opcode, 0, 16);

        let base_addr = self.registers.get_r(rn);
        let num_regs = count_ones(rlist, 16);
        let lowest = if u {
            base_addr
        } else {
            base_addr.wrapping_sub(num_regs * 4)
        };
        // Pre-increment and post-decrement skip the word at the lowest address.
        let addr = if p == u {
            lowest.wrapping_add(4)
        } else {
            lowest
        };

        if l {
            self.load_registers(memory, rlist, addr, 16);
        } else {
            self.store_registers(memory, rlist, addr, 16);
        }

        if w {
            let final_addr = if u {
                base_addr.wrapping_add(num_regs * 4)
            } else {
                base_addr.wrapping_sub(num_regs * 4)
            };
            self.registers.set_r(rn, final_addr);
        }

        if l {
            (num_regs as u64) + 1
        } else {
            (num_regs as u64) + 2
        }
    }

    pub fn arm_branch(&mut self, opcode: u32) -> (cycles: u64)
        requires
            branch_exchange_ok(old(self)@.regs, opcode),
        ensures
            final(self)@ == (CpuView { regs: branch_exchange_result(old(self)@.regs, opcode).0, ..old(self)@ }),
            cycles == branch_exchange_result(old(self)@.regs, opcode).1,
    {
        self.arm_branch_and_branch_exchange(opcode)
    }

    /// SWI: enters supervisor mode at vector 0x08 with the comment in R0.
    pub fn arm_software_interrupt(&mut self, opcode: u32) -> (cycles: u64)
        requires
            old(self)@.regs.pc() >= 4,
        ensures
            final(self)@ == (CpuView { regs: software_interrupt_regs(old(self)@.regs, opcode), ..old(self)@ }),
            cycles == 3,
    {
        let comment = extract_bits_u32(opcode, 0, 24);
        let pc = self.registers.get_pc();
        self.registers.set_lr(pc - 4);
        self.registers.set_cpsr(0x13);
        self.registers.set_pc(0x08);
        self.registers.set_r(0, comment);
        3
    }

    /// Undefined instruction: mode 0x1B at vector 0x04.
    pub fn arm_undefined(&mut self, _opcode: u32) -> (cycles: u64)
        requires
            old(self)@.regs.pc() >= 4,
        ensures
            final(self)@ == (CpuView { regs: undefined_regs(old(self)@.regs), ..old(self)@ }),
            cycles == 3,
    {
        let pc = self.registers.get_pc();
        self.registers.set_lr(pc - 4);
        self.registers.set_cpsr(0x1B);
        self.registers.set_pc(0x04);
        3
    }

    /// LDR, STR, LDRB, STRB. Cycles: 3 for a load, 2 for a store.
    pub fn arm_single_data_transfer(&mut self, memory: &mut Memory, opcode: u32) -> (cycles: u64)
        requires
            old(memory)@.wf(),
            single_data_transfer_ok(old(self)@.regs, opcode),
        ensures
            ({
                let s = single_data_transfer_step(old(self)@.regs, old(memory)@, opcode);
                &&& final(self)@ == after(old(self)@, s)
                &&& final(memory)@ == s.mem
                &&& cycles == s.cycles
            }),
            final(memory)@.wf(),
    {
        proof {
            lemma_u32_masks();
        }
        if !self.arm_condition_passed(opcode) {
            return 1;
        }
        let i = extract_bit_u32(opcode, 25);
        let p = extract_bit_u32(opcode, 24);
        let u = extract_bit_u32(opcode, 23);
        let b = extract_bit_u32(opcode, 22);
        let w = extract_bit_u32(opcode, 21);
        let l = extract_bit_u32(opcode, 20);
        let rn = extract_bits_u32(opcode, 16, 20) as usize;
        let rd = extract_bits_u32(opcode, 12, 16) as usize;

        let base = self.registers.get_r(rn);
        let rd_val = self.registers.get_r(rd);

        let offset = if i == false {
            extract_bits_u32(opcode, 0, 12)
        } else {
            let shift_imm = extract_bits_u32(opcode, 7, 12);
            let shift_type = extract_bits_u32(opcode, 5, 7);
            let rm_val = self.registers.get_r(extract_bits_u32(opcode, 0, 4) as usize);
            shifted_operand(rm_val, shift_imm, shift_type)
        };

        let indexed = if u {
            base.wrapping_add(offset)
        } else {
            base.wrapping_sub(offset)
        };
        // Pre-indexed: access at the indexed address; post-indexed: at Rn.
        let addr = if p {
            indexed
        } else {
            base
        };

        if l {
            let value = if b {
                memory.read_u8(addr) as u32
            } else {
                memory.read_u32(addr)
            };
            self.registers.set_r(rd, value);
        } else {
            if b {
                memory.write_u8(addr, rd_val as u8);
            } else {
                memory.write_u32(addr, rd_val);
            }
        }

        if w || !p {
            self.registers.set_r(rn, indexed);
        }

        if l {
            3
        } else {
            2
        }
    }

    /// SWP: Rd = mem[Rn], mem[Rn] = Rm. Cycles: 1S + 2N + 1I.
    pub fn arm_single_data_swap(&mut self, memory: &mut Memory, opcode: u32) -> (cycles: u64)
        requires
            old(memory)@.wf(),
            single_data_swap_ok(old(self)@.regs, opcode),
        ensures
            ({
                let s = single_data_swap_step(old(self)@.regs, old(memory)@, opcode);
                &&& final(self)@ == after(old(self)@, s)
                &&& final(memory)@ == s.mem
                &&& cycles == s.cycles
            }),
            final(memory)@.wf(),
    {
        proof {
            lemma_u32_masks();
        }
        if !self.arm_condition_passed(opcode) {
            return 1;
        }
        let rn = extract_bits_u32(opcode, 16, 20) as usize;
        let rd = extract_bits_u32(opcode, 12, 16) as usize;
        let rm = extract_bits_u32(opcode, 0, 4) as usize;

        let addr = self.registers.get_r(rn);
        let rm_val = self.registers.get_r(rm);

        let old_val = memory.read_u32(addr);
        self.registers.set_r(rd, old_val);
        memory.write_u32(addr, rm_val);
        4
    }
}

impl CPU {
    /// MUL and MLA. Cycles: 1S + mI, m = 1..4 from the significant bytes of Rs.
    pub fn arm_multiply(&mut self, opcode: u32) -> (cycles: u64)
        requires
            arm_cond_valid(opcode),
        ensures
            final(self)@ == (CpuView { regs: multiply_result(old(self)@.regs, opcode).0, ..old(self)@ }),
            cycles == multiply_result(old(self)@.regs, opcode).1,
    {
        proof {
            lemma_u32_masks();
        }
        if !self.arm_condition_passed(opcode) {
            return 1;
        }
        let bits_24_21 = extract_bits_u32(opcode, 21, 25);
        let s = extract_bit_u32(opcode, 20);
        let rd = extract_bits_u32(opcode, 16, 20) as usize;
        let rn = extract_bits_u32(opcode, 12, 16) as usize;
        let rs = extract_bits_u32(opcode, 8, 12) as usize;
        let rm = extract_bits_u32(opcode, 0, 4) as usize;

        let rm_val = self.registers.get_r(rm);
        let rs_val = self.registers.get_r(rs);
        proof {
            lemma_product_fits(rm_val, rs_val);
        }
        let result: u64 = (rm_val as u64) * (rs_val as u64);

        match bits_24_21 {
            0b0000 => {
                // MUL
                let result32 = result as u32;
                self.registers.set_r(rd, result32);
                if s {
                    self.registers.set_sign((result32 & 0x80000000) != 0);
                    self.registers.set_zero(result32 == 0);
                }
                mul_cycles(rs_val)
            },
            0b0001 => {
                // MLA
                let rn_val = self.registers.get_r(rn);
                let result32 = (result + rn_val as u64) as u32;
                self.registers.set_r(rd, result32);
                if s {
                    self.registers.set_sign((result32 & 0x80000000) != 0);
                    self.registers.set_zero(result32 == 0);
                }
                mul_cycles(rs_val)
            },
            _ => 1,
        }
    }

    /// UMULL/UMLAL (U clear) and SMULL/SMLAL (U set); A adds RdHi:RdLo.
    /// Cycles: 2.
    pub fn arm_multiply_long(&mut self, opcode: u32) -> (cycles: u64)
        requires
            arm_cond_valid(opcode),
        ensures
            final(self)@ == (CpuView { regs: multiply_long_result(old(self)@.regs, opcode).0, ..old(self)@ }),
            cycles == multiply_long_result(old(self)@.regs, opcode).1,
    {
        proof {
            lemma_u32_masks();
        }
        if !self.arm_condition_passed(opcode) {
            return 1;
        }
        let signed = extract_bit_u32(opcode, 22);
        let accumulate = extract_bit_u32(opcode, 21);
        let s = extract_bit_u32(opcode, 20);
        let rdhi = extract_bits_u32(opcode, 16, 20) as usize;
        let rdlo = extract_bits_u32(opcode, 12, 16) as usize;
        let rs = extract_bits_u32(opcode, 8, 12) as usize;
        let rm = extract_bits_u32(opcode, 0, 4) as usize;

        let rm_val = self.registers.get_r(rm);
        let rs_val = self.registers.get_r(rs);
        let product: u64 = if signed {
            let a = rm_val as i32 as i64;
            let b = rs_val as i32 as i64;
            proof {
                lemma_signed_product_fits(a, b);
            }
            (a * b) as u64
        } else {
            proof {
                lemma_product_fits(rm_val, rs_val);
            }
            (rm_val as u64) * (rs_val as u64)
        };
        let total = if accumulate {
            let rdlo_val = self.registers.get_r(rdlo) as u64;
            let rdhi_val = self.registers.get_r(rdhi) as u64;
            product.wrapping_add(rdlo_val | (rdhi_val << 32))
        } else {
            product
        };
        self.registers.set_r(rdlo, total as u32);
        self.registers.set_r(rdhi, (total >> 32) as u32);

        if s {
            let result32 = product as u32;
            self.registers.set_sign((result32 & 0x80000000) != 0);
            self.registers.set_zero(result32 == 0);
        }
        2
    }

    /// LDRH, STRH, LDRSB, LDRSH. Cycles: 3 for a load, 2 for a store.
    pub fn arm_halfword_data_transfer_register(&mut self, memory: &mut Memory, opcode: u32) -> (cycles: u64)
        requires
            old(memory)@.wf(),
            halfword_transfer_ok(old(self)@.regs, opcode),
        ensures
            ({
                let s = halfword_transfer_step(old(self)@.regs, old(memory)@, opcode);
                &&& final(self)@ == after(old(self)@, s)
                &&& final(memory)@ == s.mem
                &&& cycles == s.cycles
            }),
            final(memory)@.wf(),
    {
        proof {
            lemma_u32_masks();
        }
        if !self.arm_condition_passed(opcode) {
            return 1;
        }
        let p = extract_bit_u32(opcode, 24);
        let u = extract_bit_u32(opcode, 23);
        let i = extract_bit_u32(opcode, 22);
        let w = extract_bit_u32(opcode, 21);
        let l = extract_bit_u32(opcode, 20);
        let rn = extract_bits_u32(opcode, 16, 20) as usize;
        let rd = extract_bits_u32(opcode, 12, 16) as usize;
        let upper_offset = extract_bits_u32(opcode, 8, 12);
        let opcode_low: u32 = extract_bits_u32(opcode, 4, 8);
        let rm = extract_bits_u32(opcode, 0, 4) as usize;

        let base = self.registers.get_r(rn);

        // Post-indexed and I=0 forms take the immediate offset; a pre-indexed
        // register form with both the upper offset and Rm zero is read as the
        // immediate in bits 0..4.
        let offset: u32 = if p == false {
            (upper_offset << 4) | (opcode & 0xF)
        } else if i == false {
            (upper_offset << 4) | (opcode & 0xF)
        } else {
            if upper_offset == 0 && rm == 0 {
                opcode & 0xF
            } else {
                let rm_val = self.registers.get_r(rm);
                (upper_offset << 4) | rm_val
            }
        };

        let addr = if p {
            if u {
                base.wrapping_add(offset)
            } else {
                base.wrapping_sub(offset)
            }
        } else {
            base
        };

        if l {
            let val = if opcode_low == 0x1 || opcode_low == 0x5 || opcode_low == 0xD {
                memory.read_u16(addr) as u32
            } else if opcode_low == 0x2 || opcode_low == 0x7 {
                sign_extend_byte(memory.read_u8(addr))
            } else if opcode_low == 0x3 || opcode_low == 0xB {
                sign_extend_half(memory.read_u16(addr))
            } else {
                0
            };
            self.registers.set_r(rd, val);
        } else {
            if opcode_low == 0x1 || opcode_low == 0xB || opcode_low == 0x9 {
                let value = self.registers.get_r(rd) as u16;
                memory.write_u16(addr, value);
            }
        }

        if w {
            let final_addr = if p {
                addr
            } else {
                if u {
                    base.wrapping_add(offset)
                } else {
                    base.wrapping_sub(offset)
                }
            };
            self.registers.set_r(rn, final_addr);
        }

        if l {
            3
        } else {
            2
        }
    }

    /// The immediate-offset form; it runs as the register form does.
    pub fn arm_halfword_data_transfer_immediate(&mut self, memory: &mut Memory, opcode: u32) -> (cycles: u64)
        requires
            old(memory)@.wf(),
            halfword_transfer_ok(old(self)@.regs, opcode),
        ensures
            ({
                let s = halfword_transfer_step(old(self)@.regs, old(memory)@, opcode);
                &&& final(self)@ == after(old(self)@, s)
                &&& final(memory)@ == s.mem
                &&& cycles == s.cycles
            }),
            final(memory)@.wf(),
    {
        self.arm_halfword_data_transfer_register(memory, opcode)
    }

    /// MRS: Rd = CPSR. Cycles: 2.
    pub fn arm_psr_transfer_mrs(&mut self, opcode: u32) -> (cycles: u64)
        requires
            arm_cond_valid(opcode),
        ensures
            final(self)@ == (CpuView { regs: mrs_result(old(self)@.regs, opcode).0, ..old(self)@ }),
            cycles == mrs_result(old(self)@.regs, opcode).1,
    {
        proof {
            lemma_u32_masks();
        }
        if !self.arm_condition_passed(opcode) {
            return 1;
        }
        let rd = extract_bits_u32(opcode, 12, 16) as usize;
        let psr = self.registers.get_cpsr();
        self.registers.set_r(rd, psr);
        2
    }

    /// MSR: the selected byte fields of the CPSR from the operand. Cycles: 2.
    pub fn arm_psr_transfer_msr(&mut self, opcode: u32) -> (cycles: u64)
        requires
            arm_cond_valid(opcode),
            dp_shift_ok(opcode),
        ensures
            final(self)@ == (CpuView { regs: msr_result(old(self)@.regs, opcode).0, ..old(self)@ }),
            cycles == msr_result(old(self)@.regs, opcode).1,
    {
        proof {
            lemma_u32_masks();
        }
        if !self.arm_condition_passed(opcode) {
            return 1;
        }
        let field_mask = extract_bits_u32(opcode, 16, 20);
        let value = self.operand2(opcode);

        let mut cpsr = self.registers.get_cpsr();
        if extract_bit_u32(field_mask, 0) {
            cpsr = (cpsr & 0xFFFFFF00) | (value & 0x000000FF);
        }
        if extract_bit_u32(field_mask, 1) {
            cpsr = (cpsr & 0xFFFF00FF) | (value & 0x0000FF00);
        }
        if extract_bit_u32(field_mask, 2) {
            cpsr = (cpsr & 0xFF00FFFF) | (value & 0x00FF0000);
        }
        if extract_bit_u32(field_mask, 3) {
            cpsr = (cpsr & 0x00FFFFFF) | (value & 0xFF000000);
        }
        self.registers.set_cpsr(cpsr);
        2
    }

    /// The rotated immediate (I=1) or shifted register of bits 0..12.
    fn operand2(&self, opcode: u32) -> (v: u32)
        requires
            dp_shift_ok(opcode),
        ensures
            v == dp_operand(self@.regs, opcode),
    {
        proof {
            lemma_u32_masks();
        }
        let operand2 = extract_bits_u32(opcode, 0, 12);
        if extract_bit_u32(opcode, 25) {
            arm_expand_immediate(operand2)
        } else {
            let shift_imm = extract_bits_u32(operand2, 7, 12);
            let shift_type = extract_bits_u32(operand2, 5, 7);
            let rm_val = self.registers.get_r(extract_bits_u32(operand2, 0, 4) as usize);
            shifted_operand(rm_val, shift_imm, shift_type)
        }
    }

    /// The data-processing instructions (AND ... MVN). Cycles: 1.
    pub fn arm_data_processing(&mut self, opcode: u32) -> (cycles: u64)
        requires
            arm_cond_valid(opcode),
            dp_shift_ok(opcode),
        ensures
            final(self)@ == (CpuView { regs: data_processing_result(old(self)@.regs, opcode).0, ..old(self)@ }),
            cycles == data_processing_result(old(self)@.regs, opcode).1,
    {
        proof {
            lemma_u32_masks();
        }
        if !self.arm_condition_passed(opcode) {
            return 1;
        }
        let opcode_val = extract_bits_u32(opcode, 21, 25);
        let s = extract_bit_u32(opcode, 20);
        let rn = extract_bits_u32(opcode, 16, 20) as usize;
        let rd = extract_bits_u32(opcode, 12, 16) as usize;

        let rn_val = self.registers.get_r(rn);
        let operand = self.operand2(opcode);

        match opcode_val {
            0x0 => {
                // AND{S}
                let result = and_op(rn_val, operand);
                self.registers.set_r(rd, result);
                if s {
                    self.registers.set_flags(&result);
                }
            },
            0x1 => {
                // EOR{S}
                let result = eor_op(rn_val, operand);
                self.registers.set_r(rd, result);
                if s {
                    self.registers.set_flags(&result);
                }
            },
            0x2 => {
                // SUB{S}
                let result = sub_op(rn_val, operand, true);
                self.registers.set_r(rd, result.result());
                if s {
                    self.registers.set_flags(&result);
                }
            },
            0x3 => {
                // RSB{S}
                let result = rsb_op(rn_val, operand, true);
                self.registers.set_r(rd, result.result());
                if s {
                    self.registers.set_flags(&result);
                }
            },
            0x4 => {
                // ADD{S}
                let result = add_op(rn_val, operand, false);
                self.registers.set_r(rd, result.result());
                if s {
                    self.registers.set_flags(&result);
                }
            },
            0x5 => {
                // ADC{S}
                let result = add_op(rn_val, operand, self.registers.get_carry());
                self.registers.set_r(rd, result.result());
                if s {
                    self.registers.set_flags(&result);
                }
            },
            0x6 => {
                // SBC{S}
                let result = sub_op(rn_val, operand, self.registers.get_carry());
                self.registers.set_r(rd, result.result());
                if s {
                    self.registers.set_flags(&result);
                }
            },
            0x7 => {
                // RSC{S}
                let result = sub_op(operand, rn_val, self.registers.get_carry());
                self.registers.set_r(rd, result.result());
                if s {
                    self.registers.set_flags(&result);
                }
            },
            0x8 => {
                // TST
                let result = and_op(rn_val, operand);
                self.registers.set_flags(&result);
            },
            0x9 => {
                // TEQ
                let result = eor_op(rn_val, operand);
                self.registers.set_flags(&result);
            },
            0xA => {
                // CMP
                let result = sub_op(rn_val, operand, true);
                self.registers.set_flags(&result);
            },
            0xB => {
                // CMN
                let result = add_op(rn_val, operand, false);
                self.registers.set_flags(&result);
            },
            0xC => {
                // ORR{S}
                let result = orr_op(rn_val, operand);
                self.registers.set_r(rd, result);
                if s {
                    self.registers.set_flags(&result);
                }
            },
            0xD => {
                // MOV{S}
                self.registers.set_r(rd, operand);
                if s {
                    self.registers.set_flags(&operand);
                }
            },
            0xE => {
                // BIC{S}
                let result = bic_op(rn_val, operand);
                self.registers.set_r(rd, result);
                if s {
                    self.registers.set_flags(&result);
                }
            },
            0xF => {
                // MVN{S}
                let result = mvn_op(rn_val, operand);
                self.registers.set_r(rd, result);
                if s {
                    self.registers.set_flags(&result);
                }
            },
            _ => {},
        }
        1
    }

    pub fn arm_add_immediate(&mut self, opcode: u32) -> (cycles: u64)
        requires
            arm_cond_valid(opcode),
            dp_shift_ok(opcode),
        ensures
            final(self)@ == (CpuView { regs: data_processing_result(old(self)@.regs, opcode).0, ..old(self)@ }),
            cycles == data_processing_result(old(self)@.regs, opcode).1,
    {
        self.arm_data_processing(opcode)
    }

    pub fn arm_sub_immediate(&mut self, opcode: u32) -> (cycles: u64)
        requires
            arm_cond_valid(opcode),
            dp_shift_ok(opcode),
        ensures
            final(self)@ == (CpuView { regs: data_processing_result(old(self)@.regs, opcode).0, ..old(self)@ }),
            cycles == data_processing_result(old(self)@.regs, opcode).1,
    {
        self.arm_data_processing(opcode)
    }

    pub fn arm_cmp(&mut self, opcode: u32) -> (cycles: u64)
        requires
            arm_cond_valid(opcode),
            dp_shift_ok(opcode),
        ensures
            final(self)@ == (CpuView { regs: data_processing_result(old(self)@.regs, opcode).0, ..old(self)@ }),
            cycles == data_processing_result(old(self)@.regs, opcode).1,
    {
        self.arm_data_processing(opcode)
    }

    pub fn arm_mov_immediate(&mut self, opcode: u32) -> (cycles: u64)
        requires
            arm_cond_valid(opcode),
            dp_shift_ok(opcode),
        ensures
            final(self)@ == (CpuView { regs: data_processing_result(old(self)@.regs, opcode).0, ..old(self)@ }),
            cycles == data_processing_result(old(self)@.regs, opcode).1,
    {
        self.arm_data_processing(opcode)
    }

    /// BKPT: enters abort mode at vector 0x0C with the comment in R0.
    pub fn arm_bkpt(&mut self, opcode: u32) -> (cycles: u64)
        requires
            old(self)@.regs.pc() >= 4,
        ensures
            final(self)@ == (CpuView { regs: bkpt_regs(old(self)@.regs, opcode), ..old(self)@ }),
            cycles == 3,
    {
        let comment = extract_bits_u32(opcode, 0, 20);
        let pc = self.registers.get_pc();
        self.registers.set_lr(pc - 4);
        self.registers.set_cpsr(0x17);
        self.registers.set_pc(0x0C);
        self.registers.set_r(0, comment);
        3
    }
}

/// The product of two words fits in 64 bits.
proof fn lemma_product_fits(a: u32, b: u32)
    ensures
        (a as int) * (b as int) <= u64::MAX,
        (a as int) * (b as int) + 0xFFFF_FFFF <= u64::MAX,
        0 <= (a as int) * (b as int),
{
    assert((a as int) * (b as int) <= 0xFFFF_FFFF * 0xFFFF_FFFF) by (nonlinear_arith)
        requires
            a <= 0xFFFF_FFFF,
            b <= 0xFFFF_FFFF,
    ;
    assert(0 <= (a as int) * (b as int)) by (nonlinear_arith);
}

/// The product of two sign-extended words fits in 63 bits.
proof fn lemma_signed_product_fits(a: i64, b: i64)
    requires
        -0x8000_0000 <= a < 0x8000_0000,
        -0x8000_0000 <= b < 0x8000_0000,
    ensures
        i64::MIN <= (a as int) * (b as int) <= i64::MAX,
{
    assert(-0x4000_0000_0000_0000 <= (a as int) * (b as int) <= 0x4000_0000_0000_0000)
        by (nonlinear_arith)
        requires
            -0x8000_0000 <= a < 0x8000_0000,
            -0x8000_0000 <= b < 0x8000_0000,
    ;
}

/// The CPU state after a step that leaves the cycle counter alone.
pub open spec fn after(cpu: CpuView, s: Step) -> CpuView {
    CpuView { regs: s.regs, ..cpu }
}

} // verus!

verus! {

/// MSR with all four field bits set replaces the whole CPSR; with none set
/// it leaves the CPSR as it was.
pub proof fn law_msr_fields(cpsr: u32, value: u32)
    ensures
        msr_cpsr(cpsr, value, 0xF) == value,
        msr_cpsr(cpsr, value, 0) == cpsr,
{
    assert(bit_u32(0xF, 0) && bit_u32(0xF, 1) && bit_u32(0xF, 2) && bit_u32(0xF, 3)) by (bit_vector);
    assert(!bit_u32(0, 0) && !bit_u32(0, 1) && !bit_u32(0, 2) && !bit_u32(0, 3)) by (bit_vector);
    let c0 = (cpsr & 0xFFFF_FF00) | (value & 0x0000_00FF);
    let c1 = (c0 & 0xFFFF_00FF) | (value & 0x0000_FF00);
    let c2 = (c1 & 0xFF00_FFFF) | (value & 0x00FF_0000);
    assert((c2 & 0x00FF_FFFF) | (value & 0xFF00_0000) == value) by (bit_vector)
        requires
            c0 == (cpsr & 0xFFFF_FF00) | (value & 0x0000_00FF),
            c1 == (c0 & 0xFFFF_00FF) | (value & 0x0000_FF00),
            c2 == (c1 & 0xFF00_FFFF) | (value & 0x00FF_0000),
    ;
}

/// B lands at the address of the branch plus 8 plus four times the signed
/// 24-bit offset: the fetch advances PC by 4 and the branch adds 4 more.
pub proof fn law_branch_target(regs: RegsView, opcode: u32)
    requires
        regs.r.len() == 16,
        arm_executes(crate::cpu::fetched(regs), opcode),
        field_u32(opcode, 25, 3) == 0b101,
        !bit_u32(opcode, 24),
        !regs.thumb(),
    ensures
        branch_exchange_result(crate::cpu::fetched(regs), opcode).0.pc() == regs.pc().wrapping_add(
            8,
        ).wrapping_add_signed((sext24(field_u32(opcode, 0, 24)) * 4) as i32),
        branch_exchange_result(crate::cpu::fetched(regs), opcode).1 == 3,
{
}

/// Every instruction with bits 25..28 = 101 (B and BL) decodes to the
/// branch executor.
pub proof fn law_branches_decode_to_branch(opcode: u32)
    requires
        opcode & 0x0E00_0000 == 0x0A00_0000,
    ensures
        crate::cpu::decoder::decode_arm_spec(opcode) == ArmExecutor::Branch,
{
    assert(opcode & 0x0FFF_FFF0 != 0x012F_FF10 && opcode & 0x0E00_0000 != 0x0800_0000) by (bit_vector)
        requires
            opcode & 0x0E00_0000 == 0x0A00_0000,
    ;
}

/// STMDB SP!, {rlist} followed by LDMIA SP!, {rlist} (ARM PUSH and POP,
/// condition AL) gives back every register, the stack pointer included,
/// where the pushed words lie in the first 4 KiB of internal RAM; both run
/// without a panic, and the load leaves memory as the store left it.
pub proof fn law_push_pop_multiple(regs: RegsView, mem: MemView, rlist: u16)
    requires
        mem.wf(),
        regs.r.len() == 16,
        0x0300_0000 + 4 * count_set(rlist as u32, 16) <= regs.sp() <= 0x0300_1000,
    ensures
        ({
            let push_op = 0xE92D_0000u32 | rlist as u32;
            let pop_op = 0xE8BD_0000u32 | rlist as u32;
            let push = arm_step(ArmExecutor::BlockDataTransfer, regs, mem, push_op);
            let pop = arm_step(ArmExecutor::BlockDataTransfer, push.regs, push.mem, pop_op);
            &&& arm_ok(ArmExecutor::BlockDataTransfer, regs, push_op)
            &&& arm_ok(ArmExecutor::BlockDataTransfer, push.regs, pop_op)
            &&& pop.regs == regs
            &&& pop.mem == push.mem
        }),
{
    let push_op = 0xE92D_0000u32 | rlist as u32;
    let pop_op = 0xE8BD_0000u32 | rlist as u32;
    let r = rlist as u32;
    assert(field_u32(push_op, 28, 4) == 0xE && bit_u32(push_op, 24) && !bit_u32(push_op, 23)
        && bit_u32(push_op, 21) && !bit_u32(push_op, 20) && field_u32(push_op, 16, 4) == 13
        && field_u32(push_op, 0, 16) == r && field_u32(pop_op, 28, 4) == 0xE && !bit_u32(pop_op, 24)
        && bit_u32(pop_op, 23) && bit_u32(pop_op, 21) && bit_u32(pop_op, 20) && field_u32(pop_op, 16, 4)
        == 13 && field_u32(pop_op, 0, 16) == r) by (bit_vector)
        requires
            push_op == 0xE92D_0000u32 | r,
            pop_op == 0xE8BD_0000u32 | r,
            r < 0x10000,
    ;
    let num = count_set(r, 16);
    let sp = (regs.sp() - 4 * num) as u32;
    assert(regs.sp().wrapping_sub((num * 4) as u32) == sp);
    let pushed = regs.with_r(13, sp);
    let mem2 = store_list(regs, mem, r, sp, 16);
    crate::cpu::lemma_store_list_reads(regs, mem, r, sp, 16, 0);
    crate::cpu::lemma_list_addr_no_wrap(r, sp, 16);
    assert(sp.wrapping_add((num * 4) as u32) == regs.sp());
    let loaded = load_list(pushed, mem2, r, sp, 16);
    assert forall|i: int| 0 <= i < 16 implies #[trigger] loaded.with_r(13, regs.sp()).r[i]
        == regs.r[i] by {
        crate::cpu::lemma_load_list_regs(pushed, mem2, r, sp, 16, i);
        if in_list(r, i as nat) {
            crate::cpu::lemma_store_list_reads(regs, mem, r, sp, 16, i as nat);
        }
    }
    crate::cpu::lemma_load_list_regs(pushed, mem2, r, sp, 16, 0);
    assert(loaded.with_r(13, regs.sp()).r =~= regs.r);
}

/// What each data-processing operation leaves in Rd, in the word
/// operations of Rust, with Rn and the second operand: AND, EOR, SUB, RSB,
/// ADD, ADC, SBC, RSC, ORR, MOV, BIC (the operand's bits cleared from Rn)
/// and MVN; TST, TEQ, CMP and CMN write no register; no other register
/// changes. CMP sets Z exactly when Rn equals the operand and C exactly
/// when Rn is not below it (no borrow).
pub proof fn law_data_processing_results(regs: RegsView, opcode: u32)
    requires
        regs.r.len() == 16,
        arm_executes(regs, opcode),
    ensures
        ({
            let op = field_u32(opcode, 21, 4);
            let rd = field_u32(opcode, 12, 4) as int;
            let rn = reg_at(regs, opcode, 16);
            let v = dp_operand(regs, opcode);
            let c: u32 = if regs.carry() { 1 } else { 0 };
            let borrow: u32 = if regs.carry() { 0 } else { 1 };
            let out = data_processing_result(regs, opcode).0;
            &&& out.r.len() == 16
            &&& forall|i: int| 0 <= i < 16 && i != rd ==> out.r[i] == regs.r[i]
            &&& op == 0x0 ==> out.r[rd] == rn & v
            &&& op == 0x1 ==> out.r[rd] == rn ^ v
            &&& op == 0x2 ==> out.r[rd] == rn.wrapping_sub(v)
            &&& op == 0x3 ==> out.r[rd] == v.wrapping_sub(rn)
            &&& op == 0x4 ==> out.r[rd] == rn.wrapping_add(v)
            &&& op == 0x5 ==> out.r[rd] == rn.wrapping_add(v).wrapping_add(c)
            &&& op == 0x6 ==> out.r[rd] == rn.wrapping_sub(v).wrapping_sub(borrow)
            &&& op == 0x7 ==> out.r[rd] == v.wrapping_sub(rn).wrapping_sub(borrow)
            &&& 0x8 <= op <= 0xB ==> out.r == regs.r
            &&& op == 0xC ==> out.r[rd] == rn | v
            &&& op == 0xD ==> out.r[rd] == v
            &&& op == 0xE ==> out.r[rd] == rn & !v && out.r[rd] & v == 0
            &&& op == 0xF ==> out.r[rd] == !v
            &&& op == 0xA ==> out.zero() == (rn == v) && out.carry() == (rn >= v)
            &&& op == 0x8 ==> out.zero() == (rn & v == 0)
        }),
{
    lemma_u32_masks();
    let rn = reg_at(regs, opcode, 16);
    let v = dp_operand(regs, opcode);
    crate::cpu::operations::lemma_adder_words(rn, v);
    crate::cpu::operations::lemma_adder_words(v, rn);
    let r = rn & !v;
    assert(r & v == 0) by (bit_vector)
        requires
            r == rn & !v,
    ;
    crate::cpu::registers::lemma_arith_flags(regs, add_with_carry_spec(rn, !v, true));
    crate::cpu::registers::lemma_nz_flags(regs, rn & v);
}

/// LDR, LDRB, STR and STRB: the access is at Rn when post-indexed (P=0)
/// and at Rn plus (U=1) or minus the offset when pre-indexed; the offset is
/// the 12-bit immediate when I=0. LDR gives the word read there, LDRB the
/// byte zero-extended; STR writes Rd there, STRB its low byte; Rn is then
/// set to Rn plus or minus the offset when W=1 or P=0, and otherwise kept.
/// No other register changes, and a load leaves memory as it is.
pub proof fn law_single_transfer(regs: RegsView, mem: MemView, opcode: u32)
    requires
        regs.r.len() == 16,
        arm_executes(regs, opcode),
        field_u32(opcode, 12, 4) != field_u32(opcode, 16, 4),
    ensures
        ({
            let rn = field_u32(opcode, 16, 4) as int;
            let rd = field_u32(opcode, 12, 4) as int;
            let base = regs.r[rn];
            let off = single_transfer_offset(regs, opcode);
            let moved = if bit_u32(opcode, 23) { base.wrapping_add(off) } else { base.wrapping_sub(off) };
            let addr = if bit_u32(opcode, 24) { moved } else { base };
            let l = bit_u32(opcode, 20);
            let b = bit_u32(opcode, 22);
            let s = single_data_transfer_step(regs, mem, opcode);
            &&& !bit_u32(opcode, 25) ==> off == opcode & 0xFFF
            &&& s.regs.r.len() == 16
            &&& forall|i: int| 0 <= i < 16 && i != rd && i != rn ==> s.regs.r[i] == regs.r[i]
            &&& l && b ==> s.regs.r[rd] == spec_read_u8(mem, addr) as u32 && s.regs.r[rd] < 256
            &&& l && !b ==> s.regs.r[rd] == spec_read_u32(mem, addr)
            &&& l ==> s.mem == mem
            &&& !l ==> s.regs.r[rd] == regs.r[rd]
            &&& !l && b ==> s.mem == spec_write_u8(mem, addr, regs.r[rd] as u8)
            &&& !l && !b ==> s.mem == spec_write_u32(mem, addr, regs.r[rd])
            &&& bit_u32(opcode, 21) || !bit_u32(opcode, 24) ==> s.regs.r[rn] == moved
            &&& !(bit_u32(opcode, 21) || !bit_u32(opcode, 24)) ==> s.regs.r[rn] == base
        }),
{
    lemma_u32_masks();
    let x = opcode;
    assert((x >> 0u32) & 4095u32 == x & 0xFFF) by (bit_vector);
}

/// The halfword and signed transfers load, per bits 4..8: 1, 5 and 0xD the
/// halfword zero-extended (LDRH); 2 and 7 the byte sign-extended (LDRSB);
/// 3 and 0xB the halfword sign-extended (LDRSH) — the same number read as
/// signed. STRH (1, 9, 0xB with L=0) writes the low halfword of Rd. No
/// register but Rd and Rn changes.
pub proof fn law_halfword_transfer(regs: RegsView, mem: MemView, opcode: u32)
    requires
        regs.r.len() == 16,
        arm_executes(regs, opcode),
        field_u32(opcode, 12, 4) != field_u32(opcode, 16, 4),
    ensures
        ({
            let rn = field_u32(opcode, 16, 4) as int;
            let rd = field_u32(opcode, 12, 4) as int;
            let op = field_u32(opcode, 4, 4);
            let addr = halfword_addr(regs, opcode);
            let l = bit_u32(opcode, 20);
            let s = halfword_transfer_step(regs, mem, opcode);
            &&& s.regs.r.len() == 16
            &&& forall|i: int| 0 <= i < 16 && i != rd && i != rn ==> s.regs.r[i] == regs.r[i]
            &&& l ==> s.mem == mem
            &&& l && (op == 1 || op == 5 || op == 0xD) ==> s.regs.r[rd] == spec_read_u16(mem, addr) as u32
            &&& l && (op == 2 || op == 7) ==> s.regs.r[rd] as i32 == spec_read_u8(mem, addr) as i8 as i32
            &&& l && (op == 3 || op == 0xB) ==> s.regs.r[rd] as i32 == spec_read_u16(mem, addr) as i16 as i32
            &&& !l && (op == 1 || op == 9 || op == 0xB) ==> s.mem == spec_write_u16(mem, addr, regs.r[rd] as u16)
            &&& !l ==> s.regs.r[rd] == regs.r[rd]
        }),
{
    lemma_u32_masks();
    let addr = halfword_addr(regs, opcode);
    crate::bits::lemma_sign_extension_values(spec_read_u8(mem, addr), spec_read_u16(mem, addr));
}

/// MUL leaves the wrapping word product Rm * Rs in Rd. SWP loads the old
/// word at Rn into Rd and stores Rm there.
pub proof fn law_multiply_and_swap(regs: RegsView, mem: MemView, opcode: u32)
    requires
        regs.r.len() == 16,
        arm_executes(regs, opcode),
    ensures
        field_u32(opcode, 21, 4) == 0 ==> multiply_result(regs, opcode).0.r[field_u32(
            opcode,
            16,
            4,
        ) as int] == reg_at(regs, opcode, 0).wrapping_mul(reg_at(regs, opcode, 8)),
        ({
            let addr = reg_at(regs, opcode, 16);
            let s = single_data_swap_step(regs, mem, opcode);
            &&& s.regs.r[field_u32(opcode, 12, 4) as int] == spec_read_u32(mem, addr)
            &&& s.mem == spec_write_u32(mem, addr, reg_at(regs, opcode, 0))
        }),
{
    lemma_u32_masks();
    let rm = reg_at(regs, opcode, 0);
    let rs = reg_at(regs, opcode, 8);
    lemma_product_fits(rm, rs);
    let p = (rm as int * rs as int) as u64;
    assert(p as int == rm as int * rs as int);
    assert(p as u32 == (p % 0x1_0000_0000) as u32) by (bit_vector);
}

} // verus!
