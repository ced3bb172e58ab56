//! Execution of Thumb (16-bit) instructions.
use vstd::prelude::*;
use crate::bits::{
    bit_u16, bit_u32, extract_bit_u32, byte_to_word_signed, extract_bit_u16, extract_bits_u16, field_u16,
    half_to_word_signed, lemma_u16_masks, sext11, sext8, sign_extend_11, sign_extend_8,
    sign_extend_byte, sign_extend_half,
};
use crate::cpu::operations::{
    add_op, add_with_carry_spec, and_op, asr_op, asr_spec, condition_holds, condition_of,
    eor_op, lsl_op, lsl_spec, lsr_op, lsr_spec, mul_cycles, mul_cycles_spec, mul_op, mvn_op,
    orr_op, ror_op, ror_spec, should_branch, sub_op, Condition,
};
use crate::cpu::registers::{RegsView, THUMB_MODE};
use crate::cpu::{
    count_ones, count_set, in_list, list_addr, load_list, load_list_ok, reg_step, store_list,
    store_list_ok, CpuView, Step, CPU,
};
use crate::memory::{
    read_u16_ok, read_u32_ok, read_u8_ok, spec_read_u16, spec_read_u32, spec_read_u8,
    spec_write_u16, spec_write_u32, spec_write_u8, write_u16_ok, write_u32_ok, write_u8_ok,
    MemView, Memory, MemoryAccess,
};

verus! {

broadcast use {crate::bits::group_bits, crate::cpu::registers::lemma_regs_len};

/// The executor that a Thumb instruction is decoded to.
#[derive(Debug, Clone, Copy, PartialEq, Eq, Structural)]
pub enum ThumbExecutor {
    NoOp,
    MoveShiftedRegister,
    AddSubtract,
    MoveCompareAddSubtractImmediate,
    AluOperations,
    HiRegisterOperationsBranchExchange,
    PcRelativeLoad,
    LoadStoreWithRegisterOffset,
    LoadStoreSignExtendedByteHalfword,
    LoadStoreWithImmediateOffset,
    LoadStoreHalfword,
    SpRelativeLoadStore,
    GetRelativeAddress,
    AddOffsetToStackPointer,
    PushPopRegisters,
    MultipleLoadStore,
    UnconditionalBranch,
    ConditionalBranch,
    LongBranchWithLink1,
    LongBranchWithLink2,
    SoftwareInterrupt,
    Breakpoint,
}

/// The low register numbered by the 3-bit field at `start`.
pub open spec fn lo_reg(opcode: u16, start: u16) -> int {
    field_u16(opcode, start, 3) as int
}

/// The field of `len` bits at `start` as a word.
pub open spec fn tf(opcode: u16, start: u16, len: u16) -> u32 {
    field_u16(opcode, start, len) as u32
}

// ---------------------------------------------------------------------------
// Register operations

/// LSL, LSR or ASR (bits 11..13 = 0, 1, 2) of Rs by the 5-bit immediate
/// into Rd, with N, Z and C from the shifter.
pub open spec fn move_shifted_register_regs(regs: RegsView, opcode: u16) -> RegsView {
    let op = field_u16(opcode, 11, 2);
    let offset = tf(opcode, 6, 5);
    let value = regs.r[lo_reg(opcode, 3)];
    let res = if op == 0 {
        lsl_spec(value, offset, regs.carry())
    } else if op == 1 {
        lsr_spec(value, offset)
    } else {
        asr_spec(value, offset)
    };
    regs.with_r(lo_reg(opcode, 0), res.0).with_shift(res)
}

/// ADD/SUB of Rs and a register (op 0, 1) or a 3-bit immediate (op 2, 3);
/// all four flags set.
pub open spec fn add_subtract_regs(regs: RegsView, opcode: u16) -> RegsView {
    let op = field_u16(opcode, 9, 2);
    let nn = field_u16(opcode, 6, 3);
    let rs_val = regs.r[lo_reg(opcode, 3)];
    let operand = if op < 2 { regs.r[nn as int] } else { nn as u32 };
    let res = if op == 0 || op == 2 {
        add_with_carry_spec(rs_val, operand, false)
    } else {
        add_with_carry_spec(rs_val, !operand, true)
    };
    regs.with_r(lo_reg(opcode, 0), res.0).with_arith(res)
}

/// MOV (op 0), CMP (1), ADD (2), SUB (3) of Rd and an 8-bit immediate.
pub open spec fn move_compare_add_subtract_immediate_regs(regs: RegsView, opcode: u16) -> RegsView {
    let op = field_u16(opcode, 11, 2);
    let rd = lo_reg(opcode, 8);
    let nn = tf(opcode, 0, 8);
    let rd_val = regs.r[rd];
    if op == 0 {
        regs.with_r(rd, nn).with_nz(nn)
    } else {
        let res = if op == 2 {
            add_with_carry_spec(rd_val, nn, false)
        } else {
            add_with_carry_spec(rd_val, !nn, true)
        };
        let flagged = regs.with_arith(res);
        if op != 1 {
            flagged.with_r(rd, res.0)
        } else {
            flagged
        }
    }
}

/// The sixteen Thumb ALU operations of bits 6..10 on Rd and Rs, with the
/// cycles they take. A shift by a register holding 0 leaves Rd and C
/// unchanged; only ADC and SBC take the C flag as the carry in.
pub open spec fn alu_result(regs: RegsView, opcode: u16) -> (RegsView, u64) {
    let op = field_u16(opcode, 6, 4);
    let rd = lo_reg(opcode, 0);
    let rs_val = regs.r[lo_reg(opcode, 3)];
    let rd_val = regs.r[rd];
    let carry = regs.carry();
    if op == 0x0 {
        (regs.with_nz(rd_val & rs_val).with_r(rd, rd_val & rs_val), 1)
    } else if op == 0x1 {
        (regs.with_nz(rd_val ^ rs_val).with_r(rd, rd_val ^ rs_val), 1)
    } else if op == 0x2 {
        let res = lsl_spec(rd_val, rs_val, carry);
        (regs.with_shift(res).with_r(rd, res.0), 2)
    } else if op == 0x3 {
        let res = if rs_val == 0 { (rd_val, carry) } else { lsr_spec(rd_val, rs_val) };
        (regs.with_shift(res).with_r(rd, res.0), 2)
    } else if op == 0x4 {
        let res = if rs_val == 0 { (rd_val, carry) } else { asr_spec(rd_val, rs_val) };
        (regs.with_shift(res).with_r(rd, res.0), 2)
    } else if op == 0x5 {
        let res = add_with_carry_spec(rd_val, rs_val, carry);
        (regs.with_arith(res).with_r(rd, res.0), 1)
    } else if op == 0x6 {
        let res = add_with_carry_spec(rd_val, !rs_val, carry);
        (regs.with_arith(res).with_r(rd, res.0), 1)
    } else if op == 0x7 {
        let res = if rs_val == 0 { (rd_val, carry) } else { ror_spec(rd_val, rs_val, carry) };
        (regs.with_shift(res).with_r(rd, res.0), 2)
    } else if op == 0x8 {
        (regs.with_nz(rd_val & rs_val), 1)
    } else if op == 0x9 {
        let res = add_with_carry_spec(0, !rs_val, true);
        (regs.with_arith(res).with_r(rd, res.0), 1)
    } else if op == 0xA {
        (regs.with_arith(add_with_carry_spec(rd_val, !rs_val, true)), 1)
    } else if op == 0xB {
        (regs.with_arith(add_with_carry_spec(rd_val, rs_val, false)), 1)
    } else if op == 0xC {
        (regs.with_nz(rd_val | rs_val).with_r(rd, rd_val | rs_val), 1)
    } else if op == 0xD {
        let product = rd_val.wrapping_mul(rs_val);
        (regs.with_arith((product, false, false)).with_r(rd, product), mul_cycles_spec(rd_val))
    } else if op == 0xE {
        (regs.with_nz(rd_val & !rs_val).with_r(rd, rd_val & !rs_val), 1)
    } else {
        (regs.with_nz(!rs_val).with_r(rd, !rs_val), 1)
    }
}

/// The destination of a high-register operation: bits 0..3, plus 8 when
/// H1 (bit 7) is set.
pub open spec fn hi_rd(opcode: u16) -> int {
    lo_reg(opcode, 0) + if bit_u16(opcode, 7) { 8int } else { 0int }
}

/// The source of a high-register operation: bits 3..6, plus 8 when H2
/// (bit 6) is set.
pub open spec fn hi_rs(opcode: u16) -> int {
    lo_reg(opcode, 3) + if bit_u16(opcode, 6) { 8int } else { 0int }
}

/// BX Rs: PC = Rs, entering ARM state with bit 0 cleared when bit 0 is clear.
pub open spec fn thumb_bx_regs(regs: RegsView, rs_val: u32) -> RegsView {
    if !bit_u32(rs_val, 0) {
        regs.with_flag(THUMB_MODE, false).with_r(15, rs_val & !1u32)
    } else {
        regs.with_r(15, rs_val)
    }
}

/// ADD (op 0), CMP (1), MOV (2) of Rd and Rs (`hi_rd`, `hi_rs`), and BX
/// (3). With Rd = 15, BX links (BLX): LR = the visible PC after the
/// exchange + 4, and PC = Rs.
pub open spec fn hi_register_result(regs: RegsView, opcode: u16) -> (RegsView, u64) {
    let op = field_u16(opcode, 8, 2);
    let rd = hi_rd(opcode);
    let rs_val = regs.r[hi_rs(opcode)];
    if op == 0 {
        let res = add_with_carry_spec(regs.r[rd], rs_val, false);
        (regs.with_arith(res).with_r(rd, res.0), 1)
    } else if op == 1 {
        (regs.with_arith(add_with_carry_spec(regs.r[rd], !rs_val, true)), 1)
    } else if op == 2 {
        (regs.with_r(rd, rs_val).with_nz(rs_val), 1)
    } else {
        let bx = thumb_bx_regs(regs, rs_val);
        if rd == 15 {
            (bx.with_r(14, (bx.visible_pc() + 4) as u32).with_r(15, rs_val), 2)
        } else {
            (bx, 2)
        }
    }
}

/// A high-register operation runs without a panic: H1 or H2 is set, and the
/// link address of BLX fits in a word.
pub open spec fn hi_register_ok(regs: RegsView, opcode: u16) -> bool {
    &&& bit_u16(opcode, 7) || bit_u16(opcode, 6)
    &&& field_u16(opcode, 8, 2) == 3 && hi_rd(opcode) == 15 ==> thumb_bx_regs(
        regs,
        regs.r[hi_rs(opcode)],
    ).visible_pc() + 4 <= u32::MAX
}

// ---------------------------------------------------------------------------
// Loads and stores

/// The address of LDR Rd, [PC, #nn]: visible PC + 4 + the 8-bit field.
pub open spec fn pc_relative_addr(regs: RegsView, opcode: u16) -> int {
    regs.visible_pc() + 4 + tf(opcode, 0, 8)
}

/// A word or byte transfer at `addr`: loads into Rd, stores Rd.
pub open spec fn transfer(regs: RegsView, mem: MemView, rd: int, addr: u32, kind: u16) -> Step {
    // kind: 0 STR, 1 STRB, 2 LDR, 3 LDRB, 4 STRH, 5 LDSB, 6 LDRH, 7 LDSH
    let rd_val = regs.r[rd];
    if kind == 0 {
        Step { regs, mem: spec_write_u32(mem, addr, rd_val), cycles: 2 }
    } else if kind == 1 {
        Step { regs, mem: spec_write_u8(mem, addr, rd_val as u8), cycles: 2 }
    } else if kind == 2 {
        Step { regs: regs.with_r(rd, spec_read_u32(mem, addr)), mem, cycles: 3 }
    } else if kind == 3 {
        Step { regs: regs.with_r(rd, spec_read_u8(mem, addr) as u32), mem, cycles: 3 }
    } else if kind == 4 {
        Step { regs, mem: spec_write_u16(mem, addr, rd_val as u16), cycles: 2 }
    } else if kind == 5 {
        Step { regs: regs.with_r(rd, byte_to_word_signed(spec_read_u8(mem, addr))), mem, cycles: 3 }
    } else if kind == 6 {
        Step { regs: regs.with_r(rd, spec_read_u16(mem, addr) as u32), mem, cycles: 3 }
    } else {
        Step { regs: regs.with_r(rd, half_to_word_signed(spec_read_u16(mem, addr))), mem, cycles: 3 }
    }
}

/// The access of a transfer kind is in range.
pub open spec fn transfer_ok(addr: u32, kind: u16) -> bool {
    if kind == 0 {
        write_u32_ok(addr)
    } else if kind == 1 {
        write_u8_ok(addr)
    } else if kind == 2 {
        read_u32_ok(addr)
    } else if kind == 3 || kind == 5 {
        read_u8_ok(addr)
    } else if kind == 4 {
        write_u16_ok(addr)
    } else {
        read_u16_ok(addr)
    }
}

/// Rb + Ro.
pub open spec fn reg_offset_addr(regs: RegsView, opcode: u16) -> u32 {
    regs.r[lo_reg(opcode, 3)].wrapping_add(regs.r[lo_reg(opcode, 6)])
}

/// Rb + the 3-bit field at bits 6..9.
pub open spec fn imm_offset_addr(regs: RegsView, opcode: u16) -> u32 {
    regs.r[lo_reg(opcode, 3)].wrapping_add(tf(opcode, 6, 3))
}

/// Transfer kinds of the immediate-offset form: STR, LDR, STRB, LDRB.
pub open spec fn imm_offset_kind(op: u16) -> u16 {
    if op == 0 {
        0
    } else if op == 1 {
        2
    } else if op == 2 {
        1
    } else {
        3
    }
}

/// Rb + 2 * the 5-bit field at bits 6..11.
pub open spec fn halfword_addr(regs: RegsView, opcode: u16) -> u32 {
    regs.r[lo_reg(opcode, 3)].wrapping_add((tf(opcode, 6, 5) * 2) as u32)
}

/// SP + the 8-bit field.
pub open spec fn sp_relative_addr(regs: RegsView, opcode: u16) -> u32 {
    regs.sp().wrapping_add(tf(opcode, 0, 8))
}

/// ADD Rd, PC, #nn ((PC + 4) with bit 1 clear, plus nn) or ADD Rd, SP, #nn.
pub open spec fn relative_address_regs(regs: RegsView, opcode: u16) -> RegsView {
    let nn = tf(opcode, 0, 8);
    let address = if !bit_u16(opcode, 11) {
        (regs.pc().wrapping_add(4) & !2u32).wrapping_add(nn)
    } else {
        regs.sp().wrapping_add(nn)
    };
    regs.with_r(lo_reg(opcode, 8), address)
}

/// SP plus (bit 7 clear) or minus (bit 7 set) the 7-bit field.
pub open spec fn add_offset_to_sp_regs(regs: RegsView, opcode: u16) -> RegsView {
    let nn = tf(opcode, 0, 7);
    regs.with_r(13, if bit_u16(opcode, 7) { regs.sp().wrapping_sub(nn) } else { regs.sp().wrapping_add(nn) })
}

// ---------------------------------------------------------------------------
// Multiple transfers

/// PUSH: SP drops by four words per listed register (and one more with LR);
/// the registers, then LR, are stored upwards from the new SP.
pub open spec fn push_step(regs: RegsView, mem: MemView, lr: bool, rlist: u32) -> Step {
    let num = count_set(rlist, 8);
    let sp = (regs.sp() - 4 * num - if lr { 4int } else { 0int }) as u32;
    let regs2 = regs.with_r(13, sp);
    let mem2 = store_list(regs2, mem, rlist, sp, 8);
    let end = list_addr(rlist, sp, 8);
    let mem3 = if lr { spec_write_u32(mem2, end, regs.lr()) } else { mem2 };
    let words = num + if lr { 1nat } else { 0nat };
    Step { regs: regs2, mem: mem3, cycles: (words - 1 + 2) as u64 }
}

pub open spec fn push_ok(regs: RegsView, lr: bool, rlist: u32) -> bool {
    let num = count_set(rlist, 8);
    let sp = (regs.sp() - 4 * num - if lr { 4int } else { 0int }) as u32;
    &&& num >= 1 || lr
    &&& regs.sp() >= 4 * num + if lr { 4int } else { 0int }
    &&& store_list_ok(rlist, sp, 8)
    &&& lr ==> write_u32_ok(list_addr(rlist, sp, 8))
}

/// POP: the listed registers, then PC, are loaded upwards from SP, and SP
/// moves past them.
pub open spec fn pop_step(regs: RegsView, mem: MemView, pc: bool, rlist: u32) -> Step {
    let num = count_set(rlist, 8);
    let regs2 = load_list(regs, mem, rlist, regs.sp(), 8);
    let end = list_addr(rlist, regs.sp(), 8);
    let regs3 = if pc { regs2.with_r(15, spec_read_u32(mem, end)) } else { regs2 };
    let sp = if pc { (end + 4) as u32 } else { end };
    Step { regs: regs3.with_r(13, sp), mem, cycles: (num + 2) as u64 }
}

pub open spec fn pop_ok(regs: RegsView, pc: bool, rlist: u32) -> bool {
    let num = count_set(rlist, 8);
    &&& regs.sp() + 4 * num + (if pc { 4int } else { 0int }) <= u32::MAX
    &&& load_list_ok(rlist, regs.sp(), 8)
    &&& pc ==> read_u32_ok(list_addr(rlist, regs.sp(), 8))
}

/// LDMIA (bit 11 set) / STMIA Rb!, {rlist}: consecutive words upwards from
/// Rb, which is then set past them.
pub open spec fn multiple_load_store_step(regs: RegsView, mem: MemView, opcode: u16) -> Step {
    let rb = lo_reg(opcode, 8);
    let rlist = tf(opcode, 0, 8);
    let base = regs.r[rb];
    let num = count_set(rlist, 8);
    let end = list_addr(rlist, base, 8);
    if bit_u16(opcode, 11) {
        Step { regs: load_list(regs, mem, rlist, base, 8).with_r(rb, end), mem, cycles: (num + 2) as u64 }
    } else {
        Step {
            regs: regs.with_r(rb, end),
            mem: store_list(regs, mem, rlist, base, 8),
            cycles: (num - 1 + 2) as u64,
        }
    }
}

pub open spec fn multiple_load_store_ok(regs: RegsView, opcode: u16) -> bool {
    let rlist = tf(opcode, 0, 8);
    let base = regs.r[lo_reg(opcode, 8)];
    let num = count_set(rlist, 8);
    &&& base + 4 * num <= u32::MAX
    &&& if bit_u16(opcode, 11) {
        load_list_ok(rlist, base, 8)
    } else {
        num >= 1 && store_list_ok(rlist, base, 8)
    }
}

// ---------------------------------------------------------------------------
// Branches and exceptions

/// B: visible PC plus twice the sign-extended 11-bit offset.
pub open spec fn unconditional_branch_regs(regs: RegsView, opcode: u16) -> RegsView {
    regs.with_r(15, regs.visible_pc().wrapping_add_signed((sext11(tf(opcode, 0, 11)) * 2) as i32))
}

/// Bcond: when the condition of bits 8..12 holds, visible PC plus twice the
/// sign-extended 8-bit offset (3 cycles); otherwise nothing (1 cycle).
pub open spec fn conditional_branch_result(regs: RegsView, opcode: u16) -> (RegsView, u64) {
    if condition_holds(regs, condition_of(field_u16(opcode, 8, 4))) {
        (regs.with_r(15, regs.visible_pc().wrapping_add_signed((sext8(tf(opcode, 0, 8)) * 2) as i32)), 3)
    } else {
        (regs, 1)
    }
}

/// BL, first half: LR = visible PC + (11-bit field << 12), without sign.
pub open spec fn long_branch_1_regs(regs: RegsView, opcode: u16) -> RegsView {
    regs.with_r(14, regs.visible_pc().wrapping_add_signed((tf(opcode, 0, 11) * 4096) as i32))
}

/// BL, second half: PC = (LR + 2 * 11-bit field) with bit 0 clear,
/// LR = (PC + 2) | 1, and ARM state when bit 12 is clear (BLX).
pub open spec fn long_branch_2_regs(regs: RegsView, opcode: u16) -> RegsView {
    let target = ((regs.lr() as i32).wrapping_add((tf(opcode, 0, 11) * 2) as i32) as u32) & !1u32;
    let r = regs.with_r(15, target).with_r(14, regs.pc().wrapping_add(2) | 1);
    if !bit_u16(opcode, 12) {
        r.with_flag(THUMB_MODE, false)
    } else {
        r
    }
}

/// SWI: CPSR = 0x13, PC = 0x08, R0 = the 8-bit comment.
pub open spec fn thumb_swi_regs(regs: RegsView, opcode: u16) -> RegsView {
    regs.with_cpsr(0x13).with_r(15, 0x8).with_r(0, tf(opcode, 0, 8))
}

/// BKPT: CPSR = 0x17, PC = 0x0C, R0 = the 8-bit comment.
pub open spec fn thumb_bkpt_regs(regs: RegsView, opcode: u16) -> RegsView {
    regs.with_cpsr(0x17).with_r(15, 0xC).with_r(0, tf(opcode, 0, 8))
}

// ---------------------------------------------------------------------------
// The step of every executor

pub open spec fn thumb_step(kind: ThumbExecutor, regs: RegsView, mem: MemView, opcode: u16) -> Step {
    match kind {
        ThumbExecutor::NoOp => reg_step(regs, mem, 0),
        ThumbExecutor::MoveShiftedRegister => reg_step(move_shifted_register_regs(regs, opcode), mem, 1),
        ThumbExecutor::AddSubtract => reg_step(add_subtract_regs(regs, opcode), mem, 1),
        ThumbExecutor::MoveCompareAddSubtractImmediate => reg_step(
            move_compare_add_subtract_immediate_regs(regs, opcode),
            mem,
            1,
        ),
        ThumbExecutor::AluOperations => reg_step(alu_result(regs, opcode).0, mem, alu_result(regs, opcode).1),
        ThumbExecutor::HiRegisterOperationsBranchExchange => reg_step(
            hi_register_result(regs, opcode).0,
            mem,
            hi_register_result(regs, opcode).1,
        ),
        ThumbExecutor::PcRelativeLoad => reg_step(
            regs.with_r(lo_reg(opcode, 8), spec_read_u32(mem, pc_relative_addr(regs, opcode) as u32)),
            mem,
            3,
        ),
        ThumbExecutor::LoadStoreWithRegisterOffset => transfer(
            regs,
            mem,
            lo_reg(opcode, 0),
            reg_offset_addr(regs, opcode),
            field_u16(opcode, 10, 2),
        ),
        ThumbExecutor::LoadStoreSignExtendedByteHalfword => transfer(
            regs,
            mem,
            lo_reg(opcode, 0),
            reg_offset_addr(regs, opcode),
            (field_u16(opcode, 10, 2) + 4) as u16,
        ),
        ThumbExecutor::LoadStoreWithImmediateOffset => transfer(
            regs,
            mem,
            lo_reg(opcode, 0),
            imm_offset_addr(regs, opcode),
            imm_offset_kind(field_u16(opcode, 11, 2)),
        ),
        ThumbExecutor::LoadStoreHalfword => transfer(
            regs,
            mem,
            lo_reg(opcode, 0),
            halfword_addr(regs, opcode),
            if bit_u16(opcode, 11) { 6u16 } else { 4u16 },
        ),
        ThumbExecutor::SpRelativeLoadStore => transfer(
            regs,
            mem,
            lo_reg(opcode, 8),
            sp_relative_addr(regs, opcode),
            if bit_u16(opcode, 11) { 2u16 } else { 0u16 },
        ),
        ThumbExecutor::GetRelativeAddress => reg_step(relative_address_regs(regs, opcode), mem, 1),
        ThumbExecutor::AddOffsetToStackPointer => reg_step(add_offset_to_sp_regs(regs, opcode), mem, 1),
        ThumbExecutor::PushPopRegisters => if bit_u16(opcode, 11) {
            pop_step(regs, mem, bit_u16(opcode, 8), tf(opcode, 0, 8))
        } else {
            push_step(regs, mem, bit_u16(opcode, 8), tf(opcode, 0, 8))
        },
        ThumbExecutor::MultipleLoadStore => multiple_load_store_step(regs, mem, opcode),
        ThumbExecutor::UnconditionalBranch => reg_step(unconditional_branch_regs(regs, opcode), mem, 3),
        ThumbExecutor::ConditionalBranch => reg_step(
            conditional_branch_result(regs, opcode).0,
            mem,
            conditional_branch_result(regs, opcode).1,
        ),
        ThumbExecutor::LongBranchWithLink1 => reg_step(long_branch_1_regs(regs, opcode), mem, 1),
        ThumbExecutor::LongBranchWithLink2 => reg_step(long_branch_2_regs(regs, opcode), mem, 3),
        ThumbExecutor::SoftwareInterrupt => reg_step(thumb_swi_regs(regs, opcode), mem, 3),
        ThumbExecutor::Breakpoint => reg_step(thumb_bkpt_regs(regs, opcode), mem, 3),
    }
}

/// The executor runs without a panic.
pub open spec fn thumb_ok(kind: ThumbExecutor, regs: RegsView, opcode: u16) -> bool {
    match kind {
        ThumbExecutor::MoveShiftedRegister => field_u16(opcode, 11, 2) != 3,
        ThumbExecutor::HiRegisterOperationsBranchExchange => hi_register_ok(regs, opcode),
        ThumbExecutor::PcRelativeLoad => pc_relative_addr(regs, opcode) <= u32::MAX && read_u32_ok(
            pc_relative_addr(regs, opcode) as u32,
        ),
        ThumbExecutor::LoadStoreWithRegisterOffset => transfer_ok(
            reg_offset_addr(regs, opcode),
            field_u16(opcode, 10, 2),
        ),
        ThumbExecutor::LoadStoreSignExtendedByteHalfword => transfer_ok(
            reg_offset_addr(regs, opcode),
            (field_u16(opcode, 10, 2) + 4) as u16,
        ),
        ThumbExecutor::LoadStoreWithImmediateOffset => transfer_ok(
            imm_offset_addr(regs, opcode),
            imm_offset_kind(field_u16(opcode, 11, 2)),
        ),
        ThumbExecutor::LoadStoreHalfword => transfer_ok(
            halfword_addr(regs, opcode),
            if bit_u16(opcode, 11) { 6u16 } else { 4u16 },
        ),
        ThumbExecutor::SpRelativeLoadStore => transfer_ok(
            sp_relative_addr(regs, opcode),
            if bit_u16(opcode, 11) { 2u16 } else { 0u16 },
        ),
        ThumbExecutor::PushPopRegisters => if bit_u16(opcode, 11) {
            pop_ok(regs, bit_u16(opcode, 8), tf(opcode, 0, 8))
        } else {
            push_ok(regs, bit_u16(opcode, 8), tf(opcode, 0, 8))
        },
        ThumbExecutor::MultipleLoadStore => multiple_load_store_ok(regs, opcode),
        ThumbExecutor::ConditionalBranch => field_u16(opcode, 8, 4) != 0xF,
        ThumbExecutor::SoftwareInterrupt => regs.pc() + 2 <= u32::MAX,
        ThumbExecutor::Breakpoint => regs.pc() + 4 <= u32::MAX,
        _ => true,
    }
}


/// PUSH {rlist} followed by POP {rlist} gives back every register, the
/// stack pointer included, where the pushed words lie in the first 4 KiB of
/// internal RAM; both run without a panic, and the POP leaves memory as the
/// PUSH left it. With LR pushed and PC popped (`lr`), PC ends up holding
/// the pushed LR.
pub proof fn law_push_pop(regs: RegsView, mem: MemView, rlist: u8, lr: bool)
    requires
        mem.wf(),
        regs.r.len() == 16,
        rlist != 0 || lr,
        0x0300_0000 + 4 * count_set(rlist as u32, 8) + (if lr { 4int } else { 0int }) <= regs.sp()
            <= 0x0300_1000,
    ensures
        ({
            let extra: u16 = if lr { 0x100 } else { 0 };
            let push_op = 0xB400u16 | extra | rlist as u16;
            let pop_op = 0xBC00u16 | extra | rlist as u16;
            let push = thumb_step(ThumbExecutor::PushPopRegisters, regs, mem, push_op);
            let pop = thumb_step(ThumbExecutor::PushPopRegisters, push.regs, push.mem, pop_op);
            &&& thumb_ok(ThumbExecutor::PushPopRegisters, regs, push_op)
            &&& thumb_ok(ThumbExecutor::PushPopRegisters, push.regs, pop_op)
            &&& pop.regs == if lr { regs.with_r(15, regs.lr()) } else { regs }
            &&& pop.mem == push.mem
        }),
{
    let extra: u16 = if lr { 0x100 } else { 0 };
    let push_op = 0xB400u16 | extra | rlist as u16;
    let pop_op = 0xBC00u16 | extra | rlist as u16;
    assert(!bit_u16(push_op, 11) && bit_u16(push_op, 8) == lr && tf(push_op, 0, 8) == rlist as u32)
        by (bit_vector)
        requires
            push_op == 0xB400u16 | extra | rlist as u16,
            extra == if lr { 0x100u16 } else { 0u16 },
    ;
    assert(bit_u16(pop_op, 11) && bit_u16(pop_op, 8) == lr && tf(pop_op, 0, 8) == rlist as u32)
        by (bit_vector)
        requires
            pop_op == 0xBC00u16 | extra | rlist as u16,
            extra == if lr { 0x100u16 } else { 0u16 },
    ;
    let r = rlist as u32;
    let num = count_set(r, 8);
    let sp = (regs.sp() - 4 * num - if lr { 4int } else { 0int }) as u32;
    let pushed = regs.with_r(13, sp);
    let mem2 = store_list(pushed, mem, r, sp, 8);
    crate::cpu::lemma_count_set_bound(r, 8);
    assert(num >= 1 || lr) by {
        // Some bit among the low eight is set.
        if num == 0 && !lr {
            assert forall|k: nat| k < 8 implies !in_list(r, k) by {
                crate::cpu::lemma_count_set_mono(r, k, 8);
            }
            assert(in_list(r, 0) || in_list(r, 1) || in_list(r, 2) || in_list(r, 3) || in_list(r, 4)
                || in_list(r, 5) || in_list(r, 6) || in_list(r, 7)) by (bit_vector)
                requires
                    r != 0 && r < 256,
            ;
        }
    }
    crate::cpu::lemma_store_list_reads(pushed, mem, r, sp, 8, 0);
    crate::cpu::lemma_list_addr_no_wrap(r, sp, 8);
    let end = list_addr(r, sp, 8);
    let mem3 = if lr { spec_write_u32(mem2, end, regs.lr()) } else { mem2 };
    if lr {
        crate::memory::lemma_iwram_word_round_trip(mem2, end, regs.lr());
    }
    let loaded = load_list(pushed, mem3, r, sp, 8);
    assert forall|i: int| 0 <= i < 16 implies #[trigger] loaded.r[i] == if i < 8 && in_list(
        r,
        i as nat,
    ) {
        regs.r[i]
    } else {
        pushed.r[i]
    } by {
        crate::cpu::lemma_load_list_regs(pushed, mem3, r, sp, 8, i);
        if i < 8 && in_list(r, i as nat) {
            crate::cpu::lemma_store_list_reads(pushed, mem, r, sp, 8, i as nat);
            if lr {
                crate::cpu::lemma_list_addr_in_iwram(r, sp, 8, i as nat);
                crate::cpu::lemma_count_set_mono(r, i as nat, 8);
                crate::memory::lemma_iwram_word_frame(
                    mem2,
                    end,
                    list_addr(r, sp, i as nat),
                    regs.lr(),
                );
            }
        }
    }
    crate::cpu::lemma_load_list_regs(pushed, mem3, r, sp, 8, 0);
    let popped = if lr { loaded.with_r(15, regs.lr()) } else { loaded };
    let final_sp: u32 = if lr { (end + 4) as u32 } else { end };
    assert(final_sp == regs.sp());
    assert(popped.with_r(13, final_sp).r =~= (if lr { regs.with_r(15, regs.lr()) } else { regs }).r);
}

/// Two unconditional branches from the same state land twice the
/// difference of their sign-extended offsets apart; each takes 3 cycles and
/// changes nothing but PC.
pub proof fn law_branch_offsets(regs: RegsView, mem: MemView, a: u16, b: u16)
    requires
        regs.r.len() == 16,
        a < 0x800,
        b < 0x800,
    ensures
        ({
            let sa = thumb_step(ThumbExecutor::UnconditionalBranch, regs, mem, 0xE000u16 | a);
            let sb = thumb_step(ThumbExecutor::UnconditionalBranch, regs, mem, 0xE000u16 | b);
            &&& sa.cycles == 3 && sb.cycles == 3
            &&& sa.regs == regs.with_r(15, sa.regs.pc()) && sb.regs == regs.with_r(15, sb.regs.pc())
            &&& sa.mem == mem && sb.mem == mem
            &&& sa.regs.pc() == sb.regs.pc().wrapping_add_signed(
                (2 * (sext11(a as u32) - sext11(b as u32))) as i32,
            )
        }),
{
    let oa = 0xE000u16 | a;
    let ob = 0xE000u16 | b;
    assert(tf(oa, 0, 11) == a as u32 && tf(ob, 0, 11) == b as u32) by (bit_vector)
        requires
            oa == 0xE000u16 | a,
            ob == 0xE000u16 | b,
            a < 0x800,
            b < 0x800,
    ;
}

/// What each Thumb ALU operation leaves in Rd, in the word operations of
/// Rust: AND, EOR, LSL, LSR, ASR, ADC, SBC, ROR, NEG, ORR, MUL, BIC (the
/// bits of Rs cleared from Rd) and MVN; a shift by a register holding 0
/// leaves Rd; TST, CMP and CMN write no register; no other register
/// changes. CMP sets Z exactly when Rd equals Rs and C exactly when Rd is
/// not below Rs.
pub proof fn law_alu_results(regs: RegsView, opcode: u16)
    requires
        regs.r.len() == 16,
    ensures
        ({
            let op = field_u16(opcode, 6, 4);
            let rd = lo_reg(opcode, 0);
            let a = regs.r[rd];
            let b = regs.r[lo_reg(opcode, 3)];
            let c: u32 = if regs.carry() { 1 } else { 0 };
            let borrow: u32 = if regs.carry() { 0 } else { 1 };
            let out = alu_result(regs, opcode).0;
            &&& out.r.len() == 16
            &&& forall|i: int| 0 <= i < 16 && i != rd ==> out.r[i] == regs.r[i]
            &&& op == 0x0 ==> out.r[rd] == a & b
            &&& op == 0x1 ==> out.r[rd] == a ^ b
            &&& op == 0x2 && b < 32 ==> out.r[rd] == a << b
            &&& op == 0x3 && 0 < b < 32 ==> out.r[rd] == a >> b
            &&& op == 0x3 && b >= 32 ==> out.r[rd] == 0
            &&& 0x2 <= op <= 0x4 && b == 0 ==> out.r[rd] == a && out.carry() == regs.carry()
            &&& op == 0x7 && b == 0 ==> out.r[rd] == a && out.carry() == regs.carry()
            &&& op == 0x5 ==> out.r[rd] == a.wrapping_add(b).wrapping_add(c)
            &&& op == 0x6 ==> out.r[rd] == a.wrapping_sub(b).wrapping_sub(borrow)
            &&& op == 0x9 ==> out.r[rd] == 0u32.wrapping_sub(b)
            &&& (op == 0x8 || op == 0xA || op == 0xB) ==> out.r == regs.r
            &&& op == 0xA ==> out.zero() == (a == b) && out.carry() == (a >= b)
            &&& op == 0xC ==> out.r[rd] == a | b && out.zero() == (a | b == 0)
            &&& op == 0xD ==> out.r[rd] == a.wrapping_mul(b)
            &&& op == 0xE ==> out.r[rd] == a & !b && out.r[rd] & b == 0
            &&& op == 0xF ==> out.r[rd] == !b
        }),
{
    lemma_u16_masks();
    let a = regs.r[lo_reg(opcode, 0)];
    let b = regs.r[lo_reg(opcode, 3)];
    crate::cpu::operations::lemma_adder_words(a, b);
    crate::cpu::operations::lemma_adder_words(0, b);
    let r = a & !b;
    assert(r & b == 0 && a << 0u32 == a) by (bit_vector)
        requires
            r == a & !b,
    ;
    crate::cpu::registers::lemma_arith_flags(regs, add_with_carry_spec(a, !b, true));
    crate::cpu::registers::lemma_nz_flags(regs, a | b);
    crate::cpu::registers::lemma_nz_flags(regs, a);
    crate::cpu::registers::lemma_nz_flags(regs, a & b);
    crate::cpu::registers::lemma_shift_flags(regs, (a, regs.carry()));
}

/// What the Thumb loads and stores do at their address: a word load gives
/// the word read there; LDRB and LDRH give the byte or halfword
/// zero-extended; LDSB and LDSH give it sign-extended (the same number read
/// as signed); a store writes Rd (its low byte or halfword for STRB and
/// STRH) and changes no register; a load leaves memory as it is and changes
/// no register but Rd.
pub proof fn law_thumb_transfers(regs: RegsView, mem: MemView, opcode: u16)
    requires
        regs.r.len() == 16,
    ensures
        ({
            let rd = lo_reg(opcode, 0);
            let loads_into = |s: Step, d: int, v: u32|
                s.mem == mem && s.regs.r.len() == 16 && s.regs.r[d] == v && (forall|i: int|
                    0 <= i < 16 && i != d ==> s.regs.r[i] == regs.r[i]);
            let stores = |s: Step, m: MemView| s.regs == regs && s.mem == m;
            // LDRH / STRH with a 5-bit offset
            let a = halfword_addr(regs, opcode);
            let h = thumb_step(ThumbExecutor::LoadStoreHalfword, regs, mem, opcode);
            &&& bit_u16(opcode, 11) ==> loads_into(h, rd, spec_read_u16(mem, a) as u32)
            &&& !bit_u16(opcode, 11) ==> stores(h, spec_write_u16(mem, a, regs.r[rd] as u16))
            // STRH, LDSB, LDRH, LDSH with a register offset
            &&& ({
                let a = reg_offset_addr(regs, opcode);
                let x = thumb_step(ThumbExecutor::LoadStoreSignExtendedByteHalfword, regs, mem, opcode);
                let op = field_u16(opcode, 10, 2);
                &&& op == 0 ==> stores(x, spec_write_u16(mem, a, regs.r[rd] as u16))
                &&& op == 1 ==> loads_into(x, rd, x.regs.r[rd]) && x.regs.r[rd] as i32
                    == spec_read_u8(mem, a) as i8 as i32
                &&& op == 2 ==> loads_into(x, rd, spec_read_u16(mem, a) as u32)
                &&& op == 3 ==> loads_into(x, rd, x.regs.r[rd]) && x.regs.r[rd] as i32
                    == spec_read_u16(mem, a) as i16 as i32
            })
            // STR, STRB, LDR, LDRB with a register offset
            &&& ({
                let a = reg_offset_addr(regs, opcode);
                let x = thumb_step(ThumbExecutor::LoadStoreWithRegisterOffset, regs, mem, opcode);
                let op = field_u16(opcode, 10, 2);
                &&& op == 0 ==> stores(x, spec_write_u32(mem, a, regs.r[rd]))
                &&& op == 1 ==> stores(x, spec_write_u8(mem, a, regs.r[rd] as u8))
                &&& op == 2 ==> loads_into(x, rd, spec_read_u32(mem, a))
                &&& op == 3 ==> loads_into(x, rd, spec_read_u8(mem, a) as u32)
            })
            // STR, LDR, STRB, LDRB with an immediate offset
            &&& ({
                let a = imm_offset_addr(regs, opcode);
                let x = thumb_step(ThumbExecutor::LoadStoreWithImmediateOffset, regs, mem, opcode);
                let op = field_u16(opcode, 11, 2);
                &&& op == 0 ==> stores(x, spec_write_u32(mem, a, regs.r[rd]))
                &&& op == 1 ==> loads_into(x, rd, spec_read_u32(mem, a))
                &&& op == 2 ==> stores(x, spec_write_u8(mem, a, regs.r[rd] as u8))
                &&& op == 3 ==> loads_into(x, rd, spec_read_u8(mem, a) as u32)
            })
            // LDR / STR relative to SP
            &&& ({
                let a = sp_relative_addr(regs, opcode);
                let d = lo_reg(opcode, 8);
                let x = thumb_step(ThumbExecutor::SpRelativeLoadStore, regs, mem, opcode);
                &&& bit_u16(opcode, 11) ==> loads_into(x, d, spec_read_u32(mem, a))
                &&& !bit_u16(opcode, 11) ==> stores(x, spec_write_u32(mem, a, regs.r[d]))
            })
        }),
{
    lemma_u16_masks();
    crate::bits::lemma_sign_extension_values(spec_read_u8(mem, reg_offset_addr(regs, opcode)), spec_read_u16(mem, reg_offset_addr(regs, opcode)));
}

/// Thumb ADD and SUB of a register or 3-bit immediate leave Rs + operand
/// or Rs - operand (wrapping) in Rd; MOV, ADD and SUB with an 8-bit
/// immediate leave nn, Rd + nn or Rd - nn in Rd; CMP with an immediate
/// writes no register and sets Z exactly when Rd equals nn and C exactly
/// when Rd is not below it.
pub proof fn law_thumb_add_subtract(regs: RegsView, opcode: u16)
    requires
        regs.r.len() == 16,
    ensures
        ({
            let op = field_u16(opcode, 9, 2);
            let nn = field_u16(opcode, 6, 3);
            let a = regs.r[lo_reg(opcode, 3)];
            let b = if op < 2 { regs.r[nn as int] } else { nn as u32 };
            let out = add_subtract_regs(regs, opcode);
            &&& (op == 0 || op == 2) ==> out.r[lo_reg(opcode, 0)] == a.wrapping_add(b)
            &&& (op == 1 || op == 3) ==> out.r[lo_reg(opcode, 0)] == a.wrapping_sub(b)
        }),
        ({
            let op = field_u16(opcode, 11, 2);
            let rd = lo_reg(opcode, 8);
            let nn = tf(opcode, 0, 8);
            let a = regs.r[rd];
            let out = move_compare_add_subtract_immediate_regs(regs, opcode);
            &&& op == 0 ==> out.r[rd] == nn
            &&& op == 1 ==> out.r == regs.r && out.zero() == (a == nn) && out.carry() == (a >= nn)
            &&& op == 2 ==> out.r[rd] == a.wrapping_add(nn)
            &&& op == 3 ==> out.r[rd] == a.wrapping_sub(nn)
        }),
{
    lemma_u16_masks();
    let op = field_u16(opcode, 9, 2);
    let nn = field_u16(opcode, 6, 3);
    let a = regs.r[lo_reg(opcode, 3)];
    let b = if op < 2 { regs.r[nn as int] } else { nn as u32 };
    crate::cpu::operations::lemma_adder_words(a, b);
    let rd = lo_reg(opcode, 8);
    let imm = tf(opcode, 0, 8);
    crate::cpu::operations::lemma_adder_words(regs.r[rd], imm);
    crate::cpu::registers::lemma_arith_flags(regs, add_with_carry_spec(regs.r[rd], !imm, true));
}

/// The result of a Thumb step on the processor state.
pub open spec fn thumb_after(cpu: CpuView, s: Step) -> CpuView {
    CpuView { regs: s.regs, ..cpu }
}

impl CPU {
    pub fn thumb_no_op(&mut self, _opcode: u16) -> (cycles: u64)
        ensures
            final(self)@ == old(self)@,
            cycles == 0,
    {
        0
    }

    /// LSL/LSR/ASR Rd, Rs, #offset. Cycles: 1.
    pub fn thumb_move_shifted_register(&mut self, opcode: u16) -> (cycles: u64)
        requires
            field_u16(opcode, 11, 2) != 3,
        ensures
            final(self)@ == (CpuView { regs: move_shifted_register_regs(old(self)@.regs, opcode), ..old(self)@ }),
            cycles == 1,
    {
        proof {
            lemma_u16_masks();
        }
        let op = extract_bits_u16(opcode, 11, 13);
        let offset = extract_bits_u16(opcode, 6, 11) as u32;
        let rs = extract_bits_u16(opcode, 3, 6) as usize;
        let rd = extract_bits_u16(opcode, 0, 3) as usize;

        let value = self.registers.get_r(rs);
        let old_carry = self.registers.get_carry();

        let result = match op {
            0b00 => lsl_op(value, offset, old_carry),
            0b01 => lsr_op(value, offset, old_carry),
            _ => asr_op(value, offset, old_carry),
        };
        self.registers.set_r(rd, result.result());
        self.registers.set_flags(&result);
        1
    }

    /// ADD/SUB Rd, Rs, Rn or #nn. Cycles: 1.
    pub fn thumb_add_subtract(&mut self, opcode: u16) -> (cycles: u64)
        ensures
            final(self)@ == (CpuView { regs: add_subtract_regs(old(self)@.regs, opcode), ..old(self)@ }),
            cycles == 1,
    {
        proof {
            lemma_u16_masks();
        }
        let op = extract_bits_u16(opcode, 9, 11);
        let nn = extract_bits_u16(opcode, 6, 9);
        let rs = extract_bits_u16(opcode, 3, 6);
        let rd = extract_bits_u16(opcode, 0, 3);

        let rs_val = self.registers.get_r(rs as usize);
        let operand = if op < 2 {
            self.registers.get_r(nn as usize)
        } else {
            nn as u32
        };
        let result = match op {
            0 => add_op(rs_val, operand, false),
            1 => sub_op(rs_val, operand, true),
            2 => add_op(rs_val, operand, false),
            _ => sub_op(rs_val, operand, true),
        };
        self.registers.set_r(rd as usize, result.result());
        self.registers.set_flags(&result);
        1
    }

    /// MOV/CMP/ADD/SUB Rd, #nn. Cycles: 1.
    pub fn thumb_move_compare_add_subtract_immediate(&mut self, opcode: u16) -> (cycles: u64)
        ensures
            final(self)@ == (CpuView {
                regs: move_compare_add_subtract_immediate_regs(old(self)@.regs, opcode),
                ..old(self)@
            }),
            cycles == 1,
    {
        proof {
            lemma_u16_masks();
        }
        let op = extract_bits_u16(opcode, 11, 13);
        let rd = extract_bits_u16(opcode, 8, 11) as usize;
        let nn = extract_bits_u16(opcode, 0, 8) as u32;

        let cycles: u64 = 1;
        let rs_val = self.registers.get_r(rd);

        if op == 0 {
            self.registers.mov(rd, nn);
            return cycles;
        }
        let result = if op == 2 {
            add_op(rs_val, nn, false)
        } else {
            sub_op(rs_val, nn, true)
        };
        self.registers.set_flags(&result);
        if op != 1 {
            self.registers.set_r(rd, result.result());
        }
        cycles
    }

    /// The sixteen ALU operations on low registers.
    pub fn thumb_alu_operations(&mut self, opcode: u16) -> (cycles: u64)
        ensures
            final(self)@ == (CpuView { regs: alu_result(old(self)@.regs, opcode).0, ..old(self)@ }),
            cycles == alu_result(old(self)@.regs, opcode).1,
    {
        proof {
            lemma_u16_masks();
        }
        let op = extract_bits_u16(opcode, 6, 10);
        let rs = extract_bits_u16(opcode, 3, 6) as usize;
        let rd = extract_bits_u16(opcode, 0, 3) as usize;

        let rs_val = self.registers.get_r(rs);
        let rd_val = self.registers.get_r(rd);

        // N,Z,C,V for ADC, SBC, NEG, CMP, CMN; N,Z,C for the shifts; N,Z for
        // the logical operations. 1S for most, 1S+1I for the shifts, 1S+mI for MUL.
        let cycles = match op {
            0x0 => {
                // AND
                let result = and_op(rd_val, rs_val);
                self.registers.set_flags(&result);
                self.registers.set_r(rd, result);
                1
            },
            0x1 => {
                // EOR
                let result = eor_op(rd_val, rs_val);
                self.registers.set_flags(&result);
                self.registers.set_r(rd, result);
                1
            },
            0x2 => {
                // LSL
                let result = lsl_op(rd_val, rs_val, self.registers.get_carry());
                self.registers.set_flags(&result);
                self.registers.set_r(rd, result.result());
                2
            },
            0x3 => {
                // LSR; a zero amount leaves Rd and C unchanged
                let result = if rs_val == 0 {
                    lsl_op(rd_val, 0, self.registers.get_carry())
                } else {
                    lsr_op(rd_val, rs_val, self.registers.get_carry())
                };
                self.registers.set_flags(&result);
                self.registers.set_r(rd, result.result());
                2
            },
            0x4 => {
                // ASR; a zero amount leaves Rd and C unchanged
                let result = if rs_val == 0 {
                    lsl_op(rd_val, 0, self.registers.get_carry())
                } else {
                    asr_op(rd_val, rs_val, self.registers.get_carry())
                };
                self.registers.set_flags(&result);
                self.registers.set_r(rd, result.result());
                2
            },
            0x5 => {
                // ADC
                let result = add_op(rd_val, rs_val, self.registers.get_carry());
                self.registers.set_flags(&result);
                self.registers.set_r(rd, result.result());
                1
            },
            0x6 => {
                // SBC
                let result = sub_op(rd_val, rs_val, self.registers.get_carry());
                self.registers.set_flags(&result);
                self.registers.set_r(rd, result.result());
                1
            },
            0x7 => {
                // ROR; a zero amount leaves Rd and C unchanged
                let result = if rs_val == 0 {
                    lsl_op(rd_val, 0, self.registers.get_carry())
                } else {
                    ror_op(rd_val, rs_val, self.registers.get_carry())
                };
                self.registers.set_flags(&result);
                self.registers.set_r(rd, result.result());
                2
            },
            0x8 => {
                // TST
                let result = and_op(rd_val, rs_val);
                self.registers.set_flags(&result);
                1
            },
            0x9 => {
                // NEG
                let result = sub_op(0, rs_val, true);
                self.registers.set_flags(&result);
                self.registers.set_r(rd, result.result());
                1
            },
            0xA => {
                // CMP
                let result = sub_op(rd_val, rs_val, true);
                self.registers.set_flags(&result);
                1
            },
            0xB => {
                // CMN
                let result = add_op(rd_val, rs_val, false);
                self.registers.set_flags(&result);
                1
            },
            0xC => {
                // ORR
                let result = orr_op(rd_val, rs_val);
                self.registers.set_flags(&result);
                self.registers.set_r(rd, result);
                1
            },
            0xD => {
                // MUL: 1S + mI, m from the top bytes of the incoming Rd
                let result = mul_op(rd_val, rs_val);
                self.registers.set_flags(&result);
                self.registers.set_r(rd, result.result());
                mul_cycles(rd_val)
            },
            0xE => {
                // BIC
                let result = and_op(rd_val, !rs_val);
                self.registers.set_flags(&result);
                self.registers.set_r(rd, result);
                1
            },
            _ => {
                // MVN
                let result = mvn_op(rd_val, rs_val);
                self.registers.set_flags(&result);
                self.registers.set_r(rd, result);
                1
            },
        };
        cycles
    }

    /// ADD, CMP, MOV and BX/BLX on Rd (bits 0..3, plus 8 with H1) and Rs
    /// (bits 3..6, plus 8 with H2); at least one of H1 and H2 must be set.
    pub fn thumb_hi_register_operations_branch_exchange(&mut self, opcode: u16) -> (cycles: u64)
        requires
            hi_register_ok(old(self)@.regs, opcode),
        ensures
            final(self)@ == (CpuView { regs: hi_register_result(old(self)@.regs, opcode).0, ..old(self)@ }),
            cycles == hi_register_result(old(self)@.regs, opcode).1,
    {
        proof {
            lemma_u16_masks();
        }
        let op = extract_bits_u16(opcode, 8, 10);
        let rs = extract_bits_u16(opcode, 3, 6) as usize + if extract_bit_u16(opcode, 6) {
            8
        } else {
            0
        };
        let rd = extract_bits_u16(opcode, 0, 3) as usize + if extract_bit_u16(opcode, 7) {
            8
        } else {
            0
        };

        let rs_val = self.registers.get_r(rs);

        let cycles = match op {
            0 => {
                // ADD Rd, Rs
                let result = add_op(self.registers.get_r(rd), rs_val, false);
                self.registers.set_flags(&result);
                self.registers.set_r(rd, result.result());
                1
            },
            1 => {
                // CMP Rd, Rs
                let result = sub_op(self.registers.get_r(rd), rs_val, true);
                self.registers.set_flags(&result);
                1
            },
            2 => {
                // MOV Rd, Rs
                self.registers.mov(rd, rs_val);
                1
            },
            _ => {
                // BX Rs
                if !extract_bit_u32(rs_val, 0) {
                    self.registers.set_thumb_state(false);
                    self.registers.set_pc(rs_val & !1);
                } else {
                    self.registers.set_pc(rs_val);
                }
                // BLX form (Rd = 15)
                if rd == 15 {
                    self.registers.set_lr(self.registers.get_visible_pc() + 4);
                    self.registers.set_pc(rs_val);
                }
                2
            },
        };
        cycles
    }

    /// LDR Rd, [PC, #nn]. Cycles: 1S + 1N + 1I.
    pub fn thumb_pc_relative_load(&mut self, memory: &Memory, opcode: u16) -> (cycles: u64)
        requires
            memory@.wf(),
            thumb_ok(ThumbExecutor::PcRelativeLoad, old(self)@.regs, opcode),
        ensures
            final(self)@ == thumb_after(old(self)@, thumb_step(ThumbExecutor::PcRelativeLoad, old(self)@.regs, memory@, opcode)),
            cycles == 3,
    {
        proof {
            lemma_u16_masks();
        }
        let rd = extract_bits_u16(opcode, 8, 11) as usize;
        let nn = extract_bits_u16(opcode, 0, 8) as u32;
        let pc = self.registers.get_visible_pc();
        let address = pc + 4 + nn;
        let data = memory.read_u32(address);
        self.registers.set_r(rd, data);
        3
    }
}

impl CPU {
    /// One word, byte or halfword transfer between Rd and memory.
    fn thumb_transfer(&mut self, memory: &mut Memory, rd: usize, address: u32, kind: u16) -> (cycles: u64)
        requires
            rd < 8,
            old(memory)@.wf(),
            transfer_ok(address, kind),
        ensures
            ({
                let s = transfer(old(self)@.regs, old(memory)@, rd as int, address, kind);
                &&& final(self)@ == thumb_after(old(self)@, s)
                &&& final(memory)@ == s.mem
                &&& cycles == s.cycles
            }),
            final(memory)@.wf(),
    {
        let rd_val = self.registers.get_r(rd);
        if kind == 0 {
            memory.write_u32(address, rd_val);
            2
        } else if kind == 1 {
            memory.write_u8(address, rd_val as u8);
            2
        } else if kind == 2 {
            let data = memory.read_u32(address);
            self.registers.set_r(rd, data);
            3
        } else if kind == 3 {
            let data = memory.read_u8(address) as u32;
            self.registers.set_r(rd, data);
            3
        } else if kind == 4 {
            memory.write_u16(address, rd_val as u16);
            2
        } else if kind == 5 {
            let data = sign_extend_byte(memory.read_u8(address));
            self.registers.set_r(rd, data);
            3
        } else if kind == 6 {
            let data = memory.read_u16(address) as u32;
            self.registers.set_r(rd, data);
            3
        } else {
            let data = sign_extend_half(memory.read_u16(address));
            self.registers.set_r(rd, data);
            3
        }
    }

    /// STR, STRB, LDR, LDRB Rd, [Rb, Ro] (op 0..4 of bits 10..12).
    pub fn thumb_load_store_with_register_offset(&mut self, memory: &mut Memory, opcode: u16) -> (cycles: u64)
        requires
            old(memory)@.wf(),
            thumb_ok(ThumbExecutor::LoadStoreWithRegisterOffset, old(self)@.regs, opcode),
        ensures
            ({
                let s = thumb_step(ThumbExecutor::LoadStoreWithRegisterOffset, old(self)@.regs, old(memory)@, opcode);
                &&& final(self)@ == thumb_after(old(self)@, s)
                &&& final(memory)@ == s.mem
                &&& cycles == s.cycles
            }),
            final(memory)@.wf(),
    {
        proof {
            lemma_u16_masks();
        }
        let op = extract_bits_u16(opcode, 10, 12);
        let ro = extract_bits_u16(opcode, 6, 9) as usize;
        let rb = extract_bits_u16(opcode, 3, 6) as usize;
        let rd = extract_bits_u16(opcode, 0, 3) as usize;
        let rb_val = self.registers.get_r(rb);
        let ro_val = self.registers.get_r(ro);
        let address = rb_val.wrapping_add(ro_val);
        self.thumb_transfer(memory, rd, address, op)
    }

    /// STRH, LDSB, LDRH, LDSH Rd, [Rb, Ro].
    pub fn thumb_load_store_sign_extended_byte_halfword(&mut self, memory: &mut Memory, opcode: u16) -> (cycles: u64)
        requires
            old(memory)@.wf(),
            thumb_ok(ThumbExecutor::LoadStoreSignExtendedByteHalfword, old(self)@.regs, opcode),
        ensures
            ({
                let s = thumb_step(ThumbExecutor::LoadStoreSignExtendedByteHalfword, old(self)@.regs, old(memory)@, opcode);
                &&& final(self)@ == thumb_after(old(self)@, s)
                &&& final(memory)@ == s.mem
                &&& cycles == s.cycles
            }),
            final(memory)@.wf(),
    {
        proof {
            lemma_u16_masks();
        }
        let op = extract_bits_u16(opcode, 10, 12);
        let ro = extract_bits_u16(opcode, 6, 9) as usize;
        let rb = extract_bits_u16(opcode, 3, 6) as usize;
        let rd = extract_bits_u16(opcode, 0, 3) as usize;
        let rb_val = self.registers.get_r(rb);
        let ro_val = self.registers.get_r(ro);
        let address = rb_val.wrapping_add(ro_val);
        self.thumb_transfer(memory, rd, address, op + 4)
    }

    /// STR, LDR, STRB, LDRB Rd, [Rb, #nn] (nn from bits 6..9).
    pub fn thumb_load_store_with_immediate_offset(&mut self, memory: &mut Memory, opcode: u16) -> (cycles: u64)
        requires
            old(memory)@.wf(),
            thumb_ok(ThumbExecutor::LoadStoreWithImmediateOffset, old(self)@.regs, opcode),
        ensures
            ({
                let s = thumb_step(ThumbExecutor::LoadStoreWithImmediateOffset, old(self)@.regs, old(memory)@, opcode);
                &&& final(self)@ == thumb_after(old(self)@, s)
                &&& final(memory)@ == s.mem
                &&& cycles == s.cycles
            }),
            final(memory)@.wf(),
    {
        proof {
            lemma_u16_masks();
        }
        let op = extract_bits_u16(opcode, 11, 13);
        let nn = extract_bits_u16(opcode, 6, 9) as u32;
        let rb = extract_bits_u16(opcode, 3, 6) as usize;
        let rd = extract_bits_u16(opcode, 0, 3) as usize;
        let rb_val = self.registers.get_r(rb);
        let address = rb_val.wrapping_add(nn);
        let kind: u16 = match op {
            0 => 0,
            1 => 2,
            2 => 1,
            _ => 3,
        };
        self.thumb_transfer(memory, rd, address, kind)
    }

    /// STRH/LDRH Rd, [Rb, #nn * 2].
    pub fn thumb_load_store_halfword(&mut self, memory: &mut Memory, opcode: u16) -> (cycles: u64)
        requires
            old(memory)@.wf(),
            thumb_ok(ThumbExecutor::LoadStoreHalfword, old(self)@.regs, opcode),
        ensures
            ({
                let s = thumb_step(ThumbExecutor::LoadStoreHalfword, old(self)@.regs, old(memory)@, opcode);
                &&& final(self)@ == thumb_after(old(self)@, s)
                &&& final(memory)@ == s.mem
                &&& cycles == s.cycles
            }),
            final(memory)@.wf(),
    {
        proof {
            lemma_u16_masks();
        }
        let op = extract_bit_u16(opcode, 11);
        let nn = extract_bits_u16(opcode, 6, 11) as u32;
        let rb = extract_bits_u16(opcode, 3, 6) as usize;
        let rd = extract_bits_u16(opcode, 0, 3) as usize;
        let rb_val = self.registers.get_r(rb);
        let address = rb_val.wrapping_add(nn * 2);
        self.thumb_transfer(memory, rd, address, if op { 6 } else { 4 })
    }

    /// STR/LDR Rd, [SP, #nn].
    pub fn thumb_sp_relative_load_store(&mut self, memory: &mut Memory, opcode: u16) -> (cycles: u64)
        requires
            old(memory)@.wf(),
            thumb_ok(ThumbExecutor::SpRelativeLoadStore, old(self)@.regs, opcode),
        ensures
            ({
                let s = thumb_step(ThumbExecutor::SpRelativeLoadStore, old(self)@.regs, old(memory)@, opcode);
                &&& final(self)@ == thumb_after(old(self)@, s)
                &&& final(memory)@ == s.mem
                &&& cycles == s.cycles
            }),
            final(memory)@.wf(),
    {
        proof {
            lemma_u16_masks();
        }
        let op = extract_bit_u16(opcode, 11);
        let rd = extract_bits_u16(opcode, 8, 11) as usize;
        let nn = extract_bits_u16(opcode, 0, 8) as u32;
        let sp_val = self.registers.get_sp();
        let address = sp_val.wrapping_add(nn);
        self.thumb_transfer(memory, rd, address, if op { 2 } else { 0 })
    }

    /// ADD Rd, PC, #nn / ADD Rd, SP, #nn. Cycles: 1.
    pub fn thumb_get_relative_address(&mut self, opcode: u16) -> (cycles: u64)
        ensures
            final(self)@ == (CpuView { regs: relative_address_regs(old(self)@.regs, opcode), ..old(self)@ }),
            cycles == 1,
    {
        proof {
            lemma_u16_masks();
        }
        let op = extract_bit_u16(opcode, 11);
        let rd = extract_bits_u16(opcode, 8, 11) as usize;
        let nn = extract_bits_u16(opcode, 0, 8) as u32;
        let address = if !op {
            let pc = self.registers.get_pc();
            (pc.wrapping_add(4) & !2).wrapping_add(nn)
        } else {
            let sp = self.registers.get_sp();
            sp.wrapping_add(nn)
        };
        self.registers.set_r(rd, address);
        1
    }

    /// ADD SP, #nn / SUB SP, #nn. Cycles: 1.
    pub fn thumb_add_offset_to_stack_pointer(&mut self, opcode: u16) -> (cycles: u64)
        ensures
            final(self)@ == (CpuView { regs: add_offset_to_sp_regs(old(self)@.regs, opcode), ..old(self)@ }),
            cycles == 1,
    {
        proof {
            lemma_u16_masks();
        }
        let op = extract_bit_u16(opcode, 7);
        let nn = extract_bits_u16(opcode, 0, 7) as u32;
        let sp_val = self.registers.get_sp();
        let new_sp = if !op {
            sp_val.wrapping_add(nn)
        } else {
            sp_val.wrapping_sub(nn)
        };
        self.registers.set_sp(new_sp);
        1
    }

    /// PUSH {rlist} (bit 11 clear; bit 8 adds LR) / POP {rlist} (bit 8 adds PC).
    pub fn thumb_push_pop_registers(&mut self, memory: &mut Memory, opcode: u16) -> (cycles: u64)
        requires
            old(memory)@.wf(),
            thumb_ok(ThumbExecutor::PushPopRegisters, old(self)@.regs, opcode),
        ensures
            ({
                let s = thumb_step(ThumbExecutor::PushPopRegisters, old(self)@.regs, old(memory)@, opcode);
                &&& final(self)@ == thumb_after(old(self)@, s)
                &&& final(memory)@ == s.mem
                &&& cycles == s.cycles
            }),
            final(memory)@.wf(),
    {
        proof {
            lemma_u16_masks();
        }
        let op = extract_bit_u16(opcode, 11);
        let pc_lr = extract_bit_u16(opcode, 8);
        let r_list = extract_bits_u16(opcode, 0, 8) as u8;
        if op {
            self.thumb_pop(memory, pc_lr, r_list)
        } else {
            self.thumb_push(memory, pc_lr, r_list)
        }
    }

    /// LDMIA/STMIA Rb!, {rlist}.
    pub fn thumb_multiple_load_store(&mut self, memory: &mut Memory, opcode: u16) -> (cycles: u64)
        requires
            old(memory)@.wf(),
            thumb_ok(ThumbExecutor::MultipleLoadStore, old(self)@.regs, opcode),
        ensures
            ({
                let s = thumb_step(ThumbExecutor::MultipleLoadStore, old(self)@.regs, old(memory)@, opcode);
                &&& final(self)@ == thumb_after(old(self)@, s)
                &&& final(memory)@ == s.mem
                &&& cycles == s.cycles
            }),
            final(memory)@.wf(),
    {
        proof {
            lemma_u16_masks();
        }
        let op = extract_bit_u16(opcode, 11);
        let rb = extract_bits_u16(opcode, 8, 11) as usize;
        let r_list = extract_bits_u16(opcode, 0, 8) as u32;

        let base_addr = self.registers.get_r(rb);
        let num_regs = count_ones(r_list, 8);

        let end_addr = if op {
            // LDMIA
            self.load_registers(memory, r_list, base_addr, 8)
        } else {
            // STMIA
            self.store_registers(memory, r_list, base_addr, 8)
        };
        self.registers.set_r(rb, end_addr);

        if op {
            num_regs as u64 + 2
        } else {
            (num_regs - 1) as u64 + 2
        }
    }

    /// B: PC-relative with an 11-bit signed halfword offset. Cycles: 2S + 1N.
    pub fn thumb_unconditional_branch(&mut self, opcode: u16) -> (cycles: u64)
        ensures
            final(self)@ == (CpuView { regs: unconditional_branch_regs(old(self)@.regs, opcode), ..old(self)@ }),
            cycles == 3,
    {
        proof {
            lemma_u16_masks();
        }
        let signed_offset_11 = extract_bits_u16(opcode, 0, 11) as u32;
        let signed_offset = sign_extend_11(signed_offset_11);
        let branch_offset = signed_offset * 2;
        let pc = self.registers.get_visible_pc();
        let new_pc = pc.wrapping_add_signed(branch_offset);
        self.registers.set_pc(new_pc);
        3
    }

    /// Bcond with an 8-bit signed halfword offset; the condition field must
    /// name a condition.
    pub fn thumb_conditional_branch(&mut self, opcode: u16) -> (cycles: u64)
        requires
            field_u16(opcode, 8, 4) != 0xF,
        ensures
            final(self)@ == (CpuView { regs: conditional_branch_result(old(self)@.regs, opcode).0, ..old(self)@ }),
            cycles == conditional_branch_result(old(self)@.regs, opcode).1,
    {
        proof {
            lemma_u16_masks();
        }
        let signed_offset_8 = extract_bits_u16(opcode, 0, 8) as u32;
        let signed_offset = sign_extend_8(signed_offset_8);
        let branch_offset = signed_offset * 2;

        let op = extract_bits_u16(opcode, 8, 12);
        let pc = self.registers.get_visible_pc();
        let mut cycles: u64 = 1;

        if should_branch(&self.registers, Condition::from(op)) {
            cycles += 2;
            let new_pc = pc.wrapping_add_signed(branch_offset);
            self.registers.set_pc(new_pc);
        }
        cycles
    }

    /// BL, first half: LR = visible PC + (offset << 12). Cycles: 1S.
    pub fn thumb_long_branch_with_link_1(&mut self, opcode: u16) -> (cycles: u64)
        ensures
            final(self)@ == (CpuView { regs: long_branch_1_regs(old(self)@.regs, opcode), ..old(self)@ }),
            cycles == 1,
    {
        proof {
            lemma_u16_masks();
        }
        let upper_bits = extract_bits_u16(opcode, 0, 11) as u32;
        let shifted_upper = (upper_bits as i32) * 4096;
        let pc = self.registers.get_visible_pc();
        let lr = pc.wrapping_add_signed(shifted_upper);
        self.registers.set_lr(lr);
        1
    }

    /// BL, second half: jump to LR + offset * 2, LR = return address | 1;
    /// bit 12 clear (BLX) switches to ARM state. Cycles: 2S + 1N.
    pub fn thumb_long_branch_with_link_2(&mut self, opcode: u16) -> (cycles: u64)
        ensures
            final(self)@ == (CpuView { regs: long_branch_2_regs(old(self)@.regs, opcode), ..old(self)@ }),
            cycles == 3,
    {
        proof {
            lemma_u16_masks();
        }
        let lower_bits = extract_bits_u16(opcode, 0, 11) as u32;
        let shifted_lower = (lower_bits as i32) * 2;

        let lr = self.registers.get_lr() as i32;
        let pc = self.registers.get_pc();
        let new_pc = (lr.wrapping_add(shifted_lower) as u32) & !1;
        self.registers.set_pc(new_pc);

        let new_lr = pc.wrapping_add(2);
        self.registers.set_lr(new_lr | 1);

        if !extract_bit_u16(opcode, 12) {
            self.registers.set_thumb_state(false);
        }
        3
    }

    /// SWI: supervisor mode (CPSR = 0x13) at vector 0x08, comment in R0.
    pub fn thumb_software_interrupt(&mut self, opcode: u16) -> (cycles: u64)
        requires
            old(self)@.regs.pc() + 2 <= u32::MAX,
        ensures
            final(self)@ == (CpuView { regs: thumb_swi_regs(old(self)@.regs, opcode), ..old(self)@ }),
            cycles == 3,
    {
        proof {
            lemma_u16_masks();
        }
        let comment_field = extract_bits_u16(opcode, 0, 8) as u8;
        let pc = self.registers.get_pc();
        // The return address the exception would bank in R14_svc.
        let _r14_svc = pc + 2;
        self.registers.set_cpsr(0x13);
        self.registers.set_pc(0x8);
        self.registers.set_r(0, comment_field as u32);
        3
    }

    /// BKPT: abort mode (CPSR = 0x17) at vector 0x0C, comment in R0.
    pub fn thumb_breakpoint(&mut self, opcode: u16) -> (cycles: u64)
        requires
            old(self)@.regs.pc() + 4 <= u32::MAX,
        ensures
            final(self)@ == (CpuView { regs: thumb_bkpt_regs(old(self)@.regs, opcode), ..old(self)@ }),
            cycles == 3,
    {
        proof {
            lemma_u16_masks();
        }
        let comment_field = extract_bits_u16(opcode, 0, 8) as u8;
        let pc = self.registers.get_pc();
        // The return address the exception would bank in R14_abt.
        let _r14_abt = pc + 4;
        self.registers.set_cpsr(0x17);
        self.registers.set_pc(0xC);
        self.registers.set_r(0, comment_field as u32);
        3
    }

    fn thumb_push(&mut self, memory: &mut Memory, lr: bool, r_list: u8) -> (cycles: u64)
        requires
            old(memory)@.wf(),
            push_ok(old(self)@.regs, lr, r_list as u32),
        ensures
            ({
                let s = push_step(old(self)@.regs, old(memory)@, lr, r_list as u32);
                &&& final(self)@ == thumb_after(old(self)@, s)
                &&& final(memory)@ == s.mem
                &&& cycles == s.cycles
            }),
            final(memory)@.wf(),
    {
        let mut sp = self.registers.get_sp();
        let num_regs = count_ones(r_list as u32, 8);
        sp = sp - 4 * num_regs;
        if lr {
            sp = sp - 4;
        }
        self.registers.set_sp(sp);
        let addr = self.store_registers(memory, r_list as u32, sp, 8);
        if lr {
            memory.write_u32(addr, self.registers.get_lr());
        }
        self.store_prefetch();
        // (n-1)S + 2N for the n words stored.
        let words: u64 = num_regs as u64 + if lr { 1 } else { 0 };
        (words - 1) + 2
    }

    fn thumb_pop(&mut self, memory: &mut Memory, pc: bool, r_list: u8) -> (cycles: u64)
        requires
            old(memory)@.wf(),
            pop_ok(old(self)@.regs, pc, r_list as u32),
        ensures
            ({
                let s = pop_step(old(self)@.regs, old(memory)@, pc, r_list as u32);
                &&& final(self)@ == thumb_after(old(self)@, s)
                &&& final(memory)@ == s.mem
                &&& cycles == s.cycles
            }),
            final(memory)@.wf(),
    {
        let sp0 = self.registers.get_sp();
        let num_regs = count_ones(r_list as u32, 8);
        proof {
            crate::cpu::lemma_list_addr_no_wrap(r_list as u32, sp0, 8);
        }
        let mut sp = self.load_registers(memory, r_list as u32, sp0, 8);
        if pc {
            let val = memory.read_u32(sp);
            self.registers.set_pc(val);
            sp = sp + 4;
        }
        self.registers.set_sp(sp);
        (num_regs as u64) + 2
    }
}

} // verus!
