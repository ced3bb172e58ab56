//! Run-time tests of the conditions under which an instruction can run:
//! each decides exactly the matching `_ok` predicate of the executors.
use vstd::prelude::*;
use crate::bits::{
    extract_bit_u16, extract_bit_u32, extract_bits_u16, extract_bits_u32, lemma_u16_masks,
    lemma_u32_masks,
};
use crate::cpu::decoder::{decode_arm, decode_thumb};
use crate::cpu::executor::arm_ops::{arm_cond_valid, arm_executes, arm_ok, reg_shift_ok, reg_shift_operand};
use crate::cpu::executor::thumb_ops::{thumb_ok, transfer_ok};
use crate::cpu::executor::{ArmExecutor, ThumbExecutor};
use crate::cpu::operations::{arithmetic_shift_right, rotate_right, should_branch, Condition};
use crate::cpu::registers::Registers;
use crate::cpu::{
    count_ones, cycle_ok, cycle_runs, lemma_cycle_bound, list_addr, load_list_ok, store_list_ok, CPU,
};
use crate::memory::{
    byte_access_in_range, read_u16_in_range, read_u32_in_range, write_u16_in_range,
    write_u32_in_range, Memory, MemoryAccess,
};

verus! {

broadcast use {crate::bits::group_bits, crate::cpu::registers::lemma_regs_len};

/// Whether every word of a register list (bits `0..count`) from `addr` is
/// in range for loads (`load`) or stores.
fn list_in_range(rlist: u32, addr: u32, count: u32, load: bool) -> (b: bool)
    requires
        count <= 16,
    ensures
        load ==> b == load_list_ok(rlist, addr, count as nat),
        !load ==> b == store_list_ok(rlist, addr, count as nat),
{
    let mut ok = true;
    let mut a = addr;
    let mut i: u32 = 0;
    while i < count
        invariant
            i <= count <= 16,
            a == list_addr(rlist, addr, i as nat),
            load ==> ok == load_list_ok(rlist, addr, i as nat),
            !load ==> ok == store_list_ok(rlist, addr, i as nat),
        decreases count - i,
    {
        if rlist & (1u32 << i) != 0 {
            let here = if load {
                read_u32_in_range(a)
            } else {
                write_u32_in_range(a)
            };
            ok = ok && here;
            a = a.wrapping_add(4);
        }
        i = i + 1;
    }
    ok
}

/// Whether the condition field names a condition, and if so whether it holds.
fn arm_condition(regs: &Registers, opcode: u32) -> (r: (bool, bool))
    ensures
        r.0 == arm_cond_valid(opcode),
        r.0 ==> r.1 == arm_executes(regs@, opcode),
{
    proof {
        lemma_u32_masks();
    }
    let field = extract_bits_u32(opcode, 28, 32);
    if field == 0xF {
        return (false, false);
    }
    (true, should_branch(regs, Condition::from(field as u16)))
}

/// Whether an immediate shift of a register operand is one the shifter can do.
fn shift_in_range(operand2: u32) -> (b: bool)
    ensures
        b == reg_shift_ok(operand2),
{
    proof {
        lemma_u32_masks();
    }
    let shift_imm = extract_bits_u32(operand2, 7, 12);
    let shift_type = extract_bits_u32(operand2, 5, 7);
    !(shift_imm == 0 && (shift_type == 1 || shift_type == 2))
}

/// The shifted register operand of bits 0..12 (a valid shift).
fn reg_shift_value(regs: &Registers, operand2: u32) -> (v: u32)
    requires
        reg_shift_ok(operand2),
    ensures
        v == reg_shift_operand(regs@, operand2),
{
    proof {
        lemma_u32_masks();
    }
    let shift_imm = extract_bits_u32(operand2, 7, 12);
    let shift_type = extract_bits_u32(operand2, 5, 7);
    let rm_val = regs.get_r(extract_bits_u32(operand2, 0, 4) as usize);
    match shift_type {
        0 => rm_val << shift_imm,
        1 => rm_val >> if shift_imm == 0 { 32 } else { shift_imm },
        2 => arithmetic_shift_right(rm_val, shift_imm),
        _ => rotate_right(rm_val, if shift_imm == 0 { 1 } else { shift_imm }),
    }
}

/// Whether an ARM executor can run on `regs` and `opcode`.
pub fn arm_can_run(regs: &Registers, kind: ArmExecutor, opcode: u32) -> (b: bool)
    ensures
        b == arm_ok(kind, regs@, opcode),
{
    proof {
        lemma_u32_masks();
    }
    match kind {
        ArmExecutor::NoOp => true,
        ArmExecutor::BranchAndBranchExchange | ArmExecutor::Branch => {
            let (valid, executes) = arm_condition(regs, opcode);
            if !valid {
                return false;
            }
            let links = extract_bits_u32(opcode, 25, 28) == 0b000 && extract_bits_u32(opcode, 4, 8)
                == 0b0011;
            !(executes && links) || regs.get_visible_pc() <= u32::MAX - 4
        },
        ArmExecutor::BlockDataTransfer => {
            let (valid, executes) = arm_condition(regs, opcode);
            if !valid {
                return false;
            }
            if !executes {
                return true;
            }
            let u = extract_bit_u32(opcode, 23);
            let rlist = extract_bits_u32(opcode, 0, 16);
            let base = regs.get_r(extract_bits_u32(opcode, 16, 20) as usize);
            let num = count_ones(rlist, 16);
            let lowest = if u {
                base
            } else {
                base.wrapping_sub(num * 4)
            };
            let start = if extract_bit_u32(opcode, 24) == u {
                lowest.wrapping_add(4)
            } else {
                lowest
            };
            list_in_range(rlist, start, 16, extract_bit_u32(opcode, 20))
        },
        ArmExecutor::SoftwareInterrupt | ArmExecutor::Undefined => regs.get_pc() >= 4,
        ArmExecutor::SingleDataTransfer => {
            let (valid, executes) = arm_condition(regs, opcode);
            if !valid {
                return false;
            }
            if extract_bit_u32(opcode, 25) && !shift_in_range(opcode) {
                return false;
            }
            if !executes {
                return true;
            }
            let offset = if !extract_bit_u32(opcode, 25) {
                extract_bits_u32(opcode, 0, 12)
            } else {
                reg_shift_value(regs, opcode)
            };
            let base = regs.get_r(extract_bits_u32(opcode, 16, 20) as usize);
            let addr = if !extract_bit_u32(opcode, 24) {
                base
            } else if extract_bit_u32(opcode, 23) {
                base.wrapping_add(offset)
            } else {
                base.wrapping_sub(offset)
            };
            let b = extract_bit_u32(opcode, 22);
            if extract_bit_u32(opcode, 20) {
                if b {
                    byte_access_in_range(addr)
                } else {
                    read_u32_in_range(addr)
                }
            } else {
                if b {
                    byte_access_in_range(addr)
                } else {
                    write_u32_in_range(addr)
                }
            }
        },
        ArmExecutor::SingleDataSwap => {
            let (valid, executes) = arm_condition(regs, opcode);
            if !valid {
                return false;
            }
            if !executes {
                return true;
            }
            let addr = regs.get_r(extract_bits_u32(opcode, 16, 20) as usize);
            read_u32_in_range(addr) && write_u32_in_range(addr)
        },
        ArmExecutor::Multiply | ArmExecutor::MultiplyLong | ArmExecutor::PsrTransferMrs => {
            arm_condition(regs, opcode).0
        },
        ArmExecutor::HalfwordDataTransferRegister | ArmExecutor::HalfwordDataTransferImmediate => {
            let (valid, executes) = arm_condition(regs, opcode);
            if !valid {
                return false;
            }
            if !executes {
                return true;
            }
            let upper = extract_bits_u32(opcode, 8, 12);
            let rm = extract_bits_u32(opcode, 0, 4);
            let p = extract_bit_u32(opcode, 24);
            let offset = if !p || !extract_bit_u32(opcode, 22) {
                (upper << 4) | (opcode & 0xF)
            } else if upper == 0 && rm == 0 {
                opcode & 0xF
            } else {
                (upper << 4) | regs.get_r(rm as usize)
            };
            let base = regs.get_r(extract_bits_u32(opcode, 16, 20) as usize);
            let indexed = if extract_bit_u32(opcode, 23) {
                base.wrapping_add(offset)
            } else {
                base.wrapping_sub(offset)
            };
            let addr = if p {
                indexed
            } else {
                base
            };
            let op = extract_bits_u32(opcode, 4, 8);
            if extract_bit_u32(opcode, 20) {
                (!(op == 0x1 || op == 0x5 || op == 0xD || op == 0x3 || op == 0xB)
                    || read_u16_in_range(addr)) && (!(op == 0x2 || op == 0x7)
                    || byte_access_in_range(addr))
            } else {
                !(op == 0x1 || op == 0xB || op == 0x9) || write_u16_in_range(addr)
            }
        },
        ArmExecutor::PsrTransferMsr | ArmExecutor::DataProcessing => {
            arm_condition(regs, opcode).0 && (extract_bit_u32(opcode, 25) || shift_in_range(
                extract_bits_u32(opcode, 0, 12),
            ))
        },
    }
}

/// Whether a word, byte or halfword transfer of a kind is in range.
fn transfer_in_range(addr: u32, kind: u16) -> (b: bool)
    ensures
        b == transfer_ok(addr, kind),
{
    if kind == 0 {
        write_u32_in_range(addr)
    } else if kind == 1 {
        byte_access_in_range(addr)
    } else if kind == 2 {
        read_u32_in_range(addr)
    } else if kind == 3 || kind == 5 {
        byte_access_in_range(addr)
    } else if kind == 4 {
        write_u16_in_range(addr)
    } else {
        read_u16_in_range(addr)
    }
}

/// Whether a Thumb executor can run on `regs` and `opcode`.
pub fn thumb_can_run(regs: &Registers, kind: ThumbExecutor, opcode: u16) -> (b: bool)
    ensures
        b == thumb_ok(kind, regs@, opcode),
{
    proof {
        lemma_u16_masks();
    }
    match kind {
        ThumbExecutor::MoveShiftedRegister => extract_bits_u16(opcode, 11, 13) != 3,
        ThumbExecutor::HiRegisterOperationsBranchExchange => {
            if !(extract_bit_u16(opcode, 7) || extract_bit_u16(opcode, 6)) {
                return false;
            }
            let links = extract_bits_u16(opcode, 8, 10) == 3 && extract_bit_u16(opcode, 7)
                && extract_bits_u16(opcode, 0, 3) == 7;
            if !links {
                return true;
            }
            let rs = extract_bits_u16(opcode, 3, 6) as usize + if extract_bit_u16(opcode, 6) {
                8
            } else {
                0
            };
            let rs_val = regs.get_r(rs);
            let mut exchanged: Registers = *regs;
            if !extract_bit_u32(rs_val, 0) {
                exchanged.set_thumb_state(false);
                exchanged.set_pc(rs_val & !1);
            } else {
                exchanged.set_pc(rs_val);
            }
            exchanged.get_visible_pc() <= u32::MAX - 4
        },
        ThumbExecutor::PcRelativeLoad => {
            let pc = regs.get_visible_pc();
            let nn = extract_bits_u16(opcode, 0, 8) as u32;
            if pc > u32::MAX - 4 - nn {
                return false;
            }
            read_u32_in_range(pc + 4 + nn)
        },
        ThumbExecutor::LoadStoreWithRegisterOffset | ThumbExecutor::LoadStoreSignExtendedByteHalfword => {
            let rb_val = regs.get_r(extract_bits_u16(opcode, 3, 6) as usize);
            let ro_val = regs.get_r(extract_bits_u16(opcode, 6, 9) as usize);
            let op = extract_bits_u16(opcode, 10, 12);
            let kind_code = if kind == ThumbExecutor::LoadStoreWithRegisterOffset {
                op
            } else {
                op + 4
            };
            transfer_in_range(rb_val.wrapping_add(ro_val), kind_code)
        },
        ThumbExecutor::LoadStoreWithImmediateOffset => {
            let rb_val = regs.get_r(extract_bits_u16(opcode, 3, 6) as usize);
            let nn = extract_bits_u16(opcode, 6, 9) as u32;
            let kind_code: u16 = match extract_bits_u16(opcode, 11, 13) {
                0 => 0,
                1 => 2,
                2 => 1,
                _ => 3,
            };
            transfer_in_range(rb_val.wrapping_add(nn), kind_code)
        },
        ThumbExecutor::LoadStoreHalfword => {
            let rb_val = regs.get_r(extract_bits_u16(opcode, 3, 6) as usize);
            let nn = extract_bits_u16(opcode, 6, 11) as u32;
            transfer_in_range(rb_val.wrapping_add(nn * 2), if extract_bit_u16(opcode, 11) { 6 } else { 4 })
        },
        ThumbExecutor::SpRelativeLoadStore => {
            let nn = extract_bits_u16(opcode, 0, 8) as u32;
            transfer_in_range(regs.get_sp().wrapping_add(nn), if extract_bit_u16(opcode, 11) { 2 } else { 0 })
        },
        ThumbExecutor::PushPopRegisters => {
            let extra = extract_bit_u16(opcode, 8);
            let rlist = extract_bits_u16(opcode, 0, 8) as u32;
            let num = count_ones(rlist, 8);
            let sp = regs.get_sp();
            let extra_bytes: u32 = if extra { 4 } else { 0 };
            if extract_bit_u16(opcode, 11) {
                // POP
                if sp > u32::MAX - 4 * num - extra_bytes {
                    return false;
                }
                if !list_in_range(rlist, sp, 8, true) {
                    return false;
                }
                if extra {
                    proof {
                        crate::cpu::lemma_list_addr_no_wrap(rlist, sp, 8);
                    }
                    read_u32_in_range(sp + 4 * num)
                } else {
                    true
                }
            } else {
                // PUSH
                if (num < 1 && !extra) || sp < 4 * num + extra_bytes {
                    return false;
                }
                let new_sp = sp - 4 * num - extra_bytes;
                if !list_in_range(rlist, new_sp, 8, false) {
                    return false;
                }
                if extra {
                    proof {
                        crate::cpu::lemma_list_addr_no_wrap(rlist, new_sp, 8);
                    }
                    write_u32_in_range(new_sp + 4 * num)
                } else {
                    true
                }
            }
        },
        ThumbExecutor::MultipleLoadStore => {
            let base = regs.get_r(extract_bits_u16(opcode, 8, 11) as usize);
            let rlist = extract_bits_u16(opcode, 0, 8) as u32;
            let num = count_ones(rlist, 8);
            if base > u32::MAX - 4 * num {
                return false;
            }
            if extract_bit_u16(opcode, 11) {
                list_in_range(rlist, base, 8, true)
            } else {
                num >= 1 && list_in_range(rlist, base, 8, false)
            }
        },
        ThumbExecutor::ConditionalBranch => extract_bits_u16(opcode, 8, 12) != 0xF,
        ThumbExecutor::SoftwareInterrupt => regs.get_pc() <= u32::MAX - 2,
        ThumbExecutor::Breakpoint => regs.get_pc() <= u32::MAX - 4,
        _ => true,
    }
}

impl CPU {
    /// Whether the instruction at PC runs without a panic: the fetch is in
    /// range and the decoded executor can run.
    pub fn instruction_can_run(&self, memory: &Memory) -> (b: bool)
        requires
            memory@.wf(),
        ensures
            b == cycle_runs(self@.regs, memory@),
    {
        let pc = self.get_pc();
        if !read_u32_in_range(pc) {
            return false;
        }
        let opcode = memory.read_u32(pc);
        let thumb = self.is_in_thumb_mode();
        let mut regs: Registers = *self.get_registers();
        regs.set_pc(pc.wrapping_add(if thumb { 2 } else { 4 }));
        if thumb {
            thumb_can_run(&regs, decode_thumb(opcode as u16), opcode as u16)
        } else {
            arm_can_run(&regs, decode_arm(opcode), opcode)
        }
    }

    /// Whether the next fetch-decode-execute cycle runs without a panic,
    /// its cycles included in the counter without overflow.
    pub fn cycle_is_safe(&self, memory: &Memory) -> (b: bool)
        requires
            memory@.wf(),
        ensures
            b == cycle_ok(self@, memory@),
    {
        if !self.instruction_can_run(memory) {
            return false;
        }
        let total = self.get_total_cycles();
        if total <= u64::MAX - 18 {
            proof {
                lemma_cycle_bound(self@.regs, memory@);
            }
            return true;
        }
        self.next_cycles(memory) <= u64::MAX - total
    }
}

} // verus!
