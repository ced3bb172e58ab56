//! The ARM7TDMI processor: register file, decoders and executors.
use vstd::prelude::*;
use crate::cpu::decoder::{decode_arm, decode_arm_spec, decode_thumb, decode_thumb_spec};
use crate::cpu::executor::{
    arm_ok, arm_step, thumb_ok, thumb_step, ArmExecutor, ThumbExecutor,
};
use crate::cpu::registers::{Registers, RegsView};
use crate::memory::{
    in_iwram_words, lemma_iwram_word_frame, lemma_iwram_word_round_trip, read_u32_ok,
    spec_read_u32, spec_write_u32, write_u32_ok, MemView, Memory, MemoryAccess,
};

pub mod decoder;
pub mod executor;
pub mod operations;
pub mod registers;
pub mod safety;

verus! {

broadcast use crate::cpu::registers::lemma_regs_len;

/// The abstract state of the processor.
#[verifier::ext_equal]
pub struct CpuView {
    pub regs: RegsView,
    pub total_cycles: u64,
}

/// What one instruction does: the register file and memory after it, and
/// the cycles it takes.
#[verifier::ext_equal]
pub struct Step {
    pub regs: RegsView,
    pub mem: MemView,
    pub cycles: u64,
}

/// A step that only changes registers.
pub open spec fn reg_step(regs: RegsView, mem: MemView, cycles: u64) -> Step {
    Step { regs, mem, cycles }
}

pub struct CPU {
    registers: Registers,
    total_cycles: u64,
}

impl View for CPU {
    type V = CpuView;

    closed spec fn view(&self) -> CpuView {
        CpuView { regs: self.registers@, total_cycles: self.total_cycles }
    }
}

/// Whether bit `k` of a register list is set.
pub open spec fn in_list(rlist: u32, k: nat) -> bool {
    rlist & (1u32 << (k as u32)) != 0
}

/// The number of registers among `0..n` in a register list.
pub open spec fn count_set(rlist: u32, n: nat) -> nat
    decreases n,
{
    if n == 0 {
        0
    } else {
        count_set(rlist, (n - 1) as nat) + if in_list(rlist, (n - 1) as nat) { 1nat } else { 0nat }
    }
}

/// The address at which register `k` of a register list is transferred:
/// consecutive words from `addr`, in ascending register order.
pub open spec fn list_addr(rlist: u32, addr: u32, k: nat) -> u32
    decreases k,
{
    if k == 0 {
        addr
    } else {
        let a = list_addr(rlist, addr, (k - 1) as nat);
        if in_list(rlist, (k - 1) as nat) {
            a.wrapping_add(4)
        } else {
            a
        }
    }
}

/// The registers after loading registers `0..n` of a register list.
pub open spec fn load_list(regs: RegsView, mem: MemView, rlist: u32, addr: u32, n: nat) -> RegsView
    decreases n,
{
    if n == 0 {
        regs
    } else {
        let r = load_list(regs, mem, rlist, addr, (n - 1) as nat);
        if in_list(rlist, (n - 1) as nat) {
            r.with_r(n - 1, spec_read_u32(mem, list_addr(rlist, addr, (n - 1) as nat)))
        } else {
            r
        }
    }
}

/// The memory after storing registers `0..n` of a register list.
pub open spec fn store_list(regs: RegsView, mem: MemView, rlist: u32, addr: u32, n: nat) -> MemView
    decreases n,
{
    if n == 0 {
        mem
    } else {
        let m = store_list(regs, mem, rlist, addr, (n - 1) as nat);
        if in_list(rlist, (n - 1) as nat) {
            spec_write_u32(m, list_addr(rlist, addr, (n - 1) as nat), regs.r[n - 1])
        } else {
            m
        }
    }
}

/// Every word that loading registers `0..n` reads is in range.
pub open spec fn load_list_ok(rlist: u32, addr: u32, n: nat) -> bool
    decreases n,
{
    n == 0 || (load_list_ok(rlist, addr, (n - 1) as nat) && (in_list(rlist, (n - 1) as nat)
        ==> read_u32_ok(list_addr(rlist, addr, (n - 1) as nat))))
}

/// Every word that storing registers `0..n` writes is in range.
pub open spec fn store_list_ok(rlist: u32, addr: u32, n: nat) -> bool
    decreases n,
{
    n == 0 || (store_list_ok(rlist, addr, (n - 1) as nat) && (in_list(rlist, (n - 1) as nat)
        ==> write_u32_ok(list_addr(rlist, addr, (n - 1) as nat))))
}

/// The number of set bits among bits `0..width` of `x`.
pub fn count_ones(x: u32, width: u32) -> (n: u32)
    requires
        width <= 32,
    ensures
        n == count_set(x, width as nat),
        n <= width,
{
    let mut n: u32 = 0;
    let mut k: u32 = 0;
    while k < width
        invariant
            k <= width <= 32,
            n == count_set(x, k as nat),
            n <= k,
        decreases width - k,
    {
        if x & (1u32 << k) != 0 {
            n = n + 1;
        }
        k = k + 1;
    }
    n
}


/// The registers after the fetch: PC past the instruction (2 bytes in
/// Thumb state, 4 in ARM state).
pub open spec fn fetched(regs: RegsView) -> RegsView {
    regs.with_r(15, regs.pc().wrapping_add(if regs.thumb() { 2 } else { 4 }))
}

/// The word fetched at PC.
pub open spec fn fetched_opcode(regs: RegsView, mem: MemView) -> u32 {
    spec_read_u32(mem, regs.pc())
}

/// One fetch-decode-execute cycle: the word at PC is fetched, PC advances,
/// and the instruction (its low halfword in Thumb state) is decoded and
/// executed.
pub open spec fn cycle_step(regs: RegsView, mem: MemView) -> Step {
    let opcode = fetched_opcode(regs, mem);
    if regs.thumb() {
        thumb_step(decode_thumb_spec(opcode as u16), fetched(regs), mem, opcode as u16)
    } else {
        arm_step(decode_arm_spec(opcode), fetched(regs), mem, opcode)
    }
}

/// The instruction at PC runs without a panic: the fetch is in range and
/// the decoded executor runs without a panic.
pub open spec fn cycle_runs(regs: RegsView, mem: MemView) -> bool {
    let opcode = fetched_opcode(regs, mem);
    &&& read_u32_ok(regs.pc())
    &&& if regs.thumb() {
        thumb_ok(decode_thumb_spec(opcode as u16), fetched(regs), opcode as u16)
    } else {
        arm_ok(decode_arm_spec(opcode), fetched(regs), opcode)
    }
}

/// The cycle runs without a panic: the instruction runs, and the cycle
/// counter does not overflow.
pub open spec fn cycle_ok(cpu: CpuView, mem: MemView) -> bool {
    &&& cycle_runs(cpu.regs, mem)
    &&& cpu.total_cycles + cycle_step(cpu.regs, mem).cycles <= u64::MAX
}

impl CPU {
    pub fn new() -> (cpu: Self)
        ensures
            cpu@.regs.r == Seq::new(16, |i: int| 0u32),
            cpu@.regs.cpsr == 0,
            cpu@.total_cycles == 0,
    {
        CPU { registers: Registers::new(), total_cycles: 0 }
    }

    /// The state after the GBA BIOS: ARM state at the cartridge entry
    /// 0x08000000, SP = 0x03007F00, LR = 0x08000000, CPSR = 0x10.
    pub fn initialize_gba(&mut self)
        ensures
            final(self)@ == (CpuView {
                regs: old(self)@.regs.with_r(15, 0x0800_0000).with_flag(
                    crate::cpu::registers::THUMB_MODE,
                    false,
                ).with_r(13, 0x0300_7F00).with_r(14, 0x0800_0000).with_cpsr(0x10),
                ..old(self)@
            }),
            final(self)@.regs.pc() == 0x0800_0000,
            final(self)@.regs.sp() == 0x0300_7F00,
            final(self)@.regs.lr() == 0x0800_0000,
            final(self)@.regs.cpsr == 0x10,
    {
        self.registers.set_pc(0x08000000);
        self.registers.set_thumb_state(false);
        self.registers.set_r(13, 0x03007F00);
        self.registers.set_r(14, 0x08000000);
        self.registers.set_cpsr(0x00000010);
    }

    /// Runs one instruction and returns the cycles it took; they are added
    /// to the total.
    pub fn fetch_decode_execute(&mut self, memory: &mut Memory) -> (cycles: u64)
        requires
            old(memory)@.wf(),
            cycle_ok(old(self)@, old(memory)@),
        ensures
            ({
                let s = cycle_step(old(self)@.regs, old(memory)@);
                &&& final(self)@ == (CpuView {
                    regs: s.regs,
                    total_cycles: (old(self)@.total_cycles + s.cycles) as u64,
                })
                &&& final(memory)@ == s.mem
                &&& cycles == s.cycles
            }),
            final(memory)@.wf(),
    {
        let is_in_thumb_mode: bool = self.is_in_thumb_mode();
        let opcode: u32 = self.fetch(memory, is_in_thumb_mode);
        let cycles = if is_in_thumb_mode {
            let executor: ThumbExecutor = decode_thumb(opcode as u16);
            self.execute_thumb(memory, executor, opcode as u16)
        } else {
            let executor: ArmExecutor = decode_arm(opcode);
            self.execute_arm(memory, executor, opcode)
        };
        self.total_cycles += cycles;
        cycles
    }

    /// Reads the instruction word at PC and advances PC by 2 (Thumb) or 4.
    pub fn fetch(&mut self, memory: &mut Memory, is_in_thumb_mode: bool) -> (instruction: u32)
        requires
            old(memory)@.wf(),
            read_u32_ok(old(self)@.regs.pc()),
        ensures
            instruction == spec_read_u32(old(memory)@, old(self)@.regs.pc()),
            final(self)@ == (CpuView {
                regs: old(self)@.regs.with_r(
                    15,
                    old(self)@.regs.pc().wrapping_add(if is_in_thumb_mode { 2 } else { 4 }),
                ),
                ..old(self)@
            }),
            final(memory)@ == old(memory)@,
    {
        let pc: u32 = self.registers.get_pc();
        let instruction = memory.read_u32(pc);
        self.registers.set_pc(pc.wrapping_add(if is_in_thumb_mode { 2 } else { 4 }));
        instruction
    }

    /// Runs a decoded ARM instruction.
    pub fn execute_arm(&mut self, memory: &mut Memory, executor: ArmExecutor, opcode: u32) -> (cycles: u64)
        requires
            old(memory)@.wf(),
            arm_ok(executor, old(self)@.regs, opcode),
        ensures
            ({
                let s = arm_step(executor, old(self)@.regs, old(memory)@, opcode);
                &&& final(self)@ == (CpuView { regs: s.regs, ..old(self)@ })
                &&& final(memory)@ == s.mem
                &&& cycles == s.cycles
            }),
            final(memory)@.wf(),
    {
        match executor {
            ArmExecutor::NoOp => self.arm_no_op(opcode),
            ArmExecutor::BranchAndBranchExchange => self.arm_branch_and_branch_exchange(opcode),
            ArmExecutor::Branch => self.arm_branch(opcode),
            ArmExecutor::BlockDataTransfer => self.arm_block_data_transfer(memory, opcode),
            ArmExecutor::SoftwareInterrupt => self.arm_software_interrupt(opcode),
            ArmExecutor::Undefined => self.arm_undefined(opcode),
            ArmExecutor::SingleDataTransfer => self.arm_single_data_transfer(memory, opcode),
            ArmExecutor::SingleDataSwap => self.arm_single_data_swap(memory, opcode),
            ArmExecutor::Multiply => self.arm_multiply(opcode),
            ArmExecutor::MultiplyLong => self.arm_multiply_long(opcode),
            ArmExecutor::HalfwordDataTransferRegister => self.arm_halfword_data_transfer_register(
                memory,
                opcode,
            ),
            ArmExecutor::HalfwordDataTransferImmediate => self.arm_halfword_data_transfer_immediate(
                memory,
                opcode,
            ),
            ArmExecutor::PsrTransferMrs => self.arm_psr_transfer_mrs(opcode),
            ArmExecutor::PsrTransferMsr => self.arm_psr_transfer_msr(opcode),
            ArmExecutor::DataProcessing => self.arm_data_processing(opcode),
        }
    }

    /// Runs a decoded Thumb instruction.
    pub fn execute_thumb(&mut self, memory: &mut Memory, executor: ThumbExecutor, opcode: u16) -> (cycles: u64)
        requires
            old(memory)@.wf(),
            thumb_ok(executor, old(self)@.regs, opcode),
        ensures
            ({
                let s = thumb_step(executor, old(self)@.regs, old(memory)@, opcode);
                &&& final(self)@ == (CpuView { regs: s.regs, ..old(self)@ })
                &&& final(memory)@ == s.mem
                &&& cycles == s.cycles
            }),
            final(memory)@.wf(),
    {
        match executor {
            ThumbExecutor::NoOp => self.thumb_no_op(opcode),
            ThumbExecutor::MoveShiftedRegister => self.thumb_move_shifted_register(opcode),
            ThumbExecutor::AddSubtract => self.thumb_add_subtract(opcode),
            ThumbExecutor::MoveCompareAddSubtractImmediate => self.thumb_move_compare_add_subtract_immediate(opcode),
            ThumbExecutor::AluOperations => self.thumb_alu_operations(opcode),
            ThumbExecutor::HiRegisterOperationsBranchExchange => self.thumb_hi_register_operations_branch_exchange(opcode),
            ThumbExecutor::PcRelativeLoad => self.thumb_pc_relative_load(memory, opcode),
            ThumbExecutor::LoadStoreWithRegisterOffset => self.thumb_load_store_with_register_offset(memory, opcode),
            ThumbExecutor::LoadStoreSignExtendedByteHalfword => self.thumb_load_store_sign_extended_byte_halfword(memory, opcode),
            ThumbExecutor::LoadStoreWithImmediateOffset => self.thumb_load_store_with_immediate_offset(memory, opcode),
            ThumbExecutor::LoadStoreHalfword => self.thumb_load_store_halfword(memory, opcode),
            ThumbExecutor::SpRelativeLoadStore => self.thumb_sp_relative_load_store(memory, opcode),
            ThumbExecutor::GetRelativeAddress => self.thumb_get_relative_address(opcode),
            ThumbExecutor::AddOffsetToStackPointer => self.thumb_add_offset_to_stack_pointer(opcode),
            ThumbExecutor::PushPopRegisters => self.thumb_push_pop_registers(memory, opcode),
            ThumbExecutor::MultipleLoadStore => self.thumb_multiple_load_store(memory, opcode),
            ThumbExecutor::UnconditionalBranch => self.thumb_unconditional_branch(opcode),
            ThumbExecutor::ConditionalBranch => self.thumb_conditional_branch(opcode),
            ThumbExecutor::LongBranchWithLink1 => self.thumb_long_branch_with_link_1(opcode),
            ThumbExecutor::LongBranchWithLink2 => self.thumb_long_branch_with_link_2(opcode),
            ThumbExecutor::SoftwareInterrupt => self.thumb_software_interrupt(opcode),
            ThumbExecutor::Breakpoint => self.thumb_breakpoint(opcode),
        }
    }

    /// The cycles the next instruction takes. It is run on a copy of the
    /// registers against a scratch memory: no instruction's cycles depend on
    /// what memory holds.
    pub fn next_cycles(&self, memory: &Memory) -> (c: u64)
        requires
            memory@.wf(),
            cycle_runs(self@.regs, memory@),
        ensures
            c == cycle_step(self@.regs, memory@).cycles,
    {
        let thumb = self.is_in_thumb_mode();
        let pc = self.registers.get_pc();
        let opcode = memory.read_u32(pc);
        let mut scratch = CPU { registers: self.registers, total_cycles: 0 };
        scratch.registers.set_pc(pc.wrapping_add(if thumb { 2 } else { 4 }));
        let mut scratch_memory = Memory::new();
        proof {
            lemma_cycles_ignore_memory(fetched(self@.regs), memory@, scratch_memory@, opcode);
        }
        if thumb {
            scratch.execute_thumb(&mut scratch_memory, decode_thumb(opcode as u16), opcode as u16)
        } else {
            scratch.execute_arm(&mut scratch_memory, decode_arm(opcode), opcode)
        }
    }

    pub fn get_total_cycles(&self) -> (c: u64)
        ensures
            c == self@.total_cycles,
    {
        self.total_cycles
    }

    pub fn get_pc(&self) -> (pc: u32)
        ensures
            pc == self@.regs.pc(),
    {
        self.registers.get_pc()
    }

    pub fn set_pc(&mut self, pc: u32)
        ensures
            final(self)@ == (CpuView { regs: old(self)@.regs.with_r(15, pc), ..old(self)@ }),
    {
        self.registers.set_pc(pc)
    }

    pub fn is_in_thumb_mode(&self) -> (b: bool)
        ensures
            b == self@.regs.thumb(),
    {
        self.registers.is_thumb()
    }

    pub fn get_cpsr(&self) -> (c: u32)
        ensures
            c == self@.regs.cpsr,
    {
        self.registers.get_cpsr()
    }

    pub fn switch_to_thumb(&mut self)
        ensures
            final(self)@ == (CpuView {
                regs: old(self)@.regs.with_flag(crate::cpu::registers::THUMB_MODE, true),
                ..old(self)@
            }),
    {
        self.registers.set_thumb_state(true);
    }

    pub fn switch_to_arm(&mut self)
        ensures
            final(self)@ == (CpuView {
                regs: old(self)@.regs.with_flag(crate::cpu::registers::THUMB_MODE, false),
                ..old(self)@
            }),
    {
        self.registers.set_thumb_state(false);
    }

    pub fn get_registers(&self) -> (r: &Registers)
        ensures
            r@ == self@.regs,
    {
        &self.registers
    }

    /// The prefetch buffer is not modelled: nothing changes.
    pub fn store_prefetch(&mut self)
        ensures
            final(self)@ == old(self)@,
    {
    }
}

impl CPU {
    /// Loads the registers of `rlist` among `0..count` from consecutive
    /// words at `addr`, and returns the address after the last one.
    fn load_registers(&mut self, memory: &Memory, rlist: u32, addr: u32, count: u32) -> (end: u32)
        requires
            count <= 16,
            memory@.wf(),
            load_list_ok(rlist, addr, count as nat),
        ensures
            final(self)@ == (CpuView {
                regs: load_list(old(self)@.regs, memory@, rlist, addr, count as nat),
                ..old(self)@
            }),
            end == list_addr(rlist, addr, count as nat),
    {
        let ghost regs0 = self@.regs;
        let mut a = addr;
        let mut i: u32 = 0;
        while i < count
            invariant
                i <= count <= 16,
                memory@.wf(),
                load_list_ok(rlist, addr, count as nat),
                self@ == (CpuView { regs: load_list(regs0, memory@, rlist, addr, i as nat), ..old(self)@ }),
                a == list_addr(rlist, addr, i as nat),
            decreases count - i,
        {
            proof {
                lemma_list_ok_prefix(rlist, addr, (i + 1) as nat, count as nat, true);
            }
            if rlist & (1u32 << i) != 0 {
                let val = memory.read_u32(a);
                self.registers.set_r(i as usize, val);
                a = a.wrapping_add(4);
            }
            i = i + 1;
        }
        a
    }

    /// Stores the registers of `rlist` among `0..count` to consecutive words
    /// at `addr`, and returns the address after the last one.
    fn store_registers(&self, memory: &mut Memory, rlist: u32, addr: u32, count: u32) -> (end: u32)
        requires
            count <= 16,
            old(memory)@.wf(),
            store_list_ok(rlist, addr, count as nat),
        ensures
            final(memory)@ == store_list(self@.regs, old(memory)@, rlist, addr, count as nat),
            final(memory)@.wf(),
            end == list_addr(rlist, addr, count as nat),
    {
        let mut a = addr;
        let mut i: u32 = 0;
        while i < count
            invariant
                i <= count <= 16,
                memory@.wf(),
                store_list_ok(rlist, addr, count as nat),
                memory@ == store_list(self@.regs, old(memory)@, rlist, addr, i as nat),
                a == list_addr(rlist, addr, i as nat),
            decreases count - i,
        {
            proof {
                lemma_list_ok_prefix(rlist, addr, (i + 1) as nat, count as nat, false);
            }
            if rlist & (1u32 << i) != 0 {
                memory.write_u32(a, self.registers.get_r(i as usize));
                a = a.wrapping_add(4);
            }
            i = i + 1;
        }
        a
    }
}

/// Without wrap-around, the address after registers `0..n` is `addr` plus
/// four bytes per listed register.
pub proof fn lemma_list_addr_no_wrap(rlist: u32, addr: u32, n: nat)
    requires
        addr + 4 * count_set(rlist, n) <= u32::MAX,
    ensures
        list_addr(rlist, addr, n) == addr + 4 * count_set(rlist, n),
    decreases n,
{
    if n > 0 {
        lemma_list_addr_no_wrap(rlist, addr, (n - 1) as nat);
    }
}

/// The cycles an instruction takes do not depend on what memory holds.
proof fn lemma_cycles_ignore_memory(regs: RegsView, m1: MemView, m2: MemView, opcode: u32)
    ensures
        forall|k: ThumbExecutor|
            #[trigger] thumb_step(k, regs, m1, opcode as u16).cycles == thumb_step(
                k,
                regs,
                m2,
                opcode as u16,
            ).cycles,
        forall|k: ArmExecutor|
            #[trigger] arm_step(k, regs, m1, opcode).cycles == arm_step(k, regs, m2, opcode).cycles,
{
}

/// The processor and memory after `k` fetch-decode-execute cycles from
/// `cpu` and `mem`, as `fetch_decode_execute` performs them.
pub open spec fn run_cycles(cpu: CpuView, mem: MemView, k: nat) -> (CpuView, MemView)
    decreases k,
{
    if k == 0 {
        (cpu, mem)
    } else {
        let p = run_cycles(cpu, mem, (k - 1) as nat);
        let s = cycle_step(p.0.regs, p.1);
        (CpuView { regs: s.regs, total_cycles: (p.0.total_cycles + s.cycles) as u64 }, s.mem)
    }
}

/// The cycles that the first `k` instructions take, added up.
pub open spec fn cycles_taken(cpu: CpuView, mem: MemView, k: nat) -> nat
    decreases k,
{
    if k == 0 {
        0
    } else {
        let p = run_cycles(cpu, mem, (k - 1) as nat);
        cycles_taken(cpu, mem, (k - 1) as nat) + cycle_step(p.0.regs, p.1).cycles as nat
    }
}

/// Each of the first `k` cycles runs without a panic.
pub open spec fn cycles_ok(cpu: CpuView, mem: MemView, k: nat) -> bool {
    forall|i: nat| i < k ==> cycle_ok(#[trigger] run_cycles(cpu, mem, i).0, run_cycles(cpu, mem, i).1)
}

/// After `k` cycles that run without a panic, the cycle counter has grown
/// by exactly the cycles they returned, added up.
pub proof fn law_total_cycles(cpu: CpuView, mem: MemView, k: nat)
    requires
        cycles_ok(cpu, mem, k),
    ensures
        run_cycles(cpu, mem, k).0.total_cycles == cpu.total_cycles + cycles_taken(cpu, mem, k),
    decreases k,
{
    if k > 0 {
        let j = (k - 1) as nat;
        assert(cycles_ok(cpu, mem, j));
        law_total_cycles(cpu, mem, j);
        assert(cycle_ok(run_cycles(cpu, mem, j).0, run_cycles(cpu, mem, j).1));
    }
}

/// A register list of `n` bits names at most `n` registers.
pub proof fn lemma_count_set_bound(rlist: u32, n: nat)
    ensures
        count_set(rlist, n) <= n,
    decreases n,
{
    if n > 0 {
        lemma_count_set_bound(rlist, (n - 1) as nat);
    }
}

/// No instruction takes more than 18 cycles (a block transfer of all
/// sixteen registers).
pub proof fn lemma_cycle_bound(regs: RegsView, mem: MemView)
    ensures
        cycle_step(regs, mem).cycles <= 18,
{
    broadcast use crate::bits::group_bits;

    let opcode = fetched_opcode(regs, mem);
    lemma_count_set_bound(crate::bits::field_u32(opcode, 0, 16), 16);
    lemma_count_set_bound(crate::cpu::executor::thumb_ops::tf(opcode as u16, 0, 8), 8);
    assert forall|r: u32| ((r >> 28u32) & 0xF) <= 15 by {
        assert(((r >> 28u32) & 0xF) <= 15) by (bit_vector);
    }
}

/// Counting set bits is monotone in the prefix, and grows past each
/// listed register.
pub proof fn lemma_count_set_mono(rlist: u32, j: nat, n: nat)
    requires
        j <= n,
    ensures
        count_set(rlist, j) <= count_set(rlist, n),
        j < n && in_list(rlist, j) ==> count_set(rlist, j) + 1 <= count_set(rlist, n),
    decreases n,
{
    if j < n {
        lemma_count_set_mono(rlist, j, (n - 1) as nat);
    }
}

/// In internal RAM, listed register `k` sits at `addr` plus four bytes per
/// listed register below it, and each such word lies in range.
pub proof fn lemma_list_addr_in_iwram(rlist: u32, addr: u32, n: nat, k: nat)
    requires
        0x0300_0000 <= addr,
        addr + 4 * count_set(rlist, n) <= 0x0300_1000,
        k <= n,
    ensures
        list_addr(rlist, addr, k) == addr + 4 * count_set(rlist, k),
        k < n && in_list(rlist, k) ==> in_iwram_words(list_addr(rlist, addr, k)),
{
    lemma_count_set_mono(rlist, k, n);
    lemma_list_addr_no_wrap(rlist, addr, k);
}

/// After the registers `0..n` of a list are stored into internal RAM, the
/// word of each listed register reads back as that register.
pub proof fn lemma_store_list_reads(
    regs: RegsView,
    mem: MemView,
    rlist: u32,
    addr: u32,
    n: nat,
    k: nat,
)
    requires
        mem.wf(),
        0x0300_0000 <= addr,
        addr + 4 * count_set(rlist, n) <= 0x0300_1000,
    ensures
        store_list(regs, mem, rlist, addr, n).wf(),
        store_list_ok(rlist, addr, n),
        load_list_ok(rlist, addr, n),
        k < n && in_list(rlist, k) ==> spec_read_u32(
            store_list(regs, mem, rlist, addr, n),
            list_addr(rlist, addr, k),
        ) == regs.r[k as int],
    decreases n,
{
    if n > 0 {
        let m = (n - 1) as nat;
        lemma_count_set_mono(rlist, m, n);
        lemma_store_list_reads(regs, mem, rlist, addr, m, k);
        lemma_list_addr_in_iwram(rlist, addr, n, m);
        let prev = store_list(regs, mem, rlist, addr, m);
        if in_list(rlist, m) {
            let at = list_addr(rlist, addr, m);
            lemma_iwram_word_round_trip(prev, at, regs.r[m as int]);
            if k < m && in_list(rlist, k) {
                lemma_list_addr_in_iwram(rlist, addr, n, k);
                lemma_count_set_mono(rlist, k, m);
                lemma_iwram_word_frame(prev, at, list_addr(rlist, addr, k), regs.r[m as int]);
            }
        }
    }
}

/// Loading registers `0..n` of a list sets each listed register to the word
/// at its address and leaves the other registers and the CPSR unchanged.
pub proof fn lemma_load_list_regs(regs: RegsView, mem: MemView, rlist: u32, addr: u32, n: nat, i: int)
    requires
        regs.r.len() == 16,
        n <= 16,
        0 <= i < 16,
    ensures
        load_list(regs, mem, rlist, addr, n).r.len() == 16,
        load_list(regs, mem, rlist, addr, n).cpsr == regs.cpsr,
        load_list(regs, mem, rlist, addr, n).r[i] == if i < n && in_list(rlist, i as nat) {
            spec_read_u32(mem, list_addr(rlist, addr, i as nat))
        } else {
            regs.r[i]
        },
    decreases n,
{
    if n > 0 {
        lemma_load_list_regs(regs, mem, rlist, addr, (n - 1) as nat, i);
    }
}

/// The in-range property of a register list holds of each of its prefixes.
proof fn lemma_list_ok_prefix(rlist: u32, addr: u32, k: nat, n: nat, load: bool)
    requires
        k <= n,
        load ==> load_list_ok(rlist, addr, n),
        !load ==> store_list_ok(rlist, addr, n),
    ensures
        load ==> load_list_ok(rlist, addr, k),
        !load ==> store_list_ok(rlist, addr, k),
    decreases n - k,
{
    if k < n {
        lemma_list_ok_prefix(rlist, addr, k + 1, n, load);
    }
}

} // verus!
