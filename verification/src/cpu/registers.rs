//! The ARM register file: sixteen general registers (R13 is the stack
//! pointer, R14 the link register, R15 the program counter) and the CPSR.
use vstd::prelude::*;

verus! {

/// CPSR bit: N, the sign of the last result.
pub const SIGN_FLAG: u32 = 0x8000_0000;
/// CPSR bit: Z, the last result was zero.
pub const ZERO_FLAG: u32 = 0x4000_0000;
/// CPSR bit: C, carry out of the last operation.
pub const CARRY_FLAG: u32 = 0x2000_0000;
/// CPSR bit: V, signed overflow of the last operation.
pub const OVERFLOW_FLAG: u32 = 0x1000_0000;
/// CPSR bit: IRQs disabled.
pub const IRQ_DISABLE: u32 = 0x0000_0080;
/// CPSR bit: FIQs disabled.
pub const FIQ_DISABLE: u32 = 0x0000_0040;
/// CPSR bit: T, the processor executes Thumb code.
pub const THUMB_MODE: u32 = 0x0000_0020;
/// CPSR bits 0..5: the processor mode.
pub const CPU_MODE_MASK: u32 = 0x0000_001F;

/// The abstract state of the register file.
#[verifier::ext_equal]
pub struct RegsView {
    pub r: Seq<u32>,
    pub cpsr: u32,
}

impl RegsView {
    pub open spec fn pc(self) -> u32 {
        self.r[15]
    }

    pub open spec fn sp(self) -> u32 {
        self.r[13]
    }

    pub open spec fn lr(self) -> u32 {
        self.r[14]
    }

    pub open spec fn with_r(self, i: int, v: u32) -> RegsView {
        RegsView { r: self.r.update(i, v), cpsr: self.cpsr }
    }

    pub open spec fn with_cpsr(self, c: u32) -> RegsView {
        RegsView { r: self.r, cpsr: c }
    }

    /// Whether the CPSR bits of `mask` are not all clear.
    pub open spec fn flag(self, mask: u32) -> bool {
        self.cpsr & mask != 0
    }

    /// The CPSR with the bits of `mask` set (`v`) or cleared (`!v`).
    pub open spec fn with_flag(self, mask: u32, v: bool) -> RegsView {
        self.with_cpsr(if v { self.cpsr | mask } else { self.cpsr & !mask })
    }

    pub open spec fn sign(self) -> bool {
        self.flag(SIGN_FLAG)
    }

    pub open spec fn zero(self) -> bool {
        self.flag(ZERO_FLAG)
    }

    pub open spec fn carry(self) -> bool {
        self.flag(CARRY_FLAG)
    }

    pub open spec fn overflow(self) -> bool {
        self.flag(OVERFLOW_FLAG)
    }

    pub open spec fn thumb(self) -> bool {
        self.flag(THUMB_MODE)
    }

    /// The program counter as an instruction sees it: two instructions ahead.
    pub open spec fn visible_pc(self) -> u32 {
        self.pc().wrapping_add(if self.thumb() { 4 } else { 8 })
    }

    /// N and Z set from a result.
    pub open spec fn with_nz(self, v: u32) -> RegsView {
        self.with_flag(SIGN_FLAG, v & 0x8000_0000 != 0).with_flag(ZERO_FLAG, v == 0)
    }

    /// N, Z, C and V set from an adder result `(value, carry, overflow)`.
    pub open spec fn with_arith(self, res: (u32, bool, bool)) -> RegsView {
        self.with_nz(res.0).with_flag(CARRY_FLAG, res.1).with_flag(OVERFLOW_FLAG, res.2)
    }

    /// N, Z and C set from a shifter result `(value, carry)`.
    pub open spec fn with_shift(self, res: (u32, bool)) -> RegsView {
        self.with_nz(res.0).with_flag(CARRY_FLAG, res.1)
    }

    /// The mode field of the CPSR.
    pub open spec fn mode(self) -> CpuMode {
        cpu_mode_of(self.cpsr & CPU_MODE_MASK)
    }
}

/// The processor modes of the CPSR mode field.
#[derive(Debug, Clone, Copy, PartialEq, Eq, Structural)]
pub enum CpuMode {
    User,
    Fiq,
    Irq,
    Svc,
    Abort,
    Undef,
    System,
    Undefined,
}

/// The mode named by a CPSR mode field; `Undefined` for the values that name none.
pub open spec fn cpu_mode_of(bits: u32) -> CpuMode {
    if bits == 0x10 {
        CpuMode::User
    } else if bits == 0x11 {
        CpuMode::Fiq
    } else if bits == 0x12 {
        CpuMode::Irq
    } else if bits == 0x13 {
        CpuMode::Svc
    } else if bits == 0x17 {
        CpuMode::Abort
    } else if bits == 0x1B {
        CpuMode::Undef
    } else if bits == 0x1F {
        CpuMode::System
    } else {
        CpuMode::Undefined
    }
}

/// The CPSR bit groups that the register file reads and writes.
enum CpsrMasks {
    SignFlag,
    ZeroFlag,
    CarryFlag,
    OverflowFlag,
    IrqDisable,
    FiqDisable,
    ThumbMode,
    CpuMode,
}

impl CpsrMasks {
    spec fn spec_bits(self) -> u32 {
        match self {
            CpsrMasks::SignFlag => SIGN_FLAG,
            CpsrMasks::ZeroFlag => ZERO_FLAG,
            CpsrMasks::CarryFlag => CARRY_FLAG,
            CpsrMasks::OverflowFlag => OVERFLOW_FLAG,
            CpsrMasks::IrqDisable => IRQ_DISABLE,
            CpsrMasks::FiqDisable => FIQ_DISABLE,
            CpsrMasks::ThumbMode => THUMB_MODE,
            CpsrMasks::CpuMode => CPU_MODE_MASK,
        }
    }

    fn bits(self) -> (r: u32)
        ensures
            r == self.spec_bits(),
    {
        match self {
            CpsrMasks::SignFlag => SIGN_FLAG,
            CpsrMasks::ZeroFlag => ZERO_FLAG,
            CpsrMasks::CarryFlag => CARRY_FLAG,
            CpsrMasks::OverflowFlag => OVERFLOW_FLAG,
            CpsrMasks::IrqDisable => IRQ_DISABLE,
            CpsrMasks::FiqDisable => FIQ_DISABLE,
            CpsrMasks::ThumbMode => THUMB_MODE,
            CpsrMasks::CpuMode => CPU_MODE_MASK,
        }
    }
}

/// A result that knows which CPSR flags it sets.
pub trait FlagResult {
    /// The register file after the flags of this result are applied.
    spec fn flags_applied(&self, regs: RegsView) -> RegsView;

    fn apply_flags(&self, regs: &mut Registers)
        ensures
            final(regs)@ == self.flags_applied(old(regs)@),
    ;
}

#[derive(Clone, Copy)]
pub struct Registers {
    r: [u32; 16],
    cpsr: u32,
}

impl View for Registers {
    type V = RegsView;

    closed spec fn view(&self) -> RegsView {
        RegsView { r: self.r@, cpsr: self.cpsr }
    }
}

/// The register file always holds sixteen registers.
pub broadcast proof fn lemma_regs_len(regs: Registers)
    ensures
        #[trigger] regs@.r.len() == 16,
{
}

impl Registers {
    pub fn new() -> (regs: Self)
        ensures
            regs@.r == Seq::new(16, |i: int| 0u32),
            regs@.cpsr == 0,
    {
        let regs = Self { r: [0; 16], cpsr: 0 };
        assert(regs@.r =~= Seq::new(16, |i: int| 0u32));
        regs
    }

    pub fn get_r(&self, index: usize) -> (v: u32)
        requires
            index < 16,
        ensures
            v == self@.r[index as int],
    {
        self.r[index]
    }

    pub fn set_r(&mut self, index: usize, value: u32)
        requires
            index < 16,
        ensures
            final(self)@ == old(self)@.with_r(index as int, value),
    {
        self.r[index] = value;
        assert(self@.r =~= old(self)@.r.update(index as int, value));
    }

    pub fn get_sp(&self) -> (v: u32)
        ensures
            v == self@.sp(),
    {
        self.r[13]
    }

    pub fn set_sp(&mut self, value: u32)
        ensures
            final(self)@ == old(self)@.with_r(13, value),
    {
        self.set_r(13, value)
    }

    pub fn get_lr(&self) -> (v: u32)
        ensures
            v == self@.lr(),
    {
        self.r[14]
    }

    pub fn set_lr(&mut self, value: u32)
        ensures
            final(self)@ == old(self)@.with_r(14, value),
    {
        self.set_r(14, value)
    }

    pub fn get_pc(&self) -> (v: u32)
        ensures
            v == self@.pc(),
    {
        self.r[15]
    }

    pub fn get_visible_pc(&self) -> (v: u32)
        ensures
            v == self@.visible_pc(),
    {
        self.get_pc().wrapping_add(if self.is_thumb() { 4 } else { 8 })
    }

    pub fn set_pc(&mut self, value: u32)
        ensures
            final(self)@ == old(self)@.with_r(15, value),
    {
        self.set_r(15, value)
    }

    pub fn get_cpsr(&self) -> (v: u32)
        ensures
            v == self@.cpsr,
    {
        self.cpsr
    }

    pub fn set_cpsr(&mut self, value: u32)
        ensures
            final(self)@ == old(self)@.with_cpsr(value),
    {
        self.cpsr = value;
    }

    fn get_flag(&self, mask: CpsrMasks) -> (v: bool)
        ensures
            v == self@.flag(mask.spec_bits()),
    {
        (self.cpsr & mask.bits()) != 0
    }

    fn set_flag(&mut self, mask: CpsrMasks, value: bool)
        ensures
            final(self)@ == old(self)@.with_flag(mask.spec_bits(), value),
    {
        if value {
            self.cpsr = self.cpsr | mask.bits();
        } else {
            self.cpsr = self.cpsr & !mask.bits();
        }
    }

    pub fn get_sign(&self) -> (v: bool)
        ensures
            v == self@.sign(),
    {
        self.get_flag(CpsrMasks::SignFlag)
    }

    pub fn set_sign(&mut self, value: bool)
        ensures
            final(self)@ == old(self)@.with_flag(SIGN_FLAG, value),
    {
        self.set_flag(CpsrMasks::SignFlag, value)
    }

    pub fn get_zero(&self) -> (v: bool)
        ensures
            v == self@.zero(),
    {
        self.get_flag(CpsrMasks::ZeroFlag)
    }

    pub fn set_zero(&mut self, value: bool)
        ensures
            final(self)@ == old(self)@.with_flag(ZERO_FLAG, value),
    {
        self.set_flag(CpsrMasks::ZeroFlag, value)
    }

    pub fn get_carry(&self) -> (v: bool)
        ensures
            v == self@.carry(),
    {
        self.get_flag(CpsrMasks::CarryFlag)
    }

    pub fn set_carry(&mut self, value: bool)
        ensures
            final(self)@ == old(self)@.with_flag(CARRY_FLAG, value),
    {
        self.set_flag(CpsrMasks::CarryFlag, value)
    }

    pub fn get_overflow(&self) -> (v: bool)
        ensures
            v == self@.overflow(),
    {
        self.get_flag(CpsrMasks::OverflowFlag)
    }

    pub fn set_overflow(&mut self, value: bool)
        ensures
            final(self)@ == old(self)@.with_flag(OVERFLOW_FLAG, value),
    {
        self.set_flag(CpsrMasks::OverflowFlag, value)
    }

    pub fn get_current_cpu_mode(&self) -> (m: CpuMode)
        ensures
            m == self@.mode(),
    {
        let bits = self.cpsr & CpsrMasks::CpuMode.bits();
        if bits == 0x10 {
            CpuMode::User
        } else if bits == 0x11 {
            CpuMode::Fiq
        } else if bits == 0x12 {
            CpuMode::Irq
        } else if bits == 0x13 {
            CpuMode::Svc
        } else if bits == 0x17 {
            CpuMode::Abort
        } else if bits == 0x1B {
            CpuMode::Undef
        } else if bits == 0x1F {
            CpuMode::System
        } else {
            CpuMode::Undefined
        }
    }

    pub fn has_spsr(&self) -> (b: bool)
        ensures
            b == (self@.mode() != CpuMode::User && self@.mode() != CpuMode::System),
    {
        self.get_current_cpu_mode() != CpuMode::User && self.get_current_cpu_mode()
            != CpuMode::System
    }

    pub fn is_thumb(&self) -> (b: bool)
        ensures
            b == self@.thumb(),
    {
        self.get_flag(CpsrMasks::ThumbMode)
    }

    pub fn set_thumb_state(&mut self, enabled: bool)
        ensures
            final(self)@ == old(self)@.with_flag(THUMB_MODE, enabled),
    {
        self.set_flag(CpsrMasks::ThumbMode, enabled)
    }

    /// `Rd = nn`, then N and Z from `nn`.
    pub fn mov(&mut self, rd: usize, nn: u32)
        requires
            rd < 16,
        ensures
            final(self)@ == old(self)@.with_r(rd as int, nn).with_nz(nn),
    {
        self.set_r(rd, nn);
        self.set_flags(&nn);
    }

    pub fn set_flags<T: FlagResult>(&mut self, result: &T)
        ensures
            final(self)@ == result.flags_applied(old(self)@),
    {
        result.apply_flags(self);
    }

    pub fn set_flags_if<T: FlagResult>(&mut self, condition: bool, result: &T)
        ensures
            final(self)@ == if condition {
                result.flags_applied(old(self)@)
            } else {
                old(self)@
            },
    {
        if condition {
            self.set_flags(result);
        }
    }
}

} // verus!

verus! {

/// The single-bit CPSR flags that the register file reads and writes.
pub open spec fn is_flag_mask(m: u32) -> bool {
    m == SIGN_FLAG || m == ZERO_FLAG || m == CARRY_FLAG || m == OVERFLOW_FLAG || m == THUMB_MODE
}

/// Writing a flag and reading it back gives the written value; every other
/// flag, and every register, keeps its value.
pub proof fn law_flag_write_read(regs: RegsView, mask: u32, other: u32, v: bool)
    requires
        is_flag_mask(mask),
        is_flag_mask(other),
    ensures
        regs.with_flag(mask, v).flag(mask) == v,
        other != mask ==> regs.with_flag(mask, v).flag(other) == regs.flag(other),
        regs.with_flag(mask, v).r == regs.r,
{
    let c = regs.cpsr;
    assert(((c | mask) & mask != 0) && ((c & !mask) & mask == 0) && (other != mask ==> (((c | mask)
        & other != 0) == (c & other != 0) && ((c & !mask) & other != 0) == (c & other != 0))))
        by (bit_vector)
        requires
            mask == 0x8000_0000u32 || mask == 0x4000_0000u32 || mask == 0x2000_0000u32 || mask
                == 0x1000_0000u32 || mask == 0x20u32,
            other == 0x8000_0000u32 || other == 0x4000_0000u32 || other == 0x2000_0000u32 || other
                == 0x1000_0000u32 || other == 0x20u32,
    ;
}

/// Writing a register and reading it back gives the written value; the
/// other registers and the CPSR keep theirs.
pub proof fn law_register_write_read(regs: RegsView, i: int, j: int, v: u32)
    requires
        regs.r.len() == 16,
        0 <= i < 16,
        0 <= j < 16,
    ensures
        regs.with_r(i, v).r[i] == v,
        j != i ==> regs.with_r(i, v).r[j] == regs.r[j],
        regs.with_r(i, v).cpsr == regs.cpsr,
        regs.with_r(i, v).r.len() == 16,
{
}

/// The flags after setting N and Z from a value: N is its bit 31, Z tells
/// whether it is zero; C, V and the registers are kept.
pub proof fn lemma_nz_flags(regs: RegsView, v: u32)
    ensures
        regs.with_nz(v).sign() == (v & 0x8000_0000 != 0),
        regs.with_nz(v).zero() == (v == 0),
        regs.with_nz(v).carry() == regs.carry(),
        regs.with_nz(v).overflow() == regs.overflow(),
        regs.with_nz(v).r == regs.r,
{
    let a = regs.with_flag(SIGN_FLAG, v & 0x8000_0000 != 0);
    law_flag_write_read(regs, SIGN_FLAG, ZERO_FLAG, v & 0x8000_0000 != 0);
    law_flag_write_read(regs, SIGN_FLAG, CARRY_FLAG, v & 0x8000_0000 != 0);
    law_flag_write_read(regs, SIGN_FLAG, OVERFLOW_FLAG, v & 0x8000_0000 != 0);
    law_flag_write_read(a, ZERO_FLAG, SIGN_FLAG, v == 0);
    law_flag_write_read(a, ZERO_FLAG, CARRY_FLAG, v == 0);
    law_flag_write_read(a, ZERO_FLAG, OVERFLOW_FLAG, v == 0);
}

/// The flags after an adder result `(value, carry, overflow)`: N and Z from
/// the value, C and V as given; the registers are kept.
pub proof fn lemma_arith_flags(regs: RegsView, res: (u32, bool, bool))
    ensures
        regs.with_arith(res).sign() == (res.0 & 0x8000_0000 != 0),
        regs.with_arith(res).zero() == (res.0 == 0),
        regs.with_arith(res).carry() == res.1,
        regs.with_arith(res).overflow() == res.2,
        regs.with_arith(res).r == regs.r,
{
    lemma_nz_flags(regs, res.0);
    let a = regs.with_nz(res.0);
    let b = a.with_flag(CARRY_FLAG, res.1);
    law_flag_write_read(a, CARRY_FLAG, SIGN_FLAG, res.1);
    law_flag_write_read(a, CARRY_FLAG, ZERO_FLAG, res.1);
    law_flag_write_read(a, CARRY_FLAG, OVERFLOW_FLAG, res.1);
    law_flag_write_read(b, OVERFLOW_FLAG, SIGN_FLAG, res.2);
    law_flag_write_read(b, OVERFLOW_FLAG, ZERO_FLAG, res.2);
    law_flag_write_read(b, OVERFLOW_FLAG, CARRY_FLAG, res.2);
}

/// The flags after a shifter result `(value, carry)`: N and Z from the
/// value, C as given; V and the registers are kept.
pub proof fn lemma_shift_flags(regs: RegsView, res: (u32, bool))
    ensures
        regs.with_shift(res).sign() == (res.0 & 0x8000_0000 != 0),
        regs.with_shift(res).zero() == (res.0 == 0),
        regs.with_shift(res).carry() == res.1,
        regs.with_shift(res).overflow() == regs.overflow(),
        regs.with_shift(res).r == regs.r,
{
    lemma_nz_flags(regs, res.0);
    let a = regs.with_nz(res.0);
    law_flag_write_read(a, CARRY_FLAG, SIGN_FLAG, res.1);
    law_flag_write_read(a, CARRY_FLAG, ZERO_FLAG, res.1);
    law_flag_write_read(a, CARRY_FLAG, OVERFLOW_FLAG, res.1);
}

} // verus!
