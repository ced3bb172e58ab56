//! The ALU and barrel-shifter operations shared by the ARM and Thumb
//! executors, and the condition codes.
use vstd::prelude::*;
use crate::cpu::registers::{
    FlagResult, Registers, RegsView, CARRY_FLAG, OVERFLOW_FLAG, SIGN_FLAG, ZERO_FLAG,
};

verus! {

/// Bit 32 of a 64-bit sum: the carry out of a 32-bit addition.
pub const CARRY_BIT: u64 = 0x1_0000_0000;
/// Bit 31: the sign of a 32-bit result.
pub const SIGN_BIT: u32 = 0x8000_0000;

/// The sixteen condition fields of ARM instructions; `Invalid` holds a field
/// that names no condition.
#[derive(Debug)]
pub enum Condition {
    Equal,
    NotEqual,
    CarrySet,
    CarryClear,
    Minus,
    Plus,
    OverflowSet,
    OverflowClear,
    Higher,
    LowerSame,
    GreaterEqual,
    LessThan,
    GreaterThan,
    LessEqual,
    Always,
    Invalid(u16),
}

/// The condition named by a 4-bit field value.
pub open spec fn condition_of(v: u16) -> Condition {
    if v == 0x0 {
        Condition::Equal
    } else if v == 0x1 {
        Condition::NotEqual
    } else if v == 0x2 {
        Condition::CarrySet
    } else if v == 0x3 {
        Condition::CarryClear
    } else if v == 0x4 {
        Condition::Minus
    } else if v == 0x5 {
        Condition::Plus
    } else if v == 0x6 {
        Condition::OverflowSet
    } else if v == 0x7 {
        Condition::OverflowClear
    } else if v == 0x8 {
        Condition::Higher
    } else if v == 0x9 {
        Condition::LowerSame
    } else if v == 0xA {
        Condition::GreaterEqual
    } else if v == 0xB {
        Condition::LessThan
    } else if v == 0xC {
        Condition::GreaterThan
    } else if v == 0xD {
        Condition::LessEqual
    } else if v == 0xE {
        Condition::Always
    } else {
        Condition::Invalid(v)
    }
}

impl From<u16> for Condition {
    fn from(v: u16) -> (c: Condition) {
        if v == 0x0 {
            Condition::Equal
        } else if v == 0x1 {
            Condition::NotEqual
        } else if v == 0x2 {
            Condition::CarrySet
        } else if v == 0x3 {
            Condition::CarryClear
        } else if v == 0x4 {
            Condition::Minus
        } else if v == 0x5 {
            Condition::Plus
        } else if v == 0x6 {
            Condition::OverflowSet
        } else if v == 0x7 {
            Condition::OverflowClear
        } else if v == 0x8 {
            Condition::Higher
        } else if v == 0x9 {
            Condition::LowerSame
        } else if v == 0xA {
            Condition::GreaterEqual
        } else if v == 0xB {
            Condition::LessThan
        } else if v == 0xC {
            Condition::GreaterThan
        } else if v == 0xD {
            Condition::LessEqual
        } else if v == 0xE {
            Condition::Always
        } else {
            Condition::Invalid(v)
        }
    }
}

impl vstd::std_specs::convert::FromSpecImpl<u16> for Condition {
    open spec fn obeys_from_spec() -> bool {
        true
    }

    open spec fn from_spec(v: u16) -> Condition {
        condition_of(v)
    }
}

/// Whether a condition holds for the flags of `regs`.
pub open spec fn condition_holds(regs: RegsView, condition: Condition) -> bool {
    match condition {
        Condition::Equal => regs.zero(),
        Condition::NotEqual => !regs.zero(),
        Condition::CarrySet => regs.carry(),
        Condition::CarryClear => !regs.carry(),
        Condition::Minus => regs.sign(),
        Condition::Plus => !regs.sign(),
        Condition::OverflowSet => regs.overflow(),
        Condition::OverflowClear => !regs.overflow(),
        Condition::Higher => regs.carry() && !regs.zero(),
        Condition::LowerSame => !regs.carry() || regs.zero(),
        Condition::GreaterEqual => regs.sign() == regs.overflow(),
        Condition::LessThan => regs.sign() != regs.overflow(),
        Condition::GreaterThan => !regs.zero() && regs.sign() == regs.overflow(),
        Condition::LessEqual => regs.zero() || regs.sign() != regs.overflow(),
        Condition::Always => true,
        Condition::Invalid(_) => false,
    }
}

/// Whether the instruction guarded by `condition` executes. The condition
/// must name one of the fifteen conditions (the field 0xF names none).
pub fn should_branch(registers: &Registers, condition: Condition) -> (b: bool)
    requires
        !(condition is Invalid),
    ensures
        b == condition_holds(registers@, condition),
{
    match condition {
        Condition::Equal => registers.get_zero(),
        Condition::NotEqual => !registers.get_zero(),
        Condition::CarrySet => registers.get_carry(),
        Condition::CarryClear => !registers.get_carry(),
        Condition::Minus => registers.get_sign(),
        Condition::Plus => !registers.get_sign(),
        Condition::OverflowSet => registers.get_overflow(),
        Condition::OverflowClear => !registers.get_overflow(),
        Condition::Higher => registers.get_carry() && !registers.get_zero(),
        Condition::LowerSame => !registers.get_carry() || registers.get_zero(),
        Condition::GreaterEqual => registers.get_sign() == registers.get_overflow(),
        Condition::LessThan => registers.get_sign() != registers.get_overflow(),
        Condition::GreaterThan => !registers.get_zero() && registers.get_sign()
            == registers.get_overflow(),
        Condition::LessEqual => registers.get_zero() || registers.get_sign()
            != registers.get_overflow(),
        Condition::Always => true,
        Condition::Invalid(_) => false,
    }
}

pub fn and_op(v1: u32, v2: u32) -> (r: u32)
    ensures
        r == v1 & v2,
{
    v1 & v2
}

pub fn bic_op(v1: u32, v2: u32) -> (r: u32)
    ensures
        r == v1 & !v2,
{
    v1 & !v2
}

pub fn eor_op(v1: u32, v2: u32) -> (r: u32)
    ensures
        r == v1 ^ v2,
{
    v1 ^ v2
}

pub fn orr_op(v1: u32, v2: u32) -> (r: u32)
    ensures
        r == v1 | v2,
{
    v1 | v2
}

pub fn mvn_op(v1: u32, v2: u32) -> (r: u32)
    ensures
        r == !v2,
{
    !v2
}

/// The value of a word read as a two's-complement integer.
pub open spec fn signed(v: u32) -> int {
    if v < 0x8000_0000 {
        v as int
    } else {
        v - 0x1_0000_0000
    }
}

/// The sum `v1 + v2 + carry` over the integers.
pub open spec fn carry_sum(v1: u32, v2: u32, carry: bool) -> int {
    v1 + v2 + if carry { 1int } else { 0int }
}

/// The flags and result of `v1 + v2 + carry` on 32-bit words: the low 32 bits
/// of the sum; carry out when the unsigned sum needs 33 bits; overflow when
/// the signed sum falls outside the range of a 32-bit signed word.
pub open spec fn add_with_carry_spec(v1: u32, v2: u32, carry: bool) -> (u32, bool, bool) {
    let sum = carry_sum(v1, v2, carry);
    let ssum = signed(v1) + signed(v2) + if carry { 1int } else { 0int };
    ((sum % 0x1_0000_0000) as u32, sum >= 0x1_0000_0000, ssum < -0x8000_0000 || ssum >= 0x8000_0000)
}

pub struct ArithResult {
    result: u32,
    carry: bool,
    overflow: bool,
}

impl View for ArithResult {
    type V = (u32, bool, bool);

    closed spec fn view(&self) -> (u32, bool, bool) {
        (self.result, self.carry, self.overflow)
    }
}

impl ArithResult {
    pub fn result(&self) -> (r: u32)
        ensures
            r == self@.0,
    {
        self.result
    }

    pub fn carry(&self) -> (c: bool)
        ensures
            c == self@.1,
    {
        self.carry
    }

    pub fn overflow(&self) -> (v: bool)
        ensures
            v == self@.2,
    {
        self.overflow
    }
}

pub struct ResultWithCarry {
    result: u32,
    carry: bool,
}

impl View for ResultWithCarry {
    type V = (u32, bool);

    closed spec fn view(&self) -> (u32, bool) {
        (self.result, self.carry)
    }
}

impl ResultWithCarry {
    pub fn result(&self) -> (r: u32)
        ensures
            r == self@.0,
    {
        self.result
    }

    pub fn carry(&self) -> (c: bool)
        ensures
            c == self@.1,
    {
        self.carry
    }
}

/// The overflow test on the sign bits of the operands and the result is the
/// signed-range test of the sum.
proof fn lemma_overflow_bits(v1: u32, v2: u32, c: u32, result: u32)
    requires
        c <= 1,
        result as int == (v1 + v2 + c) % 0x1_0000_0000,
    ensures
        (((v1 ^ result) & (v2 ^ result) & 0x8000_0000) != 0) == ({
            let ssum = signed(v1) + signed(v2) + c;
            ssum < -0x8000_0000 || ssum >= 0x8000_0000
        }),
{
    assert((((v1 ^ result) & (v2 ^ result) & 0x8000_0000) != 0) == (
    (v1 < 0x8000_0000) == (v2 < 0x8000_0000) && (v1 < 0x8000_0000) != (result < 0x8000_0000)))
        by (bit_vector);
}

/// `v1 + v2 + carry` with the carry and overflow flags of the ARM adder.
pub fn add_with_carry(v1: u32, v2: u32, carry: bool) -> (r: ArithResult)
    ensures
        r@ == add_with_carry_spec(v1, v2, carry),
{
    let carry_in: u32 = if carry { 1 } else { 0 };
    let r1 = v1.wrapping_add(v2);
    let c1 = r1 < v1;
    let result = r1.wrapping_add(carry_in);
    let c2 = result < r1;
    let carry_out = c1 || c2;
    let overflow = ((v1 ^ result) & (v2 ^ result) & 0x8000_0000) != 0;
    proof {
        lemma_overflow_bits(v1, v2, carry_in, result);
    }
    ArithResult { result, carry: carry_out, overflow }
}

pub fn add_op(v1: u32, v2: u32, carry: bool) -> (r: ArithResult)
    ensures
        r@ == add_with_carry_spec(v1, v2, carry),
{
    add_with_carry(v1, v2, carry)
}

pub fn sub_op(v1: u32, v2: u32, carry: bool) -> (r: ArithResult)
    ensures
        r@ == add_with_carry_spec(v1, !v2, carry),
{
    add_with_carry(v1, !v2, carry)
}

pub fn rsb_op(v1: u32, v2: u32, carry: bool) -> (r: ArithResult)
    ensures
        r@ == add_with_carry_spec(!v1, v2, carry),
{
    add_with_carry(!v1, v2, carry)
}

/// The low 32 bits of `v1 * v2`, with carry and overflow clear.
pub fn mul_op(v1: u32, v2: u32) -> (r: ArithResult)
    ensures
        r@ == (v1.wrapping_mul(v2), false, false),
{
    ArithResult { result: v1.wrapping_mul(v2), carry: false, overflow: false }
}

/// Cycles of a multiply: one sequential cycle and 1 to 4 internal cycles,
/// depending on how many of the top bytes of the multiplier are all zeros
/// or all ones.
pub open spec fn mul_cycles_spec(multiplier: u32) -> u64 {
    if multiplier >> 8 == 0 || multiplier >> 8 == 0xFF_FFFF {
        2
    } else if multiplier >> 16 == 0 || multiplier >> 16 == 0xFFFF {
        3
    } else if multiplier >> 24 == 0 || multiplier >> 24 == 0xFF {
        4
    } else {
        5
    }
}

pub fn mul_cycles(multiplier: u32) -> (c: u64)
    ensures
        c == mul_cycles_spec(multiplier),
{
    if multiplier >> 8 == 0 || multiplier >> 8 == 0xFF_FFFF {
        2
    } else if multiplier >> 16 == 0 || multiplier >> 16 == 0xFFFF {
        3
    } else if multiplier >> 24 == 0 || multiplier >> 24 == 0xFF {
        4
    } else {
        5
    }
}


/// The shifts of the barrel shifter.
pub enum ShiftType {
    LSL,
    LSR,
    ASR,
    ROR,
    RRX,
}

/// Bit `i` of `v`.
pub open spec fn bit(v: u32, i: u32) -> bool {
    (v >> i) & 1 != 0
}

/// `v` rotated right by `n` bits, `0 < n < 32`.
pub open spec fn rotr(v: u32, n: u32) -> u32 {
    (v >> n) | (v << ((32 - n) as u32))
}

/// `v` shifted right by `n` bits, `0 < n < 32`, filling with copies of bit 31.
pub open spec fn asr(v: u32, n: u32) -> u32 {
    if v & 0x8000_0000 == 0 {
        v >> n
    } else {
        !((!v) >> n)
    }
}

/// Logical shift left with the carry out of the last bit shifted out; a
/// zero amount keeps the value and the incoming carry.
pub open spec fn lsl_spec(value: u32, amount: u32, carry: bool) -> (u32, bool) {
    if amount == 0 {
        (value, carry)
    } else if amount < 32 {
        (value << amount, bit(value, (32 - amount) as u32))
    } else if amount == 32 {
        (0, value & 1 != 0)
    } else {
        (0, false)
    }
}

/// Logical shift right; an amount of 0 means 32. Amounts of 32 or more give
/// zero with bit 31 as the carry.
pub open spec fn lsr_spec(value: u32, amount: u32) -> (u32, bool) {
    let shift = if amount == 0 { 32 } else { amount };
    if 1 <= shift < 32 {
        (value >> shift, bit(value, (shift - 1) as u32))
    } else {
        (0, bit(value, 31))
    }
}

/// Arithmetic shift right; an amount of 0 means 32. Amounts of 32 or more
/// fill the word with bit 31, which is also the carry.
pub open spec fn asr_spec(value: u32, amount: u32) -> (u32, bool) {
    let shift = if amount == 0 { 32 } else { amount };
    if 1 <= shift < 32 {
        (asr(value, shift), bit(value, (shift - 1) as u32))
    } else {
        (if bit(value, 31) { 0xFFFF_FFFF } else { 0 }, bit(value, 31))
    }
}

/// Rotate right through the carry by one bit.
pub open spec fn rrx_spec(value: u32, carry: bool) -> (u32, bool) {
    (((if carry { 1u32 } else { 0u32 }) << 31u32) | (value >> 1u32), value & 1 != 0)
}

/// Rotate right by `amount & 31`; a rotation of 0 is a rotation through the
/// carry (RRX).
pub open spec fn ror_spec(value: u32, amount: u32, carry: bool) -> (u32, bool) {
    let rot = amount & 31;
    if rot == 0 {
        rrx_spec(value, carry)
    } else {
        (rotr(value, rot), bit(rotr(value, rot), 31))
    }
}

/// `value.rotate_right(n)` for `0 < n < 32`.
pub fn rotate_right(value: u32, n: u32) -> (r: u32)
    requires
        0 < n < 32,
    ensures
        r == rotr(value, n),
{
    (value >> n) | (value << (32 - n))
}

/// Arithmetic shift right of a word by `0 < n < 32` bits.
pub fn arithmetic_shift_right(value: u32, n: u32) -> (r: u32)
    requires
        0 < n < 32,
    ensures
        r == asr(value, n),
{
    if value & 0x8000_0000 == 0 {
        value >> n
    } else {
        !((!value) >> n)
    }
}

pub fn lsl_op(value: u32, amount: u32, carry: bool) -> (r: ResultWithCarry)
    ensures
        r@ == lsl_spec(value, amount, carry),
{
    if amount == 0 {
        ResultWithCarry { result: value, carry: carry }
    } else if amount < 32 {
        ResultWithCarry { result: value << amount, carry: (value >> (32 - amount)) & 1 != 0 }
    } else if amount == 32 {
        ResultWithCarry { result: 0, carry: (value & 1) != 0 }
    } else {
        ResultWithCarry { result: 0, carry: false }
    }
}

pub fn lsr_op(value: u32, amount: u32, _carry: bool) -> (r: ResultWithCarry)
    ensures
        r@ == lsr_spec(value, amount),
{
    let shift = if amount == 0 { 32 } else { amount };
    if 1 <= shift && shift <= 31 {
        ResultWithCarry { result: value >> shift, carry: (value >> (shift - 1)) & 1 != 0 }
    } else {
        ResultWithCarry { result: 0, carry: (value >> 31) & 1 != 0 }
    }
}

pub fn asr_op(value: u32, amount: u32, _carry: bool) -> (r: ResultWithCarry)
    ensures
        r@ == asr_spec(value, amount),
{
    let shift = if amount == 0 { 32 } else { amount };
    if 1 <= shift && shift <= 31 {
        ResultWithCarry {
            result: arithmetic_shift_right(value, shift),
            carry: (value >> (shift - 1)) & 1 != 0,
        }
    } else {
        let sign = (value >> 31) & 1 != 0;
        ResultWithCarry { result: if sign { u32::MAX } else { 0 }, carry: sign }
    }
}

pub fn ror_op(value: u32, amount: u32, carry: bool) -> (r: ResultWithCarry)
    ensures
        r@ == ror_spec(value, amount, carry),
{
    let rot = amount & 31;
    if rot == 0 {
        let carry_in: u32 = if carry { 1 } else { 0 };
        ResultWithCarry { result: (carry_in << 31) | (value >> 1), carry: (value & 1) != 0 }
    } else {
        proof {
            assert(rot < 32) by (bit_vector)
                requires
                    rot == amount & 31,
            ;
        }
        let result = rotate_right(value, rot);
        ResultWithCarry { result, carry: (result >> 31) & 1 != 0 }
    }
}

pub fn rrx_op(value: u32, _amount: u32, carry: bool) -> (r: ResultWithCarry)
    ensures
        r@ == rrx_spec(value, carry),
{
    let carry_in: u32 = if carry { 1 } else { 0 };
    ResultWithCarry { result: (carry_in << 31) | (value >> 1), carry: (value & 1) != 0 }
}

impl FlagResult for ArithResult {
    open spec fn flags_applied(&self, regs: RegsView) -> RegsView {
        regs.with_arith(self@)
    }

    fn apply_flags(&self, regs: &mut Registers) {
        regs.set_sign((self.result() & SIGN_BIT) != 0);
        regs.set_zero(self.result() == 0);
        regs.set_carry(self.carry());
        regs.set_overflow(self.overflow());
    }
}

impl FlagResult for ResultWithCarry {
    open spec fn flags_applied(&self, regs: RegsView) -> RegsView {
        regs.with_shift(self@)
    }

    fn apply_flags(&self, regs: &mut Registers) {
        regs.set_sign((self.result() & SIGN_BIT) != 0);
        regs.set_zero(self.result() == 0);
        regs.set_carry(self.carry());
    }
}

impl FlagResult for u32 {
    open spec fn flags_applied(&self, regs: RegsView) -> RegsView {
        regs.with_nz(*self)
    }

    fn apply_flags(&self, regs: &mut Registers) {
        regs.set_sign((*self & SIGN_BIT) != 0);
        regs.set_zero(*self == 0);
    }
}

} // verus!

verus! {

/// The conditions come in complementary pairs: EQ/NE, CS/CC, MI/PL, VS/VC,
/// HI/LS, GE/LT, GT/LE; each holds exactly when its partner does not.
pub proof fn law_condition_pairs(regs: RegsView, k: u16)
    requires
        k < 7,
    ensures
        condition_holds(regs, condition_of((2 * k) as u16)) == !condition_holds(
            regs,
            condition_of((2 * k + 1) as u16),
        ),
{
}

/// The adder's result and carry together are the exact sum:
/// `result + carry * 2^32 == v1 + v2 + carry_in`.
pub proof fn law_add_with_carry_exact(v1: u32, v2: u32, carry: bool)
    ensures
        ({
            let r = add_with_carry_spec(v1, v2, carry);
            r.0 + (if r.1 { 0x1_0000_0000int } else { 0int }) == carry_sum(v1, v2, carry)
        }),
{
}

/// Subtraction as addition of the complement with carry in set gives the
/// wrapping difference, with the carry set exactly when no borrow occurs.
pub proof fn law_subtract_carry_is_not_borrow(v1: u32, v2: u32)
    ensures
        add_with_carry_spec(v1, !v2, true).0 == v1.wrapping_sub(v2),
        add_with_carry_spec(v1, !v2, true).1 == (v1 >= v2),
{
    assert(!v2 == 0xFFFF_FFFF - v2) by (bit_vector);
}

/// Rotating right by `n` and then by `32 - n` gives back the word.
pub proof fn law_rotate_inverse(v: u32, n: u32)
    requires
        0 < n < 32,
    ensures
        rotr(rotr(v, n), (32 - n) as u32) == v,
{
    assert(rotr(rotr(v, n), (32 - n) as u32) == v) by (bit_vector)
        requires
            0 < n < 32,
    ;
}

/// A logical right shift by 1..31 is a division by `2^n`, with the carry
/// out being the last bit shifted out.
pub proof fn law_lsr_divides(v: u32, n: u32)
    requires
        0 < n < 32,
    ensures
        lsr_spec(v, n).0 == v / (1u32 << n),
        lsr_spec(v, n).1 == bit(v, (n - 1) as u32),
{
    assert(v >> n == v / (1u32 << n)) by (bit_vector)
        requires
            0 < n < 32,
    ;
}

/// Multiplication sets N and Z from the low word and clears C and V.
pub proof fn law_mul_flags(regs: RegsView, v1: u32, v2: u32)
    ensures
        ({
            let r = regs.with_arith((v1.wrapping_mul(v2), false, false));
            &&& r.cpsr & CARRY_FLAG == 0
            &&& r.cpsr & OVERFLOW_FLAG == 0
            &&& (r.cpsr & ZERO_FLAG != 0) == (v1.wrapping_mul(v2) == 0)
        }),
{
    let p = v1.wrapping_mul(v2);
    let c = regs.cpsr;
    let c1 = if p & 0x8000_0000 != 0 { c | SIGN_FLAG } else { c & !SIGN_FLAG };
    let c2 = if p == 0 { c1 | ZERO_FLAG } else { c1 & !ZERO_FLAG };
    let c3 = c2 & !CARRY_FLAG;
    let c4 = c3 & !OVERFLOW_FLAG;
    assert(c4 & 0x2000_0000 == 0 && c4 & 0x1000_0000 == 0 && ((c4 & 0x4000_0000 != 0) == (c2
        & 0x4000_0000 != 0))) by (bit_vector)
        requires
            c3 == c2 & !0x2000_0000u32,
            c4 == c3 & !0x1000_0000u32,
    ;
    assert((c2 & 0x4000_0000 != 0) == (p == 0)) by (bit_vector)
        requires
            c2 == if p == 0 { c1 | 0x4000_0000u32 } else { c1 & !0x4000_0000u32 },
    ;
}

/// `k` successive rotations right through the carry.
pub open spec fn rrx_iter(value: u32, carry: bool, k: nat) -> (u32, bool)
    decreases k,
{
    if k == 0 {
        (value, carry)
    } else {
        let p = rrx_iter(value, carry, (k - 1) as nat);
        rrx_spec(p.0, p.1)
    }
}

/// The carry and the word as one 33-bit number, the carry on top.
pub open spec fn carry_word(value: u32, carry: bool) -> u64 {
    (value as u64) | (if carry { 0x1_0000_0000u64 } else { 0u64 })
}

/// A 33-bit number rotated right by `n` (at most 33).
pub open spec fn rotr33(x: u64, n: u64) -> u64 {
    ((x >> n) | (x << ((33 - n) as u64))) & 0x1_FFFF_FFFFu64
}

/// RRX rotates the 33-bit carry-and-word right by one.
proof fn lemma_rrx_rotates(value: u32, carry: bool)
    ensures
        carry_word(rrx_spec(value, carry).0, rrx_spec(value, carry).1) == rotr33(
            carry_word(value, carry),
            1,
        ),
        carry_word(value, carry) < 0x2_0000_0000,
{
    let c: u32 = if carry { 1 } else { 0 };
    let w: u32 = (c << 31u32) | (value >> 1u32);
    let d: bool = value & 1 != 0;
    assert((w, d) == rrx_spec(value, carry));
    assert(carry_word(w, d) == rotr33(carry_word(value, carry), 1) && carry_word(value, carry)
        < 0x2_0000_0000) by (bit_vector)
        requires
            c == if carry { 1u32 } else { 0u32 },
            w == (c << 31u32) | (value >> 1u32),
            d == (value & 1 != 0),
    ;
}

/// `k` rotations through the carry rotate the 33-bit carry-and-word right
/// by `k`.
proof fn lemma_rrx_iter(value: u32, carry: bool, k: nat)
    requires
        k <= 33,
    ensures
        carry_word(rrx_iter(value, carry, k).0, rrx_iter(value, carry, k).1) == rotr33(
            carry_word(value, carry),
            k as u64,
        ),
    decreases k,
{
    let x = carry_word(value, carry);
    lemma_rrx_rotates(value, carry);
    if k == 0 {
        assert(rotr33(x, 0) == x) by (bit_vector)
            requires
                x < 0x2_0000_0000,
        ;
    } else {
        let p = rrx_iter(value, carry, (k - 1) as nat);
        lemma_rrx_iter(value, carry, (k - 1) as nat);
        lemma_rrx_rotates(p.0, p.1);
        let n = (k - 1) as u64;
        assert(rotr33(rotr33(x, n), 1) == rotr33(x, (n + 1) as u64)) by (bit_vector)
            requires
                x < 0x2_0000_0000,
                n < 33,
        ;
    }
}

/// Rotating right through the carry 33 times gives back the word and the
/// carry: RRX is a rotation of the 33 bits of carry and word.
pub proof fn law_rrx_rotation(value: u32, carry: bool)
    ensures
        rrx_iter(value, carry, 33) == (value, carry),
{
    lemma_rrx_iter(value, carry, 33);
    lemma_rrx_rotates(value, carry);
    let w = rrx_iter(value, carry, 33).0;
    let d = rrx_iter(value, carry, 33).1;
    assert(w == value && d == carry) by (bit_vector)
        requires
            carry_word(value, carry) < 0x2_0000_0000,
            carry_word(w, d) == rotr33(carry_word(value, carry), 33),
    ;
}

/// The adder's result and carry in terms of wrapping word arithmetic: with
/// the complement of `b` and carry in set it subtracts, the carry then
/// meaning no borrow.
pub proof fn lemma_adder_words(a: u32, b: u32)
    ensures
        add_with_carry_spec(a, b, false).0 == a.wrapping_add(b),
        add_with_carry_spec(a, b, true).0 == a.wrapping_add(b).wrapping_add(1),
        add_with_carry_spec(a, b, false).1 == (a as int + b as int > u32::MAX),
        add_with_carry_spec(a, !b, true).0 == a.wrapping_sub(b),
        add_with_carry_spec(a, !b, false).0 == a.wrapping_sub(b).wrapping_sub(1),
        add_with_carry_spec(a, !b, true).1 == (a >= b),
{
    assert(!b == 0xFFFF_FFFF - b) by (bit_vector);
    let m: int = 0x1_0000_0000;
    let s0 = a as int + b as int;
    if s0 >= m {
        vstd::arithmetic::div_mod::lemma_fundamental_div_mod_converse(s0, m, 1, s0 - m);
        vstd::arithmetic::div_mod::lemma_fundamental_div_mod_converse(s0 + 1, m, 1, s0 + 1 - m);
    } else {
        vstd::arithmetic::div_mod::lemma_fundamental_div_mod_converse(s0, m, 0, s0);
        if s0 + 1 >= m {
            vstd::arithmetic::div_mod::lemma_fundamental_div_mod_converse(s0 + 1, m, 1, s0 + 1 - m);
        } else {
            vstd::arithmetic::div_mod::lemma_fundamental_div_mod_converse(s0 + 1, m, 0, s0 + 1);
        }
    }
    let d = a as int - b as int;
    if d >= 0 {
        vstd::arithmetic::div_mod::lemma_fundamental_div_mod_converse(d + m, m, 1, d);
        if d >= 1 {
            vstd::arithmetic::div_mod::lemma_fundamental_div_mod_converse(d - 1 + m, m, 1, d - 1);
        } else {
            vstd::arithmetic::div_mod::lemma_fundamental_div_mod_converse(d - 1 + m, m, 0, d - 1 + m);
        }
    } else {
        vstd::arithmetic::div_mod::lemma_fundamental_div_mod_converse(d + m, m, 0, d + m);
        vstd::arithmetic::div_mod::lemma_fundamental_div_mod_converse(d - 1 + m, m, 0, d - 1 + m);
    }
}

/// After a compare of `a` with `b` (the adder on `a`, NOT `b`, carry in
/// set), each condition tells the comparison it is named for: EQ/NE
/// equality, CS/CC and HI/LS the unsigned order, GE/LT and GT/LE the
/// signed order, MI/PL the sign of the difference.
pub proof fn law_compare_conditions(regs: RegsView, a: u32, b: u32)
    ensures
        ({
            let f = regs.with_arith(add_with_carry_spec(a, !b, true));
            &&& condition_holds(f, Condition::Equal) == (a == b)
            &&& condition_holds(f, Condition::NotEqual) == (a != b)
            &&& condition_holds(f, Condition::CarrySet) == (a >= b)
            &&& condition_holds(f, Condition::CarryClear) == (a < b)
            &&& condition_holds(f, Condition::Higher) == (a > b)
            &&& condition_holds(f, Condition::LowerSame) == (a <= b)
            &&& condition_holds(f, Condition::GreaterEqual) == (signed(a) >= signed(b))
            &&& condition_holds(f, Condition::LessThan) == (signed(a) < signed(b))
            &&& condition_holds(f, Condition::GreaterThan) == (signed(a) > signed(b))
            &&& condition_holds(f, Condition::LessEqual) == (signed(a) <= signed(b))
            &&& condition_holds(f, Condition::Minus) == (a.wrapping_sub(b) >= 0x8000_0000)
            &&& condition_holds(f, Condition::Plus) == (a.wrapping_sub(b) < 0x8000_0000)
            &&& condition_holds(f, Condition::Always)
        }),
{
    let res = add_with_carry_spec(a, !b, true);
    lemma_adder_words(a, b);
    crate::cpu::registers::lemma_arith_flags(regs, res);
    let r = a.wrapping_sub(b);
    assert(!b == 0xFFFF_FFFF - b && (r & 0x8000_0000 != 0) == (r >= 0x8000_0000)) by (bit_vector);
}

/// The barrel shifter for amounts 1..31, in the shift operators of Rust:
/// LSL and LSR shift in zeros, ASR copies of bit 31 (the arithmetic shift of
/// the word read as signed), ROR rotates; the carry is the last bit shifted
/// out (bit 31 of the result for ROR). An amount of 32 clears the word for
/// LSL and LSR, the carry being bit 0 or bit 31.
pub proof fn law_shifter(v: u32, n: u32, c: bool)
    requires
        0 < n < 32,
    ensures
        lsl_spec(v, n, c) == (v << n, (v >> ((32 - n) as u32)) & 1 == 1),
        lsr_spec(v, n) == (v >> n, (v >> ((n - 1) as u32)) & 1 == 1),
        asr_spec(v, n) == (((v as i32) >> n) as u32, (v >> ((n - 1) as u32)) & 1 == 1),
        ror_spec(v, n, c).0 == (v >> n) | (v << ((32 - n) as u32)),
        ror_spec(v, n, c).1 == (((v >> n) | (v << ((32 - n) as u32))) >= 0x8000_0000),
        lsl_spec(v, 32, c) == (0u32, v & 1 == 1),
        lsr_spec(v, 32) == (0u32, v >= 0x8000_0000),
        lsl_spec(v, 0, c) == (v, c),
{
    let m = (32 - n) as u32;
    let k = (n - 1) as u32;
    let r = (v >> n) | (v << m);
    assert(((v >> m) & 1 != 0 <==> (v >> m) & 1 == 1) && ((v >> k) & 1 != 0 <==> (v >> k) & 1
        == 1) && asr(v, n) == ((v as i32) >> n) as u32 && n & 31 == n && ((r >> 31u32) & 1 != 0)
        == (r >= 0x8000_0000) && ((v >> 31u32) & 1 != 0) == (v >= 0x8000_0000) && (v & 1 != 0) == (v
        & 1 == 1)) by (bit_vector)
        requires
            0 < n < 32,
            m == 32 - n,
            k == n - 1,
            r == (v >> n) | (v << m),
    ;
}

} // verus!
