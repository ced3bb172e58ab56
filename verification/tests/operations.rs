use gba_emu::cpu::operations::{
    add_op, add_with_carry, and_op, asr_op, bic_op, eor_op, lsl_op, lsr_op, mul_cycles, mul_op,
    mvn_op, orr_op, ror_op, rrx_op, rsb_op, should_branch, sub_op, Condition,
};
use gba_emu::cpu::registers::Registers;

#[test]
fn condition_from_field() {
    assert!(matches!(Condition::from(0x0), Condition::Equal));
    assert!(matches!(Condition::from(0x1), Condition::NotEqual));
    assert!(matches!(Condition::from(0x8), Condition::Higher));
    assert!(matches!(Condition::from(0xE), Condition::Always));
    assert!(matches!(Condition::from(0xF), Condition::Invalid(0xF)));
    assert!(matches!(Condition::from(0x123), Condition::Invalid(0x123)));
}

#[test]
fn conditions_follow_flags() {
    let mut regs = Registers::new();
    assert!(should_branch(&regs, Condition::Always));
    assert!(!should_branch(&regs, Condition::Equal));
    assert!(should_branch(&regs, Condition::NotEqual));
    regs.set_zero(true);
    assert!(should_branch(&regs, Condition::Equal));
    assert!(should_branch(&regs, Condition::LowerSame));
    assert!(!should_branch(&regs, Condition::Higher));
    regs.set_zero(false);
    regs.set_carry(true);
    assert!(should_branch(&regs, Condition::Higher));
    assert!(should_branch(&regs, Condition::CarrySet));
    regs.set_sign(true);
    assert!(should_branch(&regs, Condition::LessThan));
    assert!(should_branch(&regs, Condition::LessEqual));
    assert!(!should_branch(&regs, Condition::GreaterEqual));
    regs.set_overflow(true);
    assert!(should_branch(&regs, Condition::GreaterEqual));
    assert!(should_branch(&regs, Condition::GreaterThan));
    assert!(should_branch(&regs, Condition::OverflowSet));
    assert!(!should_branch(&regs, Condition::OverflowClear));
    assert!(should_branch(&regs, Condition::Minus));
    assert!(!should_branch(&regs, Condition::Plus));
}

#[test]
fn condition_pairs_are_complementary() {
    let mut regs = Registers::new();
    for cpsr in [0u32, 0x8000_0000, 0x4000_0000, 0x2000_0000, 0x1000_0000, 0xF000_0000, 0x9000_0000, 0x6000_0000] {
        regs.set_cpsr(cpsr);
        for k in 0..7u16 {
            let a = should_branch(&regs, Condition::from(2 * k));
            let b = should_branch(&regs, Condition::from(2 * k + 1));
            assert_ne!(a, b);
        }
    }
}

#[test]
fn adder_flags() {
    let r = add_with_carry(0x7FFF_FFFF, 1, false);
    assert_eq!(r.result(), 0x8000_0000);
    assert!(!r.carry());
    assert!(r.overflow());

    let r = add_with_carry(0xFFFF_FFFF, 0, true);
    assert_eq!(r.result(), 0);
    assert!(r.carry());
    assert!(!r.overflow());

    let r = add_with_carry(0x8000_0000, 0x8000_0000, false);
    assert_eq!(r.result(), 0);
    assert!(r.carry());
    assert!(r.overflow());

    let r = add_op(2, 3, true);
    assert_eq!(r.result(), 6);
}

#[test]
fn subtraction_carry_is_not_borrow() {
    let r = sub_op(5, 3, true);
    assert_eq!(r.result(), 2);
    assert!(r.carry());
    let r = sub_op(3, 5, true);
    assert_eq!(r.result(), 0xFFFF_FFFE);
    assert!(!r.carry());
    // Without carry in, one more is taken off.
    let r = sub_op(5, 3, false);
    assert_eq!(r.result(), 1);
    let r = rsb_op(3, 5, true);
    assert_eq!(r.result(), 2);
    let r = sub_op(0x8000_0000, 1, true);
    assert_eq!(r.result(), 0x7FFF_FFFF);
    assert!(r.overflow());
}

#[test]
fn logic_operations() {
    assert_eq!(and_op(0b1100, 0b1010), 0b1000);
    assert_eq!(orr_op(0b1100, 0b1010), 0b1110);
    assert_eq!(eor_op(0b1100, 0b1010), 0b0110);
    assert_eq!(bic_op(0b1100, 0b1010), 0b0100);
    assert_eq!(mvn_op(0x1234, 0), 0xFFFF_FFFF);
}

#[test]
fn multiply_low_word() {
    let r = mul_op(0x1_0001, 0x1_0001);
    assert_eq!(r.result(), 0x0002_0001);
    assert!(!r.carry());
    assert!(!r.overflow());
    assert_eq!(mul_cycles(0x10), 2);
    assert_eq!(mul_cycles(0xFFFF_FF00), 2);
    assert_eq!(mul_cycles(0x1234), 3);
    assert_eq!(mul_cycles(0x12_3456), 4);
    assert_eq!(mul_cycles(0x1234_5678), 5);
}

#[test]
fn logical_shift_left_edges() {
    let r = lsl_op(0x8000_0001, 0, true);
    assert_eq!((r.result(), r.carry()), (0x8000_0001, true));
    let r = lsl_op(0x8000_0001, 1, false);
    assert_eq!((r.result(), r.carry()), (2, true));
    let r = lsl_op(0x0000_0001, 31, false);
    assert_eq!((r.result(), r.carry()), (0x8000_0000, false));
    let r = lsl_op(0x0000_0001, 32, false);
    assert_eq!((r.result(), r.carry()), (0, true));
    let r = lsl_op(0xFFFF_FFFF, 33, true);
    assert_eq!((r.result(), r.carry()), (0, false));
}

#[test]
fn logical_shift_right_edges() {
    let r = lsr_op(0x8000_0003, 1, false);
    assert_eq!((r.result(), r.carry()), (0x4000_0001, true));
    let r = lsr_op(0x8000_0000, 0, false);
    assert_eq!((r.result(), r.carry()), (0, true));
    let r = lsr_op(0x8000_0000, 40, false);
    assert_eq!((r.result(), r.carry()), (0, true));
    let r = lsr_op(0x100, 8, false);
    assert_eq!((r.result(), r.carry()), (1, false));
}

#[test]
fn arithmetic_shift_right_edges() {
    let r = asr_op(0x8000_0000, 4, false);
    assert_eq!((r.result(), r.carry()), (0xF800_0000, false));
    let r = asr_op(0x7000_0008, 4, false);
    assert_eq!((r.result(), r.carry()), (0x0700_0000, true));
    let r = asr_op(0x8000_0000, 0, false);
    assert_eq!((r.result(), r.carry()), (0xFFFF_FFFF, true));
    let r = asr_op(0x4000_0000, 32, true);
    assert_eq!((r.result(), r.carry()), (0, false));
}

#[test]
fn rotate_right_and_rrx() {
    let r = ror_op(0x0000_0001, 1, false);
    assert_eq!((r.result(), r.carry()), (0x8000_0000, true));
    let r = ror_op(0x1234_5678, 8, false);
    assert_eq!((r.result(), r.carry()), (0x7812_3456, false));
    // A rotation of 0 (or 32) is RRX.
    let r = ror_op(0x0000_0003, 0, true);
    assert_eq!((r.result(), r.carry()), (0x8000_0001, true));
    let r = ror_op(0x0000_0002, 32, false);
    assert_eq!((r.result(), r.carry()), (0x0000_0001, false));
    let r = rrx_op(0x0000_0001, 7, false);
    assert_eq!((r.result(), r.carry()), (0, true));
}

#[test]
fn rrx_33_times_gives_back_the_word_and_carry() {
    for &(start, carry) in &[(0x8000_0001u32, false), (0x1234_5678, true), (0, true), (u32::MAX, false)] {
        let (mut v, mut c) = (start, carry);
        for _ in 0..33 {
            let r = rrx_op(v, 0, c);
            v = r.result();
            c = r.carry();
        }
        assert_eq!((v, c), (start, carry));
    }
}
