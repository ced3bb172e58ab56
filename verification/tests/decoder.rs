use gba_emu::cpu::decoder::{decode_arm, decode_thumb};
use gba_emu::cpu::executor::{ArmExecutor, ThumbExecutor};

#[test]
fn arm_formats() {
    assert_eq!(decode_arm(0xE12F_FF10), ArmExecutor::BranchAndBranchExchange);
    assert_eq!(decode_arm(0xE8BD_000F), ArmExecutor::BlockDataTransfer);
    assert_eq!(decode_arm(0xEA00_0010), ArmExecutor::Branch);
    assert_eq!(decode_arm(0xEB00_0010), ArmExecutor::Branch);
    assert_eq!(decode_arm(0xEF00_0001), ArmExecutor::SoftwareInterrupt);
    assert_eq!(decode_arm(0xE600_0010), ArmExecutor::Undefined);
    assert_eq!(decode_arm(0xE190_00B2), ArmExecutor::HalfwordDataTransferImmediate);
    assert_eq!(decode_arm(0xE1D0_00B2), ArmExecutor::HalfwordDataTransferRegister);
    assert_eq!(decode_arm(0xE591_4000), ArmExecutor::SingleDataTransfer);
    assert_eq!(decode_arm(0xE10F_0000), ArmExecutor::PsrTransferMrs);
    assert_eq!(decode_arm(0xE129_F000), ArmExecutor::PsrTransferMsr);
    assert_eq!(decode_arm(0xE3A0_0005), ArmExecutor::DataProcessing);
    assert_eq!(decode_arm(0xE080_0001), ArmExecutor::DataProcessing);
}

#[test]
fn arm_table_order() {
    // MUL, SWP and UMULL share bits 7..4 = 1001 with the halfword
    // transfers, and are tried before them.
    assert_eq!(decode_arm(0xE005_0090), ArmExecutor::Multiply);
    assert_eq!(decode_arm(0xE000_0091), ArmExecutor::Multiply);
    assert_eq!(decode_arm(0xE100_0091), ArmExecutor::SingleDataSwap);
    assert_eq!(decode_arm(0xE080_0291), ArmExecutor::MultiplyLong);
    assert_eq!(decode_arm(0xE081_0392), ArmExecutor::MultiplyLong);
    // Coprocessor space matches no format.
    assert_eq!(decode_arm(0xEC00_0000), ArmExecutor::NoOp);
}

#[test]
fn thumb_formats() {
    assert_eq!(decode_thumb(0x0048), ThumbExecutor::MoveShiftedRegister);
    // ADD/SUB (0x18xx..0x1Fxx) is tried before the shifted-register move.
    assert_eq!(decode_thumb(0x1888), ThumbExecutor::AddSubtract);
    assert_eq!(decode_thumb(0x1840), ThumbExecutor::AddSubtract);
    assert_eq!(decode_thumb(0x1C48), ThumbExecutor::AddSubtract);
    assert_eq!(decode_thumb(0x2005), ThumbExecutor::MoveCompareAddSubtractImmediate);
    assert_eq!(decode_thumb(0x4048), ThumbExecutor::AluOperations);
    assert_eq!(decode_thumb(0x4770), ThumbExecutor::HiRegisterOperationsBranchExchange);
    assert_eq!(decode_thumb(0x4801), ThumbExecutor::PcRelativeLoad);
    assert_eq!(decode_thumb(0x5050), ThumbExecutor::LoadStoreWithRegisterOffset);
    assert_eq!(decode_thumb(0x5250), ThumbExecutor::LoadStoreSignExtendedByteHalfword);
    assert_eq!(decode_thumb(0x6808), ThumbExecutor::LoadStoreWithImmediateOffset);
    assert_eq!(decode_thumb(0x8808), ThumbExecutor::LoadStoreHalfword);
    assert_eq!(decode_thumb(0x9801), ThumbExecutor::SpRelativeLoadStore);
    assert_eq!(decode_thumb(0xA001), ThumbExecutor::GetRelativeAddress);
    assert_eq!(decode_thumb(0xB081), ThumbExecutor::AddOffsetToStackPointer);
    assert_eq!(decode_thumb(0xB40F), ThumbExecutor::PushPopRegisters);
    assert_eq!(decode_thumb(0xBC0F), ThumbExecutor::PushPopRegisters);
    assert_eq!(decode_thumb(0xC00F), ThumbExecutor::MultipleLoadStore);
    assert_eq!(decode_thumb(0xD0FE), ThumbExecutor::ConditionalBranch);
    // SWI (0xDFxx) is claimed by the earlier conditional-branch format.
    assert_eq!(decode_thumb(0xDF01), ThumbExecutor::ConditionalBranch);
    assert_eq!(decode_thumb(0xE7FE), ThumbExecutor::UnconditionalBranch);
    assert_eq!(decode_thumb(0xF000), ThumbExecutor::LongBranchWithLink1);
    assert_eq!(decode_thumb(0xF800), ThumbExecutor::LongBranchWithLink2);
    assert_eq!(decode_thumb(0xBE01), ThumbExecutor::Breakpoint);
}
