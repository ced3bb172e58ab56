//! Decoding of 16-bit Thumb instructions by a table of format/mask pairs.
use vstd::prelude::*;
use crate::cpu::executor::ThumbExecutor;

verus! {
/// The executor of the first format in the table that `opcode` matches,
/// or `ThumbExecutor::NoOp` when none does.
pub open spec fn decode_thumb_spec(opcode: u16) -> ThumbExecutor {
    if opcode & 0b1111_1000_0000_0000 == 0b0001_1000_0000_0000 {
        ThumbExecutor::AddSubtract
    } else if opcode & 0b1110_0000_0000_0000 == 0b0000_0000_0000_0000 {
        ThumbExecutor::MoveShiftedRegister
    } else if opcode & 0b1110_0000_0000_0000 == 0b0010_0000_0000_0000 {
        ThumbExecutor::MoveCompareAddSubtractImmediate
    } else if opcode & 0b1111_1100_0000_0000 == 0b0100_0000_0000_0000 {
        ThumbExecutor::AluOperations
    } else if opcode & 0b1111_1100_0000_0000 == 0b0100_0100_0000_0000 {
        ThumbExecutor::HiRegisterOperationsBranchExchange
    } else if opcode & 0b1111_1000_0000_0000 == 0b0100_1000_0000_0000 {
        ThumbExecutor::PcRelativeLoad
    } else if opcode & 0b1111_0010_0000_0000 == 0b0101_0000_0000_0000 {
        ThumbExecutor::LoadStoreWithRegisterOffset
    } else if opcode & 0b1111_0010_0000_0000 == 0b0101_0010_0000_0000 {
        ThumbExecutor::LoadStoreSignExtendedByteHalfword
    } else if opcode & 0b1110_0000_0000_0000 == 0b0110_0000_0000_0000 {
        ThumbExecutor::LoadStoreWithImmediateOffset
    } else if opcode & 0b1111_0000_0000_0000 == 0b1000_0000_0000_0000 {
        ThumbExecutor::LoadStoreHalfword
    } else if opcode & 0b1111_0000_0000_0000 == 0b1001_0000_0000_0000 {
        ThumbExecutor::SpRelativeLoadStore
    } else if opcode & 0b1111_0000_0000_0000 == 0b1010_0000_0000_0000 {
        ThumbExecutor::GetRelativeAddress
    } else if opcode & 0b1111_1111_0000_0000 == 0b1011_0000_0000_0000 {
        ThumbExecutor::AddOffsetToStackPointer
    } else if opcode & 0b1111_0110_0000_0000 == 0b1011_0100_0000_0000 {
        ThumbExecutor::PushPopRegisters
    } else if opcode & 0b1111_0000_0000_0000 == 0b1100_0000_0000_0000 {
        ThumbExecutor::MultipleLoadStore
    } else if opcode & 0b1111_0000_0000_0000 == 0b1101_0000_0000_0000 {
        ThumbExecutor::ConditionalBranch
    } else if opcode & 0b1111_1000_0000_0000 == 0b1110_0000_0000_0000 {
        ThumbExecutor::UnconditionalBranch
    } else if opcode & 0b1111_1000_0000_0000 == 0b1111_0000_0000_0000 {
        ThumbExecutor::LongBranchWithLink1
    } else if opcode & 0b1111_1000_0000_0000 == 0b1111_1000_0000_0000 {
        ThumbExecutor::LongBranchWithLink2
    } else if opcode & 0b1111_1111_0000_0000 == 0b1101_1111_0000_0000 {
        ThumbExecutor::SoftwareInterrupt
    } else if opcode & 0b1111_1111_0000_0000 == 0b1011_1110_0000_0000 {
        ThumbExecutor::Breakpoint
    } else {
        ThumbExecutor::NoOp
    }
}

#[derive(Debug, Clone, Copy)]
struct ThumbDecoder {
    format: u16,
    mask: u16,
    executor: ThumbExecutor,
}

impl ThumbDecoder {
    fn matches(&self, opcode: u16) -> (b: bool)
        ensures
            b == (opcode & self.mask == self.format),
    {
        (opcode & self.mask) == self.format
    }
}

/// The instruction formats, in the order in which they are tried.
fn instruction_formats() -> (t: [ThumbDecoder; 21])
    ensures
        t@[0] == (ThumbDecoder { format: 0b0001_1000_0000_0000, mask: 0b1111_1000_0000_0000, executor: ThumbExecutor::AddSubtract }),
        t@[1] == (ThumbDecoder { format: 0b0000_0000_0000_0000, mask: 0b1110_0000_0000_0000, executor: ThumbExecutor::MoveShiftedRegister }),
        t@[2] == (ThumbDecoder { format: 0b0010_0000_0000_0000, mask: 0b1110_0000_0000_0000, executor: ThumbExecutor::MoveCompareAddSubtractImmediate }),
        t@[3] == (ThumbDecoder { format: 0b0100_0000_0000_0000, mask: 0b1111_1100_0000_0000, executor: ThumbExecutor::AluOperations }),
        t@[4] == (ThumbDecoder { format: 0b0100_0100_0000_0000, mask: 0b1111_1100_0000_0000, executor: ThumbExecutor::HiRegisterOperationsBranchExchange }),
        t@[5] == (ThumbDecoder { format: 0b0100_1000_0000_0000, mask: 0b1111_1000_0000_0000, executor: ThumbExecutor::PcRelativeLoad }),
        t@[6] == (ThumbDecoder { format: 0b0101_0000_0000_0000, mask: 0b1111_0010_0000_0000, executor: ThumbExecutor::LoadStoreWithRegisterOffset }),
        t@[7] == (ThumbDecoder { format: 0b0101_0010_0000_0000, mask: 0b1111_0010_0000_0000, executor: ThumbExecutor::LoadStoreSignExtendedByteHalfword }),
        t@[8] == (ThumbDecoder { format: 0b0110_0000_0000_0000, mask: 0b1110_0000_0000_0000, executor: ThumbExecutor::LoadStoreWithImmediateOffset }),
        t@[9] == (ThumbDecoder { format: 0b1000_0000_0000_0000, mask: 0b1111_0000_0000_0000, executor: ThumbExecutor::LoadStoreHalfword }),
        t@[10] == (ThumbDecoder { format: 0b1001_0000_0000_0000, mask: 0b1111_0000_0000_0000, executor: ThumbExecutor::SpRelativeLoadStore }),
        t@[11] == (ThumbDecoder { format: 0b1010_0000_0000_0000, mask: 0b1111_0000_0000_0000, executor: ThumbExecutor::GetRelativeAddress }),
        t@[12] == (ThumbDecoder { format: 0b1011_0000_0000_0000, mask: 0b1111_1111_0000_0000, executor: ThumbExecutor::AddOffsetToStackPointer }),
        t@[13] == (ThumbDecoder { format: 0b1011_0100_0000_0000, mask: 0b1111_0110_0000_0000, executor: ThumbExecutor::PushPopRegisters }),
        t@[14] == (ThumbDecoder { format: 0b1100_0000_0000_0000, mask: 0b1111_0000_0000_0000, executor: ThumbExecutor::MultipleLoadStore }),
        t@[15] == (ThumbDecoder { format: 0b1101_0000_0000_0000, mask: 0b1111_0000_0000_0000, executor: ThumbExecutor::ConditionalBranch }),
        t@[16] == (ThumbDecoder { format: 0b1110_0000_0000_0000, mask: 0b1111_1000_0000_0000, executor: ThumbExecutor::UnconditionalBranch }),
        t@[17] == (ThumbDecoder { format: 0b1111_0000_0000_0000, mask: 0b1111_1000_0000_0000, executor: ThumbExecutor::LongBranchWithLink1 }),
        t@[18] == (ThumbDecoder { format: 0b1111_1000_0000_0000, mask: 0b1111_1000_0000_0000, executor: ThumbExecutor::LongBranchWithLink2 }),
        t@[19] == (ThumbDecoder { format: 0b1101_1111_0000_0000, mask: 0b1111_1111_0000_0000, executor: ThumbExecutor::SoftwareInterrupt }),
        t@[20] == (ThumbDecoder { format: 0b1011_1110_0000_0000, mask: 0b1111_1111_0000_0000, executor: ThumbExecutor::Breakpoint }),
{
    [
        // Register operations; add/subtract first, as its pattern lies
        // inside that of the shifted-register move.
        ThumbDecoder {
            format: 0b0001_1000_0000_0000,
            mask: 0b1111_1000_0000_0000,
            executor: ThumbExecutor::AddSubtract,
        },
        ThumbDecoder {
            format: 0b0000_0000_0000_0000,
            mask: 0b1110_0000_0000_0000,
            executor: ThumbExecutor::MoveShiftedRegister,
        },
        ThumbDecoder {
            format: 0b0010_0000_0000_0000,
            mask: 0b1110_0000_0000_0000,
            executor: ThumbExecutor::MoveCompareAddSubtractImmediate,
        },
        ThumbDecoder {
            format: 0b0100_0000_0000_0000,
            mask: 0b1111_1100_0000_0000,
            executor: ThumbExecutor::AluOperations,
        },
        ThumbDecoder {
            format: 0b0100_0100_0000_0000,
            mask: 0b1111_1100_0000_0000,
            executor: ThumbExecutor::HiRegisterOperationsBranchExchange,
        },
        // Memory load/store (LDR/STR)
        ThumbDecoder {
            format: 0b0100_1000_0000_0000,
            mask: 0b1111_1000_0000_0000,
            executor: ThumbExecutor::PcRelativeLoad,
        },
        ThumbDecoder {
            format: 0b0101_0000_0000_0000,
            mask: 0b1111_0010_0000_0000,
            executor: ThumbExecutor::LoadStoreWithRegisterOffset,
        },
        ThumbDecoder {
            format: 0b0101_0010_0000_0000,
            mask: 0b1111_0010_0000_0000,
            executor: ThumbExecutor::LoadStoreSignExtendedByteHalfword,
        },
        ThumbDecoder {
            format: 0b0110_0000_0000_0000,
            mask: 0b1110_0000_0000_0000,
            executor: ThumbExecutor::LoadStoreWithImmediateOffset,
        },
        ThumbDecoder {
            format: 0b1000_0000_0000_0000,
            mask: 0b1111_0000_0000_0000,
            executor: ThumbExecutor::LoadStoreHalfword,
        },
        ThumbDecoder {
            format: 0b1001_0000_0000_0000,
            mask: 0b1111_0000_0000_0000,
            executor: ThumbExecutor::SpRelativeLoadStore,
        },
        // Memory addressing (ADD PC/SP)
        ThumbDecoder {
            format: 0b1010_0000_0000_0000,
            mask: 0b1111_0000_0000_0000,
            executor: ThumbExecutor::GetRelativeAddress,
        },
        ThumbDecoder {
            format: 0b1011_0000_0000_0000,
            mask: 0b1111_1111_0000_0000,
            executor: ThumbExecutor::AddOffsetToStackPointer,
        },
        // Multiple load/store (PUSH/POP and LDM/STM)
        ThumbDecoder {
            format: 0b1011_0100_0000_0000,
            mask: 0b1111_0110_0000_0000,
            executor: ThumbExecutor::PushPopRegisters,
        },
        ThumbDecoder {
            format: 0b1100_0000_0000_0000,
            mask: 0b1111_0000_0000_0000,
            executor: ThumbExecutor::MultipleLoadStore,
        },
        // Jumps and calls
        ThumbDecoder {
            format: 0b1101_0000_0000_0000,
            mask: 0b1111_0000_0000_0000,
            executor: ThumbExecutor::ConditionalBranch,
        },
        ThumbDecoder {
            format: 0b1110_0000_0000_0000,
            mask: 0b1111_1000_0000_0000,
            executor: ThumbExecutor::UnconditionalBranch,
        },
        ThumbDecoder {
            format: 0b1111_0000_0000_0000,
            mask: 0b1111_1000_0000_0000,
            executor: ThumbExecutor::LongBranchWithLink1,
        },
        ThumbDecoder {
            format: 0b1111_1000_0000_0000,
            mask: 0b1111_1000_0000_0000,
            executor: ThumbExecutor::LongBranchWithLink2,
        },
        ThumbDecoder {
            format: 0b1101_1111_0000_0000,
            mask: 0b1111_1111_0000_0000,
            executor: ThumbExecutor::SoftwareInterrupt,
        },
        ThumbDecoder {
            format: 0b1011_1110_0000_0000,
            mask: 0b1111_1111_0000_0000,
            executor: ThumbExecutor::Breakpoint,
        },
    ]
}

pub fn decode_thumb(opcode: u16) -> (e: ThumbExecutor)
    ensures
        e == decode_thumb_spec(opcode),
{
    let formats = instruction_formats();
    let mut i: usize = 0;
    while i < 21
        invariant
            0 <= i <= 21,
            formats@[0] == (ThumbDecoder { format: 0b0001_1000_0000_0000, mask: 0b1111_1000_0000_0000, executor: ThumbExecutor::AddSubtract }),
            formats@[1] == (ThumbDecoder { format: 0b0000_0000_0000_0000, mask: 0b1110_0000_0000_0000, executor: ThumbExecutor::MoveShiftedRegister }),
            formats@[2] == (ThumbDecoder { format: 0b0010_0000_0000_0000, mask: 0b1110_0000_0000_0000, executor: ThumbExecutor::MoveCompareAddSubtractImmediate }),
            formats@[3] == (ThumbDecoder { format: 0b0100_0000_0000_0000, mask: 0b1111_1100_0000_0000, executor: ThumbExecutor::AluOperations }),
            formats@[4] == (ThumbDecoder { format: 0b0100_0100_0000_0000, mask: 0b1111_1100_0000_0000, executor: ThumbExecutor::HiRegisterOperationsBranchExchange }),
            formats@[5] == (ThumbDecoder { format: 0b0100_1000_0000_0000, mask: 0b1111_1000_0000_0000, executor: ThumbExecutor::PcRelativeLoad }),
            formats@[6] == (ThumbDecoder { format: 0b0101_0000_0000_0000, mask: 0b1111_0010_0000_0000, executor: ThumbExecutor::LoadStoreWithRegisterOffset }),
            formats@[7] == (ThumbDecoder { format: 0b0101_0010_0000_0000, mask: 0b1111_0010_0000_0000, executor: ThumbExecutor::LoadStoreSignExtendedByteHalfword }),
            formats@[8] == (ThumbDecoder { format: 0b0110_0000_0000_0000, mask: 0b1110_0000_0000_0000, executor: ThumbExecutor::LoadStoreWithImmediateOffset }),
            formats@[9] == (ThumbDecoder { format: 0b1000_0000_0000_0000, mask: 0b1111_0000_0000_0000, executor: ThumbExecutor::LoadStoreHalfword }),
            formats@[10] == (ThumbDecoder { format: 0b1001_0000_0000_0000, mask: 0b1111_0000_0000_0000, executor: ThumbExecutor::SpRelativeLoadStore }),
            formats@[11] == (ThumbDecoder { format: 0b1010_0000_0000_0000, mask: 0b1111_0000_0000_0000, executor: ThumbExecutor::GetRelativeAddress }),
            formats@[12] == (ThumbDecoder { format: 0b1011_0000_0000_0000, mask: 0b1111_1111_0000_0000, executor: ThumbExecutor::AddOffsetToStackPointer }),
            formats@[13] == (ThumbDecoder { format: 0b1011_0100_0000_0000, mask: 0b1111_0110_0000_0000, executor: ThumbExecutor::PushPopRegisters }),
            formats@[14] == (ThumbDecoder { format: 0b1100_0000_0000_0000, mask: 0b1111_0000_0000_0000, executor: ThumbExecutor::MultipleLoadStore }),
            formats@[15] == (ThumbDecoder { format: 0b1101_0000_0000_0000, mask: 0b1111_0000_0000_0000, executor: ThumbExecutor::ConditionalBranch }),
            formats@[16] == (ThumbDecoder { format: 0b1110_0000_0000_0000, mask: 0b1111_1000_0000_0000, executor: ThumbExecutor::UnconditionalBranch }),
            formats@[17] == (ThumbDecoder { format: 0b1111_0000_0000_0000, mask: 0b1111_1000_0000_0000, executor: ThumbExecutor::LongBranchWithLink1 }),
            formats@[18] == (ThumbDecoder { format: 0b1111_1000_0000_0000, mask: 0b1111_1000_0000_0000, executor: ThumbExecutor::LongBranchWithLink2 }),
            formats@[19] == (ThumbDecoder { format: 0b1101_1111_0000_0000, mask: 0b1111_1111_0000_0000, executor: ThumbExecutor::SoftwareInterrupt }),
            formats@[20] == (ThumbDecoder { format: 0b1011_1110_0000_0000, mask: 0b1111_1111_0000_0000, executor: ThumbExecutor::Breakpoint }),
            forall|j: int| 0 <= j < i ==> !(opcode & #[trigger] formats@[j].mask == formats@[j].format),
        decreases 21 - i,
    {
        let format = formats[i];
        if format.matches(opcode) {
            proof {
                assert(0 < i ==> !(opcode & formats@[0].mask == formats@[0].format));
                assert(1 < i ==> !(opcode & formats@[1].mask == formats@[1].format));
                assert(2 < i ==> !(opcode & formats@[2].mask == formats@[2].format));
                assert(3 < i ==> !(opcode & formats@[3].mask == formats@[3].format));
                assert(4 < i ==> !(opcode & formats@[4].mask == formats@[4].format));
                assert(5 < i ==> !(opcode & formats@[5].mask == formats@[5].format));
                assert(6 < i ==> !(opcode & formats@[6].mask == formats@[6].format));
                assert(7 < i ==> !(opcode & formats@[7].mask == formats@[7].format));
                assert(8 < i ==> !(opcode & formats@[8].mask == formats@[8].format));
                assert(9 < i ==> !(opcode & formats@[9].mask == formats@[9].format));
                assert(10 < i ==> !(opcode & formats@[10].mask == formats@[10].format));
                assert(11 < i ==> !(opcode & formats@[11].mask == formats@[11].format));
                assert(12 < i ==> !(opcode & formats@[12].mask == formats@[12].format));
                assert(13 < i ==> !(opcode & formats@[13].mask == formats@[13].format));
                assert(14 < i ==> !(opcode & formats@[14].mask == formats@[14].format));
                assert(15 < i ==> !(opcode & formats@[15].mask == formats@[15].format));
                assert(16 < i ==> !(opcode & formats@[16].mask == formats@[16].format));
                assert(17 < i ==> !(opcode & formats@[17].mask == formats@[17].format));
                assert(18 < i ==> !(opcode & formats@[18].mask == formats@[18].format));
                assert(19 < i ==> !(opcode & formats@[19].mask == formats@[19].format));
                assert(20 < i ==> !(opcode & formats@[20].mask == formats@[20].format));
            }
            return format.executor;
        }
        i = i + 1;
    }
    proof {
        assert(!(opcode & formats@[0].mask == formats@[0].format));
        assert(!(opcode & formats@[1].mask == formats@[1].format));
        assert(!(opcode & formats@[2].mask == formats@[2].format));
        assert(!(opcode & formats@[3].mask == formats@[3].format));
        assert(!(opcode & formats@[4].mask == formats@[4].format));
        assert(!(opcode & formats@[5].mask == formats@[5].format));
        assert(!(opcode & formats@[6].mask == formats@[6].format));
        assert(!(opcode & formats@[7].mask == formats@[7].format));
        assert(!(opcode & formats@[8].mask == formats@[8].format));
        assert(!(opcode & formats@[9].mask == formats@[9].format));
        assert(!(opcode & formats@[10].mask == formats@[10].format));
        assert(!(opcode & formats@[11].mask == formats@[11].format));
        assert(!(opcode & formats@[12].mask == formats@[12].format));
        assert(!(opcode & formats@[13].mask == formats@[13].format));
        assert(!(opcode & formats@[14].mask == formats@[14].format));
        assert(!(opcode & formats@[15].mask == formats@[15].format));
        assert(!(opcode & formats@[16].mask == formats@[16].format));
        assert(!(opcode & formats@[17].mask == formats@[17].format));
        assert(!(opcode & formats@[18].mask == formats@[18].format));
        assert(!(opcode & formats@[19].mask == formats@[19].format));
        assert(!(opcode & formats@[20].mask == formats@[20].format));
    }
    ThumbExecutor::NoOp
}

} // verus!
