//! Decoding of 32-bit ARM instructions by a table of format/mask pairs.
use vstd::prelude::*;
use crate::cpu::executor::ArmExecutor;

verus! {
/// The executor of the first format in the table that `opcode` matches,
/// or `ArmExecutor::NoOp` when none does.
pub open spec fn decode_arm_spec(opcode: u32) -> ArmExecutor {
    if opcode & 0b0000_1111_1111_1111_1111_1111_1111_0000 == 0b0000_0001_0010_1111_1111_1111_0001_0000 {
        ArmExecutor::BranchAndBranchExchange
    } else if opcode & 0b0000_1110_0000_0000_0000_0000_0000_0000 == 0b0000_1000_0000_0000_0000_0000_0000_0000 {
        ArmExecutor::BlockDataTransfer
    } else if opcode & 0b0000_1110_0000_0000_0000_0000_0000_0000 == 0b0000_1010_0000_0000_0000_0000_0000_0000 {
        ArmExecutor::Branch
    } else if opcode & 0b0000_1111_0000_0000_0000_0000_0000_0000 == 0b0000_1111_0000_0000_0000_0000_0000_0000 {
        ArmExecutor::SoftwareInterrupt
    } else if opcode & 0b0000_1110_0000_0000_0000_0000_0001_0000 == 0b0000_0110_0000_0000_0000_0000_0001_0000 {
        ArmExecutor::Undefined
    } else if opcode & 0b0000_1111_1000_0000_0000_1111_1111_0000 == 0b0000_0001_0000_0000_0000_0000_1001_0000 {
        ArmExecutor::SingleDataSwap
    } else if opcode & 0b0000_1111_1000_0000_0000_0000_1111_0000 == 0b0000_0000_0000_0000_0000_0000_1001_0000 {
        ArmExecutor::Multiply
    } else if opcode & 0b0000_1111_1000_0000_0000_0000_1111_0000 == 0b0000_0000_1000_0000_0000_0000_1001_0000 {
        ArmExecutor::MultiplyLong
    } else if opcode & 0b0000_1110_0100_0000_0000_0000_1001_0000 == 0b0000_0000_0000_0000_0000_0000_1001_0000 {
        ArmExecutor::HalfwordDataTransferImmediate
    } else if opcode & 0b0000_1110_0100_0000_0000_1111_1001_0000 == 0b0000_0000_0100_0000_0000_0000_1001_0000 {
        ArmExecutor::HalfwordDataTransferRegister
    } else if opcode & 0b0000_1100_0000_0000_0000_0000_0000_0000 == 0b0000_0100_0000_0000_0000_0000_0000_0000 {
        ArmExecutor::SingleDataTransfer
    } else if opcode & 0b0000_1111_1011_1111_0000_0000_0000_0000 == 0b0000_0001_0000_1111_0000_0000_0000_0000 {
        ArmExecutor::PsrTransferMrs
    } else if opcode & 0b0000_1101_1011_0000_1111_0000_0000_0000 == 0b0000_0001_0010_0000_1111_0000_0000_0000 {
        ArmExecutor::PsrTransferMsr
    } else if opcode & 0b0000_1100_0000_0000_0000_0000_0000_0000 == 0b0000_0000_0000_0000_0000_0000_0000_0000 {
        ArmExecutor::DataProcessing
    } else if opcode & 0b0000_1110_0000_0000_0000_0000_0000_0000 == 0b0000_0000_0000_0000_0000_0000_0000_0000 {
        ArmExecutor::DataProcessing
    } else {
        ArmExecutor::NoOp
    }
}

#[derive(Debug, Clone, Copy)]
struct ArmDecoder {
    format: u32,
    mask: u32,
    executor: ArmExecutor,
}

impl ArmDecoder {
    fn matches(&self, opcode: u32) -> (b: bool)
        ensures
            b == (opcode & self.mask == self.format),
    {
        (opcode & self.mask) == self.format
    }
}

/// The instruction formats, in the order in which they are tried.
fn instruction_formats() -> (t: [ArmDecoder; 15])
    ensures
        t@[0] == (ArmDecoder { format: 0b0000_0001_0010_1111_1111_1111_0001_0000, mask: 0b0000_1111_1111_1111_1111_1111_1111_0000, executor: ArmExecutor::BranchAndBranchExchange }),
        t@[1] == (ArmDecoder { format: 0b0000_1000_0000_0000_0000_0000_0000_0000, mask: 0b0000_1110_0000_0000_0000_0000_0000_0000, executor: ArmExecutor::BlockDataTransfer }),
        t@[2] == (ArmDecoder { format: 0b0000_1010_0000_0000_0000_0000_0000_0000, mask: 0b0000_1110_0000_0000_0000_0000_0000_0000, executor: ArmExecutor::Branch }),
        t@[3] == (ArmDecoder { format: 0b0000_1111_0000_0000_0000_0000_0000_0000, mask: 0b0000_1111_0000_0000_0000_0000_0000_0000, executor: ArmExecutor::SoftwareInterrupt }),
        t@[4] == (ArmDecoder { format: 0b0000_0110_0000_0000_0000_0000_0001_0000, mask: 0b0000_1110_0000_0000_0000_0000_0001_0000, executor: ArmExecutor::Undefined }),
        t@[5] == (ArmDecoder { format: 0b0000_0001_0000_0000_0000_0000_1001_0000, mask: 0b0000_1111_1000_0000_0000_1111_1111_0000, executor: ArmExecutor::SingleDataSwap }),
        t@[6] == (ArmDecoder { format: 0b0000_0000_0000_0000_0000_0000_1001_0000, mask: 0b0000_1111_1000_0000_0000_0000_1111_0000, executor: ArmExecutor::Multiply }),
        t@[7] == (ArmDecoder { format: 0b0000_0000_1000_0000_0000_0000_1001_0000, mask: 0b0000_1111_1000_0000_0000_0000_1111_0000, executor: ArmExecutor::MultiplyLong }),
        t@[8] == (ArmDecoder { format: 0b0000_0000_0000_0000_0000_0000_1001_0000, mask: 0b0000_1110_0100_0000_0000_0000_1001_0000, executor: ArmExecutor::HalfwordDataTransferImmediate }),
        t@[9] == (ArmDecoder { format: 0b0000_0000_0100_0000_0000_0000_1001_0000, mask: 0b0000_1110_0100_0000_0000_1111_1001_0000, executor: ArmExecutor::HalfwordDataTransferRegister }),
        t@[10] == (ArmDecoder { format: 0b0000_0100_0000_0000_0000_0000_0000_0000, mask: 0b0000_1100_0000_0000_0000_0000_0000_0000, executor: ArmExecutor::SingleDataTransfer }),
        t@[11] == (ArmDecoder { format: 0b0000_0001_0000_1111_0000_0000_0000_0000, mask: 0b0000_1111_1011_1111_0000_0000_0000_0000, executor: ArmExecutor::PsrTransferMrs }),
        t@[12] == (ArmDecoder { format: 0b0000_0001_0010_0000_1111_0000_0000_0000, mask: 0b0000_1101_1011_0000_1111_0000_0000_0000, executor: ArmExecutor::PsrTransferMsr }),
        t@[13] == (ArmDecoder { format: 0b0000_0000_0000_0000_0000_0000_0000_0000, mask: 0b0000_1100_0000_0000_0000_0000_0000_0000, executor: ArmExecutor::DataProcessing }),
        t@[14] == (ArmDecoder { format: 0b0000_0000_0000_0000_0000_0000_0000_0000, mask: 0b0000_1110_0000_0000_0000_0000_0000_0000, executor: ArmExecutor::DataProcessing }),
{
    [
        ArmDecoder {
            format: 0b0000_0001_0010_1111_1111_1111_0001_0000,
            mask: 0b0000_1111_1111_1111_1111_1111_1111_0000,
            executor: ArmExecutor::BranchAndBranchExchange,
        },
        ArmDecoder {
            format: 0b0000_1000_0000_0000_0000_0000_0000_0000,
            mask: 0b0000_1110_0000_0000_0000_0000_0000_0000,
            executor: ArmExecutor::BlockDataTransfer,
        },
        ArmDecoder {
            format: 0b0000_1010_0000_0000_0000_0000_0000_0000,
            mask: 0b0000_1110_0000_0000_0000_0000_0000_0000,
            executor: ArmExecutor::Branch,
        },
        ArmDecoder {
            format: 0b0000_1111_0000_0000_0000_0000_0000_0000,
            mask: 0b0000_1111_0000_0000_0000_0000_0000_0000,
            executor: ArmExecutor::SoftwareInterrupt,
        },
        ArmDecoder {
            format: 0b0000_0110_0000_0000_0000_0000_0001_0000,
            mask: 0b0000_1110_0000_0000_0000_0000_0001_0000,
            executor: ArmExecutor::Undefined,
        },
        // Swap and the multiplies come before the halfword transfers, whose
        // pattern covers theirs.
        ArmDecoder {
            format: 0b0000_0001_0000_0000_0000_0000_1001_0000,
            mask: 0b0000_1111_1000_0000_0000_1111_1111_0000,
            executor: ArmExecutor::SingleDataSwap,
        },
        ArmDecoder {
            format: 0b0000_0000_0000_0000_0000_0000_1001_0000,
            mask: 0b0000_1111_1000_0000_0000_0000_1111_0000,
            executor: ArmExecutor::Multiply,
        },
        ArmDecoder {
            format: 0b0000_0000_1000_0000_0000_0000_1001_0000,
            mask: 0b0000_1111_1000_0000_0000_0000_1111_0000,
            executor: ArmExecutor::MultiplyLong,
        },
        // LDRH/STRH immediate offset variant (I=0)
        ArmDecoder {
            format: 0b0000_0000_0000_0000_0000_0000_1001_0000,
            mask: 0b0000_1110_0100_0000_0000_0000_1001_0000,
            executor: ArmExecutor::HalfwordDataTransferImmediate,
        },
        // LDRH/STRH register offset variant (I=1)
        ArmDecoder {
            format: 0b0000_0000_0100_0000_0000_0000_1001_0000,
            mask: 0b0000_1110_0100_0000_0000_1111_1001_0000,
            executor: ArmExecutor::HalfwordDataTransferRegister,
        },
        ArmDecoder {
            format: 0b0000_0100_0000_0000_0000_0000_0000_0000,
            mask: 0b0000_1100_0000_0000_0000_0000_0000_0000,
            executor: ArmExecutor::SingleDataTransfer,
        },
        ArmDecoder {
            format: 0b0000_0001_0000_1111_0000_0000_0000_0000,
            mask: 0b0000_1111_1011_1111_0000_0000_0000_0000,
            executor: ArmExecutor::PsrTransferMrs,
        },
        ArmDecoder {
            format: 0b0000_0001_0010_0000_1111_0000_0000_0000,
            mask: 0b0000_1101_1011_0000_1111_0000_0000_0000,
            executor: ArmExecutor::PsrTransferMsr,
        },
        ArmDecoder {
            format: 0b0000_0000_0000_0000_0000_0000_0000_0000,
            mask: 0b0000_1100_0000_0000_0000_0000_0000_0000,
            executor: ArmExecutor::DataProcessing,
        },
        // Additional pattern for edge cases
        ArmDecoder {
            format: 0b0000_0000_0000_0000_0000_0000_0000_0000,
            mask: 0b0000_1110_0000_0000_0000_0000_0000_0000,
            executor: ArmExecutor::DataProcessing,
        },
    ]
}

pub fn decode_arm(opcode: u32) -> (e: ArmExecutor)
    ensures
        e == decode_arm_spec(opcode),
{
    let formats = instruction_formats();
    let mut i: usize = 0;
    while i < 15
        invariant
            0 <= i <= 15,
            formats@[0] == (ArmDecoder { format: 0b0000_0001_0010_1111_1111_1111_0001_0000, mask: 0b0000_1111_1111_1111_1111_1111_1111_0000, executor: ArmExecutor::BranchAndBranchExchange }),
            formats@[1] == (ArmDecoder { format: 0b0000_1000_0000_0000_0000_0000_0000_0000, mask: 0b0000_1110_0000_0000_0000_0000_0000_0000, executor: ArmExecutor::BlockDataTransfer }),
            formats@[2] == (ArmDecoder { format: 0b0000_1010_0000_0000_0000_0000_0000_0000, mask: 0b0000_1110_0000_0000_0000_0000_0000_0000, executor: ArmExecutor::Branch }),
            formats@[3] == (ArmDecoder { format: 0b0000_1111_0000_0000_0000_0000_0000_0000, mask: 0b0000_1111_0000_0000_0000_0000_0000_0000, executor: ArmExecutor::SoftwareInterrupt }),
            formats@[4] == (ArmDecoder { format: 0b0000_0110_0000_0000_0000_0000_0001_0000, mask: 0b0000_1110_0000_0000_0000_0000_0001_0000, executor: ArmExecutor::Undefined }),
            formats@[5] == (ArmDecoder { format: 0b0000_0001_0000_0000_0000_0000_1001_0000, mask: 0b0000_1111_1000_0000_0000_1111_1111_0000, executor: ArmExecutor::SingleDataSwap }),
            formats@[6] == (ArmDecoder { format: 0b0000_0000_0000_0000_0000_0000_1001_0000, mask: 0b0000_1111_1000_0000_0000_0000_1111_0000, executor: ArmExecutor::Multiply }),
            formats@[7] == (ArmDecoder { format: 0b0000_0000_1000_0000_0000_0000_1001_0000, mask: 0b0000_1111_1000_0000_0000_0000_1111_0000, executor: ArmExecutor::MultiplyLong }),
            formats@[8] == (ArmDecoder { format: 0b0000_0000_0000_0000_0000_0000_1001_0000, mask: 0b0000_1110_0100_0000_0000_0000_1001_0000, executor: ArmExecutor::HalfwordDataTransferImmediate }),
            formats@[9] == (ArmDecoder { format: 0b0000_0000_0100_0000_0000_0000_1001_0000, mask: 0b0000_1110_0100_0000_0000_1111_1001_0000, executor: ArmExecutor::HalfwordDataTransferRegister }),
            formats@[10] == (ArmDecoder { format: 0b0000_0100_0000_0000_0000_0000_0000_0000, mask: 0b0000_1100_0000_0000_0000_0000_0000_0000, executor: ArmExecutor::SingleDataTransfer }),
            formats@[11] == (ArmDecoder { format: 0b0000_0001_0000_1111_0000_0000_0000_0000, mask: 0b0000_1111_1011_1111_0000_0000_0000_0000, executor: ArmExecutor::PsrTransferMrs }),
            formats@[12] == (ArmDecoder { format: 0b0000_0001_0010_0000_1111_0000_0000_0000, mask: 0b0000_1101_1011_0000_1111_0000_0000_0000, executor: ArmExecutor::PsrTransferMsr }),
            formats@[13] == (ArmDecoder { format: 0b0000_0000_0000_0000_0000_0000_0000_0000, mask: 0b0000_1100_0000_0000_0000_0000_0000_0000, executor: ArmExecutor::DataProcessing }),
            formats@[14] == (ArmDecoder { format: 0b0000_0000_0000_0000_0000_0000_0000_0000, mask: 0b0000_1110_0000_0000_0000_0000_0000_0000, executor: ArmExecutor::DataProcessing }),
            forall|j: int| 0 <= j < i ==> !(opcode & #[trigger] formats@[j].mask == formats@[j].format),
        decreases 15 - i,
    {
        let format = formats[i];
        if format.matches(opcode) {
            proof {
                assert(0 < i ==> !(opcode & formats@[0].mask == formats@[0].format));
                assert(1 < i ==> !(opcode & formats@[1].mask == formats@[1].format));
                assert(2 < i ==> !(opcode & formats@[2].mask == formats@[2].format));
                assert(3 < i ==> !(opcode & formats@[3].mask == formats@[3].format));
                assert(4 < i ==> !(opcode & formats@[4].mask == formats@[4].format));
                assert(5 < i ==> !(opcode & formats@[5].mask == formats@[5].format));
                assert(6 < i ==> !(opcode & formats@[6].mask == formats@[6].format));
                assert(7 < i ==> !(opcode & formats@[7].mask == formats@[7].format));
                assert(8 < i ==> !(opcode & formats@[8].mask == formats@[8].format));
                assert(9 < i ==> !(opcode & formats@[9].mask == formats@[9].format));
                assert(10 < i ==> !(opcode & formats@[10].mask == formats@[10].format));
                assert(11 < i ==> !(opcode & formats@[11].mask == formats@[11].format));
                assert(12 < i ==> !(opcode & formats@[12].mask == formats@[12].format));
                assert(13 < i ==> !(opcode & formats@[13].mask == formats@[13].format));
                assert(14 < i ==> !(opcode & formats@[14].mask == formats@[14].format));
            }
            return format.executor;
        }
        i = i + 1;
    }
    proof {
        assert(!(opcode & formats@[0].mask == formats@[0].format));
        assert(!(opcode & formats@[1].mask == formats@[1].format));
        assert(!(opcode & formats@[2].mask == formats@[2].format));
        assert(!(opcode & formats@[3].mask == formats@[3].format));
        assert(!(opcode & formats@[4].mask == formats@[4].format));
        assert(!(opcode & formats@[5].mask == formats@[5].format));
        assert(!(opcode & formats@[6].mask == formats@[6].format));
        assert(!(opcode & formats@[7].mask == formats@[7].format));
        assert(!(opcode & formats@[8].mask == formats@[8].format));
        assert(!(opcode & formats@[9].mask == formats@[9].format));
        assert(!(opcode & formats@[10].mask == formats@[10].format));
        assert(!(opcode & formats@[11].mask == formats@[11].format));
        assert(!(opcode & formats@[12].mask == formats@[12].format));
        assert(!(opcode & formats@[13].mask == formats@[13].format));
        assert(!(opcode & formats@[14].mask == formats@[14].format));
    }
    ArmExecutor::NoOp
}

} // verus!
