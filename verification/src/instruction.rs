use vstd::prelude::*;
use vstd::bytes::{
    lemma_auto_spec_u64_to_from_le_bytes, spec_u64_from_le_bytes, spec_u64_to_le_bytes,
    u64_from_le_bytes,
};
use vstd::slice::slice_subrange;

use crate::error::ProcessError;

verus! {

/// All instructions the program accepts.
#[derive(Debug, Clone, Copy, PartialEq, Eq, Structural)]
pub enum CrowdfundInstruction {
    /// create a new campaign with a goal and deadline
    CreateCampaign { goal: u64, deadline: i64 },
    /// contribute lamports to a campaign
    Contribute { amount: u64 },
    /// creator withdraws funds after successful campaign
    Withdraw,
    /// donor reclaims funds from a failed campaign
    Refund,
}

/// The signed 64-bit integer whose two's-complement little-endian bytes are `s`.
pub open spec fn spec_i64_from_le_bytes(s: Seq<u8>) -> i64 {
    spec_u64_from_le_bytes(s) as i64
}

/// The two's-complement little-endian bytes of `x`.
pub open spec fn spec_i64_to_le_bytes(x: i64) -> Seq<u8> {
    spec_u64_to_le_bytes(x as u64)
}

/// What an instruction's bytes mean: byte 0 selects the instruction, the
/// payload follows in little-endian order (goal then deadline; amount), and
/// bytes after the payload are ignored. `None` where the bytes are refused.
pub open spec fn instruction_from_bytes(input: Seq<u8>) -> Option<CrowdfundInstruction> {
    if input.len() == 0 {
        None
    } else if input[0] == 0 {
        if input.len() < 17 {
            None
        } else {
            Some(
                CrowdfundInstruction::CreateCampaign {
                    goal: spec_u64_from_le_bytes(input.subrange(1, 9)),
                    deadline: spec_i64_from_le_bytes(input.subrange(9, 17)),
                },
            )
        }
    } else if input[0] == 1 {
        if input.len() < 9 {
            None
        } else {
            Some(CrowdfundInstruction::Contribute { amount: spec_u64_from_le_bytes(input.subrange(1, 9)) })
        }
    } else if input[0] == 2 {
        Some(CrowdfundInstruction::Withdraw)
    } else if input[0] == 3 {
        Some(CrowdfundInstruction::Refund)
    } else {
        None
    }
}

/// The shortest bytes that encode an instruction.
pub open spec fn instruction_bytes(i: CrowdfundInstruction) -> Seq<u8> {
    match i {
        CrowdfundInstruction::CreateCampaign { goal, deadline } => seq![0u8] + spec_u64_to_le_bytes(goal)
            + spec_i64_to_le_bytes(deadline),
        CrowdfundInstruction::Contribute { amount } => seq![1u8] + spec_u64_to_le_bytes(amount),
        CrowdfundInstruction::Withdraw => seq![2u8],
        CrowdfundInstruction::Refund => seq![3u8],
    }
}

/// Reading back the bytes of a signed value gives the value.
pub proof fn lemma_i64_le_bytes_roundtrip(x: i64)
    ensures
        spec_i64_to_le_bytes(x).len() == 8,
        spec_i64_from_le_bytes(spec_i64_to_le_bytes(x)) == x,
{
    lemma_auto_spec_u64_to_from_le_bytes();
    let u = x as u64;
    assert(spec_u64_from_le_bytes(spec_u64_to_le_bytes(u)) == u);
    assert((u as i64) == x) by (bit_vector)
        requires
            u == x as u64,
    ;
}

/// Any eight bytes are the bytes of the signed value they encode.
pub proof fn lemma_i64_bytes_canonical(s: Seq<u8>)
    requires
        s.len() == 8,
    ensures
        spec_i64_to_le_bytes(spec_i64_from_le_bytes(s)) == s,
{
    lemma_auto_spec_u64_to_from_le_bytes();
    let u = spec_u64_from_le_bytes(s);
    assert(((u as i64) as u64) == u) by (bit_vector);
    assert(spec_u64_to_le_bytes(u) == s);
}

impl CrowdfundInstruction {
    /// Parses instruction bytes: byte 0 is the discriminant, the remaining
    /// bytes are the payload.
    pub fn unpack(input: &[u8]) -> (res: Result<CrowdfundInstruction, ProcessError>)
        ensures
            match instruction_from_bytes(input@) {
                Some(i) => res == Ok::<CrowdfundInstruction, ProcessError>(i),
                None => res == Err::<CrowdfundInstruction, ProcessError>(
                    ProcessError::InvalidInstructionData,
                ),
            },
    {
        if input.len() == 0 {
            return Err(ProcessError::InvalidInstructionData);
        }
        let discriminant = input[0];
        if discriminant == 0 {
            // goal (8 bytes le) + deadline (8 bytes le)
            if input.len() < 17 {
                return Err(ProcessError::InvalidInstructionData);
            }
            let goal = u64_from_le_bytes(slice_subrange(input, 1, 9));
            let deadline_bits = u64_from_le_bytes(slice_subrange(input, 9, 17));
            let deadline = deadline_bits as i64;
            Ok(CrowdfundInstruction::CreateCampaign { goal, deadline })
        } else if discriminant == 1 {
            // amount (8 bytes le)
            if input.len() < 9 {
                return Err(ProcessError::InvalidInstructionData);
            }
            let amount = u64_from_le_bytes(slice_subrange(input, 1, 9));
            Ok(CrowdfundInstruction::Contribute { amount })
        } else if discriminant == 2 {
            Ok(CrowdfundInstruction::Withdraw)
        } else if discriminant == 3 {
            Ok(CrowdfundInstruction::Refund)
        } else {
            Err(ProcessError::InvalidInstructionData)
        }
    }
}

/// Every instruction's bytes, followed by anything, decode to that
/// instruction.
pub proof fn lemma_unpack_encoded(i: CrowdfundInstruction, extra: Seq<u8>)
    ensures
        instruction_from_bytes(instruction_bytes(i) + extra) == Some(i),
{
    lemma_auto_spec_u64_to_from_le_bytes();
    let b = instruction_bytes(i) + extra;
    match i {
        CrowdfundInstruction::CreateCampaign { goal, deadline } => {
            lemma_i64_le_bytes_roundtrip(deadline);
            assert(b.subrange(1, 9) =~= spec_u64_to_le_bytes(goal));
            assert(b.subrange(9, 17) =~= spec_i64_to_le_bytes(deadline));
        },
        CrowdfundInstruction::Contribute { amount } => {
            assert(b.subrange(1, 9) =~= spec_u64_to_le_bytes(amount));
        },
        _ => {},
    }
}

/// Every accepted input is the bytes of the instruction it decodes to,
/// followed by bytes that are ignored.
pub proof fn lemma_unpack_accepts_only_encodings(input: Seq<u8>)
    requires
        instruction_from_bytes(input) is Some,
    ensures
        ({
            let i = instruction_from_bytes(input).unwrap();
            let n = instruction_bytes(i).len() as int;
            n <= input.len() && input.subrange(0, n) == instruction_bytes(i)
        }),
{
    lemma_auto_spec_u64_to_from_le_bytes();
    let i = instruction_from_bytes(input).unwrap();
    match i {
        CrowdfundInstruction::CreateCampaign { goal, deadline } => {
            lemma_i64_bytes_canonical(input.subrange(9, 17));
            assert(spec_u64_to_le_bytes(goal) == input.subrange(1, 9));
            assert(input.subrange(0, 17) =~= instruction_bytes(i));
        },
        CrowdfundInstruction::Contribute { amount } => {
            assert(spec_u64_to_le_bytes(amount) == input.subrange(1, 9));
            assert(input.subrange(0, 9) =~= instruction_bytes(i));
        },
        _ => {
            assert(input.subrange(0, 1) =~= instruction_bytes(i));
        },
    }
}

} // verus!
