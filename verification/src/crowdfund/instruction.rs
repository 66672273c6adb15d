//! The four operations of the crowdfunding program and their encoding: one
//! byte that names the operation, followed by its arguments.

use crate::crowdfund::error::CrowdfundError;
use crate::wire::{word_from_bytes, word_to_bytes};
use vstd::bytes::*;
use vstd::prelude::*;
use vstd::slice::slice_subrange;

verus! {

/// One operation on a campaign, with the accounts it takes, in order.
#[derive(Clone, Copy, Debug, PartialEq, Eq, Structural)]
pub enum CrowdfundInstruction {
    /// Start a campaign.
    /// Accounts: the campaign (writable), the owner (signer).
    Initialize { goal: u64, duration_slots: u64 },
    /// Put funds into the campaign.
    /// Accounts: the campaign (writable), the contributor's record
    /// (writable), the contributor (writable, signer), the transfer program.
    Contribute { amount: u64 },
    /// Pay the funds out to the owner after a success.
    /// Accounts: the campaign (writable), the owner (writable, signer).
    Withdraw,
    /// Pay a contribution back after a failure.
    /// Accounts: the campaign (writable), the contributor's record
    /// (writable), the contributor (writable, signer).
    Refund,
}

impl CrowdfundInstruction {
    /// The bytes of the instruction.
    pub open spec fn encode(self) -> Seq<u8> {
        match self {
            CrowdfundInstruction::Initialize { goal, duration_slots } => seq![0u8]
                + spec_u64_to_le_bytes(goal) + spec_u64_to_le_bytes(duration_slots),
            CrowdfundInstruction::Contribute { amount } => seq![1u8] + spec_u64_to_le_bytes(
                amount,
            ),
            CrowdfundInstruction::Withdraw => seq![2u8],
            CrowdfundInstruction::Refund => seq![3u8],
        }
    }

    /// The instruction that `data` holds. The first byte names the
    /// operation; the arguments must follow in full, and nothing after them.
    pub open spec fn decode(data: Seq<u8>) -> Option<CrowdfundInstruction> {
        if data.len() == 17 && data[0] == 0 {
            Some(
                CrowdfundInstruction::Initialize {
                    goal: spec_u64_from_le_bytes(data.subrange(1, 9)),
                    duration_slots: spec_u64_from_le_bytes(data.subrange(9, 17)),
                },
            )
        } else if data.len() == 9 && data[0] == 1 {
            Some(
                CrowdfundInstruction::Contribute {
                    amount: spec_u64_from_le_bytes(data.subrange(1, 9)),
                },
            )
        } else if data.len() == 1 && data[0] == 2 {
            Some(CrowdfundInstruction::Withdraw)
        } else if data.len() == 1 && data[0] == 3 {
            Some(CrowdfundInstruction::Refund)
        } else {
            None
        }
    }

    /// How many accounts the operation takes.
    pub open spec fn arity(self) -> nat {
        match self {
            CrowdfundInstruction::Initialize { .. } => 2,
            CrowdfundInstruction::Contribute { .. } => 4,
            CrowdfundInstruction::Withdraw => 2,
            CrowdfundInstruction::Refund => 3,
        }
    }

    /// Reads an instruction from its bytes.
    pub fn try_from_slice(data: &[u8]) -> (r: Result<CrowdfundInstruction, CrowdfundError>)
        ensures
            match r {
                Ok(instruction) => Self::decode(data@) == Some(instruction),
                Err(e) => e == CrowdfundError::InvalidInstruction && Self::decode(data@) is None,
            },
    {
        if data.len() == 0 {
            return Err(CrowdfundError::InvalidInstruction);
        }
        let tag: u8 = data[0];
        if tag == 0 && data.len() == 17 {
            let goal = word_from_bytes(slice_subrange(data, 1, 9));
            let duration_slots = word_from_bytes(slice_subrange(data, 9, 17));
            match (goal, duration_slots) {
                (Some(goal), Some(duration_slots)) => Ok(
                    CrowdfundInstruction::Initialize { goal, duration_slots },
                ),
                _ => Err(CrowdfundError::InvalidInstruction),
            }
        } else if tag == 1 && data.len() == 9 {
            match word_from_bytes(slice_subrange(data, 1, 9)) {
                Some(amount) => Ok(CrowdfundInstruction::Contribute { amount }),
                None => Err(CrowdfundError::InvalidInstruction),
            }
        } else if tag == 2 && data.len() == 1 {
            Ok(CrowdfundInstruction::Withdraw)
        } else if tag == 3 && data.len() == 1 {
            Ok(CrowdfundInstruction::Refund)
        } else {
            Err(CrowdfundError::InvalidInstruction)
        }
    }

    /// The bytes of the instruction.
    pub fn to_vec(&self) -> (out: Vec<u8>)
        ensures
            out@ == self.encode(),
    {
        let mut out: Vec<u8> = Vec::new();
        match self {
            CrowdfundInstruction::Initialize { goal, duration_slots } => {
                out.push(0u8);
                let mut first = word_to_bytes(*goal);
                out.append(&mut first);
                let mut second = word_to_bytes(*duration_slots);
                out.append(&mut second);
            },
            CrowdfundInstruction::Contribute { amount } => {
                out.push(1u8);
                let mut first = word_to_bytes(*amount);
                out.append(&mut first);
            },
            CrowdfundInstruction::Withdraw => {
                out.push(2u8);
            },
            CrowdfundInstruction::Refund => {
                out.push(3u8);
            },
        }
        assert(out@ =~= self.encode());
        out
    }
}

/// Decoding an encoded instruction gives the instruction back.
pub proof fn lemma_instruction_round_trip(instruction: CrowdfundInstruction)
    ensures
        CrowdfundInstruction::decode(instruction.encode()) == Some(instruction),
{
    lemma_auto_spec_u64_to_from_le_bytes();
    let data = instruction.encode();
    match instruction {
        CrowdfundInstruction::Initialize { goal, duration_slots } => {
            assert(data.subrange(1, 9) =~= spec_u64_to_le_bytes(goal));
            assert(data.subrange(9, 17) =~= spec_u64_to_le_bytes(duration_slots));
        },
        CrowdfundInstruction::Contribute { amount } => {
            assert(data.subrange(1, 9) =~= spec_u64_to_le_bytes(amount));
        },
        CrowdfundInstruction::Withdraw => {},
        CrowdfundInstruction::Refund => {},
    }
}

/// Bytes that decode to an instruction are that instruction's encoding.
pub proof fn lemma_instruction_canonical(data: Seq<u8>)
    requires
        CrowdfundInstruction::decode(data) is Some,
    ensures
        CrowdfundInstruction::decode(data).unwrap().encode() == data,
{
    lemma_auto_spec_u64_to_from_le_bytes();
    match CrowdfundInstruction::decode(data).unwrap() {
        CrowdfundInstruction::Initialize { goal, duration_slots } => {
            assert(spec_u64_to_le_bytes(goal) == data.subrange(1, 9));
            assert(spec_u64_to_le_bytes(duration_slots) == data.subrange(9, 17));
            assert(seq![0u8] + data.subrange(1, 9) + data.subrange(9, 17) =~= data);
        },
        CrowdfundInstruction::Contribute { amount } => {
            assert(spec_u64_to_le_bytes(amount) == data.subrange(1, 9));
            assert(seq![1u8] + data.subrange(1, 9) =~= data);
        },
        CrowdfundInstruction::Withdraw => {
            assert(seq![2u8] =~= data);
        },
        CrowdfundInstruction::Refund => {
            assert(seq![3u8] =~= data);
        },
    }
}

} // verus!
