//! The two records of a campaign and their layout in an account's buffer.

use crate::account::Identity;
use crate::crowdfund::error::CrowdfundError;
use crate::wire::{
    flag_byte, flag_from_bytes, flag_of, flag_to_bytes, store, stored, word_from_bytes, word_of,
    word_to_bytes,
};
use vstd::bytes::*;
use vstd::prelude::*;
use vstd::slice::slice_subrange;

verus! {

/// Length of an encoded campaign record: two flags, an address and three
/// numbers.
pub const CAMPAIGN_LEN: usize = 58;

/// Length of an encoded contributor record: one number.
pub const CONTRIBUTOR_LEN: usize = 8;

/// Where a campaign stands in its life.
#[derive(Clone, Copy, Debug, PartialEq, Eq, Structural)]
pub enum Phase {
    /// Before the deadline and not settled: contributions are taken.
    Open,
    /// From the deadline on and not settled: the owner may withdraw after a
    /// success, contributors may be refunded after a failure.
    EndedPending,
    /// Settled: the funds were paid out to the owner.
    Finalized,
}

/// A campaign, as mathematics.
pub struct Campaign {
    pub is_initialized: bool,
    pub owner: Seq<u8>,
    pub goal: u64,
    pub deadline: u64,
    pub total_raised: u64,
    pub finalized: bool,
}

impl Campaign {
    /// The bytes of the record: the fields in order, each flag as one byte,
    /// the owner as its 32 bytes, each number least significant byte first.
    pub open spec fn encode(self) -> Seq<u8> {
        seq![flag_byte(self.is_initialized)] + self.owner + spec_u64_to_le_bytes(self.goal)
            + spec_u64_to_le_bytes(self.deadline) + spec_u64_to_le_bytes(self.total_raised)
            + seq![flag_byte(self.finalized)]
    }

    /// The record that `data` holds. Only a buffer of exactly the record's
    /// length, with each flag byte 0 or 1, holds one.
    pub open spec fn decode(data: Seq<u8>) -> Option<Campaign> {
        if data.len() != CAMPAIGN_LEN {
            None
        } else {
            match (flag_of(data.subrange(0, 1)), flag_of(data.subrange(57, 58))) {
                (Some(is_initialized), Some(finalized)) => Some(
                    Campaign {
                        is_initialized,
                        owner: data.subrange(1, 33),
                        goal: spec_u64_from_le_bytes(data.subrange(33, 41)),
                        deadline: spec_u64_from_le_bytes(data.subrange(41, 49)),
                        total_raised: spec_u64_from_le_bytes(data.subrange(49, 57)),
                        finalized,
                    },
                ),
                _ => None,
            }
        }
    }

    /// Whether the goal has been met.
    pub open spec fn goal_reached(self) -> bool {
        self.total_raised >= self.goal
    }

    /// Where the campaign stands at slot `now`.
    pub open spec fn phase(self, now: u64) -> Phase {
        if self.finalized {
            Phase::Finalized
        } else if now < self.deadline {
            Phase::Open
        } else {
            Phase::EndedPending
        }
    }
}

/// The campaign record.
#[derive(Clone, Copy, Debug, PartialEq, Eq)]
pub struct CrowdfundAccount {
    /// Set once the record has been written.
    pub is_initialized: bool,
    /// The identity that may withdraw once the goal is met.
    pub owner: Identity,
    /// The least total that makes the campaign a success.
    pub goal: u64,
    /// The slot from which no contribution is accepted.
    pub deadline: u64,
    /// The sum of the accepted contributions.
    pub total_raised: u64,
    /// Set when the funds have been paid out to the owner.
    pub finalized: bool,
}

impl View for CrowdfundAccount {
    type V = Campaign;

    open spec fn view(&self) -> Campaign {
        Campaign {
            is_initialized: self.is_initialized,
            owner: self.owner@,
            goal: self.goal,
            deadline: self.deadline,
            total_raised: self.total_raised,
            finalized: self.finalized,
        }
    }
}

/// An encoded campaign has the record's length.
pub proof fn lemma_campaign_len(c: Campaign)
    requires
        c.owner.len() == 32,
    ensures
        c.encode().len() == CAMPAIGN_LEN,
{
    lemma_auto_spec_u64_to_from_le_bytes();
}

/// Decoding an encoded campaign gives the campaign back.
pub proof fn lemma_campaign_round_trip(c: Campaign)
    requires
        c.owner.len() == 32,
    ensures
        Campaign::decode(c.encode()) == Some(c),
{
    lemma_auto_spec_u64_to_from_le_bytes();
    let data = c.encode();
    assert(data.subrange(0, 1) =~= seq![flag_byte(c.is_initialized)]);
    assert(data.subrange(1, 33) =~= c.owner);
    assert(data.subrange(33, 41) =~= spec_u64_to_le_bytes(c.goal));
    assert(data.subrange(41, 49) =~= spec_u64_to_le_bytes(c.deadline));
    assert(data.subrange(49, 57) =~= spec_u64_to_le_bytes(c.total_raised));
    assert(data.subrange(57, 58) =~= seq![flag_byte(c.finalized)]);
}

/// A buffer that decodes to a campaign is that campaign's encoding: no two
/// buffers hold the same record.
pub proof fn lemma_campaign_canonical(data: Seq<u8>)
    requires
        Campaign::decode(data) is Some,
    ensures
        Campaign::decode(data).unwrap().encode() == data,
        Campaign::decode(data).unwrap().owner.len() == 32,
{
    lemma_auto_spec_u64_to_from_le_bytes();
    let c = Campaign::decode(data).unwrap();
    assert(data.subrange(0, 1) =~= seq![flag_byte(c.is_initialized)]);
    assert(data.subrange(57, 58) =~= seq![flag_byte(c.finalized)]);
    assert(spec_u64_to_le_bytes(c.goal) == data.subrange(33, 41));
    assert(spec_u64_to_le_bytes(c.deadline) == data.subrange(41, 49));
    assert(spec_u64_to_le_bytes(c.total_raised) == data.subrange(49, 57));
    assert(c.encode() =~= data.subrange(0, 1) + data.subrange(1, 33) + data.subrange(33, 41)
        + data.subrange(41, 49) + data.subrange(49, 57) + data.subrange(57, 58));
    assert(c.encode() =~= data);
}

impl CrowdfundAccount {
    /// Reads a campaign record from the bytes of an account.
    pub fn try_from_slice(data: &[u8]) -> (r: Result<CrowdfundAccount, CrowdfundError>)
        ensures
            match r {
                Ok(record) => Campaign::decode(data@) == Some(record@),
                Err(e) => e == CrowdfundError::MalformedRecord && Campaign::decode(data@) is None,
            },
    {
        if data.len() != CAMPAIGN_LEN {
            return Err(CrowdfundError::MalformedRecord);
        }
        let is_initialized = match flag_from_bytes(slice_subrange(data, 0, 1)) {
            Some(flag) => flag,
            None => { return Err(CrowdfundError::MalformedRecord); },
        };
        let finalized = match flag_from_bytes(slice_subrange(data, 57, 58)) {
            Some(flag) => flag,
            None => { return Err(CrowdfundError::MalformedRecord); },
        };
        let owner = match Identity::from_slice(slice_subrange(data, 1, 33)) {
            Some(id) => id,
            None => { return Err(CrowdfundError::MalformedRecord); },
        };
        let goal = match word_from_bytes(slice_subrange(data, 33, 41)) {
            Some(word) => word,
            None => { return Err(CrowdfundError::MalformedRecord); },
        };
        let deadline = match word_from_bytes(slice_subrange(data, 41, 49)) {
            Some(word) => word,
            None => { return Err(CrowdfundError::MalformedRecord); },
        };
        let total_raised = match word_from_bytes(slice_subrange(data, 49, 57)) {
            Some(word) => word,
            None => { return Err(CrowdfundError::MalformedRecord); },
        };
        Ok(CrowdfundAccount { is_initialized, owner, goal, deadline, total_raised, finalized })
    }

    /// The bytes of the record.
    pub fn to_vec(&self) -> (out: Vec<u8>)
        ensures
            out@ == self@.encode(),
            out@.len() == CAMPAIGN_LEN,
    {
        let mut out = flag_to_bytes(self.is_initialized);
        self.owner.append_to(&mut out);
        let mut goal = word_to_bytes(self.goal);
        out.append(&mut goal);
        let mut deadline = word_to_bytes(self.deadline);
        out.append(&mut deadline);
        let mut total_raised = word_to_bytes(self.total_raised);
        out.append(&mut total_raised);
        let mut finalized = flag_to_bytes(self.finalized);
        out.append(&mut finalized);
        proof {
            lemma_campaign_len(self@);
        }
        out
    }

    /// Writes the record over the beginning of an account's buffer, or
    /// leaves the buffer as it is when it is too short.
    pub fn serialize(&self, buffer: &mut Vec<u8>) -> (r: Result<(), CrowdfundError>)
        ensures
            match r {
                Ok(()) => old(buffer)@.len() >= CAMPAIGN_LEN && final(buffer)@ == stored(
                    old(buffer)@,
                    self@.encode(),
                ),
                Err(e) => e == CrowdfundError::BufferTooSmall && old(buffer)@.len() < CAMPAIGN_LEN
                    && *final(buffer) == *old(buffer),
            },
    {
        if buffer.len() < CAMPAIGN_LEN {
            return Err(CrowdfundError::BufferTooSmall);
        }
        let bytes = self.to_vec();
        store(buffer, bytes.as_slice());
        Ok(())
    }
}

/// What one contributor has put into a campaign.
#[derive(Clone, Copy, Debug, PartialEq, Eq, Structural)]
pub struct ContributorAccount {
    /// The sum of this contributor's accepted contributions; zero means
    /// that there is nothing to refund.
    pub amount: u64,
}

impl ContributorAccount {
    /// The bytes of the record: the amount, least significant byte first.
    pub open spec fn encode(self) -> Seq<u8> {
        spec_u64_to_le_bytes(self.amount)
    }

    /// The record that `data` holds. Only a buffer of exactly eight bytes
    /// holds one.
    pub open spec fn decode(data: Seq<u8>) -> Option<ContributorAccount> {
        match word_of(data) {
            Some(amount) => Some(ContributorAccount { amount }),
            None => None,
        }
    }

    /// The amount on record in `data`; a buffer that holds no record counts
    /// as holding none.
    pub open spec fn recorded(data: Seq<u8>) -> u64 {
        match Self::decode(data) {
            Some(record) => record.amount,
            None => 0,
        }
    }

    /// Reads a contributor record from the bytes of an account.
    pub fn try_from_slice(data: &[u8]) -> (r: Result<ContributorAccount, CrowdfundError>)
        ensures
            match r {
                Ok(record) => Self::decode(data@) == Some(record),
                Err(e) => e == CrowdfundError::MalformedRecord && Self::decode(data@) is None,
            },
    {
        match word_from_bytes(data) {
            Some(amount) => Ok(ContributorAccount { amount }),
            None => Err(CrowdfundError::MalformedRecord),
        }
    }

    /// The bytes of the record.
    pub fn to_vec(&self) -> (out: Vec<u8>)
        ensures
            out@ == self.encode(),
            out@.len() == CONTRIBUTOR_LEN,
    {
        proof {
            lemma_auto_spec_u64_to_from_le_bytes();
        }
        word_to_bytes(self.amount)
    }

    /// Writes the record over the beginning of an account's buffer, or
    /// leaves the buffer as it is when it is too short.
    pub fn serialize(&self, buffer: &mut Vec<u8>) -> (r: Result<(), CrowdfundError>)
        ensures
            match r {
                Ok(()) => old(buffer)@.len() >= CONTRIBUTOR_LEN && final(buffer)@ == stored(
                    old(buffer)@,
                    self.encode(),
                ),
                Err(e) => e == CrowdfundError::BufferTooSmall && old(buffer)@.len()
                    < CONTRIBUTOR_LEN && *final(buffer) == *old(buffer),
            },
    {
        if buffer.len() < CONTRIBUTOR_LEN {
            return Err(CrowdfundError::BufferTooSmall);
        }
        let bytes = self.to_vec();
        store(buffer, bytes.as_slice());
        Ok(())
    }
}

/// Decoding an encoded contributor record gives the record back.
pub proof fn lemma_contributor_round_trip(record: ContributorAccount)
    ensures
        record.encode().len() == CONTRIBUTOR_LEN,
        ContributorAccount::decode(record.encode()) == Some(record),
{
    lemma_auto_spec_u64_to_from_le_bytes();
}

/// A buffer that decodes to a contributor record is that record's encoding.
pub proof fn lemma_contributor_canonical(data: Seq<u8>)
    requires
        ContributorAccount::decode(data) is Some,
    ensures
        ContributorAccount::decode(data).unwrap().encode() == data,
{
    lemma_auto_spec_u64_to_from_le_bytes();
}

} // verus!
