//! The four operations on a campaign. Each one looks at the accounts it was
//! given and at the current slot, and either applies its whole effect or
//! rejects the invocation and changes nothing.

use crate::account::{
    check_transfer, transfer, transfer_fault, views, written, Account, AccountView, Identity,
};
use crate::clock::current_slot;
use crate::crowdfund::error::{fault_of, CrowdfundError};
use crate::crowdfund::instruction::CrowdfundInstruction;
use crate::crowdfund::state::{
    Campaign, ContributorAccount, CrowdfundAccount, CAMPAIGN_LEN, CONTRIBUTOR_LEN,
};
use vstd::prelude::*;

verus! {

/// The record of a campaign that has just been started.
pub open spec fn fresh_campaign(owner: Seq<u8>, goal: u64, deadline: u64) -> Campaign {
    Campaign { is_initialized: true, owner, goal, deadline, total_raised: 0, finalized: false }
}

/// Why starting a campaign is rejected, or `None` where it goes through.
/// The first reason that applies is the one reported.
pub open spec fn initialize_fault(
    program_id: Seq<u8>,
    campaign: AccountView,
    owner: AccountView,
    goal: u64,
    duration_slots: u64,
    clock: Option<u64>,
) -> Option<CrowdfundError> {
    if campaign.owner != program_id {
        Some(CrowdfundError::WrongOwner)
    } else if !owner.is_signer {
        Some(CrowdfundError::MissingAuthorization)
    } else if goal == 0 || duration_slots == 0 {
        Some(CrowdfundError::InvalidParameters)
    } else if clock is None {
        Some(CrowdfundError::TimeSourceUnavailable)
    } else if clock.unwrap() + duration_slots > u64::MAX {
        Some(CrowdfundError::ArithmeticOverflow)
    } else if campaign.data.len() < CAMPAIGN_LEN {
        Some(CrowdfundError::BufferTooSmall)
    } else {
        None
    }
}

/// The campaign account after a campaign was started in it at slot `now`.
pub open spec fn initialized(
    campaign: AccountView,
    owner: AccountView,
    goal: u64,
    duration_slots: u64,
    now: u64,
) -> AccountView {
    written(campaign, fresh_campaign(owner.key, goal, (now + duration_slots) as u64).encode())
}

/// Starts a campaign: writes a fresh record, owned by `owner`, whose
/// deadline lies `duration_slots` after the current slot. A record that the
/// account may already hold is overwritten.
pub fn initialize(
    program_id: &Identity,
    campaign: &mut Account,
    owner: &Account,
    goal: u64,
    duration_slots: u64,
    clock: Option<u64>,
) -> (r: Result<(), CrowdfundError>)
    ensures
        fault_of(r) == initialize_fault(
            program_id@,
            old(campaign)@,
            owner@,
            goal,
            duration_slots,
            clock,
        ),
        match r {
            Ok(()) => final(campaign)@ == initialized(
                old(campaign)@,
                owner@,
                goal,
                duration_slots,
                clock.unwrap(),
            ),
            Err(_) => *final(campaign) == *old(campaign),
        },
{
    if !campaign.owner.same_as(program_id) {
        return Err(CrowdfundError::WrongOwner);
    }
    if !owner.is_signer {
        return Err(CrowdfundError::MissingAuthorization);
    }
    if goal == 0 || duration_slots == 0 {
        return Err(CrowdfundError::InvalidParameters);
    }
    let now: u64 = match clock {
        Some(slot) => slot,
        None => { return Err(CrowdfundError::TimeSourceUnavailable); },
    };
    if duration_slots > u64::MAX - now {
        return Err(CrowdfundError::ArithmeticOverflow);
    }
    let record = CrowdfundAccount {
        is_initialized: true,
        owner: owner.key,
        goal,
        deadline: now + duration_slots,
        total_raised: 0,
        finalized: false,
    };
    match record.serialize(&mut campaign.data) {
        Ok(()) => Ok(()),
        Err(e) => Err(e),
    }
}

/// Why a contribution is rejected, or `None` where it goes through. The
/// first reason that applies is the one reported.
pub open spec fn contribute_fault(
    program_id: Seq<u8>,
    campaign: AccountView,
    record: AccountView,
    contributor: AccountView,
    amount: u64,
    clock: Option<u64>,
) -> Option<CrowdfundError> {
    if campaign.owner != program_id {
        Some(CrowdfundError::WrongOwner)
    } else if !contributor.is_signer {
        Some(CrowdfundError::MissingAuthorization)
    } else if amount == 0 {
        Some(CrowdfundError::InvalidParameters)
    } else {
        match Campaign::decode(campaign.data) {
            None => Some(CrowdfundError::MalformedRecord),
            Some(c) => if !c.is_initialized {
                Some(CrowdfundError::UninitializedCampaign)
            } else if clock is None {
                Some(CrowdfundError::TimeSourceUnavailable)
            } else if clock.unwrap() >= c.deadline {
                Some(CrowdfundError::CampaignEnded)
            } else if c.finalized {
                Some(CrowdfundError::AlreadyFinalized)
            } else if transfer_fault(contributor.lamports, campaign.lamports, amount) is Some {
                Some(CrowdfundError::TransferFailed)
            } else if ContributorAccount::recorded(record.data) + amount > u64::MAX {
                Some(CrowdfundError::ArithmeticOverflow)
            } else if record.owner == program_id && record.data.len() < CONTRIBUTOR_LEN {
                Some(CrowdfundError::BufferTooSmall)
            } else if c.total_raised + amount > u64::MAX {
                Some(CrowdfundError::ArithmeticOverflow)
            } else {
                None
            },
        }
    }
}

/// The campaign account after a contribution of `amount`: the amount is
/// added to its balance and to the total on record.
pub open spec fn contributed_campaign(campaign: AccountView, amount: u64) -> AccountView {
    let c = Campaign::decode(campaign.data).unwrap();
    written(
        campaign.credited(amount as nat),
        Campaign { total_raised: (c.total_raised + amount) as u64, ..c }.encode(),
    )
}

/// Whether a contribution of `amount` brings the campaign's total to its goal
/// or past it.
pub open spec fn reaches_goal(campaign: AccountView, amount: u64) -> bool {
    let c = Campaign::decode(campaign.data).unwrap();
    c.total_raised + amount >= c.goal
}

/// The contributor's record after a contribution of `amount`. Only a record
/// that this program owns is written.
pub open spec fn contributed_record(
    program_id: Seq<u8>,
    record: AccountView,
    amount: u64,
) -> AccountView {
    if record.owner == program_id {
        written(
            record,
            ContributorAccount {
                amount: (ContributorAccount::recorded(record.data) + amount) as u64,
            }.encode(),
        )
    } else {
        record
    }
}

/// Takes a contribution: moves `amount` from the contributor to the
/// campaign, and adds it to the contributor's record and to the campaign's
/// total. The movement and the two sums are one step: where a sum does not
/// fit, no value moves and no record changes. A contribution that went
/// through tells whether the goal is now met.
pub fn contribute(
    program_id: &Identity,
    campaign: &mut Account,
    record: &mut Account,
    contributor: &mut Account,
    amount: u64,
    clock: Option<u64>,
) -> (r: Result<bool, CrowdfundError>)
    ensures
        fault_of(r) == contribute_fault(
            program_id@,
            old(campaign)@,
            old(record)@,
            old(contributor)@,
            amount,
            clock,
        ),
        match r {
            Ok(goal_reached) => {
                &&& final(campaign)@ == contributed_campaign(old(campaign)@, amount)
                &&& final(record)@ == contributed_record(program_id@, old(record)@, amount)
                &&& final(contributor)@ == old(contributor)@.debited(amount as nat)
                &&& goal_reached == reaches_goal(old(campaign)@, amount)
            },
            Err(_) => {
                &&& *final(campaign) == *old(campaign)
                &&& *final(record) == *old(record)
                &&& *final(contributor) == *old(contributor)
            },
        },
{
    if !campaign.owner.same_as(program_id) {
        return Err(CrowdfundError::WrongOwner);
    }
    if !contributor.is_signer {
        return Err(CrowdfundError::MissingAuthorization);
    }
    if amount == 0 {
        return Err(CrowdfundError::InvalidParameters);
    }
    let mut state = match CrowdfundAccount::try_from_slice(campaign.data.as_slice()) {
        Ok(state) => state,
        Err(e) => { return Err(e); },
    };
    if !state.is_initialized {
        return Err(CrowdfundError::UninitializedCampaign);
    }
    let now: u64 = match clock {
        Some(slot) => slot,
        None => { return Err(CrowdfundError::TimeSourceUnavailable); },
    };
    if now >= state.deadline {
        return Err(CrowdfundError::CampaignEnded);
    }
    if state.finalized {
        return Err(CrowdfundError::AlreadyFinalized);
    }
    if check_transfer(contributor.lamports, campaign.lamports, amount).is_err() {
        return Err(CrowdfundError::TransferFailed);
    }
    let recorded: u64 = match ContributorAccount::try_from_slice(record.data.as_slice()) {
        Ok(entry) => entry.amount,
        Err(_) => 0,
    };
    if amount > u64::MAX - recorded {
        return Err(CrowdfundError::ArithmeticOverflow);
    }
    let entry = ContributorAccount { amount: recorded + amount };
    let keeps_record = record.owner.same_as(program_id);
    if keeps_record && record.data.len() < CONTRIBUTOR_LEN {
        return Err(CrowdfundError::BufferTooSmall);
    }
    if amount > u64::MAX - state.total_raised {
        return Err(CrowdfundError::ArithmeticOverflow);
    }
    state.total_raised = state.total_raised + amount;
    let moved = transfer(contributor, campaign, amount);
    assert(moved is Ok);
    if keeps_record {
        let kept = entry.serialize(&mut record.data);
        assert(kept is Ok);
    }
    let kept = state.serialize(&mut campaign.data);
    assert(kept is Ok);
    Ok(state.total_raised >= state.goal)
}

/// Why a withdrawal is rejected, or `None` where it goes through. The first
/// reason that applies is the one reported.
pub open spec fn withdraw_fault(
    program_id: Seq<u8>,
    campaign: AccountView,
    owner: AccountView,
    clock: Option<u64>,
) -> Option<CrowdfundError> {
    if campaign.owner != program_id {
        Some(CrowdfundError::WrongOwner)
    } else if !owner.is_signer {
        Some(CrowdfundError::MissingAuthorization)
    } else {
        match Campaign::decode(campaign.data) {
            None => Some(CrowdfundError::MalformedRecord),
            Some(c) => if c.owner != owner.key {
                Some(CrowdfundError::NotOwner)
            } else if clock is None {
                Some(CrowdfundError::TimeSourceUnavailable)
            } else if clock.unwrap() < c.deadline {
                Some(CrowdfundError::CampaignStillActive)
            } else if c.finalized {
                Some(CrowdfundError::AlreadyFinalized)
            } else if c.total_raised < c.goal {
                Some(CrowdfundError::GoalNotReached)
            } else if transfer_fault(campaign.lamports, owner.lamports, c.total_raised) is Some {
                Some(CrowdfundError::TransferFailed)
            } else {
                None
            },
        }
    }
}

/// The campaign account after its funds were paid out: it is marked as
/// settled and its balance is lower by the total raised.
pub open spec fn withdrawn_campaign(campaign: AccountView) -> AccountView {
    let c = Campaign::decode(campaign.data).unwrap();
    written(
        campaign.debited(c.total_raised as nat),
        Campaign { finalized: true, ..c }.encode(),
    )
}

/// The owner's account after the campaign's funds were paid out to it.
pub open spec fn withdrawn_owner(campaign: AccountView, owner: AccountView) -> AccountView {
    owner.credited(Campaign::decode(campaign.data).unwrap().total_raised as nat)
}

/// Pays the funds of a successful campaign out to its owner, once: marks
/// the campaign as settled and moves the total raised to the owner.
pub fn withdraw(
    program_id: &Identity,
    campaign: &mut Account,
    owner: &mut Account,
    clock: Option<u64>,
) -> (r: Result<(), CrowdfundError>)
    ensures
        fault_of(r) == withdraw_fault(program_id@, old(campaign)@, old(owner)@, clock),
        match r {
            Ok(()) => {
                &&& final(campaign)@ == withdrawn_campaign(old(campaign)@)
                &&& final(owner)@ == withdrawn_owner(old(campaign)@, old(owner)@)
            },
            Err(_) => {
                &&& *final(campaign) == *old(campaign)
                &&& *final(owner) == *old(owner)
            },
        },
{
    if !campaign.owner.same_as(program_id) {
        return Err(CrowdfundError::WrongOwner);
    }
    if !owner.is_signer {
        return Err(CrowdfundError::MissingAuthorization);
    }
    let mut state = match CrowdfundAccount::try_from_slice(campaign.data.as_slice()) {
        Ok(state) => state,
        Err(e) => { return Err(e); },
    };
    if !state.owner.same_as(&owner.key) {
        return Err(CrowdfundError::NotOwner);
    }
    let now: u64 = match clock {
        Some(slot) => slot,
        None => { return Err(CrowdfundError::TimeSourceUnavailable); },
    };
    if now < state.deadline {
        return Err(CrowdfundError::CampaignStillActive);
    }
    if state.finalized {
        return Err(CrowdfundError::AlreadyFinalized);
    }
    if state.total_raised < state.goal {
        return Err(CrowdfundError::GoalNotReached);
    }
    let amount: u64 = state.total_raised;
    if check_transfer(campaign.lamports, owner.lamports, amount).is_err() {
        return Err(CrowdfundError::TransferFailed);
    }
    state.finalized = true;
    let moved = transfer(campaign, owner, amount);
    assert(moved is Ok);
    let kept = state.serialize(&mut campaign.data);
    assert(kept is Ok);
    Ok(())
}

/// Why a refund is rejected, or `None` where it goes through. The first
/// reason that applies is the one reported.
pub open spec fn refund_fault(
    program_id: Seq<u8>,
    campaign: AccountView,
    record: AccountView,
    contributor: AccountView,
    clock: Option<u64>,
) -> Option<CrowdfundError> {
    if campaign.owner != program_id {
        Some(CrowdfundError::WrongOwner)
    } else if !contributor.is_signer {
        Some(CrowdfundError::MissingAuthorization)
    } else {
        match Campaign::decode(campaign.data) {
            None => Some(CrowdfundError::MalformedRecord),
            Some(c) => if clock is None {
                Some(CrowdfundError::TimeSourceUnavailable)
            } else if clock.unwrap() < c.deadline {
                Some(CrowdfundError::CampaignStillActive)
            } else if c.total_raised >= c.goal {
                Some(CrowdfundError::GoalWasReached)
            } else if record.owner != program_id {
                Some(CrowdfundError::NothingToRefund)
            } else {
                match ContributorAccount::decode(record.data) {
                    None => Some(CrowdfundError::MalformedRecord),
                    Some(entry) => if entry.amount == 0 {
                        Some(CrowdfundError::NothingToRefund)
                    } else if transfer_fault(campaign.lamports, contributor.lamports, entry.amount)
                        is Some {
                        Some(CrowdfundError::TransferFailed)
                    } else {
                        None
                    },
                }
            },
        }
    }
}

/// The contributor's record after a refund: it holds nothing.
pub open spec fn refunded_record(record: AccountView) -> AccountView {
    written(record, ContributorAccount { amount: 0 }.encode())
}

/// Pays one contribution back after the campaign failed: moves the amount
/// on record from the campaign to the contributor and sets the record to
/// zero. The campaign's record is left as it is.
pub fn refund(
    program_id: &Identity,
    campaign: &mut Account,
    record: &mut Account,
    contributor: &mut Account,
    clock: Option<u64>,
) -> (r: Result<(), CrowdfundError>)
    ensures
        fault_of(r) == refund_fault(
            program_id@,
            old(campaign)@,
            old(record)@,
            old(contributor)@,
            clock,
        ),
        match r {
            Ok(()) => {
                let amount = ContributorAccount::recorded(old(record)@.data);
                &&& final(campaign)@ == old(campaign)@.debited(amount as nat)
                &&& final(record)@ == refunded_record(old(record)@)
                &&& final(contributor)@ == old(contributor)@.credited(amount as nat)
            },
            Err(_) => {
                &&& *final(campaign) == *old(campaign)
                &&& *final(record) == *old(record)
                &&& *final(contributor) == *old(contributor)
            },
        },
{
    if !campaign.owner.same_as(program_id) {
        return Err(CrowdfundError::WrongOwner);
    }
    if !contributor.is_signer {
        return Err(CrowdfundError::MissingAuthorization);
    }
    let state = match CrowdfundAccount::try_from_slice(campaign.data.as_slice()) {
        Ok(state) => state,
        Err(e) => { return Err(e); },
    };
    let now: u64 = match clock {
        Some(slot) => slot,
        None => { return Err(CrowdfundError::TimeSourceUnavailable); },
    };
    if now < state.deadline {
        return Err(CrowdfundError::CampaignStillActive);
    }
    if state.total_raised >= state.goal {
        return Err(CrowdfundError::GoalWasReached);
    }
    if !record.owner.same_as(program_id) {
        return Err(CrowdfundError::NothingToRefund);
    }
    let mut entry = match ContributorAccount::try_from_slice(record.data.as_slice()) {
        Ok(entry) => entry,
        Err(e) => { return Err(e); },
    };
    if entry.amount == 0 {
        return Err(CrowdfundError::NothingToRefund);
    }
    let amount: u64 = entry.amount;
    if check_transfer(campaign.lamports, contributor.lamports, amount).is_err() {
        return Err(CrowdfundError::TransferFailed);
    }
    entry.amount = 0;
    let moved = transfer(campaign, contributor, amount);
    assert(moved is Ok);
    let kept = entry.serialize(&mut record.data);
    assert(kept is Ok);
    Ok(())
}

/// Why an invocation is rejected, or `None` where it goes through: the
/// bytes must hold an instruction, the list must hold the accounts that the
/// operation takes, and the operation itself must go through.
pub open spec fn process_fault(
    program_id: Seq<u8>,
    accounts: Seq<AccountView>,
    instruction_data: Seq<u8>,
    clock: Option<u64>,
) -> Option<CrowdfundError> {
    match CrowdfundInstruction::decode(instruction_data) {
        None => Some(CrowdfundError::InvalidInstruction),
        Some(instruction) => if accounts.len() < instruction.arity() {
            Some(CrowdfundError::ShapeMismatch)
        } else {
            match instruction {
                CrowdfundInstruction::Initialize { goal, duration_slots } => initialize_fault(
                    program_id,
                    accounts[0],
                    accounts[1],
                    goal,
                    duration_slots,
                    clock,
                ),
                CrowdfundInstruction::Contribute { amount } => contribute_fault(
                    program_id,
                    accounts[0],
                    accounts[1],
                    accounts[2],
                    amount,
                    clock,
                ),
                CrowdfundInstruction::Withdraw => withdraw_fault(
                    program_id,
                    accounts[0],
                    accounts[1],
                    clock,
                ),
                CrowdfundInstruction::Refund => refund_fault(
                    program_id,
                    accounts[0],
                    accounts[1],
                    accounts[2],
                    clock,
                ),
            }
        },
    }
}

/// The accounts after an invocation that went through.
pub open spec fn processed(
    program_id: Seq<u8>,
    accounts: Seq<AccountView>,
    instruction: CrowdfundInstruction,
    clock: Option<u64>,
) -> Seq<AccountView> {
    match instruction {
        CrowdfundInstruction::Initialize { goal, duration_slots } => accounts.update(
            0,
            initialized(accounts[0], accounts[1], goal, duration_slots, clock.unwrap()),
        ),
        CrowdfundInstruction::Contribute { amount } => accounts.update(
            0,
            contributed_campaign(accounts[0], amount),
        ).update(1, contributed_record(program_id, accounts[1], amount)).update(
            2,
            accounts[2].debited(amount as nat),
        ),
        CrowdfundInstruction::Withdraw => accounts.update(
            0,
            withdrawn_campaign(accounts[0]),
        ).update(1, withdrawn_owner(accounts[0], accounts[1])),
        CrowdfundInstruction::Refund => {
            let amount = ContributorAccount::recorded(accounts[1].data);
            accounts.update(0, accounts[0].debited(amount as nat)).update(
                1,
                refunded_record(accounts[1]),
            ).update(2, accounts[2].credited(amount as nat))
        },
    }
}

fn run_initialize(
    program_id: &Identity,
    accounts: &mut Vec<Account>,
    goal: u64,
    duration_slots: u64,
    clock: Option<u64>,
) -> (r: Result<(), CrowdfundError>)
    requires
        old(accounts)@.len() >= 2,
    ensures
        fault_of(r) == initialize_fault(
            program_id@,
            old(accounts)@[0]@,
            old(accounts)@[1]@,
            goal,
            duration_slots,
            clock,
        ),
        match r {
            Ok(()) => views(final(accounts)@) == views(old(accounts)@).update(
                0,
                initialized(
                    old(accounts)@[0]@,
                    old(accounts)@[1]@,
                    goal,
                    duration_slots,
                    clock.unwrap(),
                ),
            ),
            Err(_) => final(accounts)@ == old(accounts)@,
        },
{
    let owner = accounts.remove(1);
    let mut campaign = accounts.remove(0);
    let r = initialize(program_id, &mut campaign, &owner, goal, duration_slots, clock);
    accounts.insert(0, campaign);
    accounts.insert(1, owner);
    proof {
        if r is Ok {
            assert(views(accounts@) =~= views(old(accounts)@).update(0, accounts@[0]@));
        } else {
            assert(accounts@ =~= old(accounts)@);
        }
    }
    r
}

fn run_contribute(
    program_id: &Identity,
    accounts: &mut Vec<Account>,
    amount: u64,
    clock: Option<u64>,
) -> (r: Result<(), CrowdfundError>)
    requires
        old(accounts)@.len() >= 3,
    ensures
        fault_of(r) == contribute_fault(
            program_id@,
            old(accounts)@[0]@,
            old(accounts)@[1]@,
            old(accounts)@[2]@,
            amount,
            clock,
        ),
        match r {
            Ok(()) => views(final(accounts)@) == views(old(accounts)@).update(
                0,
                contributed_campaign(old(accounts)@[0]@, amount),
            ).update(1, contributed_record(program_id@, old(accounts)@[1]@, amount)).update(
                2,
                old(accounts)@[2]@.debited(amount as nat),
            ),
            Err(_) => final(accounts)@ == old(accounts)@,
        },
{
    let mut contributor = accounts.remove(2);
    let mut record = accounts.remove(1);
    let mut campaign = accounts.remove(0);
    let r = match contribute(
        program_id,
        &mut campaign,
        &mut record,
        &mut contributor,
        amount,
        clock,
    ) {
        Ok(_) => Ok(()),
        Err(e) => Err(e),
    };
    accounts.insert(0, campaign);
    accounts.insert(1, record);
    accounts.insert(2, contributor);
    proof {
        if r is Ok {
            assert(views(accounts@) =~= views(old(accounts)@).update(0, accounts@[0]@).update(
                1,
                accounts@[1]@,
            ).update(2, accounts@[2]@));
        } else {
            assert(accounts@ =~= old(accounts)@);
        }
    }
    r
}

fn run_withdraw(program_id: &Identity, accounts: &mut Vec<Account>, clock: Option<u64>) -> (r:
    Result<(), CrowdfundError>)
    requires
        old(accounts)@.len() >= 2,
    ensures
        fault_of(r) == withdraw_fault(
            program_id@,
            old(accounts)@[0]@,
            old(accounts)@[1]@,
            clock,
        ),
        match r {
            Ok(()) => views(final(accounts)@) == views(old(accounts)@).update(
                0,
                withdrawn_campaign(old(accounts)@[0]@),
            ).update(1, withdrawn_owner(old(accounts)@[0]@, old(accounts)@[1]@)),
            Err(_) => final(accounts)@ == old(accounts)@,
        },
{
    let mut owner = accounts.remove(1);
    let mut campaign = accounts.remove(0);
    let r = withdraw(program_id, &mut campaign, &mut owner, clock);
    accounts.insert(0, campaign);
    accounts.insert(1, owner);
    proof {
        if r is Ok {
            assert(views(accounts@) =~= views(old(accounts)@).update(0, accounts@[0]@).update(
                1,
                accounts@[1]@,
            ));
        } else {
            assert(accounts@ =~= old(accounts)@);
        }
    }
    r
}

fn run_refund(program_id: &Identity, accounts: &mut Vec<Account>, clock: Option<u64>) -> (r:
    Result<(), CrowdfundError>)
    requires
        old(accounts)@.len() >= 3,
    ensures
        fault_of(r) == refund_fault(
            program_id@,
            old(accounts)@[0]@,
            old(accounts)@[1]@,
            old(accounts)@[2]@,
            clock,
        ),
        match r {
            Ok(()) => {
                let amount = ContributorAccount::recorded(old(accounts)@[1]@.data);
                views(final(accounts)@) == views(old(accounts)@).update(
                    0,
                    old(accounts)@[0]@.debited(amount as nat),
                ).update(1, refunded_record(old(accounts)@[1]@)).update(
                    2,
                    old(accounts)@[2]@.credited(amount as nat),
                )
            },
            Err(_) => final(accounts)@ == old(accounts)@,
        },
{
    let mut contributor = accounts.remove(2);
    let mut record = accounts.remove(1);
    let mut campaign = accounts.remove(0);
    let r = refund(program_id, &mut campaign, &mut record, &mut contributor, clock);
    accounts.insert(0, campaign);
    accounts.insert(1, record);
    accounts.insert(2, contributor);
    proof {
        if r is Ok {
            assert(views(accounts@) =~= views(old(accounts)@).update(0, accounts@[0]@).update(
                1,
                accounts@[1]@,
            ).update(2, accounts@[2]@));
        } else {
            assert(accounts@ =~= old(accounts)@);
        }
    }
    r
}

/// Runs one invocation at a given reading of the clock: reads the
/// instruction, takes the accounts of its operation from the front of the
/// list, in the operation's order, and applies it. `clock` is the current
/// slot, or `None` where it could not be read. A rejected invocation leaves
/// every account as it was.
pub fn process_instruction_at(
    program_id: &Identity,
    accounts: &mut Vec<Account>,
    instruction_data: &[u8],
    clock: Option<u64>,
) -> (r: Result<(), CrowdfundError>)
    ensures
        fault_of(r) == process_fault(
            program_id@,
            views(old(accounts)@),
            instruction_data@,
            clock,
        ),
        match r {
            Ok(()) => views(final(accounts)@) == processed(
                program_id@,
                views(old(accounts)@),
                CrowdfundInstruction::decode(instruction_data@).unwrap(),
                clock,
            ),
            Err(_) => final(accounts)@ == old(accounts)@,
        },
{
    let instruction = match CrowdfundInstruction::try_from_slice(instruction_data) {
        Ok(instruction) => instruction,
        Err(e) => { return Err(e); },
    };
    match instruction {
        CrowdfundInstruction::Initialize { goal, duration_slots } => {
            if accounts.len() < 2 {
                return Err(CrowdfundError::ShapeMismatch);
            }
            run_initialize(program_id, accounts, goal, duration_slots, clock)
        },
        CrowdfundInstruction::Contribute { amount } => {
            if accounts.len() < 4 {
                return Err(CrowdfundError::ShapeMismatch);
            }
            run_contribute(program_id, accounts, amount, clock)
        },
        CrowdfundInstruction::Withdraw => {
            if accounts.len() < 2 {
                return Err(CrowdfundError::ShapeMismatch);
            }
            run_withdraw(program_id, accounts, clock)
        },
        CrowdfundInstruction::Refund => {
            if accounts.len() < 3 {
                return Err(CrowdfundError::ShapeMismatch);
            }
            run_refund(program_id, accounts, clock)
        },
    }
}

/// Runs one invocation at the current slot, which it asks the runtime for.
/// Whatever the clock shows, the outcome is the one that
/// `process_instruction_at` gives for that reading.
pub fn process_instruction(
    program_id: &Identity,
    accounts: &mut Vec<Account>,
    instruction_data: &[u8],
) -> (r: Result<(), CrowdfundError>)
    ensures
        exists|clock: Option<u64>|
            {
                &&& fault_of(r) == #[trigger] process_fault(
                    program_id@,
                    views(old(accounts)@),
                    instruction_data@,
                    clock,
                )
                &&& r is Ok ==> views(final(accounts)@) == processed(
                    program_id@,
                    views(old(accounts)@),
                    CrowdfundInstruction::decode(instruction_data@).unwrap(),
                    clock,
                )
            },
        r is Err ==> final(accounts)@ == old(accounts)@,
{
    let clock = current_slot();
    process_instruction_at(program_id, accounts, instruction_data, clock)
}

} // verus!
