//! What holds of the four operations taken together: how a campaign moves
//! through its life, whatever accounts and slots it meets.

use crate::account::{transfer_fault, AccountView};
use crate::crowdfund::error::CrowdfundError;
use crate::crowdfund::processor::{
    contribute_fault, contributed_campaign, fresh_campaign, initialize_fault, initialized,
    refund_fault, refunded_record, withdraw_fault, withdrawn_campaign,
};
use crate::crowdfund::state::{
    lemma_campaign_canonical, lemma_campaign_len, lemma_campaign_round_trip,
    lemma_contributor_round_trip, Campaign, ContributorAccount, Phase, CAMPAIGN_LEN,
    CONTRIBUTOR_LEN,
};
use crate::wire::stored;
use vstd::prelude::*;

verus! {

/// A buffer of exactly the record's length holds, after a campaign was
/// written into it, that campaign and nothing else.
pub proof fn lemma_campaign_rewritten(data: Seq<u8>, c: Campaign)
    requires
        data.len() == CAMPAIGN_LEN,
        c.owner.len() == 32,
    ensures
        stored(data, c.encode()) == c.encode(),
        Campaign::decode(stored(data, c.encode())) == Some(c),
{
    lemma_campaign_len(c);
    lemma_campaign_round_trip(c);
    assert(stored(data, c.encode()) =~= c.encode());
}

/// A campaign account whose buffer has exactly the record's length holds,
/// once a campaign was started in it, a fresh record: nothing raised, not
/// settled, the deadline `duration_slots` after the slot of the start.
pub proof fn lemma_initialized_holds_fresh_campaign(
    program_id: Seq<u8>,
    campaign: AccountView,
    owner: AccountView,
    goal: u64,
    duration_slots: u64,
    start: u64,
)
    requires
        owner.well_formed(),
        campaign.data.len() == CAMPAIGN_LEN,
        initialize_fault(program_id, campaign, owner, goal, duration_slots, Some(start)) is None,
    ensures
        Campaign::decode(initialized(campaign, owner, goal, duration_slots, start).data) == Some(
            fresh_campaign(owner.key, goal, (start + duration_slots) as u64),
        ),
        initialized(campaign, owner, goal, duration_slots, start).lamports == campaign.lamports,
        initialized(campaign, owner, goal, duration_slots, start).owner == campaign.owner,
{
    lemma_campaign_rewritten(
        campaign.data,
        fresh_campaign(owner.key, goal, (start + duration_slots) as u64),
    );
}

/// A campaign that has just been started takes a first contribution made
/// before its deadline, and its total is then the amount contributed.
///
/// The campaign's buffer has exactly the record's length (a longer one
/// holds no record that can be read back), the contributor signed and can
/// pay, and the contributor's record can take the amount.
pub proof fn lemma_first_contribution(
    program_id: Seq<u8>,
    campaign: AccountView,
    owner: AccountView,
    record: AccountView,
    contributor: AccountView,
    goal: u64,
    duration_slots: u64,
    amount: u64,
    start: u64,
    now: u64,
)
    requires
        owner.well_formed(),
        campaign.data.len() == CAMPAIGN_LEN,
        initialize_fault(program_id, campaign, owner, goal, duration_slots, Some(start)) is None,
        now < start + duration_slots,
        amount > 0,
        contributor.is_signer,
        transfer_fault(contributor.lamports, campaign.lamports, amount) is None,
        ContributorAccount::recorded(record.data) + amount <= u64::MAX,
        record.owner == program_id ==> record.data.len() >= CONTRIBUTOR_LEN,
    ensures
        goal > 0 && duration_slots > 0,
        contribute_fault(
            program_id,
            initialized(campaign, owner, goal, duration_slots, start),
            record,
            contributor,
            amount,
            Some(now),
        ) is None,
        Campaign::decode(
            contributed_campaign(
                initialized(campaign, owner, goal, duration_slots, start),
                amount,
            ).data,
        ) == Some(
            Campaign {
                total_raised: amount,
                ..fresh_campaign(owner.key, goal, (start + duration_slots) as u64)
            },
        ),
{
    lemma_initialized_holds_fresh_campaign(
        program_id,
        campaign,
        owner,
        goal,
        duration_slots,
        start,
    );
    let started = initialized(campaign, owner, goal, duration_slots, start);
    let fresh = fresh_campaign(owner.key, goal, (start + duration_slots) as u64);
    lemma_campaign_rewritten(
        started.credited(amount as nat).data,
        Campaign { total_raised: amount, ..fresh },
    );
}

/// One contribution as a campaign meets it: the contributor, the
/// contributor's record, the amount and the slot.
pub struct Contribution {
    pub record: AccountView,
    pub contributor: AccountView,
    pub amount: u64,
    pub clock: Option<u64>,
}

/// The sum of the amounts of a run of contributions.
pub open spec fn total_of(steps: Seq<Contribution>) -> nat
    decreases steps.len(),
{
    if steps.len() == 0 {
        0
    } else {
        total_of(steps.drop_last()) + steps.last().amount as nat
    }
}

/// The campaign account after a run of contributions, each made to the
/// campaign as the one before it left it; `None` where one is rejected.
pub open spec fn after_contributions(
    program_id: Seq<u8>,
    campaign: AccountView,
    steps: Seq<Contribution>,
) -> Option<AccountView>
    decreases steps.len(),
{
    if steps.len() == 0 {
        Some(campaign)
    } else {
        match after_contributions(program_id, campaign, steps.drop_last()) {
            None => None,
            Some(reached) => {
                let step = steps.last();
                if contribute_fault(
                    program_id,
                    reached,
                    step.record,
                    step.contributor,
                    step.amount,
                    step.clock,
                ) is None {
                    Some(contributed_campaign(reached, step.amount))
                } else {
                    None
                }
            },
        }
    }
}

/// After any run of accepted contributions the campaign's total and its
/// balance have both grown by the sum of the amounts, and nothing else in
/// its record has changed.
pub proof fn lemma_contributions_add_up(
    program_id: Seq<u8>,
    campaign: AccountView,
    steps: Seq<Contribution>,
)
    requires
        Campaign::decode(campaign.data) is Some,
        after_contributions(program_id, campaign, steps) is Some,
    ensures
        Campaign::decode(after_contributions(program_id, campaign, steps).unwrap().data) == Some(
            Campaign {
                total_raised: (Campaign::decode(campaign.data).unwrap().total_raised + total_of(
                    steps,
                )) as u64,
                ..Campaign::decode(campaign.data).unwrap()
            },
        ),
        Campaign::decode(campaign.data).unwrap().total_raised + total_of(steps) <= u64::MAX,
        after_contributions(program_id, campaign, steps).unwrap().lamports == campaign.lamports
            + total_of(steps),
    decreases steps.len(),
{
    if steps.len() > 0 {
        lemma_contributions_add_up(program_id, campaign, steps.drop_last());
        let reached = after_contributions(program_id, campaign, steps.drop_last()).unwrap();
        let c = Campaign::decode(reached.data).unwrap();
        lemma_campaign_canonical(campaign.data);
        lemma_campaign_rewritten(
            reached.credited(steps.last().amount as nat).data,
            Campaign { total_raised: (c.total_raised + steps.last().amount) as u64, ..c },
        );
    }
}

/// A campaign that starts with an empty balance holds, after any run of
/// accepted contributions that sum to `S`, a total of `S` on record and a
/// balance of `S`.
pub proof fn lemma_fresh_campaign_holds_the_sum(
    program_id: Seq<u8>,
    campaign: AccountView,
    owner: AccountView,
    goal: u64,
    duration_slots: u64,
    start: u64,
    steps: Seq<Contribution>,
)
    requires
        owner.well_formed(),
        campaign.data.len() == CAMPAIGN_LEN,
        campaign.lamports == 0,
        initialize_fault(program_id, campaign, owner, goal, duration_slots, Some(start)) is None,
        after_contributions(
            program_id,
            initialized(campaign, owner, goal, duration_slots, start),
            steps,
        ) is Some,
    ensures
        ({
            let end = after_contributions(
                program_id,
                initialized(campaign, owner, goal, duration_slots, start),
                steps,
            ).unwrap();
            &&& Campaign::decode(end.data) is Some
            &&& Campaign::decode(end.data).unwrap().total_raised == total_of(steps)
            &&& end.lamports == total_of(steps)
        }),
{
    lemma_initialized_holds_fresh_campaign(
        program_id,
        campaign,
        owner,
        goal,
        duration_slots,
        start,
    );
    lemma_contributions_add_up(
        program_id,
        initialized(campaign, owner, goal, duration_slots, start),
        steps,
    );
}

/// No contribution is accepted from the deadline on, whatever the amount
/// and whoever makes it.
pub proof fn lemma_no_contribution_after_deadline(
    program_id: Seq<u8>,
    campaign: AccountView,
    record: AccountView,
    contributor: AccountView,
    amount: u64,
    now: u64,
)
    requires
        Campaign::decode(campaign.data) is Some,
        now >= Campaign::decode(campaign.data).unwrap().deadline,
    ensures
        contribute_fault(program_id, campaign, record, contributor, amount, Some(now)) is Some,
{
}

/// A contribution of a positive amount, signed by the contributor, to a
/// started campaign of this program is rejected from the deadline on
/// because the campaign has ended.
pub proof fn lemma_contribution_after_deadline_has_ended(
    program_id: Seq<u8>,
    campaign: AccountView,
    record: AccountView,
    contributor: AccountView,
    amount: u64,
    now: u64,
)
    requires
        campaign.owner == program_id,
        contributor.is_signer,
        amount > 0,
        Campaign::decode(campaign.data) is Some,
        Campaign::decode(campaign.data).unwrap().is_initialized,
        now >= Campaign::decode(campaign.data).unwrap().deadline,
    ensures
        contribute_fault(program_id, campaign, record, contributor, amount, Some(now)) == Some(
            CrowdfundError::CampaignEnded,
        ),
{
}

/// A contribution that would take the contributor's record or the
/// campaign's total past 64 bits is rejected as an overflow, where nothing
/// stands in its way before the sums are made.
pub proof fn lemma_contribution_overflow(
    program_id: Seq<u8>,
    campaign: AccountView,
    record: AccountView,
    contributor: AccountView,
    amount: u64,
    now: u64,
)
    requires
        campaign.owner == program_id,
        contributor.is_signer,
        amount > 0,
        Campaign::decode(campaign.data) is Some,
        Campaign::decode(campaign.data).unwrap().is_initialized,
        now < Campaign::decode(campaign.data).unwrap().deadline,
        !Campaign::decode(campaign.data).unwrap().finalized,
        transfer_fault(contributor.lamports, campaign.lamports, amount) is None,
        record.owner == program_id ==> record.data.len() >= CONTRIBUTOR_LEN,
        ContributorAccount::recorded(record.data) + amount > u64::MAX || Campaign::decode(
            campaign.data,
        ).unwrap().total_raised + amount > u64::MAX,
    ensures
        contribute_fault(program_id, campaign, record, contributor, amount, Some(now)) == Some(
            CrowdfundError::ArithmeticOverflow,
        ),
{
}

/// A withdrawal never goes through before the deadline, nor while less
/// than the goal was raised.
pub proof fn lemma_withdrawal_needs_success(
    program_id: Seq<u8>,
    campaign: AccountView,
    owner: AccountView,
    clock: Option<u64>,
)
    requires
        withdraw_fault(program_id, campaign, owner, clock) is None,
    ensures
        Campaign::decode(campaign.data) is Some,
        clock is Some,
        clock.unwrap() >= Campaign::decode(campaign.data).unwrap().deadline,
        Campaign::decode(campaign.data).unwrap().goal_reached(),
        !Campaign::decode(campaign.data).unwrap().finalized,
{
}

/// Before the deadline the owner's withdrawal is rejected because the
/// campaign is still active, also where the goal is already met.
pub proof fn lemma_withdrawal_before_deadline(
    program_id: Seq<u8>,
    campaign: AccountView,
    owner: AccountView,
    now: u64,
)
    requires
        campaign.owner == program_id,
        owner.is_signer,
        Campaign::decode(campaign.data) is Some,
        Campaign::decode(campaign.data).unwrap().owner == owner.key,
        now < Campaign::decode(campaign.data).unwrap().deadline,
    ensures
        withdraw_fault(program_id, campaign, owner, Some(now)) == Some(
            CrowdfundError::CampaignStillActive,
        ),
{
}

/// From the deadline on, the owner's withdrawal from a campaign that is not
/// settled and raised less than its goal is rejected because the goal was
/// not reached.
pub proof fn lemma_withdrawal_below_goal(
    program_id: Seq<u8>,
    campaign: AccountView,
    owner: AccountView,
    now: u64,
)
    requires
        campaign.owner == program_id,
        owner.is_signer,
        Campaign::decode(campaign.data) is Some,
        Campaign::decode(campaign.data).unwrap().owner == owner.key,
        now >= Campaign::decode(campaign.data).unwrap().deadline,
        !Campaign::decode(campaign.data).unwrap().finalized,
        !Campaign::decode(campaign.data).unwrap().goal_reached(),
    ensures
        withdraw_fault(program_id, campaign, owner, Some(now)) == Some(
            CrowdfundError::GoalNotReached,
        ),
{
}

/// A withdrawal that went through leaves the campaign settled, with the
/// rest of its record as it was.
pub proof fn lemma_withdrawal_settles(
    program_id: Seq<u8>,
    campaign: AccountView,
    owner: AccountView,
    clock: Option<u64>,
)
    requires
        withdraw_fault(program_id, campaign, owner, clock) is None,
    ensures
        Campaign::decode(withdrawn_campaign(campaign).data) == Some(
            Campaign { finalized: true, ..Campaign::decode(campaign.data).unwrap() },
        ),
        withdrawn_campaign(campaign).owner == campaign.owner,
{
    let c = Campaign::decode(campaign.data).unwrap();
    lemma_campaign_canonical(campaign.data);
    lemma_campaign_rewritten(
        campaign.debited(c.total_raised as nat).data,
        Campaign { finalized: true, ..c },
    );
}

/// A campaign pays out at most once: after a withdrawal that went through,
/// no withdrawal goes through again, and the owner's next one, at any later
/// slot, is rejected because the campaign is settled.
pub proof fn lemma_withdrawal_happens_once(
    program_id: Seq<u8>,
    campaign: AccountView,
    owner: AccountView,
    clock: Option<u64>,
    next_owner: AccountView,
    next_clock: Option<u64>,
)
    requires
        withdraw_fault(program_id, campaign, owner, clock) is None,
    ensures
        withdraw_fault(program_id, withdrawn_campaign(campaign), next_owner, next_clock) is Some,
        next_owner.is_signer && next_owner.key == owner.key && next_clock is Some
            && next_clock.unwrap() >= clock.unwrap() ==> withdraw_fault(
            program_id,
            withdrawn_campaign(campaign),
            next_owner,
            next_clock,
        ) == Some(CrowdfundError::AlreadyFinalized),
{
    lemma_withdrawal_settles(program_id, campaign, owner, clock);
}

/// Where a withdrawal goes through, no refund does: the two ways of
/// settling a campaign exclude each other.
pub proof fn lemma_withdrawal_excludes_refund(
    program_id: Seq<u8>,
    campaign: AccountView,
    owner: AccountView,
    record: AccountView,
    contributor: AccountView,
    clock: Option<u64>,
    refund_clock: Option<u64>,
)
    requires
        withdraw_fault(program_id, campaign, owner, clock) is None,
    ensures
        refund_fault(program_id, campaign, record, contributor, refund_clock) is Some,
        refund_fault(
            program_id,
            withdrawn_campaign(campaign),
            record,
            contributor,
            refund_clock,
        ) is Some,
        contributor.is_signer && refund_clock is Some && refund_clock.unwrap() >= clock.unwrap()
            ==> refund_fault(
            program_id,
            withdrawn_campaign(campaign),
            record,
            contributor,
            refund_clock,
        ) == Some(CrowdfundError::GoalWasReached),
{
    lemma_withdrawal_settles(program_id, campaign, owner, clock);
}

/// A record that holds nothing is never refunded.
pub proof fn lemma_no_refund_of_nothing(
    program_id: Seq<u8>,
    campaign: AccountView,
    record: AccountView,
    contributor: AccountView,
    clock: Option<u64>,
)
    requires
        ContributorAccount::recorded(record.data) == 0,
    ensures
        refund_fault(program_id, campaign, record, contributor, clock) is Some,
{
}

/// From the deadline on, the refund of a record of this program that holds
/// an amount of zero, asked for by a contributor who signed, from a
/// campaign that failed, is rejected because there is nothing to refund.
pub proof fn lemma_refund_of_empty_record(
    program_id: Seq<u8>,
    campaign: AccountView,
    record: AccountView,
    contributor: AccountView,
    now: u64,
)
    requires
        campaign.owner == program_id,
        contributor.is_signer,
        Campaign::decode(campaign.data) is Some,
        now >= Campaign::decode(campaign.data).unwrap().deadline,
        !Campaign::decode(campaign.data).unwrap().goal_reached(),
        record.owner == program_id,
        ContributorAccount::decode(record.data) == Some(ContributorAccount { amount: 0 }),
    ensures
        refund_fault(program_id, campaign, record, contributor, Some(now)) == Some(
            CrowdfundError::NothingToRefund,
        ),
{
}

/// A record is refunded at most once: after a refund that went through, no
/// refund of the same record goes through again, whoever asks and whenever,
/// and the same contributor's next one, at any later slot, is rejected
/// because there is nothing to refund.
pub proof fn lemma_refund_happens_once(
    program_id: Seq<u8>,
    campaign: AccountView,
    record: AccountView,
    contributor: AccountView,
    clock: Option<u64>,
    next_campaign: AccountView,
    next_contributor: AccountView,
    next_clock: Option<u64>,
)
    requires
        refund_fault(program_id, campaign, record, contributor, clock) is None,
    ensures
        refund_fault(
            program_id,
            next_campaign,
            refunded_record(record),
            next_contributor,
            next_clock,
        ) is Some,
        next_campaign.owner == campaign.owner && next_campaign.data == campaign.data
            && next_contributor.is_signer && next_clock is Some && next_clock.unwrap()
            >= clock.unwrap() ==> refund_fault(
            program_id,
            next_campaign,
            refunded_record(record),
            next_contributor,
            next_clock,
        ) == Some(CrowdfundError::NothingToRefund),
{
    let empty = ContributorAccount { amount: 0 };
    lemma_contributor_round_trip(empty);
    assert(record.data.len() == CONTRIBUTOR_LEN);
    assert(stored(record.data, empty.encode()) =~= empty.encode());
}

/// Contributions are taken only while the campaign is open, and leave it
/// open.
pub proof fn lemma_contribution_needs_open_campaign(
    program_id: Seq<u8>,
    campaign: AccountView,
    record: AccountView,
    contributor: AccountView,
    amount: u64,
    clock: Option<u64>,
)
    requires
        contribute_fault(program_id, campaign, record, contributor, amount, clock) is None,
    ensures
        clock is Some,
        Campaign::decode(campaign.data).unwrap().phase(clock.unwrap()) == Phase::Open,
        Campaign::decode(contributed_campaign(campaign, amount).data).unwrap().phase(
            clock.unwrap(),
        ) == Phase::Open,
{
    let c = Campaign::decode(campaign.data).unwrap();
    lemma_campaign_canonical(campaign.data);
    lemma_campaign_rewritten(
        campaign.credited(amount as nat).data,
        Campaign { total_raised: (c.total_raised + amount) as u64, ..c },
    );
}

/// A withdrawal goes through only once the campaign has ended and is not
/// yet settled, and leaves it settled for good.
pub proof fn lemma_withdrawal_ends_the_campaign(
    program_id: Seq<u8>,
    campaign: AccountView,
    owner: AccountView,
    clock: Option<u64>,
    later: u64,
)
    requires
        withdraw_fault(program_id, campaign, owner, clock) is None,
    ensures
        clock is Some,
        Campaign::decode(campaign.data).unwrap().phase(clock.unwrap()) == Phase::EndedPending,
        Campaign::decode(withdrawn_campaign(campaign).data).unwrap().phase(later)
            == Phase::Finalized,
{
    lemma_withdrawal_settles(program_id, campaign, owner, clock);
}

/// A refund goes through only once the campaign has ended short of its
/// goal.
pub proof fn lemma_refund_needs_failed_campaign(
    program_id: Seq<u8>,
    campaign: AccountView,
    record: AccountView,
    contributor: AccountView,
    clock: Option<u64>,
)
    requires
        refund_fault(program_id, campaign, record, contributor, clock) is None,
    ensures
        clock is Some,
        Campaign::decode(campaign.data).unwrap().phase(clock.unwrap()) != Phase::Open,
        !Campaign::decode(campaign.data).unwrap().goal_reached(),
        ContributorAccount::recorded(record.data) > 0,
{
}

} // verus!
