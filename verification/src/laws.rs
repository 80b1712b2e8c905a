use vstd::prelude::*;

use crate::address::{
    contribution_seeds, derived_address, program_address, system_program_key, vault_seeds, with_bump,
};
use crate::instruction::{instruction_bytes, lemma_unpack_encoded, CrowdfundInstruction};
use crate::error::{CrowdfundError, Failure};
use crate::processor::{
    as_claimed, contribute_plan, contribution_refusal, create_campaign_plan, data_written,
    lamports_moved, new_campaign, process_plan, refund_plan, refund_refusal, with_raised, withdraw_plan,
    withdrawal_refusal, AccountState, Sysvars,
};
use crate::state::{
    campaign_bytes, campaign_of, is_campaign_encoding, is_record_encoding, lemma_campaign_roundtrip, lemma_record_roundtrip, record_bytes,
    record_of, ContributionRecord,
};

verus! {

broadcast use vstd::array::group_array_axioms;

/// A successful contribution raises the campaign's total by exactly the
/// amount, raises the donor's record by the same amount (from zero where the
/// donor had no record), and moves exactly that amount from the donor to the
/// vault, before the deadline and with the donor's signature.
pub proof fn lemma_contribution_accounting(
    program_id: [u8; 32],
    a: Seq<AccountState>,
    amount: u64,
    sys: Sysvars,
)
    requires
        contribute_plan(program_id, a, amount, sys).outcome is Ok,
    ensures
        ({
            let p = contribute_plan(program_id, a, amount, sys);
            let c = campaign_of(a[1].data@);
            let before: int = if a[3].lamports == 0 {
                0
            } else {
                record_of(a[3].data@).amount as int
            };
            &&& a[0].is_signer
            &&& sys.unix_timestamp < c.deadline
            &&& c.raised + amount <= u64::MAX
            &&& before + amount <= u64::MAX
            &&& data_written(p.effects, 1) == Some(
                campaign_bytes(with_raised(c, (c.raised + amount) as u64)),
            )
            &&& data_written(p.effects, 3) == Some(
                record_bytes(ContributionRecord { donor: a[0].key, amount: (before + amount) as u64 }),
            )
            &&& lamports_moved(p.effects, 0, 2) == amount
            &&& lamports_moved(p.effects, 2, 0) == 0
        }),
{
    reveal_with_fuel(data_written, 5);
    reveal_with_fuel(lamports_moved, 5);
    if a[3].lamports != 0 {
        let r = record_of(a[3].data@);
        assert(r.donor =~= a[0].key);
    }
}

/// A successful refund pays the donor exactly what the donor's record
/// holds, empties the record, and lowers the campaign's total by that
/// amount; it happens only after the deadline of a campaign below its goal.
pub proof fn lemma_refund_accounting(program_id: [u8; 32], a: Seq<AccountState>, sys: Sysvars)
    requires
        refund_plan(program_id, a, sys).outcome is Ok,
    ensures
        ({
            let p = refund_plan(program_id, a, sys);
            let c = campaign_of(a[1].data@);
            let r = record_of(a[3].data@);
            &&& sys.unix_timestamp >= c.deadline
            &&& c.raised < c.goal
            &&& r.donor@ == a[0].key@
            &&& a[0].is_signer
            &&& 0 < r.amount <= c.raised
            &&& data_written(p.effects, 3) == Some(
                record_bytes(ContributionRecord { donor: a[0].key, amount: 0 }),
            )
            &&& data_written(p.effects, 1) == Some(
                campaign_bytes(with_raised(c, (c.raised - r.amount) as u64)),
            )
            &&& lamports_moved(p.effects, 2, 0) == r.amount
        }),
{
    reveal_with_fuel(data_written, 5);
    reveal_with_fuel(lamports_moved, 5);
    let r = record_of(a[3].data@);
    assert(r.donor =~= a[0].key);
}

/// A successful withdrawal pays the signing creator everything in the vault
/// above its rent-exempt minimum and marks the campaign as claimed; it
/// happens only after the deadline of a campaign that reached its goal.
pub proof fn lemma_withdrawal_pays_creator(program_id: [u8; 32], a: Seq<AccountState>, sys: Sysvars)
    requires
        withdraw_plan(program_id, a, sys).outcome is Ok,
    ensures
        ({
            let p = withdraw_plan(program_id, a, sys);
            let c = campaign_of(a[1].data@);
            &&& a[0].is_signer
            &&& a[0].key@ == c.creator@
            &&& !c.claimed
            &&& sys.unix_timestamp >= c.deadline
            &&& c.raised >= c.goal
            &&& a[2].lamports > sys.vault_rent
            &&& lamports_moved(p.effects, 2, 0) == a[2].lamports - sys.vault_rent
            &&& data_written(p.effects, 1) == Some(campaign_bytes(as_claimed(c)))
        }),
{
    reveal_with_fuel(data_written, 5);
    reveal_with_fuel(lamports_moved, 5);
}

/// A created campaign belongs to its signing creator, holds the goal and
/// deadline asked for, has raised nothing and paid nothing out, takes
/// contributions at the time of its creation, and pays out nothing then.
pub proof fn lemma_new_campaign(
    program_id: [u8; 32],
    a: Seq<AccountState>,
    goal: u64,
    deadline: i64,
    sys: Sysvars,
    caller: Seq<u8>,
)
    requires
        create_campaign_plan(program_id, a, goal, deadline, sys).outcome is Ok,
    ensures
        ({
            let p = create_campaign_plan(program_id, a, goal, deadline, sys);
            let bump = derived_address(vault_seeds(a[1].key@), program_id@).unwrap().1;
            let c = new_campaign(a[0].key, goal, deadline, bump);
            &&& a[0].is_signer
            &&& goal > 0
            &&& data_written(p.effects, 1) == Some(campaign_bytes(c))
            &&& contribution_refusal(c, sys.unix_timestamp) is None
            &&& withdrawal_refusal(c, caller, sys.unix_timestamp) is Some
            &&& refund_refusal(c, sys.unix_timestamp) is Some
        }),
{
    reveal_with_fuel(data_written, 5);
}

/// Once a withdrawal succeeds, no withdrawal from the campaign it leaves
/// behind succeeds, whoever asks and whenever.
pub proof fn lemma_withdrawal_at_most_once(
    program_id: [u8; 32],
    a: Seq<AccountState>,
    sys: Sysvars,
    later: Seq<AccountState>,
    later_sys: Sysvars,
)
    requires
        withdraw_plan(program_id, a, sys).outcome is Ok,
        later.len() > 1,
        Some(later[1].data@) == data_written(withdraw_plan(program_id, a, sys).effects, 1),
    ensures
        withdraw_plan(program_id, later, later_sys).outcome is Err,
{
    reveal_with_fuel(data_written, 5);
    let c = campaign_of(a[1].data@);
    lemma_campaign_roundtrip(as_claimed(c));
}

/// Once a donor's refund succeeds, no refund from the record it leaves
/// behind succeeds.
pub proof fn lemma_refund_at_most_once(
    program_id: [u8; 32],
    a: Seq<AccountState>,
    sys: Sysvars,
    later: Seq<AccountState>,
    later_sys: Sysvars,
)
    requires
        refund_plan(program_id, a, sys).outcome is Ok,
        later.len() > 3,
        Some(later[3].data@) == data_written(refund_plan(program_id, a, sys).effects, 3),
    ensures
        refund_plan(program_id, later, later_sys).outcome is Err,
{
    reveal_with_fuel(data_written, 5);
    let r = record_of(a[3].data@);
    lemma_record_roundtrip(ContributionRecord { donor: r.donor, amount: 0 });
}

/// On one stored campaign, a withdrawal and a refund never both succeed,
/// whoever asks and whenever.
pub proof fn lemma_withdrawal_excludes_refund(
    program_id: [u8; 32],
    a: Seq<AccountState>,
    sys: Sysvars,
    b: Seq<AccountState>,
    b_sys: Sysvars,
)
    requires
        a.len() > 1,
        b.len() > 1,
        a[1].data@ == b[1].data@,
    ensures
        !(withdraw_plan(program_id, a, sys).outcome is Ok && refund_plan(program_id, b, b_sys).outcome is Ok),
{
}

/// After a successful refund, the campaign it leaves behind never pays its
/// creator.
pub proof fn lemma_refund_keeps_withdrawal_closed(
    program_id: [u8; 32],
    a: Seq<AccountState>,
    sys: Sysvars,
    later: Seq<AccountState>,
    later_sys: Sysvars,
)
    requires
        refund_plan(program_id, a, sys).outcome is Ok,
        later.len() > 1,
        Some(later[1].data@) == data_written(refund_plan(program_id, a, sys).effects, 1),
    ensures
        withdraw_plan(program_id, later, later_sys).outcome is Err,
{
    reveal_with_fuel(data_written, 5);
    let c = campaign_of(a[1].data@);
    let r = record_of(a[3].data@);
    lemma_campaign_roundtrip(with_raised(c, (c.raised - r.amount) as u64));
}

/// After a successful withdrawal, the campaign it leaves behind never
/// refunds a donor.
pub proof fn lemma_withdrawal_keeps_refunds_closed(
    program_id: [u8; 32],
    a: Seq<AccountState>,
    sys: Sysvars,
    later: Seq<AccountState>,
    later_sys: Sysvars,
)
    requires
        withdraw_plan(program_id, a, sys).outcome is Ok,
        later.len() > 1,
        Some(later[1].data@) == data_written(withdraw_plan(program_id, a, sys).effects, 1),
    ensures
        refund_plan(program_id, later, later_sys).outcome is Err,
{
    reveal_with_fuel(data_written, 5);
    let c = campaign_of(a[1].data@);
    lemma_campaign_roundtrip(as_claimed(c));
}

/// At one time, a stored campaign either takes contributions or may pay
/// out, never both.
pub proof fn lemma_contributions_exclude_payouts(
    program_id: [u8; 32],
    a: Seq<AccountState>,
    amount: u64,
    b: Seq<AccountState>,
    sys: Sysvars,
)
    requires
        a.len() > 1,
        b.len() > 1,
        a[1].data@ == b[1].data@,
        contribute_plan(program_id, a, amount, sys).outcome is Ok,
    ensures
        withdraw_plan(program_id, b, sys).outcome is Err,
        refund_plan(program_id, b, sys).outcome is Err,
{
}


/// A contribution succeeds whenever its checks pass, whatever the campaign
/// has raised against its goal: with a signing donor, the system program, an
/// amount above zero, a campaign owned by the program, a time before the
/// deadline, the derived vault and record addresses, a record that is new or
/// the donor's own with room for the amount, and room in the total. It then
/// raises the total by the amount and moves the amount from the donor to the
/// vault.
pub proof fn lemma_contribution_succeeds(
    program_id: [u8; 32],
    a: Seq<AccountState>,
    amount: u64,
    sys: Sysvars,
)
    requires
        a.len() >= 5,
        a[0].is_signer,
        a[4].key@ == system_program_key(),
        amount > 0,
        a[1].owner@ == program_id@,
        is_campaign_encoding(a[1].data@),
        sys.unix_timestamp < campaign_of(a[1].data@).deadline,
        derived_address(vault_seeds(a[1].key@), program_id@) matches Some((vault, _)) && vault == a[2].key@,
        derived_address(contribution_seeds(a[1].key@, a[0].key@), program_id@) matches Some((record, _))
            && record == a[3].key@,
        a[3].lamports != 0 ==> {
            &&& is_record_encoding(a[3].data@)
            &&& record_of(a[3].data@).donor@ == a[0].key@
            &&& record_of(a[3].data@).amount + amount <= u64::MAX
        },
        campaign_of(a[1].data@).raised + amount <= u64::MAX,
    ensures
        contribute_plan(program_id, a, amount, sys).outcome is Ok,
        data_written(contribute_plan(program_id, a, amount, sys).effects, 1) == Some(
            campaign_bytes(
                with_raised(
                    campaign_of(a[1].data@),
                    (campaign_of(a[1].data@).raised + amount) as u64,
                ),
            ),
        ),
        lamports_moved(contribute_plan(program_id, a, amount, sys).effects, 0, 2) == amount,
{
    lemma_contribution_accounting(program_id, a, amount, sys);
}

/// A withdrawal succeeds at every time from the deadline on, for the signing
/// creator of an unclaimed campaign that reached its goal, with the system
/// program and the vault at the stored bump seed's program address holding
/// more than its rent-exempt minimum. It then pays the creator everything
/// above that minimum and marks the campaign claimed.
pub proof fn lemma_withdrawal_succeeds(program_id: [u8; 32], a: Seq<AccountState>, sys: Sysvars)
    requires
        a.len() >= 4,
        a[0].is_signer,
        a[3].key@ == system_program_key(),
        a[1].owner@ == program_id@,
        is_campaign_encoding(a[1].data@),
        a[0].key@ == campaign_of(a[1].data@).creator@,
        !campaign_of(a[1].data@).claimed,
        sys.unix_timestamp >= campaign_of(a[1].data@).deadline,
        campaign_of(a[1].data@).raised >= campaign_of(a[1].data@).goal,
        program_address(with_bump(vault_seeds(a[1].key@), campaign_of(a[1].data@).vault_bump), program_id@)
            == Some(a[2].key@),
        a[2].lamports > sys.vault_rent,
    ensures
        withdraw_plan(program_id, a, sys).outcome is Ok,
        lamports_moved(withdraw_plan(program_id, a, sys).effects, 2, 0) == a[2].lamports - sys.vault_rent,
        data_written(withdraw_plan(program_id, a, sys).effects, 1) == Some(
            campaign_bytes(as_claimed(campaign_of(a[1].data@))),
        ),
{
    lemma_withdrawal_pays_creator(program_id, a, sys);
}

/// A refund succeeds at every time from the deadline on, for a campaign
/// below its goal, a signing donor whose record at the derived address holds
/// an amount above zero and within the total, the system program and the
/// vault at the stored bump seed's program address. It then pays the donor
/// the record's amount, empties the record and lowers the total by as much.
pub proof fn lemma_refund_succeeds(program_id: [u8; 32], a: Seq<AccountState>, sys: Sysvars)
    requires
        a.len() >= 5,
        a[0].is_signer,
        a[4].key@ == system_program_key(),
        a[1].owner@ == program_id@,
        is_campaign_encoding(a[1].data@),
        sys.unix_timestamp >= campaign_of(a[1].data@).deadline,
        campaign_of(a[1].data@).raised < campaign_of(a[1].data@).goal,
        program_address(with_bump(vault_seeds(a[1].key@), campaign_of(a[1].data@).vault_bump), program_id@)
            == Some(a[2].key@),
        derived_address(contribution_seeds(a[1].key@, a[0].key@), program_id@) matches Some((record, _))
            && record == a[3].key@,
        is_record_encoding(a[3].data@),
        record_of(a[3].data@).donor@ == a[0].key@,
        0 < record_of(a[3].data@).amount <= campaign_of(a[1].data@).raised,
    ensures
        refund_plan(program_id, a, sys).outcome is Ok,
        lamports_moved(refund_plan(program_id, a, sys).effects, 2, 0) == record_of(a[3].data@).amount,
        data_written(refund_plan(program_id, a, sys).effects, 1) == Some(
            campaign_bytes(
                with_raised(
                    campaign_of(a[1].data@),
                    (campaign_of(a[1].data@).raised - record_of(a[3].data@).amount) as u64,
                ),
            ),
        ),
{
    lemma_refund_accounting(program_id, a, sys);
}

/// A creation succeeds for every goal above zero and every deadline after
/// the current time, with a signing creator, the system program, a campaign
/// account without lamports or data and the derived vault address. It then
/// stores the campaign with that goal and deadline, nothing raised and not
/// claimed.
pub proof fn lemma_creation_succeeds(
    program_id: [u8; 32],
    a: Seq<AccountState>,
    goal: u64,
    deadline: i64,
    sys: Sysvars,
)
    requires
        a.len() >= 4,
        a[0].is_signer,
        a[3].key@ == system_program_key(),
        goal > 0,
        deadline > sys.unix_timestamp,
        a[1].lamports == 0,
        a[1].data@.len() == 0,
        derived_address(vault_seeds(a[1].key@), program_id@) matches Some((vault, _)) && vault == a[2].key@,
    ensures
        create_campaign_plan(program_id, a, goal, deadline, sys).outcome is Ok,
        data_written(create_campaign_plan(program_id, a, goal, deadline, sys).effects, 1) == Some(
            campaign_bytes(
                new_campaign(
                    a[0].key,
                    goal,
                    deadline,
                    derived_address(vault_seeds(a[1].key@), program_id@).unwrap().1,
                ),
            ),
        ),
{
    reveal_with_fuel(data_written, 5);
}

/// Processing an instruction's bytes, followed by anything, does what that
/// instruction does: the dispatch adds no check of its own.
pub proof fn lemma_process_dispatches(
    program_id: [u8; 32],
    a: Seq<AccountState>,
    i: CrowdfundInstruction,
    extra: Seq<u8>,
    sys: Sysvars,
)
    ensures
        process_plan(program_id, a, instruction_bytes(i) + extra, sys) == match i {
            CrowdfundInstruction::CreateCampaign { goal, deadline } => create_campaign_plan(
                program_id,
                a,
                goal,
                deadline,
                sys,
            ),
            CrowdfundInstruction::Contribute { amount } => contribute_plan(program_id, a, amount, sys),
            CrowdfundInstruction::Withdraw => withdraw_plan(program_id, a, sys),
            CrowdfundInstruction::Refund => refund_plan(program_id, a, sys),
        },
{
    lemma_unpack_encoded(i, extra);
}

/// A contribution instruction of any amount above zero whose checks pass
/// succeeds when processed from its bytes.
pub proof fn lemma_process_contribution_succeeds(
    program_id: [u8; 32],
    a: Seq<AccountState>,
    amount: u64,
    extra: Seq<u8>,
    sys: Sysvars,
)
    requires
        a.len() >= 5,
        a[0].is_signer,
        a[4].key@ == system_program_key(),
        amount > 0,
        a[1].owner@ == program_id@,
        is_campaign_encoding(a[1].data@),
        sys.unix_timestamp < campaign_of(a[1].data@).deadline,
        derived_address(vault_seeds(a[1].key@), program_id@) matches Some((vault, _)) && vault == a[2].key@,
        derived_address(contribution_seeds(a[1].key@, a[0].key@), program_id@) matches Some((record, _))
            && record == a[3].key@,
        a[3].lamports != 0 ==> {
            &&& is_record_encoding(a[3].data@)
            &&& record_of(a[3].data@).donor@ == a[0].key@
            &&& record_of(a[3].data@).amount + amount <= u64::MAX
        },
        campaign_of(a[1].data@).raised + amount <= u64::MAX,
    ensures
        process_plan(
            program_id,
            a,
            instruction_bytes(CrowdfundInstruction::Contribute { amount }) + extra,
            sys,
        ).outcome is Ok,
{
    lemma_process_dispatches(program_id, a, CrowdfundInstruction::Contribute { amount }, extra, sys);
    lemma_contribution_succeeds(program_id, a, amount, sys);
}


/// Contributions close at the deadline: from then on, a contribution that
/// gets past the signature, system program, amount, owner and data checks
/// is refused with `DeadlineHasPassed` and does nothing.
pub proof fn lemma_contribution_refused_after_deadline(
    program_id: [u8; 32],
    a: Seq<AccountState>,
    amount: u64,
    sys: Sysvars,
)
    requires
        a.len() >= 5,
        a[0].is_signer,
        a[4].key@ == system_program_key(),
        amount > 0,
        a[1].owner@ == program_id@,
        is_campaign_encoding(a[1].data@),
        sys.unix_timestamp >= campaign_of(a[1].data@).deadline,
    ensures
        contribute_plan(program_id, a, amount, sys).outcome == Err::<(), Failure>(
            Failure::Crowdfund(CrowdfundError::DeadlineHasPassed),
        ),
        contribute_plan(program_id, a, amount, sys).effects.len() == 0,
{
}

/// Before the deadline, or below the goal, nothing is withdrawn: a
/// withdrawal by the signing creator of an unclaimed campaign that gets past
/// the system program and owner checks is refused with `DeadlineNotReached`
/// before the deadline and with `GoalNotReached` below the goal, and does
/// nothing.
pub proof fn lemma_withdrawal_refused_early_or_short(program_id: [u8; 32], a: Seq<AccountState>, sys: Sysvars)
    requires
        a.len() >= 4,
        a[0].is_signer,
        a[3].key@ == system_program_key(),
        a[1].owner@ == program_id@,
        is_campaign_encoding(a[1].data@),
        a[0].key@ == campaign_of(a[1].data@).creator@,
        !campaign_of(a[1].data@).claimed,
        sys.unix_timestamp < campaign_of(a[1].data@).deadline || campaign_of(a[1].data@).raised
            < campaign_of(a[1].data@).goal,
    ensures
        withdraw_plan(program_id, a, sys).outcome == Err::<(), Failure>(
            Failure::Crowdfund(
                if sys.unix_timestamp < campaign_of(a[1].data@).deadline {
                    CrowdfundError::DeadlineNotReached
                } else {
                    CrowdfundError::GoalNotReached
                },
            ),
        ),
        withdraw_plan(program_id, a, sys).effects.len() == 0,
{
}

/// Before the deadline, or at or above the goal, nothing is refunded: a
/// refund that gets past the signature, system program and owner checks is
/// refused with `DeadlineNotReached` before the deadline and with
/// `GoalAlreadyReached` at or above the goal, and does nothing.
pub proof fn lemma_refund_refused_early_or_funded(program_id: [u8; 32], a: Seq<AccountState>, sys: Sysvars)
    requires
        a.len() >= 5,
        a[0].is_signer,
        a[4].key@ == system_program_key(),
        a[1].owner@ == program_id@,
        is_campaign_encoding(a[1].data@),
        sys.unix_timestamp < campaign_of(a[1].data@).deadline || campaign_of(a[1].data@).raised
            >= campaign_of(a[1].data@).goal,
    ensures
        refund_plan(program_id, a, sys).outcome == Err::<(), Failure>(
            Failure::Crowdfund(
                if sys.unix_timestamp < campaign_of(a[1].data@).deadline {
                    CrowdfundError::DeadlineNotReached
                } else {
                    CrowdfundError::GoalAlreadyReached
                },
            ),
        ),
        refund_plan(program_id, a, sys).effects.len() == 0,
{
}

/// A creation with a goal of zero, or a deadline not after the current
/// time, is refused and does nothing, once the signature and system program
/// checks pass.
pub proof fn lemma_creation_refused_bad_terms(
    program_id: [u8; 32],
    a: Seq<AccountState>,
    goal: u64,
    deadline: i64,
    sys: Sysvars,
)
    requires
        a.len() >= 4,
        a[0].is_signer,
        a[3].key@ == system_program_key(),
        goal == 0 || deadline <= sys.unix_timestamp,
    ensures
        create_campaign_plan(program_id, a, goal, deadline, sys).outcome == Err::<(), Failure>(
            if goal == 0 {
                Failure::InvalidArgument
            } else {
                Failure::Crowdfund(CrowdfundError::DeadlineHasPassed)
            },
        ),
        create_campaign_plan(program_id, a, goal, deadline, sys).effects.len() == 0,
{
}

} // verus!
