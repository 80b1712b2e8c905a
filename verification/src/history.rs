//! What holds of a campaign across any sequence of instructions.
//!
//! Between instructions, the runtime keeps each account's data under its key.
//! An instruction reads the accounts it names as they are stored, and an
//! account with no lamports holds no data (the runtime removes it). A
//! successful instruction leaves each account it writes holding the data last
//! written to it; a failed one changes nothing.
use vstd::prelude::*;

use crate::address::{contribution_seeds, derived_address};
use crate::instruction::{instruction_from_bytes, CrowdfundInstruction};
use crate::laws::{lemma_contribution_accounting, lemma_refund_accounting, lemma_withdrawal_pays_creator};
use crate::processor::{
    as_claimed, data_written, process_plan, with_raised, AccountState, EffectSpec, PlanSpec,
    Sysvars,
};
use crate::state::{
    campaign_bytes, campaign_of, is_campaign_encoding, is_record_encoding, record_of,
    lemma_campaign_bytes_shape, lemma_campaign_roundtrip, lemma_record_bytes_shape, Campaign,
};

verus! {

/// One instruction as the runtime runs it: the accounts it names, the
/// runtime values it reads and its bytes.
pub struct Call {
    pub accounts: Seq<AccountState>,
    pub sys: Sysvars,
    pub data: Seq<u8>,
}

/// What the program does with a call.
pub open spec fn call_plan(program_id: [u8; 32], call: Call) -> PlanSpec {
    process_plan(program_id, call.accounts, call.data, call.sys)
}

/// The data that the effects write last into the account with the key, if
/// they write any.
pub open spec fn written_to(effects: Seq<EffectSpec>, accounts: Seq<AccountState>, key: Seq<u8>) -> Option<Seq<u8>>
    decreases effects.len(),
{
    if effects.len() == 0 {
        None
    } else {
        match effects.last() {
            EffectSpec::WriteData { account, data } => if accounts[account as int].key@ == key {
                Some(data)
            } else {
                written_to(effects.drop_last(), accounts, key)
            },
            _ => written_to(effects.drop_last(), accounts, key),
        }
    }
}

/// The call reads the accounts it names as the store holds them, and an
/// account without lamports holds no data.
pub open spec fn reads(call: Call, store: spec_fn(Seq<u8>) -> Seq<u8>) -> bool {
    forall|i: int|
        0 <= i < call.accounts.len() ==> {
            &&& (#[trigger] call.accounts[i]).data@ == store(call.accounts[i].key@)
            &&& call.accounts[i].lamports == 0 ==> call.accounts[i].data@.len() == 0
        }
}

/// The store after the call.
pub open spec fn after(program_id: [u8; 32], call: Call, store: spec_fn(Seq<u8>) -> Seq<u8>) -> spec_fn(
    Seq<u8>,
) -> Seq<u8> {
    |key: Seq<u8>|
        {
            let p = call_plan(program_id, call);
            if p.outcome is Ok && written_to(p.effects, call.accounts, key) is Some {
                written_to(p.effects, call.accounts, key).unwrap()
            } else {
                store(key)
            }
        }
}

/// The store after the calls, in order.
pub open spec fn run(program_id: [u8; 32], calls: Seq<Call>, store: spec_fn(Seq<u8>) -> Seq<u8>) -> spec_fn(
    Seq<u8>,
) -> Seq<u8>
    decreases calls.len(),
{
    if calls.len() == 0 {
        store
    } else {
        after(program_id, calls.last(), run(program_id, calls.drop_last(), store))
    }
}

/// Each call reads the store that the calls before it leave.
pub open spec fn runs_on(program_id: [u8; 32], calls: Seq<Call>, store: spec_fn(Seq<u8>) -> Seq<u8>) -> bool
    decreases calls.len(),
{
    calls.len() == 0 || (runs_on(program_id, calls.drop_last(), store) && reads(
        calls.last(),
        run(program_id, calls.drop_last(), store),
    ))
}

/// Every call runs at time `t` or later.
pub open spec fn all_from(calls: Seq<Call>, t: i64) -> bool {
    forall|j: int| 0 <= j < calls.len() ==> (#[trigger] calls[j]).sys.unix_timestamp >= t
}

/// The call is a contribution or a refund: it names a donor's record.
pub open spec fn is_donor_call(data: Seq<u8>) -> bool {
    match instruction_from_bytes(data) {
        Some(CrowdfundInstruction::Contribute { .. }) => true,
        Some(CrowdfundInstruction::Refund) => true,
        _ => false,
    }
}

/// Campaign data has 58 bytes, record data 40.
pub proof fn lemma_encoding_lengths(b: Seq<u8>)
    ensures
        is_campaign_encoding(b) ==> b.len() == 58,
        is_record_encoding(b) ==> b.len() == 40,
{
    if is_campaign_encoding(b) {
        let c = choose|c: Campaign| campaign_bytes(c) == b;
        lemma_campaign_bytes_shape(c);
    }
    if is_record_encoding(b) {
        let r = choose|r: crate::state::ContributionRecord| crate::state::record_bytes(r) == b;
        lemma_record_bytes_shape(r);
    }
}

/// A successful call writes the campaign account (the second it names) and,
/// for a contribution or refund, the donor's record (the fourth), and no
/// other account.
pub proof fn lemma_ok_writes(program_id: [u8; 32], call: Call, key: Seq<u8>)
    requires
        call_plan(program_id, call).outcome is Ok,
    ensures
        call.accounts.len() >= 4,
        is_donor_call(call.data) ==> call.accounts.len() >= 5,
        written_to(call_plan(program_id, call).effects, call.accounts, key) == if key
            == call.accounts[1].key@ {
            data_written(call_plan(program_id, call).effects, 1)
        } else if is_donor_call(call.data) && key == call.accounts[3].key@ {
            data_written(call_plan(program_id, call).effects, 3)
        } else {
            None
        },
{
    reveal_with_fuel(written_to, 5);
    reveal_with_fuel(data_written, 5);
}


/// The campaign that a successful call naming it as its campaign account
/// leaves: a contribution adds its amount, a withdrawal marks it claimed, a
/// refund takes off the donor's recorded amount.
pub open spec fn campaign_after(call: Call, c: Campaign) -> Campaign {
    match instruction_from_bytes(call.data) {
        Some(CrowdfundInstruction::Contribute { amount }) => with_raised(c, (c.raised + amount) as u64),
        Some(CrowdfundInstruction::Withdraw) => as_claimed(c),
        Some(CrowdfundInstruction::Refund) => with_raised(
            c,
            (c.raised - crate::state::record_of(call.accounts[3].data@).amount) as u64,
        ),
        _ => c,
    }
}

/// A stored campaign stays a campaign through any call: only a successful
/// call that names it as its campaign account changes it, and then to
/// `campaign_after`; its creator, goal, deadline and bump seed never change,
/// and once claimed it stays claimed.
pub proof fn lemma_step_keeps_campaign(
    program_id: [u8; 32],
    call: Call,
    store: spec_fn(Seq<u8>) -> Seq<u8>,
    key: Seq<u8>,
)
    requires
        reads(call, store),
        is_campaign_encoding(store(key)),
    ensures
        ({
            let s2 = after(program_id, call, store);
            let c = campaign_of(store(key));
            let c2 = campaign_of(s2(key));
            &&& is_campaign_encoding(s2(key))
            &&& if call_plan(program_id, call).outcome is Ok && call.accounts.len() > 1
                && call.accounts[1].key@ == key {
                s2(key) == campaign_bytes(campaign_after(call, c))
            } else {
                s2(key) == store(key)
            }
            &&& c2.creator == c.creator
            &&& c2.goal == c.goal
            &&& c2.deadline == c.deadline
            &&& c2.vault_bump == c.vault_bump
            &&& c.claimed ==> c2.claimed
        }),
{
    let p = call_plan(program_id, call);
    let a = call.accounts;
    let c = campaign_of(store(key));
    lemma_encoding_lengths(store(key));
    if p.outcome is Ok {
        lemma_ok_writes(program_id, call, key);
        assert(a[1].data@ == store(a[1].key@));
        assert(a[3].data@ == store(a[3].key@));
        assert(a[3].lamports == 0 ==> a[3].data@.len() == 0);
        if a[1].key@ == key {
            lemma_encoding_lengths(a[1].data@);
            match instruction_from_bytes(call.data) {
                Some(CrowdfundInstruction::Contribute { amount }) => {
                    lemma_contribution_accounting(program_id, a, amount, call.sys);
                },
                Some(CrowdfundInstruction::Withdraw) => {
                    lemma_withdrawal_pays_creator(program_id, a, call.sys);
                },
                Some(CrowdfundInstruction::Refund) => {
                    lemma_refund_accounting(program_id, a, call.sys);
                },
                _ => {},
            }
            lemma_campaign_roundtrip(campaign_after(call, c));
        } else if is_donor_call(call.data) && key == a[3].key@ {
            lemma_encoding_lengths(a[3].data@);
            assert(false);
        }
    }
}

/// Through any sequence of calls, a stored campaign stays a campaign with
/// the same creator, goal, deadline and bump seed, and a claimed campaign
/// stays claimed.
pub proof fn lemma_history_keeps_campaign(
    program_id: [u8; 32],
    calls: Seq<Call>,
    store: spec_fn(Seq<u8>) -> Seq<u8>,
    key: Seq<u8>,
)
    requires
        runs_on(program_id, calls, store),
        is_campaign_encoding(store(key)),
    ensures
        ({
            let s2 = run(program_id, calls, store);
            let c = campaign_of(store(key));
            let c2 = campaign_of(s2(key));
            &&& is_campaign_encoding(s2(key))
            &&& c2.creator == c.creator
            &&& c2.goal == c.goal
            &&& c2.deadline == c.deadline
            &&& c2.vault_bump == c.vault_bump
            &&& c.claimed ==> c2.claimed
        }),
    decreases calls.len(),
{
    if calls.len() > 0 {
        lemma_history_keeps_campaign(program_id, calls.drop_last(), store, key);
        lemma_step_keeps_campaign(program_id, calls.last(), run(program_id, calls.drop_last(), store), key);
    }
}


/// The address of a donor's record in a campaign, where the runtime finds
/// one.
pub open spec fn record_key(program_id: Seq<u8>, campaign: Seq<u8>, donor: Seq<u8>) -> Option<Seq<u8>> {
    match derived_address(contribution_seeds(campaign, donor), program_id) {
        Some((key, _)) => Some(key),
        None => None,
    }
}

/// No other campaign and donor share the donor's record address in the
/// campaign.
pub open spec fn record_key_unique(program_id: Seq<u8>, campaign: Seq<u8>, donor: Seq<u8>) -> bool {
    forall|c: Seq<u8>, e: Seq<u8>|
        #[trigger] record_key(program_id, c, e) is Some && record_key(program_id, c, e) == record_key(
            program_id,
            campaign,
            donor,
        ) ==> c == campaign && e == donor
}

/// A successful contribution or refund names, as its fourth account, the
/// record of its donor (its first account) in its campaign (its second).
pub proof fn lemma_donor_call_names_record(program_id: [u8; 32], call: Call)
    requires
        call_plan(program_id, call).outcome is Ok,
        is_donor_call(call.data),
    ensures
        call.accounts.len() >= 5,
        record_key(program_id@, call.accounts[1].key@, call.accounts[0].key@) == Some(
            call.accounts[3].key@,
        ),
{
}

/// Once created, a campaign account is never created again: through any
/// later calls, a creation that names it fails and does nothing, and where
/// it gets past the signature, system program, goal and deadline checks it
/// answers `AccountAlreadyInitialized`.
pub proof fn lemma_campaign_never_reinitialized(
    program_id: [u8; 32],
    create: Call,
    store: spec_fn(Seq<u8>) -> Seq<u8>,
    calls: Seq<Call>,
    later: Call,
)
    requires
        reads(create, store),
        instruction_from_bytes(create.data) matches Some(CrowdfundInstruction::CreateCampaign { .. }),
        call_plan(program_id, create).outcome is Ok,
        runs_on(program_id, calls, after(program_id, create, store)),
        reads(later, run(program_id, calls, after(program_id, create, store))),
        instruction_from_bytes(later.data) matches Some(CrowdfundInstruction::CreateCampaign { goal, deadline }),
        later.accounts.len() > 1,
        later.accounts[1].key@ == create.accounts[1].key@,
    ensures
        call_plan(program_id, later).outcome is Err,
        call_plan(program_id, later).effects.len() == 0,
        ({
            let a = later.accounts;
            let (goal, deadline) = match instruction_from_bytes(later.data) {
                Some(CrowdfundInstruction::CreateCampaign { goal, deadline }) => (goal, deadline),
                _ => (0u64, 0i64),
            };
            (a.len() >= 4 && a[0].is_signer && a[3].key@ == crate::address::system_program_key()
                && goal != 0 && deadline > later.sys.unix_timestamp) ==> call_plan(program_id, later).outcome
                == Err::<(), crate::error::Failure>(crate::error::Failure::AccountAlreadyInitialized)
        }),
{
    let key = create.accounts[1].key@;
    let p = call_plan(program_id, create);
    lemma_ok_writes(program_id, create, key);
    reveal_with_fuel(data_written, 4);
    let c = campaign_of(data_written(p.effects, 1).unwrap());
    let s1 = after(program_id, create, store);
    match instruction_from_bytes(create.data) {
        Some(CrowdfundInstruction::CreateCampaign { goal, deadline }) => {
            let bump = derived_address(crate::address::vault_seeds(key), program_id@).unwrap().1;
            lemma_campaign_roundtrip(crate::processor::new_campaign(create.accounts[0].key, goal, deadline, bump));
        },
        _ => {},
    }
    assert(is_campaign_encoding(s1(key)));
    lemma_history_keeps_campaign(program_id, calls, s1, key);
    let s2 = run(program_id, calls, s1);
    lemma_encoding_lengths(s2(key));
    assert(later.accounts[1].data@ == s2(later.accounts[1].key@));
}

/// A campaign's funds are withdrawn at most once: through any calls after a
/// successful withdrawal, a withdrawal from the campaign fails and does
/// nothing, and where it gets past the signature, system program, owner and
/// creator checks it answers `AlreadyClaimed`.
pub proof fn lemma_withdrawal_at_most_once_ever(
    program_id: [u8; 32],
    withdrawal: Call,
    store: spec_fn(Seq<u8>) -> Seq<u8>,
    calls: Seq<Call>,
    later: Call,
)
    requires
        reads(withdrawal, store),
        instruction_from_bytes(withdrawal.data) == Some(CrowdfundInstruction::Withdraw),
        call_plan(program_id, withdrawal).outcome is Ok,
        runs_on(program_id, calls, after(program_id, withdrawal, store)),
        reads(later, run(program_id, calls, after(program_id, withdrawal, store))),
        instruction_from_bytes(later.data) == Some(CrowdfundInstruction::Withdraw),
        later.accounts.len() > 1,
        later.accounts[1].key@ == withdrawal.accounts[1].key@,
    ensures
        call_plan(program_id, later).outcome is Err,
        call_plan(program_id, later).effects.len() == 0,
        ({
            let a = later.accounts;
            (a.len() >= 4 && a[0].is_signer && a[3].key@ == crate::address::system_program_key()
                && a[1].owner@ == program_id@ && a[0].key@ == campaign_of(a[1].data@).creator@)
                ==> call_plan(program_id, later).outcome == Err::<(), crate::error::Failure>(
                crate::error::Failure::Crowdfund(crate::error::CrowdfundError::AlreadyClaimed),
            )
        }),
{
    let key = withdrawal.accounts[1].key@;
    lemma_ok_writes(program_id, withdrawal, key);
    assert(withdrawal.accounts[1].data@ == store(key));
    assert(is_campaign_encoding(store(key)));
    lemma_step_keeps_campaign(program_id, withdrawal, store, key);
    let s1 = after(program_id, withdrawal, store);
    lemma_campaign_roundtrip(as_claimed(campaign_of(store(key))));
    lemma_history_keeps_campaign(program_id, calls, s1, key);
    assert(later.accounts[1].data@ == run(program_id, calls, s1)(later.accounts[1].key@));
}

/// A campaign past its deadline and below its goal at time `t`.
pub open spec fn failed_at(c: Campaign, t: i64) -> bool {
    t >= c.deadline && c.raised < c.goal
}

/// A campaign that reached its goal and was paid out.
pub open spec fn paid_out(c: Campaign) -> bool {
    c.claimed && c.raised >= c.goal
}

/// A campaign that failed at time `t` stays failed through any call at `t`
/// or later: contributions are closed and refunds only lower its total.
pub proof fn lemma_step_keeps_failed(
    program_id: [u8; 32],
    call: Call,
    store: spec_fn(Seq<u8>) -> Seq<u8>,
    key: Seq<u8>,
    t: i64,
)
    requires
        reads(call, store),
        is_campaign_encoding(store(key)),
        failed_at(campaign_of(store(key)), t),
        call.sys.unix_timestamp >= t,
    ensures
        is_campaign_encoding(after(program_id, call, store)(key)),
        failed_at(campaign_of(after(program_id, call, store)(key)), t),
{
    lemma_step_keeps_campaign(program_id, call, store, key);
    let p = call_plan(program_id, call);
    let s2 = after(program_id, call, store);
    if p.outcome is Ok && call.accounts.len() > 1 && call.accounts[1].key@ == key {
        let a = call.accounts;
        assert(a[1].data@ == store(key));
        let c = campaign_of(store(key));
        match instruction_from_bytes(call.data) {
            Some(CrowdfundInstruction::Contribute { amount }) => {
                lemma_contribution_accounting(program_id, a, amount, call.sys);
            },
            Some(CrowdfundInstruction::Withdraw) => {
                lemma_withdrawal_pays_creator(program_id, a, call.sys);
            },
            Some(CrowdfundInstruction::Refund) => {
                lemma_refund_accounting(program_id, a, call.sys);
            },
            _ => {},
        }
        lemma_campaign_roundtrip(campaign_after(call, c));
    }
}

/// A paid-out campaign stays paid out through any call: only contributions
/// can still change it, and they raise its total.
pub proof fn lemma_step_keeps_paid_out(
    program_id: [u8; 32],
    call: Call,
    store: spec_fn(Seq<u8>) -> Seq<u8>,
    key: Seq<u8>,
)
    requires
        reads(call, store),
        is_campaign_encoding(store(key)),
        paid_out(campaign_of(store(key))),
    ensures
        is_campaign_encoding(after(program_id, call, store)(key)),
        paid_out(campaign_of(after(program_id, call, store)(key))),
{
    lemma_step_keeps_campaign(program_id, call, store, key);
    let p = call_plan(program_id, call);
    if p.outcome is Ok && call.accounts.len() > 1 && call.accounts[1].key@ == key {
        let a = call.accounts;
        assert(a[1].data@ == store(key));
        let c = campaign_of(store(key));
        match instruction_from_bytes(call.data) {
            Some(CrowdfundInstruction::Contribute { amount }) => {
                lemma_contribution_accounting(program_id, a, amount, call.sys);
            },
            Some(CrowdfundInstruction::Withdraw) => {
                lemma_withdrawal_pays_creator(program_id, a, call.sys);
            },
            Some(CrowdfundInstruction::Refund) => {
                lemma_refund_accounting(program_id, a, call.sys);
            },
            _ => {},
        }
        lemma_campaign_roundtrip(campaign_after(call, c));
    }
}

/// Through calls at `t` or later, a campaign that failed at `t` stays failed.
pub proof fn lemma_history_keeps_failed(
    program_id: [u8; 32],
    calls: Seq<Call>,
    store: spec_fn(Seq<u8>) -> Seq<u8>,
    key: Seq<u8>,
    t: i64,
)
    requires
        runs_on(program_id, calls, store),
        all_from(calls, t),
        is_campaign_encoding(store(key)),
        failed_at(campaign_of(store(key)), t),
    ensures
        is_campaign_encoding(run(program_id, calls, store)(key)),
        failed_at(campaign_of(run(program_id, calls, store)(key)), t),
    decreases calls.len(),
{
    if calls.len() > 0 {
        assert(all_from(calls.drop_last(), t)) by {
            assert forall|j: int| 0 <= j < calls.drop_last().len() implies (
            #[trigger] calls.drop_last()[j]).sys.unix_timestamp >= t by {
                assert(calls.drop_last()[j] == calls[j]);
            }
        }
        assert(calls.last() == calls[calls.len() - 1]);
        lemma_history_keeps_failed(program_id, calls.drop_last(), store, key, t);
        lemma_step_keeps_failed(program_id, calls.last(), run(program_id, calls.drop_last(), store), key, t);
    }
}

/// Through any calls, a paid-out campaign stays paid out.
pub proof fn lemma_history_keeps_paid_out(
    program_id: [u8; 32],
    calls: Seq<Call>,
    store: spec_fn(Seq<u8>) -> Seq<u8>,
    key: Seq<u8>,
)
    requires
        runs_on(program_id, calls, store),
        is_campaign_encoding(store(key)),
        paid_out(campaign_of(store(key))),
    ensures
        is_campaign_encoding(run(program_id, calls, store)(key)),
        paid_out(campaign_of(run(program_id, calls, store)(key))),
    decreases calls.len(),
{
    if calls.len() > 0 {
        lemma_history_keeps_paid_out(program_id, calls.drop_last(), store, key);
        lemma_step_keeps_paid_out(program_id, calls.last(), run(program_id, calls.drop_last(), store), key);
    }
}

/// A refunded campaign is never paid to its creator: through any calls at
/// the refund's time or later, a withdrawal from it fails and moves nothing.
pub proof fn lemma_refund_closes_withdrawal_forever(
    program_id: [u8; 32],
    refund: Call,
    store: spec_fn(Seq<u8>) -> Seq<u8>,
    calls: Seq<Call>,
    later: Call,
)
    requires
        reads(refund, store),
        instruction_from_bytes(refund.data) == Some(CrowdfundInstruction::Refund),
        call_plan(program_id, refund).outcome is Ok,
        runs_on(program_id, calls, after(program_id, refund, store)),
        all_from(calls, refund.sys.unix_timestamp),
        reads(later, run(program_id, calls, after(program_id, refund, store))),
        later.sys.unix_timestamp >= refund.sys.unix_timestamp,
        instruction_from_bytes(later.data) == Some(CrowdfundInstruction::Withdraw),
        later.accounts.len() > 1,
        later.accounts[1].key@ == refund.accounts[1].key@,
    ensures
        call_plan(program_id, later).outcome is Err,
        call_plan(program_id, later).effects.len() == 0,
        ({
            let a = later.accounts;
            let c = campaign_of(a[1].data@);
            (a.len() >= 4 && a[0].is_signer && a[3].key@ == crate::address::system_program_key()
                && a[1].owner@ == program_id@ && a[0].key@ == c.creator@) ==> call_plan(program_id, later).outcome
                == Err::<(), crate::error::Failure>(
                crate::error::Failure::Crowdfund(
                    if c.claimed {
                        crate::error::CrowdfundError::AlreadyClaimed
                    } else {
                        crate::error::CrowdfundError::GoalNotReached
                    },
                ),
            )
        }),
{
    let key = refund.accounts[1].key@;
    let t = refund.sys.unix_timestamp;
    lemma_ok_writes(program_id, refund, key);
    assert(refund.accounts[1].data@ == store(key));
    lemma_refund_accounting(program_id, refund.accounts, refund.sys);
    lemma_step_keeps_campaign(program_id, refund, store, key);
    let s1 = after(program_id, refund, store);
    let c = campaign_of(store(key));
    lemma_campaign_roundtrip(campaign_after(refund, c));
    assert(failed_at(campaign_of(s1(key)), t));
    lemma_history_keeps_failed(program_id, calls, s1, key, t);
    let s2 = run(program_id, calls, s1);
    assert(later.accounts[1].data@ == s2(later.accounts[1].key@));
}

/// A paid-out campaign never refunds a donor: through any calls after a
/// successful withdrawal, a refund from the campaign fails and moves nothing.
pub proof fn lemma_withdrawal_closes_refunds_forever(
    program_id: [u8; 32],
    withdrawal: Call,
    store: spec_fn(Seq<u8>) -> Seq<u8>,
    calls: Seq<Call>,
    later: Call,
)
    requires
        reads(withdrawal, store),
        instruction_from_bytes(withdrawal.data) == Some(CrowdfundInstruction::Withdraw),
        call_plan(program_id, withdrawal).outcome is Ok,
        runs_on(program_id, calls, after(program_id, withdrawal, store)),
        reads(later, run(program_id, calls, after(program_id, withdrawal, store))),
        instruction_from_bytes(later.data) == Some(CrowdfundInstruction::Refund),
        later.accounts.len() > 1,
        later.accounts[1].key@ == withdrawal.accounts[1].key@,
    ensures
        call_plan(program_id, later).outcome is Err,
        call_plan(program_id, later).effects.len() == 0,
        ({
            let a = later.accounts;
            (a.len() >= 5 && a[0].is_signer && a[4].key@ == crate::address::system_program_key()
                && a[1].owner@ == program_id@ && later.sys.unix_timestamp >= withdrawal.sys.unix_timestamp)
                ==> call_plan(program_id, later).outcome == Err::<(), crate::error::Failure>(
                crate::error::Failure::Crowdfund(crate::error::CrowdfundError::GoalAlreadyReached),
            )
        }),
{
    let key = withdrawal.accounts[1].key@;
    lemma_ok_writes(program_id, withdrawal, key);
    assert(withdrawal.accounts[1].data@ == store(key));
    lemma_withdrawal_pays_creator(program_id, withdrawal.accounts, withdrawal.sys);
    lemma_history_keeps_campaign(program_id, calls, after(program_id, withdrawal, store), key);
    lemma_step_keeps_campaign(program_id, withdrawal, store, key);
    let s1 = after(program_id, withdrawal, store);
    lemma_campaign_roundtrip(as_claimed(campaign_of(store(key))));
    lemma_history_keeps_paid_out(program_id, calls, s1, key);
    let s2 = run(program_id, calls, s1);
    assert(later.accounts[1].data@ == s2(later.accounts[1].key@));
}


/// The data holds the donor's record, emptied by a refund.
pub open spec fn emptied_record(data: Seq<u8>, donor: Seq<u8>) -> bool {
    &&& is_record_encoding(data)
    &&& record_of(data).donor@ == donor
    &&& record_of(data).amount == 0
}

/// Through any call at `t` or later, an emptied record of a donor stays as
/// it is, where the campaign's deadline is `t` or earlier: contributions are
/// closed, and its refund finds nothing to pay.
pub proof fn lemma_step_keeps_emptied_record(
    program_id: [u8; 32],
    call: Call,
    store: spec_fn(Seq<u8>) -> Seq<u8>,
    campaign: Seq<u8>,
    donor: Seq<u8>,
    record: Seq<u8>,
    t: i64,
)
    requires
        reads(call, store),
        is_campaign_encoding(store(campaign)),
        campaign_of(store(campaign)).deadline <= t,
        call.sys.unix_timestamp >= t,
        record_key(program_id@, campaign, donor) == Some(record),
        record_key_unique(program_id@, campaign, donor),
        emptied_record(store(record), donor),
    ensures
        after(program_id, call, store)(record) == store(record),
{
    let p = call_plan(program_id, call);
    if p.outcome is Ok {
        let a = call.accounts;
        lemma_ok_writes(program_id, call, record);
        lemma_encoding_lengths(store(record));
        assert(a[1].data@ == store(a[1].key@));
        lemma_encoding_lengths(a[1].data@);
        if a[1].key@ == record {
            assert(false);
        } else if is_donor_call(call.data) && record == a[3].key@ {
            lemma_donor_call_names_record(program_id, call);
            assert(record_key(program_id@, a[1].key@, a[0].key@) is Some);
            assert(a[1].key@ == campaign && a[0].key@ == donor);
            assert(a[3].data@ == store(a[3].key@));
            match instruction_from_bytes(call.data) {
                Some(CrowdfundInstruction::Contribute { amount }) => {
                    lemma_contribution_accounting(program_id, a, amount, call.sys);
                },
                Some(CrowdfundInstruction::Refund) => {
                    lemma_refund_accounting(program_id, a, call.sys);
                },
                _ => {},
            }
        }
    }
}

/// Through calls at `t` or later, an emptied record stays as it is, where
/// its campaign's deadline is `t` or earlier.
pub proof fn lemma_history_keeps_emptied_record(
    program_id: [u8; 32],
    calls: Seq<Call>,
    store: spec_fn(Seq<u8>) -> Seq<u8>,
    campaign: Seq<u8>,
    donor: Seq<u8>,
    record: Seq<u8>,
    t: i64,
)
    requires
        runs_on(program_id, calls, store),
        all_from(calls, t),
        is_campaign_encoding(store(campaign)),
        campaign_of(store(campaign)).deadline <= t,
        record_key(program_id@, campaign, donor) == Some(record),
        record_key_unique(program_id@, campaign, donor),
        emptied_record(store(record), donor),
    ensures
        run(program_id, calls, store)(record) == store(record),
    decreases calls.len(),
{
    if calls.len() > 0 {
        let prefix = calls.drop_last();
        assert(all_from(prefix, t)) by {
            assert forall|j: int| 0 <= j < prefix.len() implies (#[trigger] prefix[j]).sys.unix_timestamp
                >= t by {
                assert(prefix[j] == calls[j]);
            }
        }
        assert(calls.last() == calls[calls.len() - 1]);
        lemma_history_keeps_emptied_record(program_id, prefix, store, campaign, donor, record, t);
        lemma_history_keeps_campaign(program_id, prefix, store, campaign);
        lemma_step_keeps_emptied_record(
            program_id,
            calls.last(),
            run(program_id, prefix, store),
            campaign,
            donor,
            record,
            t,
        );
    }
}

/// Each donor is refunded at most once: through any calls at the refund's
/// time or later, a refund of the same donor from the same campaign fails
/// and moves nothing, where no other campaign or donor shares the donor's
/// record address.
pub proof fn lemma_refund_at_most_once_ever(
    program_id: [u8; 32],
    refund: Call,
    store: spec_fn(Seq<u8>) -> Seq<u8>,
    calls: Seq<Call>,
    later: Call,
)
    requires
        reads(refund, store),
        instruction_from_bytes(refund.data) == Some(CrowdfundInstruction::Refund),
        call_plan(program_id, refund).outcome is Ok,
        record_key_unique(program_id@, refund.accounts[1].key@, refund.accounts[0].key@),
        runs_on(program_id, calls, after(program_id, refund, store)),
        all_from(calls, refund.sys.unix_timestamp),
        reads(later, run(program_id, calls, after(program_id, refund, store))),
        instruction_from_bytes(later.data) == Some(CrowdfundInstruction::Refund),
        later.accounts.len() > 1,
        later.accounts[1].key@ == refund.accounts[1].key@,
        later.accounts[0].key@ == refund.accounts[0].key@,
    ensures
        call_plan(program_id, later).outcome is Err,
        call_plan(program_id, later).effects.len() == 0,
        ({
            let a = later.accounts;
            let c = campaign_of(a[1].data@);
            (a.len() >= 5 && a[0].is_signer && a[4].key@ == crate::address::system_program_key()
                && a[1].owner@ == program_id@ && later.sys.unix_timestamp >= refund.sys.unix_timestamp
                && crate::address::program_address(
                crate::address::with_bump(crate::address::vault_seeds(a[1].key@), c.vault_bump),
                program_id@,
            ) == Some(a[2].key@) && a[3].key@ == refund.accounts[3].key@) ==> call_plan(
                program_id,
                later,
            ).outcome == Err::<(), crate::error::Failure>(
                crate::error::Failure::Crowdfund(crate::error::CrowdfundError::NothingToRefund),
            )
        }),
{
    let a = refund.accounts;
    let campaign = a[1].key@;
    let donor = a[0].key@;
    let record = a[3].key@;
    let t = refund.sys.unix_timestamp;
    let p = call_plan(program_id, refund);
    lemma_donor_call_names_record(program_id, refund);
    lemma_refund_accounting(program_id, a, refund.sys);
    assert(a[1].data@ == store(campaign));
    assert(a[3].data@ == store(record));
    lemma_encoding_lengths(store(campaign));
    lemma_encoding_lengths(store(record));
    assert(record != campaign);
    lemma_ok_writes(program_id, refund, record);
    lemma_ok_writes(program_id, refund, campaign);
    let s1 = after(program_id, refund, store);
    let r = record_of(a[3].data@);
    crate::state::lemma_record_roundtrip(crate::state::ContributionRecord { donor: a[0].key, amount: 0 });
    assert(emptied_record(s1(record), donor));
    lemma_step_keeps_campaign(program_id, refund, store, campaign);
    lemma_campaign_roundtrip(campaign_after(refund, campaign_of(store(campaign))));
    assert(failed_at(campaign_of(s1(campaign)), t));
    lemma_history_keeps_failed(program_id, calls, s1, campaign, t);
    lemma_history_keeps_emptied_record(program_id, calls, s1, campaign, donor, record, t);
    let s2 = run(program_id, calls, s1);
    assert(later.accounts[1].data@ == s2(later.accounts[1].key@));
    if later.accounts.len() > 3 {
        assert(later.accounts[3].data@ == s2(later.accounts[3].key@));
    }
}


/// What the donor's record in the campaign holds, or 0 where it holds no
/// record.
pub open spec fn recorded_amount(
    store: spec_fn(Seq<u8>) -> Seq<u8>,
    program_id: Seq<u8>,
    campaign: Seq<u8>,
    donor: Seq<u8>,
) -> int {
    match record_key(program_id, campaign, donor) {
        Some(key) => if is_record_encoding(store(key)) {
            record_of(store(key)).amount as int
        } else {
            0
        },
        None => 0,
    }
}

/// The sum of what the donors' records in the campaign hold.
pub open spec fn recorded_total(
    store: spec_fn(Seq<u8>) -> Seq<u8>,
    program_id: Seq<u8>,
    campaign: Seq<u8>,
    donors: Seq<Seq<u8>>,
) -> int
    decreases donors.len(),
{
    if donors.len() == 0 {
        0
    } else {
        recorded_total(store, program_id, campaign, donors.drop_last()) + recorded_amount(
            store,
            program_id,
            campaign,
            donors.last(),
        )
    }
}

/// The campaign's total is the sum of the donors' records.
pub open spec fn balanced(
    store: spec_fn(Seq<u8>) -> Seq<u8>,
    program_id: Seq<u8>,
    campaign: Seq<u8>,
    donors: Seq<Seq<u8>>,
) -> bool {
    &&& is_campaign_encoding(store(campaign))
    &&& campaign_of(store(campaign)).raised == recorded_total(store, program_id, campaign, donors)
}

/// The donors are distinct, and each has a record address that no other
/// campaign or donor shares.
pub open spec fn donors_apart(program_id: Seq<u8>, campaign: Seq<u8>, donors: Seq<Seq<u8>>) -> bool {
    &&& donors.no_duplicates()
    &&& forall|i: int| 0 <= i < donors.len() ==> record_key_unique(program_id, campaign, #[trigger] donors[i])
}

/// Where the call contributes to or is refunded from the campaign, its donor
/// is one of the donors.
pub open spec fn donor_listed(call: Call, campaign: Seq<u8>, donors: Seq<Seq<u8>>) -> bool {
    (call.accounts.len() > 1 && call.accounts[1].key@ == campaign && is_donor_call(call.data))
        ==> donors.contains(call.accounts[0].key@)
}

/// How a contribution or refund changes its campaign's total and its donor's
/// record: up by the amount contributed, down by the amount refunded.
pub open spec fn amount_change(call: Call) -> int {
    match instruction_from_bytes(call.data) {
        Some(CrowdfundInstruction::Contribute { amount }) => amount as int,
        Some(CrowdfundInstruction::Refund) => -(record_of(call.accounts[3].data@).amount as int),
        _ => 0,
    }
}

/// The call succeeds as a contribution or refund of the donor in the
/// campaign.
pub open spec fn acts_for(program_id: [u8; 32], call: Call, campaign: Seq<u8>, donor: Seq<u8>) -> bool {
    &&& call_plan(program_id, call).outcome is Ok
    &&& is_donor_call(call.data)
    &&& call.accounts.len() > 1
    &&& call.accounts[1].key@ == campaign
    &&& call.accounts[0].key@ == donor
}

/// A call changes a donor's record in a campaign only where it is a
/// successful contribution or refund of that donor in that campaign, and
/// then by `amount_change`.
pub proof fn lemma_step_recorded_amount(
    program_id: [u8; 32],
    call: Call,
    store: spec_fn(Seq<u8>) -> Seq<u8>,
    campaign: Seq<u8>,
    donor: Seq<u8>,
)
    requires
        reads(call, store),
        is_campaign_encoding(store(campaign)),
        record_key_unique(program_id@, campaign, donor),
    ensures
        recorded_amount(after(program_id, call, store), program_id@, campaign, donor) == recorded_amount(
            store,
            program_id@,
            campaign,
            donor,
        ) + if acts_for(program_id, call, campaign, donor) {
            amount_change(call)
        } else {
            0
        },
{
    let p = call_plan(program_id, call);
    let a = call.accounts;
    let s2 = after(program_id, call, store);
    if acts_for(program_id, call, campaign, donor) {
        lemma_donor_call_names_record(program_id, call);
    }
    match record_key(program_id@, campaign, donor) {
        None => {},
        Some(record) => {
            if p.outcome is Ok {
                lemma_ok_writes(program_id, call, record);
                assert(a[1].data@ == store(a[1].key@));
                assert(a[3].data@ == store(a[3].key@));
                assert(a[3].lamports == 0 ==> a[3].data@.len() == 0);
                lemma_encoding_lengths(a[1].data@);
                lemma_encoding_lengths(a[3].data@);
                lemma_encoding_lengths(s2(record));
                let c = campaign_of(a[1].data@);
                match instruction_from_bytes(call.data) {
                    Some(CrowdfundInstruction::CreateCampaign { goal, deadline }) => {
                        reveal_with_fuel(data_written, 4);
                        let bump = derived_address(crate::address::vault_seeds(a[1].key@), program_id@).unwrap().1;
                        lemma_campaign_bytes_shape(
                            crate::processor::new_campaign(a[0].key, goal, deadline, bump),
                        );
                    },
                    Some(CrowdfundInstruction::Contribute { amount }) => {
                        lemma_contribution_accounting(program_id, a, amount, call.sys);
                        lemma_campaign_bytes_shape(with_raised(c, (c.raised + amount) as u64));
                    },
                    Some(CrowdfundInstruction::Withdraw) => {
                        lemma_withdrawal_pays_creator(program_id, a, call.sys);
                        lemma_campaign_bytes_shape(as_claimed(c));
                    },
                    Some(CrowdfundInstruction::Refund) => {
                        lemma_refund_accounting(program_id, a, call.sys);
                        lemma_campaign_bytes_shape(
                            with_raised(c, (c.raised - record_of(a[3].data@).amount) as u64),
                        );
                    },
                    None => {},
                }
                if a[1].key@ == record {
                    lemma_encoding_lengths(store(record));
                    assert(!is_record_encoding(store(record)));
                    assert(!is_record_encoding(s2(record)));
                } else if is_donor_call(call.data) && record == a[3].key@ {
                    lemma_donor_call_names_record(program_id, call);
                    assert(record_key(program_id@, a[1].key@, a[0].key@) is Some);
                    assert(a[1].key@ == campaign && a[0].key@ == donor);
                    match instruction_from_bytes(call.data) {
                        Some(CrowdfundInstruction::Contribute { amount }) => {
                            let before: int = if a[3].lamports == 0 {
                                0
                            } else {
                                record_of(a[3].data@).amount as int
                            };
                            crate::state::lemma_record_roundtrip(
                                crate::state::ContributionRecord { donor: a[0].key, amount: (before + amount) as u64 },
                            );
                        },
                        Some(CrowdfundInstruction::Refund) => {
                            crate::state::lemma_record_roundtrip(
                                crate::state::ContributionRecord { donor: a[0].key, amount: 0 },
                            );
                        },
                        _ => {},
                    }
                }
            }
        },
    }
}

/// Where only one donor's record changes, the total changes by as much, if
/// that donor is counted.
pub proof fn lemma_total_shift(
    s1: spec_fn(Seq<u8>) -> Seq<u8>,
    s2: spec_fn(Seq<u8>) -> Seq<u8>,
    program_id: Seq<u8>,
    campaign: Seq<u8>,
    donors: Seq<Seq<u8>>,
    changed: Seq<u8>,
    delta: int,
)
    requires
        donors.no_duplicates(),
        forall|i: int|
            0 <= i < donors.len() ==> recorded_amount(s2, program_id, campaign, #[trigger] donors[i])
                == recorded_amount(s1, program_id, campaign, donors[i]) + if donors[i] == changed {
                delta
            } else {
                0
            },
    ensures
        recorded_total(s2, program_id, campaign, donors) == recorded_total(s1, program_id, campaign, donors)
            + if donors.contains(changed) {
            delta
        } else {
            0
        },
    decreases donors.len(),
{
    if donors.len() > 0 {
        let prefix = donors.drop_last();
        assert forall|i: int, j: int| 0 <= i < j < prefix.len() implies prefix[i] != prefix[j] by {
            assert(prefix[i] == donors[i] && prefix[j] == donors[j]);
        }
        assert forall|i: int| 0 <= i < prefix.len() implies recorded_amount(s2, program_id, campaign, #[trigger] prefix[i])
            == recorded_amount(s1, program_id, campaign, prefix[i]) + if prefix[i] == changed {
            delta
        } else {
            0
        } by {
            assert(prefix[i] == donors[i]);
        }
        lemma_total_shift(s1, s2, program_id, campaign, prefix, changed, delta);
        let last = donors.last();
        assert(last == donors[donors.len() - 1]);
        if donors.contains(changed) {
            let k = choose|k: int| 0 <= k < donors.len() && donors[k] == changed;
            if k < donors.len() - 1 {
                assert(prefix[k] == changed);
                assert(last != changed);
            } else {
                assert forall|i: int| 0 <= i < prefix.len() implies prefix[i] != changed by {
                    assert(prefix[i] == donors[i]);
                }
            }
        } else {
            assert forall|i: int| 0 <= i < prefix.len() implies prefix[i] != changed by {
                assert(prefix[i] == donors[i]);
            }
        }
    }
}

/// A campaign whose total is the sum of its donors' records stays so
/// through any call, where the donor of a contribution to it or refund from
/// it is one of its donors: both change by the same amount.
pub proof fn lemma_step_keeps_balanced(
    program_id: [u8; 32],
    call: Call,
    store: spec_fn(Seq<u8>) -> Seq<u8>,
    campaign: Seq<u8>,
    donors: Seq<Seq<u8>>,
)
    requires
        reads(call, store),
        balanced(store, program_id@, campaign, donors),
        donors_apart(program_id@, campaign, donors),
        donor_listed(call, campaign, donors),
    ensures
        balanced(after(program_id, call, store), program_id@, campaign, donors),
{
    let s2 = after(program_id, call, store);
    let a = call.accounts;
    let acting = call_plan(program_id, call).outcome is Ok && is_donor_call(call.data) && a.len() > 1
        && a[1].key@ == campaign;
    let changed = if a.len() > 0 { a[0].key@ } else { Seq::empty() };
    let delta = if acting { amount_change(call) } else { 0 };
    assert forall|i: int| 0 <= i < donors.len() implies recorded_amount(s2, program_id@, campaign, #[trigger] donors[i])
        == recorded_amount(store, program_id@, campaign, donors[i]) + if donors[i] == changed {
        delta
    } else {
        0
    } by {
        lemma_step_recorded_amount(program_id, call, store, campaign, donors[i]);
        if acts_for(program_id, call, campaign, donors[i]) {
            lemma_ok_writes(program_id, call, campaign);
        }
    }
    lemma_total_shift(store, s2, program_id@, campaign, donors, changed, delta);
    lemma_step_keeps_campaign(program_id, call, store, campaign);
    if acting {
        lemma_ok_writes(program_id, call, campaign);
        assert(donors.contains(changed));
        assert(a[1].data@ == store(campaign));
        let c = campaign_of(store(campaign));
        match instruction_from_bytes(call.data) {
            Some(CrowdfundInstruction::Contribute { amount }) => {
                lemma_contribution_accounting(program_id, a, amount, call.sys);
            },
            Some(CrowdfundInstruction::Refund) => {
                lemma_refund_accounting(program_id, a, call.sys);
            },
            _ => {},
        }
        lemma_campaign_roundtrip(campaign_after(call, c));
    } else if call_plan(program_id, call).outcome is Ok && a.len() > 1 && a[1].key@ == campaign {
        lemma_ok_writes(program_id, call, campaign);
        assert(a[1].data@ == store(campaign));
        let c = campaign_of(store(campaign));
        lemma_encoding_lengths(store(campaign));
        if instruction_from_bytes(call.data) == Some(CrowdfundInstruction::Withdraw) {
            lemma_withdrawal_pays_creator(program_id, a, call.sys);
        }
        lemma_campaign_roundtrip(campaign_after(call, c));
    }
}

/// Through any calls whose contributions to and refunds from the campaign
/// come from its donors, its total stays the sum of their records.
pub proof fn lemma_history_keeps_balanced(
    program_id: [u8; 32],
    calls: Seq<Call>,
    store: spec_fn(Seq<u8>) -> Seq<u8>,
    campaign: Seq<u8>,
    donors: Seq<Seq<u8>>,
)
    requires
        runs_on(program_id, calls, store),
        balanced(store, program_id@, campaign, donors),
        donors_apart(program_id@, campaign, donors),
        forall|j: int| 0 <= j < calls.len() ==> donor_listed(#[trigger] calls[j], campaign, donors),
    ensures
        balanced(run(program_id, calls, store), program_id@, campaign, donors),
    decreases calls.len(),
{
    if calls.len() > 0 {
        let prefix = calls.drop_last();
        assert forall|j: int| 0 <= j < prefix.len() implies donor_listed(#[trigger] prefix[j], campaign, donors) by {
            assert(prefix[j] == calls[j]);
        }
        assert(calls.last() == calls[calls.len() - 1]);
        lemma_history_keeps_balanced(program_id, prefix, store, campaign, donors);
        lemma_step_keeps_balanced(program_id, calls.last(), run(program_id, prefix, store), campaign, donors);
    }
}

/// A new campaign is balanced where its donors hold no records yet: its
/// total is zero, and its creation writes no record.
pub proof fn lemma_creation_balanced(
    program_id: [u8; 32],
    create: Call,
    store: spec_fn(Seq<u8>) -> Seq<u8>,
    donors: Seq<Seq<u8>>,
)
    requires
        reads(create, store),
        instruction_from_bytes(create.data) matches Some(CrowdfundInstruction::CreateCampaign { .. }),
        call_plan(program_id, create).outcome is Ok,
        recorded_total(store, program_id@, create.accounts[1].key@, donors) == 0,
        donors_apart(program_id@, create.accounts[1].key@, donors),
    ensures
        balanced(after(program_id, create, store), program_id@, create.accounts[1].key@, donors),
{
    let campaign = create.accounts[1].key@;
    let a = create.accounts;
    let s1 = after(program_id, create, store);
    let p = call_plan(program_id, create);
    reveal_with_fuel(data_written, 4);
    let (goal, deadline) = match instruction_from_bytes(create.data) {
        Some(CrowdfundInstruction::CreateCampaign { goal, deadline }) => (goal, deadline),
        _ => (0u64, 0i64),
    };
    let bump = derived_address(crate::address::vault_seeds(campaign), program_id@).unwrap().1;
    let c = crate::processor::new_campaign(a[0].key, goal, deadline, bump);
    lemma_campaign_roundtrip(c);
    lemma_campaign_bytes_shape(c);
    lemma_ok_writes(program_id, create, campaign);
    assert(s1(campaign) == campaign_bytes(c));
    assert forall|i: int| 0 <= i < donors.len() implies recorded_amount(s1, program_id@, campaign, #[trigger] donors[i])
        == recorded_amount(store, program_id@, campaign, donors[i]) by {
        match record_key(program_id@, campaign, donors[i]) {
            Some(record) => {
                lemma_ok_writes(program_id, create, record);
                if record == campaign {
                    assert(a[1].data@ == store(campaign));
                    lemma_encoding_lengths(store(campaign));
                    lemma_encoding_lengths(s1(campaign));
                }
            },
            None => {},
        }
    }
    lemma_total_shift(store, s1, program_id@, campaign, donors, campaign, 0);
}

} // verus!
