//! The library's laws, checked on concrete campaigns.
use mancer_crowdfund::error::{CrowdfundError, ProcessError};
use mancer_crowdfund::processor::{AccountState, Effect, Processor, Sysvars};
use mancer_crowdfund::state::{Campaign, ContributionRecord};
use solana_program::pubkey::Pubkey;

const PROGRAM: [u8; 32] = [7u8; 32];
const CREATOR: [u8; 32] = [1u8; 32];
const CAMPAIGN: [u8; 32] = [2u8; 32];
const DONOR: [u8; 32] = [4u8; 32];
const SYSTEM: [u8; 32] = [0u8; 32];

fn sysvars(now: i64) -> Sysvars {
    Sysvars { unix_timestamp: now, campaign_rent: 1_500, contribution_rent: 1_200, vault_rent: 890 }
}

fn key_of(seeds: &[&[u8]]) -> ([u8; 32], u8) {
    let (k, b) = Pubkey::find_program_address(seeds, &Pubkey::new_from_array(PROGRAM));
    (k.to_bytes(), b)
}

fn written(effects: &[Effect], account: usize) -> Option<Vec<u8>> {
    effects.iter().rev().find_map(|e| match e {
        Effect::WriteData { account: a, data } if *a == account => Some(data.clone()),
        _ => None,
    })
}

fn state(key: [u8; 32], owner: [u8; 32], lamports: u64, data: Vec<u8>, is_signer: bool) -> AccountState {
    AccountState { key, owner, lamports, data, is_signer }
}

fn campaign_accounts(campaign_data: Vec<u8>, record_data: Option<Vec<u8>>, payer: [u8; 32]) -> Vec<AccountState> {
    let (vault, _) = key_of(&[b"vault", &CAMPAIGN]);
    let (record, _) = key_of(&[b"contribution", &CAMPAIGN, &payer]);
    let record_account = match record_data {
        None => state(record, SYSTEM, 0, vec![], false),
        Some(d) => state(record, PROGRAM, 1_200, d, false),
    };
    vec![
        state(payer, SYSTEM, 100_000, vec![], true),
        state(CAMPAIGN, PROGRAM, 1_500, campaign_data, false),
        state(vault, SYSTEM, 10_000, vec![], false),
        record_account,
        state(SYSTEM, SYSTEM, 1, vec![], false),
    ]
}

fn created_campaign(goal: u64, deadline: i64) -> Vec<u8> {
    let (vault, _) = key_of(&[b"vault", &CAMPAIGN]);
    let accounts = vec![
        state(CREATOR, SYSTEM, 100_000, vec![], true),
        state(CAMPAIGN, SYSTEM, 0, vec![], true),
        state(vault, SYSTEM, 0, vec![], false),
        state(SYSTEM, SYSTEM, 1, vec![], false),
    ];
    let mut data = vec![0u8];
    data.extend_from_slice(&goal.to_le_bytes());
    data.extend_from_slice(&deadline.to_le_bytes());
    let plan = Processor::process(&PROGRAM, &accounts, &data, &sysvars(0));
    assert_eq!(plan.outcome, Ok(()));
    written(&plan.effects, 1).unwrap()
}

#[test]
fn new_campaign_starts_empty_and_open() {
    let data = created_campaign(1_000, 100);
    let c = Campaign::try_from_slice(&data).unwrap();
    assert_eq!((c.creator, c.goal, c.raised, c.deadline, c.claimed), (CREATOR, 1_000, 0, 100, false));
    assert_eq!(c.vault_bump, key_of(&[b"vault", &CAMPAIGN]).1);
}

#[test]
fn contributions_and_refunds_balance() {
    let data = created_campaign(1_000, 100);
    // two contributions from one donor before the deadline
    let a = campaign_accounts(data, None, DONOR);
    let mut amount = vec![1u8];
    amount.extend_from_slice(&300u64.to_le_bytes());
    let plan = Processor::process(&PROGRAM, &a, &amount, &sysvars(10));
    assert_eq!(plan.outcome, Ok(()));
    let campaign_data = written(&plan.effects, 1).unwrap();
    let record_data = written(&plan.effects, 3).unwrap();
    assert_eq!(Campaign::try_from_slice(&campaign_data).unwrap().raised, 300);

    let a = campaign_accounts(campaign_data, Some(record_data), DONOR);
    let plan = Processor::process(&PROGRAM, &a, &amount, &sysvars(20));
    assert_eq!(plan.outcome, Ok(()));
    let campaign_data = written(&plan.effects, 1).unwrap();
    let record_data = written(&plan.effects, 3).unwrap();
    assert_eq!(Campaign::try_from_slice(&campaign_data).unwrap().raised, 600);
    assert_eq!(ContributionRecord::try_from_slice(&record_data).unwrap().amount, 600);

    // the deadline passes below the goal: contributions close, withdrawal is refused
    let a = campaign_accounts(campaign_data.clone(), Some(record_data.clone()), DONOR);
    assert_eq!(
        Processor::process(&PROGRAM, &a, &amount, &sysvars(100)).outcome,
        Err(ProcessError::Crowdfund(CrowdfundError::DeadlineHasPassed))
    );
    let mut w = campaign_accounts(campaign_data.clone(), None, CREATOR);
    w.remove(3);
    assert_eq!(
        Processor::process(&PROGRAM, &w, &[2u8], &sysvars(100)).outcome,
        Err(ProcessError::Crowdfund(CrowdfundError::GoalNotReached))
    );

    // the refund pays back everything the record holds, once
    let plan = Processor::process(&PROGRAM, &a, &[3u8], &sysvars(100));
    assert_eq!(plan.outcome, Ok(()));
    let campaign_data = written(&plan.effects, 1).unwrap();
    let record_data = written(&plan.effects, 3).unwrap();
    assert_eq!(Campaign::try_from_slice(&campaign_data).unwrap().raised, 0);
    assert_eq!(ContributionRecord::try_from_slice(&record_data).unwrap().amount, 0);
    let mut w = campaign_accounts(campaign_data.clone(), None, CREATOR);
    w.remove(3);
    assert_eq!(
        Processor::process(&PROGRAM, &w, &[2u8], &sysvars(200)).outcome,
        Err(ProcessError::Crowdfund(CrowdfundError::GoalNotReached))
    );
    let a = campaign_accounts(campaign_data, Some(record_data), DONOR);
    assert_eq!(
        Processor::process(&PROGRAM, &a, &[3u8], &sysvars(200)).outcome,
        Err(ProcessError::Crowdfund(CrowdfundError::NothingToRefund))
    );
}

#[test]
fn successful_campaign_pays_creator_once() {
    let data = created_campaign(500, 100);
    let a = campaign_accounts(data, None, DONOR);
    let mut amount = vec![1u8];
    amount.extend_from_slice(&500u64.to_le_bytes());
    let plan = Processor::process(&PROGRAM, &a, &amount, &sysvars(10));
    let campaign_data = written(&plan.effects, 1).unwrap();
    let record_data = written(&plan.effects, 3).unwrap();

    let mut w = campaign_accounts(campaign_data.clone(), None, CREATOR);
    w.remove(3);
    let plan = Processor::process(&PROGRAM, &w, &[2u8], &sysvars(100));
    assert_eq!(plan.outcome, Ok(()));
    let claimed = written(&plan.effects, 1).unwrap();
    assert!(Campaign::try_from_slice(&claimed).unwrap().claimed);

    // no second withdrawal, and no refund of the successful campaign
    let mut w = campaign_accounts(claimed.clone(), None, CREATOR);
    w.remove(3);
    assert_eq!(
        Processor::process(&PROGRAM, &w, &[2u8], &sysvars(300)).outcome,
        Err(ProcessError::Crowdfund(CrowdfundError::AlreadyClaimed))
    );
    let r = campaign_accounts(claimed, Some(record_data), DONOR);
    assert_eq!(
        Processor::process(&PROGRAM, &r, &[3u8], &sysvars(300)).outcome,
        Err(ProcessError::Crowdfund(CrowdfundError::GoalAlreadyReached))
    );
}

#[test]
fn campaign_account_is_never_created_again() {
    let data = created_campaign(1_000, 100);
    let a = campaign_accounts(data, None, DONOR);
    let mut amount = vec![1u8];
    amount.extend_from_slice(&40u64.to_le_bytes());
    let plan = Processor::process(&PROGRAM, &a, &amount, &sysvars(10));
    assert_eq!(plan.outcome, Ok(()));
    let campaign_data = written(&plan.effects, 1).unwrap();

    let (vault, _) = key_of(&[b"vault", &CAMPAIGN]);
    let accounts = vec![
        state(DONOR, SYSTEM, 100_000, vec![], true),
        state(CAMPAIGN, PROGRAM, 1_500, campaign_data, true),
        state(vault, SYSTEM, 890, vec![], false),
        state(SYSTEM, SYSTEM, 1, vec![], false),
    ];
    let mut create = vec![0u8];
    create.extend_from_slice(&5u64.to_le_bytes());
    create.extend_from_slice(&500i64.to_le_bytes());
    let plan = Processor::process(&PROGRAM, &accounts, &create, &sysvars(20));
    assert!(plan.effects.is_empty());
    assert_eq!(plan.outcome, Err(ProcessError::AccountAlreadyInitialized));
}
