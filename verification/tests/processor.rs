use mancer_crowdfund::address::{contribution_seeds_vec, is_system_program, keys_equal, vault_seeds_vec};
use mancer_crowdfund::error::{CrowdfundError, ProcessError};
use mancer_crowdfund::processor::{AccountState, Effect, Plan, Processor, SystemCall, Sysvars};
use mancer_crowdfund::state::{Campaign, ContributionRecord};
use solana_program::pubkey::Pubkey;

const PROGRAM: [u8; 32] = [7u8; 32];
const CREATOR: [u8; 32] = [1u8; 32];
const CAMPAIGN: [u8; 32] = [2u8; 32];
const DONOR: [u8; 32] = [4u8; 32];
const SYSTEM: [u8; 32] = [0u8; 32];
const NOW: i64 = 1_000;
const DEADLINE: i64 = 2_000;

fn sysvars(now: i64) -> Sysvars {
    Sysvars { unix_timestamp: now, campaign_rent: 1_500, contribution_rent: 1_200, vault_rent: 890 }
}

fn account(key: [u8; 32], owner: [u8; 32], lamports: u64, data: Vec<u8>, is_signer: bool) -> AccountState {
    AccountState { key, owner, lamports, data, is_signer }
}

fn vault_address() -> ([u8; 32], u8) {
    let (k, b) =
        Pubkey::find_program_address(&[b"vault", &CAMPAIGN], &Pubkey::new_from_array(PROGRAM));
    (k.to_bytes(), b)
}

fn record_address(donor: [u8; 32]) -> ([u8; 32], u8) {
    let (k, b) = Pubkey::find_program_address(
        &[b"contribution", &CAMPAIGN, &donor],
        &Pubkey::new_from_array(PROGRAM),
    );
    (k.to_bytes(), b)
}

fn create_data(goal: u64, deadline: i64) -> Vec<u8> {
    let mut v = vec![0u8];
    v.extend_from_slice(&goal.to_le_bytes());
    v.extend_from_slice(&deadline.to_le_bytes());
    v
}

fn contribute_data(amount: u64) -> Vec<u8> {
    let mut v = vec![1u8];
    v.extend_from_slice(&amount.to_le_bytes());
    v
}

fn stored_campaign(goal: u64, raised: u64, claimed: bool) -> Campaign {
    Campaign { creator: CREATOR, goal, raised, deadline: DEADLINE, claimed, vault_bump: vault_address().1 }
}

fn create_accounts() -> Vec<AccountState> {
    vec![
        account(CREATOR, SYSTEM, 10_000, vec![], true),
        account(CAMPAIGN, SYSTEM, 0, vec![], true),
        account(vault_address().0, SYSTEM, 0, vec![], false),
        account(SYSTEM, SYSTEM, 1, vec![], false),
    ]
}

fn contribute_accounts(campaign: &Campaign, record: Option<ContributionRecord>) -> Vec<AccountState> {
    let (record_key, _) = record_address(DONOR);
    let record_account = match record {
        None => account(record_key, SYSTEM, 0, vec![], false),
        Some(r) => account(record_key, PROGRAM, 1_200, r.to_bytes(), false),
    };
    vec![
        account(DONOR, SYSTEM, 50_000, vec![], true),
        account(CAMPAIGN, PROGRAM, 1_500, campaign.to_bytes(), false),
        account(vault_address().0, SYSTEM, 890 + campaign.raised, vec![], false),
        record_account,
        account(SYSTEM, SYSTEM, 1, vec![], false),
    ]
}

fn withdraw_accounts(campaign: &Campaign, vault_lamports: u64) -> Vec<AccountState> {
    vec![
        account(CREATOR, SYSTEM, 10_000, vec![], true),
        account(CAMPAIGN, PROGRAM, 1_500, campaign.to_bytes(), false),
        account(vault_address().0, SYSTEM, vault_lamports, vec![], false),
        account(SYSTEM, SYSTEM, 1, vec![], false),
    ]
}

fn failure(e: ProcessError) -> Plan {
    Plan { effects: vec![], outcome: Err(e) }
}

fn refusal(e: CrowdfundError) -> Plan {
    failure(ProcessError::Crowdfund(e))
}

fn vault_signer() -> Vec<Vec<u8>> {
    vec![b"vault".to_vec(), CAMPAIGN.to_vec(), vec![vault_address().1]]
}

// ----- addresses

#[test]
fn seed_lists() {
    assert_eq!(vault_seeds_vec(&CAMPAIGN), vec![b"vault".to_vec(), CAMPAIGN.to_vec()]);
    assert_eq!(
        contribution_seeds_vec(&CAMPAIGN, &DONOR),
        vec![b"contribution".to_vec(), CAMPAIGN.to_vec(), DONOR.to_vec()]
    );
}

#[test]
fn key_comparisons() {
    assert!(keys_equal(&CREATOR, &[1u8; 32]));
    assert!(!keys_equal(&CREATOR, &DONOR));
    assert!(is_system_program(&[0u8; 32]));
    assert!(!is_system_program(&PROGRAM));
}

// ----- create

#[test]
fn create_campaign_creates_accounts_and_stores_campaign() {
    let accounts = create_accounts();
    let plan = Processor::process(&PROGRAM, &accounts, &create_data(5_000, DEADLINE), &sysvars(NOW));
    let (_, bump) = vault_address();
    let expected = Campaign { creator: CREATOR, goal: 5_000, raised: 0, deadline: DEADLINE, claimed: false, vault_bump: bump };
    assert_eq!(
        plan,
        Plan {
            effects: vec![
                Effect::Invoke {
                    call: SystemCall::CreateAccount { from: 0, to: 1, lamports: 1_500, space: 58, owner: PROGRAM },
                    system_program: 3,
                    signer_seeds: vec![],
                },
                Effect::Invoke {
                    call: SystemCall::CreateAccount { from: 0, to: 2, lamports: 890, space: 0, owner: SYSTEM },
                    system_program: 3,
                    signer_seeds: vault_signer(),
                },
                Effect::WriteData { account: 1, data: expected.to_bytes() },
            ],
            outcome: Ok(()),
        }
    );
}

#[test]
fn create_campaign_refusals() {
    let data = create_data(5_000, DEADLINE);
    let s = sysvars(NOW);
    let mut a = create_accounts();
    a.truncate(3);
    assert_eq!(Processor::process(&PROGRAM, &a, &data, &s), failure(ProcessError::NotEnoughAccountKeys));

    let mut a = create_accounts();
    a[0].is_signer = false;
    assert_eq!(Processor::process(&PROGRAM, &a, &data, &s), failure(ProcessError::MissingRequiredSignature));

    let mut a = create_accounts();
    a[3].key = [9u8; 32];
    assert_eq!(Processor::process(&PROGRAM, &a, &data, &s), failure(ProcessError::IncorrectProgramId));

    let a = create_accounts();
    assert_eq!(
        Processor::process(&PROGRAM, &a, &create_data(0, DEADLINE), &s),
        failure(ProcessError::InvalidArgument)
    );
    assert_eq!(
        Processor::process(&PROGRAM, &a, &create_data(5_000, NOW), &s),
        refusal(CrowdfundError::DeadlineHasPassed)
    );

    let mut a = create_accounts();
    a[1].lamports = 1;
    assert_eq!(Processor::process(&PROGRAM, &a, &data, &s), failure(ProcessError::AccountAlreadyInitialized));
    let mut a = create_accounts();
    a[1].data = vec![0];
    assert_eq!(Processor::process(&PROGRAM, &a, &data, &s), failure(ProcessError::AccountAlreadyInitialized));

    let mut a = create_accounts();
    a[2].key = [5u8; 32];
    assert_eq!(Processor::process(&PROGRAM, &a, &data, &s), refusal(CrowdfundError::InvalidVaultPda));
}

#[test]
fn process_refuses_bad_instruction_data() {
    let a = create_accounts();
    assert_eq!(
        Processor::process(&PROGRAM, &a, &[9u8], &sysvars(NOW)),
        failure(ProcessError::InvalidInstructionData)
    );
}

// ----- contribute

#[test]
fn first_contribution_creates_record() {
    let campaign = stored_campaign(5_000, 100, false);
    let a = contribute_accounts(&campaign, None);
    let plan = Processor::process(&PROGRAM, &a, &contribute_data(300), &sysvars(NOW));
    let (_, record_bump) = record_address(DONOR);
    let mut updated = campaign;
    updated.raised = 400;
    assert_eq!(
        plan,
        Plan {
            effects: vec![
                Effect::Invoke {
                    call: SystemCall::CreateAccount { from: 0, to: 3, lamports: 1_200, space: 40, owner: PROGRAM },
                    system_program: 4,
                    signer_seeds: vec![b"contribution".to_vec(), CAMPAIGN.to_vec(), DONOR.to_vec(), vec![record_bump]],
                },
                Effect::WriteData { account: 3, data: ContributionRecord { donor: DONOR, amount: 300 }.to_bytes() },
                Effect::Invoke {
                    call: SystemCall::Transfer { from: 0, to: 2, lamports: 300 },
                    system_program: 4,
                    signer_seeds: vec![],
                },
                Effect::WriteData { account: 1, data: updated.to_bytes() },
            ],
            outcome: Ok(()),
        }
    );
}

#[test]
fn later_contribution_adds_to_record() {
    let campaign = stored_campaign(5_000, 100, false);
    let a = contribute_accounts(&campaign, Some(ContributionRecord { donor: DONOR, amount: 100 }));
    let plan = Processor::process(&PROGRAM, &a, &contribute_data(50), &sysvars(NOW));
    let mut updated = campaign;
    updated.raised = 150;
    assert_eq!(
        plan.effects,
        vec![
            Effect::WriteData { account: 3, data: ContributionRecord { donor: DONOR, amount: 150 }.to_bytes() },
            Effect::Invoke {
                call: SystemCall::Transfer { from: 0, to: 2, lamports: 50 },
                system_program: 4,
                signer_seeds: vec![],
            },
            Effect::WriteData { account: 1, data: updated.to_bytes() },
        ]
    );
    assert_eq!(plan.outcome, Ok(()));
}

#[test]
fn contribution_refusals() {
    let campaign = stored_campaign(5_000, 100, false);
    let s = sysvars(NOW);
    let data = contribute_data(10);

    let mut a = contribute_accounts(&campaign, None);
    a.truncate(4);
    assert_eq!(Processor::process(&PROGRAM, &a, &data, &s), failure(ProcessError::NotEnoughAccountKeys));

    let mut a = contribute_accounts(&campaign, None);
    a[0].is_signer = false;
    assert_eq!(Processor::process(&PROGRAM, &a, &data, &s), failure(ProcessError::MissingRequiredSignature));

    let mut a = contribute_accounts(&campaign, None);
    a[4].key = PROGRAM;
    assert_eq!(Processor::process(&PROGRAM, &a, &data, &s), failure(ProcessError::IncorrectProgramId));

    let a = contribute_accounts(&campaign, None);
    assert_eq!(Processor::process(&PROGRAM, &a, &contribute_data(0), &s), failure(ProcessError::InvalidArgument));

    let mut a = contribute_accounts(&campaign, None);
    a[1].owner = SYSTEM;
    assert_eq!(Processor::process(&PROGRAM, &a, &data, &s), failure(ProcessError::IllegalOwner));

    let mut a = contribute_accounts(&campaign, None);
    a[1].data.truncate(10);
    assert!(matches!(Processor::process(&PROGRAM, &a, &data, &s).outcome, Err(ProcessError::BorshIo(_))));

    let a = contribute_accounts(&campaign, None);
    assert_eq!(
        Processor::process(&PROGRAM, &a, &data, &sysvars(DEADLINE)),
        refusal(CrowdfundError::DeadlineHasPassed)
    );

    let mut a = contribute_accounts(&campaign, None);
    a[2].key = [5u8; 32];
    assert_eq!(Processor::process(&PROGRAM, &a, &data, &s), refusal(CrowdfundError::InvalidVaultPda));

    let mut a = contribute_accounts(&campaign, None);
    a[3].key = [5u8; 32];
    assert_eq!(Processor::process(&PROGRAM, &a, &data, &s), refusal(CrowdfundError::InvalidContribPda));

    let a = contribute_accounts(&campaign, Some(ContributionRecord { donor: [8u8; 32], amount: 5 }));
    assert_eq!(Processor::process(&PROGRAM, &a, &data, &s), refusal(CrowdfundError::NotDonor));

    let a = contribute_accounts(&campaign, Some(ContributionRecord { donor: DONOR, amount: u64::MAX }));
    assert_eq!(Processor::process(&PROGRAM, &a, &data, &s), refusal(CrowdfundError::ArithmeticOverflow));
}

#[test]
fn contribution_overflow_of_total_comes_after_transfer() {
    let campaign = stored_campaign(5_000, u64::MAX - 5, false);
    let a = contribute_accounts(&campaign, Some(ContributionRecord { donor: DONOR, amount: 1 }));
    let plan = Processor::process(&PROGRAM, &a, &contribute_data(10), &sysvars(NOW));
    assert_eq!(plan.effects.len(), 2);
    assert_eq!(plan.outcome, Err(ProcessError::Crowdfund(CrowdfundError::ArithmeticOverflow)));
}

// ----- withdraw

#[test]
fn withdrawal_pays_creator_and_marks_claimed() {
    let campaign = stored_campaign(5_000, 6_000, false);
    let a = withdraw_accounts(&campaign, 6_890);
    let plan = Processor::process(&PROGRAM, &a, &[2u8], &sysvars(DEADLINE));
    let mut claimed = campaign;
    claimed.claimed = true;
    assert_eq!(
        plan,
        Plan {
            effects: vec![
                Effect::Invoke {
                    call: SystemCall::Transfer { from: 2, to: 0, lamports: 6_000 },
                    system_program: 3,
                    signer_seeds: vault_signer(),
                },
                Effect::WriteData { account: 1, data: claimed.to_bytes() },
            ],
            outcome: Ok(()),
        }
    );
}

#[test]
fn withdrawal_refusals() {
    let s = sysvars(DEADLINE);
    let good = stored_campaign(5_000, 6_000, false);

    let mut a = withdraw_accounts(&good, 6_890);
    a[0].key = DONOR;
    assert_eq!(Processor::process(&PROGRAM, &a, &[2u8], &s), refusal(CrowdfundError::NotCreator));

    let a = withdraw_accounts(&stored_campaign(5_000, 6_000, true), 6_890);
    assert_eq!(Processor::process(&PROGRAM, &a, &[2u8], &s), refusal(CrowdfundError::AlreadyClaimed));

    let a = withdraw_accounts(&good, 6_890);
    assert_eq!(
        Processor::process(&PROGRAM, &a, &[2u8], &sysvars(DEADLINE - 1)),
        refusal(CrowdfundError::DeadlineNotReached)
    );

    let a = withdraw_accounts(&stored_campaign(5_000, 4_999, false), 6_890);
    assert_eq!(Processor::process(&PROGRAM, &a, &[2u8], &s), refusal(CrowdfundError::GoalNotReached));

    let mut a = withdraw_accounts(&good, 6_890);
    a[2].key = [5u8; 32];
    assert_eq!(Processor::process(&PROGRAM, &a, &[2u8], &s), refusal(CrowdfundError::InvalidVaultPda));

    let a = withdraw_accounts(&good, 890);
    assert_eq!(Processor::process(&PROGRAM, &a, &[2u8], &s), failure(ProcessError::InsufficientFunds));
    let a = withdraw_accounts(&good, 100);
    assert_eq!(Processor::process(&PROGRAM, &a, &[2u8], &s), failure(ProcessError::InsufficientFunds));

    let mut a = withdraw_accounts(&good, 6_890);
    a[1].owner = SYSTEM;
    assert_eq!(Processor::process(&PROGRAM, &a, &[2u8], &s), failure(ProcessError::IllegalOwner));
}

// ----- refund

#[test]
fn refund_returns_record_amount() {
    let campaign = stored_campaign(5_000, 700, false);
    let a = contribute_accounts(&campaign, Some(ContributionRecord { donor: DONOR, amount: 300 }));
    let plan = Processor::process(&PROGRAM, &a, &[3u8], &sysvars(DEADLINE + 10));
    let mut updated = campaign;
    updated.raised = 400;
    assert_eq!(
        plan,
        Plan {
            effects: vec![
                Effect::Invoke {
                    call: SystemCall::Transfer { from: 2, to: 0, lamports: 300 },
                    system_program: 4,
                    signer_seeds: vault_signer(),
                },
                Effect::WriteData { account: 3, data: ContributionRecord { donor: DONOR, amount: 0 }.to_bytes() },
                Effect::WriteData { account: 1, data: updated.to_bytes() },
            ],
            outcome: Ok(()),
        }
    );
}

#[test]
fn refund_refusals() {
    let s = sysvars(DEADLINE);
    let failed_campaign = stored_campaign(5_000, 700, false);
    let record = Some(ContributionRecord { donor: DONOR, amount: 300 });

    let a = contribute_accounts(&failed_campaign, record);
    assert_eq!(
        Processor::process(&PROGRAM, &a, &[3u8], &sysvars(DEADLINE - 1)),
        refusal(CrowdfundError::DeadlineNotReached)
    );

    let a = contribute_accounts(&stored_campaign(5_000, 5_000, false), record);
    assert_eq!(Processor::process(&PROGRAM, &a, &[3u8], &s), refusal(CrowdfundError::GoalAlreadyReached));

    let a = contribute_accounts(&failed_campaign, Some(ContributionRecord { donor: DONOR, amount: 0 }));
    assert_eq!(Processor::process(&PROGRAM, &a, &[3u8], &s), refusal(CrowdfundError::NothingToRefund));

    let a = contribute_accounts(&failed_campaign, Some(ContributionRecord { donor: CREATOR, amount: 3 }));
    assert_eq!(Processor::process(&PROGRAM, &a, &[3u8], &s), refusal(CrowdfundError::NotDonor));

    let a = contribute_accounts(&failed_campaign, None);
    assert!(matches!(Processor::process(&PROGRAM, &a, &[3u8], &s).outcome, Err(ProcessError::BorshIo(_))));

    let mut a = contribute_accounts(&failed_campaign, record);
    a[3].key = [5u8; 32];
    assert_eq!(Processor::process(&PROGRAM, &a, &[3u8], &s), refusal(CrowdfundError::InvalidContribPda));

    let mut a = contribute_accounts(&failed_campaign, record);
    a[2].key = [5u8; 32];
    assert_eq!(Processor::process(&PROGRAM, &a, &[3u8], &s), refusal(CrowdfundError::InvalidVaultPda));
}

#[test]
fn refund_overflow_comes_after_payment() {
    let campaign = stored_campaign(5_000, 100, false);
    let a = contribute_accounts(&campaign, Some(ContributionRecord { donor: DONOR, amount: 300 }));
    let plan = Processor::process(&PROGRAM, &a, &[3u8], &sysvars(DEADLINE));
    assert_eq!(plan.effects.len(), 2);
    assert_eq!(plan.outcome, Err(ProcessError::Crowdfund(CrowdfundError::ArithmeticOverflow)));
}
