use vstd::prelude::*;

use crate::address::{
    contribution_seeds, contribution_seeds_vec, create_program_address, derived_address,
    lemma_derived_address_recreated,
    is_system_program, keys_equal, no_seeds, program_address, push_bump, system_program_key, vault_seeds,
    try_find_program_address, vault_seeds_vec, with_bump,
};
use crate::error::{CrowdfundError, Failure, ProcessError};
use crate::instruction::{instruction_from_bytes, CrowdfundInstruction};
use crate::state::{
    campaign_bytes, campaign_decode_message, campaign_of, is_campaign_encoding,
    is_record_encoding, lemma_campaign_roundtrip, lemma_record_roundtrip, record_bytes,
    record_decode_message, record_of, Campaign, ContributionRecord, CAMPAIGN_SIZE,
    CONTRIBUTION_SIZE,
};

verus! {

/// What an instruction reads of an account.
#[derive(Debug, Clone)]
pub struct AccountState {
    /// the account's address
    pub key: [u8; 32],
    /// the program that owns the account
    pub owner: [u8; 32],
    /// the account's balance
    pub lamports: u64,
    /// the account's data
    pub data: Vec<u8>,
    /// whether the account signed the transaction
    pub is_signer: bool,
}

/// What an instruction reads of the runtime: the clock, and the rent-exempt
/// minimum balances of the three kinds of account the program creates.
#[derive(Debug, Clone, Copy, PartialEq, Eq, Structural)]
pub struct Sysvars {
    /// the current unix timestamp
    pub unix_timestamp: i64,
    /// the rent-exempt minimum of a campaign account (58 bytes of data)
    pub campaign_rent: u64,
    /// the rent-exempt minimum of a contribution record (40 bytes of data)
    pub contribution_rent: u64,
    /// the rent-exempt minimum of a vault (no data)
    pub vault_rent: u64,
}

/// A call of the system program, its accounts given by their position in
/// the instruction's account list.
#[derive(Debug, Clone, Copy, PartialEq, Eq)]
pub enum SystemCall {
    /// `from` pays `lamports` into the new account `to`, which gets `space`
    /// bytes of data and the owner `owner`.
    CreateAccount { from: usize, to: usize, lamports: u64, space: u64, owner: [u8; 32] },
    /// `from` pays `lamports` to `to`.
    Transfer { from: usize, to: usize, lamports: u64 },
}

/// One step that an instruction asks of the runtime.
#[derive(Debug, Clone, PartialEq, Eq)]
pub enum Effect {
    /// Call the system program (the account at `system_program`), signing
    /// for a program address with `signer_seeds` where they are not empty.
    Invoke { call: SystemCall, system_program: usize, signer_seeds: Vec<Vec<u8>> },
    /// Write `data` at the start of the account's data.
    WriteData { account: usize, data: Vec<u8> },
}

/// [`Effect`] as a value of specifications.
pub enum EffectSpec {
    Invoke { call: SystemCall, system_program: usize, signer_seeds: Seq<Seq<u8>> },
    WriteData { account: usize, data: Seq<u8> },
}

impl View for Effect {
    type V = EffectSpec;

    open spec fn view(&self) -> EffectSpec {
        match self {
            Effect::Invoke { call, system_program, signer_seeds } => EffectSpec::Invoke {
                call: *call,
                system_program: *system_program,
                signer_seeds: signer_seeds.deep_view(),
            },
            Effect::WriteData { account, data } => EffectSpec::WriteData {
                account: *account,
                data: data@,
            },
        }
    }
}

/// What an instruction does: the effects, in order, and then the outcome.
/// The runtime performs the effects one by one and stops at the first that
/// fails, with its error; where all succeed, the instruction ends with
/// `outcome`. A failed instruction leaves no trace.
#[derive(Debug, PartialEq, Eq)]
pub struct Plan {
    pub effects: Vec<Effect>,
    pub outcome: Result<(), ProcessError>,
}

/// [`Plan`] as a value of specifications.
pub struct PlanSpec {
    pub effects: Seq<EffectSpec>,
    pub outcome: Result<(), Failure>,
}

/// The effects as values of specifications.
pub open spec fn effects_view(effects: Seq<Effect>) -> Seq<EffectSpec> {
    effects.map_values(|e: Effect| e@)
}

/// The outcome as a value of specifications.
pub open spec fn outcome_view(outcome: Result<(), ProcessError>) -> Result<(), Failure> {
    match outcome {
        Ok(()) => Ok(()),
        Err(e) => Err(e@),
    }
}

impl View for Plan {
    type V = PlanSpec;

    open spec fn view(&self) -> PlanSpec {
        PlanSpec { effects: effects_view(self.effects@), outcome: outcome_view(self.outcome) }
    }
}

/// The unit struct that holds the instruction processors.
pub struct Processor;

/// The data that the effects write last into an account, if they write any.
pub open spec fn data_written(effects: Seq<EffectSpec>, account: usize) -> Option<Seq<u8>>
    decreases effects.len(),
{
    if effects.len() == 0 {
        None
    } else {
        match effects.last() {
            EffectSpec::WriteData { account: written, data } => if written == account {
                Some(data)
            } else {
                data_written(effects.drop_last(), account)
            },
            _ => data_written(effects.drop_last(), account),
        }
    }
}

/// The lamports that one system call moves from one account to another.
pub open spec fn call_moves(call: SystemCall, from: usize, to: usize) -> int {
    match call {
        SystemCall::CreateAccount { from: f, to: t, lamports, .. } => if f == from && t == to {
            lamports as int
        } else {
            0
        },
        SystemCall::Transfer { from: f, to: t, lamports } => if f == from && t == to {
            lamports as int
        } else {
            0
        },
    }
}

/// The lamports that the effects move from one account to another.
pub open spec fn lamports_moved(effects: Seq<EffectSpec>, from: usize, to: usize) -> int
    decreases effects.len(),
{
    if effects.len() == 0 {
        0
    } else {
        lamports_moved(effects.drop_last(), from, to) + match effects.last() {
            EffectSpec::Invoke { call, .. } => call_moves(call, from, to),
            _ => 0,
        }
    }
}

// ---------------------------------------------------------------------------
// The rules of a campaign

/// Why a contribution to the campaign is refused at time `now`, if it is.
pub open spec fn contribution_refusal(c: Campaign, now: i64) -> Option<CrowdfundError> {
    if now >= c.deadline {
        Some(CrowdfundError::DeadlineHasPassed)
    } else {
        None
    }
}

/// Why the account `caller` may not withdraw the campaign's funds at time
/// `now`, if it may not.
pub open spec fn withdrawal_refusal(c: Campaign, caller: Seq<u8>, now: i64) -> Option<CrowdfundError> {
    if caller != c.creator@ {
        Some(CrowdfundError::NotCreator)
    } else if c.claimed {
        Some(CrowdfundError::AlreadyClaimed)
    } else if now < c.deadline {
        Some(CrowdfundError::DeadlineNotReached)
    } else if c.raised < c.goal {
        Some(CrowdfundError::GoalNotReached)
    } else {
        None
    }
}

/// Why refunds of the campaign are refused at time `now`, if they are.
pub open spec fn refund_refusal(c: Campaign, now: i64) -> Option<CrowdfundError> {
    if now < c.deadline {
        Some(CrowdfundError::DeadlineNotReached)
    } else if c.raised >= c.goal {
        Some(CrowdfundError::GoalAlreadyReached)
    } else {
        None
    }
}

/// A new campaign.
pub open spec fn new_campaign(creator: [u8; 32], goal: u64, deadline: i64, bump: u8) -> Campaign {
    Campaign { creator, goal, raised: 0, deadline, claimed: false, vault_bump: bump }
}

/// The campaign with another total raised.
pub open spec fn with_raised(c: Campaign, raised: u64) -> Campaign {
    Campaign { raised, ..c }
}

/// The campaign marked as withdrawn.
pub open spec fn as_claimed(c: Campaign) -> Campaign {
    Campaign { claimed: true, ..c }
}

// ---------------------------------------------------------------------------
// What each instruction does

/// A plan that fails before any effect.
pub open spec fn fail(f: Failure) -> PlanSpec {
    PlanSpec { effects: seq![], outcome: Err(f) }
}

/// A plan that the program's rules refuse before any effect.
pub open spec fn refuse(e: CrowdfundError) -> PlanSpec {
    fail(Failure::Crowdfund(e))
}

/// A system program call as a value of specifications.
pub open spec fn invoke(call: SystemCall, system_program: usize, signer_seeds: Seq<Seq<u8>>) -> EffectSpec {
    EffectSpec::Invoke { call, system_program, signer_seeds }
}

/// An account write as a value of specifications.
pub open spec fn write(account: usize, data: Seq<u8>) -> EffectSpec {
    EffectSpec::WriteData { account, data }
}

/// Create a campaign. Accounts: creator, campaign account, vault, system
/// program.
pub open spec fn create_campaign_plan(
    program_id: [u8; 32],
    a: Seq<AccountState>,
    goal: u64,
    deadline: i64,
    sys: Sysvars,
) -> PlanSpec {
    if a.len() < 4 {
        fail(Failure::NotEnoughAccountKeys)
    } else if !a[0].is_signer {
        fail(Failure::MissingRequiredSignature)
    } else if a[3].key@ != system_program_key() {
        fail(Failure::IncorrectProgramId)
    } else if goal == 0 {
        fail(Failure::InvalidArgument)
    } else if deadline <= sys.unix_timestamp {
        refuse(CrowdfundError::DeadlineHasPassed)
    } else if a[1].lamports != 0 || a[1].data@.len() != 0 {
        fail(Failure::AccountAlreadyInitialized)
    } else {
        match derived_address(vault_seeds(a[1].key@), program_id@) {
            None => fail(Failure::NoProgramAddress),
            Some((vault, bump)) => if vault != a[2].key@ {
                refuse(CrowdfundError::InvalidVaultPda)
            } else {
                PlanSpec {
                    effects: seq![
                        invoke(
                            SystemCall::CreateAccount {
                                from: 0,
                                to: 1,
                                lamports: sys.campaign_rent,
                                space: CAMPAIGN_SIZE as u64,
                                owner: program_id,
                            },
                            3,
                            seq![],
                        ),
                        invoke(
                            SystemCall::CreateAccount {
                                from: 0,
                                to: 2,
                                lamports: sys.vault_rent,
                                space: 0,
                                owner: a[3].key,
                            },
                            3,
                            with_bump(vault_seeds(a[1].key@), bump),
                        ),
                        write(1, campaign_bytes(new_campaign(a[0].key, goal, deadline, bump))),
                    ],
                    outcome: Ok(()),
                }
            },
        }
    }
}

/// The record step of a contribution: create the donor's record, or add to
/// the record that exists.
pub open spec fn contribution_record_effects(
    program_id: [u8; 32],
    a: Seq<AccountState>,
    amount: u64,
    sys: Sysvars,
    record_bump: u8,
) -> Result<Seq<EffectSpec>, Failure> {
    if a[3].lamports == 0 {
        Ok(
            seq![
                invoke(
                    SystemCall::CreateAccount {
                        from: 0,
                        to: 3,
                        lamports: sys.contribution_rent,
                        space: CONTRIBUTION_SIZE as u64,
                        owner: program_id,
                    },
                    4,
                    with_bump(contribution_seeds(a[1].key@, a[0].key@), record_bump),
                ),
                write(3, record_bytes(ContributionRecord { donor: a[0].key, amount })),
            ],
        )
    } else if !is_record_encoding(a[3].data@) {
        Err(Failure::BorshIo(record_decode_message(a[3].data@)))
    } else {
        let r = record_of(a[3].data@);
        if r.donor@ != a[0].key@ {
            Err(Failure::Crowdfund(CrowdfundError::NotDonor))
        } else if r.amount + amount > u64::MAX {
            Err(Failure::Crowdfund(CrowdfundError::ArithmeticOverflow))
        } else {
            Ok(
                seq![
                    write(
                        3,
                        record_bytes(
                            ContributionRecord { donor: r.donor, amount: (r.amount + amount) as u64 },
                        ),
                    ),
                ],
            )
        }
    }
}

/// Contribute `amount`. Accounts: donor, campaign account, vault, donor's
/// contribution record, system program.
pub open spec fn contribute_plan(
    program_id: [u8; 32],
    a: Seq<AccountState>,
    amount: u64,
    sys: Sysvars,
) -> PlanSpec {
    if a.len() < 5 {
        fail(Failure::NotEnoughAccountKeys)
    } else if !a[0].is_signer {
        fail(Failure::MissingRequiredSignature)
    } else if a[4].key@ != system_program_key() {
        fail(Failure::IncorrectProgramId)
    } else if amount == 0 {
        fail(Failure::InvalidArgument)
    } else if a[1].owner@ != program_id@ {
        fail(Failure::IllegalOwner)
    } else if !is_campaign_encoding(a[1].data@) {
        fail(Failure::BorshIo(campaign_decode_message(a[1].data@)))
    } else {
        let c = campaign_of(a[1].data@);
        if contribution_refusal(c, sys.unix_timestamp) is Some {
            refuse(contribution_refusal(c, sys.unix_timestamp).unwrap())
        } else {
            match derived_address(vault_seeds(a[1].key@), program_id@) {
                None => fail(Failure::NoProgramAddress),
                Some((vault, _)) => if vault != a[2].key@ {
                    refuse(CrowdfundError::InvalidVaultPda)
                } else {
                    match derived_address(contribution_seeds(a[1].key@, a[0].key@), program_id@) {
                        None => fail(Failure::NoProgramAddress),
                        Some((record, record_bump)) => if record != a[3].key@ {
                            refuse(CrowdfundError::InvalidContribPda)
                        } else {
                            match contribution_record_effects(program_id, a, amount, sys, record_bump) {
                                Err(f) => fail(f),
                                Ok(pre) => {
                                    let effects = pre.push(
                                        invoke(SystemCall::Transfer { from: 0, to: 2, lamports: amount }, 4, seq![]),
                                    );
                                    if c.raised + amount > u64::MAX {
                                        PlanSpec {
                                            effects,
                                            outcome: Err(Failure::Crowdfund(CrowdfundError::ArithmeticOverflow)),
                                        }
                                    } else {
                                        PlanSpec {
                                            effects: effects.push(
                                                write(1, campaign_bytes(with_raised(c, (c.raised + amount) as u64))),
                                            ),
                                            outcome: Ok(()),
                                        }
                                    }
                                },
                            }
                        },
                    }
                },
            }
        }
    }
}

/// Withdraw the funds of a successful campaign. Accounts: creator, campaign
/// account, vault, system program.
pub open spec fn withdraw_plan(program_id: [u8; 32], a: Seq<AccountState>, sys: Sysvars) -> PlanSpec {
    if a.len() < 4 {
        fail(Failure::NotEnoughAccountKeys)
    } else if !a[0].is_signer {
        fail(Failure::MissingRequiredSignature)
    } else if a[3].key@ != system_program_key() {
        fail(Failure::IncorrectProgramId)
    } else if a[1].owner@ != program_id@ {
        fail(Failure::IllegalOwner)
    } else if !is_campaign_encoding(a[1].data@) {
        fail(Failure::BorshIo(campaign_decode_message(a[1].data@)))
    } else {
        let c = campaign_of(a[1].data@);
        let seeds = with_bump(vault_seeds(a[1].key@), c.vault_bump);
        if withdrawal_refusal(c, a[0].key@, sys.unix_timestamp) is Some {
            refuse(withdrawal_refusal(c, a[0].key@, sys.unix_timestamp).unwrap())
        } else if program_address(seeds, program_id@) != Some(a[2].key@) {
            refuse(CrowdfundError::InvalidVaultPda)
        } else if a[2].lamports < sys.vault_rent || a[2].lamports - sys.vault_rent == 0 {
            fail(Failure::InsufficientFunds)
        } else {
            PlanSpec {
                effects: seq![
                    invoke(
                        SystemCall::Transfer { from: 2, to: 0, lamports: (a[2].lamports - sys.vault_rent) as u64 },
                        3,
                        seeds,
                    ),
                    write(1, campaign_bytes(as_claimed(c))),
                ],
                outcome: Ok(()),
            }
        }
    }
}

/// Refund a donor of a failed campaign. Accounts: donor, campaign account,
/// vault, donor's contribution record, system program.
pub open spec fn refund_plan(program_id: [u8; 32], a: Seq<AccountState>, sys: Sysvars) -> PlanSpec {
    if a.len() < 5 {
        fail(Failure::NotEnoughAccountKeys)
    } else if !a[0].is_signer {
        fail(Failure::MissingRequiredSignature)
    } else if a[4].key@ != system_program_key() {
        fail(Failure::IncorrectProgramId)
    } else if a[1].owner@ != program_id@ {
        fail(Failure::IllegalOwner)
    } else if !is_campaign_encoding(a[1].data@) {
        fail(Failure::BorshIo(campaign_decode_message(a[1].data@)))
    } else {
        let c = campaign_of(a[1].data@);
        let seeds = with_bump(vault_seeds(a[1].key@), c.vault_bump);
        if refund_refusal(c, sys.unix_timestamp) is Some {
            refuse(refund_refusal(c, sys.unix_timestamp).unwrap())
        } else if program_address(seeds, program_id@) != Some(a[2].key@) {
            refuse(CrowdfundError::InvalidVaultPda)
        } else {
            match derived_address(contribution_seeds(a[1].key@, a[0].key@), program_id@) {
                None => fail(Failure::NoProgramAddress),
                Some((record, _)) => if record != a[3].key@ {
                    refuse(CrowdfundError::InvalidContribPda)
                } else if !is_record_encoding(a[3].data@) {
                    fail(Failure::BorshIo(record_decode_message(a[3].data@)))
                } else {
                    let r = record_of(a[3].data@);
                    if r.donor@ != a[0].key@ {
                        refuse(CrowdfundError::NotDonor)
                    } else if r.amount == 0 {
                        refuse(CrowdfundError::NothingToRefund)
                    } else {
                        let effects = seq![
                            invoke(SystemCall::Transfer { from: 2, to: 0, lamports: r.amount }, 4, seeds),
                            write(3, record_bytes(ContributionRecord { donor: r.donor, amount: 0 })),
                        ];
                        if c.raised < r.amount {
                            PlanSpec {
                                effects,
                                outcome: Err(Failure::Crowdfund(CrowdfundError::ArithmeticOverflow)),
                            }
                        } else {
                            PlanSpec {
                                effects: effects.push(
                                    write(1, campaign_bytes(with_raised(c, (c.raised - r.amount) as u64))),
                                ),
                                outcome: Ok(()),
                            }
                        }
                    }
                },
            }
        }
    }
}

/// What the program does with an instruction.
pub open spec fn process_plan(
    program_id: [u8; 32],
    a: Seq<AccountState>,
    instruction_data: Seq<u8>,
    sys: Sysvars,
) -> PlanSpec {
    match instruction_from_bytes(instruction_data) {
        None => fail(Failure::InvalidInstructionData),
        Some(CrowdfundInstruction::CreateCampaign { goal, deadline }) => create_campaign_plan(
            program_id,
            a,
            goal,
            deadline,
            sys,
        ),
        Some(CrowdfundInstruction::Contribute { amount }) => contribute_plan(program_id, a, amount, sys),
        Some(CrowdfundInstruction::Withdraw) => withdraw_plan(program_id, a, sys),
        Some(CrowdfundInstruction::Refund) => refund_plan(program_id, a, sys),
    }
}

// ---------------------------------------------------------------------------
// The processors

fn failed(e: ProcessError) -> (p: Plan)
    ensures
        p@ == fail(e@),
{
    let p = Plan { effects: Vec::new(), outcome: Err(e) };
    assert(p@.effects =~= seq![]);
    p
}

fn refused(e: CrowdfundError) -> (p: Plan)
    ensures
        p@ == refuse(e),
{
    failed(ProcessError::Crowdfund(e))
}

fn push_effect(effects: &mut Vec<Effect>, e: Effect)
    ensures
        effects_view(final(effects)@) == effects_view(old(effects)@).push(e@),
{
    effects.push(e);
    assert(effects_view(effects@) =~= effects_view(old(effects)@).push(e@));
}

fn transfer(from: usize, to: usize, lamports: u64, system_program: usize, signer_seeds: Vec<Vec<u8>>) -> (e: Effect)
    ensures
        e@ == invoke(SystemCall::Transfer { from, to, lamports }, system_program, signer_seeds.deep_view()),
{
    Effect::Invoke { call: SystemCall::Transfer { from, to, lamports }, system_program, signer_seeds }
}

impl Processor {
    /// Decodes an instruction and does what it asks.
    pub fn process(
        program_id: &[u8; 32],
        accounts: &Vec<AccountState>,
        instruction_data: &[u8],
        sysvars: &Sysvars,
    ) -> (plan: Plan)
        ensures
            plan@ == process_plan(*program_id, accounts@, instruction_data@, *sysvars),
    {
        match CrowdfundInstruction::unpack(instruction_data) {
            Err(e) => failed(e),
            Ok(CrowdfundInstruction::CreateCampaign { goal, deadline }) => {
                Self::process_create_campaign(program_id, accounts, goal, deadline, sysvars)
            },
            Ok(CrowdfundInstruction::Contribute { amount }) => {
                Self::process_contribute(program_id, accounts, amount, sysvars)
            },
            Ok(CrowdfundInstruction::Withdraw) => Self::process_withdraw(program_id, accounts, sysvars),
            Ok(CrowdfundInstruction::Refund) => Self::process_refund(program_id, accounts, sysvars),
        }
    }

    /// Creates a campaign. Accounts: creator, campaign account, vault,
    /// system program. The vault is the program address that withdrawals
    /// and refunds recompute from the stored bump seed.
    pub fn process_create_campaign(
        program_id: &[u8; 32],
        accounts: &Vec<AccountState>,
        goal: u64,
        deadline: i64,
        sysvars: &Sysvars,
    ) -> (plan: Plan)
        ensures
            plan@ == create_campaign_plan(*program_id, accounts@, goal, deadline, *sysvars),
            plan@.outcome is Ok ==> ({
                let c = campaign_of(data_written(plan@.effects, 1).unwrap());
                program_address(with_bump(vault_seeds(accounts@[1].key@), c.vault_bump), program_id@)
                    == Some(accounts@[2].key@)
            }),
    {
        if accounts.len() < 4 {
            return failed(ProcessError::NotEnoughAccountKeys);
        }
        let creator = &accounts[0];
        let campaign_account = &accounts[1];
        let vault = &accounts[2];
        let system_program = &accounts[3];
        if !creator.is_signer {
            return failed(ProcessError::MissingRequiredSignature);
        }
        if !is_system_program(&system_program.key) {
            return failed(ProcessError::IncorrectProgramId);
        }
        if goal == 0 {
            return failed(ProcessError::InvalidArgument);
        }
        if deadline <= sysvars.unix_timestamp {
            return refused(CrowdfundError::DeadlineHasPassed);
        }
        // block reinitialization
        if campaign_account.lamports != 0 || campaign_account.data.len() != 0 {
            return failed(ProcessError::AccountAlreadyInitialized);
        }
        let mut seeds = vault_seeds_vec(&campaign_account.key);
        let (vault_key, vault_bump) = match try_find_program_address(&seeds, program_id) {
            None => {
                return failed(ProcessError::NoProgramAddress);
            },
            Some(found) => found,
        };
        if !keys_equal(&vault.key, &vault_key) {
            return refused(CrowdfundError::InvalidVaultPda);
        }
        push_bump(&mut seeds, vault_bump);
        let campaign = Campaign {
            creator: creator.key,
            goal,
            raised: 0,
            deadline,
            claimed: false,
            vault_bump,
        };
        let mut effects: Vec<Effect> = Vec::new();
        push_effect(
            &mut effects,
            Effect::Invoke {
                call: SystemCall::CreateAccount {
                    from: 0,
                    to: 1,
                    lamports: sysvars.campaign_rent,
                    space: CAMPAIGN_SIZE as u64,
                    owner: *program_id,
                },
                system_program: 3,
                signer_seeds: no_seeds(),
            },
        );
        push_effect(
            &mut effects,
            Effect::Invoke {
                call: SystemCall::CreateAccount {
                    from: 0,
                    to: 2,
                    lamports: sysvars.vault_rent,
                    space: 0,
                    owner: system_program.key,
                },
                system_program: 3,
                signer_seeds: seeds,
            },
        );
        push_effect(&mut effects, Effect::WriteData { account: 1, data: campaign.to_bytes() });
        let plan = Plan { effects, outcome: Ok(()) };
        assert(plan@.effects =~= create_campaign_plan(*program_id, accounts@, goal, deadline, *sysvars).effects);
        proof {
            lemma_derived_address_recreated(vault_seeds(campaign_account.key@), program_id@);
            reveal_with_fuel(data_written, 4);
            lemma_campaign_roundtrip(campaign);
        }
        plan
    }

    /// Contributes `amount` lamports. Accounts: donor, campaign account,
    /// vault, donor's contribution record, system program.
    pub fn process_contribute(
        program_id: &[u8; 32],
        accounts: &Vec<AccountState>,
        amount: u64,
        sysvars: &Sysvars,
    ) -> (plan: Plan)
        ensures
            plan@ == contribute_plan(*program_id, accounts@, amount, *sysvars),
    {
        if accounts.len() < 5 {
            return failed(ProcessError::NotEnoughAccountKeys);
        }
        let donor = &accounts[0];
        let campaign_account = &accounts[1];
        let vault = &accounts[2];
        let contribution = &accounts[3];
        let system_program = &accounts[4];
        if !donor.is_signer {
            return failed(ProcessError::MissingRequiredSignature);
        }
        if !is_system_program(&system_program.key) {
            return failed(ProcessError::IncorrectProgramId);
        }
        if amount == 0 {
            return failed(ProcessError::InvalidArgument);
        }
        if !keys_equal(&campaign_account.owner, program_id) {
            return failed(ProcessError::IllegalOwner);
        }
        let campaign = match Campaign::try_from_slice(campaign_account.data.as_slice()) {
            Err(e) => {
                return failed(e);
            },
            Ok(c) => c,
        };
        proof {
            lemma_campaign_roundtrip(campaign);
        }
        if sysvars.unix_timestamp >= campaign.deadline {
            return refused(CrowdfundError::DeadlineHasPassed);
        }
        let vault_seeds = vault_seeds_vec(&campaign_account.key);
        match try_find_program_address(&vault_seeds, program_id) {
            None => {
                return failed(ProcessError::NoProgramAddress);
            },
            Some((vault_key, _)) => {
                if !keys_equal(&vault.key, &vault_key) {
                    return refused(CrowdfundError::InvalidVaultPda);
                }
            },
        }
        let mut record_seeds = contribution_seeds_vec(&campaign_account.key, &donor.key);
        let (record_key, record_bump) = match try_find_program_address(&record_seeds, program_id) {
            None => {
                return failed(ProcessError::NoProgramAddress);
            },
            Some(found) => found,
        };
        if !keys_equal(&contribution.key, &record_key) {
            return refused(CrowdfundError::InvalidContribPda);
        }
        let mut effects: Vec<Effect> = Vec::new();
        if contribution.lamports == 0 {
            // first contribution from this donor
            push_bump(&mut record_seeds, record_bump);
            push_effect(
                &mut effects,
                Effect::Invoke {
                    call: SystemCall::CreateAccount {
                        from: 0,
                        to: 3,
                        lamports: sysvars.contribution_rent,
                        space: CONTRIBUTION_SIZE as u64,
                        owner: *program_id,
                    },
                    system_program: 4,
                    signer_seeds: record_seeds,
                },
            );
            let record = ContributionRecord { donor: donor.key, amount };
            push_effect(&mut effects, Effect::WriteData { account: 3, data: record.to_bytes() });
        } else {
            // add to existing record
            let record = match ContributionRecord::try_from_slice(contribution.data.as_slice()) {
                Err(e) => {
                    return failed(e);
                },
                Ok(r) => r,
            };
            proof {
                lemma_record_roundtrip(record);
            }
            if !keys_equal(&record.donor, &donor.key) {
                return refused(CrowdfundError::NotDonor);
            }
            let total = match record.amount.checked_add(amount) {
                None => {
                    return refused(CrowdfundError::ArithmeticOverflow);
                },
                Some(t) => t,
            };
            let updated = ContributionRecord { donor: record.donor, amount: total };
            push_effect(&mut effects, Effect::WriteData { account: 3, data: updated.to_bytes() });
        }
        let ghost pre = effects_view(effects@);
        assert(contribution_record_effects(*program_id, accounts@, amount, *sysvars, record_bump) == Ok::<
            Seq<EffectSpec>,
            Failure,
        >(pre)) by {
            assert(pre =~= contribution_record_effects(*program_id, accounts@, amount, *sysvars, record_bump)->Ok_0);
        }
        push_effect(&mut effects, transfer(0, 2, amount, 4, no_seeds()));
        let raised = match campaign.raised.checked_add(amount) {
            None => {
                return Plan {
                    effects,
                    outcome: Err(ProcessError::Crowdfund(CrowdfundError::ArithmeticOverflow)),
                };
            },
            Some(r) => r,
        };
        let updated = Campaign {
            creator: campaign.creator,
            goal: campaign.goal,
            raised,
            deadline: campaign.deadline,
            claimed: campaign.claimed,
            vault_bump: campaign.vault_bump,
        };
        push_effect(&mut effects, Effect::WriteData { account: 1, data: updated.to_bytes() });
        Plan { effects, outcome: Ok(()) }
    }

    /// Withdraws a successful campaign's funds to its creator. Accounts:
    /// creator, campaign account, vault, system program.
    pub fn process_withdraw(program_id: &[u8; 32], accounts: &Vec<AccountState>, sysvars: &Sysvars) -> (plan: Plan)
        ensures
            plan@ == withdraw_plan(*program_id, accounts@, *sysvars),
    {
        if accounts.len() < 4 {
            return failed(ProcessError::NotEnoughAccountKeys);
        }
        let creator = &accounts[0];
        let campaign_account = &accounts[1];
        let vault = &accounts[2];
        let system_program = &accounts[3];
        if !creator.is_signer {
            return failed(ProcessError::MissingRequiredSignature);
        }
        if !is_system_program(&system_program.key) {
            return failed(ProcessError::IncorrectProgramId);
        }
        if !keys_equal(&campaign_account.owner, program_id) {
            return failed(ProcessError::IllegalOwner);
        }
        let campaign = match Campaign::try_from_slice(campaign_account.data.as_slice()) {
            Err(e) => {
                return failed(e);
            },
            Ok(c) => c,
        };
        proof {
            lemma_campaign_roundtrip(campaign);
        }
        if !keys_equal(&creator.key, &campaign.creator) {
            return refused(CrowdfundError::NotCreator);
        }
        if campaign.claimed {
            return refused(CrowdfundError::AlreadyClaimed);
        }
        if sysvars.unix_timestamp < campaign.deadline {
            return refused(CrowdfundError::DeadlineNotReached);
        }
        if campaign.raised < campaign.goal {
            return refused(CrowdfundError::GoalNotReached);
        }
        let mut seeds = vault_seeds_vec(&campaign_account.key);
        push_bump(&mut seeds, campaign.vault_bump);
        match create_program_address(&seeds, program_id) {
            None => {
                return refused(CrowdfundError::InvalidVaultPda);
            },
            Some(vault_key) => {
                if !keys_equal(&vault.key, &vault_key) {
                    return refused(CrowdfundError::InvalidVaultPda);
                }
            },
        }
        let withdraw_amount = match vault.lamports.checked_sub(sysvars.vault_rent) {
            None => {
                return failed(ProcessError::InsufficientFunds);
            },
            Some(w) => w,
        };
        if withdraw_amount == 0 {
            return failed(ProcessError::InsufficientFunds);
        }
        let mut effects: Vec<Effect> = Vec::new();
        push_effect(&mut effects, transfer(2, 0, withdraw_amount, 3, seeds));
        let updated = Campaign {
            creator: campaign.creator,
            goal: campaign.goal,
            raised: campaign.raised,
            deadline: campaign.deadline,
            claimed: true,
            vault_bump: campaign.vault_bump,
        };
        push_effect(&mut effects, Effect::WriteData { account: 1, data: updated.to_bytes() });
        let plan = Plan { effects, outcome: Ok(()) };
        assert(plan@.effects =~= withdraw_plan(*program_id, accounts@, *sysvars).effects);
        plan
    }

    /// Refunds a donor of a failed campaign. Accounts: donor, campaign
    /// account, vault, donor's contribution record, system program.
    pub fn process_refund(program_id: &[u8; 32], accounts: &Vec<AccountState>, sysvars: &Sysvars) -> (plan: Plan)
        ensures
            plan@ == refund_plan(*program_id, accounts@, *sysvars),
    {
        if accounts.len() < 5 {
            return failed(ProcessError::NotEnoughAccountKeys);
        }
        let donor = &accounts[0];
        let campaign_account = &accounts[1];
        let vault = &accounts[2];
        let contribution = &accounts[3];
        let system_program = &accounts[4];
        if !donor.is_signer {
            return failed(ProcessError::MissingRequiredSignature);
        }
        if !is_system_program(&system_program.key) {
            return failed(ProcessError::IncorrectProgramId);
        }
        if !keys_equal(&campaign_account.owner, program_id) {
            return failed(ProcessError::IllegalOwner);
        }
        let campaign = match Campaign::try_from_slice(campaign_account.data.as_slice()) {
            Err(e) => {
                return failed(e);
            },
            Ok(c) => c,
        };
        proof {
            lemma_campaign_roundtrip(campaign);
        }
        if sysvars.unix_timestamp < campaign.deadline {
            return refused(CrowdfundError::DeadlineNotReached);
        }
        if campaign.raised >= campaign.goal {
            return refused(CrowdfundError::GoalAlreadyReached);
        }
        let mut seeds = vault_seeds_vec(&campaign_account.key);
        push_bump(&mut seeds, campaign.vault_bump);
        match create_program_address(&seeds, program_id) {
            None => {
                return refused(CrowdfundError::InvalidVaultPda);
            },
            Some(vault_key) => {
                if !keys_equal(&vault.key, &vault_key) {
                    return refused(CrowdfundError::InvalidVaultPda);
                }
            },
        }
        let record_seeds = contribution_seeds_vec(&campaign_account.key, &donor.key);
        match try_find_program_address(&record_seeds, program_id) {
            None => {
                return failed(ProcessError::NoProgramAddress);
            },
            Some((record_key, _)) => {
                if !keys_equal(&contribution.key, &record_key) {
                    return refused(CrowdfundError::InvalidContribPda);
                }
            },
        }
        let record = match ContributionRecord::try_from_slice(contribution.data.as_slice()) {
            Err(e) => {
                return failed(e);
            },
            Ok(r) => r,
        };
        proof {
            lemma_record_roundtrip(record);
        }
        if !keys_equal(&record.donor, &donor.key) {
            return refused(CrowdfundError::NotDonor);
        }
        if record.amount == 0 {
            return refused(CrowdfundError::NothingToRefund);
        }
        let refund_amount = record.amount;
        let mut effects: Vec<Effect> = Vec::new();
        push_effect(&mut effects, transfer(2, 0, refund_amount, 4, seeds));
        // zero out to prevent a second refund
        let zeroed = ContributionRecord { donor: record.donor, amount: 0 };
        push_effect(&mut effects, Effect::WriteData { account: 3, data: zeroed.to_bytes() });
        let raised = match campaign.raised.checked_sub(refund_amount) {
            None => {
                let plan = Plan {
                    effects,
                    outcome: Err(ProcessError::Crowdfund(CrowdfundError::ArithmeticOverflow)),
                };
                assert(plan@.effects =~= refund_plan(*program_id, accounts@, *sysvars).effects);
                return plan;
            },
            Some(r) => r,
        };
        let updated = Campaign {
            creator: campaign.creator,
            goal: campaign.goal,
            raised,
            deadline: campaign.deadline,
            claimed: campaign.claimed,
            vault_bump: campaign.vault_bump,
        };
        push_effect(&mut effects, Effect::WriteData { account: 1, data: updated.to_bytes() });
        let plan = Plan { effects, outcome: Ok(()) };
        assert(plan@.effects =~= refund_plan(*program_id, accounts@, *sysvars).effects);
        plan
    }
}

} // verus!
