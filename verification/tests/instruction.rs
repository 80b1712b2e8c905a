use mancer_crowdfund::error::{CrowdfundError, ProcessError};
use mancer_crowdfund::instruction::CrowdfundInstruction;

fn create_bytes(goal: u64, deadline: i64) -> Vec<u8> {
    let mut v = vec![0u8];
    v.extend_from_slice(&goal.to_le_bytes());
    v.extend_from_slice(&deadline.to_le_bytes());
    v
}

#[test]
fn unpack_create_campaign() {
    let data = create_bytes(1_000_000, 1_700_000_000);
    assert_eq!(
        CrowdfundInstruction::unpack(&data),
        Ok(CrowdfundInstruction::CreateCampaign { goal: 1_000_000, deadline: 1_700_000_000 })
    );
}

#[test]
fn unpack_create_campaign_negative_deadline() {
    let data = create_bytes(5, -42);
    assert_eq!(
        CrowdfundInstruction::unpack(&data),
        Ok(CrowdfundInstruction::CreateCampaign { goal: 5, deadline: -42 })
    );
}

#[test]
fn unpack_create_campaign_exact_little_endian() {
    let data = vec![0u8, 1, 2, 0, 0, 0, 0, 0, 0, 0xff, 0xff, 0xff, 0xff, 0xff, 0xff, 0xff, 0x7f];
    assert_eq!(
        CrowdfundInstruction::unpack(&data),
        Ok(CrowdfundInstruction::CreateCampaign { goal: 0x0201, deadline: i64::MAX })
    );
}

#[test]
fn unpack_create_campaign_short_payload() {
    let data = create_bytes(1, 2);
    assert_eq!(
        CrowdfundInstruction::unpack(&data[..16]),
        Err(ProcessError::InvalidInstructionData)
    );
}

#[test]
fn unpack_contribute() {
    let mut data = vec![1u8];
    data.extend_from_slice(&250u64.to_le_bytes());
    assert_eq!(
        CrowdfundInstruction::unpack(&data),
        Ok(CrowdfundInstruction::Contribute { amount: 250 })
    );
}

#[test]
fn unpack_contribute_short_payload() {
    assert_eq!(
        CrowdfundInstruction::unpack(&[1u8, 0, 0, 0, 0, 0, 0, 0]),
        Err(ProcessError::InvalidInstructionData)
    );
}

#[test]
fn unpack_withdraw_and_refund() {
    assert_eq!(CrowdfundInstruction::unpack(&[2u8]), Ok(CrowdfundInstruction::Withdraw));
    assert_eq!(CrowdfundInstruction::unpack(&[3u8]), Ok(CrowdfundInstruction::Refund));
}

#[test]
fn unpack_ignores_trailing_bytes() {
    let mut data = vec![1u8];
    data.extend_from_slice(&9u64.to_le_bytes());
    data.extend_from_slice(&[0xaa, 0xbb]);
    assert_eq!(
        CrowdfundInstruction::unpack(&data),
        Ok(CrowdfundInstruction::Contribute { amount: 9 })
    );
    assert_eq!(CrowdfundInstruction::unpack(&[2u8, 9, 9]), Ok(CrowdfundInstruction::Withdraw));
}

#[test]
fn unpack_refuses_empty_and_unknown() {
    assert_eq!(CrowdfundInstruction::unpack(&[]), Err(ProcessError::InvalidInstructionData));
    assert_eq!(CrowdfundInstruction::unpack(&[4u8]), Err(ProcessError::InvalidInstructionData));
    assert_eq!(CrowdfundInstruction::unpack(&[255u8, 0]), Err(ProcessError::InvalidInstructionData));
}

#[test]
fn error_codes_follow_declaration_order() {
    let all = [
        CrowdfundError::DeadlineNotReached,
        CrowdfundError::DeadlineHasPassed,
        CrowdfundError::GoalNotReached,
        CrowdfundError::GoalAlreadyReached,
        CrowdfundError::AlreadyClaimed,
        CrowdfundError::NotCreator,
        CrowdfundError::NotDonor,
        CrowdfundError::InvalidVaultPda,
        CrowdfundError::InvalidContribPda,
        CrowdfundError::NothingToRefund,
        CrowdfundError::ArithmeticOverflow,
    ];
    for (i, e) in all.iter().enumerate() {
        assert_eq!(e.code(), i as u32);
    }
}
