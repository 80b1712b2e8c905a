use mancer_crowdfund::error::ProcessError;
use mancer_crowdfund::state::{Campaign, ContributionRecord, CAMPAIGN_SIZE, CONTRIBUTION_SIZE};

fn sample_campaign() -> Campaign {
    Campaign {
        creator: [3u8; 32],
        goal: 1_000,
        raised: 250,
        deadline: -7,
        claimed: true,
        vault_bump: 254,
    }
}

#[test]
fn campaign_layout_is_58_bytes_in_field_order() {
    let c = sample_campaign();
    let bytes = c.to_bytes();
    assert_eq!(bytes.len(), CAMPAIGN_SIZE);
    assert_eq!(&bytes[0..32], &[3u8; 32]);
    assert_eq!(&bytes[32..40], &1_000u64.to_le_bytes());
    assert_eq!(&bytes[40..48], &250u64.to_le_bytes());
    assert_eq!(&bytes[48..56], &(-7i64).to_le_bytes());
    assert_eq!(bytes[56], 1);
    assert_eq!(bytes[57], 254);
}

#[test]
fn campaign_layout_matches_borsh() {
    let c = sample_campaign();
    let expected =
        borsh::to_vec(&(c.creator, c.goal, c.raised, c.deadline, c.claimed, c.vault_bump)).unwrap();
    assert_eq!(c.to_bytes(), expected);
}

#[test]
fn campaign_roundtrip() {
    let c = sample_campaign();
    assert_eq!(Campaign::try_from_slice(&c.to_bytes()), Ok(c));
}

#[test]
fn campaign_refuses_bad_flag() {
    let mut bytes = sample_campaign().to_bytes();
    bytes[56] = 2;
    assert_eq!(
        Campaign::try_from_slice(&bytes),
        Err(ProcessError::BorshIo("Invalid bool representation: 2".to_string()))
    );
}

#[test]
fn campaign_refuses_wrong_length() {
    let mut bytes = sample_campaign().to_bytes();
    bytes.push(0);
    assert_eq!(
        Campaign::try_from_slice(&bytes),
        Err(ProcessError::BorshIo("Not all bytes read".to_string()))
    );
    assert_eq!(
        Campaign::try_from_slice(&bytes[..40]),
        Err(ProcessError::BorshIo("Unexpected length of input".to_string()))
    );
    assert!(matches!(Campaign::try_from_slice(&[]), Err(ProcessError::BorshIo(_))));
}

#[test]
fn record_layout_and_roundtrip() {
    let r = ContributionRecord { donor: [9u8; 32], amount: 77 };
    let bytes = r.to_bytes();
    assert_eq!(bytes.len(), CONTRIBUTION_SIZE);
    assert_eq!(&bytes[32..40], &77u64.to_le_bytes());
    assert_eq!(bytes, borsh::to_vec(&(r.donor, r.amount)).unwrap());
    assert_eq!(ContributionRecord::try_from_slice(&bytes), Ok(r));
}

#[test]
fn record_refuses_wrong_length() {
    let bytes = ContributionRecord { donor: [9u8; 32], amount: 77 }.to_bytes();
    assert!(matches!(
        ContributionRecord::try_from_slice(&bytes[..39]),
        Err(ProcessError::BorshIo(_))
    ));
    assert!(matches!(ContributionRecord::try_from_slice(&[0u8; 41]), Err(ProcessError::BorshIo(_))));
}

#[test]
fn decode_messages_name_the_failure() {
    let mut bytes = sample_campaign().to_bytes();
    bytes[56] = 200;
    assert_eq!(
        Campaign::try_from_slice(&bytes),
        Err(ProcessError::BorshIo("Invalid bool representation: 200".to_string()))
    );
    assert_eq!(
        Campaign::try_from_slice(&bytes[..57]),
        Err(ProcessError::BorshIo("Invalid bool representation: 200".to_string()))
    );
    bytes[56] = 0;
    assert_eq!(
        Campaign::try_from_slice(&bytes[..57]),
        Err(ProcessError::BorshIo("Unexpected length of input".to_string()))
    );
    assert_eq!(
        ContributionRecord::try_from_slice(&[0u8; 41]),
        Err(ProcessError::BorshIo("Not all bytes read".to_string()))
    );
    assert_eq!(
        ContributionRecord::try_from_slice(&[0u8; 39]),
        Err(ProcessError::BorshIo("Unexpected length of input".to_string()))
    );
}
