use vstd::prelude::*;
use vstd::bytes::{lemma_auto_spec_u64_to_from_le_bytes, spec_u64_from_le_bytes, spec_u64_to_le_bytes};

use crate::error::{Failure, ProcessError};
use crate::instruction::{
    lemma_i64_bytes_canonical, lemma_i64_le_bytes_roundtrip, spec_i64_from_le_bytes,
    spec_i64_to_le_bytes,
};

verus! {

broadcast use vstd::array::group_array_axioms;

/// Bytes of a campaign account's data.
pub const CAMPAIGN_SIZE: usize = 58;

/// Bytes of a contribution record account's data.
pub const CONTRIBUTION_SIZE: usize = 40;

/// Stored in the campaign account, 58 bytes in all.
#[derive(Debug, Clone, Copy, PartialEq, Eq)]
pub struct Campaign {
    /// wallet that created the campaign
    pub creator: [u8; 32],
    /// target amount in lamports
    pub goal: u64,
    /// total lamports contributed so far
    pub raised: u64,
    /// unix timestamp when the campaign ends
    pub deadline: i64,
    /// true once the creator has withdrawn funds
    pub claimed: bool,
    /// bump seed for the vault PDA
    pub vault_bump: u8,
}

/// Stored in the contribution account of each donor, 40 bytes in all.
#[derive(Debug, Clone, Copy, PartialEq, Eq)]
pub struct ContributionRecord {
    /// wallet that made the contribution
    pub donor: [u8; 32],
    /// total lamports this donor has contributed
    pub amount: u64,
}

/// The byte that stores a flag.
pub open spec fn bool_byte(b: bool) -> u8 {
    if b {
        1
    } else {
        0
    }
}

/// A campaign's account data: its fields in declaration order, integers in
/// little-endian order, the flag as one byte 0 or 1.
pub open spec fn campaign_bytes(c: Campaign) -> Seq<u8> {
    c.creator@ + spec_u64_to_le_bytes(c.goal) + spec_u64_to_le_bytes(c.raised) + spec_i64_to_le_bytes(
        c.deadline,
    ) + seq![bool_byte(c.claimed), c.vault_bump]
}

/// A record's account data: the donor's key, then the amount in
/// little-endian order.
pub open spec fn record_bytes(r: ContributionRecord) -> Seq<u8> {
    r.donor@ + spec_u64_to_le_bytes(r.amount)
}

/// The bytes hold some campaign.
pub open spec fn is_campaign_encoding(b: Seq<u8>) -> bool {
    exists|c: Campaign| campaign_bytes(c) == b
}

/// The bytes hold some record.
pub open spec fn is_record_encoding(b: Seq<u8>) -> bool {
    exists|r: ContributionRecord| record_bytes(r) == b
}

/// The campaign that the bytes hold (meaningful where `is_campaign_encoding`).
pub open spec fn campaign_of(b: Seq<u8>) -> Campaign {
    choose|c: Campaign| campaign_bytes(c) == b
}

/// The record that the bytes hold (meaningful where `is_record_encoding`).
pub open spec fn record_of(b: Seq<u8>) -> ContributionRecord {
    choose|r: ContributionRecord| record_bytes(r) == b
}

/// The decimal digits of a number.
pub open spec fn decimal(n: nat) -> Seq<char>
    decreases n,
{
    let digit = seq!['0', '1', '2', '3', '4', '5', '6', '7', '8', '9'][(n % 10) as int];
    if n < 10 {
        seq![digit]
    } else {
        decimal(n / 10).push(digit)
    }
}

/// What the decoder reports where the bytes end before a field.
pub open spec fn short_input_message() -> Seq<char> {
    "Unexpected length of input"@
}

/// What the decoder reports where bytes are left after the last field.
pub open spec fn trailing_bytes_message() -> Seq<char> {
    "Not all bytes read"@
}

/// What the decoder reports for a flag byte other than 0 or 1.
pub open spec fn bad_flag_message(b: u8) -> Seq<char> {
    "Invalid bool representation: "@ + decimal(b as nat)
}

/// What the decoder reports for bytes that hold no campaign: it reads the
/// fields in order and stops at the first that fails, then checks that no
/// bytes are left.
pub open spec fn campaign_decode_message(bytes: Seq<u8>) -> Seq<char> {
    if bytes.len() < 57 {
        short_input_message()
    } else if bytes[56] > 1 {
        bad_flag_message(bytes[56])
    } else if bytes.len() < 58 {
        short_input_message()
    } else {
        trailing_bytes_message()
    }
}

/// What the decoder reports for bytes that hold no record.
pub open spec fn record_decode_message(bytes: Seq<u8>) -> Seq<char> {
    if bytes.len() < 40 {
        short_input_message()
    } else {
        trailing_bytes_message()
    }
}

/// `borsh::from_slice` on the tuple of a campaign's field types. Claimed of
/// it: it succeeds exactly on 58 bytes whose flag byte (index 56) is 0 or 1;
/// then the key is the first 32 bytes, the integers are read little-endian
/// from the next 8-byte groups, the flag is byte 56 and the bump byte 57.
/// Otherwise its error's message is `campaign_decode_message` of the bytes.
#[verifier::external_body]
fn borsh_read_campaign(bytes: &[u8]) -> (res: Result<([u8; 32], u64, u64, i64, bool, u8), String>)
    ensures
        res is Ok <==> (bytes@.len() == 58 && bytes@[56] <= 1),
        res matches Ok(f) ==> {
            &&& f.0@ == bytes@.subrange(0, 32)
            &&& f.1 == spec_u64_from_le_bytes(bytes@.subrange(32, 40))
            &&& f.2 == spec_u64_from_le_bytes(bytes@.subrange(40, 48))
            &&& f.3 == spec_i64_from_le_bytes(bytes@.subrange(48, 56))
            &&& f.4 == (bytes@[56] == 1)
            &&& f.5 == bytes@[57]
        },
        res matches Err(m) ==> m@ == campaign_decode_message(bytes@),
{
    borsh::from_slice::<([u8; 32], u64, u64, i64, bool, u8)>(bytes).map_err(|e| e.to_string())
}

/// `borsh::to_vec` on the tuple of a campaign's field types. Claimed of it:
/// it succeeds, with the key's bytes, the integers little-endian, the flag
/// as 0 or 1 and the bump byte, in that order.
#[verifier::external_body]
fn borsh_write_campaign(fields: ([u8; 32], u64, u64, i64, bool, u8)) -> (res: Result<Vec<u8>, String>)
    ensures
        res is Ok,
        res matches Ok(v) ==> v@ == fields.0@ + spec_u64_to_le_bytes(fields.1) + spec_u64_to_le_bytes(
            fields.2,
        ) + spec_i64_to_le_bytes(fields.3) + seq![bool_byte(fields.4), fields.5],
{
    borsh::to_vec(&fields).map_err(|e| e.to_string())
}

/// `borsh::from_slice` on the tuple of a record's field types. Claimed of
/// it: it succeeds exactly on 40 bytes; the key is the first 32 bytes and
/// the amount is read little-endian from the last 8. Otherwise its error's
/// message is `record_decode_message` of the bytes.
#[verifier::external_body]
fn borsh_read_record(bytes: &[u8]) -> (res: Result<([u8; 32], u64), String>)
    ensures
        res is Ok <==> bytes@.len() == 40,
        res matches Ok(f) ==> {
            &&& f.0@ == bytes@.subrange(0, 32)
            &&& f.1 == spec_u64_from_le_bytes(bytes@.subrange(32, 40))
        },
        res matches Err(m) ==> m@ == record_decode_message(bytes@),
{
    borsh::from_slice::<([u8; 32], u64)>(bytes).map_err(|e| e.to_string())
}

/// `borsh::to_vec` on the tuple of a record's field types. Claimed of it: it
/// succeeds, with the key's bytes followed by the amount little-endian.
#[verifier::external_body]
fn borsh_write_record(fields: ([u8; 32], u64)) -> (res: Result<Vec<u8>, String>)
    ensures
        res is Ok,
        res matches Ok(v) ==> v@ == fields.0@ + spec_u64_to_le_bytes(fields.1),
{
    borsh::to_vec(&fields).map_err(|e| e.to_string())
}

/// The encoding of a campaign has 58 bytes and a flag byte of 0 or 1, and
/// its parts can be read back.
pub proof fn lemma_campaign_bytes_shape(c: Campaign)
    ensures
        campaign_bytes(c).len() == CAMPAIGN_SIZE,
        campaign_bytes(c)[56] <= 1,
        campaign_bytes(c).subrange(0, 32) == c.creator@,
        spec_u64_from_le_bytes(campaign_bytes(c).subrange(32, 40)) == c.goal,
        spec_u64_from_le_bytes(campaign_bytes(c).subrange(40, 48)) == c.raised,
        spec_i64_from_le_bytes(campaign_bytes(c).subrange(48, 56)) == c.deadline,
        campaign_bytes(c)[56] == bool_byte(c.claimed),
        campaign_bytes(c)[57] == c.vault_bump,
{
    lemma_auto_spec_u64_to_from_le_bytes();
    lemma_i64_le_bytes_roundtrip(c.deadline);
    let b = campaign_bytes(c);
    assert(spec_u64_to_le_bytes(c.goal).len() == 8);
    assert(spec_u64_to_le_bytes(c.raised).len() == 8);
    assert(b.subrange(0, 32) =~= c.creator@);
    assert(b.subrange(32, 40) =~= spec_u64_to_le_bytes(c.goal));
    assert(b.subrange(40, 48) =~= spec_u64_to_le_bytes(c.raised));
    assert(b.subrange(48, 56) =~= spec_i64_to_le_bytes(c.deadline));
}

/// The encoding of a record has 40 bytes, and its parts can be read back.
pub proof fn lemma_record_bytes_shape(r: ContributionRecord)
    ensures
        record_bytes(r).len() == CONTRIBUTION_SIZE,
        record_bytes(r).subrange(0, 32) == r.donor@,
        spec_u64_from_le_bytes(record_bytes(r).subrange(32, 40)) == r.amount,
{
    lemma_auto_spec_u64_to_from_le_bytes();
    let b = record_bytes(r);
    assert(b.subrange(0, 32) =~= r.donor@);
    assert(b.subrange(32, 40) =~= spec_u64_to_le_bytes(r.amount));
}

/// Distinct campaigns are stored as distinct bytes.
pub proof fn lemma_campaign_bytes_injective(a: Campaign, b: Campaign)
    requires
        campaign_bytes(a) == campaign_bytes(b),
    ensures
        a == b,
{
    lemma_campaign_bytes_shape(a);
    lemma_campaign_bytes_shape(b);
    assert(a.creator =~= b.creator);
}

/// Distinct records are stored as distinct bytes.
pub proof fn lemma_record_bytes_injective(a: ContributionRecord, b: ContributionRecord)
    requires
        record_bytes(a) == record_bytes(b),
    ensures
        a == b,
{
    lemma_record_bytes_shape(a);
    lemma_record_bytes_shape(b);
    assert(a.donor =~= b.donor);
}

/// A stored campaign reads back as itself.
pub proof fn lemma_campaign_roundtrip(c: Campaign)
    ensures
        is_campaign_encoding(campaign_bytes(c)),
        campaign_of(campaign_bytes(c)) == c,
{
    let b = campaign_bytes(c);
    assert(campaign_bytes(c) == b);
    let d = campaign_of(b);
    lemma_campaign_bytes_injective(d, c);
}

/// A stored record reads back as itself.
pub proof fn lemma_record_roundtrip(r: ContributionRecord)
    ensures
        is_record_encoding(record_bytes(r)),
        record_of(record_bytes(r)) == r,
{
    let b = record_bytes(r);
    assert(record_bytes(r) == b);
    let d = record_of(b);
    lemma_record_bytes_injective(d, r);
}

/// Exactly the 58-byte data whose flag byte is 0 or 1 holds a campaign.
pub proof fn lemma_campaign_encoding_iff(b: Seq<u8>, c: Campaign)
    requires
        b.len() == 58,
        b[56] <= 1,
        c.creator@ == b.subrange(0, 32),
        c.goal == spec_u64_from_le_bytes(b.subrange(32, 40)),
        c.raised == spec_u64_from_le_bytes(b.subrange(40, 48)),
        c.deadline == spec_i64_from_le_bytes(b.subrange(48, 56)),
        c.claimed == (b[56] == 1),
        c.vault_bump == b[57],
    ensures
        campaign_bytes(c) == b,
{
    lemma_auto_spec_u64_to_from_le_bytes();
    lemma_i64_bytes_canonical(b.subrange(48, 56));
    assert(spec_u64_to_le_bytes(c.goal) == b.subrange(32, 40));
    assert(spec_u64_to_le_bytes(c.raised) == b.subrange(40, 48));
    assert(spec_i64_to_le_bytes(c.deadline) == b.subrange(48, 56));
    assert(bool_byte(c.claimed) == b[56]);
    assert(campaign_bytes(c) =~= b);
}

impl Campaign {
    /// Reads a campaign from account data.
    pub fn try_from_slice(bytes: &[u8]) -> (res: Result<Campaign, ProcessError>)
        ensures
            res is Ok <==> is_campaign_encoding(bytes@),
            res matches Ok(c) ==> campaign_bytes(c) == bytes@,
            res matches Err(e) ==> e@ == Failure::BorshIo(campaign_decode_message(bytes@)),
    {
        match borsh_read_campaign(bytes) {
            Ok(f) => {
                let c = Campaign {
                    creator: f.0,
                    goal: f.1,
                    raised: f.2,
                    deadline: f.3,
                    claimed: f.4,
                    vault_bump: f.5,
                };
                proof {
                    lemma_campaign_encoding_iff(bytes@, c);
                }
                Ok(c)
            },
            Err(m) => {
                proof {
                    assert forall|c: Campaign| campaign_bytes(c) != bytes@ by {
                        lemma_campaign_bytes_shape(c);
                    }
                }
                Err(ProcessError::BorshIo(m))
            },
        }
    }

    /// The campaign's account data.
    pub fn to_bytes(&self) -> (v: Vec<u8>)
        ensures
            v@ == campaign_bytes(*self),
    {
        let fields = (self.creator, self.goal, self.raised, self.deadline, self.claimed, self.vault_bump);
        match borsh_write_campaign(fields) {
            Ok(v) => v,
            Err(_) => {
                proof {
                    assert(false);
                }
                Vec::new()
            },
        }
    }
}

impl ContributionRecord {
    /// Reads a contribution record from account data.
    pub fn try_from_slice(bytes: &[u8]) -> (res: Result<ContributionRecord, ProcessError>)
        ensures
            res is Ok <==> is_record_encoding(bytes@),
            res matches Ok(r) ==> record_bytes(r) == bytes@,
            res matches Err(e) ==> e@ == Failure::BorshIo(record_decode_message(bytes@)),
    {
        match borsh_read_record(bytes) {
            Ok(f) => {
                let r = ContributionRecord { donor: f.0, amount: f.1 };
                proof {
                    lemma_auto_spec_u64_to_from_le_bytes();
                    assert(spec_u64_to_le_bytes(r.amount) == bytes@.subrange(32, 40));
                    assert(record_bytes(r) =~= bytes@);
                }
                Ok(r)
            },
            Err(m) => {
                proof {
                    assert forall|r: ContributionRecord| record_bytes(r) != bytes@ by {
                        lemma_record_bytes_shape(r);
                    }
                }
                Err(ProcessError::BorshIo(m))
            },
        }
    }

    /// The record's account data.
    pub fn to_bytes(&self) -> (v: Vec<u8>)
        ensures
            v@ == record_bytes(*self),
    {
        match borsh_write_record((self.donor, self.amount)) {
            Ok(v) => v,
            Err(_) => {
                proof {
                    assert(false);
                }
                Vec::new()
            },
        }
    }
}

} // verus!
