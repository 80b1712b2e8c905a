use vstd::prelude::*;
use vstd::slice::slice_to_vec;
use solana_program::pubkey::Pubkey;

verus! {

broadcast use vstd::array::group_array_axioms;

/// The program address that the runtime computes from a list of seeds that
/// ends with the bump seed (`None` where it lies on the curve, or the seeds
/// are too many or too long).
pub uninterp spec fn program_address(seeds: Seq<Seq<u8>>, program_id: Seq<u8>) -> Option<Seq<u8>>;

/// The system program's key: 32 zero bytes.
pub open spec fn system_program_key() -> Seq<u8> {
    Seq::new(32, |i: int| 0u8)
}

/// The seed that names a campaign's vault: the bytes of "vault".
pub open spec fn vault_seed() -> Seq<u8> {
    seq![118u8, 97, 117, 108, 116]
}

/// The seed that names a donor's record: the bytes of "contribution".
pub open spec fn contribution_seed() -> Seq<u8> {
    seq![99u8, 111, 110, 116, 114, 105, 98, 117, 116, 105, 111, 110]
}

/// The seeds of a campaign's vault, without the bump seed.
pub open spec fn vault_seeds(campaign: Seq<u8>) -> Seq<Seq<u8>> {
    seq![vault_seed(), campaign]
}

/// The seeds of a donor's record in a campaign, without the bump seed.
pub open spec fn contribution_seeds(campaign: Seq<u8>, donor: Seq<u8>) -> Seq<Seq<u8>> {
    seq![contribution_seed(), campaign, donor]
}

/// Seeds followed by a bump seed.
pub open spec fn with_bump(seeds: Seq<Seq<u8>>, bump: u8) -> Seq<Seq<u8>> {
    seeds.push(seq![bump])
}

/// The first bump seed from `bump` down to 1 that, appended to the seeds,
/// gives a program address, with that address.
pub open spec fn first_program_address(seeds: Seq<Seq<u8>>, program_id: Seq<u8>, bump: u8) -> Option<
    (Seq<u8>, u8),
>
    decreases bump,
{
    if bump == 0 {
        None
    } else {
        match program_address(with_bump(seeds, bump), program_id) {
            Some(key) => Some((key, bump)),
            None => first_program_address(seeds, program_id, (bump - 1) as u8),
        }
    }
}

/// The address and bump seed that the runtime derives for a program from a
/// list of seeds: the first bump seed from 255 down to 1 that gives a
/// program address (`None` where none does, or the seeds are too many or
/// too long).
pub open spec fn derived_address(seeds: Seq<Seq<u8>>, program_id: Seq<u8>) -> Option<(Seq<u8>, u8)> {
    first_program_address(seeds, program_id, 255)
}

/// A derived address is the program address of its seeds followed by its
/// bump seed.
pub proof fn lemma_first_program_address(seeds: Seq<Seq<u8>>, program_id: Seq<u8>, bump: u8)
    ensures
        first_program_address(seeds, program_id, bump) matches Some((key, b)) ==> program_address(
            with_bump(seeds, b),
            program_id,
        ) == Some(key),
    decreases bump,
{
    if bump > 0 {
        lemma_first_program_address(seeds, program_id, (bump - 1) as u8);
    }
}

/// A derived address is the program address of its seeds followed by its
/// bump seed.
pub proof fn lemma_derived_address_recreated(seeds: Seq<Seq<u8>>, program_id: Seq<u8>)
    ensures
        derived_address(seeds, program_id) matches Some((key, b)) ==> program_address(
            with_bump(seeds, b),
            program_id,
        ) == Some(key),
{
    lemma_first_program_address(seeds, program_id, 255);
}

/// `Pubkey::try_find_program_address`, on keys as bytes. Claimed of it: its
/// result is `derived_address` of the seeds and program id, that is, it
/// tries the bump seeds from 255 down to 1 with `create_program_address`
/// and returns the first address found.
#[verifier::external_body]
pub(crate) fn try_find_program_address(seeds: &Vec<Vec<u8>>, program_id: &[u8; 32]) -> (res: Option<([u8; 32], u8)>)
    ensures
        match res {
            Some((k, b)) => derived_address(seeds.deep_view(), program_id@) == Some((k@, b)),
            None => derived_address(seeds.deep_view(), program_id@) is None,
        },
{
    let s: Vec<&[u8]> = seeds.iter().map(|x| x.as_slice()).collect();
    Pubkey::try_find_program_address(&s, &Pubkey::new_from_array(*program_id)).map(
        |(k, b)| (k.to_bytes(), b),
    )
}

/// `Pubkey::create_program_address`, on keys as bytes, with its error
/// dropped. Claimed of it: its result is `program_address` of the seeds and
/// program id.
#[verifier::external_body]
pub(crate) fn create_program_address(seeds: &Vec<Vec<u8>>, program_id: &[u8; 32]) -> (res: Option<[u8; 32]>)
    ensures
        match res {
            Some(k) => program_address(seeds.deep_view(), program_id@) == Some(k@),
            None => program_address(seeds.deep_view(), program_id@) is None,
        },
{
    let s: Vec<&[u8]> = seeds.iter().map(|x| x.as_slice()).collect();
    Pubkey::create_program_address(&s, &Pubkey::new_from_array(*program_id)).ok().map(
        |k| k.to_bytes(),
    )
}

/// `solana_program::system_program::ID` as bytes. Claimed of it: it is 32
/// zero bytes (the key written "11111111111111111111111111111111").
#[allow(deprecated)]
#[verifier::external_body]
fn system_program_id() -> (id: [u8; 32])
    ensures
        id@ == system_program_key(),
{
    solana_program::system_program::ID.to_bytes()
}

/// Whether two keys are the same.
pub fn keys_equal(a: &[u8; 32], b: &[u8; 32]) -> (r: bool)
    ensures
        r == (a@ == b@),
{
    let mut i: usize = 0;
    while i < 32
        invariant
            0 <= i <= 32,
            forall|j: int| 0 <= j < i ==> a@[j] == b@[j],
        decreases 32 - i,
    {
        if a[i] != b[i] {
            return false;
        }
        i = i + 1;
    }
    assert(a@ =~= b@);
    true
}

/// Whether a key is the system program's.
pub fn is_system_program(key: &[u8; 32]) -> (r: bool)
    ensures
        r == (key@ == system_program_key()),
{
    let id = system_program_id();
    keys_equal(key, &id)
}

fn key_bytes(k: &[u8; 32]) -> (v: Vec<u8>)
    ensures
        v@ == k@,
{
    slice_to_vec(k.as_slice())
}

/// The seeds of a campaign's vault.
pub fn vault_seeds_vec(campaign: &[u8; 32]) -> (v: Vec<Vec<u8>>)
    ensures
        v.deep_view() == vault_seeds(campaign@),
{
    let mut v: Vec<Vec<u8>> = Vec::new();
    v.push(vec![118u8, 97, 117, 108, 116]);
    v.push(key_bytes(campaign));
    assert(v.deep_view() =~~= vault_seeds(campaign@));
    v
}

/// The seeds of a donor's record in a campaign.
pub fn contribution_seeds_vec(campaign: &[u8; 32], donor: &[u8; 32]) -> (v: Vec<Vec<u8>>)
    ensures
        v.deep_view() == contribution_seeds(campaign@, donor@),
{
    let mut v: Vec<Vec<u8>> = Vec::new();
    v.push(vec![99u8, 111, 110, 116, 114, 105, 98, 117, 116, 105, 111, 110]);
    v.push(key_bytes(campaign));
    v.push(key_bytes(donor));
    assert(v.deep_view() =~~= contribution_seeds(campaign@, donor@));
    v
}

/// No seeds: a call that signs for no program address.
pub fn no_seeds() -> (v: Vec<Vec<u8>>)
    ensures
        v.deep_view() == Seq::<Seq<u8>>::empty(),
{
    let v: Vec<Vec<u8>> = Vec::new();
    assert(v.deep_view() =~= Seq::<Seq<u8>>::empty());
    v
}

/// Appends a bump seed to seeds.
pub fn push_bump(seeds: &mut Vec<Vec<u8>>, bump: u8)
    ensures
        final(seeds).deep_view() == with_bump(old(seeds).deep_view(), bump),
{
    seeds.push(vec![bump]);
    assert(seeds.deep_view() =~~= with_bump(old(seeds).deep_view(), bump));
}

} // verus!
