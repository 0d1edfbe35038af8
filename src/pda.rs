use vstd::prelude::*;

use crate::bytes::le_bytes_of;
use crate::pubkey::Pubkey;

verus! {

/// The program-derived address and bump seed that the runtime finds for
/// `seeds` under `program_id`, or none when no bump seed gives an address
/// off the curve (or the seeds are too many or too long).
pub uninterp spec fn program_address(seeds: Seq<Seq<u8>>, program_id: Seq<u8>) -> Option<
    (Seq<u8>, u8),
>;

/// The seeds as byte strings.
pub open spec fn seeds_view(seeds: Seq<Vec<u8>>) -> Seq<Seq<u8>> {
    seeds.map_values(|s: Vec<u8>| s@)
}

/// Relies on `Pubkey::try_find_program_address` of solana-program (as
/// re-exported by anchor-lang): its result depends on the seeds and the
/// program id alone, and it returns `None` rather than panicking.
#[verifier::external_body]
fn find_program_address(seeds: &Vec<Vec<u8>>, program_id: &Pubkey) -> (r: Option<(Pubkey, u8)>)
    ensures
        match r {
            Some((key, bump)) => program_address(seeds_view(seeds@), program_id@) == Some(
                (key@, bump),
            ),
            None => program_address(seeds_view(seeds@), program_id@) is None,
        },
{
    let slices: Vec<&[u8]> = seeds.iter().map(|s| s.as_slice()).collect();
    let id = anchor_lang::solana_program::pubkey::Pubkey::new_from_array(program_id.bytes);
    match anchor_lang::solana_program::pubkey::Pubkey::try_find_program_address(&slices, &id) {
        Some((key, bump)) => Some((Pubkey { bytes: key.to_bytes() }, bump)),
        None => None,
    }
}

/// `b"protocol_state"`
pub open spec fn protocol_state_seed() -> Seq<u8> {
    seq![112u8, 114, 111, 116, 111, 99, 111, 108, 95, 115, 116, 97, 116, 101]
}

/// `b"treasury"`
pub open spec fn treasury_seed() -> Seq<u8> {
    seq![116u8, 114, 101, 97, 115, 117, 114, 121]
}

/// `b"token_config"`
pub open spec fn token_config_seed() -> Seq<u8> {
    seq![116u8, 111, 107, 101, 110, 95, 99, 111, 110, 102, 105, 103]
}

/// `b"loan"`
pub open spec fn loan_seed() -> Seq<u8> {
    seq![108u8, 111, 97, 110]
}

/// `b"vault"`
pub open spec fn vault_seed() -> Seq<u8> {
    seq![118u8, 97, 117, 108, 116]
}

/// `b"user_exposure"`
pub open spec fn user_exposure_seed() -> Seq<u8> {
    seq![117u8, 115, 101, 114, 95, 101, 120, 112, 111, 115, 117, 114, 101]
}

/// `b"user_stake"`
pub open spec fn user_stake_seed() -> Seq<u8> {
    seq![117u8, 115, 101, 114, 95, 115, 116, 97, 107, 101]
}

/// `b"bonding-curve"`
pub open spec fn bonding_curve_seed() -> Seq<u8> {
    seq![98u8, 111, 110, 100, 105, 110, 103, 45, 99, 117, 114, 118, 101]
}

/// Program that runs bonding curves.
pub open spec fn pumpfun_program_id_spec() -> Seq<u8> {
    seq![
        1u8, 86, 224, 246, 147, 102, 90, 207, 68, 219, 21, 104, 191, 23, 91, 170, 81, 137, 203,
        151, 245, 210, 255, 59, 101, 93, 43, 182, 253, 109, 24, 176,
    ]
}

pub fn pumpfun_program_id() -> (r: Pubkey)
    ensures
        r@ == pumpfun_program_id_spec(),
{
    let r = Pubkey {
        bytes: [
            1, 86, 224, 246, 147, 102, 90, 207, 68, 219, 21, 104, 191, 23, 91, 170, 81, 137, 203,
            151, 245, 210, 255, 59, 101, 93, 43, 182, 253, 109, 24, 176,
        ],
    };
    assert(r@ =~= pumpfun_program_id_spec());
    r
}

fn protocol_state_seed_vec() -> (r: Vec<u8>)
    ensures
        r@ == protocol_state_seed(),
{
    let mut v: Vec<u8> = Vec::new();
    v.push(112);
    v.push(114);
    v.push(111);
    v.push(116);
    v.push(111);
    v.push(99);
    v.push(111);
    v.push(108);
    v.push(95);
    v.push(115);
    v.push(116);
    v.push(97);
    v.push(116);
    v.push(101);
    assert(v@ =~= protocol_state_seed());
    v
}

fn treasury_seed_vec() -> (r: Vec<u8>)
    ensures
        r@ == treasury_seed(),
{
    let mut v: Vec<u8> = Vec::new();
    v.push(116);
    v.push(114);
    v.push(101);
    v.push(97);
    v.push(115);
    v.push(117);
    v.push(114);
    v.push(121);
    assert(v@ =~= treasury_seed());
    v
}

fn token_config_seed_vec() -> (r: Vec<u8>)
    ensures
        r@ == token_config_seed(),
{
    let mut v: Vec<u8> = Vec::new();
    v.push(116);
    v.push(111);
    v.push(107);
    v.push(101);
    v.push(110);
    v.push(95);
    v.push(99);
    v.push(111);
    v.push(110);
    v.push(102);
    v.push(105);
    v.push(103);
    assert(v@ =~= token_config_seed());
    v
}

fn loan_seed_vec() -> (r: Vec<u8>)
    ensures
        r@ == loan_seed(),
{
    let mut v: Vec<u8> = Vec::new();
    v.push(108);
    v.push(111);
    v.push(97);
    v.push(110);
    assert(v@ =~= loan_seed());
    v
}

fn vault_seed_vec() -> (r: Vec<u8>)
    ensures
        r@ == vault_seed(),
{
    let mut v: Vec<u8> = Vec::new();
    v.push(118);
    v.push(97);
    v.push(117);
    v.push(108);
    v.push(116);
    assert(v@ =~= vault_seed());
    v
}

fn user_exposure_seed_vec() -> (r: Vec<u8>)
    ensures
        r@ == user_exposure_seed(),
{
    let mut v: Vec<u8> = Vec::new();
    v.push(117);
    v.push(115);
    v.push(101);
    v.push(114);
    v.push(95);
    v.push(101);
    v.push(120);
    v.push(112);
    v.push(111);
    v.push(115);
    v.push(117);
    v.push(114);
    v.push(101);
    assert(v@ =~= user_exposure_seed());
    v
}

fn user_stake_seed_vec() -> (r: Vec<u8>)
    ensures
        r@ == user_stake_seed(),
{
    let mut v: Vec<u8> = Vec::new();
    v.push(117);
    v.push(115);
    v.push(101);
    v.push(114);
    v.push(95);
    v.push(115);
    v.push(116);
    v.push(97);
    v.push(107);
    v.push(101);
    assert(v@ =~= user_stake_seed());
    v
}

fn bonding_curve_seed_vec() -> (r: Vec<u8>)
    ensures
        r@ == bonding_curve_seed(),
{
    let mut v: Vec<u8> = Vec::new();
    v.push(98);
    v.push(111);
    v.push(110);
    v.push(100);
    v.push(105);
    v.push(110);
    v.push(103);
    v.push(45);
    v.push(99);
    v.push(117);
    v.push(114);
    v.push(118);
    v.push(101);
    assert(v@ =~= bonding_curve_seed());
    v
}

fn le_bytes_vec(v: u64) -> (r: Vec<u8>)
    ensures
        r@ == le_bytes_of(v),
{
    let mut out: Vec<u8> = Vec::new();
    out.push((v % 0x100) as u8);
    out.push((v / 0x100 % 0x100) as u8);
    out.push((v / 0x1_0000 % 0x100) as u8);
    out.push((v / 0x100_0000 % 0x100) as u8);
    out.push((v / 0x1_0000_0000 % 0x100) as u8);
    out.push((v / 0x100_0000_0000 % 0x100) as u8);
    out.push((v / 0x1_0000_0000_0000 % 0x100) as u8);
    out.push((v / 0x100_0000_0000_0000 % 0x100) as u8);
    assert(out@ =~= le_bytes_of(v));
    out
}

fn derive(seeds: Vec<Vec<u8>>, program_id: &Pubkey) -> (r: Option<(Pubkey, u8)>)
    ensures
        match r {
            Some((key, bump)) => program_address(seeds_view(seeds@), program_id@) == Some(
                (key@, bump),
            ),
            None => program_address(seeds_view(seeds@), program_id@) is None,
        },
{
    find_program_address(&seeds, program_id)
}

/// Whether `r` is what the runtime derives for `seeds`.
pub open spec fn derives(r: Option<(Pubkey, u8)>, seeds: Seq<Seq<u8>>, program_id: Seq<u8>) -> bool {
    match r {
        Some((key, bump)) => program_address(seeds, program_id) == Some((key@, bump)),
        None => program_address(seeds, program_id) is None,
    }
}

/// Addresses of the protocol's records.
pub struct PdaUtils;

impl PdaUtils {
    pub fn derive_protocol_state(program_id: &Pubkey) -> (r: Option<(Pubkey, u8)>)
        ensures
            derives(r, seq![protocol_state_seed()], program_id@),
    {
        let mut seeds: Vec<Vec<u8>> = Vec::new();
        seeds.push(protocol_state_seed_vec());
        assert(seeds_view(seeds@) =~= seq![protocol_state_seed()]);
        derive(seeds, program_id)
    }

    pub fn derive_treasury(program_id: &Pubkey) -> (r: Option<(Pubkey, u8)>)
        ensures
            derives(r, seq![treasury_seed()], program_id@),
    {
        let mut seeds: Vec<Vec<u8>> = Vec::new();
        seeds.push(treasury_seed_vec());
        assert(seeds_view(seeds@) =~= seq![treasury_seed()]);
        derive(seeds, program_id)
    }

    pub fn derive_token_config(token_mint: &Pubkey, program_id: &Pubkey) -> (r: Option<
        (Pubkey, u8),
    >)
        ensures
            derives(r, seq![token_config_seed(), token_mint@], program_id@),
    {
        let mut seeds: Vec<Vec<u8>> = Vec::new();
        seeds.push(token_config_seed_vec());
        seeds.push(token_mint.to_vec());
        assert(seeds_view(seeds@) =~= seq![token_config_seed(), token_mint@]);
        derive(seeds, program_id)
    }

    pub fn derive_loan(borrower: &Pubkey, token_mint: &Pubkey, loan_index: u64, program_id: &Pubkey) -> (r:
        Option<(Pubkey, u8)>)
        ensures
            derives(
                r,
                seq![loan_seed(), borrower@, token_mint@, le_bytes_of(loan_index)],
                program_id@,
            ),
    {
        let mut seeds: Vec<Vec<u8>> = Vec::new();
        seeds.push(loan_seed_vec());
        seeds.push(borrower.to_vec());
        seeds.push(token_mint.to_vec());
        seeds.push(le_bytes_vec(loan_index));
        assert(seeds_view(seeds@) =~= seq![
            loan_seed(),
            borrower@,
            token_mint@,
            le_bytes_of(loan_index),
        ]);
        derive(seeds, program_id)
    }

    pub fn derive_vault_token_account(loan_key: &Pubkey, program_id: &Pubkey) -> (r: Option<
        (Pubkey, u8),
    >)
        ensures
            derives(r, seq![vault_seed(), loan_key@], program_id@),
    {
        let mut seeds: Vec<Vec<u8>> = Vec::new();
        seeds.push(vault_seed_vec());
        seeds.push(loan_key.to_vec());
        assert(seeds_view(seeds@) =~= seq![vault_seed(), loan_key@]);
        derive(seeds, program_id)
    }

    pub fn derive_user_exposure(user: &Pubkey, program_id: &Pubkey) -> (r: Option<(Pubkey, u8)>)
        ensures
            derives(r, seq![user_exposure_seed(), user@], program_id@),
    {
        let mut seeds: Vec<Vec<u8>> = Vec::new();
        seeds.push(user_exposure_seed_vec());
        seeds.push(user.to_vec());
        assert(seeds_view(seeds@) =~= seq![user_exposure_seed(), user@]);
        derive(seeds, program_id)
    }

    /// Address of a staker's record in a given pool.
    pub fn derive_user_stake(pool_key: &Pubkey, user: &Pubkey, program_id: &Pubkey) -> (r: Option<
        (Pubkey, u8),
    >)
        ensures
            derives(r, seq![user_stake_seed(), pool_key@, user@], program_id@),
    {
        let mut seeds: Vec<Vec<u8>> = Vec::new();
        seeds.push(user_stake_seed_vec());
        seeds.push(pool_key.to_vec());
        seeds.push(user.to_vec());
        assert(seeds_view(seeds@) =~= seq![user_stake_seed(), pool_key@, user@]);
        derive(seeds, program_id)
    }
}

/// Address of the bonding curve of `mint`.
pub fn get_bonding_curve_pda(mint: &Pubkey) -> (r: Option<(Pubkey, u8)>)
    ensures
        derives(r, seq![bonding_curve_seed(), mint@], pumpfun_program_id_spec()),
{
    let mut seeds: Vec<Vec<u8>> = Vec::new();
    seeds.push(bonding_curve_seed_vec());
    seeds.push(mint.to_vec());
    assert(seeds_view(seeds@) =~= seq![bonding_curve_seed(), mint@]);
    let program = pumpfun_program_id();
    derive(seeds, &program)
}

} // verus!
