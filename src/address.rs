//! Derived addresses: every record lives at an address computed from a
//! prefix, key material and the program's identity.
use vstd::prelude::*;
use crate::pubkey::Pubkey;

verus! {

/// What the runtime's address derivation gives for these seeds under this
/// program: the address and its bump, or nothing when no bump works.
pub uninterp spec fn program_address(seeds: Seq<Seq<u8>>, program_id: Seq<u8>) -> Option<(Seq<u8>, u8)>;

/// The seeds as byte sequences.
pub open spec fn seeds_view(seeds: Seq<Vec<u8>>) -> Seq<Seq<u8>> {
    seeds.map_values(|s: Vec<u8>| s@)
}

/// Relies on solana_program's `Pubkey::try_find_program_address`: a hash of
/// the seeds, a bump and the program id, searched from bump 255 down; it
/// depends on its arguments alone and returns `None` instead of panicking.
#[verifier::external_body]
fn try_find_program_address(seeds: &Vec<Vec<u8>>, program_id: &Pubkey) -> (r: Option<(Pubkey, u8)>)
    ensures
        match r {
            Some(p) => program_address(seeds_view(seeds@), program_id@) == Some((p.0@, p.1)),
            None => program_address(seeds_view(seeds@), program_id@) is None,
        },
{
    let refs: Vec<&[u8]> = seeds.iter().map(|s| s.as_slice()).collect();
    let pid = solana_program::pubkey::Pubkey::new_from_array(program_id.bytes);
    solana_program::pubkey::Pubkey::try_find_program_address(&refs, &pid).map(
        |(k, b)| (Pubkey { bytes: k.to_bytes() }, b),
    )
}

/// Derives the address of `seeds` under `program_id`.
pub fn derive_address(seeds: &Vec<Vec<u8>>, program_id: &Pubkey) -> (r: Option<(Pubkey, u8)>)
    ensures
        match r {
            Some(p) => program_address(seeds_view(seeds@), program_id@) == Some((p.0@, p.1)),
            None => program_address(seeds_view(seeds@), program_id@) is None,
        },
{
    try_find_program_address(seeds, program_id)
}

/// The bump with which `key` is derived from `seeds` under `program_id`, if
/// `key` is that address.
pub open spec fn derived_bump(seeds: Seq<Seq<u8>>, program_id: Seq<u8>, key: Seq<u8>) -> Option<u8> {
    match program_address(seeds, program_id) {
        Some(p) => if p.0 == key {
            Some(p.1)
        } else {
            None
        },
        None => None,
    }
}

/// The bump with which `key` is derived from `seeds` under `program_id`, if
/// `key` is that address.
pub fn find_bump(seeds: &Vec<Vec<u8>>, program_id: &Pubkey, key: &Pubkey) -> (r: Option<u8>)
    ensures
        r == derived_bump(seeds_view(seeds@), program_id@, key@),
{
    match try_find_program_address(seeds, program_id) {
        Some(p) => if p.0.same_as(key) {
            Some(p.1)
        } else {
            None
        },
        None => None,
    }
}

/// Bytes of "place", the settings prefix.
pub open spec fn settings_prefix() -> Seq<u8> {
    seq![112u8, 108u8, 97u8, 99u8, 101u8]
}

/// Bytes of "mint", the prefix of token mints.
pub open spec fn mint_prefix() -> Seq<u8> {
    seq![109u8, 105u8, 110u8, 116u8]
}

/// Bytes of "patch", the patch prefix.
pub open spec fn patch_prefix() -> Seq<u8> {
    seq![112u8, 97u8, 116u8, 99u8, 104u8]
}

/// Bytes of "game", the gameplay token prefix.
pub open spec fn game_prefix() -> Seq<u8> {
    seq![103u8, 97u8, 109u8, 101u8]
}

/// The seeds of the settings record.
pub open spec fn settings_seeds() -> Seq<Seq<u8>> {
    seq![settings_prefix()]
}

/// The seeds of the royalty token mint.
pub open spec fn royalty_mint_seeds() -> Seq<Seq<u8>> {
    seq![settings_prefix(), mint_prefix()]
}

/// The seeds of the patch at `(x, y)`.
pub open spec fn patch_seeds(x: u8, y: u8) -> Seq<Seq<u8>> {
    seq![patch_prefix(), seq![x], seq![y]]
}

/// The seeds of the gameplay token record bought with `seed`.
pub open spec fn game_seeds(seed: u64) -> Seq<Seq<u8>> {
    seq![game_prefix(), crate::bytes::u64_le_bytes(seed)]
}

/// The seeds of the mint paired with the gameplay token bought with `seed`.
pub open spec fn game_mint_seeds(seed: u64) -> Seq<Seq<u8>> {
    seq![game_prefix(), crate::bytes::u64_le_bytes(seed), mint_prefix()]
}

fn settings_prefix_bytes() -> (r: Vec<u8>)
    ensures
        r@ == settings_prefix(),
{
    let r = vec![112u8, 108u8, 97u8, 99u8, 101u8];
    assert(r@ =~= settings_prefix());
    r
}

fn mint_prefix_bytes() -> (r: Vec<u8>)
    ensures
        r@ == mint_prefix(),
{
    let r = vec![109u8, 105u8, 110u8, 116u8];
    assert(r@ =~= mint_prefix());
    r
}

fn patch_prefix_bytes() -> (r: Vec<u8>)
    ensures
        r@ == patch_prefix(),
{
    let r = vec![112u8, 97u8, 116u8, 99u8, 104u8];
    assert(r@ =~= patch_prefix());
    r
}

fn game_prefix_bytes() -> (r: Vec<u8>)
    ensures
        r@ == game_prefix(),
{
    let r = vec![103u8, 97u8, 109u8, 101u8];
    assert(r@ =~= game_prefix());
    r
}

fn seed_bytes(seed: u64) -> (r: Vec<u8>)
    ensures
        r@ == crate::bytes::u64_le_bytes(seed),
{
    let mut r: Vec<u8> = Vec::new();
    crate::bytes::push_u64(&mut r, seed);
    assert(r@ =~= crate::bytes::u64_le_bytes(seed));
    r
}

/// The seeds of the settings record.
pub fn settings_seed_list() -> (r: Vec<Vec<u8>>)
    ensures
        seeds_view(r@) == settings_seeds(),
{
    let r = vec![settings_prefix_bytes()];
    assert(seeds_view(r@) =~= settings_seeds());
    r
}

/// The seeds of the royalty token mint.
pub fn royalty_mint_seed_list() -> (r: Vec<Vec<u8>>)
    ensures
        seeds_view(r@) == royalty_mint_seeds(),
{
    let r = vec![settings_prefix_bytes(), mint_prefix_bytes()];
    assert(seeds_view(r@) =~= royalty_mint_seeds());
    r
}

/// The seeds of the patch at `(x, y)`.
pub fn patch_seed_list(x: u8, y: u8) -> (r: Vec<Vec<u8>>)
    ensures
        seeds_view(r@) == patch_seeds(x, y),
{
    let vx = vec![x];
    let vy = vec![y];
    assert(vx@ =~= seq![x]);
    assert(vy@ =~= seq![y]);
    let r = vec![patch_prefix_bytes(), vx, vy];
    assert(seeds_view(r@) =~= patch_seeds(x, y));
    r
}

/// The seeds of the gameplay token record bought with `seed`.
pub fn game_seed_list(seed: u64) -> (r: Vec<Vec<u8>>)
    ensures
        seeds_view(r@) == game_seeds(seed),
{
    let r = vec![game_prefix_bytes(), seed_bytes(seed)];
    assert(seeds_view(r@) =~= game_seeds(seed));
    r
}

/// The seeds of the mint paired with the gameplay token bought with `seed`.
pub fn game_mint_seed_list(seed: u64) -> (r: Vec<Vec<u8>>)
    ensures
        seeds_view(r@) == game_mint_seeds(seed),
{
    let r = vec![game_prefix_bytes(), seed_bytes(seed), mint_prefix_bytes()];
    assert(seeds_view(r@) =~= game_mint_seeds(seed));
    r
}

/// The address of the patch at `(x, y)`.
pub fn find_address_for_patch(x: u8, y: u8, program_id: &Pubkey) -> (r: Option<(Pubkey, u8)>)
    ensures
        match r {
            Some(p) => program_address(patch_seeds(x, y), program_id@) == Some((p.0@, p.1)),
            None => program_address(patch_seeds(x, y), program_id@) is None,
        },
{
    derive_address(&patch_seed_list(x, y), program_id)
}

/// Bytes of the system program's id, all zero.
pub open spec fn system_program_key() -> Seq<u8> {
    Seq::new(32, |i: int| 0u8)
}

/// Bytes of the token program's id, TokenkegQfeZyiNwAJbNbGKPFXCWuBvf9Ss623VQ5DA.
pub open spec fn token_program_key() -> Seq<u8> {
    seq![
        6u8, 221u8, 246u8, 225u8, 215u8, 101u8, 161u8, 147u8, 217u8, 203u8, 225u8, 70u8, 206u8,
        235u8, 121u8, 172u8, 28u8, 180u8, 133u8, 237u8, 95u8, 91u8, 55u8, 145u8, 58u8, 140u8,
        245u8, 133u8, 126u8, 255u8, 0u8, 169u8,
    ]
}

/// Bytes of the rent sysvar's id, SysvarRent111111111111111111111111111111111.
pub open spec fn rent_sysvar_key() -> Seq<u8> {
    seq![
        6u8, 167u8, 213u8, 23u8, 25u8, 44u8, 92u8, 81u8, 33u8, 140u8, 201u8, 76u8, 61u8, 74u8,
        241u8, 127u8, 88u8, 218u8, 238u8, 8u8, 155u8, 161u8, 253u8, 68u8, 227u8, 219u8, 217u8,
        138u8, 0u8, 0u8, 0u8, 0u8,
    ]
}

/// Bytes of the associated token program's id,
/// ATokenGPvbdGVxr1b2hvZbsiqW5xWH25efTNsLJA8knL.
pub open spec fn associated_token_program_key() -> Seq<u8> {
    seq![
        140u8, 151u8, 37u8, 143u8, 78u8, 36u8, 137u8, 241u8, 187u8, 61u8, 16u8, 41u8, 20u8, 142u8,
        13u8, 131u8, 11u8, 90u8, 19u8, 153u8, 218u8, 255u8, 16u8, 132u8, 4u8, 142u8, 123u8, 216u8,
        219u8, 233u8, 248u8, 89u8,
    ]
}

/// Bytes of the token metadata program's id,
/// metaqbxxUerdq28cj1RbAWkYQm3ybzjb6a8bt518x1s.
pub open spec fn metadata_program_key() -> Seq<u8> {
    seq![
        11u8, 112u8, 101u8, 177u8, 227u8, 209u8, 124u8, 69u8, 56u8, 157u8, 82u8, 127u8, 107u8, 4u8,
        195u8, 205u8, 88u8, 184u8, 108u8, 115u8, 26u8, 160u8, 253u8, 181u8, 73u8, 182u8, 209u8,
        188u8, 3u8, 248u8, 41u8, 70u8,
    ]
}

/// Relies on solana_program's `system_program::id`: the declared id.
#[verifier::external_body]
pub(crate) fn system_program_id() -> (r: Pubkey)
    ensures
        r@ == system_program_key(),
{
    Pubkey { bytes: solana_program::system_program::id().to_bytes() }
}

/// Relies on spl_token's `id`: the declared id.
#[verifier::external_body]
pub(crate) fn token_program_id() -> (r: Pubkey)
    ensures
        r@ == token_program_key(),
{
    Pubkey { bytes: spl_token::id().to_bytes() }
}

/// Relies on solana_program's `sysvar::rent::id`: the declared id.
#[verifier::external_body]
pub(crate) fn rent_sysvar_id() -> (r: Pubkey)
    ensures
        r@ == rent_sysvar_key(),
{
    Pubkey { bytes: solana_program::sysvar::rent::id().to_bytes() }
}

/// Relies on spl_associated_token_account's `id`: the declared id.
#[verifier::external_body]
pub(crate) fn associated_token_program_id() -> (r: Pubkey)
    ensures
        r@ == associated_token_program_key(),
{
    Pubkey { bytes: spl_associated_token_account::id().to_bytes() }
}

/// Relies on mpl_token_metadata's `ID`: the declared id.
#[verifier::external_body]
pub(crate) fn metadata_program_id() -> (r: Pubkey)
    ensures
        r@ == metadata_program_key(),
{
    Pubkey { bytes: mpl_token_metadata::ID.to_bytes() }
}

/// The associated token account of `wallet` for `mint`.
pub uninterp spec fn associated_address(wallet: Seq<u8>, mint: Seq<u8>) -> Seq<u8>;

/// Relies on spl_associated_token_account's `get_associated_token_address`:
/// an address derived from the wallet and the mint alone (through
/// `find_program_address`, which panics only where no bump at all gives an
/// address).
#[verifier::external_body]
pub(crate) fn associated_token_address(wallet: &Pubkey, mint: &Pubkey) -> (r: Pubkey)
    ensures
        r@ == associated_address(wallet@, mint@),
{
    let w = solana_program::pubkey::Pubkey::new_from_array(wallet.bytes);
    let m = solana_program::pubkey::Pubkey::new_from_array(mint.bytes);
    Pubkey { bytes: spl_associated_token_account::get_associated_token_address(&w, &m).to_bytes() }
}

/// The metadata account of `mint`.
pub uninterp spec fn metadata_address_of(mint: Seq<u8>) -> Seq<u8>;

/// Relies on mpl_token_metadata's `Metadata::find_pda`: an address derived
/// from the mint alone (through `find_program_address`, which panics only
/// where no bump at all gives an address).
#[verifier::external_body]
pub(crate) fn metadata_address(mint: &Pubkey) -> (r: Pubkey)
    ensures
        r@ == metadata_address_of(mint@),
{
    let m = solana_program::pubkey::Pubkey::new_from_array(mint.bytes);
    Pubkey { bytes: mpl_token_metadata::accounts::Metadata::find_pda(&m).0.to_bytes() }
}

} // verus!
