//! Building calls of the canvas program: the accounts each instruction
//! reads, in order, with their signer and writable flags, and its bytes.
use vstd::prelude::*;
use crate::address::{
    associated_address, associated_token_address, associated_token_program_id,
    associated_token_program_key, derive_address, find_address_for_patch, game_mint_seed_list,
    game_mint_seeds, game_seed_list, game_seeds, metadata_address, metadata_address_of,
    metadata_program_id, metadata_program_key, patch_seeds, program_address, rent_sysvar_id,
    rent_sysvar_key, royalty_mint_seed_list, royalty_mint_seeds, settings_seed_list,
    settings_seeds, system_program_id, system_program_key, token_program_id, token_program_key,
};
use crate::instruction::{
    encode_instruction, ClaimTokensDataArgs, InitMintDataArgs, InitPatchDataArgs,
    PlaceInstruction, PurchaseGameplayTokenDataArgs, SetPixelDataArgs, UpdatePlaceStateDataArgs,
};
use crate::pubkey::Pubkey;
use crate::state::GameplayTokenType;

verus! {

/// An account a call names.
#[derive(Clone, Copy, Debug, PartialEq, Eq)]
pub struct AccountMeta {
    pub pubkey: Pubkey,
    pub is_signer: bool,
    pub is_writable: bool,
}

/// A call of a program: which program, the accounts in order, the bytes.
#[derive(Clone, Debug, PartialEq, Eq)]
pub struct Instruction {
    pub program_id: Pubkey,
    pub accounts: Vec<AccountMeta>,
    pub data: Vec<u8>,
}

/// An account entry as key, signer flag and writable flag.
pub open spec fn entry(key: Seq<u8>, is_signer: bool, is_writable: bool) -> (Seq<u8>, bool, bool) {
    (key, is_signer, is_writable)
}

/// The entries of a call.
pub open spec fn entries(accounts: Seq<AccountMeta>) -> Seq<(Seq<u8>, bool, bool)> {
    accounts.map_values(|a: AccountMeta| (a.pubkey@, a.is_signer, a.is_writable))
}

/// The address derived from `seeds`, where one is.
pub open spec fn address_of(seeds: Seq<Seq<u8>>, program_id: Seq<u8>) -> Seq<u8> {
    program_address(seeds, program_id)->Some_0.0
}

fn writable(pubkey: Pubkey, is_signer: bool) -> (r: AccountMeta)
    ensures
        r == (AccountMeta { pubkey, is_signer, is_writable: true }),
{
    AccountMeta { pubkey, is_signer, is_writable: true }
}

fn readonly(pubkey: Pubkey, is_signer: bool) -> (r: AccountMeta)
    ensures
        r == (AccountMeta { pubkey, is_signer, is_writable: false }),
{
    AccountMeta { pubkey, is_signer, is_writable: false }
}

/// A call that creates the settings or changes them; `None` when the
/// settings address cannot be derived.
pub fn get_ix_update_place_state(
    program_id: &Pubkey,
    current_owner: Pubkey,
    new_owner: Option<Pubkey>,
    is_frozen: Option<bool>,
    paintbrush_price: Option<u64>,
    paintbrush_cooldown: Option<u64>,
    bomb_price: Option<u64>,
) -> (r: Option<Instruction>)
    ensures
        r is None <==> program_address(settings_seeds(), program_id@) is None,
        r matches Some(ix) ==> {
            &&& ix.program_id == *program_id
            &&& ix.data@ == encode_instruction(
                PlaceInstruction::UpdatePlaceState(
                    UpdatePlaceStateDataArgs {
                        new_owner,
                        is_frozen,
                        paintbrush_price,
                        paintbrush_cooldown,
                        bomb_price,
                    },
                ),
            )
            &&& entries(ix.accounts@) == seq![
                entry(current_owner@, true, true),
                entry(address_of(settings_seeds(), program_id@), false, true),
                entry(system_program_key(), false, false),
            ]
        },
{
    let settings = match derive_address(&settings_seed_list(), program_id) {
        Some(p) => p.0,
        None => {
            return None;
        },
    };
    let accounts = vec![
        writable(current_owner, true),
        writable(settings, false),
        readonly(system_program_id(), false),
    ];
    let ix = PlaceInstruction::UpdatePlaceState(
        UpdatePlaceStateDataArgs {
            new_owner,
            is_frozen,
            paintbrush_price,
            paintbrush_cooldown,
            bomb_price,
        },
    );
    let r = Instruction { program_id: *program_id, accounts, data: ix.pack() };
    assert(entries(r.accounts@) =~= seq![
        entry(current_owner@, true, true),
        entry(address_of(settings_seeds(), program_id@), false, true),
        entry(system_program_key(), false, false),
    ]);
    Some(r)
}

/// A call that allocates tile `(x_patch, y_patch)`; `None` when its address
/// cannot be derived.
pub fn get_ix_init_patch(program_id: &Pubkey, payer: Pubkey, x_patch: u8, y_patch: u8) -> (r:
    Option<Instruction>)
    ensures
        r is None <==> program_address(patch_seeds(x_patch, y_patch), program_id@) is None,
        r matches Some(ix) ==> {
            &&& ix.program_id == *program_id
            &&& ix.data@ == encode_instruction(
                PlaceInstruction::InitPatch(InitPatchDataArgs { x_patch, y_patch }),
            )
            &&& entries(ix.accounts@) == seq![
                entry(payer@, true, true),
                entry(address_of(patch_seeds(x_patch, y_patch), program_id@), false, true),
                entry(system_program_key(), false, false),
            ]
        },
{
    let patch = match find_address_for_patch(x_patch, y_patch, program_id) {
        Some(p) => p.0,
        None => {
            return None;
        },
    };
    let accounts = vec![writable(payer, true), writable(patch, false), readonly(system_program_id(), false)];
    let ix = PlaceInstruction::InitPatch(InitPatchDataArgs { x_patch, y_patch });
    let r = Instruction { program_id: *program_id, accounts, data: ix.pack() };
    assert(entries(r.accounts@) =~= seq![
        entry(payer@, true, true),
        entry(address_of(patch_seeds(x_patch, y_patch), program_id@), false, true),
        entry(system_program_key(), false, false),
    ]);
    Some(r)
}

/// A call that buys a gameplay token with `random_seed` at `desired_price`;
/// `None` when one of its addresses cannot be derived.
pub fn get_ix_purchase_gameplay_token(
    program_id: &Pubkey,
    payer: Pubkey,
    random_seed: u64,
    token_type: GameplayTokenType,
    desired_price: u64,
) -> (r: Option<Instruction>)
    ensures
        r is None <==> (program_address(settings_seeds(), program_id@) is None || program_address(
            game_seeds(random_seed),
            program_id@,
        ) is None || program_address(game_mint_seeds(random_seed), program_id@) is None),
        r matches Some(ix) ==> {
            let mint = address_of(game_mint_seeds(random_seed), program_id@);
            &&& ix.program_id == *program_id
            &&& ix.data@ == encode_instruction(
                PlaceInstruction::PurchaseGameplayToken(
                    PurchaseGameplayTokenDataArgs { token_type, random_seed, desired_price },
                ),
            )
            &&& entries(ix.accounts@) == seq![
                entry(payer@, true, true),
                entry(address_of(settings_seeds(), program_id@), false, false),
                entry(address_of(game_seeds(random_seed), program_id@), false, true),
                entry(mint, false, true),
                entry(associated_address(payer@, mint), false, true),
                entry(metadata_address_of(mint), false, true),
                entry(metadata_program_key(), false, false),
                entry(token_program_key(), false, false),
                entry(associated_token_program_key(), false, false),
                entry(system_program_key(), false, false),
                entry(rent_sysvar_key(), false, false),
            ]
        },
{
    let settings = match derive_address(&settings_seed_list(), program_id) {
        Some(p) => p.0,
        None => {
            return None;
        },
    };
    let meta = match derive_address(&game_seed_list(random_seed), program_id) {
        Some(p) => p.0,
        None => {
            return None;
        },
    };
    let mint = match derive_address(&game_mint_seed_list(random_seed), program_id) {
        Some(p) => p.0,
        None => {
            return None;
        },
    };
    let accounts = vec![
        writable(payer, true),
        readonly(settings, false),
        writable(meta, false),
        writable(mint, false),
        writable(associated_token_address(&payer, &mint), false),
        writable(metadata_address(&mint), false),
        readonly(metadata_program_id(), false),
        readonly(token_program_id(), false),
        readonly(associated_token_program_id(), false),
        readonly(system_program_id(), false),
        readonly(rent_sysvar_id(), false),
    ];
    let ix = PlaceInstruction::PurchaseGameplayToken(
        PurchaseGameplayTokenDataArgs { token_type, random_seed, desired_price },
    );
    let r = Instruction { program_id: *program_id, accounts, data: ix.pack() };
    assert(entries(r.accounts@) =~= seq![
        entry(payer@, true, true),
        entry(address_of(settings_seeds(), program_id@), false, false),
        entry(address_of(game_seeds(random_seed), program_id@), false, true),
        entry(mint@, false, true),
        entry(associated_address(payer@, mint@), false, true),
        entry(metadata_address_of(mint@), false, true),
        entry(metadata_program_key(), false, false),
        entry(token_program_key(), false, false),
        entry(associated_token_program_key(), false, false),
        entry(system_program_key(), false, false),
        entry(rent_sysvar_key(), false, false),
    ]);
    Some(r)
}

/// A call that writes pixel `(x_offset, y_offset)` of tile `(x, y)` with the
/// payer's gameplay token; `None` when the tile address cannot be derived.
pub fn get_ix_set_pixel(
    program_id: &Pubkey,
    payer: Pubkey,
    gameplay_token_meta_pda: Pubkey,
    payer_gameplay_token_acct: Pubkey,
    x: u8,
    y: u8,
    x_offset: u8,
    y_offset: u8,
    pixel: u8,
) -> (r: Option<Instruction>)
    ensures
        r is None <==> program_address(patch_seeds(x, y), program_id@) is None,
        r matches Some(ix) ==> {
            &&& ix.program_id == *program_id
            &&& ix.data@ == encode_instruction(
                PlaceInstruction::SetPixel(SetPixelDataArgs { x, y, x_offset, y_offset, pixel }),
            )
            &&& entries(ix.accounts@) == seq![
                entry(payer@, true, true),
                entry(address_of(patch_seeds(x, y), program_id@), false, true),
                entry(gameplay_token_meta_pda@, false, true),
                entry(payer_gameplay_token_acct@, false, false),
                entry(system_program_key(), false, false),
            ]
        },
{
    let patch = match find_address_for_patch(x, y, program_id) {
        Some(p) => p.0,
        None => {
            return None;
        },
    };
    let accounts = vec![
        writable(payer, true),
        writable(patch, false),
        writable(gameplay_token_meta_pda, false),
        readonly(payer_gameplay_token_acct, false),
        readonly(system_program_id(), false),
    ];
    let ix = PlaceInstruction::SetPixel(SetPixelDataArgs { x, y, x_offset, y_offset, pixel });
    let r = Instruction { program_id: *program_id, accounts, data: ix.pack() };
    assert(entries(r.accounts@) =~= seq![
        entry(payer@, true, true),
        entry(address_of(patch_seeds(x, y), program_id@), false, true),
        entry(gameplay_token_meta_pda@, false, true),
        entry(payer_gameplay_token_acct@, false, false),
        entry(system_program_key(), false, false),
    ]);
    Some(r)
}

/// A call with which the settings owner creates the royalty token mint;
/// `None` when one of its addresses cannot be derived.
pub fn get_ix_init_mint(program_id: &Pubkey, owner: Pubkey) -> (r: Option<Instruction>)
    ensures
        r is None <==> (program_address(settings_seeds(), program_id@) is None || program_address(
            royalty_mint_seeds(),
            program_id@,
        ) is None),
        r matches Some(ix) ==> {
            &&& ix.program_id == *program_id
            &&& ix.data@ == encode_instruction(PlaceInstruction::InitMint(InitMintDataArgs {  }))
            &&& entries(ix.accounts@) == seq![
                entry(owner@, true, true),
                entry(address_of(settings_seeds(), program_id@), false, true),
                entry(address_of(royalty_mint_seeds(), program_id@), false, true),
                entry(token_program_key(), false, false),
                entry(system_program_key(), false, false),
                entry(rent_sysvar_key(), false, false),
            ]
        },
{
    let settings = match derive_address(&settings_seed_list(), program_id) {
        Some(p) => p.0,
        None => {
            return None;
        },
    };
    let mint = match derive_address(&royalty_mint_seed_list(), program_id) {
        Some(p) => p.0,
        None => {
            return None;
        },
    };
    let accounts = vec![
        writable(owner, true),
        writable(settings, false),
        writable(mint, false),
        readonly(token_program_id(), false),
        readonly(system_program_id(), false),
        readonly(rent_sysvar_id(), false),
    ];
    let ix = PlaceInstruction::InitMint(InitMintDataArgs {  });
    let r = Instruction { program_id: *program_id, accounts, data: ix.pack() };
    assert(entries(r.accounts@) =~= seq![
        entry(owner@, true, true),
        entry(address_of(settings_seeds(), program_id@), false, true),
        entry(address_of(royalty_mint_seeds(), program_id@), false, true),
        entry(token_program_key(), false, false),
        entry(system_program_key(), false, false),
        entry(rent_sysvar_key(), false, false),
    ]);
    Some(r)
}

/// A call with which the holder of a gameplay token claims its royalties
/// into `place_token_dest`; `None` when one of its addresses cannot be
/// derived.
pub fn get_ix_claim_tokens(
    program_id: &Pubkey,
    claimer: Pubkey,
    place_token_dest: Pubkey,
    gameplay_token_mint: Pubkey,
    gameplay_token_seed: u64,
) -> (r: Option<Instruction>)
    ensures
        r is None <==> (program_address(game_seeds(gameplay_token_seed), program_id@) is None
            || program_address(royalty_mint_seeds(), program_id@) is None || program_address(
            settings_seeds(),
            program_id@,
        ) is None),
        r matches Some(ix) ==> {
            &&& ix.program_id == *program_id
            &&& ix.data@ == encode_instruction(PlaceInstruction::ClaimTokens(ClaimTokensDataArgs {  }))
            &&& entries(ix.accounts@) == seq![
                entry(claimer@, true, false),
                entry(address_of(game_seeds(gameplay_token_seed), program_id@), false, true),
                entry(associated_address(claimer@, gameplay_token_mint@), false, false),
                entry(address_of(royalty_mint_seeds(), program_id@), false, true),
                entry(place_token_dest@, false, true),
                entry(address_of(settings_seeds(), program_id@), false, false),
                entry(token_program_key(), false, false),
            ]
        },
{
    let meta = match derive_address(&game_seed_list(gameplay_token_seed), program_id) {
        Some(p) => p.0,
        None => {
            return None;
        },
    };
    let mint = match derive_address(&royalty_mint_seed_list(), program_id) {
        Some(p) => p.0,
        None => {
            return None;
        },
    };
    let settings = match derive_address(&settings_seed_list(), program_id) {
        Some(p) => p.0,
        None => {
            return None;
        },
    };
    let accounts = vec![
        readonly(claimer, true),
        writable(meta, false),
        readonly(associated_token_address(&claimer, &gameplay_token_mint), false),
        writable(mint, false),
        writable(place_token_dest, false),
        readonly(settings, false),
        readonly(token_program_id(), false),
    ];
    let ix = PlaceInstruction::ClaimTokens(ClaimTokensDataArgs {  });
    let r = Instruction { program_id: *program_id, accounts, data: ix.pack() };
    assert(entries(r.accounts@) =~= seq![
        entry(claimer@, true, false),
        entry(address_of(game_seeds(gameplay_token_seed), program_id@), false, true),
        entry(associated_address(claimer@, gameplay_token_mint@), false, false),
        entry(address_of(royalty_mint_seeds(), program_id@), false, true),
        entry(place_token_dest@, false, true),
        entry(address_of(settings_seeds(), program_id@), false, false),
        entry(token_program_key(), false, false),
    ]);
    Some(r)
}

} // verus!
