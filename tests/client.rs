use solana_place::address::{derive_address, find_address_for_patch, game_mint_seed_list, game_seed_list, royalty_mint_seed_list, settings_seed_list};
use solana_place::client::{
    get_ix_claim_tokens, get_ix_init_mint, get_ix_init_patch, get_ix_purchase_gameplay_token,
    get_ix_set_pixel, get_ix_update_place_state, AccountMeta,
};
use solana_place::instruction::{InitPatchDataArgs, PlaceInstruction, PurchaseGameplayTokenDataArgs};
use solana_place::pubkey::Pubkey;
use solana_place::processor::{assert_signer, Account};
use solana_place::state::{GameplayTokenMeta, GameplayTokenType, PlaceState};

const TOKEN_PROGRAM: [u8; 32] = [
    6, 221, 246, 225, 215, 101, 161, 147, 217, 203, 225, 70, 206, 235, 121, 172, 28, 180, 133,
    237, 95, 91, 55, 145, 58, 140, 245, 133, 126, 255, 0, 169,
];

fn pid() -> Pubkey {
    Pubkey::new_from_array([7u8; 32])
}

fn key(b: u8) -> Pubkey {
    Pubkey::new_from_array([b; 32])
}

fn flags(a: &AccountMeta) -> (bool, bool) {
    (a.is_signer, a.is_writable)
}

#[test]
fn derived_addresses_differ_from_their_inputs() {
    let (patch, _) = find_address_for_patch(0, 0, &pid()).unwrap();
    assert_ne!(patch, pid());
    assert_ne!(find_address_for_patch(0, 1, &pid()).unwrap().0, patch);
    assert_ne!(find_address_for_patch(1, 0, &pid()).unwrap().0, patch);
    assert_eq!(find_address_for_patch(0, 0, &pid()).unwrap().0, patch);
    let settings = derive_address(&settings_seed_list(), &pid()).unwrap().0;
    let royalty = derive_address(&royalty_mint_seed_list(), &pid()).unwrap().0;
    let meta = derive_address(&game_seed_list(1), &pid()).unwrap().0;
    let mint = derive_address(&game_mint_seed_list(1), &pid()).unwrap().0;
    let all = [patch, settings, royalty, meta, mint];
    for i in 0..all.len() {
        for j in 0..i {
            assert_ne!(all[i], all[j]);
        }
    }
    assert_ne!(derive_address(&settings_seed_list(), &key(8)).unwrap().0, settings);
}

#[test]
fn update_settings_call() {
    let ix = get_ix_update_place_state(&pid(), key(1), None, Some(true), None, None, Some(9)).unwrap();
    assert_eq!(ix.program_id, pid());
    assert_eq!(ix.accounts.len(), 3);
    assert_eq!(ix.accounts[0].pubkey, key(1));
    assert_eq!(flags(&ix.accounts[0]), (true, true));
    assert_eq!(ix.accounts[1].pubkey, derive_address(&settings_seed_list(), &pid()).unwrap().0);
    assert_eq!(flags(&ix.accounts[1]), (false, true));
    assert_eq!(ix.accounts[2].pubkey, key(0));
    assert_eq!(flags(&ix.accounts[2]), (false, false));
    assert_eq!(ix.data, vec![0, 0, 1, 1, 0, 0, 1, 9, 0, 0, 0, 0, 0, 0, 0]);
}

#[test]
fn init_patch_call() {
    let ix = get_ix_init_patch(&pid(), key(2), 3, 4).unwrap();
    assert_eq!(ix.accounts[1].pubkey, find_address_for_patch(3, 4, &pid()).unwrap().0);
    assert_eq!(PlaceInstruction::unpack(&ix.data), Ok(PlaceInstruction::InitPatch(InitPatchDataArgs { x_patch: 3, y_patch: 4 })));
}

#[test]
fn purchase_call() {
    let ix = get_ix_purchase_gameplay_token(&pid(), key(2), 55, GameplayTokenType::Bomb, 500).unwrap();
    assert_eq!(ix.accounts.len(), 11);
    let mint = derive_address(&game_mint_seed_list(55), &pid()).unwrap().0;
    assert_eq!(ix.accounts[2].pubkey, derive_address(&game_seed_list(55), &pid()).unwrap().0);
    assert_eq!(ix.accounts[3].pubkey, mint);
    let holding = ix.accounts[4].pubkey;
    let metadata = ix.accounts[5].pubkey;
    assert_ne!(holding, key(2));
    assert_ne!(holding, mint);
    assert_ne!(metadata, mint);
    assert_ne!(holding, metadata);
    assert_eq!(ix.accounts[7].pubkey, Pubkey::new_from_array(TOKEN_PROGRAM));
    assert_eq!(flags(&ix.accounts[1]), (false, false));
    assert_eq!(flags(&ix.accounts[4]), (false, true));
    assert_eq!(
        PlaceInstruction::unpack(&ix.data),
        Ok(PlaceInstruction::PurchaseGameplayToken(PurchaseGameplayTokenDataArgs {
            token_type: GameplayTokenType::Bomb,
            random_seed: 55,
            desired_price: 500,
        }))
    );
    let other = get_ix_purchase_gameplay_token(&pid(), key(3), 55, GameplayTokenType::Bomb, 500).unwrap();
    assert_ne!(other.accounts[4].pubkey, holding);
    assert_eq!(other.accounts[5].pubkey, metadata);
}

#[test]
fn set_pixel_call() {
    let ix = get_ix_set_pixel(&pid(), key(2), key(20), key(21), 1, 2, 3, 4, 5).unwrap();
    assert_eq!(ix.accounts.len(), 5);
    assert_eq!(ix.accounts[1].pubkey, find_address_for_patch(1, 2, &pid()).unwrap().0);
    assert_eq!(ix.accounts[2].pubkey, key(20));
    assert_eq!(flags(&ix.accounts[3]), (false, false));
    assert_eq!(ix.data, vec![3, 1, 2, 3, 4, 5]);
}

#[test]
fn init_mint_and_claim_calls() {
    let ix = get_ix_init_mint(&pid(), key(1)).unwrap();
    assert_eq!(ix.accounts.len(), 6);
    assert_eq!(ix.accounts[2].pubkey, derive_address(&royalty_mint_seed_list(), &pid()).unwrap().0);
    assert_eq!(ix.data, vec![4]);

    let ix = get_ix_claim_tokens(&pid(), key(2), key(30), key(31), 77).unwrap();
    assert_eq!(ix.accounts.len(), 7);
    assert_eq!(flags(&ix.accounts[0]), (true, false));
    assert_eq!(ix.accounts[1].pubkey, derive_address(&game_seed_list(77), &pid()).unwrap().0);
    assert_ne!(ix.accounts[2].pubkey, key(2));
    assert_ne!(ix.accounts[2].pubkey, key(31));
    assert_eq!(ix.accounts[4].pubkey, key(30));
    assert_eq!(ix.data, vec![5]);
}

#[test]
fn record_addresses_by_type() {
    assert_eq!(PlaceState::pda(&pid()), derive_address(&settings_seed_list(), &pid()));
    assert_eq!(PlaceState::token_mint_pda(&pid()), derive_address(&royalty_mint_seed_list(), &pid()));
    assert_eq!(GameplayTokenMeta::pda(3, &pid()), derive_address(&game_seed_list(3), &pid()));
    assert_eq!(GameplayTokenMeta::token_mint_pda(3, &pid()), derive_address(&game_mint_seed_list(3), &pid()));
    assert_ne!(GameplayTokenMeta::pda(3, &pid()), GameplayTokenMeta::pda(4, &pid()));
    let unsigned = Account { key: key(1), is_signer: false, lamports: 0, owner: key(0), data: vec![] };
    assert_eq!(assert_signer(&unsigned), Err(solana_place::error::PlaceError::MissingRequiredSignature));
    assert_eq!(PlaceState::from_account_info(&unsigned), Err(solana_place::error::PlaceError::AccountDataTypeMismatch));
}
