use solana_place::address::{
    derive_address, find_address_for_patch, game_mint_seed_list, game_seed_list,
    royalty_mint_seed_list, settings_seed_list,
};
use solana_place::error::PlaceError;
use solana_place::instruction::{
    ClaimTokensDataArgs, InitPatchDataArgs, PlaceInstruction, PurchaseGameplayTokenDataArgs,
    SetPixelDataArgs, UpdatePlaceStateDataArgs,
};
use solana_place::processor::{Account, HostAction, Processor};
use solana_place::pubkey::Pubkey;
use solana_place::state::{GameplayTokenMeta, GameplayTokenType, Patch, PlaceAccountType, PlaceState};

const TOKEN_PROGRAM: [u8; 32] = [
    6, 221, 246, 225, 215, 101, 161, 147, 217, 203, 225, 70, 206, 235, 121, 172, 28, 180, 133,
    237, 95, 91, 55, 145, 58, 140, 245, 133, 126, 255, 0, 169,
];
const RENT_SYSVAR: [u8; 32] = [
    6, 167, 213, 23, 25, 44, 92, 81, 33, 140, 201, 76, 61, 74, 241, 127, 88, 218, 238, 8, 155,
    161, 253, 68, 227, 219, 217, 138, 0, 0, 0, 0,
];

fn program_id() -> Pubkey {
    Pubkey::new_from_array([7u8; 32])
}

fn key(b: u8) -> Pubkey {
    Pubkey::new_from_array([b; 32])
}

fn acct(key: Pubkey, is_signer: bool, data: Vec<u8>) -> Account {
    Account { key, is_signer, lamports: 1_000_000_000, owner: Pubkey::new_from_array([0u8; 32]), data }
}

fn settings_key() -> Pubkey {
    derive_address(&settings_seed_list(), &program_id()).unwrap().0
}

fn patch_key(x: u8, y: u8) -> Pubkey {
    find_address_for_patch(x, y, &program_id()).unwrap().0
}

fn meta_key(seed: u64) -> Pubkey {
    derive_address(&game_seed_list(seed), &program_id()).unwrap().0
}

fn game_mint_key(seed: u64) -> Pubkey {
    derive_address(&game_mint_seed_list(seed), &program_id()).unwrap().0
}

fn metadata_key(mint: Pubkey) -> Pubkey {
    let m = solana_program::pubkey::Pubkey::new_from_array(mint.bytes);
    Pubkey::new_from_array(mpl_token_metadata::accounts::Metadata::find_pda(&m).0.to_bytes())
}

fn system() -> Account {
    acct(key(0), false, vec![])
}

/// A token-program holding account: mint, owner, amount, then no delegate,
/// initialized, not native, nothing delegated, no close authority.
fn holding(mint: Pubkey, owner: Pubkey, amount: u64) -> Vec<u8> {
    let mut d = Vec::new();
    d.extend_from_slice(&mint.bytes);
    d.extend_from_slice(&owner.bytes);
    d.extend_from_slice(&amount.to_le_bytes());
    d.extend_from_slice(&[0u8; 36]);
    d.push(1);
    d.extend_from_slice(&[0u8; 12]);
    d.extend_from_slice(&[0u8; 8]);
    d.extend_from_slice(&[0u8; 36]);
    d
}

fn update_args() -> UpdatePlaceStateDataArgs {
    UpdatePlaceStateDataArgs {
        new_owner: None,
        is_frozen: None,
        paintbrush_price: None,
        paintbrush_cooldown: None,
        bomb_price: None,
    }
}

fn run(accounts: &mut Vec<Account>, ix: PlaceInstruction, now: u64) -> Result<HostAction, PlaceError> {
    Processor::process(&program_id(), accounts, &ix.pack(), now)
}

fn update_accounts(caller: Pubkey, settings_data: Vec<u8>) -> Vec<Account> {
    vec![acct(caller, true, vec![]), acct(settings_key(), false, settings_data), system()]
}

fn created_settings(owner: Pubkey, price: u64, cooldown: u64) -> Vec<u8> {
    let mut a = update_accounts(owner, vec![]);
    let args = UpdatePlaceStateDataArgs {
        paintbrush_price: Some(price),
        paintbrush_cooldown: Some(cooldown),
        ..update_args()
    };
    assert_eq!(
        run(&mut a, PlaceInstruction::UpdatePlaceState(args), 0),
        Ok(HostAction::SettingsWritten { created: true })
    );
    a[1].data.clone()
}

fn purchase_accounts(payer: Pubkey, settings_data: Vec<u8>, seed: u64) -> Vec<Account> {
    vec![
        acct(payer, true, vec![]),
        acct(settings_key(), false, settings_data),
        acct(meta_key(seed), false, vec![]),
        acct(game_mint_key(seed), false, vec![]),
        acct(key(40), false, vec![]),
        acct(metadata_key(game_mint_key(seed)), false, vec![]),
        acct(Pubkey::new_from_array(mpl_token_metadata::ID.to_bytes()), false, vec![]),
        acct(Pubkey::new_from_array(TOKEN_PROGRAM), false, vec![]),
        acct(Pubkey::new_from_array(spl_associated_token_account::id().to_bytes()), false, vec![]),
        system(),
        acct(Pubkey::new_from_array(RENT_SYSVAR), false, vec![]),
    ]
}

fn purchase(kind: GameplayTokenType, seed: u64, price: u64) -> PlaceInstruction {
    PlaceInstruction::PurchaseGameplayToken(PurchaseGameplayTokenDataArgs {
        token_type: kind,
        random_seed: seed,
        desired_price: price,
    })
}

/// A bought paintbrush record for `seed`, bought at slot `now`.
fn bought_meta(buyer: Pubkey, seed: u64, now: u64) -> Vec<u8> {
    let settings = created_settings(key(1), 2_000_000, 600);
    let mut a = purchase_accounts(buyer, settings, seed);
    let r = run(&mut a, purchase(GameplayTokenType::PaintBrush, seed, 2_000_000), now);
    assert!(matches!(r, Ok(HostAction::TokenPurchased(_))));
    a[2].data.clone()
}

fn init_patch(x: u8, y: u8) -> Vec<u8> {
    let mut a = vec![acct(key(9), true, vec![]), acct(patch_key(x, y), false, vec![]), system()];
    let r = run(&mut a, PlaceInstruction::InitPatch(InitPatchDataArgs { x_patch: x, y_patch: y }), 0);
    assert!(matches!(r, Ok(HostAction::PatchCreated { .. })));
    a[1].data.clone()
}

fn pixel_accounts(payer: Pubkey, x: u8, y: u8, patch: Vec<u8>, seed: u64, meta: Vec<u8>) -> Vec<Account> {
    vec![
        acct(payer, true, vec![]),
        acct(patch_key(x, y), false, patch),
        acct(meta_key(seed), false, meta),
        acct(key(50), false, holding(game_mint_key(seed), payer, 1)),
        system(),
    ]
}

fn set_pixel(x: u8, y: u8, x_offset: u8, y_offset: u8, pixel: u8) -> PlaceInstruction {
    PlaceInstruction::SetPixel(SetPixelDataArgs { x, y, x_offset, y_offset, pixel })
}

fn claim_accounts(claimer: Pubkey, seed: u64, meta: Vec<u8>) -> Vec<Account> {
    vec![
        acct(claimer, true, vec![]),
        acct(meta_key(seed), false, meta),
        acct(key(50), false, holding(game_mint_key(seed), claimer, 1)),
        acct(derive_address(&royalty_mint_seed_list(), &program_id()).unwrap().0, false, vec![]),
        acct(key(51), false, vec![]),
        acct(settings_key(), false, vec![]),
        acct(Pubkey::new_from_array(TOKEN_PROGRAM), false, vec![]),
    ]
}

fn claim() -> PlaceInstruction {
    PlaceInstruction::ClaimTokens(ClaimTokensDataArgs {})
}

#[test]
fn first_update_creates_settings_with_defaults() {
    let mut a = update_accounts(key(1), vec![]);
    let r = run(&mut a, PlaceInstruction::UpdatePlaceState(update_args()), 0);
    assert_eq!(r, Ok(HostAction::SettingsWritten { created: true }));
    let s = PlaceState::from_bytes(&a[1].data).unwrap();
    assert_eq!(s.acct_type, PlaceAccountType::PlaceState);
    assert_eq!(s.owner, key(1));
    assert!(!s.is_frozen);
    assert_eq!(s.paintbrush_price, 2_000_000);
    assert_eq!(s.paintbrush_cooldown, 600);
    assert_eq!(s.bomb_price, 500_000_000);
}

#[test]
fn other_caller_cannot_update_settings() {
    let data = created_settings(key(1), 2_000_000, 600);
    let mut a = update_accounts(key(2), data.clone());
    let args = UpdatePlaceStateDataArgs { bomb_price: Some(5), ..update_args() };
    assert_eq!(run(&mut a, PlaceInstruction::UpdatePlaceState(args), 0), Err(PlaceError::InvalidOwner));
    assert_eq!(a[1].data, data);
}

#[test]
fn owner_partial_update_changes_one_field() {
    let data = created_settings(key(1), 3_000_000, 90);
    let before = PlaceState::from_bytes(&data).unwrap();
    let mut a = update_accounts(key(1), data);
    let args = UpdatePlaceStateDataArgs { bomb_price: Some(42), ..update_args() };
    let r = run(&mut a, PlaceInstruction::UpdatePlaceState(args), 0);
    assert_eq!(r, Ok(HostAction::SettingsWritten { created: false }));
    let after = PlaceState::from_bytes(&a[1].data).unwrap();
    assert_eq!(after, PlaceState { bomb_price: 42, ..before });
}

#[test]
fn update_needs_a_signature_and_the_settings_address() {
    let mut a = update_accounts(key(1), vec![]);
    a[0].is_signer = false;
    assert_eq!(
        run(&mut a, PlaceInstruction::UpdatePlaceState(update_args()), 0),
        Err(PlaceError::MissingRequiredSignature)
    );
    let mut b = update_accounts(key(1), vec![]);
    b[1].key = key(3);
    assert_eq!(
        run(&mut b, PlaceInstruction::UpdatePlaceState(update_args()), 0),
        Err(PlaceError::IncorrectPlaceStatePDA)
    );
    let mut c = update_accounts(key(1), vec![]);
    c[2].key = key(4);
    assert_eq!(
        run(&mut c, PlaceInstruction::UpdatePlaceState(update_args()), 0),
        Err(PlaceError::InvalidAccountArgument)
    );
}

#[test]
fn init_patch_then_read() {
    for (x, y) in [(0u8, 0u8), (49, 49), (3, 17)] {
        let data = init_patch(x, y);
        assert_eq!(data.len(), 407);
        let acc = acct(patch_key(x, y), false, data);
        let p = solana_place::processor::read_patch(&program_id(), &acc, x, y).unwrap();
        assert_eq!(p.acct_type, PlaceAccountType::Patch);
        assert_eq!((p.x, p.y), (x, y));
        assert_eq!(p.pixels.len(), 400);
        assert!(p.pixels.iter().all(|&v| v == 0));
    }
}

#[test]
fn init_patch_twice_fails_and_keeps_data() {
    let data = init_patch(2, 5);
    let mut a = vec![acct(key(9), true, vec![]), acct(patch_key(2, 5), false, data.clone()), system()];
    let r = run(&mut a, PlaceInstruction::InitPatch(InitPatchDataArgs { x_patch: 2, y_patch: 5 }), 0);
    assert_eq!(r, Err(PlaceError::PatchAccountAlreadyInitialized));
    assert_eq!(a[1].data, data);
}

#[test]
fn init_patch_rejects_bad_coordinates_and_address() {
    let mut a = vec![acct(key(9), true, vec![]), acct(patch_key(0, 0), false, vec![]), system()];
    let r = run(&mut a, PlaceInstruction::InitPatch(InitPatchDataArgs { x_patch: 50, y_patch: 0 }), 0);
    assert_eq!(r, Err(PlaceError::InvalidPatchCoordinates));
    let r = run(&mut a, PlaceInstruction::InitPatch(InitPatchDataArgs { x_patch: 0, y_patch: 50 }), 0);
    assert_eq!(r, Err(PlaceError::InvalidPatchCoordinates));
    let r = run(&mut a, PlaceInstruction::InitPatch(InitPatchDataArgs { x_patch: 1, y_patch: 0 }), 0);
    assert_eq!(r, Err(PlaceError::IncorrectPatchPDA));
    assert!(a[1].data.is_empty());
}

#[test]
fn set_origin_pixel_changes_index_zero_only() {
    let mut p = Patch::new(4, 4);
    for i in 0..400 {
        p.pixels[i] = (i % 251) as u8;
    }
    let before = p.pixels.clone();
    assert_eq!(p.set_pixel(0, 0, 200), Ok(()));
    assert_eq!(p.pixels[0], 200);
    for i in 1..400 {
        assert_eq!(p.pixels[i], before[i]);
    }
}

#[test]
fn set_pixel_is_row_major_and_bounded() {
    let mut p = Patch::new(0, 0);
    assert_eq!(p.set_pixel(3, 4, 170), Ok(()));
    assert_eq!(p.pixels[4 * 20 + 3], 170);
    assert_eq!(p.pixels.iter().filter(|&&v| v != 0).count(), 1);
    assert_eq!(p.set_pixel(20, 0, 1), Err(PlaceError::InvalidPixelOffset));
    assert_eq!(p.set_pixel(0, 20, 1), Err(PlaceError::InvalidPixelOffset));
    assert_eq!(p.set_pixel(19, 19, 9), Ok(()));
    assert_eq!(p.pixels[399], 9);
}

#[test]
fn records_round_trip() {
    let s = PlaceState {
        acct_type: PlaceAccountType::PlaceState,
        owner: key(5),
        is_frozen: true,
        paintbrush_price: 0x0102_0304_0506_0708,
        paintbrush_cooldown: u64::MAX,
        bomb_price: 1,
    };
    let bytes = s.encode();
    assert_eq!(bytes.len(), 58);
    assert_eq!(bytes[34..42], [8, 7, 6, 5, 4, 3, 2, 1]);
    assert_eq!(PlaceState::from_bytes(&bytes), Ok(s));

    let m = GameplayTokenMeta {
        acct_type: PlaceAccountType::GameplayTokenMeta,
        gameplay_type: GameplayTokenType::Bomb,
        created_at_slot: 11,
        random_seed: 0xdead_beef,
        token_mint_pda: key(6),
        update_allowed_slot: 611,
        cooldown_duration: 600,
        royalty_tokens_owed: 0x0a0b_0c0d,
    };
    let bytes = m.encode();
    assert_eq!(bytes.len(), 70);
    assert_eq!(bytes[66..70], [0x0d, 0x0c, 0x0b, 0x0a]);
    assert_eq!(GameplayTokenMeta::from_bytes(&bytes), Ok(m));

    let mut p = Patch::new(7, 8);
    p.pixels[10] = 3;
    let bytes = p.encode();
    assert_eq!(bytes.len(), 407);
    assert_eq!(bytes[3..7], [144, 1, 0, 0]);
    assert_eq!(Patch::from_bytes(&bytes), Ok(p));
}

#[test]
fn reads_check_tag_and_length() {
    let s = PlaceState {
        acct_type: PlaceAccountType::PlaceState,
        owner: key(5),
        is_frozen: false,
        paintbrush_price: 1,
        paintbrush_cooldown: 2,
        bomb_price: 3,
    };
    let mut bytes = s.encode();
    bytes[0] = 2;
    assert_eq!(PlaceState::from_bytes(&bytes), Err(PlaceError::AccountDataTypeMismatch));
    bytes[0] = 1;
    bytes.push(0);
    assert_eq!(PlaceState::from_bytes(&bytes), Err(PlaceError::AccountDataTypeMismatch));
    let zeroed = vec![0u8; 58];
    assert_eq!(
        PlaceState::from_bytes(&zeroed).unwrap().acct_type,
        PlaceAccountType::Uninitialized
    );
    let patch = Patch::new(0, 0).encode();
    assert_eq!(GameplayTokenMeta::from_bytes(&patch), Err(PlaceError::AccountDataTypeMismatch));
    let mut short = patch.clone();
    short.pop();
    assert_eq!(Patch::from_bytes(&short), Err(PlaceError::AccountDataTypeMismatch));
}

#[test]
fn instructions_round_trip() {
    let all = vec![
        PlaceInstruction::UpdatePlaceState(update_args()),
        PlaceInstruction::UpdatePlaceState(UpdatePlaceStateDataArgs {
            new_owner: Some(key(3)),
            is_frozen: Some(true),
            paintbrush_price: Some(5),
            paintbrush_cooldown: None,
            bomb_price: Some(u64::MAX),
        }),
        PlaceInstruction::InitPatch(InitPatchDataArgs { x_patch: 1, y_patch: 2 }),
        purchase(GameplayTokenType::Bomb, 77, 500_000_000),
        set_pixel(0, 0, 3, 4, 170),
        PlaceInstruction::InitMint(solana_place::instruction::InitMintDataArgs {}),
        claim(),
    ];
    for ix in all {
        assert_eq!(PlaceInstruction::unpack(&ix.pack()), Ok(ix));
    }
    assert_eq!(set_pixel(1, 2, 3, 4, 5).pack(), vec![3, 1, 2, 3, 4, 5]);
    assert_eq!(PlaceInstruction::UpdatePlaceState(update_args()).pack(), vec![0, 0, 0, 0, 0, 0]);
}

#[test]
fn malformed_instructions_are_rejected() {
    for bad in [vec![], vec![6], vec![1, 2], vec![1, 2, 3, 4], vec![4, 0], vec![0, 2, 0, 0, 0, 0], vec![0, 0, 1, 2, 0, 0, 0]] {
        assert_eq!(PlaceInstruction::unpack(&bad), Err(PlaceError::InvalidInstruction));
    }
    let mut a = vec![acct(key(9), true, vec![])];
    assert_eq!(Processor::process(&program_id(), &mut a, &vec![9], 0), Err(PlaceError::InvalidInstruction));
    let r = run(&mut a, PlaceInstruction::InitPatch(InitPatchDataArgs { x_patch: 0, y_patch: 0 }), 0);
    assert_eq!(r, Err(PlaceError::NotEnoughAccountKeys));
}

#[test]
fn purchase_writes_a_ready_record() {
    let settings = created_settings(key(1), 2_000_000, 600);
    let mut a = purchase_accounts(key(2), settings, 99);
    let r = run(&mut a, purchase(GameplayTokenType::PaintBrush, 99, 2_000_000), 1234);
    match r {
        Ok(HostAction::TokenPurchased(receipt)) => assert_eq!(receipt.price, 2_000_000),
        other => panic!("unexpected {:?}", other),
    }
    let m = GameplayTokenMeta::from_bytes(&a[2].data).unwrap();
    assert_eq!(m.acct_type, PlaceAccountType::GameplayTokenMeta);
    assert_eq!(m.gameplay_type, GameplayTokenType::PaintBrush);
    assert_eq!(m.created_at_slot, 1234);
    assert_eq!(m.update_allowed_slot, 1234);
    assert_eq!(m.random_seed, 99);
    assert_eq!(m.token_mint_pda, game_mint_key(99));
    assert_eq!(m.cooldown_duration, 600);
    assert_eq!(m.royalty_tokens_owed, 0);

    let again = run(&mut a, purchase(GameplayTokenType::PaintBrush, 99, 2_000_000), 1300);
    assert_eq!(again, Err(PlaceError::GameplayTokenAlreadyPurchased));
}

#[test]
fn purchase_at_another_price_changes_nothing() {
    let settings = created_settings(key(1), 2_000_000, 600);
    let mut a = purchase_accounts(key(2), settings, 5);
    let before = a.clone();
    let r = run(&mut a, purchase(GameplayTokenType::PaintBrush, 5, 1_999_999), 10);
    assert_eq!(r, Err(PlaceError::DesiredPriceDifferentFromCurrentPrice));
    let r = run(&mut a, purchase(GameplayTokenType::Bomb, 5, 2_000_000), 10);
    assert_eq!(r, Err(PlaceError::DesiredPriceDifferentFromCurrentPrice));
    assert_eq!(a, before);
    let r = run(&mut a, purchase(GameplayTokenType::Bomb, 5, 500_000_000), 10);
    assert!(matches!(r, Ok(HostAction::TokenPurchased(_))));
}

#[test]
fn purchase_checks_addresses() {
    let settings = created_settings(key(1), 2_000_000, 600);
    let mut a = purchase_accounts(key(2), settings.clone(), 5);
    a[2].key = meta_key(6);
    assert_eq!(run(&mut a, purchase(GameplayTokenType::PaintBrush, 5, 2_000_000), 0), Err(PlaceError::IncorrectGameplayTokenMetaPDA));
    let mut b = purchase_accounts(key(2), settings.clone(), 5);
    b[3].key = key(60);
    assert_eq!(run(&mut b, purchase(GameplayTokenType::PaintBrush, 5, 2_000_000), 0), Err(PlaceError::InvalidGameplayTokenMintPDA));
    let mut c = purchase_accounts(key(2), settings, 5);
    c[7].key = key(61);
    assert_eq!(run(&mut c, purchase(GameplayTokenType::PaintBrush, 5, 2_000_000), 0), Err(PlaceError::InvalidAccountArgument));
}

#[test]
fn write_twice_at_once_then_after_cooldown() {
    let meta = bought_meta(key(2), 7, 100);
    let mut m = acct(meta_key(7), false, meta);
    let caller = acct(key(2), true, vec![]);
    let h = acct(key(50), false, holding(game_mint_key(7), key(2), 1));
    let pid = program_id();
    assert_eq!(solana_place::processor::use_for_write(&pid, &caller, &mut m, &h, 100), Ok(()));
    let after_first = m.data.clone();
    assert_eq!(
        solana_place::processor::use_for_write(&pid, &caller, &mut m, &h, 100),
        Err(PlaceError::GameplayTokenNotReady)
    );
    assert_eq!(m.data, after_first);
    assert_eq!(
        solana_place::processor::use_for_write(&pid, &caller, &mut m, &h, 699),
        Err(PlaceError::GameplayTokenNotReady)
    );
    assert_eq!(solana_place::processor::use_for_write(&pid, &caller, &mut m, &h, 700), Ok(()));
    let rec = GameplayTokenMeta::from_bytes(&m.data).unwrap();
    assert_eq!(rec.update_allowed_slot, 1300);
    assert_eq!(rec.royalty_tokens_owed, 2);
}

#[test]
fn write_requires_the_token_holder() {
    let meta = bought_meta(key(2), 8, 0);
    let pid = program_id();
    let caller = acct(key(2), true, vec![]);
    let cases = [
        (holding(game_mint_key(8), key(3), 1), PlaceError::InvalidGameplayTokenAccountOwner),
        (holding(game_mint_key(8), key(2), 0), PlaceError::InvalidGameplayTokenAccountBalance),
        (holding(key(70), key(2), 1), PlaceError::InvalidGameplayTokenAccountMint),
        (vec![0u8; 10], PlaceError::InvalidGameplayTokenATA),
    ];
    for (h, e) in cases {
        let mut m = acct(meta_key(8), false, meta.clone());
        let h = acct(key(50), false, h);
        assert_eq!(solana_place::processor::use_for_write(&pid, &caller, &mut m, &h, 5), Err(e));
        assert_eq!(m.data, meta);
    }
    let mut bad_state = holding(game_mint_key(8), key(2), 1);
    bad_state[108] = 3;
    let mut m = acct(meta_key(8), false, meta.clone());
    let h = acct(key(50), false, bad_state);
    assert_eq!(
        solana_place::processor::use_for_write(&pid, &caller, &mut m, &h, 5),
        Err(PlaceError::InvalidGameplayTokenATA)
    );
    let mut m = acct(meta_key(9), false, meta.clone());
    let h = acct(key(50), false, holding(game_mint_key(8), key(2), 1));
    assert_eq!(
        solana_place::processor::use_for_write(&pid, &caller, &mut m, &h, 5),
        Err(PlaceError::IncorrectGameplayTokenMetaPDA)
    );
}

#[test]
fn claim_once_after_a_write() {
    let meta = bought_meta(key(2), 11, 0);
    let mut a = claim_accounts(key(2), 11, meta);
    assert_eq!(run(&mut a, claim(), 0), Err(PlaceError::NoTokensToBeClaimed));

    let pid = program_id();
    let caller = acct(key(2), true, vec![]);
    let h = acct(key(50), false, holding(game_mint_key(11), key(2), 1));
    assert_eq!(solana_place::processor::use_for_write(&pid, &caller, &mut a[1], &h, 0), Ok(()));
    match run(&mut a, claim(), 1) {
        Ok(HostAction::TokensClaimed(receipt)) => assert_eq!(receipt.amount, 1),
        other => panic!("unexpected {:?}", other),
    }
    assert_eq!(GameplayTokenMeta::from_bytes(&a[1].data).unwrap().royalty_tokens_owed, 0);
    assert_eq!(run(&mut a, claim(), 2), Err(PlaceError::NoTokensToBeClaimed));
}

#[test]
fn claim_checks_the_royalty_mint() {
    let meta = bought_meta(key(2), 12, 0);
    let mut a = claim_accounts(key(2), 12, meta);
    a[3].key = key(80);
    assert_eq!(run(&mut a, claim(), 0), Err(PlaceError::InvalidPlaceTokenMintPDA));
}

#[test]
fn end_to_end_paint_and_cool_down() {
    let a_key = key(1);
    let b_key = key(2);
    let settings = created_settings(a_key, 2_000_000, 600);
    let s = PlaceState::from_bytes(&settings).unwrap();
    assert_eq!(s.owner, a_key);

    let mut p = purchase_accounts(b_key, settings, 4242);
    let r = run(&mut p, purchase(GameplayTokenType::PaintBrush, 4242, 2_000_000), 1000);
    assert!(matches!(r, Ok(HostAction::TokenPurchased(_))));
    let meta = p[2].data.clone();

    let patch = init_patch(0, 0);
    let mut w = pixel_accounts(b_key, 0, 0, patch, 4242, meta);
    assert_eq!(run(&mut w, set_pixel(0, 0, 3, 4, 170), 1000), Ok(HostAction::PixelSet));
    let tile = Patch::from_bytes(&w[1].data).unwrap();
    assert_eq!(tile.pixels[4 * 20 + 3], 170);

    let before = w.clone();
    assert_eq!(run(&mut w, set_pixel(0, 0, 3, 5, 1), 1000), Err(PlaceError::GameplayTokenNotReady));
    assert_eq!(w, before);

    assert_eq!(run(&mut w, set_pixel(0, 0, 3, 5, 1), 1601), Ok(HostAction::PixelSet));
    let tile = Patch::from_bytes(&w[1].data).unwrap();
    assert_eq!(tile.pixels[5 * 20 + 3], 1);
    assert_eq!(tile.pixels[4 * 20 + 3], 170);
}

#[test]
fn set_pixel_checks_tile_and_offset() {
    let meta = bought_meta(key(2), 13, 0);
    let patch = init_patch(1, 1);
    let mut w = pixel_accounts(key(2), 1, 1, patch, 13, meta);
    let before = w.clone();
    assert_eq!(run(&mut w, set_pixel(1, 2, 0, 0, 1), 5), Err(PlaceError::IncorrectPatchPDA));
    assert_eq!(run(&mut w, set_pixel(1, 1, 20, 0, 1), 5), Err(PlaceError::InvalidPixelOffset));
    assert_eq!(w, before);
}

#[test]
fn error_codes_are_distinct() {
    let all = [
        PlaceError::InvalidInstruction,
        PlaceError::AccountDataTypeMismatch,
        PlaceError::GameplayTokenATAMintDidNotMatch,
        PlaceError::InvalidPlaceTokenDestinationATA,
        PlaceError::NoTokensToBeClaimed,
        PlaceError::MissingRequiredSignature,
    ];
    let codes: Vec<u32> = all.iter().map(|e| e.code()).collect();
    assert_eq!(codes, vec![0, 4, 28, 29, 30, 31]);
    assert_eq!(PlaceError::NoTokensToBeClaimed.message(), "no royalty tokens are owed");
}

#[test]
fn purchase_checks_metadata_and_program_accounts() {
    let settings = created_settings(key(1), 2_000_000, 600);
    for (slot, bad) in [(5usize, key(70)), (6, key(71)), (8, key(72))] {
        let mut a = purchase_accounts(key(2), settings.clone(), 5);
        a[slot].key = bad;
        let r = run(&mut a, purchase(GameplayTokenType::PaintBrush, 5, 2_000_000), 0);
        assert_eq!(r, Err(PlaceError::InvalidAccountArgument));
        assert!(a[2].data.is_empty());
    }
    let mut a = purchase_accounts(key(2), settings, 5);
    match run(&mut a, purchase(GameplayTokenType::PaintBrush, 5, 2_000_000), 0) {
        Ok(HostAction::TokenPurchased(receipt)) => assert_eq!(receipt.payee, meta_key(5)),
        other => panic!("unexpected {:?}", other),
    }
}

#[test]
fn write_past_the_last_slot_fails_and_changes_nothing() {
    let settings = created_settings(key(1), 2_000_000, u64::MAX - 5);
    let mut p = purchase_accounts(key(2), settings, 21);
    assert!(run(&mut p, purchase(GameplayTokenType::PaintBrush, 21, 2_000_000), 10).is_ok());
    let pid = program_id();
    let caller = acct(key(2), true, vec![]);
    let h = acct(key(50), false, holding(game_mint_key(21), key(2), 1));
    let mut m = acct(meta_key(21), false, p[2].data.clone());
    let before = m.data.clone();
    assert_eq!(
        solana_place::processor::use_for_write(&pid, &caller, &mut m, &h, 10),
        Err(PlaceError::CooldownOverflow)
    );
    assert_eq!(m.data, before);
    assert_eq!(solana_place::processor::use_for_write(&pid, &caller, &mut m, &h, 5), Err(PlaceError::GameplayTokenNotReady));
    assert_eq!(solana_place::processor::use_for_write(&pid, &caller, &mut m, &h, 0), Err(PlaceError::GameplayTokenNotReady));
}

#[test]
fn write_at_the_exact_last_slot_succeeds() {
    let settings = created_settings(key(1), 2_000_000, u64::MAX - 10);
    let mut p = purchase_accounts(key(2), settings, 22);
    assert!(run(&mut p, purchase(GameplayTokenType::PaintBrush, 22, 2_000_000), 10).is_ok());
    let pid = program_id();
    let caller = acct(key(2), true, vec![]);
    let h = acct(key(50), false, holding(game_mint_key(22), key(2), 1));
    let mut m = acct(meta_key(22), false, p[2].data.clone());
    assert_eq!(solana_place::processor::use_for_write(&pid, &caller, &mut m, &h, 10), Ok(()));
    assert_eq!(GameplayTokenMeta::from_bytes(&m.data).unwrap().update_allowed_slot, u64::MAX);
}

#[test]
fn royalty_count_overflow_fails() {
    let rec = GameplayTokenMeta {
        acct_type: PlaceAccountType::GameplayTokenMeta,
        gameplay_type: GameplayTokenType::PaintBrush,
        created_at_slot: 0,
        random_seed: 23,
        token_mint_pda: game_mint_key(23),
        update_allowed_slot: 0,
        cooldown_duration: 1,
        royalty_tokens_owed: u32::MAX,
    };
    let pid = program_id();
    let caller = acct(key(2), true, vec![]);
    let h = acct(key(50), false, holding(game_mint_key(23), key(2), 1));
    let mut m = acct(meta_key(23), false, rec.encode());
    assert_eq!(
        solana_place::processor::use_for_write(&pid, &caller, &mut m, &h, 3),
        Err(PlaceError::RoyaltyTokensOverflow)
    );
    assert_eq!(m.data, rec.encode());
    assert_eq!(PlaceError::CooldownOverflow.code(), 35);
    assert_eq!(PlaceError::RoyaltyTokensOverflow.code(), 36);
}

#[test]
fn owner_update_keeps_a_blank_tag() {
    let blank = PlaceState {
        acct_type: PlaceAccountType::Uninitialized,
        owner: key(1),
        is_frozen: false,
        paintbrush_price: 1,
        paintbrush_cooldown: 2,
        bomb_price: 3,
    };
    let mut a = update_accounts(key(1), blank.encode());
    let args = UpdatePlaceStateDataArgs { paintbrush_price: Some(9), ..update_args() };
    assert_eq!(run(&mut a, PlaceInstruction::UpdatePlaceState(args), 0), Ok(HostAction::SettingsWritten { created: false }));
    assert_eq!(PlaceState::from_bytes(&a[1].data), Ok(PlaceState { paintbrush_price: 9, ..blank }));
}
