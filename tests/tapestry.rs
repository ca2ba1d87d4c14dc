use solana_place::error::TapestryError;
use solana_place::palette::Blend32;
use solana_place::processor::Account;
use solana_place::pubkey::Pubkey;
use solana_place::tapestry::{ChunkCoords, FeaturedRegion, FeaturedState, InitTapestryDataArgs, MAX_X, MAX_Y, MIN_X, MIN_Y, PurchasePatchDataArgs, PushFeaturedDataArgs, TapestryInstruction, UpdatePatchImageDataArgs, UpdatePatchMetadataDataArgs, assert_coords_valid, chunk_for_coords, find_featured_state_address, find_mint_address_for_patch_coords, find_patch_address_for_patch_coords, find_tapestry_state_address};
use solana_place::tapestry_processor::{TapestryAction, process_init_tapestry, process_purchase_patch, process_push_featured, process_tapestry, process_update_patch_image, process_update_patch_metadata};
use solana_place::tapestry_state::{TapestryPatch, TapestryState};

#[test]
fn test_chunks() {
    let my_max = 127i16;
    assert_eq!(my_max as i8, std::i8::MAX);
    let my_min = -128i16;
    assert_eq!(my_min as i8, std::i8::MIN);

    assert_eq!(chunk_for_coords(0, 0), ChunkCoords { x_chunk: 0, y_chunk: 0 });
    assert_eq!(chunk_for_coords(-1, 0), ChunkCoords { x_chunk: -1, y_chunk: 0 });
    assert_eq!(chunk_for_coords(-1, -1), ChunkCoords { x_chunk: -1, y_chunk: -1 });
    assert_eq!(chunk_for_coords(0, -1), ChunkCoords { x_chunk: 0, y_chunk: -1 });
    assert_eq!(chunk_for_coords(MAX_X, MAX_Y), ChunkCoords { x_chunk: 127, y_chunk: 127 });
    assert_eq!(chunk_for_coords(MIN_X, MIN_Y), ChunkCoords { x_chunk: -128, y_chunk: -128 });
    assert_eq!(chunk_for_coords(MIN_X, MAX_Y), ChunkCoords { x_chunk: -128, y_chunk: 127 });
    assert_eq!(chunk_for_coords(MAX_X, MIN_Y), ChunkCoords { x_chunk: 127, y_chunk: -128 });
}

#[test]
fn chunks_round_down() {
    assert_eq!(chunk_for_coords(7, -8), ChunkCoords { x_chunk: 0, y_chunk: -1 });
    assert_eq!(chunk_for_coords(8, -9), ChunkCoords { x_chunk: 1, y_chunk: -2 });
}

#[test]
fn coordinates_on_the_tapestry() {
    assert_eq!(assert_coords_valid(MAX_X, MIN_Y), Ok(()));
    assert_eq!(assert_coords_valid(1024, 0), Err(TapestryError::InvalidPatchCoordinates));
    assert_eq!(assert_coords_valid(0, -1025), Err(TapestryError::InvalidPatchCoordinates));
    assert_eq!(TapestryError::InvalidPatchCoordinates.code(), 14);
}

#[test]
fn palette_colours() {
    assert_eq!(Blend32::u8_to_rgb(0), [255, 255, 255]);
    assert_eq!(Blend32::u8_to_rgb(1), [0, 0, 0]);
    assert_eq!(Blend32::u8_to_rgb(5), [191, 36, 50]);
    assert_eq!(Blend32::u8_to_rgb(31), [58, 1, 33]);
    assert_eq!(Blend32::u8_to_rgb(32), [255, 255, 255]);
    assert_eq!(Blend32::u8_to_rgb(255), [255, 255, 255]);
}

fn tap_pid() -> Pubkey {
    Pubkey::new_from_array([9u8; 32])
}

fn tap_acct(key: Pubkey, is_signer: bool, data: Vec<u8>) -> Account {
    Account { key, is_signer, lamports: 0, owner: Pubkey::new_from_array([0u8; 32]), data }
}

fn with_lamports(mut a: Account, lamports: u64) -> Account {
    a.lamports = lamports;
    a
}

fn ata(wallet: &Pubkey, mint: &Pubkey) -> Pubkey {
    let w = solana_program::pubkey::Pubkey::new_from_array(wallet.bytes);
    let m = solana_program::pubkey::Pubkey::new_from_array(mint.bytes);
    Pubkey::new_from_array(spl_associated_token_account::get_associated_token_address(&w, &m).to_bytes())
}

fn created_tapestry(price: u64) -> Vec<u8> {
    let owner = tap_acct(Pubkey::new_from_array([1u8; 32]), true, vec![]);
    let mut state = tap_acct(find_tapestry_state_address(&tap_pid()).unwrap().0, false, vec![]);
    let mut featured = tap_acct(find_featured_state_address(&tap_pid()).unwrap().0, false, vec![]);
    let r = process_init_tapestry(&tap_pid(), &owner, &mut state, &mut featured, &InitTapestryDataArgs { initial_sale_price: price });
    assert!(r.is_ok());
    state.data
}

#[test]
fn init_tapestry_once() {
    let owner = tap_acct(Pubkey::new_from_array([1u8; 32]), true, vec![]);
    let mut state = tap_acct(find_tapestry_state_address(&tap_pid()).unwrap().0, false, vec![]);
    let mut featured = tap_acct(find_featured_state_address(&tap_pid()).unwrap().0, false, vec![]);
    let args = InitTapestryDataArgs { initial_sale_price: 10_000_000 };
    let r = process_init_tapestry(&tap_pid(), &owner, &mut state, &mut featured, &args);
    assert!(r.is_ok());
    assert_eq!(state.data.len(), 48);
    let s = TapestryState::from_bytes(&state.data).unwrap();
    assert_eq!(s, TapestryState { is_initialized: true, owner: owner.key, initial_sale_price: 10_000_000 });
    assert_eq!(featured.data.len(), 7604);
    assert!(featured.data.iter().all(|&b| b == 0));
    let again = process_init_tapestry(&tap_pid(), &owner, &mut state, &mut featured, &args);
    assert_eq!(again, Err(TapestryError::InvalidTapestryStatePDA));
}

#[test]
fn purchase_patch_writes_an_owned_record() {
    let state_data = created_tapestry(100);
    let buyer = tap_acct(Pubkey::new_from_array([2u8; 32]), true, vec![]);
    let state = tap_acct(find_tapestry_state_address(&tap_pid()).unwrap().0, false, state_data);
    let (x, y) = (-9i16, 17i16);
    let mint_key = find_mint_address_for_patch_coords(x, y, &tap_pid()).unwrap().0;
    let mint = tap_acct(mint_key, false, vec![]);
    let holding = tap_acct(ata(&buyer.key, &mint_key), false, vec![]);
    let mut patch = tap_acct(find_patch_address_for_patch_coords(x, y, &tap_pid()).unwrap().0, false, vec![]);
    let args = PurchasePatchDataArgs { x, y };

    let poor = process_purchase_patch(&tap_pid(), &with_lamports(buyer.clone(), 99), &state, &mut patch, &mint, &holding, &args);
    assert_eq!(poor, Err(TapestryError::InsufficientFundsForPurchase));
    assert!(patch.data.is_empty());

    let wrong_holding = tap_acct(Pubkey::new_from_array([3u8; 32]), false, vec![]);
    let r = process_purchase_patch(&tap_pid(), &with_lamports(buyer.clone(), 100), &state, &mut patch, &mint, &wrong_holding, &args);
    assert_eq!(r, Err(TapestryError::InvalidTapestryPatchAssociatedTokenAccount));

    let sale = process_purchase_patch(&tap_pid(), &with_lamports(buyer.clone(), 100), &state, &mut patch, &mint, &holding, &args).unwrap();
    assert_eq!(sale.price, 100);
    assert_eq!(patch.data.len(), 1270);
    assert_eq!(patch.data[0], 1);
    assert_eq!(patch.data[1..33], mint_key.bytes);
    assert_eq!(patch.data[33] as i8, -2);
    assert_eq!(patch.data[34] as i8, 2);
    assert_eq!(patch.data[35..39], [0xf7, 0xff, 17, 0]);
    assert!(patch.data[39..].iter().all(|&b| b == 0));

    let again = process_purchase_patch(&tap_pid(), &with_lamports(buyer.clone(), 100), &state, &mut patch, &mint, &holding, &args);
    assert_eq!(again, Err(TapestryError::TapestryPatchAlreadySold));
}

#[test]
fn purchase_patch_rejects_off_canvas_pixels() {
    let state_data = created_tapestry(1);
    let buyer = tap_acct(Pubkey::new_from_array([2u8; 32]), true, vec![]);
    let state = tap_acct(find_tapestry_state_address(&tap_pid()).unwrap().0, false, state_data);
    let mint = tap_acct(Pubkey::new_from_array([4u8; 32]), false, vec![]);
    let holding = tap_acct(Pubkey::new_from_array([5u8; 32]), false, vec![]);
    let mut patch = tap_acct(Pubkey::new_from_array([6u8; 32]), false, vec![]);
    let r = process_purchase_patch(&tap_pid(), &with_lamports(buyer.clone(), 1), &state, &mut patch, &mint, &holding, &PurchasePatchDataArgs { x: 1024, y: 0 });
    assert_eq!(r, Err(TapestryError::InvalidPatchCoordinates));
    let r = process_purchase_patch(&tap_pid(), &with_lamports(buyer.clone(), 1), &state, &mut patch, &mint, &holding, &PurchasePatchDataArgs { x: 0, y: 0 });
    assert_eq!(r, Err(TapestryError::InvalidTapestryPatchPDA));
}

const TOKEN_PROGRAM_ID: [u8; 32] = [
    6, 221, 246, 225, 215, 101, 161, 147, 217, 203, 225, 70, 206, 235, 121, 172, 28, 180, 133,
    237, 95, 91, 55, 145, 58, 140, 245, 133, 126, 255, 0, 169,
];

fn owned_by(a: &Account, program: Pubkey) -> Account {
    let mut b = a.clone();
    b.owner = program;
    b
}

fn token_account(mint: Pubkey, owner: Pubkey, amount: u64) -> Vec<u8> {
    let mut d = Vec::new();
    d.extend_from_slice(&mint.bytes);
    d.extend_from_slice(&owner.bytes);
    d.extend_from_slice(&amount.to_le_bytes());
    d.extend_from_slice(&[0u8; 36]);
    d.push(1);
    d.extend_from_slice(&[0u8; 12]);
    d.extend_from_slice(&[0u8; 8]);
    d.extend_from_slice(&[0u8; 36]);
    d
}

/// A sold patch at `(x, y)`, its mint, and its buyer.
fn sold(x: i16, y: i16) -> (Account, Pubkey, Account) {
    let state = tap_acct(find_tapestry_state_address(&tap_pid()).unwrap().0, false, created_tapestry(5));
    let buyer = tap_acct(Pubkey::new_from_array([2u8; 32]), true, vec![]);
    let mint_key = find_mint_address_for_patch_coords(x, y, &tap_pid()).unwrap().0;
    let mint = tap_acct(mint_key, false, vec![]);
    let holding = tap_acct(ata(&buyer.key, &mint_key), false, vec![]);
    let mut patch = tap_acct(find_patch_address_for_patch_coords(x, y, &tap_pid()).unwrap().0, false, vec![]);
    process_purchase_patch(&tap_pid(), &with_lamports(buyer.clone(), 5), &state, &mut patch, &mint, &holding, &PurchasePatchDataArgs { x, y }).unwrap();
    (patch, mint_key, buyer)
}

#[test]
fn owner_updates_image_and_texts() {
    let (mut patch, mint, buyer) = sold(40, -3);
    let token = tap_acct(Pubkey::new_from_array([60u8; 32]), false, token_account(mint, buyer.key, 1));
    let token_prog = Pubkey::new_from_array(TOKEN_PROGRAM_ID);
    let image = UpdatePatchImageDataArgs { x: 40, y: -3, image_data: vec![1, 2, 3] };
    assert_eq!(process_update_patch_image(&tap_pid(), &buyer, &owned_by(&token, token_prog), &mut patch, &image), Ok(()));
    let texts = UpdatePatchMetadataDataArgs {
        x: 40,
        y: -3,
        url: Some(b"https://example.org".to_vec()),
        hover_text: None,
    };
    assert_eq!(process_update_patch_metadata(&tap_pid(), &buyer, &owned_by(&token, token_prog), &mut patch, &texts), Ok(()));
    assert_eq!(patch.data.len(), 1270);
    let p = TapestryPatch::from_bytes(&patch.data).unwrap();
    assert_eq!(p.owned_by_mint, mint);
    assert_eq!((p.x, p.y, p.x_chunk, p.y_chunk), (40, -3, 5, -1));
    assert_eq!(p.url, Some(b"https://example.org".to_vec()));
    assert_eq!(p.hover_text, None);
    assert_eq!(p.image_data, Some(vec![1, 2, 3]));
}

#[test]
fn patch_edits_are_checked() {
    let (mut patch, mint, buyer) = sold(0, 0);
    let token_prog = Pubkey::new_from_array(TOKEN_PROGRAM_ID);
    let before = patch.data.clone();
    let good = tap_acct(Pubkey::new_from_array([60u8; 32]), false, token_account(mint, buyer.key, 1));
    let too_big = UpdatePatchImageDataArgs { x: 0, y: 0, image_data: vec![7u8; 1025] };
    assert_eq!(
        process_update_patch_image(&tap_pid(), &buyer, &owned_by(&good, token_prog), &mut patch, &too_big),
        Err(TapestryError::PatchImageDataTooLong)
    );
    let long_hover = UpdatePatchMetadataDataArgs { x: 0, y: 0, url: None, hover_text: Some(vec![b'a'; 65]) };
    assert_eq!(
        process_update_patch_metadata(&tap_pid(), &buyer, &owned_by(&good, token_prog), &mut patch, &long_hover),
        Err(TapestryError::PatchHoverTextTooLong)
    );
    let image = UpdatePatchImageDataArgs { x: 0, y: 0, image_data: vec![9] };
    let stranger = tap_acct(Pubkey::new_from_array([61u8; 32]), false, token_account(mint, Pubkey::new_from_array([3u8; 32]), 1));
    assert_eq!(
        process_update_patch_image(&tap_pid(), &buyer, &owned_by(&stranger, token_prog), &mut patch, &image),
        Err(TapestryError::InvalidPatchTokenAccount)
    );
    assert_eq!(
        process_update_patch_image(&tap_pid(), &buyer, &good, &mut patch, &image),
        Err(TapestryError::InvalidPatchTokenAccount)
    );
    let elsewhere = UpdatePatchImageDataArgs { x: 1, y: 0, image_data: vec![9] };
    assert_eq!(
        process_update_patch_image(&tap_pid(), &buyer, &owned_by(&good, token_prog), &mut patch, &elsewhere),
        Err(TapestryError::InvalidTapestryPatchPDA)
    );
    assert_eq!(patch.data, before);
}

fn region(time_ms: u64, callout: &[u8]) -> FeaturedRegion {
    FeaturedRegion { time_ms, x: -10, y: 20, width: 30, height: 40, callout: callout.to_vec(), sol_domain: b"place.sol".to_vec() }
}

fn featured_setup() -> (Account, Account, Account) {
    let owner = tap_acct(Pubkey::new_from_array([1u8; 32]), true, vec![]);
    let mut state = tap_acct(find_tapestry_state_address(&tap_pid()).unwrap().0, false, vec![]);
    let mut featured = tap_acct(find_featured_state_address(&tap_pid()).unwrap().0, false, vec![]);
    process_init_tapestry(&tap_pid(), &owner, &mut state, &mut featured, &InitTapestryDataArgs { initial_sale_price: 1 }).unwrap();
    (owner, state, featured)
}

#[test]
fn featured_list_keeps_newest_fifty() {
    let (owner, state, mut featured) = featured_setup();
    assert_eq!(FeaturedState::from_bytes(&featured.data).unwrap().featured.len(), 0);
    for t in 0..51u64 {
        let args = PushFeaturedDataArgs { region: region(t, b"look here") };
        assert_eq!(process_push_featured(&tap_pid(), &owner, &state, &mut featured, &args), Ok(()));
    }
    assert_eq!(featured.data.len(), 7604);
    let f = FeaturedState::from_bytes(&featured.data).unwrap();
    assert_eq!(f.featured.len(), 50);
    assert_eq!(f.featured[0], region(50, b"look here"));
    assert_eq!(f.featured[49].time_ms, 1);
}

#[test]
fn featured_push_is_checked() {
    let (owner, state, mut featured) = featured_setup();
    let before = featured.data.clone();
    let long = PushFeaturedDataArgs { region: region(1, &[b'x'; 65]) };
    assert_eq!(process_push_featured(&tap_pid(), &owner, &state, &mut featured, &long), Err(TapestryError::FeaturedCalloutTooLong));
    let mut off = region(1, b"ok");
    off.width = 2000;
    assert_eq!(
        process_push_featured(&tap_pid(), &owner, &state, &mut featured, &PushFeaturedDataArgs { region: off }),
        Err(TapestryError::InvalidPatchCoordinates)
    );
    let other = tap_acct(Pubkey::new_from_array([2u8; 32]), true, vec![]);
    let ok = PushFeaturedDataArgs { region: region(1, b"ok") };
    assert_eq!(process_push_featured(&tap_pid(), &other, &state, &mut featured, &ok), Err(TapestryError::IncorrectOwner));
    assert_eq!(featured.data, before);
}

#[test]
fn tapestry_calls_by_bytes() {
    let owner = Pubkey::new_from_array([1u8; 32]);
    let mut init = vec![
        tap_acct(owner, true, vec![]),
        tap_acct(find_tapestry_state_address(&tap_pid()).unwrap().0, false, vec![]),
        tap_acct(Pubkey::new_from_array([0u8; 32]), false, vec![]),
        tap_acct(find_featured_state_address(&tap_pid()).unwrap().0, false, vec![]),
    ];
    let mut data = vec![0u8];
    data.extend_from_slice(&7u64.to_le_bytes());
    let r = process_tapestry(&tap_pid(), &mut init, &data);
    assert!(matches!(r, Ok(TapestryAction::Initialized { .. })));
    assert_eq!(TapestryState::from_bytes(&init[1].data).unwrap().initial_sale_price, 7);

    let mut push = vec![init[0].clone(), init[1].clone(), init[3].clone(), init[2].clone()];
    let mut region_bytes = vec![4u8];
    region_bytes.extend_from_slice(&99u64.to_le_bytes());
    for v in [1i16, 2, 3, 4] {
        region_bytes.extend_from_slice(&v.to_le_bytes());
    }
    region_bytes.extend_from_slice(&2u32.to_le_bytes());
    region_bytes.extend_from_slice(b"hi");
    region_bytes.extend_from_slice(&0u32.to_le_bytes());
    assert_eq!(process_tapestry(&tap_pid(), &mut push, &region_bytes), Ok(TapestryAction::FeaturedPushed));
    let f = FeaturedState::from_bytes(&push[2].data).unwrap();
    assert_eq!(f.featured.len(), 1);
    assert_eq!(f.featured[0].callout, b"hi".to_vec());
    assert_eq!((f.featured[0].x, f.featured[0].height), (1, 4));

    let mut update = vec![
        tap_acct(owner, true, vec![]),
        tap_acct(Pubkey::new_from_array([3u8; 32]), false, vec![]),
        tap_acct(find_patch_address_for_patch_coords(5, 5, &tap_pid()).unwrap().0, false, vec![]),
    ];
    let mut image = vec![2u8];
    image.extend_from_slice(&5i16.to_le_bytes());
    image.extend_from_slice(&5i16.to_le_bytes());
    image.extend_from_slice(&1u32.to_le_bytes());
    image.push(8);
    assert_eq!(process_tapestry(&tap_pid(), &mut update, &image), Err(TapestryError::PatchAccountNotAllocated));

    let meta = vec![3u8, 5, 0, 5, 0, 1, 1, 0, 0, 0, b'u', 0];
    assert!(matches!(TapestryInstruction::unpack(&meta), Ok(TapestryInstruction::UpdatePatchMetadata(_))));
    for bad in [vec![], vec![5], vec![0, 1], vec![1, 0, 0, 0], vec![2, 0, 0, 0, 0, 9, 0, 0, 0], vec![3, 0, 0, 0, 0, 2]] {
        assert_eq!(TapestryInstruction::unpack(&bad), Err(TapestryError::InvalidInstruction));
    }
    let mut short = vec![tap_acct(owner, true, vec![])];
    assert_eq!(process_tapestry(&tap_pid(), &mut short, &data), Err(TapestryError::NotEnoughAccountKeys));
}
