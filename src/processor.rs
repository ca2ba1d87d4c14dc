//! The state transitions of the canvas program. Each handler re-derives the
//! address of every record it touches, checks the caller's authority and
//! the record's stage, and either rejects the call with the first failed
//! check, changing nothing, or writes the new record bytes.
use vstd::prelude::*;
use crate::address::{
    derived_bump, find_bump, game_mint_seed_list, game_mint_seeds, game_seed_list, game_seeds,
    associated_token_program_id, associated_token_program_key, metadata_address,
    metadata_address_of, metadata_program_id, metadata_program_key, rent_sysvar_id,
    system_program_id, token_program_id, patch_seed_list, patch_seeds,
    rent_sysvar_key, royalty_mint_seed_list, royalty_mint_seeds, settings_seed_list,
    settings_seeds, system_program_key, token_program_key,
};
use crate::error::PlaceError;
use crate::instruction::{
    decode_instruction, ClaimTokensDataArgs, InitMintDataArgs, InitPatchDataArgs,
    PlaceInstruction, PurchaseGameplayTokenDataArgs, SetPixelDataArgs, UpdatePlaceStateDataArgs,
};
use crate::pubkey::Pubkey;
use crate::state::{
    blank_patch, decode_meta, decode_patch, decode_place_state, encode_meta, encode_patch,
    encode_place_state, offset_in_patch, patch_with_pixel, GameplayTokenMeta,
    GameplayTokenMetaView, GameplayTokenType, Patch, PatchView, PlaceAccountType, PlaceState,
    PlaceStateView, DEFAULT_BOMB_PRICE, DEFAULT_IS_FROZEN, DEFAULT_PAINTBRUSH_COOLDOWN,
    DEFAULT_PAINTBRUSH_PRICE, MAX_X_PATCH, MAX_Y_PATCH, ROYALTY_TOKENS_PER_WRITE,
};
use crate::token::{holding_of, TokenHolding};

verus! {

/// An account as the host hands it to an instruction: its address, whether
/// it signed the call, its balance, the program that owns it, and its data
/// (empty until allocated).
#[derive(Clone, Debug, PartialEq, Eq)]
pub struct Account {
    pub key: Pubkey,
    pub is_signer: bool,
    pub lamports: u64,
    pub owner: Pubkey,
    pub data: Vec<u8>,
}

/// The program's entry point.
pub struct Processor;

// ---------------------------------------------------------------- shared reads

/// Accepts an account that signed the call.
pub fn assert_signer(account: &Account) -> (r: Result<(), PlaceError>)
    ensures
        r is Ok <==> account.is_signer,
        r is Err ==> r == Err::<(), PlaceError>(PlaceError::MissingRequiredSignature),
{
    if account.is_signer {
        Ok(())
    } else {
        Err(PlaceError::MissingRequiredSignature)
    }
}

/// Reading the settings record at `acct`.
pub open spec fn read_settings_outcome(program_id: Seq<u8>, acct: Account) -> Result<
    PlaceStateView,
    PlaceError,
> {
    if derived_bump(settings_seeds(), program_id, acct.key@) is None {
        Err(PlaceError::IncorrectPlaceStatePDA)
    } else {
        match decode_place_state(acct.data@) {
            Some(s) => Ok(s),
            None => Err(PlaceError::AccountDataTypeMismatch),
        }
    }
}

/// Reads the settings record, checking that `acct` is the settings address.
pub fn read_settings(program_id: &Pubkey, acct: &Account) -> (r: Result<PlaceState, PlaceError>)
    ensures
        match r {
            Ok(s) => read_settings_outcome(program_id@, *acct) == Ok::<PlaceStateView, PlaceError>(s@),
            Err(e) => read_settings_outcome(program_id@, *acct) == Err::<PlaceStateView, PlaceError>(e),
        },
{
    if find_bump(&settings_seed_list(), program_id, &acct.key).is_none() {
        return Err(PlaceError::IncorrectPlaceStatePDA);
    }
    PlaceState::from_bytes(&acct.data)
}

/// Reading the patch record at `acct` as tile `(x, y)`.
pub open spec fn read_patch_outcome(program_id: Seq<u8>, acct: Account, x: u8, y: u8) -> Result<
    PatchView,
    PlaceError,
> {
    match decode_patch(acct.data@) {
        None => Err(PlaceError::AccountDataTypeMismatch),
        Some(p) => if derived_bump(patch_seeds(p.x, p.y), program_id, acct.key@) is None {
            Err(PlaceError::IncorrectPatchPDA)
        } else if p.x != x || p.y != y {
            Err(PlaceError::IncorrectPatchPDA)
        } else {
            Ok(p)
        },
    }
}

/// Reads tile `(x, y)`: the record must lie at the address derived from the
/// coordinates it stores, and those must be `(x, y)`.
pub fn read_patch(program_id: &Pubkey, acct: &Account, x: u8, y: u8) -> (r: Result<Patch, PlaceError>)
    ensures
        match r {
            Ok(p) => read_patch_outcome(program_id@, *acct, x, y) == Ok::<PatchView, PlaceError>(p@)
                && p.wf(),
            Err(e) => read_patch_outcome(program_id@, *acct, x, y) == Err::<PatchView, PlaceError>(e),
        },
{
    let p = Patch::from_bytes(&acct.data)?;
    if find_bump(&patch_seed_list(p.x, p.y), program_id, &acct.key).is_none() {
        return Err(PlaceError::IncorrectPatchPDA);
    }
    if p.x != x || p.y != y {
        return Err(PlaceError::IncorrectPatchPDA);
    }
    Ok(p)
}

/// Reading the gameplay token record at `acct`.
pub open spec fn read_meta_outcome(program_id: Seq<u8>, acct: Account) -> Result<
    GameplayTokenMetaView,
    PlaceError,
> {
    match decode_meta(acct.data@) {
        None => Err(PlaceError::AccountDataTypeMismatch),
        Some(m) => if derived_bump(game_seeds(m.random_seed), program_id, acct.key@) is None {
            Err(PlaceError::IncorrectGameplayTokenMetaPDA)
        } else {
            Ok(m)
        },
    }
}

/// Reads a gameplay token record, checking it lies at the address derived
/// from the seed it stores.
pub fn read_gameplay_token(program_id: &Pubkey, acct: &Account) -> (r: Result<
    GameplayTokenMeta,
    PlaceError,
>)
    ensures
        match r {
            Ok(m) => read_meta_outcome(program_id@, *acct) == Ok::<GameplayTokenMetaView, PlaceError>(m@),
            Err(e) => read_meta_outcome(program_id@, *acct) == Err::<GameplayTokenMetaView, PlaceError>(e),
        },
{
    let m = GameplayTokenMeta::from_bytes(&acct.data)?;
    if find_bump(&game_seed_list(m.random_seed), program_id, &acct.key).is_none() {
        return Err(PlaceError::IncorrectGameplayTokenMetaPDA);
    }
    Ok(m)
}

/// The failure, if any, of checking that `holding` shows `caller` holding
/// the one unit of `mint`.
pub open spec fn holder_failure(caller: Seq<u8>, holding: Seq<u8>, mint: Seq<u8>) -> Option<PlaceError> {
    match holding_of(holding) {
        None => Some(PlaceError::InvalidGameplayTokenATA),
        Some(h) => if h.owner != caller {
            Some(PlaceError::InvalidGameplayTokenAccountOwner)
        } else if h.amount != 1 {
            Some(PlaceError::InvalidGameplayTokenAccountBalance)
        } else if h.mint != mint {
            Some(PlaceError::InvalidGameplayTokenAccountMint)
        } else {
            None
        },
    }
}

/// Checks that `holding` is `caller`'s account holding the one unit of `mint`.
pub fn check_holder(caller: &Pubkey, holding: &Account, mint: &Pubkey) -> (r: Result<(), PlaceError>)
    ensures
        match holder_failure(caller@, holding.data@, mint@) {
            Some(e) => r == Err::<(), PlaceError>(e),
            None => r is Ok,
        },
{
    let h = TokenHolding::unpack(&holding.data)?;
    if !h.owner.same_as(caller) {
        return Err(PlaceError::InvalidGameplayTokenAccountOwner);
    }
    if h.amount != 1 {
        return Err(PlaceError::InvalidGameplayTokenAccountBalance);
    }
    if !h.mint.same_as(mint) {
        return Err(PlaceError::InvalidGameplayTokenAccountMint);
    }
    Ok(())
}

// ---------------------------------------------------------------- settings

/// The settings created by the first update: the caller (or the named new
/// owner) owns them, and every absent field takes its default.
pub open spec fn created_settings(caller: Seq<u8>, args: UpdatePlaceStateDataArgs) -> PlaceStateView {
    PlaceStateView {
        acct_type: PlaceAccountType::PlaceState,
        owner: match args.new_owner {
            Some(k) => k@,
            None => caller,
        },
        is_frozen: match args.is_frozen {
            Some(b) => b,
            None => DEFAULT_IS_FROZEN,
        },
        paintbrush_price: match args.paintbrush_price {
            Some(v) => v,
            None => DEFAULT_PAINTBRUSH_PRICE,
        },
        paintbrush_cooldown: match args.paintbrush_cooldown {
            Some(v) => v,
            None => DEFAULT_PAINTBRUSH_COOLDOWN,
        },
        bomb_price: match args.bomb_price {
            Some(v) => v,
            None => DEFAULT_BOMB_PRICE,
        },
    }
}

/// The settings after an update: present fields replace, absent ones stay,
/// and so does the stored tag.
pub open spec fn updated_settings(s: PlaceStateView, args: UpdatePlaceStateDataArgs) -> PlaceStateView {
    PlaceStateView {
        acct_type: s.acct_type,
        owner: match args.new_owner {
            Some(k) => k@,
            None => s.owner,
        },
        is_frozen: match args.is_frozen {
            Some(b) => b,
            None => s.is_frozen,
        },
        paintbrush_price: match args.paintbrush_price {
            Some(v) => v,
            None => s.paintbrush_price,
        },
        paintbrush_cooldown: match args.paintbrush_cooldown {
            Some(v) => v,
            None => s.paintbrush_cooldown,
        },
        bomb_price: match args.bomb_price {
            Some(v) => v,
            None => s.bomb_price,
        },
    }
}

/// What an update of the settings writes, or why it fails.
pub open spec fn update_place_state_outcome(
    program_id: Seq<u8>,
    caller: Account,
    settings: Account,
    system: Account,
    args: UpdatePlaceStateDataArgs,
) -> Result<Seq<u8>, PlaceError> {
    if derived_bump(settings_seeds(), program_id, settings.key@) is None {
        Err(PlaceError::IncorrectPlaceStatePDA)
    } else if system.key@ != system_program_key() {
        Err(PlaceError::InvalidAccountArgument)
    } else if !caller.is_signer {
        Err(PlaceError::MissingRequiredSignature)
    } else if settings.data@.len() == 0 {
        Ok(encode_place_state(created_settings(caller.key@, args)))
    } else {
        match decode_place_state(settings.data@) {
            None => Err(PlaceError::AccountDataTypeMismatch),
            Some(s) => if s.owner != caller.key@ {
                Err(PlaceError::InvalidOwner)
            } else {
                Ok(encode_place_state(updated_settings(s, args)))
            },
        }
    }
}

/// Creates the settings on first use, owned by the caller, or lets their
/// owner change them. Returns whether the record was created, in which case
/// the host allocates its storage at the settings address.
pub fn process_update_place_state(
    program_id: &Pubkey,
    caller: &Account,
    settings: &mut Account,
    system: &Account,
    args: &UpdatePlaceStateDataArgs,
) -> (r: Result<bool, PlaceError>)
    ensures
        final(settings).key == old(settings).key,
        final(settings).is_signer == old(settings).is_signer,
        final(settings).lamports == old(settings).lamports,
        final(settings).owner == old(settings).owner,
        match update_place_state_outcome(program_id@, *caller, *old(settings), *system, *args) {
            Ok(d) => r == Ok::<bool, PlaceError>(old(settings).data@.len() == 0)
                && final(settings).data@ == d,
            Err(e) => r == Err::<bool, PlaceError>(e)
                && final(settings).data@ == old(settings).data@,
        },
{
    if find_bump(&settings_seed_list(), program_id, &settings.key).is_none() {
        return Err(PlaceError::IncorrectPlaceStatePDA);
    }
    if !system_program_id().same_as(&system.key) {
        return Err(PlaceError::InvalidAccountArgument);
    }
    assert_signer(caller)?;
    if settings.data.len() == 0 {
        let state = PlaceState {
            acct_type: PlaceAccountType::PlaceState,
            owner: match args.new_owner {
                Some(k) => k,
                None => caller.key,
            },
            is_frozen: match args.is_frozen {
                Some(b) => b,
                None => DEFAULT_IS_FROZEN,
            },
            paintbrush_price: match args.paintbrush_price {
                Some(v) => v,
                None => DEFAULT_PAINTBRUSH_PRICE,
            },
            paintbrush_cooldown: match args.paintbrush_cooldown {
                Some(v) => v,
                None => DEFAULT_PAINTBRUSH_COOLDOWN,
            },
            bomb_price: match args.bomb_price {
                Some(v) => v,
                None => DEFAULT_BOMB_PRICE,
            },
        };
        assert(state@ == created_settings(caller.key@, *args));
        settings.data = state.encode();
        return Ok(true);
    }
    let s = PlaceState::from_bytes(&settings.data)?;
    if !s.owner.same_as(&caller.key) {
        return Err(PlaceError::InvalidOwner);
    }
    let state = PlaceState {
        acct_type: s.acct_type,
        owner: match args.new_owner {
            Some(k) => k,
            None => s.owner,
        },
        is_frozen: match args.is_frozen {
            Some(b) => b,
            None => s.is_frozen,
        },
        paintbrush_price: match args.paintbrush_price {
            Some(v) => v,
            None => s.paintbrush_price,
        },
        paintbrush_cooldown: match args.paintbrush_cooldown {
            Some(v) => v,
            None => s.paintbrush_cooldown,
        },
        bomb_price: match args.bomb_price {
            Some(v) => v,
            None => s.bomb_price,
        },
    };
    assert(state@ == updated_settings(s@, *args));
    settings.data = state.encode();
    Ok(false)
}

// ---------------------------------------------------------------- patches

/// What allocating tile `(x_patch, y_patch)` writes and the bump of its
/// address, or why it fails.
pub open spec fn init_patch_outcome(
    program_id: Seq<u8>,
    patch: Account,
    system: Account,
    args: InitPatchDataArgs,
) -> Result<(Seq<u8>, u8), PlaceError> {
    if system.key@ != system_program_key() {
        Err(PlaceError::InvalidAccountArgument)
    } else if args.x_patch >= MAX_X_PATCH || args.y_patch >= MAX_Y_PATCH {
        Err(PlaceError::InvalidPatchCoordinates)
    } else {
        match derived_bump(patch_seeds(args.x_patch, args.y_patch), program_id, patch.key@) {
            None => Err(PlaceError::IncorrectPatchPDA),
            Some(bump) => if patch.data@.len() != 0 {
                Err(PlaceError::PatchAccountAlreadyInitialized)
            } else {
                Ok((encode_patch(blank_patch(args.x_patch, args.y_patch)), bump))
            },
        }
    }
}

/// Allocates tile `(x_patch, y_patch)` with all pixels zero. Returns the
/// bump of the tile's address, with which the host signs the allocation.
pub fn process_init_patch(
    program_id: &Pubkey,
    patch: &mut Account,
    system: &Account,
    args: &InitPatchDataArgs,
) -> (r: Result<u8, PlaceError>)
    ensures
        final(patch).key == old(patch).key,
        final(patch).is_signer == old(patch).is_signer,
        final(patch).lamports == old(patch).lamports,
        final(patch).owner == old(patch).owner,
        match init_patch_outcome(program_id@, *old(patch), *system, *args) {
            Ok(p) => r == Ok::<u8, PlaceError>(p.1) && final(patch).data@ == p.0,
            Err(e) => r == Err::<u8, PlaceError>(e) && final(patch).data@ == old(patch).data@,
        },
{
    if !system_program_id().same_as(&system.key) {
        return Err(PlaceError::InvalidAccountArgument);
    }
    if args.x_patch >= MAX_X_PATCH || args.y_patch >= MAX_Y_PATCH {
        return Err(PlaceError::InvalidPatchCoordinates);
    }
    let bump = match find_bump(&patch_seed_list(args.x_patch, args.y_patch), program_id, &patch.key) {
        Some(b) => b,
        None => {
            return Err(PlaceError::IncorrectPatchPDA);
        },
    };
    if patch.data.len() != 0 {
        return Err(PlaceError::PatchAccountAlreadyInitialized);
    }
    let p = Patch::new(args.x_patch, args.y_patch);
    patch.data = p.encode();
    Ok(bump)
}

// ---------------------------------------------------------------- gameplay tokens

/// The price of a token kind under the settings.
pub open spec fn price_of(s: PlaceStateView, kind: GameplayTokenType) -> u64 {
    match kind {
        GameplayTokenType::PaintBrush => s.paintbrush_price,
        GameplayTokenType::Bomb => s.bomb_price,
    }
}

/// The record of a token bought at slot `now`: ready at once, with the
/// settings' cooldown and nothing owed.
pub open spec fn purchased_meta(
    args: PurchaseGameplayTokenDataArgs,
    s: PlaceStateView,
    mint: Seq<u8>,
    now: u64,
) -> GameplayTokenMetaView {
    GameplayTokenMetaView {
        acct_type: PlaceAccountType::GameplayTokenMeta,
        gameplay_type: args.token_type,
        created_at_slot: now,
        random_seed: args.random_seed,
        token_mint_pda: mint,
        update_allowed_slot: now,
        cooldown_duration: s.paintbrush_cooldown,
        royalty_tokens_owed: 0,
    }
}

/// What the host does after a purchase passed its checks: move `price`
/// lamports from the buyer, allocate the record and the mint with these
/// bumps, and mint the one unit to the buyer under the settings' authority.
#[derive(Clone, Copy, Debug, PartialEq, Eq)]
pub struct PurchaseReceipt {
    pub price: u64,
    /// Where the price goes: the new token record's address, which the
    /// call's account list holds writable.
    pub payee: Pubkey,
    pub meta_bump: u8,
    pub mint_bump: u8,
    pub settings_bump: u8,
}

/// What a purchase writes to the gameplay token record and its receipt, or
/// why it fails.
pub open spec fn purchase_outcome(
    program_id: Seq<u8>,
    payer: Account,
    settings: Account,
    meta: Account,
    mint: Account,
    metadata: Account,
    metadata_prog: Account,
    token_prog: Account,
    ata_prog: Account,
    system: Account,
    rent: Account,
    args: PurchaseGameplayTokenDataArgs,
    now: u64,
) -> Result<(Seq<u8>, PurchaseReceipt), PlaceError> {
    let meta_bump = derived_bump(game_seeds(args.random_seed), program_id, meta.key@);
    let settings_bump = derived_bump(settings_seeds(), program_id, settings.key@);
    let mint_bump = derived_bump(game_mint_seeds(args.random_seed), program_id, mint.key@);
    if !payer.is_signer {
        Err(PlaceError::MissingRequiredSignature)
    } else if meta_bump is None {
        Err(PlaceError::IncorrectGameplayTokenMetaPDA)
    } else if settings_bump is None {
        Err(PlaceError::IncorrectPlaceStatePDA)
    } else if mint_bump is None {
        Err(PlaceError::InvalidGameplayTokenMintPDA)
    } else if metadata.key@ != metadata_address_of(mint.key@) || system.key@ != system_program_key()
        || token_prog.key@ != token_program_key() || ata_prog.key@ != associated_token_program_key()
        || metadata_prog.key@ != metadata_program_key() || rent.key@ != rent_sysvar_key() {
        Err(PlaceError::InvalidAccountArgument)
    } else if meta.data@.len() != 0 {
        Err(PlaceError::GameplayTokenAlreadyPurchased)
    } else {
        match decode_place_state(settings.data@) {
            None => Err(PlaceError::AccountDataTypeMismatch),
            Some(s) => if price_of(s, args.token_type) != args.desired_price {
                Err(PlaceError::DesiredPriceDifferentFromCurrentPrice)
            } else {
                Ok(
                    (
                        encode_meta(purchased_meta(args, s, mint.key@, now)),
                        PurchaseReceipt {
                            price: price_of(s, args.token_type),
                            payee: meta.key,
                            meta_bump: meta_bump->Some_0,
                            mint_bump: mint_bump->Some_0,
                            settings_bump: settings_bump->Some_0,
                        },
                    ),
                )
            },
        }
    }
}

/// Sells a gameplay token at the current price, provided the buyer expects
/// that price, and writes its record at slot `now`. On failure nothing is
/// written and nothing is to be paid.
pub fn process_purchase_gameplay_token(
    program_id: &Pubkey,
    payer: &Account,
    settings: &Account,
    meta: &mut Account,
    mint: &Account,
    metadata: &Account,
    metadata_prog: &Account,
    token_prog: &Account,
    ata_prog: &Account,
    system: &Account,
    rent: &Account,
    args: &PurchaseGameplayTokenDataArgs,
    now: u64,
) -> (r: Result<PurchaseReceipt, PlaceError>)
    ensures
        final(meta).key == old(meta).key,
        final(meta).is_signer == old(meta).is_signer,
        final(meta).lamports == old(meta).lamports,
        final(meta).owner == old(meta).owner,
        match purchase_outcome(
            program_id@,
            *payer,
            *settings,
            *old(meta),
            *mint,
            *metadata,
            *metadata_prog,
            *token_prog,
            *ata_prog,
            *system,
            *rent,
            *args,
            now,
        ) {
            Ok(p) => r == Ok::<PurchaseReceipt, PlaceError>(p.1) && final(meta).data@ == p.0,
            Err(e) => r == Err::<PurchaseReceipt, PlaceError>(e)
                && final(meta).data@ == old(meta).data@,
        },
{
    assert_signer(payer)?;
    let meta_bump = match find_bump(&game_seed_list(args.random_seed), program_id, &meta.key) {
        Some(b) => b,
        None => {
            return Err(PlaceError::IncorrectGameplayTokenMetaPDA);
        },
    };
    let settings_bump = match find_bump(&settings_seed_list(), program_id, &settings.key) {
        Some(b) => b,
        None => {
            return Err(PlaceError::IncorrectPlaceStatePDA);
        },
    };
    let mint_bump = match find_bump(&game_mint_seed_list(args.random_seed), program_id, &mint.key) {
        Some(b) => b,
        None => {
            return Err(PlaceError::InvalidGameplayTokenMintPDA);
        },
    };
    if !metadata_address(&mint.key).same_as(&metadata.key) || !system_program_id().same_as(
        &system.key,
    ) || !token_program_id().same_as(&token_prog.key) || !associated_token_program_id().same_as(
        &ata_prog.key,
    ) || !metadata_program_id().same_as(&metadata_prog.key) || !rent_sysvar_id().same_as(
        &rent.key,
    ) {
        return Err(PlaceError::InvalidAccountArgument);
    }
    if meta.data.len() != 0 {
        return Err(PlaceError::GameplayTokenAlreadyPurchased);
    }
    let s = PlaceState::from_bytes(&settings.data)?;
    let price = match args.token_type {
        GameplayTokenType::PaintBrush => s.paintbrush_price,
        GameplayTokenType::Bomb => s.bomb_price,
    };
    if price != args.desired_price {
        return Err(PlaceError::DesiredPriceDifferentFromCurrentPrice);
    }
    let m = GameplayTokenMeta {
        acct_type: PlaceAccountType::GameplayTokenMeta,
        gameplay_type: args.token_type,
        created_at_slot: now,
        random_seed: args.random_seed,
        token_mint_pda: mint.key,
        update_allowed_slot: now,
        cooldown_duration: s.paintbrush_cooldown,
        royalty_tokens_owed: 0,
    };
    assert(m@ == purchased_meta(*args, s@, mint.key@, now));
    meta.data = m.encode();
    Ok(PurchaseReceipt { price, payee: meta.key, meta_bump, mint_bump, settings_bump })
}

/// The record after one write at slot `now`: cooling until exactly `now`
/// plus the cooldown, and owed exactly one more royalty amount. Meaningful
/// where neither sum overflows (see `use_for_write_outcome`).
pub open spec fn meta_after_write(m: GameplayTokenMetaView, now: u64) -> GameplayTokenMetaView {
    GameplayTokenMetaView {
        update_allowed_slot: (now + m.cooldown_duration) as u64,
        royalty_tokens_owed: (m.royalty_tokens_owed + ROYALTY_TOKENS_PER_WRITE) as u32,
        ..m
    }
}

/// What spending a gameplay token's write right at slot `now` writes to its
/// record, or why it fails.
pub open spec fn use_for_write_outcome(
    program_id: Seq<u8>,
    caller: Account,
    meta: Account,
    holding: Account,
    now: u64,
) -> Result<Seq<u8>, PlaceError> {
    if !caller.is_signer {
        Err(PlaceError::MissingRequiredSignature)
    } else {
        match read_meta_outcome(program_id, meta) {
            Err(e) => Err(e),
            Ok(m) => match holder_failure(caller.key@, holding.data@, m.token_mint_pda) {
                Some(e) => Err(e),
                None => if now < m.update_allowed_slot {
                    Err(PlaceError::GameplayTokenNotReady)
                } else if now + m.cooldown_duration > u64::MAX {
                    Err(PlaceError::CooldownOverflow)
                } else if m.royalty_tokens_owed + ROYALTY_TOKENS_PER_WRITE > u32::MAX {
                    Err(PlaceError::RoyaltyTokensOverflow)
                } else {
                    Ok(encode_meta(meta_after_write(m, now)))
                },
            },
        }
    }
}

/// Spends the write right of the gameplay token at `meta` at slot `now`:
/// the caller must hold its one unit and the cooldown must have passed.
pub fn use_for_write(
    program_id: &Pubkey,
    caller: &Account,
    meta: &mut Account,
    holding: &Account,
    now: u64,
) -> (r: Result<(), PlaceError>)
    ensures
        final(meta).key == old(meta).key,
        final(meta).is_signer == old(meta).is_signer,
        final(meta).lamports == old(meta).lamports,
        final(meta).owner == old(meta).owner,
        match use_for_write_outcome(program_id@, *caller, *old(meta), *holding, now) {
            Ok(d) => r is Ok && final(meta).data@ == d,
            Err(e) => r == Err::<(), PlaceError>(e) && final(meta).data@ == old(meta).data@,
        },
{
    assert_signer(caller)?;
    let m = read_gameplay_token(program_id, meta)?;
    check_holder(&caller.key, holding, &m.token_mint_pda)?;
    if now < m.update_allowed_slot {
        return Err(PlaceError::GameplayTokenNotReady);
    }
    if now > u64::MAX - m.cooldown_duration {
        return Err(PlaceError::CooldownOverflow);
    }
    if m.royalty_tokens_owed > u32::MAX - ROYALTY_TOKENS_PER_WRITE {
        return Err(PlaceError::RoyaltyTokensOverflow);
    }
    let next = GameplayTokenMeta {
        update_allowed_slot: now + m.cooldown_duration,
        royalty_tokens_owed: m.royalty_tokens_owed + ROYALTY_TOKENS_PER_WRITE,
        ..m
    };
    assert(next@ == meta_after_write(m@, now));
    meta.data = next.encode();
    Ok(())
}

/// What a pixel write writes to the tile and to the token record, or why it
/// fails.
pub open spec fn set_pixel_outcome(
    program_id: Seq<u8>,
    payer: Account,
    patch: Account,
    meta: Account,
    holding: Account,
    system: Account,
    args: SetPixelDataArgs,
    now: u64,
) -> Result<(Seq<u8>, Seq<u8>), PlaceError> {
    if !payer.is_signer {
        Err(PlaceError::MissingRequiredSignature)
    } else if system.key@ != system_program_key() {
        Err(PlaceError::InvalidAccountArgument)
    } else {
        match read_patch_outcome(program_id, patch, args.x, args.y) {
            Err(e) => Err(e),
            Ok(p) => if !offset_in_patch(args.x_offset, args.y_offset) {
                Err(PlaceError::InvalidPixelOffset)
            } else {
                match use_for_write_outcome(program_id, payer, meta, holding, now) {
                    Err(e) => Err(e),
                    Ok(md) => Ok(
                        (
                            encode_patch(
                                patch_with_pixel(p, args.x_offset, args.y_offset, args.pixel),
                            ),
                            md,
                        ),
                    ),
                }
            },
        }
    }
}

/// Writes one pixel of tile `(x, y)` with the payer's gameplay token, which
/// then cools down.
pub fn process_set_pixel(
    program_id: &Pubkey,
    payer: &Account,
    patch: &mut Account,
    meta: &mut Account,
    holding: &Account,
    system: &Account,
    args: &SetPixelDataArgs,
    now: u64,
) -> (r: Result<(), PlaceError>)
    ensures
        final(patch).key == old(patch).key,
        final(patch).is_signer == old(patch).is_signer,
        final(patch).lamports == old(patch).lamports,
        final(patch).owner == old(patch).owner,
        final(meta).key == old(meta).key,
        final(meta).is_signer == old(meta).is_signer,
        final(meta).lamports == old(meta).lamports,
        final(meta).owner == old(meta).owner,
        match set_pixel_outcome(
            program_id@,
            *payer,
            *old(patch),
            *old(meta),
            *holding,
            *system,
            *args,
            now,
        ) {
            Ok(d) => r is Ok && final(patch).data@ == d.0 && final(meta).data@ == d.1,
            Err(e) => r == Err::<(), PlaceError>(e) && final(patch).data@ == old(patch).data@
                && final(meta).data@ == old(meta).data@,
        },
{
    assert_signer(payer)?;
    if !system_program_id().same_as(&system.key) {
        return Err(PlaceError::InvalidAccountArgument);
    }
    let mut p = read_patch(program_id, patch, args.x, args.y)?;
    if args.x_offset as usize >= crate::state::PATCH_SIZE_PX || args.y_offset as usize
        >= crate::state::PATCH_SIZE_PX {
        return Err(PlaceError::InvalidPixelOffset);
    }
    use_for_write(program_id, payer, meta, holding, now)?;
    let set = p.set_pixel(args.x_offset, args.y_offset, args.pixel);
    assert(set is Ok);
    patch.data = p.encode();
    Ok(())
}

/// What the host does after a claim passed its checks: mint `amount`
/// royalty tokens to the destination under the settings' authority.
#[derive(Clone, Copy, Debug, PartialEq, Eq)]
pub struct ClaimReceipt {
    pub amount: u32,
    pub settings_bump: u8,
}

/// What a claim writes to the token record and its receipt, or why it fails.
pub open spec fn claim_outcome(
    program_id: Seq<u8>,
    claimer: Account,
    meta: Account,
    holding: Account,
    royalty_mint: Account,
    settings: Account,
    token_prog: Account,
) -> Result<(Seq<u8>, ClaimReceipt), PlaceError> {
    if !claimer.is_signer {
        Err(PlaceError::MissingRequiredSignature)
    } else {
        match read_meta_outcome(program_id, meta) {
            Err(e) => Err(e),
            Ok(m) => match holder_failure(claimer.key@, holding.data@, m.token_mint_pda) {
                Some(e) => Err(e),
                None => {
                    let settings_bump = derived_bump(settings_seeds(), program_id, settings.key@);
                    if derived_bump(royalty_mint_seeds(), program_id, royalty_mint.key@) is None {
                        Err(PlaceError::InvalidPlaceTokenMintPDA)
                    } else if settings_bump is None {
                        Err(PlaceError::IncorrectPlaceStatePDA)
                    } else if token_prog.key@ != token_program_key() {
                        Err(PlaceError::InvalidTokenProgramAccount)
                    } else if m.royalty_tokens_owed == 0 {
                        Err(PlaceError::NoTokensToBeClaimed)
                    } else {
                        Ok(
                            (
                                encode_meta(GameplayTokenMetaView { royalty_tokens_owed: 0, ..m }),
                                ClaimReceipt {
                                    amount: m.royalty_tokens_owed,
                                    settings_bump: settings_bump->Some_0,
                                },
                            ),
                        )
                    }
                },
            },
        }
    }
}

/// Hands the royalty tokens a gameplay token has earned to its holder and
/// resets what it is owed.
pub fn process_claim_tokens(
    program_id: &Pubkey,
    claimer: &Account,
    meta: &mut Account,
    holding: &Account,
    royalty_mint: &Account,
    settings: &Account,
    token_prog: &Account,
    args: &ClaimTokensDataArgs,
) -> (r: Result<ClaimReceipt, PlaceError>)
    ensures
        final(meta).key == old(meta).key,
        final(meta).is_signer == old(meta).is_signer,
        final(meta).lamports == old(meta).lamports,
        final(meta).owner == old(meta).owner,
        match claim_outcome(
            program_id@,
            *claimer,
            *old(meta),
            *holding,
            *royalty_mint,
            *settings,
            *token_prog,
        ) {
            Ok(p) => r == Ok::<ClaimReceipt, PlaceError>(p.1) && final(meta).data@ == p.0,
            Err(e) => r == Err::<ClaimReceipt, PlaceError>(e)
                && final(meta).data@ == old(meta).data@,
        },
{
    assert_signer(claimer)?;
    let m = read_gameplay_token(program_id, meta)?;
    check_holder(&claimer.key, holding, &m.token_mint_pda)?;
    if find_bump(&royalty_mint_seed_list(), program_id, &royalty_mint.key).is_none() {
        return Err(PlaceError::InvalidPlaceTokenMintPDA);
    }
    let settings_bump = match find_bump(&settings_seed_list(), program_id, &settings.key) {
        Some(b) => b,
        None => {
            return Err(PlaceError::IncorrectPlaceStatePDA);
        },
    };
    if !token_program_id().same_as(&token_prog.key) {
        return Err(PlaceError::InvalidTokenProgramAccount);
    }
    if m.royalty_tokens_owed == 0 {
        return Err(PlaceError::NoTokensToBeClaimed);
    }
    let next = GameplayTokenMeta { royalty_tokens_owed: 0, ..m };
    assert(next@ == (GameplayTokenMetaView { royalty_tokens_owed: 0, ..m@ }));
    meta.data = next.encode();
    Ok(ClaimReceipt { amount: m.royalty_tokens_owed, settings_bump })
}

/// The bumps with which the host creates the royalty token mint, or why
/// it may not.
pub open spec fn init_mint_outcome(
    program_id: Seq<u8>,
    owner: Account,
    settings: Account,
    royalty_mint: Account,
    token_prog: Account,
    system: Account,
) -> Result<(u8, u8), PlaceError> {
    let settings_bump = derived_bump(settings_seeds(), program_id, settings.key@);
    let mint_bump = derived_bump(royalty_mint_seeds(), program_id, royalty_mint.key@);
    if !owner.is_signer {
        Err(PlaceError::MissingRequiredSignature)
    } else if system.key@ != system_program_key() {
        Err(PlaceError::InvalidSystemProgramAccount)
    } else if token_prog.key@ != token_program_key() {
        Err(PlaceError::InvalidTokenProgramAccount)
    } else if settings_bump is None {
        Err(PlaceError::InvalidAccountArgument)
    } else {
        match decode_place_state(settings.data@) {
            None => Err(PlaceError::AccountDataTypeMismatch),
            Some(s) => if s.owner != owner.key@ {
                Err(PlaceError::InvalidOwner)
            } else if mint_bump is None {
                Err(PlaceError::InvalidPlaceTokenMintPDA)
            } else if royalty_mint.data@.len() != 0 {
                Err(PlaceError::PlaceTokenMintAlreadyInitialized)
            } else {
                Ok((settings_bump->Some_0, mint_bump->Some_0))
            },
        }
    }
}

/// Checks that the settings owner may create the royalty token mint, and
/// returns the bumps of the settings address and of the mint address.
pub fn process_init_mint(
    program_id: &Pubkey,
    owner: &Account,
    settings: &Account,
    royalty_mint: &Account,
    token_prog: &Account,
    system: &Account,
    args: &InitMintDataArgs,
) -> (r: Result<(u8, u8), PlaceError>)
    ensures
        match init_mint_outcome(program_id@, *owner, *settings, *royalty_mint, *token_prog, *system) {
            Ok(p) => r == Ok::<(u8, u8), PlaceError>(p),
            Err(e) => r == Err::<(u8, u8), PlaceError>(e),
        },
{
    assert_signer(owner)?;
    if !system_program_id().same_as(&system.key) {
        return Err(PlaceError::InvalidSystemProgramAccount);
    }
    if !token_program_id().same_as(&token_prog.key) {
        return Err(PlaceError::InvalidTokenProgramAccount);
    }
    let settings_bump = match find_bump(&settings_seed_list(), program_id, &settings.key) {
        Some(b) => b,
        None => {
            return Err(PlaceError::InvalidAccountArgument);
        },
    };
    let s = PlaceState::from_bytes(&settings.data)?;
    if !s.owner.same_as(&owner.key) {
        return Err(PlaceError::InvalidOwner);
    }
    let mint_bump = match find_bump(&royalty_mint_seed_list(), program_id, &royalty_mint.key) {
        Some(b) => b,
        None => {
            return Err(PlaceError::InvalidPlaceTokenMintPDA);
        },
    };
    if royalty_mint.data.len() != 0 {
        return Err(PlaceError::PlaceTokenMintAlreadyInitialized);
    }
    Ok((settings_bump, mint_bump))
}

// ---------------------------------------------------------------- routing

/// What the host still has to do for a call that passed its checks, besides
/// storing the written records.
#[derive(Clone, Copy, Debug, PartialEq, Eq)]
pub enum HostAction {
    /// The settings were written; when `created`, their storage is allocated
    /// first, at the settings address.
    SettingsWritten { created: bool },
    /// The tile was written; its storage is allocated first, signed with this
    /// bump.
    PatchCreated { bump: u8 },
    /// Take the payment and create the token's mint, holding account, unit
    /// and metadata.
    TokenPurchased(PurchaseReceipt),
    /// The tile and the token record were written.
    PixelSet,
    /// Create the royalty token mint.
    MintReady { settings_bump: u8, mint_bump: u8 },
    /// Mint the royalty tokens to the destination.
    TokensClaimed(ClaimReceipt),
}

/// The data of account `i` once the records in `writes` are stored.
pub open spec fn data_after(accounts: Seq<Account>, writes: Map<int, Seq<u8>>, i: int) -> Seq<u8> {
    if writes.contains_key(i) {
        writes[i]
    } else {
        accounts[i].data@
    }
}

/// What a call writes, by account position, and what the host must then
/// do, or why the call fails. The accounts come in the order each
/// instruction documents.
pub open spec fn process_outcome(
    program_id: Seq<u8>,
    accounts: Seq<Account>,
    data: Seq<u8>,
    now: u64,
) -> Result<(Map<int, Seq<u8>>, HostAction), PlaceError> {
    match decode_instruction(data) {
        None => Err(PlaceError::InvalidInstruction),
        Some(PlaceInstruction::UpdatePlaceState(a)) => if accounts.len() < 3 {
            Err(PlaceError::NotEnoughAccountKeys)
        } else {
            match update_place_state_outcome(program_id, accounts[0], accounts[1], accounts[2], a) {
                Ok(d) => Ok(
                    (
                        Map::empty().insert(1, d),
                        HostAction::SettingsWritten { created: accounts[1].data@.len() == 0 },
                    ),
                ),
                Err(e) => Err(e),
            }
        },
        Some(PlaceInstruction::InitPatch(a)) => if accounts.len() < 3 {
            Err(PlaceError::NotEnoughAccountKeys)
        } else {
            match init_patch_outcome(program_id, accounts[1], accounts[2], a) {
                Ok(p) => Ok((Map::empty().insert(1, p.0), HostAction::PatchCreated { bump: p.1 })),
                Err(e) => Err(e),
            }
        },
        Some(PlaceInstruction::PurchaseGameplayToken(a)) => if accounts.len() < 11 {
            Err(PlaceError::NotEnoughAccountKeys)
        } else {
            match purchase_outcome(
                program_id,
                accounts[0],
                accounts[1],
                accounts[2],
                accounts[3],
                accounts[5],
                accounts[6],
                accounts[7],
                accounts[8],
                accounts[9],
                accounts[10],
                a,
                now,
            ) {
                Ok(p) => Ok((Map::empty().insert(2, p.0), HostAction::TokenPurchased(p.1))),
                Err(e) => Err(e),
            }
        },
        Some(PlaceInstruction::SetPixel(a)) => if accounts.len() < 5 {
            Err(PlaceError::NotEnoughAccountKeys)
        } else {
            match set_pixel_outcome(
                program_id,
                accounts[0],
                accounts[1],
                accounts[2],
                accounts[3],
                accounts[4],
                a,
                now,
            ) {
                Ok(d) => Ok((Map::empty().insert(1, d.0).insert(2, d.1), HostAction::PixelSet)),
                Err(e) => Err(e),
            }
        },
        Some(PlaceInstruction::InitMint(a)) => if accounts.len() < 6 {
            Err(PlaceError::NotEnoughAccountKeys)
        } else {
            match init_mint_outcome(
                program_id,
                accounts[0],
                accounts[1],
                accounts[2],
                accounts[3],
                accounts[4],
            ) {
                Ok(b) => Ok(
                    (Map::empty(), HostAction::MintReady { settings_bump: b.0, mint_bump: b.1 }),
                ),
                Err(e) => Err(e),
            }
        },
        Some(PlaceInstruction::ClaimTokens(a)) => if accounts.len() < 7 {
            Err(PlaceError::NotEnoughAccountKeys)
        } else {
            match claim_outcome(
                program_id,
                accounts[0],
                accounts[1],
                accounts[2],
                accounts[3],
                accounts[5],
                accounts[6],
            ) {
                Ok(p) => Ok((Map::empty().insert(1, p.0), HostAction::TokensClaimed(p.1))),
                Err(e) => Err(e),
            }
        },
    }
}

/// Moves account `i` out, leaving an empty account with its key in place.
pub(crate) fn take_account(accounts: &mut Vec<Account>, i: usize) -> (r: Account)
    requires
        i < old(accounts)@.len(),
    ensures
        r == old(accounts)@[i as int],
        final(accounts)@.len() == old(accounts)@.len(),
        forall|j: int| 0 <= j < old(accounts)@.len() && j != i ==> final(accounts)@[j] == old(accounts)@[j],
        final(accounts)@[i as int].key == old(accounts)@[i as int].key,
        final(accounts)@[i as int].is_signer == old(accounts)@[i as int].is_signer,
        final(accounts)@[i as int].lamports == old(accounts)@[i as int].lamports,
        final(accounts)@[i as int].owner == old(accounts)@[i as int].owner,
{
    let mut slot = Account {
        key: accounts[i].key,
        is_signer: accounts[i].is_signer,
        lamports: accounts[i].lamports,
        owner: accounts[i].owner,
        data: Vec::new(),
    };
    accounts.set_and_swap(i, &mut slot);
    slot
}

/// The effect of a call on the accounts: keys and signatures stay, and the
/// data is what the outcome writes, or untouched when the call fails.
pub open spec fn accounts_after(
    old_accounts: Seq<Account>,
    new_accounts: Seq<Account>,
    writes: Map<int, Seq<u8>>,
) -> bool {
    &&& new_accounts.len() == old_accounts.len()
    &&& forall|i: int|
        0 <= i < old_accounts.len() ==> {
            &&& (#[trigger] new_accounts[i]).key == old_accounts[i].key
            &&& new_accounts[i].is_signer == old_accounts[i].is_signer
            &&& new_accounts[i].lamports == old_accounts[i].lamports
            &&& new_accounts[i].owner == old_accounts[i].owner
            &&& new_accounts[i].data@ == data_after(old_accounts, writes, i)
        }
}

impl PlaceState {
    /// The settings address and its bump.
    pub fn pda(program_id: &Pubkey) -> (r: Option<(Pubkey, u8)>)
        ensures
            r matches Some(p) ==> crate::address::program_address(settings_seeds(), program_id@)
                == Some((p.0@, p.1)),
            r is None ==> crate::address::program_address(settings_seeds(), program_id@) is None,
    {
        crate::address::derive_address(&settings_seed_list(), program_id)
    }

    /// The royalty token mint's address and its bump.
    pub fn token_mint_pda(program_id: &Pubkey) -> (r: Option<(Pubkey, u8)>)
        ensures
            r matches Some(p) ==> crate::address::program_address(royalty_mint_seeds(), program_id@)
                == Some((p.0@, p.1)),
            r is None ==> crate::address::program_address(royalty_mint_seeds(), program_id@) is None,
    {
        crate::address::derive_address(&royalty_mint_seed_list(), program_id)
    }

    /// Reads the settings record an account holds.
    pub fn from_account_info(a: &Account) -> (r: Result<PlaceState, PlaceError>)
        ensures
            match r {
                Ok(s) => decode_place_state(a.data@) == Some(s@),
                Err(e) => decode_place_state(a.data@) is None && e
                    == PlaceError::AccountDataTypeMismatch,
            },
    {
        PlaceState::from_bytes(&a.data)
    }
}

impl GameplayTokenMeta {
    /// The address of the record bought with `random_seed`, and its bump.
    pub fn pda(random_seed: u64, program_id: &Pubkey) -> (r: Option<(Pubkey, u8)>)
        ensures
            r matches Some(p) ==> crate::address::program_address(game_seeds(random_seed), program_id@)
                == Some((p.0@, p.1)),
            r is None ==> crate::address::program_address(game_seeds(random_seed), program_id@) is None,
    {
        crate::address::derive_address(&game_seed_list(random_seed), program_id)
    }

    /// The address of the mint paired with the record bought with
    /// `random_seed`, and its bump.
    pub fn token_mint_pda(random_seed: u64, program_id: &Pubkey) -> (r: Option<(Pubkey, u8)>)
        ensures
            r matches Some(p) ==> crate::address::program_address(
                game_mint_seeds(random_seed),
                program_id@,
            ) == Some((p.0@, p.1)),
            r is None ==> crate::address::program_address(game_mint_seeds(random_seed), program_id@)
                is None,
    {
        crate::address::derive_address(&game_mint_seed_list(random_seed), program_id)
    }
}

impl Processor {
    /// Decodes the instruction in `data`, binds the accounts by position and
    /// runs the handler at slot `now`.
    pub fn process(program_id: &Pubkey, accounts: &mut Vec<Account>, data: &Vec<u8>, now: u64) -> (r:
        Result<HostAction, PlaceError>)
        ensures
            match process_outcome(program_id@, old(accounts)@, data@, now) {
                Ok(p) => r == Ok::<HostAction, PlaceError>(p.1) && accounts_after(
                    old(accounts)@,
                    final(accounts)@,
                    p.0,
                ),
                Err(e) => r == Err::<HostAction, PlaceError>(e) && accounts_after(
                    old(accounts)@,
                    final(accounts)@,
                    Map::empty(),
                ),
            },
    {
        let ix = PlaceInstruction::unpack(data)?;
        proof {
            assert(accounts_after(old(accounts)@, accounts@, Map::empty()));
        }
        match ix {
            PlaceInstruction::UpdatePlaceState(a) => {
                if accounts.len() < 3 {
                    return Err(PlaceError::NotEnoughAccountKeys);
                }
                let mut settings = take_account(accounts, 1);
                let r = process_update_place_state(program_id, &accounts[0], &mut settings, &accounts[2], &a);
                accounts.set(1, settings);
                proof {
                    let w = match update_place_state_outcome(program_id@, old(accounts)@[0], old(accounts)@[1], old(accounts)@[2], a) {
                        Ok(d) => Map::empty().insert(1int, d),
                        Err(_) => Map::empty(),
                    };
                    assert(accounts_after(old(accounts)@, accounts@, w));
                }
                match r {
                    Ok(created) => Ok(HostAction::SettingsWritten { created }),
                    Err(e) => Err(e),
                }
            },
            PlaceInstruction::InitPatch(a) => {
                if accounts.len() < 3 {
                    return Err(PlaceError::NotEnoughAccountKeys);
                }
                let mut patch = take_account(accounts, 1);
                let r = process_init_patch(program_id, &mut patch, &accounts[2], &a);
                accounts.set(1, patch);
                proof {
                    let w = match init_patch_outcome(program_id@, old(accounts)@[1], old(accounts)@[2], a) {
                        Ok(p) => Map::empty().insert(1int, p.0),
                        Err(_) => Map::empty(),
                    };
                    assert(accounts_after(old(accounts)@, accounts@, w));
                }
                match r {
                    Ok(bump) => Ok(HostAction::PatchCreated { bump }),
                    Err(e) => Err(e),
                }
            },
            PlaceInstruction::PurchaseGameplayToken(a) => {
                if accounts.len() < 11 {
                    return Err(PlaceError::NotEnoughAccountKeys);
                }
                let mut meta = take_account(accounts, 2);
                let r = process_purchase_gameplay_token(
                    program_id,
                    &accounts[0],
                    &accounts[1],
                    &mut meta,
                    &accounts[3],
                    &accounts[5],
                    &accounts[6],
                    &accounts[7],
                    &accounts[8],
                    &accounts[9],
                    &accounts[10],
                    &a,
                    now,
                );
                accounts.set(2, meta);
                proof {
                    let o = old(accounts)@;
                    let w = match purchase_outcome(program_id@, o[0], o[1], o[2], o[3], o[5], o[6], o[7], o[8], o[9], o[10], a, now) {
                        Ok(p) => Map::empty().insert(2int, p.0),
                        Err(_) => Map::empty(),
                    };
                    assert(accounts_after(old(accounts)@, accounts@, w));
                }
                match r {
                    Ok(receipt) => Ok(HostAction::TokenPurchased(receipt)),
                    Err(e) => Err(e),
                }
            },
            PlaceInstruction::SetPixel(a) => {
                if accounts.len() < 5 {
                    return Err(PlaceError::NotEnoughAccountKeys);
                }
                let mut patch = take_account(accounts, 1);
                let mut meta = take_account(accounts, 2);
                let r = process_set_pixel(
                    program_id,
                    &accounts[0],
                    &mut patch,
                    &mut meta,
                    &accounts[3],
                    &accounts[4],
                    &a,
                    now,
                );
                accounts.set(1, patch);
                accounts.set(2, meta);
                proof {
                    let o = old(accounts)@;
                    let w = match set_pixel_outcome(program_id@, o[0], o[1], o[2], o[3], o[4], a, now) {
                        Ok(d) => Map::empty().insert(1int, d.0).insert(2int, d.1),
                        Err(_) => Map::empty(),
                    };
                    assert(accounts_after(old(accounts)@, accounts@, w));
                }
                match r {
                    Ok(()) => Ok(HostAction::PixelSet),
                    Err(e) => Err(e),
                }
            },
            PlaceInstruction::InitMint(a) => {
                if accounts.len() < 6 {
                    return Err(PlaceError::NotEnoughAccountKeys);
                }
                let r = process_init_mint(
                    program_id,
                    &accounts[0],
                    &accounts[1],
                    &accounts[2],
                    &accounts[3],
                    &accounts[4],
                    &a,
                );
                match r {
                    Ok(b) => Ok(HostAction::MintReady { settings_bump: b.0, mint_bump: b.1 }),
                    Err(e) => Err(e),
                }
            },
            PlaceInstruction::ClaimTokens(a) => {
                if accounts.len() < 7 {
                    return Err(PlaceError::NotEnoughAccountKeys);
                }
                let mut meta = take_account(accounts, 1);
                let r = process_claim_tokens(
                    program_id,
                    &accounts[0],
                    &mut meta,
                    &accounts[2],
                    &accounts[3],
                    &accounts[5],
                    &accounts[6],
                    &a,
                );
                accounts.set(1, meta);
                proof {
                    let o = old(accounts)@;
                    let w = match claim_outcome(program_id@, o[0], o[1], o[2], o[3], o[5], o[6]) {
                        Ok(p) => Map::empty().insert(1int, p.0),
                        Err(_) => Map::empty(),
                    };
                    assert(accounts_after(old(accounts)@, accounts@, w));
                }
                match r {
                    Ok(receipt) => Ok(HostAction::TokensClaimed(receipt)),
                    Err(e) => Err(e),
                }
            },
        }
    }
}

} // verus!
