//! What holds across calls of the handlers: a tile reads back as it was
//! created and cannot be created twice, a price mismatch buys nothing, a
//! token cools down after each write, royalties are claimed once, and the
//! settings belong to whoever created them.
use vstd::prelude::*;
use crate::address::{
    associated_token_program_key, derived_bump, game_mint_seeds, game_seeds, metadata_address_of,
    metadata_program_key, patch_seeds, rent_sysvar_key, royalty_mint_seeds,
    settings_seeds, system_program_key, token_program_key,
};
use crate::error::PlaceError;
use crate::instruction::{InitPatchDataArgs, PurchaseGameplayTokenDataArgs, UpdatePlaceStateDataArgs};
use crate::processor::{
    claim_outcome, created_settings, holder_failure, init_patch_outcome, meta_after_write,
    price_of, purchase_outcome, read_meta_outcome, read_patch_outcome, update_place_state_outcome,
    updated_settings, use_for_write_outcome, Account, ClaimReceipt, PurchaseReceipt,
};
use crate::state::{
    blank_patch, decode_meta, decode_place_state, encode_meta, encode_place_state,
    lemma_meta_round_trip, lemma_patch_round_trip, lemma_place_state_round_trip, place_state_storable,
    GameplayTokenMetaView, PlaceStateView, DEFAULT_BOMB_PRICE,
    DEFAULT_IS_FROZEN, DEFAULT_PAINTBRUSH_COOLDOWN, DEFAULT_PAINTBRUSH_PRICE, MAX_X_PATCH,
    MAX_Y_PATCH, PATCH_PIXELS, ROYALTY_TOKENS_PER_WRITE,
};

verus! {

/// Allocating a tile inside the canvas at its own address succeeds, and
/// reading it back as that tile gives its coordinates and an all-zero
/// buffer of full size.
pub proof fn lemma_init_then_read(
    program_id: Seq<u8>,
    patch: Account,
    system: Account,
    args: InitPatchDataArgs,
    written: Account,
)
    requires
        system.key@ == system_program_key(),
        args.x_patch < MAX_X_PATCH,
        args.y_patch < MAX_Y_PATCH,
        derived_bump(patch_seeds(args.x_patch, args.y_patch), program_id, patch.key@) is Some,
        patch.data@.len() == 0,
        written.key == patch.key,
        written.data@ == init_patch_outcome(program_id, patch, system, args)->Ok_0.0,
    ensures
        init_patch_outcome(program_id, patch, system, args) is Ok,
        read_patch_outcome(program_id, written, args.x_patch, args.y_patch) == Ok::<
            crate::state::PatchView,
            PlaceError,
        >(blank_patch(args.x_patch, args.y_patch)),
        blank_patch(args.x_patch, args.y_patch).pixels.len() == PATCH_PIXELS,
        forall|i: int|
            0 <= i < PATCH_PIXELS ==> #[trigger] blank_patch(args.x_patch, args.y_patch).pixels[i]
                == 0,
{
    lemma_patch_round_trip(blank_patch(args.x_patch, args.y_patch));
}

/// A tile allocated once cannot be allocated again: the second call fails
/// with `PatchAccountAlreadyInitialized`, and a failing call leaves the data
/// as it was (see `process_init_patch`).
pub proof fn lemma_init_twice(
    program_id: Seq<u8>,
    patch: Account,
    system: Account,
    args: InitPatchDataArgs,
    written: Account,
)
    requires
        init_patch_outcome(program_id, patch, system, args) is Ok,
        written.key == patch.key,
        written.data@ == init_patch_outcome(program_id, patch, system, args)->Ok_0.0,
    ensures
        init_patch_outcome(program_id, written, system, args) == Err::<(Seq<u8>, u8), PlaceError>(
            PlaceError::PatchAccountAlreadyInitialized,
        ),
{
}

/// A purchase whose expected price is not the current price of the kind
/// never succeeds, so nothing is paid or written; when every earlier check
/// passes it fails with `DesiredPriceDifferentFromCurrentPrice`.
pub proof fn lemma_price_mismatch_rejected(
    program_id: Seq<u8>,
    payer: Account,
    settings: Account,
    meta: Account,
    mint: Account,
    metadata: Account,
    metadata_prog: Account,
    token_prog: Account,
    ata_prog: Account,
    system: Account,
    rent: Account,
    args: PurchaseGameplayTokenDataArgs,
    now: u64,
    s: PlaceStateView,
)
    requires
        decode_place_state(settings.data@) == Some(s),
        price_of(s, args.token_type) != args.desired_price,
    ensures
        purchase_outcome(
            program_id,
            payer,
            settings,
            meta,
            mint,
            metadata,
            metadata_prog,
            token_prog,
            ata_prog,
            system,
            rent,
            args,
            now,
        ) is Err,
        ({
            &&& payer.is_signer
            &&& derived_bump(game_seeds(args.random_seed), program_id, meta.key@) is Some
            &&& derived_bump(settings_seeds(), program_id, settings.key@) is Some
            &&& derived_bump(game_mint_seeds(args.random_seed), program_id, mint.key@) is Some
            &&& metadata.key@ == metadata_address_of(mint.key@)
            &&& metadata_prog.key@ == metadata_program_key()
            &&& token_prog.key@ == token_program_key()
            &&& ata_prog.key@ == associated_token_program_key()
            &&& system.key@ == system_program_key()
            &&& rent.key@ == rent_sysvar_key()
            &&& meta.data@.len() == 0
        }) ==> purchase_outcome(
            program_id,
            payer,
            settings,
            meta,
            mint,
            metadata,
            metadata_prog,
            token_prog,
            ata_prog,
            system,
            rent,
            args,
            now,
        ) == Err::<(Seq<u8>, PurchaseReceipt), PlaceError>(
            PlaceError::DesiredPriceDifferentFromCurrentPrice,
        ),
{
}

/// Reading back a gameplay token record after a write gives the written
/// record, at the same address.
proof fn lemma_meta_written(program_id: Seq<u8>, meta: Account, m: GameplayTokenMetaView, now: u64)
    requires
        read_meta_outcome(program_id, meta) == Ok::<GameplayTokenMetaView, PlaceError>(m),
    ensures
        decode_meta(encode_meta(meta_after_write(m, now))) == Some(meta_after_write(m, now)),
{
    lemma_meta_round_trip(meta_after_write(m, now));
}

/// A write right spent at slot `now` cannot be spent again at the same slot
/// when the token has a cooldown: the second call fails with
/// `GameplayTokenNotReady`.
pub proof fn lemma_no_second_write_at_once(
    program_id: Seq<u8>,
    caller: Account,
    meta: Account,
    holding: Account,
    now: u64,
    written: Account,
)
    requires
        use_for_write_outcome(program_id, caller, meta, holding, now) is Ok,
        read_meta_outcome(program_id, meta)->Ok_0.cooldown_duration > 0,
        written.key == meta.key,
        written.data@ == use_for_write_outcome(program_id, caller, meta, holding, now)->Ok_0,
    ensures
        use_for_write_outcome(program_id, caller, written, holding, now) == Err::<
            Seq<u8>,
            PlaceError,
        >(PlaceError::GameplayTokenNotReady),
{
    let m = read_meta_outcome(program_id, meta)->Ok_0;
    lemma_meta_written(program_id, meta, m, now);
}

/// Once the cooldown has passed after a write, the token can write again at
/// any slot `later` from which the next ready slot and the amount owed can
/// still be counted; that write makes it ready exactly one cooldown after
/// `later`.
pub proof fn lemma_write_after_cooldown(
    program_id: Seq<u8>,
    caller: Account,
    meta: Account,
    holding: Account,
    now: u64,
    later: u64,
    written: Account,
)
    requires
        use_for_write_outcome(program_id, caller, meta, holding, now) is Ok,
        later >= now + read_meta_outcome(program_id, meta)->Ok_0.cooldown_duration,
        later + read_meta_outcome(program_id, meta)->Ok_0.cooldown_duration <= u64::MAX,
        read_meta_outcome(program_id, meta)->Ok_0.royalty_tokens_owed + 2 * ROYALTY_TOKENS_PER_WRITE
            <= u32::MAX,
        written.key == meta.key,
        written.data@ == use_for_write_outcome(program_id, caller, meta, holding, now)->Ok_0,
    ensures
        use_for_write_outcome(program_id, caller, written, holding, later) is Ok,
        decode_meta(use_for_write_outcome(program_id, caller, written, holding, later)->Ok_0)->Some_0.update_allowed_slot
            == later + read_meta_outcome(program_id, meta)->Ok_0.cooldown_duration,
{
    let m = read_meta_outcome(program_id, meta)->Ok_0;
    lemma_meta_written(program_id, meta, m, now);
    let w = meta_after_write(m, now);
    lemma_meta_round_trip(meta_after_write(w, later));
}

/// A token that is owed nothing cannot claim: the claim fails, with
/// `NoTokensToBeClaimed` once the claimer, record and accounts check out.
pub proof fn lemma_claim_nothing_owed(
    program_id: Seq<u8>,
    claimer: Account,
    meta: Account,
    holding: Account,
    royalty_mint: Account,
    settings: Account,
    token_prog: Account,
)
    requires
        decode_meta(meta.data@) is Some,
        decode_meta(meta.data@)->Some_0.royalty_tokens_owed == 0,
    ensures
        claim_outcome(program_id, claimer, meta, holding, royalty_mint, settings, token_prog) is Err,
        ({
            &&& claimer.is_signer
            &&& read_meta_outcome(program_id, meta) is Ok
            &&& holder_failure(claimer.key@, holding.data@, decode_meta(meta.data@)->Some_0.token_mint_pda) is None
            &&& derived_bump(royalty_mint_seeds(), program_id, royalty_mint.key@) is Some
            &&& derived_bump(settings_seeds(), program_id, settings.key@) is Some
            &&& token_prog.key@ == token_program_key()
        }) ==> claim_outcome(program_id, claimer, meta, holding, royalty_mint, settings, token_prog)
            == Err::<(Seq<u8>, ClaimReceipt), PlaceError>(PlaceError::NoTokensToBeClaimed),
{
}

/// After a write the token is owed royalties: a claim with the same holder
/// and valid accounts succeeds and resets what is owed to zero, so that a
/// second claim right after fails with `NoTokensToBeClaimed`.
pub proof fn lemma_write_then_claim_once(
    program_id: Seq<u8>,
    caller: Account,
    meta: Account,
    holding: Account,
    now: u64,
    written: Account,
    royalty_mint: Account,
    settings: Account,
    token_prog: Account,
    claimed: Account,
)
    requires
        use_for_write_outcome(program_id, caller, meta, holding, now) is Ok,
        written.key == meta.key,
        written.data@ == use_for_write_outcome(program_id, caller, meta, holding, now)->Ok_0,
        derived_bump(royalty_mint_seeds(), program_id, royalty_mint.key@) is Some,
        derived_bump(settings_seeds(), program_id, settings.key@) is Some,
        token_prog.key@ == token_program_key(),
        claimed.key == meta.key,
        claim_outcome(program_id, caller, written, holding, royalty_mint, settings, token_prog) is Ok
            ==> claimed.data@ == claim_outcome(
            program_id,
            caller,
            written,
            holding,
            royalty_mint,
            settings,
            token_prog,
        )->Ok_0.0,
    ensures
        claim_outcome(program_id, caller, written, holding, royalty_mint, settings, token_prog) is Ok,
        decode_meta(claimed.data@)->Some_0.royalty_tokens_owed == 0,
        claim_outcome(program_id, caller, claimed, holding, royalty_mint, settings, token_prog)
            == Err::<(Seq<u8>, ClaimReceipt), PlaceError>(
            PlaceError::NoTokensToBeClaimed,
        ),
{
    let m = read_meta_outcome(program_id, meta)->Ok_0;
    lemma_meta_written(program_id, meta, m, now);
    let w = meta_after_write(m, now);
    let c = GameplayTokenMetaView { royalty_tokens_owed: 0, ..w };
    lemma_meta_round_trip(c);
}

/// The first update creates the settings, owned by the caller, with the
/// default of every field it leaves out.
pub proof fn lemma_first_update_creates(
    program_id: Seq<u8>,
    caller: Account,
    settings: Account,
    system: Account,
    args: UpdatePlaceStateDataArgs,
)
    requires
        derived_bump(settings_seeds(), program_id, settings.key@) is Some,
        system.key@ == system_program_key(),
        caller.is_signer,
        caller.key@.len() == 32,
        settings.data@.len() == 0,
        args.new_owner is None,
    ensures
        update_place_state_outcome(program_id, caller, settings, system, args) is Ok,
        decode_place_state(
            update_place_state_outcome(program_id, caller, settings, system, args)->Ok_0,
        ) == Some(created_settings(caller.key@, args)),
        created_settings(caller.key@, args).owner == caller.key@,
        args.is_frozen is None ==> created_settings(caller.key@, args).is_frozen
            == DEFAULT_IS_FROZEN,
        args.paintbrush_price is None ==> created_settings(caller.key@, args).paintbrush_price
            == DEFAULT_PAINTBRUSH_PRICE,
        args.paintbrush_cooldown is None ==> created_settings(caller.key@, args).paintbrush_cooldown
            == DEFAULT_PAINTBRUSH_COOLDOWN,
        args.bomb_price is None ==> created_settings(caller.key@, args).bomb_price
            == DEFAULT_BOMB_PRICE,
{
    lemma_place_state_round_trip(created_settings(caller.key@, args));
}

/// Once the settings exist, a caller who is not their owner cannot change
/// them: the update fails with `InvalidOwner`.
pub proof fn lemma_other_caller_rejected(
    program_id: Seq<u8>,
    caller: Account,
    settings: Account,
    system: Account,
    args: UpdatePlaceStateDataArgs,
    s: PlaceStateView,
)
    requires
        derived_bump(settings_seeds(), program_id, settings.key@) is Some,
        system.key@ == system_program_key(),
        caller.is_signer,
        settings.data@ == encode_place_state(s),
        place_state_storable(s),
        s.owner != caller.key@,
    ensures
        update_place_state_outcome(program_id, caller, settings, system, args) == Err::<
            Seq<u8>,
            PlaceError,
        >(PlaceError::InvalidOwner),
{
    lemma_place_state_round_trip(s);
}

/// The owner's update replaces exactly the fields it names and keeps every
/// other field and the stored tag; updating only the bomb price changes the
/// bomb price alone.
pub proof fn lemma_owner_partial_update(
    program_id: Seq<u8>,
    owner: Account,
    settings: Account,
    system: Account,
    args: UpdatePlaceStateDataArgs,
    s: PlaceStateView,
)
    requires
        derived_bump(settings_seeds(), program_id, settings.key@) is Some,
        system.key@ == system_program_key(),
        owner.is_signer,
        settings.data@ == encode_place_state(s),
        place_state_storable(s),
        s.owner == owner.key@,
    ensures
        update_place_state_outcome(program_id, owner, settings, system, args) is Ok,
        decode_place_state(update_place_state_outcome(program_id, owner, settings, system, args)->Ok_0)
            == Some(updated_settings(s, args)),
        updated_settings(s, args).acct_type == s.acct_type,
        updated_settings(s, args).owner == (match args.new_owner {
            Some(k) => k@,
            None => s.owner,
        }),
        updated_settings(s, args).is_frozen == args.is_frozen.unwrap_or(s.is_frozen),
        updated_settings(s, args).paintbrush_price == args.paintbrush_price.unwrap_or(
            s.paintbrush_price,
        ),
        updated_settings(s, args).paintbrush_cooldown == args.paintbrush_cooldown.unwrap_or(
            s.paintbrush_cooldown,
        ),
        updated_settings(s, args).bomb_price == args.bomb_price.unwrap_or(s.bomb_price),
        (args.new_owner is None && args.is_frozen is None && args.paintbrush_price is None
            && args.paintbrush_cooldown is None && args.bomb_price is Some) ==> updated_settings(
            s,
            args,
        ) == (PlaceStateView { bomb_price: args.bomb_price->Some_0, ..s }),
{
    lemma_place_state_round_trip(s);
    lemma_place_state_round_trip(updated_settings(s, args));
}

/// A successful write moves the token's ready slot to exactly the write's
/// slot plus the cooldown, which is never earlier than before, raises what
/// it is owed by exactly the per-write amount, and changes nothing else of
/// its record; where either sum would overflow, the write fails and nothing
/// is written.
pub proof fn lemma_write_advances(
    program_id: Seq<u8>,
    caller: Account,
    meta: Account,
    holding: Account,
    now: u64,
)
    requires
        use_for_write_outcome(program_id, caller, meta, holding, now) is Ok || (caller.is_signer
            && read_meta_outcome(program_id, meta) is Ok && holder_failure(
            caller.key@,
            holding.data@,
            read_meta_outcome(program_id, meta)->Ok_0.token_mint_pda,
        ) is None && now >= read_meta_outcome(program_id, meta)->Ok_0.update_allowed_slot),
    ensures
        ({
            let m = read_meta_outcome(program_id, meta)->Ok_0;
            let r = use_for_write_outcome(program_id, caller, meta, holding, now);
            &&& now + m.cooldown_duration > u64::MAX ==> r == Err::<Seq<u8>, PlaceError>(
                PlaceError::CooldownOverflow,
            )
            &&& (now + m.cooldown_duration <= u64::MAX && m.royalty_tokens_owed
                + ROYALTY_TOKENS_PER_WRITE > u32::MAX) ==> r == Err::<Seq<u8>, PlaceError>(
                PlaceError::RoyaltyTokensOverflow,
            )
            &&& r is Ok ==> {
                let n = decode_meta(r->Ok_0)->Some_0;
                &&& decode_meta(r->Ok_0) is Some
                &&& n.update_allowed_slot == now + m.cooldown_duration
                &&& n.update_allowed_slot >= m.update_allowed_slot
                &&& n.royalty_tokens_owed == m.royalty_tokens_owed + ROYALTY_TOKENS_PER_WRITE
                &&& n == (GameplayTokenMetaView {
                    update_allowed_slot: n.update_allowed_slot,
                    royalty_tokens_owed: n.royalty_tokens_owed,
                    ..m
                })
            }
        }),
{
    let m = read_meta_outcome(program_id, meta)->Ok_0;
    lemma_meta_written(program_id, meta, m, now);
}

} // verus!
