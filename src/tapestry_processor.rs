//! The state transitions of the tapestry program: creating it, selling
//! patches, editing them, featuring regions, and routing calls.
use vstd::prelude::*;
use crate::address::{associated_address, associated_token_address, derived_bump, find_bump, token_program_id, token_program_key, program_address};
use crate::bytes::{copy_range, le_u32, le_u64, read_u64, zeros};
use crate::error::{TapestryError};
use crate::processor::{Account, accounts_after, take_account};
use crate::token::{TokenHolding, holding_of};
use crate::pubkey::{Pubkey};
use crate::tapestry::{FeaturedRegion, FeaturedState, InitTapestryDataArgs, PurchasePatchDataArgs, PushFeaturedDataArgs, TapestryInstruction, UpdatePatchImageDataArgs, UpdatePatchMetadataDataArgs, assert_coords_valid, coords_valid, featured_seed_list, featured_seeds, find_mint_address_for_patch_coords, tapestry_mint_seed_list, tapestry_mint_seeds, tapestry_patch_seed_list, tapestry_patch_seeds, tapestry_state_seed_list, tapestry_state_seeds};
use crate::tapestry_state::{FeaturedRegionView, MAX_FEATURED_REGIONS, MAX_TAPESTRY_FEATURED_ACCOUNT_LEN, TapestryPatch, TapestryPatchView, TapestryState, assert_featured_region_valid, assert_patch_is_valid, decode_featured, decode_tapestry_patch, decode_tapestry_state, encode_featured, encode_tapestry_patch, encode_tapestry_state, le_i16, lemma_parsed_regions_encodable, opt_view, parse_bytes, parse_opt_bytes, parse_region, patch_failure, read_bytes, read_opt_bytes, read_region, region_encodable, region_failure, sold_patch, sold_patch_bytes};

verus! {

// ---------------------------------------------------------------- handlers

/// What creating the tapestry writes to its state and featured list, and
/// their bumps, or why it fails.
pub open spec fn init_tapestry_outcome(
    program_id: Seq<u8>,
    owner: Account,
    state: Account,
    featured: Account,
    args: InitTapestryDataArgs,
) -> Result<(Seq<u8>, Seq<u8>, u8, u8), TapestryError> {
    let state_bump = derived_bump(tapestry_state_seeds(), program_id, state.key@);
    let featured_bump = derived_bump(featured_seeds(), program_id, featured.key@);
    if !owner.is_signer {
        Err(TapestryError::MissingRequiredSignature)
    } else if state_bump is None || state.data@.len() != 0 {
        Err(TapestryError::InvalidTapestryStatePDA)
    } else if featured_bump is None || featured.data@.len() != 0 {
        Err(TapestryError::InvalidTapestryFeaturedPDA)
    } else {
        Ok(
            (
                encode_tapestry_state(true, owner.key@, args.initial_sale_price) + Seq::new(
                    7,
                    |i: int| 0u8,
                ),
                Seq::new(MAX_TAPESTRY_FEATURED_ACCOUNT_LEN as nat, |i: int| 0u8),
                state_bump->Some_0,
                featured_bump->Some_0,
            ),
        )
    }
}

/// Creates the tapestry, owned by the signer, with an empty featured list.
/// Returns the bumps with which the host allocates the two records.
pub fn process_init_tapestry(
    program_id: &Pubkey,
    owner: &Account,
    state: &mut Account,
    featured: &mut Account,
    args: &InitTapestryDataArgs,
) -> (r: Result<(u8, u8), TapestryError>)
    ensures
        final(state).key == old(state).key,
        final(state).is_signer == old(state).is_signer,
        final(state).lamports == old(state).lamports,
        final(state).owner == old(state).owner,
        final(featured).key == old(featured).key,
        final(featured).is_signer == old(featured).is_signer,
        final(featured).lamports == old(featured).lamports,
        final(featured).owner == old(featured).owner,
        match init_tapestry_outcome(program_id@, *owner, *old(state), *old(featured), *args) {
            Ok(o) => r == Ok::<(u8, u8), TapestryError>((o.2, o.3)) && final(state).data@ == o.0
                && final(featured).data@ == o.1,
            Err(e) => r == Err::<(u8, u8), TapestryError>(e) && final(state).data@ == old(state).data@
                && final(featured).data@ == old(featured).data@,
        },
{
    if !owner.is_signer {
        return Err(TapestryError::MissingRequiredSignature);
    }
    let state_bump = match find_bump(&tapestry_state_seed_list(), program_id, &state.key) {
        Some(b) => b,
        None => {
            return Err(TapestryError::InvalidTapestryStatePDA);
        },
    };
    if state.data.len() != 0 {
        return Err(TapestryError::InvalidTapestryStatePDA);
    }
    let featured_bump = match find_bump(&featured_seed_list(), program_id, &featured.key) {
        Some(b) => b,
        None => {
            return Err(TapestryError::InvalidTapestryFeaturedPDA);
        },
    };
    if featured.data.len() != 0 {
        return Err(TapestryError::InvalidTapestryFeaturedPDA);
    }
    let s = TapestryState { is_initialized: true, owner: owner.key, initial_sale_price: args.initial_sale_price };
    state.data = s.encode();
    featured.data = zeros(MAX_TAPESTRY_FEATURED_ACCOUNT_LEN);
    Ok((state_bump, featured_bump))
}

/// What the host does after a patch sale passed its checks: move the price
/// to the tapestry state, create the patch's mint and the buyer's holding
/// account, mint the one unit and register its metadata, with these bumps.
#[derive(Clone, Copy, Debug, PartialEq, Eq)]
pub struct PatchSale {
    pub price: u64,
    pub patch_bump: u8,
    pub mint_bump: u8,
    pub state_bump: u8,
}

/// What selling the patch at pixel `(x, y)` writes to it, and the sale, or
/// why it fails.
pub open spec fn purchase_patch_outcome(
    program_id: Seq<u8>,
    buyer: Account,
    state: Account,
    patch: Account,
    mint: Account,
    holding: Account,
    args: PurchasePatchDataArgs,
) -> Result<(Seq<u8>, PatchSale), TapestryError> {
    let patch_bump = derived_bump(tapestry_patch_seeds(args.x, args.y), program_id, patch.key@);
    let mint_bump = derived_bump(tapestry_mint_seeds(args.x, args.y), program_id, mint.key@);
    let state_bump = derived_bump(tapestry_state_seeds(), program_id, state.key@);
    if !buyer.is_signer {
        Err(TapestryError::MissingRequiredSignature)
    } else if !coords_valid(args.x, args.y) {
        Err(TapestryError::InvalidPatchCoordinates)
    } else if patch_bump is None {
        Err(TapestryError::InvalidTapestryPatchPDA)
    } else if patch.data@.len() != 0 {
        Err(TapestryError::TapestryPatchAlreadySold)
    } else if mint_bump is None || mint.data@.len() != 0 {
        Err(TapestryError::InvalidTapestryPatchMintPDA)
    } else if associated_address(buyer.key@, mint.key@) != holding.key@ {
        Err(TapestryError::InvalidTapestryPatchAssociatedTokenAccount)
    } else if state_bump is None {
        Err(TapestryError::InvalidTapestryStatePDA)
    } else {
        match decode_tapestry_state(state.data@) {
            None => Err(TapestryError::InvalidAccountData),
            Some(s) => if buyer.lamports < s.2 {
                Err(TapestryError::InsufficientFundsForPurchase)
            } else {
                Ok(
                    (
                        sold_patch_bytes(mint.key@, args.x, args.y),
                        PatchSale {
                            price: s.2,
                            patch_bump: patch_bump->Some_0,
                            mint_bump: mint_bump->Some_0,
                            state_bump: state_bump->Some_0,
                        },
                    ),
                )
            },
        }
    }
}

/// Sells the unsold patch at pixel `(x, y)` to a buyer holding at least its
/// price, and writes the patch record owned by the patch's mint.
pub fn process_purchase_patch(
    program_id: &Pubkey,
    buyer: &Account,
    state: &Account,
    patch: &mut Account,
    mint: &Account,
    holding: &Account,
    args: &PurchasePatchDataArgs,
) -> (r: Result<PatchSale, TapestryError>)
    ensures
        final(patch).key == old(patch).key,
        final(patch).is_signer == old(patch).is_signer,
        final(patch).lamports == old(patch).lamports,
        final(patch).owner == old(patch).owner,
        match purchase_patch_outcome(
            program_id@,
            *buyer,
            *state,
            *old(patch),
            *mint,
            *holding,
            *args,
        ) {
            Ok(o) => r == Ok::<PatchSale, TapestryError>(o.1) && final(patch).data@ == o.0,
            Err(e) => r == Err::<PatchSale, TapestryError>(e) && final(patch).data@ == old(patch).data@,
        },
{
    if !buyer.is_signer {
        return Err(TapestryError::MissingRequiredSignature);
    }
    if assert_coords_valid(args.x, args.y).is_err() {
        return Err(TapestryError::InvalidPatchCoordinates);
    }
    let patch_bump = match find_bump(&tapestry_patch_seed_list(args.x, args.y), program_id, &patch.key) {
        Some(b) => b,
        None => {
            return Err(TapestryError::InvalidTapestryPatchPDA);
        },
    };
    if patch.data.len() != 0 {
        return Err(TapestryError::TapestryPatchAlreadySold);
    }
    let mint_bump = match find_bump(&tapestry_mint_seed_list(args.x, args.y), program_id, &mint.key) {
        Some(b) => b,
        None => {
            return Err(TapestryError::InvalidTapestryPatchMintPDA);
        },
    };
    if mint.data.len() != 0 {
        return Err(TapestryError::InvalidTapestryPatchMintPDA);
    }
    if !associated_token_address(&buyer.key, &mint.key).same_as(&holding.key) {
        return Err(TapestryError::InvalidTapestryPatchAssociatedTokenAccount);
    }
    let state_bump = match find_bump(&tapestry_state_seed_list(), program_id, &state.key) {
        Some(b) => b,
        None => {
            return Err(TapestryError::InvalidTapestryStatePDA);
        },
    };
    let s = TapestryState::from_bytes(&state.data)?;
    if buyer.lamports < s.initial_sale_price {
        return Err(TapestryError::InsufficientFundsForPurchase);
    }
    patch.data = sold_patch(&mint.key, args.x, args.y);
    Ok(PatchSale { price: s.initial_sale_price, patch_bump, mint_bump, state_bump })
}

// ---------------------------------------------------------------- patch edits

/// A change its owner makes to a patch.
pub enum PatchEdit {
    Image(Vec<u8>),
    Texts { url: Option<Vec<u8>>, hover_text: Option<Vec<u8>> },
}

pub enum PatchEditView {
    Image(Seq<u8>),
    Texts { url: Option<Seq<u8>>, hover_text: Option<Seq<u8>> },
}

impl View for PatchEdit {
    type V = PatchEditView;

    open spec fn view(&self) -> PatchEditView {
        match self {
            PatchEdit::Image(i) => PatchEditView::Image(i@),
            PatchEdit::Texts { url, hover_text } => PatchEditView::Texts {
                url: opt_view(*url),
                hover_text: opt_view(*hover_text),
            },
        }
    }
}

pub open spec fn edited(p: TapestryPatchView, edit: PatchEditView) -> TapestryPatchView {
    match edit {
        PatchEditView::Image(i) => TapestryPatchView { image_data: Some(i), ..p },
        PatchEditView::Texts { url, hover_text } => TapestryPatchView { url, hover_text, ..p },
    }
}

/// The failure, if any, of checking that `token` is the signer's account
/// holding the one unit of `mint`, kept by the token program.
pub open spec fn patch_holder_failure(
    owner: Seq<u8>,
    token: Seq<u8>,
    token_program_owner: Seq<u8>,
    mint: Seq<u8>,
) -> bool {
    match holding_of(token) {
        None => true,
        Some(h) => h.state == 0 || token_program_owner != token_program_key() || h.mint != mint
            || h.amount != 1 || h.owner != owner,
    }
}

/// What an edit of the patch at pixel `(x, y)` writes over the start of its
/// storage, or why it fails.
pub open spec fn update_patch_outcome(
    program_id: Seq<u8>,
    owner: Account,
    token: Account,
    patch: Account,
    x: i16,
    y: i16,
    edit: PatchEditView,
) -> Result<Seq<u8>, TapestryError> {
    if !owner.is_signer {
        Err(TapestryError::MissingRequiredSignature)
    } else if derived_bump(tapestry_patch_seeds(x, y), program_id, patch.key@) is None {
        Err(TapestryError::InvalidTapestryPatchPDA)
    } else if patch.data@.len() == 0 {
        Err(TapestryError::PatchAccountNotAllocated)
    } else {
        match decode_tapestry_patch(patch.data@) {
            None => Err(TapestryError::InvalidAccountData),
            Some(d) => {
                let p = d.0;
                let mint = program_address(tapestry_mint_seeds(x, y), program_id);
                if mint is None || p.owned_by_mint != mint->Some_0.0 {
                    Err(TapestryError::PatchAccountNotOwnedByMint)
                } else if patch_holder_failure(owner.key@, token.data@, token.owner@, p.owned_by_mint) {
                    Err(TapestryError::InvalidPatchTokenAccount)
                } else {
                    let q = edited(p, edit);
                    match patch_failure(q) {
                        Some(e) => Err(e),
                        None => {
                            let bytes = encode_tapestry_patch(q);
                            if bytes.len() > patch.data@.len() {
                                Err(TapestryError::InvalidAccountData)
                            } else {
                                Ok(bytes + patch.data@.subrange(bytes.len() as int, patch.data@.len() as int))
                            }
                        },
                    }
                }
            },
        }
    }
}

fn write_prefix(data: &mut Vec<u8>, src: &Vec<u8>)
    requires
        src@.len() <= old(data)@.len(),
    ensures
        final(data)@ == src@ + old(data)@.subrange(src@.len() as int, old(data)@.len() as int),
{
    let mut i: usize = 0;
    while i < src.len()
        invariant
            0 <= i <= src@.len(),
            src@.len() <= old(data)@.len(),
            data@.len() == old(data)@.len(),
            forall|j: int| 0 <= j < i ==> data@[j] == src@[j],
            forall|j: int| i <= j < data@.len() ==> data@[j] == old(data)@[j],
        decreases src@.len() - i,
    {
        data.set(i, src[i]);
        i = i + 1;
    }
    assert(data@ =~= src@ + old(data)@.subrange(src@.len() as int, old(data)@.len() as int));
}

fn copy_opt(o: &Option<Vec<u8>>) -> (r: Option<Vec<u8>>)
    ensures
        opt_view(r) == opt_view(*o),
{
    match o {
        Some(v) => Some(copy_range(v, 0, v.len())),
        None => None,
    }
}

/// Applies an edit to the patch at pixel `(x, y)` for the holder of its
/// mint's one unit, provided the patch stays within its limits.
pub fn update_patch(
    program_id: &Pubkey,
    owner: &Account,
    token: &Account,
    patch: &mut Account,
    x: i16,
    y: i16,
    edit: PatchEdit,
) -> (r: Result<(), TapestryError>)
    ensures
        final(patch).key == old(patch).key,
        final(patch).is_signer == old(patch).is_signer,
        final(patch).lamports == old(patch).lamports,
        final(patch).owner == old(patch).owner,
        match update_patch_outcome(program_id@, *owner, *token, *old(patch), x, y, edit@) {
            Ok(d) => r is Ok && final(patch).data@ == d,
            Err(e) => r == Err::<(), TapestryError>(e) && final(patch).data@ == old(patch).data@,
        },
{
    if !owner.is_signer {
        return Err(TapestryError::MissingRequiredSignature);
    }
    if find_bump(&tapestry_patch_seed_list(x, y), program_id, &patch.key).is_none() {
        return Err(TapestryError::InvalidTapestryPatchPDA);
    }
    if patch.data.len() == 0 {
        return Err(TapestryError::PatchAccountNotAllocated);
    }
    let p = TapestryPatch::from_bytes(&patch.data)?;
    let mint = match find_mint_address_for_patch_coords(x, y, program_id) {
        Some(m) => m.0,
        None => {
            return Err(TapestryError::PatchAccountNotOwnedByMint);
        },
    };
    if !p.owned_by_mint.same_as(&mint) {
        return Err(TapestryError::PatchAccountNotOwnedByMint);
    }
    let h = match TokenHolding::unpack(&token.data) {
        Ok(h) => h,
        Err(_) => {
            return Err(TapestryError::InvalidPatchTokenAccount);
        },
    };
    if h.state == 0 || !token_program_id().same_as(&token.owner) || !h.mint.same_as(&mint)
        || h.amount != 1 || !h.owner.same_as(&owner.key) {
        return Err(TapestryError::InvalidPatchTokenAccount);
    }
    let ghost spec_edit = edit@;
    let q = match edit {
        PatchEdit::Image(i) => TapestryPatch { image_data: Some(i), ..p },
        PatchEdit::Texts { url, hover_text } => TapestryPatch { url, hover_text, ..p },
    };
    assert(q@ == edited(p@, spec_edit));
    assert_patch_is_valid(&q)?;
    let bytes = q.encode();
    if bytes.len() > patch.data.len() {
        return Err(TapestryError::InvalidAccountData);
    }
    write_prefix(&mut patch.data, &bytes);
    Ok(())
}

/// Replaces the image of the patch at pixel `(x, y)`.
pub fn process_update_patch_image(
    program_id: &Pubkey,
    owner: &Account,
    token: &Account,
    patch: &mut Account,
    args: &UpdatePatchImageDataArgs,
) -> (r: Result<(), TapestryError>)
    ensures
        final(patch).key == old(patch).key,
        final(patch).is_signer == old(patch).is_signer,
        final(patch).lamports == old(patch).lamports,
        final(patch).owner == old(patch).owner,
        match update_patch_outcome(
            program_id@,
            *owner,
            *token,
            *old(patch),
            args.x,
            args.y,
            PatchEditView::Image(args.image_data@),
        ) {
            Ok(d) => r is Ok && final(patch).data@ == d,
            Err(e) => r == Err::<(), TapestryError>(e) && final(patch).data@ == old(patch).data@,
        },
{
    let image = copy_range(&args.image_data, 0, args.image_data.len());
    proof {
        assert(image@ =~= args.image_data@);
    }
    update_patch(program_id, owner, token, patch, args.x, args.y, PatchEdit::Image(image))
}

/// Replaces the url and hover text of the patch at pixel `(x, y)`.
pub fn process_update_patch_metadata(
    program_id: &Pubkey,
    owner: &Account,
    token: &Account,
    patch: &mut Account,
    args: &UpdatePatchMetadataDataArgs,
) -> (r: Result<(), TapestryError>)
    ensures
        final(patch).key == old(patch).key,
        final(patch).is_signer == old(patch).is_signer,
        final(patch).lamports == old(patch).lamports,
        final(patch).owner == old(patch).owner,
        match update_patch_outcome(
            program_id@,
            *owner,
            *token,
            *old(patch),
            args.x,
            args.y,
            PatchEditView::Texts { url: opt_view(args.url), hover_text: opt_view(args.hover_text) },
        ) {
            Ok(d) => r is Ok && final(patch).data@ == d,
            Err(e) => r == Err::<(), TapestryError>(e) && final(patch).data@ == old(patch).data@,
        },
{
    let edit = PatchEdit::Texts { url: copy_opt(&args.url), hover_text: copy_opt(&args.hover_text) };
    update_patch(program_id, owner, token, patch, args.x, args.y, edit)
}

/// The list with `r` in front, keeping the newest regions.
pub open spec fn pushed(rs: Seq<FeaturedRegionView>, r: FeaturedRegionView) -> Seq<FeaturedRegionView> {
    let l = seq![r] + rs;
    if l.len() > MAX_FEATURED_REGIONS {
        l.take(MAX_FEATURED_REGIONS as int)
    } else {
        l
    }
}

/// What featuring `region` writes over the start of the featured list's
/// storage, or why it fails.
pub open spec fn push_featured_outcome(
    program_id: Seq<u8>,
    owner: Account,
    state: Account,
    featured: Account,
    region: FeaturedRegionView,
) -> Result<Seq<u8>, TapestryError> {
    if !owner.is_signer {
        Err(TapestryError::MissingRequiredSignature)
    } else if region_failure(region) is Some {
        Err(region_failure(region)->Some_0)
    } else if derived_bump(tapestry_state_seeds(), program_id, state.key@) is None {
        Err(TapestryError::InvalidTapestryStatePDA)
    } else if derived_bump(featured_seeds(), program_id, featured.key@) is None {
        Err(TapestryError::InvalidTapestryFeaturedPDA)
    } else {
        match decode_tapestry_state(state.data@) {
            None => Err(TapestryError::InvalidAccountData),
            Some(t) => if t.1 != owner.key@ {
                Err(TapestryError::IncorrectOwner)
            } else {
                match decode_featured(featured.data@) {
                    None => Err(TapestryError::InvalidAccountData),
                    Some(rs) => {
                        let bytes = encode_featured(pushed(rs, region));
                        if bytes.len() > featured.data@.len() {
                            Err(TapestryError::InvalidAccountData)
                        } else {
                            Ok(bytes + featured.data@.subrange(bytes.len() as int, featured.data@.len() as int))
                        }
                    },
                }
            },
        }
    }
}

/// Puts a region at the front of the featured list, for the tapestry's
/// owner, keeping the newest fifty.
pub fn process_push_featured(
    program_id: &Pubkey,
    owner: &Account,
    state: &Account,
    featured: &mut Account,
    args: &PushFeaturedDataArgs,
) -> (r: Result<(), TapestryError>)
    ensures
        final(featured).key == old(featured).key,
        final(featured).is_signer == old(featured).is_signer,
        final(featured).lamports == old(featured).lamports,
        final(featured).owner == old(featured).owner,
        match push_featured_outcome(program_id@, *owner, *state, *old(featured), args.region@) {
            Ok(d) => r is Ok && final(featured).data@ == d,
            Err(e) => r == Err::<(), TapestryError>(e) && final(featured).data@ == old(featured).data@,
        },
{
    if !owner.is_signer {
        return Err(TapestryError::MissingRequiredSignature);
    }
    assert_featured_region_valid(&args.region)?;
    if find_bump(&tapestry_state_seed_list(), program_id, &state.key).is_none() {
        return Err(TapestryError::InvalidTapestryStatePDA);
    }
    if find_bump(&featured_seed_list(), program_id, &featured.key).is_none() {
        return Err(TapestryError::InvalidTapestryFeaturedPDA);
    }
    let t = TapestryState::from_bytes(&state.data)?;
    if !t.owner.same_as(&owner.key) {
        return Err(TapestryError::IncorrectOwner);
    }
    let mut f = FeaturedState::from_bytes(&featured.data)?;
    let ghost old_regions = f.regions();
    let region = FeaturedRegion {
        time_ms: args.region.time_ms,
        x: args.region.x,
        y: args.region.y,
        width: args.region.width,
        height: args.region.height,
        callout: copy_range(&args.region.callout, 0, args.region.callout.len()),
        sol_domain: copy_range(&args.region.sol_domain, 0, args.region.sol_domain.len()),
    };
    assert(region.callout@ =~= args.region.callout@);
    assert(region.sol_domain@ =~= args.region.sol_domain@);
    assert(region@ == args.region@);
    proof {
        lemma_parsed_regions_encodable(featured.data@, 4, le_u32(featured.data@, 0) as nat);
    }
    if f.featured.len() > MAX_FEATURED_REGIONS - 1 {
        f.featured.truncate(MAX_FEATURED_REGIONS - 1);
    }
    f.featured.insert(0, region);
    proof {
        assert(f.regions() =~= pushed(old_regions, args.region@));
        assert forall|i: int| 0 <= i < f.featured@.len() implies region_encodable(#[trigger] f.featured@[i]@) by {
            assert(f.featured@[i]@ == f.regions()[i]);
        }
    }
    let bytes = f.encode();
    if bytes.len() > featured.data.len() {
        return Err(TapestryError::InvalidAccountData);
    }
    write_prefix(&mut featured.data, &bytes);
    Ok(())
}

// ---------------------------------------------------------------- routing

/// An instruction of the tapestry program, with byte sequences for its texts
/// and images.
pub enum TapestryInstructionView {
    InitTapestry(InitTapestryDataArgs),
    PurchasePatch(PurchasePatchDataArgs),
    UpdatePatchImage { x: i16, y: i16, image_data: Seq<u8> },
    UpdatePatchMetadata { x: i16, y: i16, url: Option<Seq<u8>>, hover_text: Option<Seq<u8>> },
    PushFeatured(FeaturedRegionView),
}

impl View for TapestryInstruction {
    type V = TapestryInstructionView;

    open spec fn view(&self) -> TapestryInstructionView {
        match self {
            TapestryInstruction::InitTapestry(a) => TapestryInstructionView::InitTapestry(*a),
            TapestryInstruction::PurchasePatch(a) => TapestryInstructionView::PurchasePatch(*a),
            TapestryInstruction::UpdatePatchImage(a) => TapestryInstructionView::UpdatePatchImage {
                x: a.x,
                y: a.y,
                image_data: a.image_data@,
            },
            TapestryInstruction::UpdatePatchMetadata(a) => TapestryInstructionView::UpdatePatchMetadata {
                x: a.x,
                y: a.y,
                url: opt_view(a.url),
                hover_text: opt_view(a.hover_text),
            },
            TapestryInstruction::PushFeatured(a) => TapestryInstructionView::PushFeatured(a.region@),
        }
    }
}

/// The tapestry instruction that `d` holds, if it holds exactly one: a tag
/// byte, then the fields in order, integers little-endian, byte strings
/// after their u32 length, optional values after a presence byte.
pub open spec fn decode_tapestry_instruction(d: Seq<u8>) -> Option<TapestryInstructionView> {
    if d.len() == 0 {
        None
    } else if d[0] == 0 {
        if d.len() == 9 {
            Some(TapestryInstructionView::InitTapestry(InitTapestryDataArgs { initial_sale_price: le_u64(d, 1) }))
        } else {
            None
        }
    } else if d[0] == 1 {
        if d.len() == 5 {
            Some(TapestryInstructionView::PurchasePatch(PurchasePatchDataArgs { x: le_i16(d, 1), y: le_i16(d, 3) }))
        } else {
            None
        }
    } else if d[0] == 2 {
        if d.len() < 5 {
            None
        } else {
            match parse_bytes(d, 5) {
                Some(b) => if b.1 == d.len() {
                    Some(TapestryInstructionView::UpdatePatchImage { x: le_i16(d, 1), y: le_i16(d, 3), image_data: b.0 })
                } else {
                    None
                },
                None => None,
            }
        }
    } else if d[0] == 3 {
        if d.len() < 5 {
            None
        } else {
            match parse_opt_bytes(d, 5) {
                None => None,
                Some(u) => match parse_opt_bytes(d, u.1) {
                    None => None,
                    Some(h) => if h.1 == d.len() {
                        Some(
                            TapestryInstructionView::UpdatePatchMetadata {
                                x: le_i16(d, 1),
                                y: le_i16(d, 3),
                                url: u.0,
                                hover_text: h.0,
                            },
                        )
                    } else {
                        None
                    },
                },
            }
        }
    } else if d[0] == 4 {
        match parse_region(d, 1) {
            Some(r) => if r.1 == d.len() {
                Some(TapestryInstructionView::PushFeatured(r.0))
            } else {
                None
            },
            None => None,
        }
    } else {
        None
    }
}

fn read_i16(data: &Vec<u8>, off: usize) -> (r: i16)
    requires
        off + 2 <= data.len(),
    ensures
        r == le_i16(data@, off as int),
{
    ((data[off] as u16) | ((data[off + 1] as u16) << 8u16)) as i16
}

impl TapestryInstruction {
    /// Reads a tapestry instruction; the bytes must hold exactly one.
    pub fn unpack(data: &Vec<u8>) -> (r: Result<TapestryInstruction, TapestryError>)
        ensures
            match decode_tapestry_instruction(data@) {
                Some(v) => r matches Ok(ix) && ix@ == v,
                None => r == Err::<TapestryInstruction, TapestryError>(TapestryError::InvalidInstruction),
            },
    {
        if data.len() == 0 {
            return Err(TapestryError::InvalidInstruction);
        }
        let tag = data[0];
        if tag == 0 {
            if data.len() != 9 {
                return Err(TapestryError::InvalidInstruction);
            }
            Ok(TapestryInstruction::InitTapestry(InitTapestryDataArgs { initial_sale_price: read_u64(data, 1) }))
        } else if tag == 1 {
            if data.len() != 5 {
                return Err(TapestryError::InvalidInstruction);
            }
            Ok(TapestryInstruction::PurchasePatch(PurchasePatchDataArgs { x: read_i16(data, 1), y: read_i16(data, 3) }))
        } else if tag == 2 {
            if data.len() < 5 {
                return Err(TapestryError::InvalidInstruction);
            }
            let (image_data, end) = match read_bytes(data, 5) {
                Ok(p) => p,
                Err(_) => {
                    return Err(TapestryError::InvalidInstruction);
                },
            };
            if end != data.len() {
                return Err(TapestryError::InvalidInstruction);
            }
            Ok(
                TapestryInstruction::UpdatePatchImage(
                    UpdatePatchImageDataArgs { x: read_i16(data, 1), y: read_i16(data, 3), image_data },
                ),
            )
        } else if tag == 3 {
            if data.len() < 5 {
                return Err(TapestryError::InvalidInstruction);
            }
            let (url, o1) = match read_opt_bytes(data, 5) {
                Ok(p) => p,
                Err(_) => {
                    return Err(TapestryError::InvalidInstruction);
                },
            };
            let (hover_text, o2) = match read_opt_bytes(data, o1) {
                Ok(p) => p,
                Err(_) => {
                    return Err(TapestryError::InvalidInstruction);
                },
            };
            if o2 != data.len() {
                return Err(TapestryError::InvalidInstruction);
            }
            Ok(
                TapestryInstruction::UpdatePatchMetadata(
                    UpdatePatchMetadataDataArgs { x: read_i16(data, 1), y: read_i16(data, 3), url, hover_text },
                ),
            )
        } else if tag == 4 {
            let (region, end) = match read_region(data, 1) {
                Ok(p) => p,
                Err(_) => {
                    return Err(TapestryError::InvalidInstruction);
                },
            };
            if end != data.len() {
                return Err(TapestryError::InvalidInstruction);
            }
            Ok(TapestryInstruction::PushFeatured(PushFeaturedDataArgs { region }))
        } else {
            Err(TapestryError::InvalidInstruction)
        }
    }
}

/// What the host still has to do for a tapestry call that passed its
/// checks, besides storing the written records.
#[derive(Clone, Copy, Debug, PartialEq, Eq)]
pub enum TapestryAction {
    /// Allocate the state and featured list with these bumps first.
    Initialized { state_bump: u8, featured_bump: u8 },
    /// Take the payment, allocate the patch, and create its mint, holding
    /// account, unit and metadata.
    PatchSold(PatchSale),
    /// The patch was rewritten.
    PatchUpdated,
    /// The featured list was rewritten.
    FeaturedPushed,
}

/// What a tapestry call writes, by account position, and what the host must
/// then do, or why the call fails.
pub open spec fn tapestry_process_outcome(
    program_id: Seq<u8>,
    accounts: Seq<Account>,
    data: Seq<u8>,
) -> Result<(Map<int, Seq<u8>>, TapestryAction), TapestryError> {
    match decode_tapestry_instruction(data) {
        None => Err(TapestryError::InvalidInstruction),
        Some(TapestryInstructionView::InitTapestry(a)) => if accounts.len() < 4 {
            Err(TapestryError::NotEnoughAccountKeys)
        } else {
            match init_tapestry_outcome(program_id, accounts[0], accounts[1], accounts[3], a) {
                Ok(o) => Ok(
                    (
                        Map::empty().insert(1, o.0).insert(3, o.1),
                        TapestryAction::Initialized { state_bump: o.2, featured_bump: o.3 },
                    ),
                ),
                Err(e) => Err(e),
            }
        },
        Some(TapestryInstructionView::PurchasePatch(a)) => if accounts.len() < 11 {
            Err(TapestryError::NotEnoughAccountKeys)
        } else {
            match purchase_patch_outcome(
                program_id,
                accounts[0],
                accounts[1],
                accounts[2],
                accounts[3],
                accounts[4],
                a,
            ) {
                Ok(o) => Ok((Map::empty().insert(2, o.0), TapestryAction::PatchSold(o.1))),
                Err(e) => Err(e),
            }
        },
        Some(TapestryInstructionView::UpdatePatchImage { x, y, image_data }) => if accounts.len() < 3 {
            Err(TapestryError::NotEnoughAccountKeys)
        } else {
            match update_patch_outcome(
                program_id,
                accounts[0],
                accounts[1],
                accounts[2],
                x,
                y,
                PatchEditView::Image(image_data),
            ) {
                Ok(d) => Ok((Map::empty().insert(2, d), TapestryAction::PatchUpdated)),
                Err(e) => Err(e),
            }
        },
        Some(TapestryInstructionView::UpdatePatchMetadata { x, y, url, hover_text }) => if accounts.len() < 3 {
            Err(TapestryError::NotEnoughAccountKeys)
        } else {
            match update_patch_outcome(
                program_id,
                accounts[0],
                accounts[1],
                accounts[2],
                x,
                y,
                PatchEditView::Texts { url, hover_text },
            ) {
                Ok(d) => Ok((Map::empty().insert(2, d), TapestryAction::PatchUpdated)),
                Err(e) => Err(e),
            }
        },
        Some(TapestryInstructionView::PushFeatured(r)) => if accounts.len() < 4 {
            Err(TapestryError::NotEnoughAccountKeys)
        } else {
            match push_featured_outcome(program_id, accounts[0], accounts[1], accounts[2], r) {
                Ok(d) => Ok((Map::empty().insert(2, d), TapestryAction::FeaturedPushed)),
                Err(e) => Err(e),
            }
        },
    }
}

/// Decodes a tapestry instruction, binds the accounts by position and runs
/// its handler.
pub fn process_tapestry(program_id: &Pubkey, accounts: &mut Vec<Account>, data: &Vec<u8>) -> (r: Result<
    TapestryAction,
    TapestryError,
>)
    ensures
        match tapestry_process_outcome(program_id@, old(accounts)@, data@) {
            Ok(p) => r == Ok::<TapestryAction, TapestryError>(p.1) && accounts_after(
                old(accounts)@,
                final(accounts)@,
                p.0,
            ),
            Err(e) => r == Err::<TapestryAction, TapestryError>(e) && accounts_after(
                old(accounts)@,
                final(accounts)@,
                Map::empty(),
            ),
        },
{
    let ix = TapestryInstruction::unpack(data)?;
    proof {
        assert(accounts_after(old(accounts)@, accounts@, Map::empty()));
    }
    match ix {
        TapestryInstruction::InitTapestry(a) => {
            if accounts.len() < 4 {
                return Err(TapestryError::NotEnoughAccountKeys);
            }
            let mut state = take_account(accounts, 1);
            let mut featured = take_account(accounts, 3);
            let r = process_init_tapestry(program_id, &accounts[0], &mut state, &mut featured, &a);
            accounts.set(1, state);
            accounts.set(3, featured);
            proof {
                let o = old(accounts)@;
                let w = match init_tapestry_outcome(program_id@, o[0], o[1], o[3], a) {
                    Ok(p) => Map::empty().insert(1int, p.0).insert(3int, p.1),
                    Err(_) => Map::empty(),
                };
                assert(accounts_after(old(accounts)@, accounts@, w));
            }
            match r {
                Ok(b) => Ok(TapestryAction::Initialized { state_bump: b.0, featured_bump: b.1 }),
                Err(e) => Err(e),
            }
        },
        TapestryInstruction::PurchasePatch(a) => {
            if accounts.len() < 11 {
                return Err(TapestryError::NotEnoughAccountKeys);
            }
            let mut patch = take_account(accounts, 2);
            let r = process_purchase_patch(
                program_id,
                &accounts[0],
                &accounts[1],
                &mut patch,
                &accounts[3],
                &accounts[4],
                &a,
            );
            accounts.set(2, patch);
            proof {
                let o = old(accounts)@;
                let w = match purchase_patch_outcome(program_id@, o[0], o[1], o[2], o[3], o[4], a) {
                    Ok(p) => Map::empty().insert(2int, p.0),
                    Err(_) => Map::empty(),
                };
                assert(accounts_after(old(accounts)@, accounts@, w));
            }
            match r {
                Ok(sale) => Ok(TapestryAction::PatchSold(sale)),
                Err(e) => Err(e),
            }
        },
        TapestryInstruction::UpdatePatchImage(a) => {
            if accounts.len() < 3 {
                return Err(TapestryError::NotEnoughAccountKeys);
            }
            let mut patch = take_account(accounts, 2);
            let r = process_update_patch_image(program_id, &accounts[0], &accounts[1], &mut patch, &a);
            accounts.set(2, patch);
            proof {
                let o = old(accounts)@;
                let w = match update_patch_outcome(program_id@, o[0], o[1], o[2], a.x, a.y, PatchEditView::Image(a.image_data@)) {
                    Ok(d) => Map::empty().insert(2int, d),
                    Err(_) => Map::empty(),
                };
                assert(accounts_after(old(accounts)@, accounts@, w));
            }
            match r {
                Ok(()) => Ok(TapestryAction::PatchUpdated),
                Err(e) => Err(e),
            }
        },
        TapestryInstruction::UpdatePatchMetadata(a) => {
            if accounts.len() < 3 {
                return Err(TapestryError::NotEnoughAccountKeys);
            }
            let mut patch = take_account(accounts, 2);
            let r = process_update_patch_metadata(program_id, &accounts[0], &accounts[1], &mut patch, &a);
            accounts.set(2, patch);
            proof {
                let o = old(accounts)@;
                let w = match update_patch_outcome(
                    program_id@,
                    o[0],
                    o[1],
                    o[2],
                    a.x,
                    a.y,
                    PatchEditView::Texts { url: opt_view(a.url), hover_text: opt_view(a.hover_text) },
                ) {
                    Ok(d) => Map::empty().insert(2int, d),
                    Err(_) => Map::empty(),
                };
                assert(accounts_after(old(accounts)@, accounts@, w));
            }
            match r {
                Ok(()) => Ok(TapestryAction::PatchUpdated),
                Err(e) => Err(e),
            }
        },
        TapestryInstruction::PushFeatured(a) => {
            if accounts.len() < 4 {
                return Err(TapestryError::NotEnoughAccountKeys);
            }
            let mut featured = take_account(accounts, 2);
            let r = process_push_featured(program_id, &accounts[0], &accounts[1], &mut featured, &a);
            accounts.set(2, featured);
            proof {
                let o = old(accounts)@;
                let w = match push_featured_outcome(program_id@, o[0], o[1], o[2], a.region@) {
                    Ok(d) => Map::empty().insert(2int, d),
                    Err(_) => Map::empty(),
                };
                assert(accounts_after(old(accounts)@, accounts@, w));
            }
            match r {
                Ok(()) => Ok(TapestryAction::FeaturedPushed),
                Err(e) => Err(e),
            }
        },
    }
}

} // verus!
