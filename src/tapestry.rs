//! The tapestry variant of the canvas: signed pixel coordinates grouped in
//! square chunks, the addresses of its records, and the arguments of its
//! instructions.
use vstd::prelude::*;
use crate::address::{derive_address, mint_prefix, seeds_view, program_address};
use crate::error::{TapestryError};
use crate::pubkey::{Pubkey};

verus! {

pub const MAX_X: i16 = 1023;

pub const MIN_X: i16 = -1024;

pub const MAX_Y: i16 = 1023;

pub const MIN_Y: i16 = -1024;

/// Side of a chunk, in pixels.
pub const CHUNK_SIZE: i16 = 8;

/// The chunk that holds a pixel.
#[derive(Clone, Copy, Debug, PartialEq, Eq, Structural)]
pub struct ChunkCoords {
    pub x_chunk: i8,
    pub y_chunk: i8,
}

/// Whether `(x, y)` lies on the tapestry.
pub open spec fn coords_valid(x: i16, y: i16) -> bool {
    MIN_X <= x <= MAX_X && MIN_Y <= y <= MAX_Y
}

/// Floor division of a pixel coordinate by the chunk size.
pub open spec fn chunk_of(v: i16) -> int {
    (v as int) / (CHUNK_SIZE as int)
}

pub(crate) fn chunk_index(v: i16) -> (r: i8)
    requires
        MIN_X <= v <= MAX_X,
    ensures
        r as int == chunk_of(v),
{
    let shifted: u16 = (v as i32 + 1024) as u16;
    let q: u16 = shifted / 8;
    assert(q as int == (v as int + 1024) / 8);
    assert((v as int + 1024) / 8 == (v as int) / 8 + 128) by (nonlinear_arith);
    (q as i16 - 128) as i8
}

/// The chunk of pixel `(x, y)`, rounding towards negative infinity.
pub fn chunk_for_coords(x: i16, y: i16) -> (r: ChunkCoords)
    requires
        coords_valid(x, y),
    ensures
        r.x_chunk as int == chunk_of(x),
        r.y_chunk as int == chunk_of(y),
{
    ChunkCoords { x_chunk: chunk_index(x), y_chunk: chunk_index(y) }
}

/// Accepts `(x, y)` on the tapestry and rejects the rest.
pub fn assert_coords_valid(x: i16, y: i16) -> (r: Result<(), TapestryError>)
    ensures
        r is Ok <==> coords_valid(x, y),
        r is Err ==> r == Err::<(), TapestryError>(TapestryError::InvalidPatchCoordinates),
{
    if x <= MAX_X && x >= MIN_X && y <= MAX_Y && y >= MIN_Y {
        Ok(())
    } else {
        Err(TapestryError::InvalidPatchCoordinates)
    }
}

#[derive(Clone, Copy, Debug, PartialEq, Eq, Structural)]
pub struct InitTapestryDataArgs {
    /// Price of an unsold patch, in lamports.
    pub initial_sale_price: u64,
}

#[derive(Clone, Copy, Debug, PartialEq, Eq, Structural)]
pub struct PurchasePatchDataArgs {
    pub x: i16,
    pub y: i16,
}

#[derive(Clone, Debug, PartialEq, Eq)]
pub struct UpdatePatchImageDataArgs {
    pub x: i16,
    pub y: i16,
    pub image_data: Vec<u8>,
}

/// New texts of the patch at pixel `(x, y)`, as UTF-8 bytes.
#[derive(Clone, Debug, PartialEq, Eq)]
pub struct UpdatePatchMetadataDataArgs {
    pub x: i16,
    pub y: i16,
    /// Where a click on the patch leads.
    pub url: Option<Vec<u8>>,
    /// Text shown over the patch.
    pub hover_text: Option<Vec<u8>>,
}

/// A region of the tapestry shown as featured. Its texts are kept as their
/// UTF-8 bytes.
#[derive(Clone, Debug, PartialEq, Eq)]
pub struct FeaturedRegion {
    /// When the region was featured, in ms since the epoch.
    pub time_ms: u64,
    pub x: i16,
    pub y: i16,
    pub width: i16,
    pub height: i16,
    pub callout: Vec<u8>,
    pub sol_domain: Vec<u8>,
}

/// The featured regions, newest last.
#[derive(Clone, Debug, PartialEq, Eq)]
pub struct FeaturedState {
    pub featured: Vec<FeaturedRegion>,
}

#[derive(Clone, Debug, PartialEq, Eq)]
pub struct PushFeaturedDataArgs {
    pub region: FeaturedRegion,
}

/// One call of the tapestry program.
#[derive(Clone, Debug, PartialEq, Eq)]
pub enum TapestryInstruction {
    InitTapestry(InitTapestryDataArgs),
    PurchasePatch(PurchasePatchDataArgs),
    UpdatePatchImage(UpdatePatchImageDataArgs),
    UpdatePatchMetadata(UpdatePatchMetadataDataArgs),
    PushFeatured(PushFeaturedDataArgs),
}

// ---------------------------------------------------------------- addresses

/// Bytes of "tapestry", the prefix of every tapestry address.
pub open spec fn tapestry_prefix() -> Seq<u8> {
    seq![116u8, 97u8, 112u8, 101u8, 115u8, 116u8, 114u8, 121u8]
}

/// Bytes of "feat", the prefix of the featured list.
pub open spec fn featured_prefix() -> Seq<u8> {
    seq![102u8, 101u8, 97u8, 116u8]
}

/// The two little-endian bytes of `v`.
pub open spec fn i16_le_bytes(v: i16) -> Seq<u8> {
    seq![((v as u16) & 0xff) as u8, (((v as u16) >> 8u16) & 0xff) as u8]
}

pub open spec fn tapestry_state_seeds() -> Seq<Seq<u8>> {
    seq![tapestry_prefix()]
}

pub open spec fn tapestry_patch_seeds(x: i16, y: i16) -> Seq<Seq<u8>> {
    seq![tapestry_prefix(), i16_le_bytes(x), i16_le_bytes(y)]
}

pub open spec fn tapestry_mint_seeds(x: i16, y: i16) -> Seq<Seq<u8>> {
    seq![tapestry_prefix(), mint_prefix(), i16_le_bytes(x), i16_le_bytes(y)]
}

pub open spec fn featured_seeds() -> Seq<Seq<u8>> {
    seq![tapestry_prefix(), featured_prefix()]
}

pub(crate) fn tapestry_prefix_bytes() -> (r: Vec<u8>)
    ensures
        r@ == tapestry_prefix(),
{
    let r = vec![116u8, 97u8, 112u8, 101u8, 115u8, 116u8, 114u8, 121u8];
    assert(r@ =~= tapestry_prefix());
    r
}

pub(crate) fn i16_bytes(v: i16) -> (r: Vec<u8>)
    ensures
        r@ == i16_le_bytes(v),
{
    let u = v as u16;
    let r = vec![(u & 0xff) as u8, ((u >> 8u16) & 0xff) as u8];
    assert(r@ =~= i16_le_bytes(v));
    r
}

pub(crate) fn tapestry_state_seed_list() -> (r: Vec<Vec<u8>>)
    ensures
        seeds_view(r@) == tapestry_state_seeds(),
{
    let r = vec![tapestry_prefix_bytes()];
    assert(seeds_view(r@) =~= tapestry_state_seeds());
    r
}

pub(crate) fn tapestry_patch_seed_list(x: i16, y: i16) -> (r: Vec<Vec<u8>>)
    ensures
        seeds_view(r@) == tapestry_patch_seeds(x, y),
{
    let r = vec![tapestry_prefix_bytes(), i16_bytes(x), i16_bytes(y)];
    assert(seeds_view(r@) =~= tapestry_patch_seeds(x, y));
    r
}

pub(crate) fn tapestry_mint_seed_list(x: i16, y: i16) -> (r: Vec<Vec<u8>>)
    ensures
        seeds_view(r@) == tapestry_mint_seeds(x, y),
{
    let m = vec![109u8, 105u8, 110u8, 116u8];
    assert(m@ =~= mint_prefix());
    let r = vec![tapestry_prefix_bytes(), m, i16_bytes(x), i16_bytes(y)];
    assert(seeds_view(r@) =~= tapestry_mint_seeds(x, y));
    r
}

pub(crate) fn featured_seed_list() -> (r: Vec<Vec<u8>>)
    ensures
        seeds_view(r@) == featured_seeds(),
{
    let f = vec![102u8, 101u8, 97u8, 116u8];
    assert(f@ =~= featured_prefix());
    let r = vec![tapestry_prefix_bytes(), f];
    assert(seeds_view(r@) =~= featured_seeds());
    r
}

/// The address of the tapestry state.
pub fn find_tapestry_state_address(program_id: &Pubkey) -> (r: Option<(Pubkey, u8)>)
    ensures
        r matches Some(p) ==> program_address(tapestry_state_seeds(), program_id@) == Some((p.0@, p.1)),
        r is None ==> program_address(tapestry_state_seeds(), program_id@) is None,
{
    derive_address(&tapestry_state_seed_list(), program_id)
}

/// The address of the patch at pixel `(x, y)`.
pub fn find_patch_address_for_patch_coords(x: i16, y: i16, program_id: &Pubkey) -> (r: Option<(Pubkey, u8)>)
    ensures
        r matches Some(p) ==> program_address(tapestry_patch_seeds(x, y), program_id@) == Some((p.0@, p.1)),
        r is None ==> program_address(tapestry_patch_seeds(x, y), program_id@) is None,
{
    derive_address(&tapestry_patch_seed_list(x, y), program_id)
}

/// The address of the mint of the patch at pixel `(x, y)`.
pub fn find_mint_address_for_patch_coords(x: i16, y: i16, program_id: &Pubkey) -> (r: Option<(Pubkey, u8)>)
    ensures
        r matches Some(p) ==> program_address(tapestry_mint_seeds(x, y), program_id@) == Some((p.0@, p.1)),
        r is None ==> program_address(tapestry_mint_seeds(x, y), program_id@) is None,
{
    derive_address(&tapestry_mint_seed_list(x, y), program_id)
}

/// The address of the featured list.
pub fn find_featured_state_address(program_id: &Pubkey) -> (r: Option<(Pubkey, u8)>)
    ensures
        r matches Some(p) ==> program_address(featured_seeds(), program_id@) == Some((p.0@, p.1)),
        r is None ==> program_address(featured_seeds(), program_id@) is None,
{
    derive_address(&featured_seed_list(), program_id)
}

} // verus!
