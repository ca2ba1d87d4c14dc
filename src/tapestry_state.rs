//! The tapestry's records and their byte layouts: its state, its patches
//! and its list of featured regions.
use vstd::prelude::*;
use crate::bytes::{copy_range, le_u32, le_u64, push_all, push_u32, push_u64, read_u32, read_u64, u32_le_bytes, u64_le_bytes, zeros};
use crate::error::{TapestryError};
use crate::pubkey::{Pubkey};
use crate::tapestry::{FeaturedRegion, FeaturedState, MAX_X, MAX_Y, MIN_X, MIN_Y, assert_coords_valid, chunk_for_coords, chunk_of, coords_valid, i16_bytes, i16_le_bytes};

verus! {

// ---------------------------------------------------------------- records

/// Bytes allocated for the tapestry state.
pub const TAPESTRY_STATE_MAX_LEN: usize = 48;

/// Bytes of the tapestry state's fields: flag, owner, price.
pub const TAPESTRY_STATE_LEN: usize = 41;

/// Bytes allocated for the featured list: a count and fifty regions.
pub const MAX_TAPESTRY_FEATURED_ACCOUNT_LEN: usize = 7604;

/// Bytes allocated for a patch: its fixed fields and the largest url,
/// hover text and image.
pub const MAX_PATCH_TOTAL_LEN: usize = 1270;

/// The tapestry's global record.
#[derive(Clone, Copy, Debug, PartialEq, Eq)]
pub struct TapestryState {
    pub is_initialized: bool,
    /// Receives the proceeds of patch sales.
    pub owner: Pubkey,
    /// Price of an unsold patch, in lamports.
    pub initial_sale_price: u64,
}

/// The bytes of a tapestry state's fields.
pub open spec fn encode_tapestry_state(initialized: bool, owner: Seq<u8>, price: u64) -> Seq<u8> {
    seq![if initialized { 1u8 } else { 0u8 }] + owner + u64_le_bytes(price)
}

/// The tapestry state at the start of `d`, if one is there.
pub open spec fn decode_tapestry_state(d: Seq<u8>) -> Option<(bool, Seq<u8>, u64)> {
    if d.len() >= TAPESTRY_STATE_LEN && d[0] <= 1 {
        Some((d[0] == 1, d.subrange(1, 33), le_u64(d, 33)))
    } else {
        None
    }
}

impl TapestryState {
    /// Reads the state from the start of `data`.
    pub fn from_bytes(data: &Vec<u8>) -> (r: Result<TapestryState, TapestryError>)
        ensures
            match r {
                Ok(s) => decode_tapestry_state(data@) == Some((s.is_initialized, s.owner@, s.initial_sale_price)),
                Err(e) => decode_tapestry_state(data@) is None && e == TapestryError::InvalidAccountData,
            },
    {
        if data.len() < TAPESTRY_STATE_LEN || data[0] > 1 {
            return Err(TapestryError::InvalidAccountData);
        }
        Ok(
            TapestryState {
                is_initialized: data[0] == 1,
                owner: Pubkey::read_from(data, 1),
                initial_sale_price: read_u64(data, 33),
            },
        )
    }

    /// The state's bytes, padded with zeros to its allocation.
    pub fn encode(&self) -> (r: Vec<u8>)
        ensures
            r@ == encode_tapestry_state(self.is_initialized, self.owner@, self.initial_sale_price)
                + Seq::new(7, |i: int| 0u8),
    {
        let mut out: Vec<u8> = Vec::new();
        out.push(if self.is_initialized { 1u8 } else { 0u8 });
        push_all(&mut out, &self.owner.to_vec());
        push_u64(&mut out, self.initial_sale_price);
        push_all(&mut out, &zeros(7));
        assert(out@ =~= encode_tapestry_state(self.is_initialized, self.owner@, self.initial_sale_price)
            + Seq::new(7, |i: int| 0u8));
        out
    }
}

/// The bytes of a newly sold patch: initialized, owned by `mint`, at pixel
/// `(x, y)` in chunk `(x_chunk, y_chunk)`, with no url, hover text or image,
/// padded with zeros to its allocation.
pub open spec fn sold_patch_bytes(mint: Seq<u8>, x: i16, y: i16) -> Seq<u8> {
    seq![1u8] + mint + seq![chunk_of(x) as i8 as u8, chunk_of(y) as i8 as u8] + i16_le_bytes(x)
        + i16_le_bytes(y) + seq![0u8, 0u8, 0u8] + Seq::new(1228, |i: int| 0u8)
}

pub(crate) fn sold_patch(mint: &Pubkey, x: i16, y: i16) -> (r: Vec<u8>)
    requires
        coords_valid(x, y),
    ensures
        r@ == sold_patch_bytes(mint@, x, y),
{
    let c = chunk_for_coords(x, y);
    let mut out: Vec<u8> = Vec::new();
    out.push(1u8);
    push_all(&mut out, &mint.to_vec());
    out.push(c.x_chunk as u8);
    out.push(c.y_chunk as u8);
    push_all(&mut out, &i16_bytes(x));
    push_all(&mut out, &i16_bytes(y));
    out.push(0u8);
    out.push(0u8);
    out.push(0u8);
    push_all(&mut out, &zeros(1228));
    assert(out@ =~= sold_patch_bytes(mint@, x, y));
    out
}

// ---------------------------------------------------------------- patch records

pub const MAX_PATCH_IMAGE_DATA_LEN: usize = 1024;

pub const MAX_PATCH_URL_LEN: usize = 128;

pub const MAX_PATCH_HOVER_TEXT_LEN: usize = 64;

/// One sold patch of the tapestry. Its texts are kept as their UTF-8 bytes.
#[derive(Clone, Debug, PartialEq, Eq)]
pub struct TapestryPatch {
    pub is_initialized: bool,
    /// Only the holder of this mint's one unit may change the patch.
    pub owned_by_mint: Pubkey,
    pub x_chunk: i8,
    pub y_chunk: i8,
    pub x: i16,
    pub y: i16,
    /// Where a click on the patch leads.
    pub url: Option<Vec<u8>>,
    /// Text shown over the patch.
    pub hover_text: Option<Vec<u8>>,
    pub image_data: Option<Vec<u8>>,
}

pub struct TapestryPatchView {
    pub is_initialized: bool,
    pub owned_by_mint: Seq<u8>,
    pub x_chunk: i8,
    pub y_chunk: i8,
    pub x: i16,
    pub y: i16,
    pub url: Option<Seq<u8>>,
    pub hover_text: Option<Seq<u8>>,
    pub image_data: Option<Seq<u8>>,
}

pub open spec fn opt_view(o: Option<Vec<u8>>) -> Option<Seq<u8>> {
    match o {
        Some(v) => Some(v@),
        None => None,
    }
}

impl View for TapestryPatch {
    type V = TapestryPatchView;

    open spec fn view(&self) -> TapestryPatchView {
        TapestryPatchView {
            is_initialized: self.is_initialized,
            owned_by_mint: self.owned_by_mint@,
            x_chunk: self.x_chunk,
            y_chunk: self.y_chunk,
            x: self.x,
            y: self.y,
            url: opt_view(self.url),
            hover_text: opt_view(self.hover_text),
            image_data: opt_view(self.image_data),
        }
    }
}

/// An optional byte string: absent, or present with its u32 length.
pub open spec fn encode_opt_bytes(o: Option<Seq<u8>>) -> Seq<u8> {
    match o {
        None => seq![0u8],
        Some(b) => seq![1u8] + u32_le_bytes(b.len() as u32) + b,
    }
}

/// The i16 stored little-endian at `off`.
pub open spec fn le_i16(d: Seq<u8>, off: int) -> i16 {
    ((d[off] as u16) | ((d[off + 1] as u16) << 8u16)) as i16
}

/// The bytes of a patch record.
pub open spec fn encode_tapestry_patch(p: TapestryPatchView) -> Seq<u8> {
    seq![if p.is_initialized { 1u8 } else { 0u8 }] + p.owned_by_mint + seq![
        p.x_chunk as u8,
        p.y_chunk as u8,
    ] + i16_le_bytes(p.x) + i16_le_bytes(p.y) + encode_opt_bytes(p.url) + encode_opt_bytes(
        p.hover_text,
    ) + encode_opt_bytes(p.image_data)
}

/// An optional byte string at `off`, and the offset after it.
pub open spec fn parse_opt_bytes(d: Seq<u8>, off: int) -> Option<(Option<Seq<u8>>, int)> {
    if off >= d.len() {
        None
    } else if d[off] == 0 {
        Some((None, off + 1))
    } else if d[off] == 1 && off + 5 <= d.len() && off + 5 + le_u32(d, off + 1) <= d.len() {
        Some(
            (
                Some(d.subrange(off + 5, off + 5 + le_u32(d, off + 1))),
                off + 5 + le_u32(d, off + 1),
            ),
        )
    } else {
        None
    }
}

/// Bytes of a patch record's fixed fields.
pub const TAPESTRY_PATCH_FIXED_LEN: usize = 39;

/// The patch record at the start of `d`, if one is there, and where it ends.
pub open spec fn decode_tapestry_patch(d: Seq<u8>) -> Option<(TapestryPatchView, int)> {
    if d.len() < TAPESTRY_PATCH_FIXED_LEN || d[0] > 1 {
        None
    } else {
        match parse_opt_bytes(d, 39) {
            None => None,
            Some(u) => match parse_opt_bytes(d, u.1) {
                None => None,
                Some(h) => match parse_opt_bytes(d, h.1) {
                    None => None,
                    Some(i) => Some(
                        (
                            TapestryPatchView {
                                is_initialized: d[0] == 1,
                                owned_by_mint: d.subrange(1, 33),
                                x_chunk: d[33] as i8,
                                y_chunk: d[34] as i8,
                                x: le_i16(d, 35),
                                y: le_i16(d, 37),
                                url: u.0,
                                hover_text: h.0,
                                image_data: i.0,
                            },
                            i.1,
                        ),
                    ),
                },
            },
        }
    }
}

pub(crate) fn read_opt_bytes(data: &Vec<u8>, off: usize) -> (r: Result<(Option<Vec<u8>>, usize), TapestryError>)
    ensures
        match parse_opt_bytes(data@, off as int) {
            Some(p) => r matches Ok(q) && opt_view(q.0) == p.0 && q.1 == p.1,
            None => r == Err::<(Option<Vec<u8>>, usize), TapestryError>(TapestryError::InvalidAccountData),
        },
{
    if off >= data.len() {
        return Err(TapestryError::InvalidAccountData);
    }
    if data[off] == 0 {
        return Ok((None, off + 1));
    }
    if data[off] == 1 && data.len() - off >= 5 {
        let n = read_u32(data, off + 1) as usize;
        if n <= data.len() - off - 5 {
            let b = copy_range(data, off + 5, off + 5 + n);
            return Ok((Some(b), off + 5 + n));
        }
    }
    Err(TapestryError::InvalidAccountData)
}

pub(crate) fn push_opt_bytes(out: &mut Vec<u8>, o: &Option<Vec<u8>>)
    requires
        o matches Some(b) ==> b@.len() <= u32::MAX,
    ensures
        final(out)@ == old(out)@ + encode_opt_bytes(opt_view(*o)),
{
    match o {
        None => out.push(0u8),
        Some(b) => {
            out.push(1u8);
            push_u32(out, b.len() as u32);
            push_all(out, b);
        },
    }
    assert(out@ =~= old(out)@ + encode_opt_bytes(opt_view(*o)));
}

impl TapestryPatch {
    /// Reads a patch record from the start of `data`.
    pub fn from_bytes(data: &Vec<u8>) -> (r: Result<TapestryPatch, TapestryError>)
        ensures
            match decode_tapestry_patch(data@) {
                Some(p) => r matches Ok(q) && q@ == p.0,
                None => r == Err::<TapestryPatch, TapestryError>(TapestryError::InvalidAccountData),
            },
    {
        if data.len() < TAPESTRY_PATCH_FIXED_LEN || data[0] > 1 {
            return Err(TapestryError::InvalidAccountData);
        }
        let (url, o1) = read_opt_bytes(data, 39)?;
        let (hover_text, o2) = read_opt_bytes(data, o1)?;
        let (image_data, _o3) = read_opt_bytes(data, o2)?;
        let x = ((data[35] as u16) | ((data[36] as u16) << 8u16)) as i16;
        let y = ((data[37] as u16) | ((data[38] as u16) << 8u16)) as i16;
        Ok(
            TapestryPatch {
                is_initialized: data[0] == 1,
                owned_by_mint: Pubkey::read_from(data, 1),
                x_chunk: data[33] as i8,
                y_chunk: data[34] as i8,
                x,
                y,
                url,
                hover_text,
                image_data,
            },
        )
    }

    /// The record's bytes.
    pub fn encode(&self) -> (r: Vec<u8>)
        requires
            self.url matches Some(b) ==> b@.len() <= u32::MAX,
            self.hover_text matches Some(b) ==> b@.len() <= u32::MAX,
            self.image_data matches Some(b) ==> b@.len() <= u32::MAX,
        ensures
            r@ == encode_tapestry_patch(self@),
    {
        let mut out: Vec<u8> = Vec::new();
        out.push(if self.is_initialized { 1u8 } else { 0u8 });
        push_all(&mut out, &self.owned_by_mint.to_vec());
        out.push(self.x_chunk as u8);
        out.push(self.y_chunk as u8);
        push_all(&mut out, &i16_bytes(self.x));
        push_all(&mut out, &i16_bytes(self.y));
        push_opt_bytes(&mut out, &self.url);
        push_opt_bytes(&mut out, &self.hover_text);
        push_opt_bytes(&mut out, &self.image_data);
        assert(out@ =~= encode_tapestry_patch(self@));
        out
    }
}

/// What makes a patch record acceptable: on the tapestry, in its own chunk,
/// initialized, and no text or image over its limit.
pub open spec fn patch_failure(p: TapestryPatchView) -> Option<TapestryError> {
    if !coords_valid(p.x, p.y) {
        Some(TapestryError::InvalidPatchCoordinates)
    } else if p.x_chunk as int != chunk_of(p.x) || p.y_chunk as int != chunk_of(p.y) {
        Some(TapestryError::InvalidPatchChunkCoordinates)
    } else if !p.is_initialized {
        Some(TapestryError::UnexpectedPatchState)
    } else if p.url matches Some(u) && u.len() > MAX_PATCH_URL_LEN {
        Some(TapestryError::PatchURLTooLong)
    } else if p.hover_text matches Some(h) && h.len() > MAX_PATCH_HOVER_TEXT_LEN {
        Some(TapestryError::PatchHoverTextTooLong)
    } else if p.image_data matches Some(i) && i.len() > MAX_PATCH_IMAGE_DATA_LEN {
        Some(TapestryError::PatchImageDataTooLong)
    } else {
        None
    }
}

/// Accepts a patch record that is on the tapestry, in its own chunk,
/// initialized, and within the text and image limits.
pub fn assert_patch_is_valid(patch: &TapestryPatch) -> (r: Result<(), TapestryError>)
    ensures
        match patch_failure(patch@) {
            Some(e) => r == Err::<(), TapestryError>(e),
            None => r is Ok,
        },
{
    assert_coords_valid(patch.x, patch.y)?;
    let c = chunk_for_coords(patch.x, patch.y);
    if patch.x_chunk != c.x_chunk || patch.y_chunk != c.y_chunk {
        return Err(TapestryError::InvalidPatchChunkCoordinates);
    }
    if !patch.is_initialized {
        return Err(TapestryError::UnexpectedPatchState);
    }
    if let Some(u) = &patch.url {
        if u.len() > MAX_PATCH_URL_LEN {
            return Err(TapestryError::PatchURLTooLong);
        }
    }
    if let Some(h) = &patch.hover_text {
        if h.len() > MAX_PATCH_HOVER_TEXT_LEN {
            return Err(TapestryError::PatchHoverTextTooLong);
        }
    }
    if let Some(i) = &patch.image_data {
        if i.len() > MAX_PATCH_IMAGE_DATA_LEN {
            return Err(TapestryError::PatchImageDataTooLong);
        }
    }
    Ok(())
}

// ---------------------------------------------------------------- featured regions

pub const MAX_FEATURED_CALLOUT_LEN: usize = 64;

pub const MAX_FEATURED_DOMAIN_LEN: usize = 64;

/// Regions kept in the featured list.
pub const MAX_FEATURED_REGIONS: usize = 50;

pub struct FeaturedRegionView {
    pub time_ms: u64,
    pub x: i16,
    pub y: i16,
    pub width: i16,
    pub height: i16,
    pub callout: Seq<u8>,
    pub sol_domain: Seq<u8>,
}

impl View for FeaturedRegion {
    type V = FeaturedRegionView;

    open spec fn view(&self) -> FeaturedRegionView {
        FeaturedRegionView {
            time_ms: self.time_ms,
            x: self.x,
            y: self.y,
            width: self.width,
            height: self.height,
            callout: self.callout@,
            sol_domain: self.sol_domain@,
        }
    }
}

/// A region is acceptable when both its corners lie on the tapestry and its
/// texts are within their limits.
pub open spec fn region_failure(r: FeaturedRegionView) -> Option<TapestryError> {
    if !coords_valid(r.x, r.y) || !(MIN_X <= r.x + r.width <= MAX_X && MIN_Y <= r.y + r.height
        <= MAX_Y) {
        Some(TapestryError::InvalidPatchCoordinates)
    } else if r.callout.len() > MAX_FEATURED_CALLOUT_LEN {
        Some(TapestryError::FeaturedCalloutTooLong)
    } else if r.sol_domain.len() > MAX_FEATURED_DOMAIN_LEN {
        Some(TapestryError::FeaturedSolDomainTooLong)
    } else {
        None
    }
}

/// Accepts a region whose corners lie on the tapestry and whose texts are
/// within their limits.
pub fn assert_featured_region_valid(region: &FeaturedRegion) -> (r: Result<(), TapestryError>)
    ensures
        match region_failure(region@) {
            Some(e) => r == Err::<(), TapestryError>(e),
            None => r is Ok,
        },
{
    assert_coords_valid(region.x, region.y)?;
    let far_x: i32 = region.x as i32 + region.width as i32;
    let far_y: i32 = region.y as i32 + region.height as i32;
    if far_x > MAX_X as i32 || far_x < MIN_X as i32 || far_y > MAX_Y as i32 || far_y < MIN_Y as i32 {
        return Err(TapestryError::InvalidPatchCoordinates);
    }
    if region.callout.len() > MAX_FEATURED_CALLOUT_LEN {
        return Err(TapestryError::FeaturedCalloutTooLong);
    }
    if region.sol_domain.len() > MAX_FEATURED_DOMAIN_LEN {
        return Err(TapestryError::FeaturedSolDomainTooLong);
    }
    Ok(())
}

/// A byte string with its u32 length in front.
pub open spec fn encode_bytes(b: Seq<u8>) -> Seq<u8> {
    u32_le_bytes(b.len() as u32) + b
}

/// The bytes of one region.
pub open spec fn encode_region(r: FeaturedRegionView) -> Seq<u8> {
    u64_le_bytes(r.time_ms) + i16_le_bytes(r.x) + i16_le_bytes(r.y) + i16_le_bytes(r.width)
        + i16_le_bytes(r.height) + encode_bytes(r.callout) + encode_bytes(r.sol_domain)
}

/// The bytes of regions one after another.
pub open spec fn encode_regions(rs: Seq<FeaturedRegionView>) -> Seq<u8>
    decreases rs.len(),
{
    if rs.len() == 0 {
        Seq::empty()
    } else {
        encode_regions(rs.drop_last()) + encode_region(rs.last())
    }
}

/// The bytes of a featured list: its count, then its regions.
pub open spec fn encode_featured(rs: Seq<FeaturedRegionView>) -> Seq<u8> {
    u32_le_bytes(rs.len() as u32) + encode_regions(rs)
}

/// A length-prefixed byte string at `off`, and the offset after it.
pub open spec fn parse_bytes(d: Seq<u8>, off: int) -> Option<(Seq<u8>, int)> {
    if 0 <= off && off + 4 <= d.len() && off + 4 + le_u32(d, off) <= d.len() {
        Some((d.subrange(off + 4, off + 4 + le_u32(d, off)), off + 4 + le_u32(d, off)))
    } else {
        None
    }
}

/// A region at `off`, and the offset after it.
pub open spec fn parse_region(d: Seq<u8>, off: int) -> Option<(FeaturedRegionView, int)> {
    if off + 16 > d.len() {
        None
    } else {
        match parse_bytes(d, off + 16) {
            None => None,
            Some(c) => match parse_bytes(d, c.1) {
                None => None,
                Some(s) => Some(
                    (
                        FeaturedRegionView {
                            time_ms: le_u64(d, off),
                            x: le_i16(d, off + 8),
                            y: le_i16(d, off + 10),
                            width: le_i16(d, off + 12),
                            height: le_i16(d, off + 14),
                            callout: c.0,
                            sol_domain: s.0,
                        },
                        s.1,
                    ),
                ),
            },
        }
    }
}

/// `n` regions one after another from `off`, and the offset after them.
pub open spec fn parse_regions(d: Seq<u8>, off: int, n: nat) -> Option<(Seq<FeaturedRegionView>, int)>
    decreases n,
{
    if n == 0 {
        Some((Seq::empty(), off))
    } else {
        match parse_regions(d, off, (n - 1) as nat) {
            None => None,
            Some(front) => match parse_region(d, front.1) {
                None => None,
                Some(r) => Some((front.0.push(r.0), r.1)),
            },
        }
    }
}

/// The featured list at the start of `d`, if one is there.
pub open spec fn decode_featured(d: Seq<u8>) -> Option<Seq<FeaturedRegionView>> {
    if d.len() < 4 {
        None
    } else {
        match parse_regions(d, 4, le_u32(d, 0) as nat) {
            Some(p) => Some(p.0),
            None => None,
        }
    }
}

pub(crate) fn read_bytes(data: &Vec<u8>, off: usize) -> (r: Result<(Vec<u8>, usize), TapestryError>)
    ensures
        match parse_bytes(data@, off as int) {
            Some(p) => r matches Ok(q) && q.0@ == p.0 && q.1 == p.1,
            None => r == Err::<(Vec<u8>, usize), TapestryError>(TapestryError::InvalidAccountData),
        },
{
    if off > data.len() || data.len() - off < 4 {
        return Err(TapestryError::InvalidAccountData);
    }
    let n = read_u32(data, off) as usize;
    if n > data.len() - off - 4 {
        return Err(TapestryError::InvalidAccountData);
    }
    Ok((copy_range(data, off + 4, off + 4 + n), off + 4 + n))
}

pub(crate) fn read_region(data: &Vec<u8>, off: usize) -> (r: Result<(FeaturedRegion, usize), TapestryError>)
    ensures
        match parse_region(data@, off as int) {
            Some(p) => r matches Ok(q) && q.0@ == p.0 && q.1 == p.1,
            None => r == Err::<(FeaturedRegion, usize), TapestryError>(TapestryError::InvalidAccountData),
        },
{
    if off > data.len() || data.len() - off < 16 {
        return Err(TapestryError::InvalidAccountData);
    }
    let (callout, o1) = read_bytes(data, off + 16)?;
    let (sol_domain, o2) = read_bytes(data, o1)?;
    let region = FeaturedRegion {
        time_ms: read_u64(data, off),
        x: ((data[off + 8] as u16) | ((data[off + 9] as u16) << 8u16)) as i16,
        y: ((data[off + 10] as u16) | ((data[off + 11] as u16) << 8u16)) as i16,
        width: ((data[off + 12] as u16) | ((data[off + 13] as u16) << 8u16)) as i16,
        height: ((data[off + 14] as u16) | ((data[off + 15] as u16) << 8u16)) as i16,
        callout,
        sol_domain,
    };
    Ok((region, o2))
}

impl FeaturedState {
    /// Reads the featured list from the start of `data`.
    pub fn from_bytes(data: &Vec<u8>) -> (r: Result<FeaturedState, TapestryError>)
        ensures
            match decode_featured(data@) {
                Some(rs) => r matches Ok(f) && f.featured@.map_values(|g: FeaturedRegion| g@) == rs,
                None => r == Err::<FeaturedState, TapestryError>(TapestryError::InvalidAccountData),
            },
    {
        if data.len() < 4 {
            return Err(TapestryError::InvalidAccountData);
        }
        let n = read_u32(data, 0);
        let mut featured: Vec<FeaturedRegion> = Vec::new();
        let mut off: usize = 4;
        let mut i: u32 = 0;
        while i < n
            invariant
                0 <= i <= n,
                n == le_u32(data@, 0),
                data@.len() >= 4,
                parse_regions(data@, 4, i as nat) == Some(
                    (featured@.map_values(|g: FeaturedRegion| g@), off as int),
                ),
            decreases n - i,
        {
            let (region, next) = match read_region(data, off) {
                Ok(p) => p,
                Err(e) => {
                    proof {
                        assert(parse_regions(data@, 4, (i + 1) as nat) is None);
                        lemma_parse_regions_stops(data@, (i + 1) as nat, n as nat);
                    }
                    return Err(e);
                },
            };
            featured.push(region);
            off = next;
            i = i + 1;
        }
        Ok(FeaturedState { featured })
    }
}

/// Once a run of regions cannot be read, no longer run can.
pub(crate) proof fn lemma_parse_regions_stops(d: Seq<u8>, k: nat, n: nat)
    requires
        k <= n,
        parse_regions(d, 4, k) is None,
    ensures
        parse_regions(d, 4, n) is None,
    decreases n - k,
{
    if k < n {
        lemma_parse_regions_stops(d, k + 1, n);
    }
}

pub(crate) fn push_bytes(out: &mut Vec<u8>, b: &Vec<u8>)
    requires
        b@.len() <= u32::MAX,
    ensures
        final(out)@ == old(out)@ + encode_bytes(b@),
{
    push_u32(out, b.len() as u32);
    push_all(out, b);
    assert(out@ =~= old(out)@ + encode_bytes(b@));
}

/// Texts short enough to carry their length in a u32.
pub open spec fn region_encodable(r: FeaturedRegionView) -> bool {
    r.callout.len() <= u32::MAX && r.sol_domain.len() <= u32::MAX
}

pub(crate) fn push_region(out: &mut Vec<u8>, r: &FeaturedRegion)
    requires
        region_encodable(r@),
    ensures
        final(out)@ == old(out)@ + encode_region(r@),
{
    push_u64(out, r.time_ms);
    push_all(out, &i16_bytes(r.x));
    push_all(out, &i16_bytes(r.y));
    push_all(out, &i16_bytes(r.width));
    push_all(out, &i16_bytes(r.height));
    push_bytes(out, &r.callout);
    push_bytes(out, &r.sol_domain);
    assert(out@ =~= old(out)@ + encode_region(r@));
}

impl FeaturedState {
    pub open spec fn regions(&self) -> Seq<FeaturedRegionView> {
        self.featured@.map_values(|g: FeaturedRegion| g@)
    }

    /// The list's bytes.
    pub fn encode(&self) -> (r: Vec<u8>)
        requires
            self.featured@.len() <= u32::MAX,
            forall|i: int| 0 <= i < self.featured@.len() ==> region_encodable(#[trigger] self.featured@[i]@),
        ensures
            r@ == encode_featured(self.regions()),
    {
        let mut out: Vec<u8> = Vec::new();
        push_u32(&mut out, self.featured.len() as u32);
        let mut i: usize = 0;
        while i < self.featured.len()
            invariant
                0 <= i <= self.featured@.len(),
                forall|j: int| 0 <= j < self.featured@.len() ==> region_encodable(#[trigger] self.featured@[j]@),
                out@ == u32_le_bytes(self.featured@.len() as u32) + encode_regions(
                    self.regions().take(i as int),
                ),
            decreases self.featured@.len() - i,
        {
            push_region(&mut out, &self.featured[i]);
            proof {
                let next = self.regions().take(i + 1);
                assert(next.drop_last() =~= self.regions().take(i as int));
                assert(next.last() == self.featured@[i as int]@);
            }
            i = i + 1;
        }
        assert(self.regions().take(self.featured@.len() as int) =~= self.regions());
        out
    }
}

/// Every region read from bytes has texts whose lengths fit a u32.
pub(crate) proof fn lemma_parsed_regions_encodable(d: Seq<u8>, off: int, n: nat)
    ensures
        parse_regions(d, off, n) matches Some(p) ==> forall|i: int|
            0 <= i < p.0.len() ==> region_encodable(#[trigger] p.0[i]),
    decreases n,
{
    if n > 0 {
        lemma_parsed_regions_encodable(d, off, (n - 1) as nat);
        if let Some(front) = parse_regions(d, off, (n - 1) as nat) {
            if let Some(r) = parse_region(d, front.1) {
                let c = parse_bytes(d, front.1 + 16)->Some_0;
                let t = parse_bytes(d, c.1)->Some_0;
                assert(r.0.callout.len() == le_u32(d, front.1 + 16));
                assert(r.0.sol_domain.len() == le_u32(d, c.1));
                assert(region_encodable(r.0));
                let all = front.0.push(r.0);
                assert forall|i: int| 0 <= i < all.len() implies region_encodable(#[trigger] all[i]) by {
                    if i < front.0.len() {
                        assert(all[i] == front.0[i]);
                    }
                }
            }
        }
    }
}

} // verus!
