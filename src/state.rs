//! The persisted records and their fixed byte layouts. Every record starts
//! with a type tag that each read checks.
use vstd::prelude::*;
use crate::bytes::{
    copy_range, le_u32, le_u64, lemma_le_u32_window, lemma_le_u64_window, lemma_u32_round_trip,
    lemma_u64_round_trip, push_all, push_u32, push_u64, read_u32, read_u64, u32_le_bytes,
    u64_le_bytes, zeros,
};
use crate::error::PlaceError;
use crate::pubkey::Pubkey;

verus! {

/// Identifies a record's kind in the first byte of its data.
#[derive(Clone, Copy, Debug, PartialEq, Eq, Structural)]
pub enum PlaceAccountType {
    Uninitialized,
    PlaceState,
    Patch,
    GameplayTokenMeta,
}

/// The tag byte of each record kind.
pub open spec fn tag_of(t: PlaceAccountType) -> u8 {
    match t {
        PlaceAccountType::Uninitialized => 0,
        PlaceAccountType::PlaceState => 1,
        PlaceAccountType::Patch => 2,
        PlaceAccountType::GameplayTokenMeta => 3,
    }
}

/// The record kind a tag byte names; the blank tag stands for storage not yet
/// populated.
pub open spec fn type_of_tag(b: u8, expected: PlaceAccountType) -> PlaceAccountType {
    if b == 0 {
        PlaceAccountType::Uninitialized
    } else {
        expected
    }
}

/// A tag byte is accepted where a record of kind `expected` is read.
pub open spec fn tag_accepted(b: u8, expected: PlaceAccountType) -> bool {
    b == tag_of(expected) || b == 0
}

impl PlaceAccountType {
    pub fn tag(&self) -> (r: u8)
        ensures
            r == tag_of(*self),
    {
        match self {
            PlaceAccountType::Uninitialized => 0,
            PlaceAccountType::PlaceState => 1,
            PlaceAccountType::Patch => 2,
            PlaceAccountType::GameplayTokenMeta => 3,
        }
    }
}

/// The kinds of gameplay token.
#[derive(Clone, Copy, Debug, PartialEq, Eq, Structural)]
pub enum GameplayTokenType {
    PaintBrush,
    Bomb,
}

pub open spec fn token_type_byte(t: GameplayTokenType) -> u8 {
    match t {
        GameplayTokenType::PaintBrush => 0,
        GameplayTokenType::Bomb => 1,
    }
}

pub open spec fn bool_byte(b: bool) -> u8 {
    if b {
        1
    } else {
        0
    }
}

pub const DEFAULT_IS_FROZEN: bool = false;

/// In lamports.
pub const DEFAULT_PAINTBRUSH_PRICE: u64 = 2_000_000;

/// In slots.
pub const DEFAULT_PAINTBRUSH_COOLDOWN: u64 = 600;

/// In lamports.
pub const DEFAULT_BOMB_PRICE: u64 = 500_000_000;

/// Royalty tokens a gameplay token earns with each pixel write.
pub const ROYALTY_TOKENS_PER_WRITE: u32 = 1;

pub const PLACE_HEIGHT_PX: u16 = 1000;

pub const PLACE_WIDTH_PX: u16 = 1000;

/// Side of a square patch, in pixels.
pub const PATCH_SIZE_PX: usize = 20;

/// Patches along the x axis: PLACE_WIDTH_PX / PATCH_SIZE_PX.
pub const MAX_X_PATCH: u8 = 50;

/// Patches along the y axis: PLACE_HEIGHT_PX / PATCH_SIZE_PX.
pub const MAX_Y_PATCH: u8 = 50;

/// Pixels in a patch.
pub const PATCH_PIXELS: usize = 400;

/// Bytes of a settings record: tag, owner, frozen flag, three u64.
pub const PLACE_STATE_LEN: usize = 58;

/// Bytes of a patch record: tag, x, y, u32 pixel count, pixels.
pub const PATCH_DATA_LEN: usize = 407;

/// Bytes of a gameplay token record: tag, kind, two u64, mint, two u64, u32.
pub const GAMEPLAY_TOKEN_META_LEN: usize = 70;

// ---------------------------------------------------------------- settings

/// The global settings record.
#[derive(Clone, Copy, Debug, PartialEq, Eq)]
pub struct PlaceState {
    pub acct_type: PlaceAccountType,
    /// Who may change the settings.
    pub owner: Pubkey,
    pub is_frozen: bool,
    /// Price of a paintbrush, in lamports.
    pub paintbrush_price: u64,
    /// Cooldown given to new paintbrushes, in slots.
    pub paintbrush_cooldown: u64,
    /// Price of a bomb, in lamports.
    pub bomb_price: u64,
}

pub struct PlaceStateView {
    pub acct_type: PlaceAccountType,
    pub owner: Seq<u8>,
    pub is_frozen: bool,
    pub paintbrush_price: u64,
    pub paintbrush_cooldown: u64,
    pub bomb_price: u64,
}

impl View for PlaceState {
    type V = PlaceStateView;

    open spec fn view(&self) -> PlaceStateView {
        PlaceStateView {
            acct_type: self.acct_type,
            owner: self.owner@,
            is_frozen: self.is_frozen,
            paintbrush_price: self.paintbrush_price,
            paintbrush_cooldown: self.paintbrush_cooldown,
            bomb_price: self.bomb_price,
        }
    }
}

/// The bytes of a settings record.
pub open spec fn encode_place_state(s: PlaceStateView) -> Seq<u8> {
    seq![tag_of(s.acct_type)] + s.owner + seq![bool_byte(s.is_frozen)] + u64_le_bytes(
        s.paintbrush_price,
    ) + u64_le_bytes(s.paintbrush_cooldown) + u64_le_bytes(s.bomb_price)
}

/// The settings record that `d` holds, if it holds one.
pub open spec fn decode_place_state(d: Seq<u8>) -> Option<PlaceStateView> {
    if d.len() == PLACE_STATE_LEN && tag_accepted(d[0], PlaceAccountType::PlaceState) && d[33]
        <= 1 {
        Some(
            PlaceStateView {
                acct_type: type_of_tag(d[0], PlaceAccountType::PlaceState),
                owner: d.subrange(1, 33),
                is_frozen: d[33] == 1,
                paintbrush_price: le_u64(d, 34),
                paintbrush_cooldown: le_u64(d, 42),
                bomb_price: le_u64(d, 50),
            },
        )
    } else {
        None
    }
}

/// A settings record whose kind may be stored.
pub open spec fn place_state_storable(s: PlaceStateView) -> bool {
    &&& s.owner.len() == 32
    &&& (s.acct_type == PlaceAccountType::PlaceState || s.acct_type
        == PlaceAccountType::Uninitialized)
}

/// Decoding the bytes of a settings record gives the record back.
pub proof fn lemma_place_state_round_trip(s: PlaceStateView)
    requires
        place_state_storable(s),
    ensures
        decode_place_state(encode_place_state(s)) == Some(s),
{
    let e = encode_place_state(s);
    assert(e.len() == PLACE_STATE_LEN);
    assert(e.subrange(1, 33) =~= s.owner);
    assert(e[33] == bool_byte(s.is_frozen));
    lemma_le_u64_window(e, u64_le_bytes(s.paintbrush_price), 34);
    lemma_le_u64_window(e, u64_le_bytes(s.paintbrush_cooldown), 42);
    lemma_le_u64_window(e, u64_le_bytes(s.bomb_price), 50);
    lemma_u64_round_trip(s.paintbrush_price);
    lemma_u64_round_trip(s.paintbrush_cooldown);
    lemma_u64_round_trip(s.bomb_price);
}

impl PlaceState {
    /// The record's bytes.
    pub fn encode(&self) -> (r: Vec<u8>)
        ensures
            r@ == encode_place_state(self@),
    {
        let mut out: Vec<u8> = Vec::new();
        out.push(self.acct_type.tag());
        let owner = self.owner.to_vec();
        push_all(&mut out, &owner);
        out.push(if self.is_frozen { 1u8 } else { 0u8 });
        push_u64(&mut out, self.paintbrush_price);
        push_u64(&mut out, self.paintbrush_cooldown);
        push_u64(&mut out, self.bomb_price);
        assert(out@ =~= encode_place_state(self@));
        out
    }

    /// Reads a settings record, checking its tag and length.
    pub fn from_bytes(data: &Vec<u8>) -> (r: Result<PlaceState, PlaceError>)
        ensures
            match r {
                Ok(s) => decode_place_state(data@) == Some(s@),
                Err(e) => decode_place_state(data@) is None && e
                    == PlaceError::AccountDataTypeMismatch,
            },
    {
        if data.len() != PLACE_STATE_LEN || (data[0] != 1 && data[0] != 0) || data[33] > 1 {
            return Err(PlaceError::AccountDataTypeMismatch);
        }
        let s = PlaceState {
            acct_type: if data[0] == 0 {
                PlaceAccountType::Uninitialized
            } else {
                PlaceAccountType::PlaceState
            },
            owner: Pubkey::read_from(data, 1),
            is_frozen: data[33] == 1,
            paintbrush_price: read_u64(data, 34),
            paintbrush_cooldown: read_u64(data, 42),
            bomb_price: read_u64(data, 50),
        };
        assert(decode_place_state(data@) == Some(s@));
        Ok(s)
    }
}

// ---------------------------------------------------------------- gameplay tokens

/// The record of one purchased gameplay token.
#[derive(Clone, Copy, Debug, PartialEq, Eq)]
pub struct GameplayTokenMeta {
    pub acct_type: PlaceAccountType,
    pub gameplay_type: GameplayTokenType,
    /// Slot of the purchase.
    pub created_at_slot: u64,
    /// The seed the record's address was derived from.
    pub random_seed: u64,
    /// The single-supply mint whose holder may use this token.
    pub token_mint_pda: Pubkey,
    /// First slot at which the token may write again.
    pub update_allowed_slot: u64,
    /// Slots to wait after each write.
    pub cooldown_duration: u64,
    /// Royalty tokens earned and not yet claimed.
    pub royalty_tokens_owed: u32,
}

pub struct GameplayTokenMetaView {
    pub acct_type: PlaceAccountType,
    pub gameplay_type: GameplayTokenType,
    pub created_at_slot: u64,
    pub random_seed: u64,
    pub token_mint_pda: Seq<u8>,
    pub update_allowed_slot: u64,
    pub cooldown_duration: u64,
    pub royalty_tokens_owed: u32,
}

impl View for GameplayTokenMeta {
    type V = GameplayTokenMetaView;

    open spec fn view(&self) -> GameplayTokenMetaView {
        GameplayTokenMetaView {
            acct_type: self.acct_type,
            gameplay_type: self.gameplay_type,
            created_at_slot: self.created_at_slot,
            random_seed: self.random_seed,
            token_mint_pda: self.token_mint_pda@,
            update_allowed_slot: self.update_allowed_slot,
            cooldown_duration: self.cooldown_duration,
            royalty_tokens_owed: self.royalty_tokens_owed,
        }
    }
}

/// The bytes of a gameplay token record.
pub open spec fn encode_meta(m: GameplayTokenMetaView) -> Seq<u8> {
    seq![tag_of(m.acct_type), token_type_byte(m.gameplay_type)] + u64_le_bytes(m.created_at_slot)
        + u64_le_bytes(m.random_seed) + m.token_mint_pda + u64_le_bytes(m.update_allowed_slot)
        + u64_le_bytes(m.cooldown_duration) + u32_le_bytes(m.royalty_tokens_owed)
}

/// The gameplay token record that `d` holds, if it holds one.
pub open spec fn decode_meta(d: Seq<u8>) -> Option<GameplayTokenMetaView> {
    if d.len() == GAMEPLAY_TOKEN_META_LEN && tag_accepted(
        d[0],
        PlaceAccountType::GameplayTokenMeta,
    ) && d[1] <= 1 {
        Some(
            GameplayTokenMetaView {
                acct_type: type_of_tag(d[0], PlaceAccountType::GameplayTokenMeta),
                gameplay_type: if d[1] == 0 {
                    GameplayTokenType::PaintBrush
                } else {
                    GameplayTokenType::Bomb
                },
                created_at_slot: le_u64(d, 2),
                random_seed: le_u64(d, 10),
                token_mint_pda: d.subrange(18, 50),
                update_allowed_slot: le_u64(d, 50),
                cooldown_duration: le_u64(d, 58),
                royalty_tokens_owed: le_u32(d, 66),
            },
        )
    } else {
        None
    }
}

/// A gameplay token record whose kind may be stored.
pub open spec fn meta_storable(m: GameplayTokenMetaView) -> bool {
    &&& m.token_mint_pda.len() == 32
    &&& (m.acct_type == PlaceAccountType::GameplayTokenMeta || m.acct_type
        == PlaceAccountType::Uninitialized)
}

/// Decoding the bytes of a gameplay token record gives the record back.
pub proof fn lemma_meta_round_trip(m: GameplayTokenMetaView)
    requires
        meta_storable(m),
    ensures
        decode_meta(encode_meta(m)) == Some(m),
{
    let e = encode_meta(m);
    assert(e.len() == GAMEPLAY_TOKEN_META_LEN);
    assert(e[1] == token_type_byte(m.gameplay_type));
    assert(e.subrange(18, 50) =~= m.token_mint_pda);
    lemma_le_u64_window(e, u64_le_bytes(m.created_at_slot), 2);
    lemma_le_u64_window(e, u64_le_bytes(m.random_seed), 10);
    lemma_le_u64_window(e, u64_le_bytes(m.update_allowed_slot), 50);
    lemma_le_u64_window(e, u64_le_bytes(m.cooldown_duration), 58);
    lemma_le_u32_window(e, u32_le_bytes(m.royalty_tokens_owed), 66);
    lemma_u64_round_trip(m.created_at_slot);
    lemma_u64_round_trip(m.random_seed);
    lemma_u64_round_trip(m.update_allowed_slot);
    lemma_u64_round_trip(m.cooldown_duration);
    lemma_u32_round_trip(m.royalty_tokens_owed);
}

/// The display name registered for a token's mint.
pub open spec fn token_name_of(t: GameplayTokenType) -> Seq<char> {
    match t {
        GameplayTokenType::PaintBrush => "Tapestry Paintbrush"@,
        GameplayTokenType::Bomb => "Tapestry Bomb"@,
    }
}

/// The metadata document registered for a token's mint.
pub open spec fn token_uri_of(t: GameplayTokenType) -> Seq<char> {
    match t {
        GameplayTokenType::PaintBrush => "http://localhost:8080/paintbrush.json"@,
        GameplayTokenType::Bomb => "http://localhost:8080/bomb.json"@,
    }
}

impl GameplayTokenType {
    /// The display name registered for the token's mint.
    pub fn token_name(&self) -> (r: &'static str)
        ensures
            r@ == token_name_of(*self),
    {
        match self {
            GameplayTokenType::PaintBrush => "Tapestry Paintbrush",
            GameplayTokenType::Bomb => "Tapestry Bomb",
        }
    }

    /// The metadata document registered for the token's mint.
    pub fn token_uri(&self) -> (r: &'static str)
        ensures
            r@ == token_uri_of(*self),
    {
        match self {
            GameplayTokenType::PaintBrush => "http://localhost:8080/paintbrush.json",
            GameplayTokenType::Bomb => "http://localhost:8080/bomb.json",
        }
    }

    pub fn to_byte(&self) -> (r: u8)
        ensures
            r == token_type_byte(*self),
    {
        match self {
            GameplayTokenType::PaintBrush => 0,
            GameplayTokenType::Bomb => 1,
        }
    }
}

impl GameplayTokenMeta {
    /// The record's bytes.
    pub fn encode(&self) -> (r: Vec<u8>)
        ensures
            r@ == encode_meta(self@),
    {
        let mut out: Vec<u8> = Vec::new();
        out.push(self.acct_type.tag());
        out.push(self.gameplay_type.to_byte());
        push_u64(&mut out, self.created_at_slot);
        push_u64(&mut out, self.random_seed);
        let mint = self.token_mint_pda.to_vec();
        push_all(&mut out, &mint);
        push_u64(&mut out, self.update_allowed_slot);
        push_u64(&mut out, self.cooldown_duration);
        push_u32(&mut out, self.royalty_tokens_owed);
        assert(out@ =~= encode_meta(self@));
        out
    }

    /// Reads a gameplay token record, checking its tag and length.
    pub fn from_bytes(data: &Vec<u8>) -> (r: Result<GameplayTokenMeta, PlaceError>)
        ensures
            match r {
                Ok(m) => decode_meta(data@) == Some(m@),
                Err(e) => decode_meta(data@) is None && e == PlaceError::AccountDataTypeMismatch,
            },
    {
        if data.len() != GAMEPLAY_TOKEN_META_LEN || (data[0] != 3 && data[0] != 0) || data[1] > 1 {
            return Err(PlaceError::AccountDataTypeMismatch);
        }
        let m = GameplayTokenMeta {
            acct_type: if data[0] == 0 {
                PlaceAccountType::Uninitialized
            } else {
                PlaceAccountType::GameplayTokenMeta
            },
            gameplay_type: if data[1] == 0 {
                GameplayTokenType::PaintBrush
            } else {
                GameplayTokenType::Bomb
            },
            created_at_slot: read_u64(data, 2),
            random_seed: read_u64(data, 10),
            token_mint_pda: Pubkey::read_from(data, 18),
            update_allowed_slot: read_u64(data, 50),
            cooldown_duration: read_u64(data, 58),
            royalty_tokens_owed: read_u32(data, 66),
        };
        assert(decode_meta(data@) == Some(m@));
        Ok(m)
    }
}

// ---------------------------------------------------------------- patches

/// One square tile of the canvas; the canvas is split in tiles so that
/// writers of different tiles never contend.
#[derive(Clone, Debug, PartialEq, Eq)]
pub struct Patch {
    pub acct_type: PlaceAccountType,
    /// Column of the tile.
    pub x: u8,
    /// Row of the tile.
    pub y: u8,
    /// Pixels in row-major order.
    pub pixels: Vec<u8>,
}

pub struct PatchView {
    pub acct_type: PlaceAccountType,
    pub x: u8,
    pub y: u8,
    pub pixels: Seq<u8>,
}

impl View for Patch {
    type V = PatchView;

    open spec fn view(&self) -> PatchView {
        PatchView { acct_type: self.acct_type, x: self.x, y: self.y, pixels: self.pixels@ }
    }
}

/// A tile of all-zero pixels at `(x, y)`.
pub open spec fn blank_patch(x: u8, y: u8) -> PatchView {
    PatchView {
        acct_type: PlaceAccountType::Patch,
        x,
        y,
        pixels: Seq::new(PATCH_PIXELS as nat, |i: int| 0u8),
    }
}

/// Position of pixel `(x_offset, y_offset)` in the row-major buffer.
pub open spec fn pixel_index(x_offset: u8, y_offset: u8) -> int {
    y_offset * PATCH_SIZE_PX + x_offset
}

/// Whether `(x_offset, y_offset)` lies inside a tile.
pub open spec fn offset_in_patch(x_offset: u8, y_offset: u8) -> bool {
    x_offset < PATCH_SIZE_PX && y_offset < PATCH_SIZE_PX
}

/// The tile with one pixel changed.
pub open spec fn patch_with_pixel(p: PatchView, x_offset: u8, y_offset: u8, pixel: u8) -> PatchView {
    PatchView { pixels: p.pixels.update(pixel_index(x_offset, y_offset), pixel), ..p }
}

/// The bytes of a patch record.
pub open spec fn encode_patch(p: PatchView) -> Seq<u8> {
    seq![tag_of(p.acct_type), p.x, p.y] + u32_le_bytes(p.pixels.len() as u32) + p.pixels
}

/// The patch record that `d` holds, if it holds one.
pub open spec fn decode_patch(d: Seq<u8>) -> Option<PatchView> {
    if d.len() == PATCH_DATA_LEN && tag_accepted(d[0], PlaceAccountType::Patch) && le_u32(d, 3)
        == PATCH_PIXELS {
        Some(
            PatchView {
                acct_type: type_of_tag(d[0], PlaceAccountType::Patch),
                x: d[1],
                y: d[2],
                pixels: d.subrange(7, PATCH_DATA_LEN as int),
            },
        )
    } else {
        None
    }
}

/// A patch record whose kind and size may be stored.
pub open spec fn patch_storable(p: PatchView) -> bool {
    &&& p.pixels.len() == PATCH_PIXELS
    &&& (p.acct_type == PlaceAccountType::Patch || p.acct_type == PlaceAccountType::Uninitialized)
}

/// Decoding the bytes of a patch record gives the record back.
pub proof fn lemma_patch_round_trip(p: PatchView)
    requires
        patch_storable(p),
    ensures
        decode_patch(encode_patch(p)) == Some(p),
{
    let e = encode_patch(p);
    assert(e.len() == PATCH_DATA_LEN);
    assert(e.subrange(7, PATCH_DATA_LEN as int) =~= p.pixels);
    lemma_le_u32_window(e, u32_le_bytes(p.pixels.len() as u32), 3);
    lemma_u32_round_trip(p.pixels.len() as u32);
}

impl Patch {
    pub open spec fn wf(&self) -> bool {
        self.pixels@.len() == PATCH_PIXELS
    }

    /// A blank tile at `(x, y)`.
    pub fn new(x: u8, y: u8) -> (r: Patch)
        ensures
            r@ == blank_patch(x, y),
            r.wf(),
    {
        Patch { acct_type: PlaceAccountType::Patch, x, y, pixels: zeros(PATCH_PIXELS) }
    }

    /// The record's bytes.
    pub fn encode(&self) -> (r: Vec<u8>)
        ensures
            r@ == encode_patch(self@),
    {
        let mut out: Vec<u8> = Vec::new();
        out.push(self.acct_type.tag());
        out.push(self.x);
        out.push(self.y);
        push_u32(&mut out, self.pixels.len() as u32);
        push_all(&mut out, &self.pixels);
        assert(out@ =~= encode_patch(self@));
        out
    }

    /// Reads a patch record, checking its tag, length and pixel count.
    pub fn from_bytes(data: &Vec<u8>) -> (r: Result<Patch, PlaceError>)
        ensures
            match r {
                Ok(p) => decode_patch(data@) == Some(p@) && p.wf(),
                Err(e) => decode_patch(data@) is None && e == PlaceError::AccountDataTypeMismatch,
            },
    {
        if data.len() != PATCH_DATA_LEN || (data[0] != 2 && data[0] != 0) || read_u32(data, 3)
            != 400 {
            return Err(PlaceError::AccountDataTypeMismatch);
        }
        let p = Patch {
            acct_type: if data[0] == 0 {
                PlaceAccountType::Uninitialized
            } else {
                PlaceAccountType::Patch
            },
            x: data[1],
            y: data[2],
            pixels: copy_range(data, 7, PATCH_DATA_LEN),
        };
        assert(decode_patch(data@) == Some(p@));
        Ok(p)
    }

    /// Sets the pixel at `(x_offset, y_offset)` of this tile.
    pub fn set_pixel(&mut self, x_offset: u8, y_offset: u8, pixel: u8) -> (r: Result<(), PlaceError>)
        requires
            old(self).wf(),
        ensures
            final(self).wf(),
            r is Ok <==> offset_in_patch(x_offset, y_offset),
            r is Ok ==> final(self)@ == patch_with_pixel(old(self)@, x_offset, y_offset, pixel),
            r is Err ==> r == Err::<(), PlaceError>(PlaceError::InvalidPixelOffset) && final(self)@
                == old(self)@,
    {
        if x_offset as usize >= PATCH_SIZE_PX || y_offset as usize >= PATCH_SIZE_PX {
            return Err(PlaceError::InvalidPixelOffset);
        }
        let idx: usize = (y_offset as usize) * PATCH_SIZE_PX + (x_offset as usize);
        self.pixels[idx] = pixel;
        Ok(())
    }
}

/// Setting pixel `(0, 0)` changes index 0 of the buffer to the new value and
/// leaves every other index as it was.
pub proof fn lemma_set_origin_pixel(p: PatchView, pixel: u8)
    requires
        p.pixels.len() == PATCH_PIXELS,
    ensures
        patch_with_pixel(p, 0, 0, pixel).pixels.len() == PATCH_PIXELS,
        patch_with_pixel(p, 0, 0, pixel).pixels[0] == pixel,
        forall|i: int|
            0 < i < PATCH_PIXELS ==> #[trigger] patch_with_pixel(p, 0, 0, pixel).pixels[i]
                == p.pixels[i],
{
}

} // verus!
