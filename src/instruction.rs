//! The instructions of the canvas program and their arguments.
use vstd::prelude::*;
use crate::bytes::{le_u64, lemma_le_u64_window, lemma_u64_round_trip, push_u64, read_u64, u64_le_bytes};
use crate::error::PlaceError;
use crate::pubkey::Pubkey;
use crate::state::{bool_byte, token_type_byte, GameplayTokenType};

verus! {

/// Settings to change; an absent field keeps its value (or takes its
/// default when the settings are created).
#[derive(Clone, Copy, Debug, PartialEq, Eq)]
pub struct UpdatePlaceStateDataArgs {
    pub new_owner: Option<Pubkey>,
    pub is_frozen: Option<bool>,
    pub paintbrush_price: Option<u64>,
    pub paintbrush_cooldown: Option<u64>,
    pub bomb_price: Option<u64>,
}

/// The tile to allocate.
#[derive(Clone, Copy, Debug, PartialEq, Eq)]
pub struct InitPatchDataArgs {
    pub x_patch: u8,
    pub y_patch: u8,
}

#[derive(Clone, Copy, Debug, PartialEq, Eq)]
pub struct PurchaseGameplayTokenDataArgs {
    pub token_type: GameplayTokenType,
    /// Key material of the token's record address.
    pub random_seed: u64,
    /// The price the buyer expects to pay.
    pub desired_price: u64,
}

/// Tile `(x, y)`, pixel `(x_offset, y_offset)` inside it, and the palette
/// index to write there.
#[derive(Clone, Copy, Debug, PartialEq, Eq)]
pub struct SetPixelDataArgs {
    pub x: u8,
    pub y: u8,
    pub x_offset: u8,
    pub y_offset: u8,
    pub pixel: u8,
}

#[derive(Clone, Copy, Debug, PartialEq, Eq)]
pub struct InitMintDataArgs {}

#[derive(Clone, Copy, Debug, PartialEq, Eq)]
pub struct ClaimTokensDataArgs {}

/// One call of the canvas program.
#[derive(Clone, Copy, Debug, PartialEq, Eq)]
pub enum PlaceInstruction {
    UpdatePlaceState(UpdatePlaceStateDataArgs),
    InitPatch(InitPatchDataArgs),
    PurchaseGameplayToken(PurchaseGameplayTokenDataArgs),
    SetPixel(SetPixelDataArgs),
    InitMint(InitMintDataArgs),
    ClaimTokens(ClaimTokensDataArgs),
}

// ---------------------------------------------------------------- wire format
// A one-byte variant tag, then the fields in order: integers little-endian,
// an optional value as a presence byte (0 or 1) and the value, no padding.

/// The key whose bytes are `s`.
pub open spec fn key_of(s: Seq<u8>) -> Pubkey {
    choose|k: Pubkey| k@ == s
}

/// A key is determined by its bytes.
pub proof fn lemma_key_of(k: Pubkey)
    ensures
        key_of(k@) == k,
{
    let c = key_of(k@);
    assert(c@ == k@);
    assert(c.bytes =~= k.bytes);
}

pub open spec fn encode_opt_key(o: Option<Pubkey>) -> Seq<u8> {
    match o {
        None => seq![0u8],
        Some(k) => seq![1u8] + k@,
    }
}

pub open spec fn encode_opt_bool(o: Option<bool>) -> Seq<u8> {
    match o {
        None => seq![0u8],
        Some(b) => seq![1u8, bool_byte(b)],
    }
}

pub open spec fn encode_opt_u64(o: Option<u64>) -> Seq<u8> {
    match o {
        None => seq![0u8],
        Some(v) => seq![1u8] + u64_le_bytes(v),
    }
}

pub open spec fn encode_update_args(a: UpdatePlaceStateDataArgs) -> Seq<u8> {
    encode_opt_key(a.new_owner) + encode_opt_bool(a.is_frozen) + encode_opt_u64(a.paintbrush_price)
        + encode_opt_u64(a.paintbrush_cooldown) + encode_opt_u64(a.bomb_price)
}

/// The bytes of an instruction.
pub open spec fn encode_instruction(ix: PlaceInstruction) -> Seq<u8> {
    match ix {
        PlaceInstruction::UpdatePlaceState(a) => seq![0u8] + encode_update_args(a),
        PlaceInstruction::InitPatch(a) => seq![1u8, a.x_patch, a.y_patch],
        PlaceInstruction::PurchaseGameplayToken(a) => seq![2u8, token_type_byte(a.token_type)]
            + u64_le_bytes(a.random_seed) + u64_le_bytes(a.desired_price),
        PlaceInstruction::SetPixel(a) => seq![3u8, a.x, a.y, a.x_offset, a.y_offset, a.pixel],
        PlaceInstruction::InitMint(_) => seq![4u8],
        PlaceInstruction::ClaimTokens(_) => seq![5u8],
    }
}

/// An optional key at `off`, and the offset after it.
pub open spec fn parse_opt_key(d: Seq<u8>, off: int) -> Option<(Option<Pubkey>, int)> {
    if off >= d.len() {
        None
    } else if d[off] == 0 {
        Some((None, off + 1))
    } else if d[off] == 1 && off + 33 <= d.len() {
        Some((Some(key_of(d.subrange(off + 1, off + 33))), off + 33))
    } else {
        None
    }
}

/// An optional bool at `off`, and the offset after it.
pub open spec fn parse_opt_bool(d: Seq<u8>, off: int) -> Option<(Option<bool>, int)> {
    if off >= d.len() {
        None
    } else if d[off] == 0 {
        Some((None, off + 1))
    } else if d[off] == 1 && off + 2 <= d.len() && d[off + 1] <= 1 {
        Some((Some(d[off + 1] == 1), off + 2))
    } else {
        None
    }
}

/// An optional u64 at `off`, and the offset after it.
pub open spec fn parse_opt_u64(d: Seq<u8>, off: int) -> Option<(Option<u64>, int)> {
    if off >= d.len() {
        None
    } else if d[off] == 0 {
        Some((None, off + 1))
    } else if d[off] == 1 && off + 9 <= d.len() {
        Some((Some(le_u64(d, off + 1)), off + 9))
    } else {
        None
    }
}

/// Settings arguments filling `d` from `off` to its end.
pub open spec fn parse_update_args(d: Seq<u8>, off: int) -> Option<UpdatePlaceStateDataArgs> {
    match parse_opt_key(d, off) {
        None => None,
        Some(a) => match parse_opt_bool(d, a.1) {
            None => None,
            Some(b) => match parse_opt_u64(d, b.1) {
                None => None,
                Some(c) => match parse_opt_u64(d, c.1) {
                    None => None,
                    Some(e) => match parse_opt_u64(d, e.1) {
                        None => None,
                        Some(f) => if f.1 == d.len() {
                            Some(
                                UpdatePlaceStateDataArgs {
                                    new_owner: a.0,
                                    is_frozen: b.0,
                                    paintbrush_price: c.0,
                                    paintbrush_cooldown: e.0,
                                    bomb_price: f.0,
                                },
                            )
                        } else {
                            None
                        },
                    },
                },
            },
        },
    }
}

/// The instruction that `d` holds, if it holds exactly one.
pub open spec fn decode_instruction(d: Seq<u8>) -> Option<PlaceInstruction> {
    if d.len() == 0 {
        None
    } else if d[0] == 0 {
        match parse_update_args(d, 1) {
            Some(a) => Some(PlaceInstruction::UpdatePlaceState(a)),
            None => None,
        }
    } else if d[0] == 1 {
        if d.len() == 3 {
            Some(PlaceInstruction::InitPatch(InitPatchDataArgs { x_patch: d[1], y_patch: d[2] }))
        } else {
            None
        }
    } else if d[0] == 2 {
        if d.len() == 18 && d[1] <= 1 {
            Some(
                PlaceInstruction::PurchaseGameplayToken(
                    PurchaseGameplayTokenDataArgs {
                        token_type: if d[1] == 0 {
                            GameplayTokenType::PaintBrush
                        } else {
                            GameplayTokenType::Bomb
                        },
                        random_seed: le_u64(d, 2),
                        desired_price: le_u64(d, 10),
                    },
                ),
            )
        } else {
            None
        }
    } else if d[0] == 3 {
        if d.len() == 6 {
            Some(
                PlaceInstruction::SetPixel(
                    SetPixelDataArgs { x: d[1], y: d[2], x_offset: d[3], y_offset: d[4], pixel: d[5] },
                ),
            )
        } else {
            None
        }
    } else if d[0] == 4 {
        if d.len() == 1 {
            Some(PlaceInstruction::InitMint(InitMintDataArgs {  }))
        } else {
            None
        }
    } else if d[0] == 5 {
        if d.len() == 1 {
            Some(PlaceInstruction::ClaimTokens(ClaimTokensDataArgs {  }))
        } else {
            None
        }
    } else {
        None
    }
}

proof fn lemma_parse_opt_key(d: Seq<u8>, off: int, o: Option<Pubkey>)
    requires
        0 <= off,
        off + encode_opt_key(o).len() <= d.len(),
        d.subrange(off, off + encode_opt_key(o).len()) == encode_opt_key(o),
    ensures
        parse_opt_key(d, off) == Some((o, off + encode_opt_key(o).len())),
{
    let e = encode_opt_key(o);
    assert(d[off] == e[0]);
    if let Some(k) = o {
        assert(d.subrange(off + 1, off + 33) =~= k@) by {
            assert forall|i: int| 0 <= i < 32 implies d.subrange(off + 1, off + 33)[i] == k@[i] by {
                assert(d[off + 1 + i] == e[1 + i]);
            }
        }
        lemma_key_of(k);
    }
}

proof fn lemma_parse_opt_bool(d: Seq<u8>, off: int, o: Option<bool>)
    requires
        0 <= off,
        off + encode_opt_bool(o).len() <= d.len(),
        d.subrange(off, off + encode_opt_bool(o).len()) == encode_opt_bool(o),
    ensures
        parse_opt_bool(d, off) == Some((o, off + encode_opt_bool(o).len())),
{
    let e = encode_opt_bool(o);
    assert(d[off] == e[0]);
    if o is Some {
        assert(d[off + 1] == e[1]);
    }
}

proof fn lemma_parse_opt_u64(d: Seq<u8>, off: int, o: Option<u64>)
    requires
        0 <= off,
        off + encode_opt_u64(o).len() <= d.len(),
        d.subrange(off, off + encode_opt_u64(o).len()) == encode_opt_u64(o),
    ensures
        parse_opt_u64(d, off) == Some((o, off + encode_opt_u64(o).len())),
{
    let e = encode_opt_u64(o);
    assert(d[off] == e[0]);
    if let Some(v) = o {
        assert(d.subrange(off + 1, off + 9) =~= u64_le_bytes(v)) by {
            assert forall|i: int| 0 <= i < 8 implies d.subrange(off + 1, off + 9)[i]
                == u64_le_bytes(v)[i] by {
                assert(d[off + 1 + i] == e[1 + i]);
            }
        }
        lemma_le_u64_window(d, u64_le_bytes(v), off + 1);
        lemma_u64_round_trip(v);
    }
}

proof fn lemma_update_args_round_trip(a: UpdatePlaceStateDataArgs)
    ensures
        parse_update_args(seq![0u8] + encode_update_args(a), 1) == Some(a),
{
    let d = seq![0u8] + encode_update_args(a);
    let k = encode_opt_key(a.new_owner);
    let b = encode_opt_bool(a.is_frozen);
    let c = encode_opt_u64(a.paintbrush_price);
    let e = encode_opt_u64(a.paintbrush_cooldown);
    let f = encode_opt_u64(a.bomb_price);
    let o1: int = 1 + k.len() as int;
    let o2: int = o1 + b.len();
    let o3: int = o2 + c.len();
    let o4: int = o3 + e.len();
    assert(d =~= seq![0u8] + k + b + c + e + f);
    assert(d.len() == o4 + f.len());
    assert(d.subrange(1, o1) =~= k);
    lemma_parse_opt_key(d, 1, a.new_owner);
    assert(d.subrange(o1, o2) =~= b);
    lemma_parse_opt_bool(d, o1, a.is_frozen);
    assert(d.subrange(o2, o3) =~= c);
    lemma_parse_opt_u64(d, o2, a.paintbrush_price);
    assert(d.subrange(o3, o4) =~= e);
    lemma_parse_opt_u64(d, o3, a.paintbrush_cooldown);
    assert(d.subrange(o4, o4 + f.len()) =~= f);
    lemma_parse_opt_u64(d, o4, a.bomb_price);
}

/// Decoding the bytes of an instruction gives the instruction back.
pub proof fn lemma_instruction_round_trip(ix: PlaceInstruction)
    ensures
        decode_instruction(encode_instruction(ix)) == Some(ix),
{
    let d = encode_instruction(ix);
    match ix {
        PlaceInstruction::UpdatePlaceState(a) => {
            lemma_update_args_round_trip(a);
        },
        PlaceInstruction::PurchaseGameplayToken(a) => {
            lemma_le_u64_window(d, u64_le_bytes(a.random_seed), 2);
            lemma_le_u64_window(d, u64_le_bytes(a.desired_price), 10);
            lemma_u64_round_trip(a.random_seed);
            lemma_u64_round_trip(a.desired_price);
        },
        _ => {},
    }
}

fn read_opt_key(data: &Vec<u8>, off: usize) -> (r: Result<(Option<Pubkey>, usize), PlaceError>)
    ensures
        match parse_opt_key(data@, off as int) {
            Some(p) => r == Ok::<(Option<Pubkey>, usize), PlaceError>((p.0, p.1 as usize)),
            None => r == Err::<(Option<Pubkey>, usize), PlaceError>(PlaceError::InvalidInstruction),
        },
{
    if off >= data.len() {
        return Err(PlaceError::InvalidInstruction);
    }
    if data[off] == 0 {
        return Ok((None, off + 1));
    }
    if data[off] == 1 && data.len() - off >= 33 {
        let k = Pubkey::read_from(data, off + 1);
        proof {
            lemma_key_of(k);
        }
        return Ok((Some(k), off + 33));
    }
    Err(PlaceError::InvalidInstruction)
}

fn read_opt_bool(data: &Vec<u8>, off: usize) -> (r: Result<(Option<bool>, usize), PlaceError>)
    ensures
        match parse_opt_bool(data@, off as int) {
            Some(p) => r == Ok::<(Option<bool>, usize), PlaceError>((p.0, p.1 as usize)),
            None => r == Err::<(Option<bool>, usize), PlaceError>(PlaceError::InvalidInstruction),
        },
{
    if off >= data.len() {
        return Err(PlaceError::InvalidInstruction);
    }
    if data[off] == 0 {
        return Ok((None, off + 1));
    }
    if data[off] == 1 && data.len() - off >= 2 && data[off + 1] <= 1 {
        return Ok((Some(data[off + 1] == 1), off + 2));
    }
    Err(PlaceError::InvalidInstruction)
}

fn read_opt_u64(data: &Vec<u8>, off: usize) -> (r: Result<(Option<u64>, usize), PlaceError>)
    ensures
        match parse_opt_u64(data@, off as int) {
            Some(p) => r == Ok::<(Option<u64>, usize), PlaceError>((p.0, p.1 as usize)),
            None => r == Err::<(Option<u64>, usize), PlaceError>(PlaceError::InvalidInstruction),
        },
{
    if off >= data.len() {
        return Err(PlaceError::InvalidInstruction);
    }
    if data[off] == 0 {
        return Ok((None, off + 1));
    }
    if data[off] == 1 && data.len() - off >= 9 {
        return Ok((Some(read_u64(data, off + 1)), off + 9));
    }
    Err(PlaceError::InvalidInstruction)
}

impl PlaceInstruction {
    /// Reads an instruction; the bytes must hold exactly one.
    pub fn unpack(data: &Vec<u8>) -> (r: Result<PlaceInstruction, PlaceError>)
        ensures
            match decode_instruction(data@) {
                Some(ix) => r == Ok::<PlaceInstruction, PlaceError>(ix),
                None => r == Err::<PlaceInstruction, PlaceError>(PlaceError::InvalidInstruction),
            },
    {
        if data.len() == 0 {
            return Err(PlaceError::InvalidInstruction);
        }
        let tag = data[0];
        if tag == 0 {
            let (new_owner, o1) = read_opt_key(data, 1)?;
            let (is_frozen, o2) = read_opt_bool(data, o1)?;
            let (paintbrush_price, o3) = read_opt_u64(data, o2)?;
            let (paintbrush_cooldown, o4) = read_opt_u64(data, o3)?;
            let (bomb_price, o5) = read_opt_u64(data, o4)?;
            if o5 != data.len() {
                return Err(PlaceError::InvalidInstruction);
            }
            Ok(
                PlaceInstruction::UpdatePlaceState(
                    UpdatePlaceStateDataArgs {
                        new_owner,
                        is_frozen,
                        paintbrush_price,
                        paintbrush_cooldown,
                        bomb_price,
                    },
                ),
            )
        } else if tag == 1 {
            if data.len() != 3 {
                return Err(PlaceError::InvalidInstruction);
            }
            Ok(PlaceInstruction::InitPatch(InitPatchDataArgs { x_patch: data[1], y_patch: data[2] }))
        } else if tag == 2 {
            if data.len() != 18 || data[1] > 1 {
                return Err(PlaceError::InvalidInstruction);
            }
            Ok(
                PlaceInstruction::PurchaseGameplayToken(
                    PurchaseGameplayTokenDataArgs {
                        token_type: if data[1] == 0 {
                            GameplayTokenType::PaintBrush
                        } else {
                            GameplayTokenType::Bomb
                        },
                        random_seed: read_u64(data, 2),
                        desired_price: read_u64(data, 10),
                    },
                ),
            )
        } else if tag == 3 {
            if data.len() != 6 {
                return Err(PlaceError::InvalidInstruction);
            }
            Ok(
                PlaceInstruction::SetPixel(
                    SetPixelDataArgs {
                        x: data[1],
                        y: data[2],
                        x_offset: data[3],
                        y_offset: data[4],
                        pixel: data[5],
                    },
                ),
            )
        } else if tag == 4 {
            if data.len() != 1 {
                return Err(PlaceError::InvalidInstruction);
            }
            Ok(PlaceInstruction::InitMint(InitMintDataArgs {  }))
        } else if tag == 5 {
            if data.len() != 1 {
                return Err(PlaceError::InvalidInstruction);
            }
            Ok(PlaceInstruction::ClaimTokens(ClaimTokensDataArgs {  }))
        } else {
            Err(PlaceError::InvalidInstruction)
        }
    }

    /// The instruction's bytes.
    pub fn pack(&self) -> (r: Vec<u8>)
        ensures
            r@ == encode_instruction(*self),
    {
        let mut out: Vec<u8> = Vec::new();
        match self {
            PlaceInstruction::UpdatePlaceState(a) => {
                out.push(0u8);
                match a.new_owner {
                    None => out.push(0u8),
                    Some(k) => {
                        out.push(1u8);
                        let kb = k.to_vec();
                        crate::bytes::push_all(&mut out, &kb);
                    },
                }
                match a.is_frozen {
                    None => out.push(0u8),
                    Some(b) => {
                        out.push(1u8);
                        out.push(if b { 1u8 } else { 0u8 });
                    },
                }
                push_opt_u64(&mut out, a.paintbrush_price);
                push_opt_u64(&mut out, a.paintbrush_cooldown);
                push_opt_u64(&mut out, a.bomb_price);
                assert(out@ =~= encode_instruction(*self));
            },
            PlaceInstruction::InitPatch(a) => {
                out.push(1u8);
                out.push(a.x_patch);
                out.push(a.y_patch);
                assert(out@ =~= encode_instruction(*self));
            },
            PlaceInstruction::PurchaseGameplayToken(a) => {
                out.push(2u8);
                out.push(a.token_type.to_byte());
                push_u64(&mut out, a.random_seed);
                push_u64(&mut out, a.desired_price);
                assert(out@ =~= encode_instruction(*self));
            },
            PlaceInstruction::SetPixel(a) => {
                out.push(3u8);
                out.push(a.x);
                out.push(a.y);
                out.push(a.x_offset);
                out.push(a.y_offset);
                out.push(a.pixel);
                assert(out@ =~= encode_instruction(*self));
            },
            PlaceInstruction::InitMint(_) => {
                out.push(4u8);
                assert(out@ =~= encode_instruction(*self));
            },
            PlaceInstruction::ClaimTokens(_) => {
                out.push(5u8);
                assert(out@ =~= encode_instruction(*self));
            },
        }
        out
    }
}

fn push_opt_u64(out: &mut Vec<u8>, o: Option<u64>)
    ensures
        final(out)@ == old(out)@ + encode_opt_u64(o),
{
    match o {
        None => out.push(0u8),
        Some(v) => {
            out.push(1u8);
            push_u64(out, v);
        },
    }
    assert(out@ =~= old(out)@ + encode_opt_u64(o));
}

} // verus!
