//! Holding accounts of the token program, as far as this program reads them.
use vstd::prelude::*;
use crate::bytes::le_u64;
use crate::error::PlaceError;
use crate::pubkey::Pubkey;

verus! {

/// Bytes of a token program holding account.
pub const TOKEN_ACCOUNT_LEN: usize = 165;

/// What a holding account says: which mint, whose, and how many units.
#[derive(Clone, Copy, Debug, PartialEq, Eq)]
pub struct TokenHolding {
    pub mint: Pubkey,
    pub owner: Pubkey,
    pub amount: u64,
    /// 0 while uninitialized, 1 once initialized, 2 when frozen.
    pub state: u8,
}

pub struct TokenHoldingView {
    pub mint: Seq<u8>,
    pub owner: Seq<u8>,
    pub amount: u64,
    pub state: u8,
}

impl View for TokenHolding {
    type V = TokenHoldingView;

    open spec fn view(&self) -> TokenHoldingView {
        TokenHoldingView { mint: self.mint@, owner: self.owner@, amount: self.amount, state: self.state }
    }
}

/// A four-byte optional-value tag: absent or present.
pub open spec fn option_tag_ok(d: Seq<u8>, off: int) -> bool {
    d[off + 1] == 0 && d[off + 2] == 0 && d[off + 3] == 0 && d[off] <= 1
}

/// The token program's layout: mint, owner, amount, delegate, state,
/// native flag, delegated amount, close authority.
pub open spec fn holding_readable(d: Seq<u8>) -> bool {
    &&& d.len() == TOKEN_ACCOUNT_LEN
    &&& option_tag_ok(d, 72)
    &&& d[108] <= 2
    &&& option_tag_ok(d, 109)
    &&& option_tag_ok(d, 129)
}

/// The holding account that `d` holds, if it holds one.
pub open spec fn holding_of(d: Seq<u8>) -> Option<TokenHoldingView> {
    if holding_readable(d) {
        Some(
            TokenHoldingView {
                mint: d.subrange(0, 32),
                owner: d.subrange(32, 64),
                amount: le_u64(d, 64),
                state: d[108],
            },
        )
    } else {
        None
    }
}

/// Relies on spl_token's `Account::unpack_unchecked`: a length check, then
/// the fixed layout read by `unpack_from_slice`, which refuses a bad state
/// byte or a bad optional-value tag.
#[verifier::external_body]
fn unpack_token_account(data: &Vec<u8>) -> (r: Option<TokenHolding>)
    ensures
        match r {
            Some(h) => holding_of(data@) == Some(h@),
            None => holding_of(data@) is None,
        },
{
    <spl_token::state::Account as solana_program::program_pack::Pack>::unpack_unchecked(data).ok().map(
        |a| TokenHolding {
            mint: Pubkey { bytes: a.mint.to_bytes() },
            owner: Pubkey { bytes: a.owner.to_bytes() },
            amount: a.amount,
            state: a.state as u8,
        },
    )
}

impl TokenHolding {
    /// Reads a holding account.
    pub fn unpack(data: &Vec<u8>) -> (r: Result<TokenHolding, PlaceError>)
        ensures
            match r {
                Ok(h) => holding_of(data@) == Some(h@),
                Err(e) => holding_of(data@) is None && e == PlaceError::InvalidGameplayTokenATA,
            },
    {
        match unpack_token_account(data) {
            Some(h) => Ok(h),
            None => Err(PlaceError::InvalidGameplayTokenATA),
        }
    }
}

} // verus!
