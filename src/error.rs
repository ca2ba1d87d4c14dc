//! The typed failures of the canvas programs.
use vstd::prelude::*;

verus! {

/// Why a canvas instruction was rejected.
#[derive(Clone, Copy, Debug, PartialEq, Eq, Structural)]
pub enum PlaceError {
    /// The instruction data could not be decoded.
    InvalidInstruction,
    /// The patch account is not at the address derived from its coordinates.
    IncorrectPatchPDA,
    /// The patch coordinates lie outside the canvas.
    InvalidPatchCoordinates,
    /// The patch account already holds data.
    PatchAccountAlreadyInitialized,
    /// The account data does not hold a record of the expected type and length.
    AccountDataTypeMismatch,
    /// The settings account is not at the derived settings address.
    IncorrectPlaceStatePDA,
    /// An account argument is not the expected one.
    InvalidAccountArgument,
    /// The caller is not the settings owner.
    InvalidOwner,
    /// The gameplay token account is not at the address derived from its seed.
    IncorrectGameplayTokenMetaPDA,
    /// The gameplay token account already holds data.
    GameplayTokenAlreadyPurchased,
    /// The gameplay token mint is not at its derived address.
    InvalidGameplayTokenMintPDA,
    /// The price offered differs from the current price.
    DesiredPriceDifferentFromCurrentPrice,
    /// The gameplay token is still cooling down.
    GameplayTokenNotReady,
    /// The holding account could not be read as a token account.
    InvalidGameplayTokenATA,
    /// The holding account is not owned by the caller.
    InvalidGameplayTokenAccountOwner,
    /// The holding account does not hold exactly one token.
    InvalidGameplayTokenAccountBalance,
    /// The holding account holds another mint.
    InvalidGameplayTokenAccountMint,
    /// The royalty token mint is not at its derived address.
    InvalidPlaceTokenMintPDA,
    /// The royalty token mint already exists.
    PlaceTokenMintAlreadyInitialized,
    /// The system program account is wrong.
    InvalidSystemProgramAccount,
    /// The token program account is wrong.
    InvalidTokenProgramAccount,
    /// The metadata program account is wrong.
    InvalidMplMetadataProgramAccount,
    /// The metadata account is wrong.
    InvalidPlaceTokenMPLMetadataPDA,
    /// The gameplay token account is invalid.
    InvalidGameplayTokenMetaPDA,
    /// The gameplay token account has an unexpected owner.
    InvalidGameplayTokenMetaPDAOwner,
    /// The holding account does not match the signer.
    GameplayTokenATADidNotMatchSigner,
    /// The account is not owned by the token program.
    AccountNotOwnedByTokenProgram,
    /// The account has an unexpected owner.
    UnexpectedAccountOwner,
    /// The holding account mint does not match the gameplay token.
    GameplayTokenATAMintDidNotMatch,
    /// The royalty token destination account is invalid.
    InvalidPlaceTokenDestinationATA,
    /// No royalty tokens are owed.
    NoTokensToBeClaimed,
    /// A required signature is missing.
    MissingRequiredSignature,
    /// The instruction names too few accounts.
    NotEnoughAccountKeys,
    /// The pixel offset lies outside the patch.
    InvalidPixelOffset,
    /// The rent sysvar account is wrong.
    InvalidRentSysvarAccount,
    /// The slot at which the token would be ready again is past the largest slot.
    CooldownOverflow,
    /// The royalty tokens owed would pass the largest amount.
    RoyaltyTokensOverflow,
}

/// The numeric code of each failure, distinct for distinct failures.
pub open spec fn place_error_code(e: PlaceError) -> u32 {
    match e {
        PlaceError::InvalidInstruction => 0,
        PlaceError::IncorrectPatchPDA => 1,
        PlaceError::InvalidPatchCoordinates => 2,
        PlaceError::PatchAccountAlreadyInitialized => 3,
        PlaceError::AccountDataTypeMismatch => 4,
        PlaceError::IncorrectPlaceStatePDA => 5,
        PlaceError::InvalidAccountArgument => 6,
        PlaceError::InvalidOwner => 7,
        PlaceError::IncorrectGameplayTokenMetaPDA => 8,
        PlaceError::GameplayTokenAlreadyPurchased => 9,
        PlaceError::InvalidGameplayTokenMintPDA => 10,
        PlaceError::DesiredPriceDifferentFromCurrentPrice => 11,
        PlaceError::GameplayTokenNotReady => 12,
        PlaceError::InvalidGameplayTokenATA => 13,
        PlaceError::InvalidGameplayTokenAccountOwner => 14,
        PlaceError::InvalidGameplayTokenAccountBalance => 15,
        PlaceError::InvalidGameplayTokenAccountMint => 16,
        PlaceError::InvalidPlaceTokenMintPDA => 17,
        PlaceError::PlaceTokenMintAlreadyInitialized => 18,
        PlaceError::InvalidSystemProgramAccount => 19,
        PlaceError::InvalidTokenProgramAccount => 20,
        PlaceError::InvalidMplMetadataProgramAccount => 21,
        PlaceError::InvalidPlaceTokenMPLMetadataPDA => 22,
        PlaceError::InvalidGameplayTokenMetaPDA => 23,
        PlaceError::InvalidGameplayTokenMetaPDAOwner => 24,
        PlaceError::GameplayTokenATADidNotMatchSigner => 25,
        PlaceError::AccountNotOwnedByTokenProgram => 26,
        PlaceError::UnexpectedAccountOwner => 27,
        PlaceError::GameplayTokenATAMintDidNotMatch => 28,
        PlaceError::InvalidPlaceTokenDestinationATA => 29,
        PlaceError::NoTokensToBeClaimed => 30,
        PlaceError::MissingRequiredSignature => 31,
        PlaceError::NotEnoughAccountKeys => 32,
        PlaceError::InvalidPixelOffset => 33,
        PlaceError::InvalidRentSysvarAccount => 34,
        PlaceError::CooldownOverflow => 35,
        PlaceError::RoyaltyTokensOverflow => 36,
    }
}

impl PlaceError {
    /// The numeric code reported to the host.
    pub fn code(&self) -> (r: u32)
        ensures
            r == place_error_code(*self),
    {
        match self {
            PlaceError::InvalidInstruction => 0,
            PlaceError::IncorrectPatchPDA => 1,
            PlaceError::InvalidPatchCoordinates => 2,
            PlaceError::PatchAccountAlreadyInitialized => 3,
            PlaceError::AccountDataTypeMismatch => 4,
            PlaceError::IncorrectPlaceStatePDA => 5,
            PlaceError::InvalidAccountArgument => 6,
            PlaceError::InvalidOwner => 7,
            PlaceError::IncorrectGameplayTokenMetaPDA => 8,
            PlaceError::GameplayTokenAlreadyPurchased => 9,
            PlaceError::InvalidGameplayTokenMintPDA => 10,
            PlaceError::DesiredPriceDifferentFromCurrentPrice => 11,
            PlaceError::GameplayTokenNotReady => 12,
            PlaceError::InvalidGameplayTokenATA => 13,
            PlaceError::InvalidGameplayTokenAccountOwner => 14,
            PlaceError::InvalidGameplayTokenAccountBalance => 15,
            PlaceError::InvalidGameplayTokenAccountMint => 16,
            PlaceError::InvalidPlaceTokenMintPDA => 17,
            PlaceError::PlaceTokenMintAlreadyInitialized => 18,
            PlaceError::InvalidSystemProgramAccount => 19,
            PlaceError::InvalidTokenProgramAccount => 20,
            PlaceError::InvalidMplMetadataProgramAccount => 21,
            PlaceError::InvalidPlaceTokenMPLMetadataPDA => 22,
            PlaceError::InvalidGameplayTokenMetaPDA => 23,
            PlaceError::InvalidGameplayTokenMetaPDAOwner => 24,
            PlaceError::GameplayTokenATADidNotMatchSigner => 25,
            PlaceError::AccountNotOwnedByTokenProgram => 26,
            PlaceError::UnexpectedAccountOwner => 27,
            PlaceError::GameplayTokenATAMintDidNotMatch => 28,
            PlaceError::InvalidPlaceTokenDestinationATA => 29,
            PlaceError::NoTokensToBeClaimed => 30,
            PlaceError::MissingRequiredSignature => 31,
            PlaceError::NotEnoughAccountKeys => 32,
            PlaceError::InvalidPixelOffset => 33,
            PlaceError::InvalidRentSysvarAccount => 34,
            PlaceError::CooldownOverflow => 35,
            PlaceError::RoyaltyTokensOverflow => 36,
        }
    }

    /// A short description of the failure.
    pub fn message(&self) -> (r: &'static str) {
        match self {
            PlaceError::InvalidInstruction => "the instruction data could not be decoded",
            PlaceError::IncorrectPatchPDA => "the patch account is not at the address derived from its coordinates",
            PlaceError::InvalidPatchCoordinates => "the patch coordinates lie outside the canvas",
            PlaceError::PatchAccountAlreadyInitialized => "the patch account already holds data",
            PlaceError::AccountDataTypeMismatch => "the account data does not hold a record of the expected type and length",
            PlaceError::IncorrectPlaceStatePDA => "the settings account is not at the derived settings address",
            PlaceError::InvalidAccountArgument => "an account argument is not the expected one",
            PlaceError::InvalidOwner => "the caller is not the settings owner",
            PlaceError::IncorrectGameplayTokenMetaPDA => "the gameplay token account is not at the address derived from its seed",
            PlaceError::GameplayTokenAlreadyPurchased => "the gameplay token account already holds data",
            PlaceError::InvalidGameplayTokenMintPDA => "the gameplay token mint is not at its derived address",
            PlaceError::DesiredPriceDifferentFromCurrentPrice => "the price offered differs from the current price",
            PlaceError::GameplayTokenNotReady => "the gameplay token is still cooling down",
            PlaceError::InvalidGameplayTokenATA => "the holding account could not be read as a token account",
            PlaceError::InvalidGameplayTokenAccountOwner => "the holding account is not owned by the caller",
            PlaceError::InvalidGameplayTokenAccountBalance => "the holding account does not hold exactly one token",
            PlaceError::InvalidGameplayTokenAccountMint => "the holding account holds another mint",
            PlaceError::InvalidPlaceTokenMintPDA => "the royalty token mint is not at its derived address",
            PlaceError::PlaceTokenMintAlreadyInitialized => "the royalty token mint already exists",
            PlaceError::InvalidSystemProgramAccount => "the system program account is wrong",
            PlaceError::InvalidTokenProgramAccount => "the token program account is wrong",
            PlaceError::InvalidMplMetadataProgramAccount => "the metadata program account is wrong",
            PlaceError::InvalidPlaceTokenMPLMetadataPDA => "the metadata account is wrong",
            PlaceError::InvalidGameplayTokenMetaPDA => "the gameplay token account is invalid",
            PlaceError::InvalidGameplayTokenMetaPDAOwner => "the gameplay token account has an unexpected owner",
            PlaceError::GameplayTokenATADidNotMatchSigner => "the holding account does not match the signer",
            PlaceError::AccountNotOwnedByTokenProgram => "the account is not owned by the token program",
            PlaceError::UnexpectedAccountOwner => "the account has an unexpected owner",
            PlaceError::GameplayTokenATAMintDidNotMatch => "the holding account mint does not match the gameplay token",
            PlaceError::InvalidPlaceTokenDestinationATA => "the royalty token destination account is invalid",
            PlaceError::NoTokensToBeClaimed => "no royalty tokens are owed",
            PlaceError::MissingRequiredSignature => "a required signature is missing",
            PlaceError::NotEnoughAccountKeys => "the instruction names too few accounts",
            PlaceError::InvalidPixelOffset => "the pixel offset lies outside the patch",
            PlaceError::InvalidRentSysvarAccount => "the rent sysvar account is wrong",
            PlaceError::CooldownOverflow => "the token's next ready slot would pass the largest slot",
            PlaceError::RoyaltyTokensOverflow => "the royalty tokens owed would pass the largest amount",
        }
    }
}

/// Why a tapestry instruction was rejected.
#[derive(Clone, Copy, Debug, PartialEq, Eq, Structural)]
pub enum TapestryError {
    InvalidInstruction,
    NotRentExempt,
    IncorrectOwner,
    InvalidTapestryStatePDA,
    InvalidTapestryPatchPDA,
    TapestryPatchAlreadySold,
    InvalidTapestryPatchMintPDA,
    InvalidTapestryPatchAssociatedTokenAccount,
    InsufficientFundsForPurchase,
    PatchURLTooLong,
    PatchHoverTextTooLong,
    PatchImageDataTooLong,
    InvalidPatchTokenAccount,
    UnexpectedPatchState,
    InvalidPatchCoordinates,
    InvalidPatchChunkCoordinates,
    PatchAccountNotAllocated,
    PatchAccountNotOwnedByMint,
    InvalidTapestryFeaturedPDA,
    FeaturedCalloutTooLong,
    FeaturedSolDomainTooLong,
    MissingRequiredSignature,
    InvalidAccountData,
    NotEnoughAccountKeys,
}

/// The numeric code of each failure, distinct for distinct failures.
pub open spec fn tapestry_error_code(e: TapestryError) -> u32 {
    match e {
        TapestryError::InvalidInstruction => 0,
        TapestryError::NotRentExempt => 1,
        TapestryError::IncorrectOwner => 2,
        TapestryError::InvalidTapestryStatePDA => 3,
        TapestryError::InvalidTapestryPatchPDA => 4,
        TapestryError::TapestryPatchAlreadySold => 5,
        TapestryError::InvalidTapestryPatchMintPDA => 6,
        TapestryError::InvalidTapestryPatchAssociatedTokenAccount => 7,
        TapestryError::InsufficientFundsForPurchase => 8,
        TapestryError::PatchURLTooLong => 9,
        TapestryError::PatchHoverTextTooLong => 10,
        TapestryError::PatchImageDataTooLong => 11,
        TapestryError::InvalidPatchTokenAccount => 12,
        TapestryError::UnexpectedPatchState => 13,
        TapestryError::InvalidPatchCoordinates => 14,
        TapestryError::InvalidPatchChunkCoordinates => 15,
        TapestryError::PatchAccountNotAllocated => 16,
        TapestryError::PatchAccountNotOwnedByMint => 17,
        TapestryError::InvalidTapestryFeaturedPDA => 18,
        TapestryError::FeaturedCalloutTooLong => 19,
        TapestryError::FeaturedSolDomainTooLong => 20,
        TapestryError::MissingRequiredSignature => 21,
        TapestryError::InvalidAccountData => 22,
        TapestryError::NotEnoughAccountKeys => 23,
    }
}

impl TapestryError {
    /// The numeric code reported to the host.
    pub fn code(&self) -> (r: u32)
        ensures
            r == tapestry_error_code(*self),
    {
        match self {
            TapestryError::InvalidInstruction => 0,
            TapestryError::NotRentExempt => 1,
            TapestryError::IncorrectOwner => 2,
            TapestryError::InvalidTapestryStatePDA => 3,
            TapestryError::InvalidTapestryPatchPDA => 4,
            TapestryError::TapestryPatchAlreadySold => 5,
            TapestryError::InvalidTapestryPatchMintPDA => 6,
            TapestryError::InvalidTapestryPatchAssociatedTokenAccount => 7,
            TapestryError::InsufficientFundsForPurchase => 8,
            TapestryError::PatchURLTooLong => 9,
            TapestryError::PatchHoverTextTooLong => 10,
            TapestryError::PatchImageDataTooLong => 11,
            TapestryError::InvalidPatchTokenAccount => 12,
            TapestryError::UnexpectedPatchState => 13,
            TapestryError::InvalidPatchCoordinates => 14,
            TapestryError::InvalidPatchChunkCoordinates => 15,
            TapestryError::PatchAccountNotAllocated => 16,
            TapestryError::PatchAccountNotOwnedByMint => 17,
            TapestryError::InvalidTapestryFeaturedPDA => 18,
            TapestryError::FeaturedCalloutTooLong => 19,
            TapestryError::FeaturedSolDomainTooLong => 20,
            TapestryError::MissingRequiredSignature => 21,
            TapestryError::InvalidAccountData => 22,
            TapestryError::NotEnoughAccountKeys => 23,
        }
    }
}

/// No two failures share a code.
pub proof fn lemma_place_error_codes_distinct(a: PlaceError, b: PlaceError)
    ensures
        place_error_code(a) == place_error_code(b) ==> a == b,
{
}

/// No two failures share a code.
pub proof fn lemma_tapestry_error_codes_distinct(a: TapestryError, b: TapestryError)
    ensures
        tapestry_error_code(a) == tapestry_error_code(b) ==> a == b,
{
}

} // verus!
