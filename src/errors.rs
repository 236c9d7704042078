use vstd::prelude::*;

verus! {

/// Every way in which an auctioneer operation is refused.
#[derive(Clone, Copy, Debug, PartialEq, Eq, Structural)]
pub enum AuctioneerError {
    /// No viable nonce could be found for a derived identity.
    NoValidNonce,
    /// The caller lacks the role or capability the operation asks for.
    Unauthorized,
    /// The record to be created exists already.
    AlreadyExists,
    /// A supplied account is not the identity that its parameters derive.
    InvalidSeeds,
    AuctionStartTimeInThePast,
    MinBidMustNotBeZero,
    AuctionNotStarted,
    AuctionEnded,
    BidTooLow,
    BidStepTooSmall,
    NotHighestBidder,
    AuctionActive,
    /// A forwarded request does not match the shape the base engine expects.
    MalformedForwardRequest,
    /// An account is not the one the auction house records or the operation names.
    AccountMismatch,
    /// A timestamp computation left the 64-bit range.
    NumericalOverflow,
}

/// First code of the program's own errors, after the framework's range.
pub const ERROR_CODE_OFFSET: u32 = 6000;

/// Position of each error in the enumeration.
pub open spec fn error_index(e: AuctioneerError) -> u32 {
    match e {
        AuctioneerError::NoValidNonce => 0,
        AuctioneerError::Unauthorized => 1,
        AuctioneerError::AlreadyExists => 2,
        AuctioneerError::InvalidSeeds => 3,
        AuctioneerError::AuctionStartTimeInThePast => 4,
        AuctioneerError::MinBidMustNotBeZero => 5,
        AuctioneerError::AuctionNotStarted => 6,
        AuctioneerError::AuctionEnded => 7,
        AuctioneerError::BidTooLow => 8,
        AuctioneerError::BidStepTooSmall => 9,
        AuctioneerError::NotHighestBidder => 10,
        AuctioneerError::AuctionActive => 11,
        AuctioneerError::MalformedForwardRequest => 12,
        AuctioneerError::NumericalOverflow => 13,
        AuctioneerError::AccountMismatch => 14,
    }
}

/// The human-readable message of each error.
pub open spec fn error_message(e: AuctioneerError) -> &'static str {
    match e {
        AuctioneerError::NoValidNonce => "No viable nonce for the derived address",
        AuctioneerError::Unauthorized => "The signer must be the Auction House authority",
        AuctioneerError::AlreadyExists => "The account is already initialized",
        AuctioneerError::InvalidSeeds => "The account does not match its derivation seeds",
        AuctioneerError::AuctionStartTimeInThePast => "The auction start time can't be in the past",
        AuctioneerError::MinBidMustNotBeZero => "Minimal bid value can't be zero",
        AuctioneerError::AuctionNotStarted => "Auction has not started yet",
        AuctioneerError::AuctionEnded => "Auction has ended",
        AuctioneerError::BidTooLow => "The bid was lower than the highest bid",
        AuctioneerError::BidStepTooSmall => "The bid step is smaller than the minimum step",
        AuctioneerError::NotHighestBidder => "Execute Sale must be run on the highest bidder",
        AuctioneerError::AuctionActive => "Auction has not ended yet",
        AuctioneerError::MalformedForwardRequest => "The forwarded request is malformed",
        AuctioneerError::NumericalOverflow => "Numerical overflow",
        AuctioneerError::AccountMismatch => "An account does not match the expected one",
    }
}

impl AuctioneerError {
    /// Stable numeric code of the error.
    pub fn code(&self) -> (r: u32)
        ensures
            r == ERROR_CODE_OFFSET + error_index(*self),
    {
        let i: u32 = match self {
            AuctioneerError::NoValidNonce => 0,
            AuctioneerError::Unauthorized => 1,
            AuctioneerError::AlreadyExists => 2,
            AuctioneerError::InvalidSeeds => 3,
            AuctioneerError::AuctionStartTimeInThePast => 4,
            AuctioneerError::MinBidMustNotBeZero => 5,
            AuctioneerError::AuctionNotStarted => 6,
            AuctioneerError::AuctionEnded => 7,
            AuctioneerError::BidTooLow => 8,
            AuctioneerError::BidStepTooSmall => 9,
            AuctioneerError::NotHighestBidder => 10,
            AuctioneerError::AuctionActive => 11,
            AuctioneerError::MalformedForwardRequest => 12,
            AuctioneerError::NumericalOverflow => 13,
            AuctioneerError::AccountMismatch => 14,
        };
        ERROR_CODE_OFFSET + i
    }

    /// Human-readable message of the error.
    pub fn message(&self) -> (r: &'static str)
        ensures
            r == error_message(*self),
    {
        match self {
            AuctioneerError::NoValidNonce => "No viable nonce for the derived address",
            AuctioneerError::Unauthorized => "The signer must be the Auction House authority",
            AuctioneerError::AlreadyExists => "The account is already initialized",
            AuctioneerError::InvalidSeeds => "The account does not match its derivation seeds",
            AuctioneerError::AuctionStartTimeInThePast => "The auction start time can't be in the past",
            AuctioneerError::MinBidMustNotBeZero => "Minimal bid value can't be zero",
            AuctioneerError::AuctionNotStarted => "Auction has not started yet",
            AuctioneerError::AuctionEnded => "Auction has ended",
            AuctioneerError::BidTooLow => "The bid was lower than the highest bid",
            AuctioneerError::BidStepTooSmall => "The bid step is smaller than the minimum step",
            AuctioneerError::NotHighestBidder => "Execute Sale must be run on the highest bidder",
            AuctioneerError::AuctionActive => "Auction has not ended yet",
            AuctioneerError::MalformedForwardRequest => "The forwarded request is malformed",
            AuctioneerError::NumericalOverflow => "Numerical overflow",
            AuctioneerError::AccountMismatch => "An account does not match the expected one",
        }
    }
}

} // verus!
