use vstd::prelude::*;

use crate::errors::AuctioneerError;
use crate::pubkey::Pubkey;

verus! {

/// Price under which an auctioneer-managed ask is recorded by the base engine.
pub const AUCTIONEER_BUYER_PRICE: u64 = 0xffff_ffff_ffff_ffff;

/// Seconds in one hour.
pub const SECONDS_PER_HOUR: u64 = 3600;

/// Record that this auctioneer has been authorized for one auction house.
#[derive(Clone, Copy, Debug, PartialEq, Eq, Structural)]
pub struct AuctioneerAuthority {
    pub bump: u8,
}

/// Lengths that a timed auction may run.
#[derive(Clone, Copy, Debug, PartialEq, Eq, Structural)]
pub enum TimedAuctionDuration {
    H12,
    H24,
    H48,
}

/// Length of the auction in hours.
pub open spec fn duration_hours(d: TimedAuctionDuration) -> u64 {
    match d {
        TimedAuctionDuration::H12 => 12,
        TimedAuctionDuration::H24 => 24,
        TimedAuctionDuration::H48 => 48,
    }
}

/// Length of the auction in seconds.
pub open spec fn duration_seconds(d: TimedAuctionDuration) -> u64 {
    (duration_hours(d) * SECONDS_PER_HOUR) as u64
}

impl TimedAuctionDuration {
    /// Length of the auction in seconds.
    pub fn seconds(&self) -> (r: u64)
        ensures
            r == duration_seconds(*self),
            r as int == duration_hours(*self) as int * 3600,
    {
        let h: u64 = match self {
            TimedAuctionDuration::H12 => 12,
            TimedAuctionDuration::H24 => 24,
            TimedAuctionDuration::H48 => 48,
        };
        h * SECONDS_PER_HOUR
    }
}

impl From<TimedAuctionDuration> for u64 {
    fn from(d: TimedAuctionDuration) -> (r: u64) {
        d.seconds()
    }
}

impl vstd::std_specs::convert::FromSpecImpl<TimedAuctionDuration> for u64 {
    open spec fn obeys_from_spec() -> bool {
        true
    }

    open spec fn from_spec(d: TimedAuctionDuration) -> u64 {
        duration_seconds(d)
    }
}

/// What a seller asks for when listing with a time window.
#[derive(Clone, Copy, Debug, PartialEq, Eq, Structural)]
pub struct TimedAuctionArgs {
    /// Start of bidding; the current time when absent.
    pub start_time: Option<u64>,
    pub duration: TimedAuctionDuration,
}

/// The standing highest bid of a listing.
#[derive(Clone, Copy, Debug)]
pub struct Bid {
    pub amount: u64,
    pub buyer_trade_state: Pubkey,
}

/// The window of a timed auction: bids from `start_time` up to, not
/// including, `end_time`.
#[derive(Clone, Copy, Debug, PartialEq, Eq, Structural)]
pub struct TimedAuctionConfig {
    pub start_time: u64,
    pub end_time: u64,
}

/// Per-listing auction settings and the standing highest bid.
#[derive(Clone, Copy, Debug)]
pub struct ListingConfig {
    pub timed_auction_config: Option<TimedAuctionConfig>,
    pub min_bid: u64,
    pub highest_bid: Bid,
    pub bump: u8,
}

impl ListingConfig {
    /// The invariant of an open listing: a positive minimum bid.
    pub open spec fn wf(&self) -> bool {
        self.min_bid > 0
    }
}

/// The identity held by a listing that has no bid yet: all zero bytes.
pub open spec fn no_bidder() -> Seq<u8> {
    Seq::new(32, |i: int| 0u8)
}

/// The window that a timed listing created at `now` gets, if it fits in 64 bits.
pub open spec fn window_of(now: u64, args: TimedAuctionArgs) -> Result<TimedAuctionConfig, AuctioneerError> {
    let start = match args.start_time {
        Some(s) => s,
        None => now,
    };
    if start < now {
        Err(AuctioneerError::AuctionStartTimeInThePast)
    } else if start as int + duration_seconds(args.duration) as int > u64::MAX as int {
        Err(AuctioneerError::NumericalOverflow)
    } else {
        Ok(TimedAuctionConfig { start_time: start, end_time: (start + duration_seconds(args.duration)) as u64 })
    }
}

/// The auction window that a sell at `now` asks for: none, a window, or the
/// error that refuses it.
pub open spec fn sell_window(now: u64, timed_auction: Option<TimedAuctionArgs>) -> Result<Option<TimedAuctionConfig>, AuctioneerError> {
    match timed_auction {
        None => Ok(None),
        Some(args) => match window_of(now, args) {
            Ok(w) => Ok(Some(w)),
            Err(e) => Err(e),
        },
    }
}

/// `l` is a listing with the given settings and no bid yet.
pub open spec fn is_fresh_listing(l: ListingConfig, window: Option<TimedAuctionConfig>, min_bid: u64, bump: u8) -> bool {
    &&& l.timed_auction_config == window
    &&& l.min_bid == min_bid
    &&& l.bump == bump
    &&& l.highest_bid.amount == 0
    &&& l.highest_bid.buyer_trade_state@ == no_bidder()
}

/// What opening a listing at `now` gives: a fresh listing with the asked
/// settings where the minimum bid is positive and the window is acceptable,
/// and otherwise the first rule that refuses it.
pub open spec fn listing_outcome(
    now: u64,
    timed_auction: Option<TimedAuctionArgs>,
    min_bid: u64,
    bump: u8,
    r: Result<ListingConfig, AuctioneerError>,
) -> bool {
    match r {
        Ok(l) => {
            &&& min_bid > 0
            &&& sell_window(now, timed_auction) is Ok
            &&& is_fresh_listing(l, sell_window(now, timed_auction)->Ok_0, min_bid, bump)
            &&& l.wf()
        },
        Err(e) => {
            ||| min_bid == 0 && e == AuctioneerError::MinBidMustNotBeZero
            ||| min_bid > 0 && sell_window(now, timed_auction) == Err::<Option<TimedAuctionConfig>, AuctioneerError>(e)
        },
    }
}

impl ListingConfig {
    /// Opens a listing at time `now`: refuses a zero minimum bid and a window
    /// that starts in the past; an absent start means `now`.
    pub fn create(now: u64, timed_auction: Option<TimedAuctionArgs>, min_bid: u64, bump: u8) -> (r: Result<ListingConfig, AuctioneerError>)
        ensures
            listing_outcome(now, timed_auction, min_bid, bump, r),
    {
        if min_bid == 0 {
            return Err(AuctioneerError::MinBidMustNotBeZero);
        }
        let window = match timed_auction {
            None => None,
            Some(args) => {
                let start_time = match args.start_time {
                    Some(s) => s,
                    None => now,
                };
                if start_time < now {
                    return Err(AuctioneerError::AuctionStartTimeInThePast);
                }
                let length = args.duration.seconds();
                if start_time > u64::MAX - length {
                    return Err(AuctioneerError::NumericalOverflow);
                }
                Some(TimedAuctionConfig { start_time, end_time: start_time + length })
            },
        };
        let nobody = Pubkey::new([0u8; 32]);
        assert(nobody@ =~= no_bidder());
        Ok(ListingConfig {
            timed_auction_config: window,
            min_bid,
            highest_bid: Bid { amount: 0, buyer_trade_state: nobody },
            bump,
        })
    }
}

} // verus!
