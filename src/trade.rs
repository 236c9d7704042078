use vstd::prelude::*;

use crate::errors::AuctioneerError;
use crate::pubkey::Pubkey;
use crate::state::{AuctioneerAuthority, Bid, ListingConfig};
use crate::utils::{assert_auction_active, assert_auction_over, assert_higher_bid, auction_active, auction_over, higher_bid};

verus! {

/// Whether a listing accepts a bid of `amount` at `now`, in a currency with
/// `decimals` decimal places: the window is checked first, then the amount.
pub open spec fn bid_check(l: ListingConfig, now: u64, decimals: u8, amount: u64) -> Result<(), AuctioneerError> {
    match auction_active(l, now) {
        Err(e) => Err(e),
        Ok(_) => higher_bid(l, decimals, amount),
    }
}

/// The listing after a bid: the bid becomes the highest where it is
/// accepted, and nothing changes where it is refused.
pub open spec fn after_bid(l: ListingConfig, now: u64, decimals: u8, amount: u64, buyer_trade_state: Pubkey) -> ListingConfig {
    if bid_check(l, now, decimals, amount) is Ok {
        ListingConfig { highest_bid: Bid { amount, buyer_trade_state }, ..l }
    } else {
        l
    }
}

/// Whether a listing may be settled at `now` against `buyer_trade_state`:
/// the window must be over, and the trade state must hold the highest bid.
pub open spec fn sale_check(l: ListingConfig, now: u64, buyer_trade_state: Pubkey) -> Result<(), AuctioneerError> {
    match auction_over(l, now) {
        Err(e) => Err(e),
        Ok(_) => if buyer_trade_state@ == l.highest_bid.buyer_trade_state@ {
            Ok(())
        } else {
            Err(AuctioneerError::NotHighestBidder)
        },
    }
}

/// Whether `caller` may cancel a trade state owned by `owner` in an auction
/// house administered by `authority`.
pub open spec fn cancel_check(caller: Pubkey, owner: Pubkey, authority: Pubkey) -> Result<(), AuctioneerError> {
    if caller@ == owner@ || caller@ == authority@ {
        Ok(())
    } else {
        Err(AuctioneerError::Unauthorized)
    }
}

impl ListingConfig {
    /// Takes a bid of `amount` from the trade state `buyer_trade_state` at
    /// `now`: while the window is open, at least the minimum, at least the
    /// highest bid, and above it by the smallest step of a currency with
    /// `decimals` decimal places. An accepted bid becomes the highest.
    pub fn place_bid(&mut self, now: u64, decimals: u8, amount: u64, buyer_trade_state: Pubkey) -> (r: Result<(), AuctioneerError>)
        ensures
            r == bid_check(*old(self), now, decimals, amount),
            *final(self) == after_bid(*old(self), now, decimals, amount, buyer_trade_state),
            old(self).wf() ==> final(self).wf(),
            final(self).highest_bid.amount >= old(self).highest_bid.amount,
            amount < old(self).highest_bid.amount ==> r is Err,
            auction_active(*old(self), now) is Ok && amount < old(self).highest_bid.amount
                ==> r == Err::<(), AuctioneerError>(AuctioneerError::BidTooLow),
    {
        match assert_auction_active(self, now) {
            Err(e) => return Err(e),
            Ok(_) => {},
        }
        match assert_higher_bid(self, decimals, amount) {
            Err(e) => return Err(e),
            Ok(_) => {},
        }
        self.highest_bid = Bid { amount, buyer_trade_state };
        Ok(())
    }

    /// Allows a settlement at `now` against `buyer_trade_state` only once the
    /// window is over and only for the trade state that holds the highest bid.
    pub fn check_execute_sale(&self, now: u64, buyer_trade_state: &Pubkey) -> (r: Result<(), AuctioneerError>)
        ensures
            r == sale_check(*self, now, *buyer_trade_state),
    {
        match assert_auction_over(self, now) {
            Err(e) => return Err(e),
            Ok(_) => {},
        }
        if self.highest_bid.buyer_trade_state.same(buyer_trade_state) {
            Ok(())
        } else {
            Err(AuctioneerError::NotHighestBidder)
        }
    }
}

/// Allows `caller` to cancel a trade state only where it owns it or
/// administers the auction house.
pub fn check_cancel(caller: &Pubkey, owner: &Pubkey, authority: &Pubkey) -> (r: Result<(), AuctioneerError>)
    ensures
        r == cancel_check(*caller, *owner, *authority),
{
    if caller.same(owner) || caller.same(authority) {
        Ok(())
    } else {
        Err(AuctioneerError::Unauthorized)
    }
}

/// Records that the auction house administered by `authority` delegates to
/// this auctioneer. Only the authority may do so, and only once.
pub fn authorize_delegate(record: &mut Option<AuctioneerAuthority>, caller: &Pubkey, authority: &Pubkey, bump: u8) -> (r: Result<(), AuctioneerError>)
    ensures
        old(record).is_some() ==> r == Err::<(), AuctioneerError>(AuctioneerError::AlreadyExists),
        old(record).is_none() && caller@ != authority@ ==> r == Err::<(), AuctioneerError>(AuctioneerError::Unauthorized),
        old(record).is_none() && caller@ == authority@ ==> r is Ok,
        r is Ok ==> *final(record) == Some(AuctioneerAuthority { bump }),
        r is Err ==> *final(record) == *old(record),
{
    if record.is_some() {
        return Err(AuctioneerError::AlreadyExists);
    }
    if !caller.same(authority) {
        return Err(AuctioneerError::Unauthorized);
    }
    *record = Some(AuctioneerAuthority { bump });
    Ok(())
}

/// Capabilities that an auction house can grant to a delegate.
#[derive(Clone, Copy, Debug, PartialEq, Eq, Structural)]
pub enum AuthorityScope {
    Deposit,
    Buy,
    PublicBuy,
    ExecuteSale,
    Sell,
    Cancel,
    Withdraw,
}

/// Whether the granted `scopes` include `required`.
pub fn check_scope(scopes: &Vec<AuthorityScope>, required: AuthorityScope) -> (r: bool)
    ensures
        r == scopes@.contains(required),
{
    let mut i: usize = 0;
    while i < scopes.len()
        invariant
            i <= scopes@.len(),
            forall|j: int| 0 <= j < i ==> scopes@[j] != required,
        decreases scopes@.len() - i,
    {
        if scopes[i] == required {
            return true;
        }
        i += 1;
    }
    false
}

} // verus!
