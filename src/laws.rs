use vstd::prelude::*;
use vstd::bytes::{lemma_auto_spec_u64_to_from_le_bytes, spec_u64_from_le_bytes};

use crate::errors::AuctioneerError;
use crate::pda::{derives, trade_state_seeds};
use crate::sell::{listing_account_ok, sell_accounts_ok, sell_outcome, AuctioneerSell};
use crate::forward::ForwardRequest;
use crate::pubkey::Pubkey;
use crate::state::{duration_seconds, listing_outcome, ListingConfig, TimedAuctionArgs};
use crate::trade::{after_bid, bid_check, sale_check};
use crate::utils::auction_active;

verus! {

/// A listing opened at `now` with a positive minimum bid, and with a window
/// that starts at `now` and fits in 64 bits, is created with no bid.
pub proof fn lemma_sell_opens_fresh_listing(
    now: u64,
    timed_auction: Option<TimedAuctionArgs>,
    min_bid: u64,
    bump: u8,
    r: Result<ListingConfig, AuctioneerError>,
)
    requires
        min_bid > 0,
        timed_auction matches Some(args) ==> (args.start_time is None || args.start_time == Some(now))
            && now as int + duration_seconds(args.duration) as int <= u64::MAX as int,
        listing_outcome(now, timed_auction, min_bid, bump, r),
    ensures
        r matches Ok(l) && l.highest_bid.amount == 0 && l.min_bid == min_bid,
{
}

/// A sell whose accounts are right, by the item's owner, with a positive
/// minimum bid and a window that starts at `now` and fits in 64 bits,
/// creates a listing with no bid.
pub proof fn lemma_valid_sell_creates_listing(
    a: AuctioneerSell,
    program_id: Pubkey,
    now: u64,
    trade_state_bump: u8,
    free_trade_state_bump: u8,
    program_as_signer_bump: u8,
    auctioneer_authority_bump: u8,
    token_size: u64,
    timed_auction: Option<TimedAuctionArgs>,
    min_bid: u64,
    r: Result<(ListingConfig, ForwardRequest), AuctioneerError>,
)
    requires
        sell_accounts_ok(a, program_id, trade_state_bump, free_trade_state_bump, program_as_signer_bump,
            auctioneer_authority_bump, token_size),
        listing_account_ok(a, program_id, token_size),
        a.token_owner@ == a.wallet@,
        min_bid > 0,
        timed_auction matches Some(args) ==> (args.start_time is None || args.start_time == Some(now))
            && now as int + duration_seconds(args.duration) as int <= u64::MAX as int,
        sell_outcome(a, program_id, now, trade_state_bump, free_trade_state_bump, program_as_signer_bump,
            auctioneer_authority_bump, token_size, timed_auction, min_bid, r),
    ensures
        r matches Ok((l, _)) && l.highest_bid.amount == 0 && l.min_bid == min_bid,
{
}

/// Deriving an identity twice from the same seeds, nonce and program gives
/// the same identity.
pub proof fn lemma_derivation_deterministic(k1: Seq<u8>, k2: Seq<u8>, seeds: Seq<Seq<u8>>, bump: u8, program_id: Seq<u8>)
    requires
        derives(k1, seeds, bump, program_id),
        derives(k2, seeds, bump, program_id),
    ensures
        k1 == k2,
{
}

/// Trade states of the same wallet and item at different prices or sizes
/// are derived from different seeds, so that asks and bids at distinct
/// prices and sizes never share a trade state.
pub proof fn lemma_trade_state_seeds_distinct(
    wallet: Seq<u8>,
    auction_house: Seq<u8>,
    token_account: Seq<u8>,
    treasury_mint: Seq<u8>,
    token_mint: Seq<u8>,
    price1: u64,
    size1: u64,
    price2: u64,
    size2: u64,
)
    requires
        price1 != price2 || size1 != size2,
    ensures
        trade_state_seeds(wallet, auction_house, token_account, treasury_mint, token_mint, price1, size1)
            != trade_state_seeds(wallet, auction_house, token_account, treasury_mint, token_mint, price2, size2),
{
    lemma_auto_spec_u64_to_from_le_bytes();
    let s1 = trade_state_seeds(wallet, auction_house, token_account, treasury_mint, token_mint, price1, size1);
    let s2 = trade_state_seeds(wallet, auction_house, token_account, treasury_mint, token_mint, price2, size2);
    if s1 == s2 {
        assert(s1[6] == s2[6]);
        assert(s1[7] == s2[7]);
        assert(spec_u64_from_le_bytes(s1[6]) == price1);
        assert(spec_u64_from_le_bytes(s2[6]) == price2);
        assert(spec_u64_from_le_bytes(s1[7]) == size1);
        assert(spec_u64_from_le_bytes(s2[7]) == size2);
    }
}

/// One bid in a sequence of bids: the time, the currency's decimal places,
/// the amount, and the bidder's trade state.
pub struct BidAttempt {
    pub now: u64,
    pub decimals: u8,
    pub amount: u64,
    pub buyer_trade_state: Pubkey,
}

/// The listing after a sequence of bids, each accepted or refused in turn.
pub open spec fn after_bids(l: ListingConfig, bids: Seq<BidAttempt>) -> ListingConfig
    decreases bids.len(),
{
    if bids.len() == 0 {
        l
    } else {
        let b = bids.last();
        after_bid(after_bids(l, bids.drop_last()), b.now, b.decimals, b.amount, b.buyer_trade_state)
    }
}

/// The listing's one-step rule never lowers the highest bid.
pub proof fn lemma_bid_never_lowers(l: ListingConfig, now: u64, decimals: u8, amount: u64, buyer_trade_state: Pubkey)
    ensures
        after_bid(l, now, decimals, amount, buyer_trade_state).highest_bid.amount >= l.highest_bid.amount,
{
}

/// Over any sequence of bids, the highest bid after a prefix is at most the
/// highest bid after a longer prefix: it never decreases.
pub proof fn lemma_highest_bid_monotone(l: ListingConfig, bids: Seq<BidAttempt>, i: int, j: int)
    requires
        0 <= i <= j <= bids.len(),
    ensures
        after_bids(l, bids.take(i)).highest_bid.amount <= after_bids(l, bids.take(j)).highest_bid.amount,
    decreases j - i,
{
    if i < j {
        lemma_highest_bid_monotone(l, bids, i, j - 1);
        let prev = bids.take(j - 1);
        assert(bids.take(j).drop_last() =~= prev);
        let b = bids.take(j).last();
        lemma_bid_never_lowers(after_bids(l, prev), b.now, b.decimals, b.amount, b.buyer_trade_state);
    }
}

/// While the auction window is open, a bid below the highest bid is refused
/// as too low.
pub proof fn lemma_low_bid_refused(l: ListingConfig, now: u64, decimals: u8, amount: u64)
    requires
        auction_active(l, now) is Ok,
        amount < l.highest_bid.amount,
    ensures
        bid_check(l, now, decimals, amount) == Err::<(), AuctioneerError>(AuctioneerError::BidTooLow),
{
}

/// Once the auction is over, settling against any trade state but the
/// highest bidder's is refused, whatever the amounts.
pub proof fn lemma_settle_only_highest_bidder(l: ListingConfig, now: u64, buyer_trade_state: Pubkey)
    requires
        crate::utils::auction_over(l, now) is Ok,
        buyer_trade_state@ != l.highest_bid.buyer_trade_state@,
    ensures
        sale_check(l, now, buyer_trade_state) == Err::<(), AuctioneerError>(AuctioneerError::NotHighestBidder),
{
}

/// A timed auction cannot be settled at its end time, and can be settled
/// with its highest bidder one second later.
pub proof fn lemma_settlement_boundary(l: ListingConfig, any_trade_state: Pubkey)
    requires
        l.timed_auction_config is Some,
        l.timed_auction_config->Some_0.end_time < u64::MAX,
    ensures
        sale_check(l, l.timed_auction_config->Some_0.end_time, any_trade_state)
            == Err::<(), AuctioneerError>(AuctioneerError::AuctionActive),
        sale_check(l, (l.timed_auction_config->Some_0.end_time + 1) as u64, l.highest_bid.buyer_trade_state) is Ok,
{
}

} // verus!
