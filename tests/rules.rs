use auctioneer::cpi::AccountMeta;
use auctioneer::errors::AuctioneerError;
use auctioneer::pubkey::Pubkey;
use auctioneer::state::{
    AuctioneerAuthority, Bid, ListingConfig, TimedAuctionArgs, TimedAuctionConfig, TimedAuctionDuration,
};
use auctioneer::trade::{authorize_delegate, check_cancel, check_scope, AuthorityScope};
use auctioneer::utils::{
    assert_auction_active, assert_auction_over, assert_higher_bid, min_bid_step, to_signed_metas,
};

fn key(n: u8) -> Pubkey {
    Pubkey::new([n; 32])
}

fn open_listing(min_bid: u64) -> ListingConfig {
    ListingConfig::create(1_000, None, min_bid, 254).unwrap()
}

fn windowed(start: u64, end: u64, highest: u64, bidder: u8) -> ListingConfig {
    ListingConfig {
        timed_auction_config: Some(TimedAuctionConfig { start_time: start, end_time: end }),
        min_bid: 10,
        highest_bid: Bid { amount: highest, buyer_trade_state: key(bidder) },
        bump: 255,
    }
}

#[test]
fn duration_in_seconds() {
    assert_eq!(TimedAuctionDuration::H12.seconds(), 43_200);
    assert_eq!(TimedAuctionDuration::H24.seconds(), 86_400);
    assert_eq!(u64::from(TimedAuctionDuration::H48), 172_800);
}

#[test]
fn create_listing_without_window() {
    let l = ListingConfig::create(500, None, 100, 7).unwrap();
    assert_eq!(l.min_bid, 100);
    assert_eq!(l.bump, 7);
    assert_eq!(l.highest_bid.amount, 0);
    assert_eq!(l.highest_bid.buyer_trade_state.bytes, [0u8; 32]);
    assert!(l.timed_auction_config.is_none());
}

#[test]
fn create_listing_window_defaults_to_now() {
    let args = TimedAuctionArgs { start_time: None, duration: TimedAuctionDuration::H12 };
    let l = ListingConfig::create(1_000, Some(args), 5, 1).unwrap();
    assert_eq!(l.timed_auction_config, Some(TimedAuctionConfig { start_time: 1_000, end_time: 44_200 }));
    assert_eq!(l.highest_bid.amount, 0);
}

#[test]
fn create_listing_window_in_future() {
    let args = TimedAuctionArgs { start_time: Some(2_000), duration: TimedAuctionDuration::H24 };
    let l = ListingConfig::create(1_000, Some(args), 5, 1).unwrap();
    assert_eq!(l.timed_auction_config, Some(TimedAuctionConfig { start_time: 2_000, end_time: 88_400 }));
}

#[test]
fn create_listing_refuses_zero_minimum() {
    assert_eq!(ListingConfig::create(1, None, 0, 1).unwrap_err(), AuctioneerError::MinBidMustNotBeZero);
}

#[test]
fn create_listing_refuses_start_in_past() {
    let args = TimedAuctionArgs { start_time: Some(999), duration: TimedAuctionDuration::H12 };
    assert_eq!(ListingConfig::create(1_000, Some(args), 5, 1).unwrap_err(), AuctioneerError::AuctionStartTimeInThePast);
}

#[test]
fn create_listing_refuses_window_past_clock_range() {
    let args = TimedAuctionArgs { start_time: Some(u64::MAX - 10), duration: TimedAuctionDuration::H12 };
    assert_eq!(ListingConfig::create(1_000, Some(args), 5, 1).unwrap_err(), AuctioneerError::NumericalOverflow);
}

#[test]
fn bid_step_for_decimals() {
    assert_eq!(min_bid_step(1), None);
    assert_eq!(min_bid_step(2), Some(1));
    assert_eq!(min_bid_step(9), Some(10_000_000));
    assert_eq!(min_bid_step(21), Some(10_000_000_000_000_000_000));
    assert_eq!(min_bid_step(22), None);
}

#[test]
fn second_equal_bid_is_below_step() {
    let mut l = open_listing(100);
    assert_eq!(l.place_bid(1_000, 2, 100, key(1)), Ok(()));
    assert_eq!(l.highest_bid.amount, 100);
    assert_eq!(l.place_bid(1_000, 2, 100, key(2)), Err(AuctioneerError::BidStepTooSmall));
    assert_eq!(l.highest_bid.amount, 100);
    assert_eq!(l.highest_bid.buyer_trade_state, key(1));
    assert_eq!(l.place_bid(1_000, 2, 101, key(3)), Ok(()));
    assert_eq!(l.highest_bid.amount, 101);
    assert_eq!(l.highest_bid.buyer_trade_state, key(3));
}

#[test]
fn lower_bid_is_too_low() {
    let mut l = open_listing(10);
    l.place_bid(1_000, 2, 500, key(1)).unwrap();
    assert_eq!(l.place_bid(1_000, 2, 499, key(2)), Err(AuctioneerError::BidTooLow));
    assert_eq!(l.highest_bid.amount, 500);
}

#[test]
fn bids_never_lower_highest() {
    let mut l = open_listing(10);
    let mut last = 0;
    for (i, amount) in [10u64, 5, 50, 49, 50, 51, 1_000, 20].iter().enumerate() {
        let _ = l.place_bid(1_000, 2, *amount, key(i as u8));
        assert!(l.highest_bid.amount >= last);
        last = l.highest_bid.amount;
    }
    assert_eq!(last, 1_000);
}

#[test]
fn bid_below_minimum_is_too_low() {
    let l = open_listing(100);
    assert_eq!(assert_higher_bid(&l, 2, 99), Err(AuctioneerError::BidTooLow));
}

#[test]
fn bid_in_currency_without_cents_is_refused() {
    let l = open_listing(100);
    assert_eq!(assert_higher_bid(&l, 0, 1_000), Err(AuctioneerError::BidStepTooSmall));
    assert_eq!(assert_higher_bid(&l, 1, 1_000), Err(AuctioneerError::BidStepTooSmall));
}

#[test]
fn bid_step_scales_with_decimals() {
    let mut l = open_listing(1);
    l.highest_bid.amount = 1_000_000_000;
    assert_eq!(assert_higher_bid(&l, 9, 1_009_999_999), Err(AuctioneerError::BidStepTooSmall));
    assert_eq!(assert_higher_bid(&l, 9, 1_010_000_000), Ok(()));
}

#[test]
fn auction_window_for_bids() {
    let l = windowed(100, 200, 0, 0);
    assert_eq!(assert_auction_active(&l, 99), Err(AuctioneerError::AuctionNotStarted));
    assert_eq!(assert_auction_active(&l, 100), Ok(()));
    assert_eq!(assert_auction_active(&l, 199), Ok(()));
    assert_eq!(assert_auction_active(&l, 200), Err(AuctioneerError::AuctionEnded));
}

#[test]
fn bid_outside_window_is_refused() {
    let mut l = windowed(100, 200, 0, 0);
    assert_eq!(l.place_bid(50, 2, 20, key(1)), Err(AuctioneerError::AuctionNotStarted));
    assert_eq!(l.place_bid(200, 2, 20, key(1)), Err(AuctioneerError::AuctionEnded));
    assert_eq!(l.highest_bid.amount, 0);
    assert_eq!(l.place_bid(150, 2, 20, key(1)), Ok(()));
}

#[test]
fn settlement_waits_for_end() {
    let l = windowed(100, 200, 50, 9);
    assert_eq!(assert_auction_over(&l, 200), Err(AuctioneerError::AuctionActive));
    assert_eq!(assert_auction_over(&l, 201), Ok(()));
    assert_eq!(l.check_execute_sale(200, &key(9)), Err(AuctioneerError::AuctionActive));
    assert_eq!(l.check_execute_sale(201, &key(9)), Ok(()));
}

#[test]
fn settlement_only_with_highest_bidder() {
    let l = windowed(100, 200, 50, 9);
    assert_eq!(l.check_execute_sale(500, &key(8)), Err(AuctioneerError::NotHighestBidder));
    let open = open_listing(10);
    assert_eq!(open.check_execute_sale(0, &key(8)), Err(AuctioneerError::NotHighestBidder));
    assert_eq!(open.check_execute_sale(0, &key(0)), Ok(()));
}

#[test]
fn cancel_by_stranger_is_unauthorized() {
    assert_eq!(check_cancel(&key(3), &key(1), &key(2)), Err(AuctioneerError::Unauthorized));
    assert_eq!(check_cancel(&key(1), &key(1), &key(2)), Ok(()));
    assert_eq!(check_cancel(&key(2), &key(1), &key(2)), Ok(()));
}

#[test]
fn delegate_authorized_once() {
    let mut record: Option<AuctioneerAuthority> = None;
    assert_eq!(authorize_delegate(&mut record, &key(5), &key(6), 250), Err(AuctioneerError::Unauthorized));
    assert_eq!(record, None);
    assert_eq!(authorize_delegate(&mut record, &key(6), &key(6), 250), Ok(()));
    assert_eq!(record, Some(AuctioneerAuthority { bump: 250 }));
    assert_eq!(authorize_delegate(&mut record, &key(6), &key(6), 250), Err(AuctioneerError::AlreadyExists));
    assert_eq!(record, Some(AuctioneerAuthority { bump: 250 }));
}

#[test]
fn scopes_are_looked_up() {
    let scopes = vec![AuthorityScope::Deposit, AuthorityScope::Sell];
    assert!(check_scope(&scopes, AuthorityScope::Sell));
    assert!(!check_scope(&scopes, AuthorityScope::ExecuteSale));
    assert!(!check_scope(&Vec::new(), AuthorityScope::Deposit));
}

#[test]
fn signer_flags_are_rewritten() {
    let metas = vec![
        AccountMeta::new(key(1), false),
        AccountMeta::new_readonly(key(2), false),
        AccountMeta::new_readonly(key(3), false),
    ];
    let infos = vec![
        AccountMeta::new(key(1), true),
        AccountMeta::new_readonly(key(2), false),
        AccountMeta::new_readonly(key(3), false),
    ];
    let out = to_signed_metas(&key(2), &metas, &infos).unwrap();
    assert_eq!(out.len(), 3);
    assert!(out[0].is_signer && out[0].is_writable);
    assert!(out[1].is_signer && !out[1].is_writable);
    assert!(!out[2].is_signer);
    assert_eq!(out[2].pubkey, key(3));
}

#[test]
fn malformed_forward_is_refused() {
    let metas = vec![AccountMeta::new(key(1), false), AccountMeta::new(key(2), false)];
    let short = vec![AccountMeta::new(key(1), false)];
    assert_eq!(to_signed_metas(&key(9), &metas, &short).unwrap_err(), AuctioneerError::MalformedForwardRequest);
    let swapped = vec![AccountMeta::new(key(2), false), AccountMeta::new(key(1), false)];
    assert_eq!(to_signed_metas(&key(9), &metas, &swapped).unwrap_err(), AuctioneerError::MalformedForwardRequest);
}

#[test]
fn error_codes_and_messages() {
    assert_eq!(AuctioneerError::NoValidNonce.code(), 6000);
    assert_eq!(AuctioneerError::BidTooLow.code(), 6008);
    assert_eq!(AuctioneerError::AccountMismatch.code(), 6014);
    assert_eq!(AuctioneerError::AuctionEnded.message(), "Auction has ended");
    assert_eq!(AuctioneerError::NotHighestBidder.message(), "Execute Sale must be run on the highest bidder");
}

