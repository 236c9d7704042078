use vstd::prelude::*;

pub mod authorize;
pub mod buy;
pub mod cancel;
pub mod constants;
pub mod cpi;
pub mod deposit;
pub mod errors;
pub mod execute_sale;
pub mod forward;
pub mod laws;
pub mod pda;
pub mod pubkey;
pub mod sell;
pub mod state;
pub mod trade;
pub mod utils;
pub mod withdraw;

use crate::authorize::{auctioneer_authorize, authorize_outcome, AuctioneerAuthorize};
use crate::buy::{auctioneer_buy, buy_outcome, AuctioneerBuy};
use crate::cancel::{auctioneer_cancel, cancel_outcome, AuctioneerCancel};
use crate::deposit::{auctioneer_deposit, deposit_outcome, AuctioneerDeposit};
use crate::errors::AuctioneerError;
use crate::execute_sale::{auctioneer_execute_sale, execute_sale_outcome, AuctioneerExecuteSale};
use crate::forward::ForwardRequest;
use crate::pubkey::Pubkey;
use crate::sell::{auctioneer_sell, sell_outcome, AuctioneerSell};
use crate::state::{AuctioneerAuthority, ListingConfig, TimedAuctionArgs};
use crate::withdraw::{auctioneer_withdraw, withdraw_outcome, AuctioneerWithdraw};

verus! {

/// Authorize the auctioneer to manage an auction house.
pub fn authorize(a: &AuctioneerAuthorize, record: &mut Option<AuctioneerAuthority>, program_id: &Pubkey) -> (r: Result<(), AuctioneerError>)
    ensures
        authorize_outcome(*a, *old(record), *final(record), *program_id, r),
{
    auctioneer_authorize(a, record, program_id)
}

/// Withdraw `amount` from the escrow payment account of a wallet.
pub fn withdraw(
    a: &AuctioneerWithdraw,
    program_id: &Pubkey,
    escrow_payment_bump: u8,
    auctioneer_authority_bump: u8,
    amount: u64,
) -> (r: Result<ForwardRequest, AuctioneerError>)
    ensures
        withdraw_outcome(*a, *program_id, escrow_payment_bump, auctioneer_authority_bump, amount, r),
{
    auctioneer_withdraw(a, program_id, escrow_payment_bump, auctioneer_authority_bump, amount)
}

/// Deposit `amount` into the escrow payment account of a wallet.
pub fn deposit(
    a: &AuctioneerDeposit,
    program_id: &Pubkey,
    escrow_payment_bump: u8,
    auctioneer_authority_bump: u8,
    amount: u64,
) -> (r: Result<ForwardRequest, AuctioneerError>)
    ensures
        deposit_outcome(*a, *program_id, escrow_payment_bump, auctioneer_authority_bump, amount, r),
{
    auctioneer_deposit(a, program_id, escrow_payment_bump, auctioneer_authority_bump, amount)
}

/// Cancel a bid or an ask: the base engine revokes the token delegation and
/// closes the trade state.
pub fn cancel(
    a: &AuctioneerCancel,
    program_id: &Pubkey,
    auctioneer_authority_bump: u8,
    buyer_price: u64,
    token_size: u64,
) -> (r: Result<ForwardRequest, AuctioneerError>)
    ensures
        cancel_outcome(*a, *program_id, auctioneer_authority_bump, buyer_price, token_size, r),
{
    auctioneer_cancel(a, program_id, auctioneer_authority_bump, buyer_price, token_size)
}

/// List an item: open its listing configuration and have the base engine
/// record the ask and take the item as collateral.
pub fn sell(
    a: &AuctioneerSell,
    program_id: &Pubkey,
    now: u64,
    trade_state_bump: u8,
    free_trade_state_bump: u8,
    program_as_signer_bump: u8,
    auctioneer_authority_bump: u8,
    token_size: u64,
    timed_auction: Option<TimedAuctionArgs>,
    min_bid: u64,
) -> (r: Result<(ListingConfig, ForwardRequest), AuctioneerError>)
    ensures
        sell_outcome(*a, *program_id, now, trade_state_bump, free_trade_state_bump, program_as_signer_bump,
            auctioneer_authority_bump, token_size, timed_auction, min_bid, r),
{
    auctioneer_sell(a, program_id, now, trade_state_bump, free_trade_state_bump, program_as_signer_bump,
        auctioneer_authority_bump, token_size, timed_auction, min_bid)
}

/// Bid on a listing: the listing takes the bid and the base engine records
/// it and funds the escrow.
pub fn buy(
    a: &AuctioneerBuy,
    listing: &mut ListingConfig,
    program_id: &Pubkey,
    now: u64,
    decimals: u8,
    trade_state_bump: u8,
    escrow_payment_bump: u8,
    auctioneer_authority_bump: u8,
    buyer_price: u64,
    token_size: u64,
) -> (r: Result<ForwardRequest, AuctioneerError>)
    ensures
        buy_outcome(*a, *old(listing), *final(listing), *program_id, now, decimals, trade_state_bump,
            escrow_payment_bump, auctioneer_authority_bump, buyer_price, token_size, r),
{
    auctioneer_buy(a, listing, program_id, now, decimals, trade_state_bump, escrow_payment_bump,
        auctioneer_authority_bump, buyer_price, token_size)
}

/// Settle a listing with its highest bidder: the base engine moves the item
/// to the buyer and the funds to the seller.
pub fn execute_sale(
    a: &AuctioneerExecuteSale,
    listing: &ListingConfig,
    program_id: &Pubkey,
    now: u64,
    escrow_payment_bump: u8,
    free_trade_state_bump: u8,
    program_as_signer_bump: u8,
    auctioneer_authority_bump: u8,
    buyer_price: u64,
    token_size: u64,
) -> (r: Result<ForwardRequest, AuctioneerError>)
    ensures
        execute_sale_outcome(*a, *listing, *program_id, now, escrow_payment_bump, free_trade_state_bump,
            program_as_signer_bump, auctioneer_authority_bump, buyer_price, token_size, r),
{
    auctioneer_execute_sale(a, listing, program_id, now, escrow_payment_bump, free_trade_state_bump,
        program_as_signer_bump, auctioneer_authority_bump, buyer_price, token_size)
}

} // verus!
