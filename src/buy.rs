use vstd::prelude::*;

use crate::cpi::AccountMeta;
use crate::errors::AuctioneerError;
use crate::forward::{
    account_error, auction_house_id, auction_house_program_id, auctioneer_buy_data, buy_data, check_authority, check_delegate,
    check_house, delegate_ok, forward_request, forwarded, house_ok, AuctionHouseData, ForwardRequest,
};
use crate::pda::{
    assert_derived, auctioneer_authority_seeds, derives, escrow_seed_list, escrow_seeds, listing_config_seed_list,
    listing_config_seeds, seeds_view, trade_state_seed_list, trade_state_seeds, with_bump,
};
use crate::pubkey::Pubkey;
use crate::state::ListingConfig;
use crate::trade::{after_bid, bid_check};

verus! {

/// The accounts of a bid: the buyer's funds and escrow, the listed item and
/// its listing configuration, the auction house, and the delegate.
pub struct AuctioneerBuy {
    pub auction_house_program: Pubkey,
    pub listing_config: Pubkey,
    /// The seller whose listing is bid on.
    pub seller: Pubkey,
    pub wallet: Pubkey,
    pub payment_account: Pubkey,
    pub transfer_authority: Pubkey,
    pub treasury_mint: Pubkey,
    pub token_account: Pubkey,
    /// The mint of the listed item.
    pub token_mint: Pubkey,
    pub metadata: Pubkey,
    pub escrow_payment_account: Pubkey,
    pub authority: Pubkey,
    pub auctioneer_authority: Pubkey,
    pub auction_house: Pubkey,
    pub auction_house_fee_account: Pubkey,
    pub buyer_trade_state: Pubkey,
    pub ah_auctioneer_pda: Pubkey,
    pub token_program: Pubkey,
    pub system_program: Pubkey,
    pub rent: Pubkey,
    /// What the auction house instance records.
    pub auction_house_data: AuctionHouseData,
    /// Nonce of the base engine's record of the delegate.
    pub ah_auctioneer_bump: u8,
    /// The accounts that signed the incoming call.
    pub signers: Vec<Pubkey>,
}

/// The accounts of the base engine's bid, in its order.
pub open spec fn buy_schema(a: AuctioneerBuy) -> Seq<AccountMeta> {
    seq![
        AccountMeta { pubkey: a.wallet, is_signer: false, is_writable: false },
        AccountMeta { pubkey: a.payment_account, is_signer: false, is_writable: true },
        AccountMeta { pubkey: a.transfer_authority, is_signer: false, is_writable: false },
        AccountMeta { pubkey: a.treasury_mint, is_signer: false, is_writable: false },
        AccountMeta { pubkey: a.token_account, is_signer: false, is_writable: false },
        AccountMeta { pubkey: a.metadata, is_signer: false, is_writable: false },
        AccountMeta { pubkey: a.escrow_payment_account, is_signer: false, is_writable: true },
        AccountMeta { pubkey: a.authority, is_signer: false, is_writable: false },
        AccountMeta { pubkey: a.auctioneer_authority, is_signer: false, is_writable: false },
        AccountMeta { pubkey: a.auction_house, is_signer: false, is_writable: false },
        AccountMeta { pubkey: a.auction_house_fee_account, is_signer: false, is_writable: true },
        AccountMeta { pubkey: a.buyer_trade_state, is_signer: false, is_writable: true },
        AccountMeta { pubkey: a.ah_auctioneer_pda, is_signer: false, is_writable: false },
        AccountMeta { pubkey: a.token_program, is_signer: false, is_writable: false },
        AccountMeta { pubkey: a.system_program, is_signer: false, is_writable: false },
        AccountMeta { pubkey: a.rent, is_signer: false, is_writable: false },
    ]
}

/// The accounts of a bid are right: the auction house and its currency, the
/// delegate, the buyer's escrow, the buyer's trade state at `buyer_price`,
/// and the listing configuration with its recorded nonce `listing_bump`.
pub open spec fn buy_accounts_ok(
    a: AuctioneerBuy,
    program_id: Pubkey,
    listing_bump: u8,
    trade_state_bump: u8,
    escrow_payment_bump: u8,
    auctioneer_authority_bump: u8,
    buyer_price: u64,
    token_size: u64,
) -> bool {
    let d = a.auction_house_data;
    &&& house_ok(a.auction_house_program, a.auction_house, a.auction_house_fee_account, d)
    &&& d.authority@ == a.authority@
    &&& d.treasury_mint@ == a.treasury_mint@
    &&& delegate_ok(program_id, a.auction_house, a.auctioneer_authority, auctioneer_authority_bump, a.ah_auctioneer_pda, a.ah_auctioneer_bump)
    &&& derives(a.escrow_payment_account@, escrow_seeds(a.auction_house@, a.wallet@), escrow_payment_bump, auction_house_program_id())
    &&& derives(a.buyer_trade_state@, trade_state_seeds(a.wallet@, a.auction_house@, a.token_account@, a.treasury_mint@, a.token_mint@, buyer_price, token_size), trade_state_bump, auction_house_program_id())
    &&& derives(a.listing_config@, listing_config_seeds(a.seller@, a.auction_house@, a.token_account@, a.treasury_mint@, a.token_mint@, token_size), listing_bump, program_id@)
}

/// What a bid returns and does to the listing: with the accounts right, the
/// listing takes the bid exactly as the bidding rules say and the request is
/// the base engine's bid signed as the delegate; wrong accounts are refused
/// and leave the listing as it was.
pub open spec fn buy_outcome(
    a: AuctioneerBuy,
    before: ListingConfig,
    after: ListingConfig,
    program_id: Pubkey,
    now: u64,
    decimals: u8,
    trade_state_bump: u8,
    escrow_payment_bump: u8,
    auctioneer_authority_bump: u8,
    buyer_price: u64,
    token_size: u64,
    r: Result<ForwardRequest, AuctioneerError>,
) -> bool {
    let accounts = buy_accounts_ok(a, program_id, before.bump, trade_state_bump, escrow_payment_bump, auctioneer_authority_bump, buyer_price, token_size);
    &&& (!accounts ==> (r matches Err(e) && account_error(e)) && after == before)
    &&& (accounts ==> match bid_check(before, now, decimals, buyer_price) {
        Err(e) => r == Err::<ForwardRequest, AuctioneerError>(e) && after == before,
        Ok(_) => (r matches Ok(req) && {
            &&& after == after_bid(before, now, decimals, buyer_price, a.buyer_trade_state)
            &&& req.instruction.program_id@ == auction_house_program_id()
            &&& req.instruction.accounts@ == forwarded(buy_schema(a), a.signers@, a.auctioneer_authority)
            &&& req.instruction.data@ == auctioneer_buy_data(trade_state_bump, escrow_payment_bump, buyer_price, token_size)
            &&& seeds_view(req.signer_seeds@) == with_bump(auctioneer_authority_seeds(a.auction_house@), auctioneer_authority_bump)
        }),
    })
}

/// The base engine's bid, in its order.
fn buy_schema_list(a: &AuctioneerBuy) -> (r: Vec<AccountMeta>)
    ensures
        r@ == buy_schema(*a),
{
    let r: Vec<AccountMeta> = vec![
        AccountMeta::new_readonly(a.wallet, false),
        AccountMeta::new(a.payment_account, false),
        AccountMeta::new_readonly(a.transfer_authority, false),
        AccountMeta::new_readonly(a.treasury_mint, false),
        AccountMeta::new_readonly(a.token_account, false),
        AccountMeta::new_readonly(a.metadata, false),
        AccountMeta::new(a.escrow_payment_account, false),
        AccountMeta::new_readonly(a.authority, false),
        AccountMeta::new_readonly(a.auctioneer_authority, false),
        AccountMeta::new_readonly(a.auction_house, false),
        AccountMeta::new(a.auction_house_fee_account, false),
        AccountMeta::new(a.buyer_trade_state, false),
        AccountMeta::new_readonly(a.ah_auctioneer_pda, false),
        AccountMeta::new_readonly(a.token_program, false),
        AccountMeta::new_readonly(a.system_program, false),
        AccountMeta::new_readonly(a.rent, false),
    ];
    assert(r@ =~= buy_schema(*a));
    r
}

/// Places a bid of `buyer_price` on a listing at `now`, in a currency with
/// `decimals` decimal places: checks the accounts, has the listing take the
/// bid, and builds the request that has the base engine record the bid and
/// fund the escrow, signed as the delegate.
pub fn auctioneer_buy(
    a: &AuctioneerBuy,
    listing: &mut ListingConfig,
    program_id: &Pubkey,
    now: u64,
    decimals: u8,
    trade_state_bump: u8,
    escrow_payment_bump: u8,
    auctioneer_authority_bump: u8,
    buyer_price: u64,
    token_size: u64,
) -> (r: Result<ForwardRequest, AuctioneerError>)
    ensures
        buy_outcome(*a, *old(listing), *final(listing), *program_id, now, decimals, trade_state_bump,
            escrow_payment_bump, auctioneer_authority_bump, buyer_price, token_size, r),
{
    let d = &a.auction_house_data;
    check_house(&a.auction_house_program, &a.auction_house, &a.auction_house_fee_account, d)?;
    check_authority(&a.authority, d)?;
    if !d.treasury_mint.same(&a.treasury_mint) {
        return Err(AuctioneerError::AccountMismatch);
    }
    check_delegate(program_id, &a.auction_house, &a.auctioneer_authority, auctioneer_authority_bump, &a.ah_auctioneer_pda, a.ah_auctioneer_bump)?;
    let engine = auction_house_id();
    assert_derived(&a.escrow_payment_account, &escrow_seed_list(&a.auction_house, &a.wallet), escrow_payment_bump, &engine)?;
    let bid_seeds = trade_state_seed_list(&a.wallet, &a.auction_house, &a.token_account, &a.treasury_mint, &a.token_mint, buyer_price, token_size);
    assert_derived(&a.buyer_trade_state, &bid_seeds, trade_state_bump, &engine)?;
    let listing_seeds = listing_config_seed_list(&a.seller, &a.auction_house, &a.token_account, &a.treasury_mint, &a.token_mint, token_size);
    assert_derived(&a.listing_config, &listing_seeds, listing.bump, program_id)?;
    listing.place_bid(now, decimals, buyer_price, a.buyer_trade_state)?;
    let data = buy_data(trade_state_bump, escrow_payment_bump, buyer_price, token_size);
    Ok(forward_request(&buy_schema_list(a), &a.signers, &a.auctioneer_authority, &a.auction_house, auctioneer_authority_bump, data))
}

} // verus!
