use vstd::prelude::*;

use crate::cpi::AccountMeta;
use crate::errors::AuctioneerError;
use crate::forward::{
    account_error, auction_house_id, auction_house_program_id, auctioneer_sell_data, check_authority, check_delegate, check_house,
    delegate_ok, forward_request, forwarded, house_ok, sell_data, AuctionHouseData, ForwardRequest,
};
use crate::pda::{
    assert_canonical, assert_derived, auctioneer_authority_seeds, derives, is_canonical_bump, listing_config_seed_list,
    listing_config_seeds, program_as_signer_seed_list, program_as_signer_seeds, seeds_view, trade_state_seed_list,
    trade_state_seeds, with_bump,
};
use crate::pubkey::Pubkey;
use crate::state::{is_fresh_listing, sell_window, ListingConfig, TimedAuctionArgs, TimedAuctionConfig, AUCTIONEER_BUYER_PRICE};

verus! {

/// The accounts of a sell: the seller's item, the auction house, the
/// seller's priced and free trade states, the delegate, and the listing
/// configuration to create.
pub struct AuctioneerSell {
    pub auction_house_program: Pubkey,
    pub listing_config: Pubkey,
    pub wallet: Pubkey,
    pub token_account: Pubkey,
    /// The mint of the item that the token account holds.
    pub token_mint: Pubkey,
    /// The owner of the token account.
    pub token_owner: Pubkey,
    pub metadata: Pubkey,
    pub authority: Pubkey,
    pub auction_house: Pubkey,
    pub auction_house_fee_account: Pubkey,
    pub seller_trade_state: Pubkey,
    pub free_seller_trade_state: Pubkey,
    pub auctioneer_authority: Pubkey,
    pub ah_auctioneer_pda: Pubkey,
    pub program_as_signer: Pubkey,
    pub token_program: Pubkey,
    pub system_program: Pubkey,
    pub rent: Pubkey,
    /// What the auction house instance records.
    pub auction_house_data: AuctionHouseData,
    /// Nonce of the base engine's record of the delegate.
    pub ah_auctioneer_bump: u8,
    /// The accounts that signed the incoming call.
    pub signers: Vec<Pubkey>,
}

/// The accounts of the base engine's sell, in its order.
pub open spec fn sell_schema(a: AuctioneerSell) -> Seq<AccountMeta> {
    seq![
        AccountMeta { pubkey: a.wallet, is_signer: false, is_writable: true },
        AccountMeta { pubkey: a.token_account, is_signer: false, is_writable: true },
        AccountMeta { pubkey: a.metadata, is_signer: false, is_writable: false },
        AccountMeta { pubkey: a.authority, is_signer: false, is_writable: false },
        AccountMeta { pubkey: a.auctioneer_authority, is_signer: false, is_writable: false },
        AccountMeta { pubkey: a.auction_house, is_signer: false, is_writable: false },
        AccountMeta { pubkey: a.auction_house_fee_account, is_signer: false, is_writable: true },
        AccountMeta { pubkey: a.seller_trade_state, is_signer: false, is_writable: true },
        AccountMeta { pubkey: a.free_seller_trade_state, is_signer: false, is_writable: true },
        AccountMeta { pubkey: a.ah_auctioneer_pda, is_signer: false, is_writable: false },
        AccountMeta { pubkey: a.program_as_signer, is_signer: false, is_writable: false },
        AccountMeta { pubkey: a.token_program, is_signer: false, is_writable: false },
        AccountMeta { pubkey: a.system_program, is_signer: false, is_writable: false },
        AccountMeta { pubkey: a.rent, is_signer: false, is_writable: false },
    ]
}

/// The derived accounts of a sell are the identities their parameters give:
/// the seller's trade state at the auctioneer price, its free trade state at
/// price zero, and the base engine's signing identity.
pub open spec fn sell_accounts_ok(
    a: AuctioneerSell,
    program_id: Pubkey,
    trade_state_bump: u8,
    free_trade_state_bump: u8,
    program_as_signer_bump: u8,
    auctioneer_authority_bump: u8,
    token_size: u64,
) -> bool {
    let d = a.auction_house_data;
    &&& house_ok(a.auction_house_program, a.auction_house, a.auction_house_fee_account, d)
    &&& d.authority@ == a.authority@
    &&& delegate_ok(program_id, a.auction_house, a.auctioneer_authority, auctioneer_authority_bump, a.ah_auctioneer_pda, a.ah_auctioneer_bump)
    &&& derives(a.seller_trade_state@, trade_state_seeds(a.wallet@, a.auction_house@, a.token_account@, d.treasury_mint@, a.token_mint@, AUCTIONEER_BUYER_PRICE, token_size), trade_state_bump, auction_house_program_id())
    &&& derives(a.free_seller_trade_state@, trade_state_seeds(a.wallet@, a.auction_house@, a.token_account@, d.treasury_mint@, a.token_mint@, 0, token_size), free_trade_state_bump, auction_house_program_id())
    &&& derives(a.program_as_signer@, program_as_signer_seeds(), program_as_signer_bump, auction_house_program_id())
}

/// The seeds of the listing configuration of a sell.
pub open spec fn sell_listing_seeds(a: AuctioneerSell, token_size: u64) -> Seq<Seq<u8>> {
    listing_config_seeds(a.wallet@, a.auction_house@, a.token_account@, a.auction_house_data.treasury_mint@, a.token_mint@, token_size)
}

/// The listing configuration account is the one its seeds give with the
/// first working nonce.
pub open spec fn listing_account_ok(a: AuctioneerSell, program_id: Pubkey, token_size: u64) -> bool {
    exists|b: u8| #[trigger] is_canonical_bump(sell_listing_seeds(a, token_size), b, program_id@)
        && derives(a.listing_config@, sell_listing_seeds(a, token_size), b, program_id@)
}

/// The rules of a sell once its accounts are right: the seller owns the
/// item, the minimum bid is positive, and a window does not start in the past.
pub open spec fn sell_rules(a: AuctioneerSell, now: u64, timed_auction: Option<TimedAuctionArgs>, min_bid: u64) -> Result<Option<TimedAuctionConfig>, AuctioneerError> {
    if a.token_owner@ != a.wallet@ {
        Err(AuctioneerError::Unauthorized)
    } else if min_bid == 0 {
        Err(AuctioneerError::MinBidMustNotBeZero)
    } else {
        sell_window(now, timed_auction)
    }
}

/// What a sell returns: wrong accounts are refused; otherwise the rules of
/// a sell decide, and on success the listing is fresh with the asked
/// settings and the canonical nonce of its account, and the request is the
/// base engine's sell, signed as the delegate.
pub open spec fn sell_outcome(
    a: AuctioneerSell,
    program_id: Pubkey,
    now: u64,
    trade_state_bump: u8,
    free_trade_state_bump: u8,
    program_as_signer_bump: u8,
    auctioneer_authority_bump: u8,
    token_size: u64,
    timed_auction: Option<TimedAuctionArgs>,
    min_bid: u64,
    r: Result<(ListingConfig, ForwardRequest), AuctioneerError>,
) -> bool {
    let accounts = sell_accounts_ok(a, program_id, trade_state_bump, free_trade_state_bump, program_as_signer_bump,
        auctioneer_authority_bump, token_size) && listing_account_ok(a, program_id, token_size);
    &&& (!accounts ==> (r matches Err(e) && account_error(e)))
    &&& (accounts ==> match sell_rules(a, now, timed_auction, min_bid) {
        Err(e) => r == Err::<(ListingConfig, ForwardRequest), AuctioneerError>(e),
        Ok(window) => (r matches Ok((l, req)) && {
            &&& is_canonical_bump(sell_listing_seeds(a, token_size), l.bump, program_id@)
            &&& derives(a.listing_config@, sell_listing_seeds(a, token_size), l.bump, program_id@)
            &&& is_fresh_listing(l, window, min_bid, l.bump)
            &&& l.wf()
            &&& req.instruction.program_id@ == auction_house_program_id()
            &&& req.instruction.accounts@ == forwarded(sell_schema(a), a.signers@, a.auctioneer_authority)
            &&& req.instruction.data@ == auctioneer_sell_data(trade_state_bump, free_trade_state_bump, program_as_signer_bump, token_size)
            &&& seeds_view(req.signer_seeds@) == with_bump(auctioneer_authority_seeds(a.auction_house@), auctioneer_authority_bump)
        }),
    })
}

/// The base engine's sell, in its order.
fn sell_schema_list(a: &AuctioneerSell) -> (r: Vec<AccountMeta>)
    ensures
        r@ == sell_schema(*a),
{
    let r: Vec<AccountMeta> = vec![
        AccountMeta::new(a.wallet, false),
        AccountMeta::new(a.token_account, false),
        AccountMeta::new_readonly(a.metadata, false),
        AccountMeta::new_readonly(a.authority, false),
        AccountMeta::new_readonly(a.auctioneer_authority, false),
        AccountMeta::new_readonly(a.auction_house, false),
        AccountMeta::new(a.auction_house_fee_account, false),
        AccountMeta::new(a.seller_trade_state, false),
        AccountMeta::new(a.free_seller_trade_state, false),
        AccountMeta::new_readonly(a.ah_auctioneer_pda, false),
        AccountMeta::new_readonly(a.program_as_signer, false),
        AccountMeta::new_readonly(a.token_program, false),
        AccountMeta::new_readonly(a.system_program, false),
        AccountMeta::new_readonly(a.rent, false),
    ];
    assert(r@ =~= sell_schema(*a));
    r
}

/// Lists an item: checks the accounts, opens the listing configuration at
/// `now`, and builds the request that has the base engine record the ask
/// and take the item as collateral, signed as the delegate.
pub fn auctioneer_sell(
    a: &AuctioneerSell,
    program_id: &Pubkey,
    now: u64,
    trade_state_bump: u8,
    free_trade_state_bump: u8,
    program_as_signer_bump: u8,
    auctioneer_authority_bump: u8,
    token_size: u64,
    timed_auction: Option<TimedAuctionArgs>,
    min_bid: u64,
) -> (r: Result<(ListingConfig, ForwardRequest), AuctioneerError>)
    ensures
        sell_outcome(*a, *program_id, now, trade_state_bump, free_trade_state_bump, program_as_signer_bump,
            auctioneer_authority_bump, token_size, timed_auction, min_bid, r),
{
    let d = &a.auction_house_data;
    check_house(&a.auction_house_program, &a.auction_house, &a.auction_house_fee_account, d)?;
    check_authority(&a.authority, d)?;
    check_delegate(program_id, &a.auction_house, &a.auctioneer_authority, auctioneer_authority_bump, &a.ah_auctioneer_pda, a.ah_auctioneer_bump)?;
    let engine = auction_house_id();
    let seller_seeds = trade_state_seed_list(&a.wallet, &a.auction_house, &a.token_account, &d.treasury_mint, &a.token_mint, AUCTIONEER_BUYER_PRICE, token_size);
    assert_derived(&a.seller_trade_state, &seller_seeds, trade_state_bump, &engine)?;
    let free_seeds = trade_state_seed_list(&a.wallet, &a.auction_house, &a.token_account, &d.treasury_mint, &a.token_mint, 0, token_size);
    assert_derived(&a.free_seller_trade_state, &free_seeds, free_trade_state_bump, &engine)?;
    assert_derived(&a.program_as_signer, &program_as_signer_seed_list(), program_as_signer_bump, &engine)?;
    let listing_seeds = listing_config_seed_list(&a.wallet, &a.auction_house, &a.token_account, &d.treasury_mint, &a.token_mint, token_size);
    let bump = match assert_canonical(&a.listing_config, &listing_seeds, program_id) {
        Ok(b) => b,
        Err(e) => {
            proof {
                assert(!listing_account_ok(*a, *program_id, token_size));
            }
            return Err(e);
        },
    };
    if !a.token_owner.same(&a.wallet) {
        return Err(AuctioneerError::Unauthorized);
    }
    let listing = ListingConfig::create(now, timed_auction, min_bid, bump)?;
    let data = sell_data(trade_state_bump, free_trade_state_bump, program_as_signer_bump, token_size);
    let req = forward_request(&sell_schema_list(a), &a.signers, &a.auctioneer_authority, &a.auction_house, auctioneer_authority_bump, data);
    Ok((listing, req))
}

} // verus!
