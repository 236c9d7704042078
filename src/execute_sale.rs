use vstd::prelude::*;

use crate::cpi::AccountMeta;
use crate::errors::AuctioneerError;
use crate::forward::{
    account_error, auction_house_id, auction_house_program_id, auctioneer_execute_sale_data, check_authority, check_delegate,
    check_house, delegate_ok, execute_sale_data, forward_request, forwarded, house_ok, AuctionHouseData,
    ForwardRequest,
};
use crate::pda::{
    assert_derived, auctioneer_authority_seeds, derives, escrow_seed_list, escrow_seeds, listing_config_seed_list,
    listing_config_seeds, program_as_signer_seed_list, program_as_signer_seeds, seeds_view, trade_state_seed_list,
    trade_state_seeds, treasury_seed_list, treasury_seeds, with_bump,
};
use crate::pubkey::Pubkey;
use crate::state::{ListingConfig, AUCTIONEER_BUYER_PRICE};
use crate::trade::sale_check;

verus! {

/// The accounts of a settlement between the highest bidder and the seller.
pub struct AuctioneerExecuteSale {
    pub auction_house_program: Pubkey,
    pub listing_config: Pubkey,
    pub buyer: Pubkey,
    pub seller: Pubkey,
    pub token_account: Pubkey,
    pub token_mint: Pubkey,
    pub metadata: Pubkey,
    pub treasury_mint: Pubkey,
    pub escrow_payment_account: Pubkey,
    pub seller_payment_receipt_account: Pubkey,
    pub buyer_receipt_token_account: Pubkey,
    pub authority: Pubkey,
    pub auction_house: Pubkey,
    pub auction_house_fee_account: Pubkey,
    pub auction_house_treasury: Pubkey,
    pub buyer_trade_state: Pubkey,
    pub seller_trade_state: Pubkey,
    pub free_trade_state: Pubkey,
    pub auctioneer_authority: Pubkey,
    pub ah_auctioneer_pda: Pubkey,
    pub token_program: Pubkey,
    pub system_program: Pubkey,
    pub ata_program: Pubkey,
    pub program_as_signer: Pubkey,
    pub rent: Pubkey,
    /// What the auction house instance records.
    pub auction_house_data: AuctionHouseData,
    /// Nonce of the base engine's record of the delegate.
    pub ah_auctioneer_bump: u8,
    /// Nonce that the seller's trade state records of itself.
    pub seller_trade_state_bump: u8,
    /// The accounts that signed the incoming call.
    pub signers: Vec<Pubkey>,
}

/// The accounts of the base engine's settlement, in its order.
pub open spec fn execute_sale_schema(a: AuctioneerExecuteSale) -> Seq<AccountMeta> {
    seq![
        AccountMeta { pubkey: a.buyer, is_signer: false, is_writable: true },
        AccountMeta { pubkey: a.seller, is_signer: false, is_writable: true },
        AccountMeta { pubkey: a.token_account, is_signer: false, is_writable: true },
        AccountMeta { pubkey: a.token_mint, is_signer: false, is_writable: false },
        AccountMeta { pubkey: a.metadata, is_signer: false, is_writable: false },
        AccountMeta { pubkey: a.treasury_mint, is_signer: false, is_writable: false },
        AccountMeta { pubkey: a.escrow_payment_account, is_signer: false, is_writable: true },
        AccountMeta { pubkey: a.seller_payment_receipt_account, is_signer: false, is_writable: true },
        AccountMeta { pubkey: a.buyer_receipt_token_account, is_signer: false, is_writable: true },
        AccountMeta { pubkey: a.authority, is_signer: false, is_writable: false },
        AccountMeta { pubkey: a.auctioneer_authority, is_signer: false, is_writable: false },
        AccountMeta { pubkey: a.auction_house, is_signer: false, is_writable: false },
        AccountMeta { pubkey: a.auction_house_fee_account, is_signer: false, is_writable: true },
        AccountMeta { pubkey: a.auction_house_treasury, is_signer: false, is_writable: true },
        AccountMeta { pubkey: a.buyer_trade_state, is_signer: false, is_writable: true },
        AccountMeta { pubkey: a.seller_trade_state, is_signer: false, is_writable: true },
        AccountMeta { pubkey: a.free_trade_state, is_signer: false, is_writable: true },
        AccountMeta { pubkey: a.ah_auctioneer_pda, is_signer: false, is_writable: false },
        AccountMeta { pubkey: a.token_program, is_signer: false, is_writable: false },
        AccountMeta { pubkey: a.system_program, is_signer: false, is_writable: false },
        AccountMeta { pubkey: a.ata_program, is_signer: false, is_writable: false },
        AccountMeta { pubkey: a.program_as_signer, is_signer: false, is_writable: false },
        AccountMeta { pubkey: a.rent, is_signer: false, is_writable: false },
    ]
}

/// The accounts of a settlement are right: the auction house, its currency
/// and treasury, the delegate, the listing configuration with its recorded
/// nonce `listing_bump`, the buyer's escrow, the seller's priced and free
/// trade states, and the base engine's signing identity.
pub open spec fn execute_sale_accounts_ok(
    a: AuctioneerExecuteSale,
    program_id: Pubkey,
    listing_bump: u8,
    escrow_payment_bump: u8,
    free_trade_state_bump: u8,
    program_as_signer_bump: u8,
    auctioneer_authority_bump: u8,
    token_size: u64,
) -> bool {
    let d = a.auction_house_data;
    &&& house_ok(a.auction_house_program, a.auction_house, a.auction_house_fee_account, d)
    &&& d.authority@ == a.authority@
    &&& d.treasury_mint@ == a.treasury_mint@
    &&& d.auction_house_treasury@ == a.auction_house_treasury@
    &&& derives(a.auction_house_treasury@, treasury_seeds(a.auction_house@), d.treasury_bump, auction_house_program_id())
    &&& delegate_ok(program_id, a.auction_house, a.auctioneer_authority, auctioneer_authority_bump, a.ah_auctioneer_pda, a.ah_auctioneer_bump)
    &&& derives(a.listing_config@, listing_config_seeds(a.seller@, a.auction_house@, a.token_account@, a.treasury_mint@, a.token_mint@, token_size), listing_bump, program_id@)
    &&& derives(a.escrow_payment_account@, escrow_seeds(a.auction_house@, a.buyer@), escrow_payment_bump, auction_house_program_id())
    &&& derives(a.seller_trade_state@, trade_state_seeds(a.seller@, a.auction_house@, a.token_account@, a.treasury_mint@, a.token_mint@, AUCTIONEER_BUYER_PRICE, token_size), a.seller_trade_state_bump, auction_house_program_id())
    &&& derives(a.free_trade_state@, trade_state_seeds(a.seller@, a.auction_house@, a.token_account@, a.treasury_mint@, a.token_mint@, 0, token_size), free_trade_state_bump, auction_house_program_id())
    &&& derives(a.program_as_signer@, program_as_signer_seeds(), program_as_signer_bump, auction_house_program_id())
}

/// What a settlement returns: wrong accounts are refused; otherwise the
/// listing's window must be over at `now` and the buyer's trade state must
/// hold the highest bid, and then the request is the base engine's
/// settlement, signed as the delegate.
pub open spec fn execute_sale_outcome(
    a: AuctioneerExecuteSale,
    listing: ListingConfig,
    program_id: Pubkey,
    now: u64,
    escrow_payment_bump: u8,
    free_trade_state_bump: u8,
    program_as_signer_bump: u8,
    auctioneer_authority_bump: u8,
    buyer_price: u64,
    token_size: u64,
    r: Result<ForwardRequest, AuctioneerError>,
) -> bool {
    let accounts = execute_sale_accounts_ok(a, program_id, listing.bump, escrow_payment_bump, free_trade_state_bump,
        program_as_signer_bump, auctioneer_authority_bump, token_size);
    &&& (!accounts ==> (r matches Err(e) && account_error(e)))
    &&& (accounts ==> match sale_check(listing, now, a.buyer_trade_state) {
        Err(e) => r == Err::<ForwardRequest, AuctioneerError>(e),
        Ok(_) => (r matches Ok(req) && {
            &&& req.instruction.program_id@ == auction_house_program_id()
            &&& req.instruction.accounts@ == forwarded(execute_sale_schema(a), a.signers@, a.auctioneer_authority)
            &&& req.instruction.data@ == auctioneer_execute_sale_data(escrow_payment_bump, free_trade_state_bump,
                program_as_signer_bump, buyer_price, token_size)
            &&& seeds_view(req.signer_seeds@) == with_bump(auctioneer_authority_seeds(a.auction_house@), auctioneer_authority_bump)
        }),
    })
}

/// The base engine's settlement, in its order.
fn execute_sale_schema_list(a: &AuctioneerExecuteSale) -> (r: Vec<AccountMeta>)
    ensures
        r@ == execute_sale_schema(*a),
{
    let r: Vec<AccountMeta> = vec![
        AccountMeta::new(a.buyer, false),
        AccountMeta::new(a.seller, false),
        AccountMeta::new(a.token_account, false),
        AccountMeta::new_readonly(a.token_mint, false),
        AccountMeta::new_readonly(a.metadata, false),
        AccountMeta::new_readonly(a.treasury_mint, false),
        AccountMeta::new(a.escrow_payment_account, false),
        AccountMeta::new(a.seller_payment_receipt_account, false),
        AccountMeta::new(a.buyer_receipt_token_account, false),
        AccountMeta::new_readonly(a.authority, false),
        AccountMeta::new_readonly(a.auctioneer_authority, false),
        AccountMeta::new_readonly(a.auction_house, false),
        AccountMeta::new(a.auction_house_fee_account, false),
        AccountMeta::new(a.auction_house_treasury, false),
        AccountMeta::new(a.buyer_trade_state, false),
        AccountMeta::new(a.seller_trade_state, false),
        AccountMeta::new(a.free_trade_state, false),
        AccountMeta::new_readonly(a.ah_auctioneer_pda, false),
        AccountMeta::new_readonly(a.token_program, false),
        AccountMeta::new_readonly(a.system_program, false),
        AccountMeta::new_readonly(a.ata_program, false),
        AccountMeta::new_readonly(a.program_as_signer, false),
        AccountMeta::new_readonly(a.rent, false),
    ];
    assert(r@ =~= execute_sale_schema(*a));
    r
}

/// Settles a listing at `now` with its highest bidder: checks the accounts,
/// that the window is over and that the buyer's trade state holds the
/// highest bid, and builds the request that has the base engine move the
/// item and the funds, signed as the delegate.
pub fn auctioneer_execute_sale(
    a: &AuctioneerExecuteSale,
    listing: &ListingConfig,
    program_id: &Pubkey,
    now: u64,
    escrow_payment_bump: u8,
    free_trade_state_bump: u8,
    program_as_signer_bump: u8,
    auctioneer_authority_bump: u8,
    buyer_price: u64,
    token_size: u64,
) -> (r: Result<ForwardRequest, AuctioneerError>)
    ensures
        execute_sale_outcome(*a, *listing, *program_id, now, escrow_payment_bump, free_trade_state_bump,
            program_as_signer_bump, auctioneer_authority_bump, buyer_price, token_size, r),
{
    let d = &a.auction_house_data;
    check_house(&a.auction_house_program, &a.auction_house, &a.auction_house_fee_account, d)?;
    check_authority(&a.authority, d)?;
    if !d.treasury_mint.same(&a.treasury_mint) || !d.auction_house_treasury.same(&a.auction_house_treasury) {
        return Err(AuctioneerError::AccountMismatch);
    }
    let engine = auction_house_id();
    assert_derived(&a.auction_house_treasury, &treasury_seed_list(&a.auction_house), d.treasury_bump, &engine)?;
    check_delegate(program_id, &a.auction_house, &a.auctioneer_authority, auctioneer_authority_bump, &a.ah_auctioneer_pda, a.ah_auctioneer_bump)?;
    let listing_seeds = listing_config_seed_list(&a.seller, &a.auction_house, &a.token_account, &a.treasury_mint, &a.token_mint, token_size);
    assert_derived(&a.listing_config, &listing_seeds, listing.bump, program_id)?;
    assert_derived(&a.escrow_payment_account, &escrow_seed_list(&a.auction_house, &a.buyer), escrow_payment_bump, &engine)?;
    let seller_seeds = trade_state_seed_list(&a.seller, &a.auction_house, &a.token_account, &a.treasury_mint, &a.token_mint, AUCTIONEER_BUYER_PRICE, token_size);
    assert_derived(&a.seller_trade_state, &seller_seeds, a.seller_trade_state_bump, &engine)?;
    let free_seeds = trade_state_seed_list(&a.seller, &a.auction_house, &a.token_account, &a.treasury_mint, &a.token_mint, 0, token_size);
    assert_derived(&a.free_trade_state, &free_seeds, free_trade_state_bump, &engine)?;
    assert_derived(&a.program_as_signer, &program_as_signer_seed_list(), program_as_signer_bump, &engine)?;
    listing.check_execute_sale(now, &a.buyer_trade_state)?;
    let data = execute_sale_data(escrow_payment_bump, free_trade_state_bump, program_as_signer_bump, buyer_price, token_size);
    Ok(forward_request(&execute_sale_schema_list(a), &a.signers, &a.auctioneer_authority, &a.auction_house, auctioneer_authority_bump, data))
}

} // verus!
