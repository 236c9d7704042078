use vstd::prelude::*;

use crate::cpi::AccountMeta;
use crate::errors::AuctioneerError;
use crate::forward::{
    account_error, auction_house_id, auction_house_program_id, auctioneer_cancel_data, cancel_data, check_authority, check_delegate,
    check_house, delegate_ok, forward_request, forwarded, house_ok, is_signer, signed_by, AuctionHouseData,
    ForwardRequest,
};
use crate::pda::{assert_derived, auctioneer_authority_seeds, derives, seeds_view, trade_state_seed_list, trade_state_seeds, with_bump};
use crate::pubkey::Pubkey;
use crate::trade::{cancel_check, check_cancel};

verus! {

/// The accounts of a cancel of a bid or an ask.
pub struct AuctioneerCancel {
    pub auction_house_program: Pubkey,
    /// The owner of the trade state.
    pub wallet: Pubkey,
    pub token_account: Pubkey,
    pub token_mint: Pubkey,
    pub authority: Pubkey,
    pub auction_house: Pubkey,
    pub auction_house_fee_account: Pubkey,
    pub trade_state: Pubkey,
    pub auctioneer_authority: Pubkey,
    pub ah_auctioneer_pda: Pubkey,
    pub token_program: Pubkey,
    /// The wallet that asks for the cancel.
    pub caller: Pubkey,
    /// What the auction house instance records.
    pub auction_house_data: AuctionHouseData,
    /// Nonce of the base engine's record of the delegate.
    pub ah_auctioneer_bump: u8,
    /// Nonce that the trade state records of itself.
    pub trade_state_bump: u8,
    /// The accounts that signed the incoming call.
    pub signers: Vec<Pubkey>,
}

/// The accounts of the base engine's cancel, in its order.
pub open spec fn cancel_schema(a: AuctioneerCancel) -> Seq<AccountMeta> {
    seq![
        AccountMeta { pubkey: a.wallet, is_signer: false, is_writable: true },
        AccountMeta { pubkey: a.token_account, is_signer: false, is_writable: true },
        AccountMeta { pubkey: a.token_mint, is_signer: false, is_writable: false },
        AccountMeta { pubkey: a.authority, is_signer: false, is_writable: false },
        AccountMeta { pubkey: a.auctioneer_authority, is_signer: false, is_writable: false },
        AccountMeta { pubkey: a.auction_house, is_signer: false, is_writable: false },
        AccountMeta { pubkey: a.auction_house_fee_account, is_signer: false, is_writable: true },
        AccountMeta { pubkey: a.trade_state, is_signer: false, is_writable: true },
        AccountMeta { pubkey: a.ah_auctioneer_pda, is_signer: false, is_writable: false },
        AccountMeta { pubkey: a.token_program, is_signer: false, is_writable: false },
    ]
}

/// The accounts of a cancel are right: the auction house, the delegate, and
/// the wallet's trade state at `buyer_price` for `token_size` units.
pub open spec fn cancel_accounts_ok(a: AuctioneerCancel, program_id: Pubkey, auctioneer_authority_bump: u8, buyer_price: u64, token_size: u64) -> bool {
    let d = a.auction_house_data;
    &&& house_ok(a.auction_house_program, a.auction_house, a.auction_house_fee_account, d)
    &&& d.authority@ == a.authority@
    &&& delegate_ok(program_id, a.auction_house, a.auctioneer_authority, auctioneer_authority_bump, a.ah_auctioneer_pda, a.ah_auctioneer_bump)
    &&& derives(a.trade_state@, trade_state_seeds(a.wallet@, a.auction_house@, a.token_account@, d.treasury_mint@, a.token_mint@, buyer_price, token_size), a.trade_state_bump, auction_house_program_id())
}

/// The rule of a cancel: the caller signed, and owns the trade state or
/// administers the auction house.
pub open spec fn cancel_rules(a: AuctioneerCancel) -> Result<(), AuctioneerError> {
    if signed_by(a.signers@, a.caller) {
        cancel_check(a.caller, a.wallet, a.authority)
    } else {
        Err(AuctioneerError::Unauthorized)
    }
}

/// What a cancel returns: wrong accounts are refused, a caller that is
/// neither the owner nor the authority is refused, and otherwise the request
/// is the base engine's cancel, signed as the delegate.
pub open spec fn cancel_outcome(
    a: AuctioneerCancel,
    program_id: Pubkey,
    auctioneer_authority_bump: u8,
    buyer_price: u64,
    token_size: u64,
    r: Result<ForwardRequest, AuctioneerError>,
) -> bool {
    let accounts = cancel_accounts_ok(a, program_id, auctioneer_authority_bump, buyer_price, token_size);
    &&& (!accounts ==> (r matches Err(e) && account_error(e)))
    &&& (accounts ==> match cancel_rules(a) {
        Err(e) => r == Err::<ForwardRequest, AuctioneerError>(e),
        Ok(_) => (r matches Ok(req) && {
            &&& req.instruction.program_id@ == auction_house_program_id()
            &&& req.instruction.accounts@ == forwarded(cancel_schema(a), a.signers@, a.auctioneer_authority)
            &&& req.instruction.data@ == auctioneer_cancel_data(buyer_price, token_size)
            &&& seeds_view(req.signer_seeds@) == with_bump(auctioneer_authority_seeds(a.auction_house@), auctioneer_authority_bump)
        }),
    })
}

/// The base engine's cancel, in its order.
fn cancel_schema_list(a: &AuctioneerCancel) -> (r: Vec<AccountMeta>)
    ensures
        r@ == cancel_schema(*a),
{
    let r: Vec<AccountMeta> = vec![
        AccountMeta::new(a.wallet, false),
        AccountMeta::new(a.token_account, false),
        AccountMeta::new_readonly(a.token_mint, false),
        AccountMeta::new_readonly(a.authority, false),
        AccountMeta::new_readonly(a.auctioneer_authority, false),
        AccountMeta::new_readonly(a.auction_house, false),
        AccountMeta::new(a.auction_house_fee_account, false),
        AccountMeta::new(a.trade_state, false),
        AccountMeta::new_readonly(a.ah_auctioneer_pda, false),
        AccountMeta::new_readonly(a.token_program, false),
    ];
    assert(r@ =~= cancel_schema(*a));
    r
}

/// Cancels a bid or an ask: checks the accounts and the caller, and builds
/// the request that has the base engine revoke the delegation and close the
/// trade state, signed as the delegate.
pub fn auctioneer_cancel(
    a: &AuctioneerCancel,
    program_id: &Pubkey,
    auctioneer_authority_bump: u8,
    buyer_price: u64,
    token_size: u64,
) -> (r: Result<ForwardRequest, AuctioneerError>)
    ensures
        cancel_outcome(*a, *program_id, auctioneer_authority_bump, buyer_price, token_size, r),
{
    let d = &a.auction_house_data;
    check_house(&a.auction_house_program, &a.auction_house, &a.auction_house_fee_account, d)?;
    check_authority(&a.authority, d)?;
    check_delegate(program_id, &a.auction_house, &a.auctioneer_authority, auctioneer_authority_bump, &a.ah_auctioneer_pda, a.ah_auctioneer_bump)?;
    let engine = auction_house_id();
    let seeds = trade_state_seed_list(&a.wallet, &a.auction_house, &a.token_account, &d.treasury_mint, &a.token_mint, buyer_price, token_size);
    assert_derived(&a.trade_state, &seeds, a.trade_state_bump, &engine)?;
    if !is_signer(&a.signers, &a.caller) {
        return Err(AuctioneerError::Unauthorized);
    }
    check_cancel(&a.caller, &a.wallet, &a.authority)?;
    let data = cancel_data(buyer_price, token_size);
    Ok(forward_request(&cancel_schema_list(a), &a.signers, &a.auctioneer_authority, &a.auction_house, auctioneer_authority_bump, data))
}

} // verus!
