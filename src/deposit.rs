use vstd::prelude::*;

use crate::cpi::AccountMeta;
use crate::errors::AuctioneerError;
use crate::forward::{
    account_error, auction_house_id, auction_house_program_id, auctioneer_deposit_data, check_authority, check_delegate, check_house,
    delegate_ok, deposit_data, forward_request, forwarded, house_ok, is_signer, signed_by, AuctionHouseData,
    ForwardRequest,
};
use crate::pda::{assert_derived, auctioneer_authority_seeds, derives, escrow_seed_list, escrow_seeds, seeds_view, with_bump};
use crate::pubkey::Pubkey;

verus! {

/// The accounts of a deposit into a wallet's escrow balance.
pub struct AuctioneerDeposit {
    pub auction_house_program: Pubkey,
    pub wallet: Pubkey,
    pub payment_account: Pubkey,
    pub transfer_authority: Pubkey,
    pub escrow_payment_account: Pubkey,
    pub treasury_mint: Pubkey,
    pub authority: Pubkey,
    pub auction_house: Pubkey,
    pub auction_house_fee_account: Pubkey,
    pub auctioneer_authority: Pubkey,
    pub ah_auctioneer_pda: Pubkey,
    pub token_program: Pubkey,
    pub system_program: Pubkey,
    pub rent: Pubkey,
    /// What the auction house instance records.
    pub auction_house_data: AuctionHouseData,
    /// Nonce of the base engine's record of the delegate.
    pub ah_auctioneer_bump: u8,
    /// The accounts that signed the incoming call.
    pub signers: Vec<Pubkey>,
}

/// The accounts of the base engine's deposit, in its order.
pub open spec fn deposit_schema(a: AuctioneerDeposit) -> Seq<AccountMeta> {
    seq![
        AccountMeta { pubkey: a.wallet, is_signer: false, is_writable: false },
        AccountMeta { pubkey: a.payment_account, is_signer: false, is_writable: true },
        AccountMeta { pubkey: a.transfer_authority, is_signer: false, is_writable: false },
        AccountMeta { pubkey: a.escrow_payment_account, is_signer: false, is_writable: true },
        AccountMeta { pubkey: a.treasury_mint, is_signer: false, is_writable: false },
        AccountMeta { pubkey: a.authority, is_signer: false, is_writable: false },
        AccountMeta { pubkey: a.auctioneer_authority, is_signer: false, is_writable: false },
        AccountMeta { pubkey: a.auction_house, is_signer: false, is_writable: false },
        AccountMeta { pubkey: a.auction_house_fee_account, is_signer: false, is_writable: true },
        AccountMeta { pubkey: a.ah_auctioneer_pda, is_signer: false, is_writable: false },
        AccountMeta { pubkey: a.token_program, is_signer: false, is_writable: false },
        AccountMeta { pubkey: a.system_program, is_signer: false, is_writable: false },
        AccountMeta { pubkey: a.rent, is_signer: false, is_writable: false },
    ]
}

/// The accounts of a deposit are right: the auction house and its currency,
/// the delegate, and the wallet's escrow balance.
pub open spec fn deposit_accounts_ok(a: AuctioneerDeposit, program_id: Pubkey, escrow_payment_bump: u8, auctioneer_authority_bump: u8) -> bool {
    let d = a.auction_house_data;
    &&& house_ok(a.auction_house_program, a.auction_house, a.auction_house_fee_account, d)
    &&& d.authority@ == a.authority@
    &&& d.treasury_mint@ == a.treasury_mint@
    &&& delegate_ok(program_id, a.auction_house, a.auctioneer_authority, auctioneer_authority_bump, a.ah_auctioneer_pda, a.ah_auctioneer_bump)
    &&& derives(a.escrow_payment_account@, escrow_seeds(a.auction_house@, a.wallet@), escrow_payment_bump, auction_house_program_id())
}

/// What a deposit returns: wrong accounts are refused, a wallet that did not
/// sign is refused, and otherwise the request is the base engine's deposit
/// of `amount`, signed as the delegate.
pub open spec fn deposit_outcome(
    a: AuctioneerDeposit,
    program_id: Pubkey,
    escrow_payment_bump: u8,
    auctioneer_authority_bump: u8,
    amount: u64,
    r: Result<ForwardRequest, AuctioneerError>,
) -> bool {
    let accounts = deposit_accounts_ok(a, program_id, escrow_payment_bump, auctioneer_authority_bump);
    &&& (!accounts ==> (r matches Err(e) && account_error(e)))
    &&& (accounts && !signed_by(a.signers@, a.wallet) ==> r == Err::<ForwardRequest, AuctioneerError>(AuctioneerError::Unauthorized))
    &&& (accounts && signed_by(a.signers@, a.wallet) ==> (r matches Ok(req) && {
        &&& req.instruction.program_id@ == auction_house_program_id()
        &&& req.instruction.accounts@ == forwarded(deposit_schema(a), a.signers@, a.auctioneer_authority)
        &&& req.instruction.data@ == auctioneer_deposit_data(escrow_payment_bump, amount)
        &&& seeds_view(req.signer_seeds@) == with_bump(auctioneer_authority_seeds(a.auction_house@), auctioneer_authority_bump)
    }))
}

/// The base engine's deposit, in its order.
fn deposit_schema_list(a: &AuctioneerDeposit) -> (r: Vec<AccountMeta>)
    ensures
        r@ == deposit_schema(*a),
{
    let r: Vec<AccountMeta> = vec![
        AccountMeta::new_readonly(a.wallet, false),
        AccountMeta::new(a.payment_account, false),
        AccountMeta::new_readonly(a.transfer_authority, false),
        AccountMeta::new(a.escrow_payment_account, false),
        AccountMeta::new_readonly(a.treasury_mint, false),
        AccountMeta::new_readonly(a.authority, false),
        AccountMeta::new_readonly(a.auctioneer_authority, false),
        AccountMeta::new_readonly(a.auction_house, false),
        AccountMeta::new(a.auction_house_fee_account, false),
        AccountMeta::new_readonly(a.ah_auctioneer_pda, false),
        AccountMeta::new_readonly(a.token_program, false),
        AccountMeta::new_readonly(a.system_program, false),
        AccountMeta::new_readonly(a.rent, false),
    ];
    assert(r@ =~= deposit_schema(*a));
    r
}

/// Moves `amount` from the wallet into its escrow balance: checks the
/// accounts and the wallet's signature, and builds the request to the base
/// engine, signed as the delegate.
pub fn auctioneer_deposit(
    a: &AuctioneerDeposit,
    program_id: &Pubkey,
    escrow_payment_bump: u8,
    auctioneer_authority_bump: u8,
    amount: u64,
) -> (r: Result<ForwardRequest, AuctioneerError>)
    ensures
        deposit_outcome(*a, *program_id, escrow_payment_bump, auctioneer_authority_bump, amount, r),
{
    let d = &a.auction_house_data;
    check_house(&a.auction_house_program, &a.auction_house, &a.auction_house_fee_account, d)?;
    check_authority(&a.authority, d)?;
    if !d.treasury_mint.same(&a.treasury_mint) {
        return Err(AuctioneerError::AccountMismatch);
    }
    check_delegate(program_id, &a.auction_house, &a.auctioneer_authority, auctioneer_authority_bump, &a.ah_auctioneer_pda, a.ah_auctioneer_bump)?;
    let engine = auction_house_id();
    assert_derived(&a.escrow_payment_account, &escrow_seed_list(&a.auction_house, &a.wallet), escrow_payment_bump, &engine)?;
    if !is_signer(&a.signers, &a.wallet) {
        return Err(AuctioneerError::Unauthorized);
    }
    let data = deposit_data(escrow_payment_bump, amount);
    Ok(forward_request(&deposit_schema_list(a), &a.signers, &a.auctioneer_authority, &a.auction_house, auctioneer_authority_bump, data))
}

} // verus!
