use vstd::prelude::*;

use crate::errors::AuctioneerError;
use crate::forward::{account_error, assert_auction_house_program, auction_house_program_id, is_signer, signed_by, AuctionHouseData};
use crate::pda::{
    assert_canonical, assert_derived, auction_house_seed_list, auction_house_seeds, auctioneer_authority_seed_list,
    auctioneer_authority_seeds, derives, is_canonical_bump,
};
use crate::pubkey::Pubkey;
use crate::state::AuctioneerAuthority;
use crate::trade::authorize_delegate;

verus! {

/// The accounts of an authorization of this auctioneer by an auction house.
pub struct AuctioneerAuthorize {
    pub wallet: Pubkey,
    pub auction_house_program: Pubkey,
    pub auction_house: Pubkey,
    /// The delegation record to create.
    pub auctioneer_authority: Pubkey,
    pub system_program: Pubkey,
    /// What the auction house instance records.
    pub auction_house_data: AuctionHouseData,
    /// The accounts that signed the incoming call.
    pub signers: Vec<Pubkey>,
}

/// The accounts of an authorization are right: the base engine's program,
/// the auction house instance, and the delegation record at the identity
/// its seeds give with the first working nonce.
pub open spec fn authorize_accounts_ok(a: AuctioneerAuthorize, program_id: Pubkey) -> bool {
    let d = a.auction_house_data;
    &&& a.auction_house_program@ == auction_house_program_id()
    &&& derives(a.auction_house@, auction_house_seeds(d.creator@, d.treasury_mint@), d.bump, auction_house_program_id())
    &&& exists|b: u8| #[trigger] is_canonical_bump(auctioneer_authority_seeds(a.auction_house@), b, program_id@)
        && derives(a.auctioneer_authority@, auctioneer_authority_seeds(a.auction_house@), b, program_id@)
}

/// What an authorization returns and does to the delegation record: wrong
/// accounts are refused; an existing record is refused as already there; a
/// wallet that is not the house's signing authority is refused; otherwise
/// the record is created with the canonical nonce. A refusal leaves the
/// record as it was.
pub open spec fn authorize_outcome(
    a: AuctioneerAuthorize,
    before: Option<AuctioneerAuthority>,
    after: Option<AuctioneerAuthority>,
    program_id: Pubkey,
    r: Result<(), AuctioneerError>,
) -> bool {
    let accounts = authorize_accounts_ok(a, program_id);
    let allowed = signed_by(a.signers@, a.wallet) && a.wallet@ == a.auction_house_data.authority@;
    &&& (r is Err ==> after == before)
    &&& (!accounts ==> (r matches Err(e) && account_error(e)))
    &&& (accounts && before is Some ==> r == Err::<(), AuctioneerError>(AuctioneerError::AlreadyExists))
    &&& (accounts && before is None && !allowed ==> r == Err::<(), AuctioneerError>(AuctioneerError::Unauthorized))
    &&& (accounts && before is None && allowed ==> r is Ok)
    &&& (r is Ok ==> (after matches Some(rec) && is_canonical_bump(auctioneer_authority_seeds(a.auction_house@), rec.bump, program_id@)
        && derives(a.auctioneer_authority@, auctioneer_authority_seeds(a.auction_house@), rec.bump, program_id@)))
}

/// Authorizes this auctioneer for an auction house: only its authority may,
/// and only once. Creates the delegation record.
pub fn auctioneer_authorize(a: &AuctioneerAuthorize, record: &mut Option<AuctioneerAuthority>, program_id: &Pubkey) -> (r: Result<(), AuctioneerError>)
    ensures
        authorize_outcome(*a, *old(record), *final(record), *program_id, r),
{
    let d = &a.auction_house_data;
    assert_auction_house_program(&a.auction_house_program)?;
    let engine = crate::forward::auction_house_id();
    assert_derived(&a.auction_house, &auction_house_seed_list(&d.creator, &d.treasury_mint), d.bump, &engine)?;
    let seeds = auctioneer_authority_seed_list(&a.auction_house);
    let bump = match assert_canonical(&a.auctioneer_authority, &seeds, program_id) {
        Ok(b) => b,
        Err(e) => {
            proof {
                assert(!authorize_accounts_ok(*a, *program_id));
            }
            return Err(e);
        },
    };
    if record.is_some() {
        return Err(AuctioneerError::AlreadyExists);
    }
    if !is_signer(&a.signers, &a.wallet) {
        return Err(AuctioneerError::Unauthorized);
    }
    authorize_delegate(record, &a.wallet, &d.authority, bump)
}

} // verus!
