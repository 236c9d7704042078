use vstd::prelude::*;
use vstd::bytes::{spec_u64_to_le_bytes, u64_to_le_bytes};

use crate::constants;
use crate::constants::{auctioneer_seed, fee_payer_seed, listing_config_seed, prefix_seed, signer_seed, treasury_seed};
use crate::errors::AuctioneerError;
use crate::pubkey::Pubkey;

verus! {

/// Most seeds that one derivation takes.
pub const MAX_SEEDS: usize = 16;

/// Longest seed, in bytes.
pub const MAX_SEED_LEN: usize = 32;

/// What `Pubkey::create_program_address` gives for a list of seeds and a
/// program: the derived identity, or nothing where the seeds are refused or
/// the hash is a point of the curve, so that some key could sign for it.
pub uninterp spec fn program_address(seeds: Seq<Seq<u8>>, program_id: Seq<u8>) -> Option<Seq<u8>>;

/// The byte strings of a list of seeds.
pub open spec fn seeds_view(seeds: Seq<Vec<u8>>) -> Seq<Seq<u8>> {
    seeds.map_values(|s: Vec<u8>| s@)
}

/// The seeds are within the counts and lengths that a derivation takes.
pub open spec fn seeds_in_bounds(seeds: Seq<Seq<u8>>) -> bool {
    &&& seeds.len() <= MAX_SEEDS
    &&& forall|i: int| 0 <= i < seeds.len() ==> (#[trigger] seeds[i]).len() <= MAX_SEED_LEN
}

/// The seeds followed by the one-byte nonce `bump`.
pub open spec fn with_bump(seeds: Seq<Seq<u8>>, bump: u8) -> Seq<Seq<u8>> {
    seeds.push(seq![bump])
}

/// `key` is the identity that `seeds` and `bump` derive for `program_id`.
pub open spec fn derives(key: Seq<u8>, seeds: Seq<Seq<u8>>, bump: u8, program_id: Seq<u8>) -> bool {
    program_address(with_bump(seeds, bump), program_id) == Some(key)
}

/// `bump` is the first nonce, counting down from 255 to 1, for which the
/// seeds derive an identity.
pub open spec fn is_canonical_bump(seeds: Seq<Seq<u8>>, bump: u8, program_id: Seq<u8>) -> bool {
    &&& 1 <= bump
    &&& program_address(with_bump(seeds, bump), program_id) is Some
    &&& forall|c: u8| bump < c ==> (#[trigger] program_address(with_bump(seeds, c), program_id)) is None
}

/// Relies on `Pubkey::create_program_address` of solana-program, reached
/// through anchor_lang: the identity that a list of seeds derives for a
/// program, refused for more than 16 seeds or a seed over 32 bytes.
#[verifier::external_body]
fn create_program_address(seeds: &Vec<Vec<u8>>, program_id: &Pubkey) -> (r: Option<Pubkey>)
    ensures
        match r {
            Some(k) => program_address(seeds_view(seeds@), program_id@) == Some(k@),
            None => program_address(seeds_view(seeds@), program_id@) is None,
        },
        !seeds_in_bounds(seeds_view(seeds@)) ==> r is None,
{
    let slices: Vec<&[u8]> = seeds.iter().map(|s| s.as_slice()).collect();
    let program = anchor_lang::prelude::Pubkey::new_from_array(program_id.bytes);
    match anchor_lang::prelude::Pubkey::create_program_address(&slices, &program) {
        Ok(k) => Some(Pubkey { bytes: k.to_bytes() }),
        Err(_) => None,
    }
}

/// Relies on `Pubkey::try_find_program_address` of solana-program, reached
/// through anchor_lang: it tries the nonces 255 down to 1, appended to the
/// seeds, and returns the first that derives an identity.
#[verifier::external_body]
fn try_find_program_address(seeds: &Vec<Vec<u8>>, program_id: &Pubkey) -> (r: Option<(Pubkey, u8)>)
    ensures
        match r {
            Some((k, b)) => {
                &&& is_canonical_bump(seeds_view(seeds@), b, program_id@)
                &&& derives(k@, seeds_view(seeds@), b, program_id@)
            },
            None => forall|c: u8| 1 <= c ==> (#[trigger] program_address(with_bump(seeds_view(seeds@), c), program_id@)) is None,
        },
{
    let slices: Vec<&[u8]> = seeds.iter().map(|s| s.as_slice()).collect();
    let program = anchor_lang::prelude::Pubkey::new_from_array(program_id.bytes);
    match anchor_lang::prelude::Pubkey::try_find_program_address(&slices, &program) {
        Some((k, b)) => Some((Pubkey { bytes: k.to_bytes() }, b)),
        None => None,
    }
}

/// A copy of the seeds followed by the one-byte nonce `bump`.
pub fn seeds_with_bump(seeds: &Vec<Vec<u8>>, bump: u8) -> (r: Vec<Vec<u8>>)
    ensures
        seeds_view(r@) == with_bump(seeds_view(seeds@), bump),
{
    let mut full: Vec<Vec<u8>> = Vec::new();
    let mut i: usize = 0;
    while i < seeds.len()
        invariant
            i <= seeds@.len(),
            full@.len() == i,
            forall|j: int| 0 <= j < i ==> (#[trigger] full@[j])@ == seeds@[j]@,
        decreases seeds@.len() - i,
    {
        let seed: Vec<u8> = seeds[i].clone();
        assert(seed@ == seeds@[i as int]@);
        full.push(seed);
        i += 1;
    }
    let nonce: Vec<u8> = vec![bump];
    assert(nonce@ == seq![bump]);
    full.push(nonce);
    assert(full@[seeds@.len() as int]@ == seq![bump]);
    assert forall|j: int| 0 <= j < full@.len() implies #[trigger] seeds_view(full@)[j] == with_bump(seeds_view(seeds@), bump)[j] by {
        if j < seeds@.len() {
            assert(full@[j]@ == seeds@[j]@);
        }
    }
    assert(seeds_view(full@) =~= with_bump(seeds_view(seeds@), bump));
    full
}

/// The identity that `seeds` and the nonce `bump` derive for `program_id`.
pub fn derive_address(seeds: &Vec<Vec<u8>>, bump: u8, program_id: &Pubkey) -> (r: Result<Pubkey, AuctioneerError>)
    ensures
        match r {
            Ok(k) => derives(k@, seeds_view(seeds@), bump, program_id@),
            Err(e) => e == AuctioneerError::InvalidSeeds
                && program_address(with_bump(seeds_view(seeds@), bump), program_id@) is None,
        },
{
    let full = seeds_with_bump(seeds, bump);
    match create_program_address(&full, program_id) {
        Some(k) => Ok(k),
        None => Err(AuctioneerError::InvalidSeeds),
    }
}

/// The identity that `seeds` derive for `program_id` with the first nonce
/// that works, counting down from 255, and that nonce.
pub fn find_address(seeds: &Vec<Vec<u8>>, program_id: &Pubkey) -> (r: Result<(Pubkey, u8), AuctioneerError>)
    ensures
        match r {
            Ok((k, b)) => is_canonical_bump(seeds_view(seeds@), b, program_id@) && derives(k@, seeds_view(seeds@), b, program_id@),
            Err(e) => e == AuctioneerError::NoValidNonce
                && forall|c: u8| 1 <= c ==> (#[trigger] program_address(with_bump(seeds_view(seeds@), c), program_id@)) is None,
        },
{
    match try_find_program_address(seeds, program_id) {
        Some(found) => Ok(found),
        None => Err(AuctioneerError::NoValidNonce),
    }
}

/// Refuses `key` unless `seeds` and `bump` derive it for `program_id`.
pub fn assert_derived(key: &Pubkey, seeds: &Vec<Vec<u8>>, bump: u8, program_id: &Pubkey) -> (r: Result<(), AuctioneerError>)
    ensures
        r is Ok <==> derives(key@, seeds_view(seeds@), bump, program_id@),
        r is Err ==> r == Err::<(), AuctioneerError>(AuctioneerError::InvalidSeeds),
{
    match derive_address(seeds, bump, program_id) {
        Ok(k) => {
            if k.same(key) {
                Ok(())
            } else {
                Err(AuctioneerError::InvalidSeeds)
            }
        },
        Err(e) => Err(e),
    }
}

/// Refuses `key` unless `seeds` derive it for `program_id` with the first
/// working nonce, and returns that nonce.
pub fn assert_canonical(key: &Pubkey, seeds: &Vec<Vec<u8>>, program_id: &Pubkey) -> (r: Result<u8, AuctioneerError>)
    ensures
        match r {
            Ok(b) => is_canonical_bump(seeds_view(seeds@), b, program_id@) && derives(key@, seeds_view(seeds@), b, program_id@),
            Err(e) => {
                ||| e == AuctioneerError::NoValidNonce
                    && forall|c: u8| 1 <= c ==> (#[trigger] program_address(with_bump(seeds_view(seeds@), c), program_id@)) is None
                ||| e == AuctioneerError::InvalidSeeds
                    && forall|b: u8| #![trigger derives(key@, seeds_view(seeds@), b, program_id@)]
                        is_canonical_bump(seeds_view(seeds@), b, program_id@) ==> !derives(key@, seeds_view(seeds@), b, program_id@)
            },
        },
{
    match find_address(seeds, program_id) {
        Ok((k, b)) => {
            if k.same(key) {
                Ok(b)
            } else {
                proof {
                    assert forall|c: u8| #![trigger derives(key@, seeds_view(seeds@), c, program_id@)]
                        is_canonical_bump(seeds_view(seeds@), c, program_id@) implies !derives(key@, seeds_view(seeds@), c, program_id@) by {
                        if c != b {
                            if c < b {
                                assert(program_address(with_bump(seeds_view(seeds@), b), program_id@) is None);
                            } else {
                                assert(program_address(with_bump(seeds_view(seeds@), c), program_id@) is None);
                            }
                        }
                    }
                }
                Err(AuctioneerError::InvalidSeeds)
            }
        },
        Err(e) => Err(e),
    }
}

/// Seeds of an auction house instance: its creator and settlement currency.
pub open spec fn auction_house_seeds(creator: Seq<u8>, treasury_mint: Seq<u8>) -> Seq<Seq<u8>> {
    seq![prefix_seed(), creator, treasury_mint]
}

/// Seeds of an auction house's fee account.
pub open spec fn fee_account_seeds(auction_house: Seq<u8>) -> Seq<Seq<u8>> {
    seq![prefix_seed(), auction_house, fee_payer_seed()]
}

/// Seeds of an auction house's treasury.
pub open spec fn treasury_seeds(auction_house: Seq<u8>) -> Seq<Seq<u8>> {
    seq![prefix_seed(), auction_house, treasury_seed()]
}

/// Seeds of a wallet's escrow balance in an auction house.
pub open spec fn escrow_seeds(auction_house: Seq<u8>, wallet: Seq<u8>) -> Seq<Seq<u8>> {
    seq![prefix_seed(), auction_house, wallet]
}

/// Seeds of the trade state of a wallet's order for `size` units of an item
/// at `price`: distinct prices and sizes give distinct trade states.
pub open spec fn trade_state_seeds(
    wallet: Seq<u8>,
    auction_house: Seq<u8>,
    token_account: Seq<u8>,
    treasury_mint: Seq<u8>,
    token_mint: Seq<u8>,
    price: u64,
    size: u64,
) -> Seq<Seq<u8>> {
    seq![prefix_seed(), wallet, auction_house, token_account, treasury_mint, token_mint,
        spec_u64_to_le_bytes(price), spec_u64_to_le_bytes(size)]
}

/// Seeds of the listing configuration of a seller's listing of `size` units.
pub open spec fn listing_config_seeds(
    wallet: Seq<u8>,
    auction_house: Seq<u8>,
    token_account: Seq<u8>,
    treasury_mint: Seq<u8>,
    token_mint: Seq<u8>,
    size: u64,
) -> Seq<Seq<u8>> {
    seq![listing_config_seed(), wallet, auction_house, token_account, treasury_mint, token_mint,
        spec_u64_to_le_bytes(size)]
}

/// Seeds of this auctioneer's signing identity for an auction house.
pub open spec fn auctioneer_authority_seeds(auction_house: Seq<u8>) -> Seq<Seq<u8>> {
    seq![auctioneer_seed(), auction_house]
}

/// Seeds of the base engine's record of a delegate and its scopes.
pub open spec fn ah_auctioneer_seeds(auction_house: Seq<u8>, auctioneer_authority: Seq<u8>) -> Seq<Seq<u8>> {
    seq![auctioneer_seed(), auction_house, auctioneer_authority]
}

/// Seeds of the base engine's own signing identity.
pub open spec fn program_as_signer_seeds() -> Seq<Seq<u8>> {
    seq![prefix_seed(), signer_seed()]
}

/// Seeds of an auction house instance.
pub fn auction_house_seed_list(creator: &Pubkey, treasury_mint: &Pubkey) -> (r: Vec<Vec<u8>>)
    ensures
        seeds_view(r@) == auction_house_seeds(creator@, treasury_mint@),
{
    let r: Vec<Vec<u8>> = vec![constants::prefix(), creator.to_vec(), treasury_mint.to_vec()];
    assert(seeds_view(r@) =~= auction_house_seeds(creator@, treasury_mint@));
    r
}

/// Seeds of an auction house's fee account.
pub fn fee_account_seed_list(auction_house: &Pubkey) -> (r: Vec<Vec<u8>>)
    ensures
        seeds_view(r@) == fee_account_seeds(auction_house@),
{
    let r: Vec<Vec<u8>> = vec![constants::prefix(), auction_house.to_vec(), constants::fee_payer()];
    assert(seeds_view(r@) =~= fee_account_seeds(auction_house@));
    r
}

/// Seeds of an auction house's treasury.
pub fn treasury_seed_list(auction_house: &Pubkey) -> (r: Vec<Vec<u8>>)
    ensures
        seeds_view(r@) == treasury_seeds(auction_house@),
{
    let r: Vec<Vec<u8>> = vec![constants::prefix(), auction_house.to_vec(), constants::treasury()];
    assert(seeds_view(r@) =~= treasury_seeds(auction_house@));
    r
}

/// Seeds of a wallet's escrow balance.
pub fn escrow_seed_list(auction_house: &Pubkey, wallet: &Pubkey) -> (r: Vec<Vec<u8>>)
    ensures
        seeds_view(r@) == escrow_seeds(auction_house@, wallet@),
{
    let r: Vec<Vec<u8>> = vec![constants::prefix(), auction_house.to_vec(), wallet.to_vec()];
    assert(seeds_view(r@) =~= escrow_seeds(auction_house@, wallet@));
    r
}

/// Seeds of the trade state of an order at `price` for `size` units.
pub fn trade_state_seed_list(
    wallet: &Pubkey,
    auction_house: &Pubkey,
    token_account: &Pubkey,
    treasury_mint: &Pubkey,
    token_mint: &Pubkey,
    price: u64,
    size: u64,
) -> (r: Vec<Vec<u8>>)
    ensures
        seeds_view(r@) == trade_state_seeds(wallet@, auction_house@, token_account@, treasury_mint@, token_mint@, price, size),
{
    let r: Vec<Vec<u8>> = vec![constants::prefix(), wallet.to_vec(), auction_house.to_vec(), token_account.to_vec(),
        treasury_mint.to_vec(), token_mint.to_vec(), u64_to_le_bytes(price), u64_to_le_bytes(size)];
    assert(seeds_view(r@) =~= trade_state_seeds(wallet@, auction_house@, token_account@, treasury_mint@, token_mint@, price, size));
    r
}

/// Seeds of a listing configuration for `size` units.
pub fn listing_config_seed_list(
    wallet: &Pubkey,
    auction_house: &Pubkey,
    token_account: &Pubkey,
    treasury_mint: &Pubkey,
    token_mint: &Pubkey,
    size: u64,
) -> (r: Vec<Vec<u8>>)
    ensures
        seeds_view(r@) == listing_config_seeds(wallet@, auction_house@, token_account@, treasury_mint@, token_mint@, size),
{
    let r: Vec<Vec<u8>> = vec![constants::listing_config(), wallet.to_vec(), auction_house.to_vec(), token_account.to_vec(),
        treasury_mint.to_vec(), token_mint.to_vec(), u64_to_le_bytes(size)];
    assert(seeds_view(r@) =~= listing_config_seeds(wallet@, auction_house@, token_account@, treasury_mint@, token_mint@, size));
    r
}

/// Seeds of this auctioneer's signing identity.
pub fn auctioneer_authority_seed_list(auction_house: &Pubkey) -> (r: Vec<Vec<u8>>)
    ensures
        seeds_view(r@) == auctioneer_authority_seeds(auction_house@),
{
    let r: Vec<Vec<u8>> = vec![constants::auctioneer(), auction_house.to_vec()];
    assert(seeds_view(r@) =~= auctioneer_authority_seeds(auction_house@));
    r
}

/// Seeds of the base engine's delegate record.
pub fn ah_auctioneer_seed_list(auction_house: &Pubkey, auctioneer_authority: &Pubkey) -> (r: Vec<Vec<u8>>)
    ensures
        seeds_view(r@) == ah_auctioneer_seeds(auction_house@, auctioneer_authority@),
{
    let r: Vec<Vec<u8>> = vec![constants::auctioneer(), auction_house.to_vec(), auctioneer_authority.to_vec()];
    assert(seeds_view(r@) =~= ah_auctioneer_seeds(auction_house@, auctioneer_authority@));
    r
}

/// Seeds of the base engine's signing identity.
pub fn program_as_signer_seed_list() -> (r: Vec<Vec<u8>>)
    ensures
        seeds_view(r@) == program_as_signer_seeds(),
{
    let r: Vec<Vec<u8>> = vec![constants::prefix(), constants::signer()];
    assert(seeds_view(r@) =~= program_as_signer_seeds());
    r
}

} // verus!
