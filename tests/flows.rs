use anchor_lang::prelude::Pubkey as SolKey;
use anchor_lang::solana_program::hash::hash;
use auctioneer::authorize::AuctioneerAuthorize;
use auctioneer::buy::AuctioneerBuy;
use auctioneer::cancel::AuctioneerCancel;
use auctioneer::deposit::AuctioneerDeposit;
use auctioneer::errors::AuctioneerError;
use auctioneer::execute_sale::AuctioneerExecuteSale;
use auctioneer::forward::{AuctionHouseData, ForwardRequest};
use auctioneer::pda::{
    ah_auctioneer_seed_list, assert_derived, auction_house_seed_list, auctioneer_authority_seed_list,
    derive_address, escrow_seed_list, fee_account_seed_list, find_address, listing_config_seed_list,
    program_as_signer_seed_list, trade_state_seed_list, treasury_seed_list,
};
use auctioneer::pubkey::Pubkey;
use auctioneer::sell::AuctioneerSell;
use auctioneer::state::{AuctioneerAuthority, ListingConfig, TimedAuctionArgs, TimedAuctionDuration};
use auctioneer::withdraw::AuctioneerWithdraw;
use auctioneer::{authorize, buy, cancel, deposit, execute_sale, sell, withdraw};

fn key(n: u8) -> Pubkey {
    Pubkey::new([n; 32])
}

fn engine() -> Pubkey {
    Pubkey::new(mpl_auction_house::ID.to_bytes())
}

fn program_id() -> Pubkey {
    key(77)
}

struct World {
    house: Pubkey,
    data: AuctionHouseData,
    auth: Pubkey,
    auth_bump: u8,
    ah_pda: Pubkey,
    ah_pda_bump: u8,
    pas: Pubkey,
    pas_bump: u8,
}

const AUTHORITY: u8 = 1;
const SELLER: u8 = 20;
const TOKEN_ACCOUNT: u8 = 21;
const TOKEN_MINT: u8 = 22;
const BUYER: u8 = 30;
const STRANGER: u8 = 99;
const NOW: u64 = 1_000_000;

fn world() -> World {
    let ah = engine();
    let creator = key(2);
    let mint = key(3);
    let (house, bump) = find_address(&auction_house_seed_list(&creator, &mint), &ah).unwrap();
    let (fee, fee_bump) = find_address(&fee_account_seed_list(&house), &ah).unwrap();
    let (treasury, treasury_bump) = find_address(&treasury_seed_list(&house), &ah).unwrap();
    let (auth, auth_bump) = find_address(&auctioneer_authority_seed_list(&house), &program_id()).unwrap();
    let (ah_pda, ah_pda_bump) = find_address(&ah_auctioneer_seed_list(&house, &auth), &ah).unwrap();
    let (pas, pas_bump) = find_address(&program_as_signer_seed_list(), &ah).unwrap();
    World {
        house,
        data: AuctionHouseData {
            auction_house_fee_account: fee,
            auction_house_treasury: treasury,
            treasury_mint: mint,
            authority: key(AUTHORITY),
            creator,
            bump,
            treasury_bump,
            fee_payer_bump: fee_bump,
        },
        auth,
        auth_bump,
        ah_pda,
        ah_pda_bump,
        pas,
        pas_bump,
    }
}

fn trade_state(w: &World, wallet: u8, price: u64, size: u64) -> (Pubkey, u8) {
    let seeds = trade_state_seed_list(&key(wallet), &w.house, &key(TOKEN_ACCOUNT), &w.data.treasury_mint, &key(TOKEN_MINT), price, size);
    find_address(&seeds, &engine()).unwrap()
}

fn listing_key(w: &World, size: u64) -> (Pubkey, u8) {
    let seeds = listing_config_seed_list(&key(SELLER), &w.house, &key(TOKEN_ACCOUNT), &w.data.treasury_mint, &key(TOKEN_MINT), size);
    find_address(&seeds, &program_id()).unwrap()
}

fn escrow(w: &World, wallet: u8) -> (Pubkey, u8) {
    find_address(&escrow_seed_list(&w.house, &key(wallet)), &engine()).unwrap()
}

struct Listed {
    accounts: AuctioneerSell,
    ts_bump: u8,
    free_bump: u8,
}

fn sell_accounts(w: &World) -> Listed {
    let (sts, ts_bump) = trade_state(w, SELLER, u64::MAX, 1);
    let (free, free_bump) = trade_state(w, SELLER, 0, 1);
    let (lc, _) = listing_key(w, 1);
    Listed {
        accounts: AuctioneerSell {
            auction_house_program: engine(),
            listing_config: lc,
            wallet: key(SELLER),
            token_account: key(TOKEN_ACCOUNT),
            token_mint: key(TOKEN_MINT),
            token_owner: key(SELLER),
            metadata: key(40),
            authority: key(AUTHORITY),
            auction_house: w.house,
            auction_house_fee_account: w.data.auction_house_fee_account,
            seller_trade_state: sts,
            free_seller_trade_state: free,
            auctioneer_authority: w.auth,
            ah_auctioneer_pda: w.ah_pda,
            program_as_signer: w.pas,
            token_program: key(41),
            system_program: key(42),
            rent: key(43),
            auction_house_data: w.data,
            ah_auctioneer_bump: w.ah_pda_bump,
            signers: vec![key(SELLER)],
        },
        ts_bump,
        free_bump,
    }
}

fn discriminator(name: &str) -> Vec<u8> {
    hash(format!("global:{}", name).as_bytes()).to_bytes()[..8].to_vec()
}

fn signer_seeds_of(w: &World) -> Vec<Vec<u8>> {
    vec![b"auctioneer".to_vec(), w.house.bytes.to_vec(), vec![w.auth_bump]]
}

fn list(w: &World, window: Option<TimedAuctionArgs>) -> (ListingConfig, ForwardRequest) {
    let l = sell_accounts(w);
    sell(&l.accounts, &program_id(), NOW, l.ts_bump, l.free_bump, w.pas_bump, w.auth_bump, 1, window, 100).unwrap()
}

fn buy_accounts(w: &World, price: u64) -> (AuctioneerBuy, u8, u8) {
    let (bts, bts_bump) = trade_state(w, BUYER, price, 1);
    let (esc, esc_bump) = escrow(w, BUYER);
    let (lc, _) = listing_key(w, 1);
    let a = AuctioneerBuy {
        auction_house_program: engine(),
        listing_config: lc,
        seller: key(SELLER),
        wallet: key(BUYER),
        payment_account: key(BUYER),
        transfer_authority: key(BUYER),
        treasury_mint: w.data.treasury_mint,
        token_account: key(TOKEN_ACCOUNT),
        token_mint: key(TOKEN_MINT),
        metadata: key(40),
        escrow_payment_account: esc,
        authority: key(AUTHORITY),
        auctioneer_authority: w.auth,
        auction_house: w.house,
        auction_house_fee_account: w.data.auction_house_fee_account,
        buyer_trade_state: bts,
        ah_auctioneer_pda: w.ah_pda,
        token_program: key(41),
        system_program: key(42),
        rent: key(43),
        auction_house_data: w.data,
        ah_auctioneer_bump: w.ah_pda_bump,
        signers: vec![key(BUYER)],
    };
    (a, bts_bump, esc_bump)
}

fn sale_accounts(w: &World, buyer_trade_state: Pubkey) -> (AuctioneerExecuteSale, u8, u8) {
    let (esc, esc_bump) = escrow(w, BUYER);
    let (sts, sts_bump) = trade_state(w, SELLER, u64::MAX, 1);
    let (free, free_bump) = trade_state(w, SELLER, 0, 1);
    let (lc, _) = listing_key(w, 1);
    let a = AuctioneerExecuteSale {
        auction_house_program: engine(),
        listing_config: lc,
        buyer: key(BUYER),
        seller: key(SELLER),
        token_account: key(TOKEN_ACCOUNT),
        token_mint: key(TOKEN_MINT),
        metadata: key(40),
        treasury_mint: w.data.treasury_mint,
        escrow_payment_account: esc,
        seller_payment_receipt_account: key(SELLER),
        buyer_receipt_token_account: key(44),
        authority: key(AUTHORITY),
        auction_house: w.house,
        auction_house_fee_account: w.data.auction_house_fee_account,
        auction_house_treasury: w.data.auction_house_treasury,
        buyer_trade_state,
        seller_trade_state: sts,
        free_trade_state: free,
        auctioneer_authority: w.auth,
        ah_auctioneer_pda: w.ah_pda,
        token_program: key(41),
        system_program: key(42),
        ata_program: key(45),
        program_as_signer: w.pas,
        rent: key(43),
        auction_house_data: w.data,
        ah_auctioneer_bump: w.ah_pda_bump,
        seller_trade_state_bump: sts_bump,
        signers: vec![key(STRANGER)],
    };
    (a, esc_bump, free_bump)
}

#[test]
fn derivation_matches_solana() {
    let ah = engine();
    let seeds = auction_house_seed_list(&key(2), &key(3));
    let (k, b) = find_address(&seeds, &ah).unwrap();
    let (sk, sb) = SolKey::find_program_address(&[b"auction_house".as_ref(), &[2u8; 32], &[3u8; 32]], &mpl_auction_house::ID);
    assert_eq!(k.bytes, sk.to_bytes());
    assert_eq!(b, sb);
    assert_ne!(k, key(2));
}

#[test]
fn rederiving_gives_same_identity() {
    let w = world();
    let seeds = auction_house_seed_list(&w.data.creator, &w.data.treasury_mint);
    let again = derive_address(&seeds, w.data.bump, &engine()).unwrap();
    assert_eq!(again, w.house);
    assert_eq!(derive_address(&seeds, w.data.bump, &engine()).unwrap(), again);
    assert_eq!(assert_derived(&w.house, &seeds, w.data.bump, &engine()), Ok(()));
    assert_eq!(assert_derived(&key(5), &seeds, w.data.bump, &engine()), Err(AuctioneerError::InvalidSeeds));
}

#[test]
fn trade_states_differ_by_price_and_size() {
    let w = world();
    let (priced, _) = trade_state(&w, SELLER, u64::MAX, 1);
    let (free, _) = trade_state(&w, SELLER, 0, 1);
    let (bigger, _) = trade_state(&w, SELLER, u64::MAX, 2);
    assert_ne!(priced, free);
    assert_ne!(priced, bigger);
    assert_eq!(trade_state(&w, SELLER, 0, 1).0, free);
}

#[test]
fn authorize_twice_already_exists() {
    let w = world();
    let a = AuctioneerAuthorize {
        wallet: key(AUTHORITY),
        auction_house_program: engine(),
        auction_house: w.house,
        auctioneer_authority: w.auth,
        system_program: key(42),
        auction_house_data: w.data,
        signers: vec![key(AUTHORITY)],
    };
    let mut record: Option<AuctioneerAuthority> = None;
    assert_eq!(authorize(&a, &mut record, &program_id()), Ok(()));
    assert_eq!(record, Some(AuctioneerAuthority { bump: w.auth_bump }));
    assert_eq!(authorize(&a, &mut record, &program_id()), Err(AuctioneerError::AlreadyExists));
}

#[test]
fn authorize_by_other_wallet_is_unauthorized() {
    let w = world();
    let a = AuctioneerAuthorize {
        wallet: key(STRANGER),
        auction_house_program: engine(),
        auction_house: w.house,
        auctioneer_authority: w.auth,
        system_program: key(42),
        auction_house_data: w.data,
        signers: vec![key(STRANGER)],
    };
    let mut record: Option<AuctioneerAuthority> = None;
    assert_eq!(authorize(&a, &mut record, &program_id()), Err(AuctioneerError::Unauthorized));
    assert_eq!(record, None);
}

#[test]
fn authorize_wrong_record_account() {
    let w = world();
    let a = AuctioneerAuthorize {
        wallet: key(AUTHORITY),
        auction_house_program: engine(),
        auction_house: w.house,
        auctioneer_authority: key(5),
        system_program: key(42),
        auction_house_data: w.data,
        signers: vec![key(AUTHORITY)],
    };
    let mut record: Option<AuctioneerAuthority> = None;
    assert_eq!(authorize(&a, &mut record, &program_id()), Err(AuctioneerError::InvalidSeeds));
}

#[test]
fn sell_builds_forwarded_ask() {
    let w = world();
    let l = sell_accounts(&w);
    let args = TimedAuctionArgs { start_time: Some(NOW), duration: TimedAuctionDuration::H24 };
    let (listing, req) = sell(&l.accounts, &program_id(), NOW, l.ts_bump, l.free_bump, w.pas_bump, w.auth_bump, 1, Some(args), 100).unwrap();
    assert_eq!(listing.bump, listing_key(&w, 1).1);
    assert_eq!(listing.highest_bid.amount, 0);
    assert_eq!(listing.min_bid, 100);
    assert_eq!(listing.timed_auction_config.unwrap().end_time, NOW + 86_400);
    assert_eq!(req.instruction.program_id, engine());
    let accts = &req.instruction.accounts;
    assert_eq!(accts.len(), 14);
    assert_eq!(accts[0].pubkey, key(SELLER));
    assert!(accts[0].is_signer && accts[0].is_writable);
    assert_eq!(accts[4].pubkey, w.auth);
    assert!(accts[4].is_signer && !accts[4].is_writable);
    assert!(!accts[5].is_signer);
    assert_eq!(accts[7].pubkey, l.accounts.seller_trade_state);
    let mut data = discriminator("auctioneer_sell");
    data.extend_from_slice(&[l.ts_bump, l.free_bump, w.pas_bump]);
    data.extend_from_slice(&1u64.to_le_bytes());
    assert_eq!(req.instruction.data, data);
    assert_eq!(req.signer_seeds, signer_seeds_of(&w));
}

#[test]
fn sell_refuses_zero_minimum_and_wrong_trade_state() {
    let w = world();
    let l = sell_accounts(&w);
    let r = sell(&l.accounts, &program_id(), NOW, l.ts_bump, l.free_bump, w.pas_bump, w.auth_bump, 1, None, 0);
    assert_eq!(r.err(), Some(AuctioneerError::MinBidMustNotBeZero));
    let mut bad = sell_accounts(&w);
    bad.accounts.seller_trade_state = bad.accounts.free_seller_trade_state;
    let r = sell(&bad.accounts, &program_id(), NOW, bad.ts_bump, bad.free_bump, w.pas_bump, w.auth_bump, 1, None, 100);
    assert_eq!(r.err(), Some(AuctioneerError::InvalidSeeds));
    let mut other = sell_accounts(&w);
    other.accounts.token_owner = key(STRANGER);
    let r = sell(&other.accounts, &program_id(), NOW, other.ts_bump, other.free_bump, w.pas_bump, w.auth_bump, 1, None, 100);
    assert_eq!(r.err(), Some(AuctioneerError::Unauthorized));
}

#[test]
fn sell_refuses_start_in_past() {
    let w = world();
    let l = sell_accounts(&w);
    let args = TimedAuctionArgs { start_time: Some(NOW - 1), duration: TimedAuctionDuration::H12 };
    let r = sell(&l.accounts, &program_id(), NOW, l.ts_bump, l.free_bump, w.pas_bump, w.auth_bump, 1, Some(args), 100);
    assert_eq!(r.err(), Some(AuctioneerError::AuctionStartTimeInThePast));
}

#[test]
fn buy_raises_highest_bid() {
    let w = world();
    let (mut listing, _) = list(&w, None);
    let (a, bts_bump, esc_bump) = buy_accounts(&w, 100);
    let req = buy(&a, &mut listing, &program_id(), NOW, 2, bts_bump, esc_bump, w.auth_bump, 100, 1).unwrap();
    assert_eq!(listing.highest_bid.amount, 100);
    assert_eq!(listing.highest_bid.buyer_trade_state, a.buyer_trade_state);
    assert_eq!(req.instruction.accounts.len(), 16);
    let mut data = discriminator("auctioneer_buy");
    data.extend_from_slice(&[bts_bump, esc_bump]);
    data.extend_from_slice(&100u64.to_le_bytes());
    data.extend_from_slice(&1u64.to_le_bytes());
    assert_eq!(req.instruction.data, data);
    let again = buy(&a, &mut listing, &program_id(), NOW, 2, bts_bump, esc_bump, w.auth_bump, 100, 1);
    assert_eq!(again.err(), Some(AuctioneerError::BidStepTooSmall));
    let (b, b_bump, e_bump) = buy_accounts(&w, 101);
    assert!(buy(&b, &mut listing, &program_id(), NOW, 2, b_bump, e_bump, w.auth_bump, 101, 1).is_ok());
    assert_eq!(listing.highest_bid.amount, 101);
}

#[test]
fn buy_with_wrong_escrow_leaves_listing() {
    let w = world();
    let (mut listing, _) = list(&w, None);
    let (mut a, bts_bump, esc_bump) = buy_accounts(&w, 100);
    a.escrow_payment_account = key(STRANGER);
    let r = buy(&a, &mut listing, &program_id(), NOW, 2, bts_bump, esc_bump, w.auth_bump, 100, 1);
    assert_eq!(r.err(), Some(AuctioneerError::InvalidSeeds));
    assert_eq!(listing.highest_bid.amount, 0);
}

#[test]
fn execute_sale_after_window() {
    let w = world();
    let args = TimedAuctionArgs { start_time: None, duration: TimedAuctionDuration::H12 };
    let (mut listing, _) = list(&w, Some(args));
    let end = NOW + 43_200;
    let (b, bts_bump, esc_bump) = buy_accounts(&w, 500);
    buy(&b, &mut listing, &program_id(), NOW + 10, 2, bts_bump, esc_bump, w.auth_bump, 500, 1).unwrap();
    let (a, esc_bump, free_bump) = sale_accounts(&w, b.buyer_trade_state);
    let r = execute_sale(&a, &listing, &program_id(), end, esc_bump, free_bump, w.pas_bump, w.auth_bump, 500, 1);
    assert_eq!(r.err(), Some(AuctioneerError::AuctionActive));
    let req = execute_sale(&a, &listing, &program_id(), end + 1, esc_bump, free_bump, w.pas_bump, w.auth_bump, 500, 1).unwrap();
    assert_eq!(req.instruction.accounts.len(), 23);
    let mut data = discriminator("auctioneer_execute_sale");
    data.extend_from_slice(&[esc_bump, free_bump, w.pas_bump]);
    data.extend_from_slice(&500u64.to_le_bytes());
    data.extend_from_slice(&1u64.to_le_bytes());
    assert_eq!(req.instruction.data, data);
    assert!(req.instruction.accounts[10].is_signer);
    assert!(!req.instruction.accounts[0].is_signer);
}

#[test]
fn execute_sale_against_other_bid() {
    let w = world();
    let (mut listing, _) = list(&w, None);
    let (b, bts_bump, esc_bump) = buy_accounts(&w, 500);
    buy(&b, &mut listing, &program_id(), NOW, 2, bts_bump, esc_bump, w.auth_bump, 500, 1).unwrap();
    let (other, _) = trade_state(&w, BUYER, 400, 1);
    let (a, esc_bump, free_bump) = sale_accounts(&w, other);
    let r = execute_sale(&a, &listing, &program_id(), NOW, esc_bump, free_bump, w.pas_bump, w.auth_bump, 400, 1);
    assert_eq!(r.err(), Some(AuctioneerError::NotHighestBidder));
}

fn cancel_accounts(w: &World, caller: u8) -> AuctioneerCancel {
    cancel_accounts_for(w, SELLER, u64::MAX, caller)
}

fn cancel_accounts_for(w: &World, owner: u8, price: u64, caller: u8) -> AuctioneerCancel {
    let (ts, ts_bump) = trade_state(w, owner, price, 1);
    AuctioneerCancel {
        auction_house_program: engine(),
        wallet: key(owner),
        token_account: key(TOKEN_ACCOUNT),
        token_mint: key(TOKEN_MINT),
        authority: key(AUTHORITY),
        auction_house: w.house,
        auction_house_fee_account: w.data.auction_house_fee_account,
        trade_state: ts,
        auctioneer_authority: w.auth,
        ah_auctioneer_pda: w.ah_pda,
        token_program: key(41),
        caller: key(caller),
        auction_house_data: w.data,
        ah_auctioneer_bump: w.ah_pda_bump,
        trade_state_bump: ts_bump,
        signers: vec![key(caller)],
    }
}

#[test]
fn cancel_by_stranger_refused() {
    let w = world();
    let a = cancel_accounts(&w, STRANGER);
    let r = cancel(&a, &program_id(), w.auth_bump, u64::MAX, 1);
    assert_eq!(r.err(), Some(AuctioneerError::Unauthorized));
}

#[test]
fn cancel_by_owner_or_authority() {
    let w = world();
    let a = cancel_accounts(&w, SELLER);
    let req = cancel(&a, &program_id(), w.auth_bump, u64::MAX, 1).unwrap();
    assert_eq!(req.instruction.accounts.len(), 10);
    assert!(req.instruction.accounts[0].is_signer);
    let mut data = discriminator("auctioneer_cancel");
    data.extend_from_slice(&u64::MAX.to_le_bytes());
    data.extend_from_slice(&1u64.to_le_bytes());
    assert_eq!(req.instruction.data, data);
    let b = cancel_accounts(&w, AUTHORITY);
    assert!(cancel(&b, &program_id(), w.auth_bump, u64::MAX, 1).is_ok());
}

#[test]
fn deposit_and_withdraw_forwarded() {
    let w = world();
    let (esc, esc_bump) = escrow(&w, BUYER);
    let d = AuctioneerDeposit {
        auction_house_program: engine(),
        wallet: key(BUYER),
        payment_account: key(BUYER),
        transfer_authority: key(BUYER),
        escrow_payment_account: esc,
        treasury_mint: w.data.treasury_mint,
        authority: key(AUTHORITY),
        auction_house: w.house,
        auction_house_fee_account: w.data.auction_house_fee_account,
        auctioneer_authority: w.auth,
        ah_auctioneer_pda: w.ah_pda,
        token_program: key(41),
        system_program: key(42),
        rent: key(43),
        auction_house_data: w.data,
        ah_auctioneer_bump: w.ah_pda_bump,
        signers: vec![key(BUYER)],
    };
    let req = deposit(&d, &program_id(), esc_bump, w.auth_bump, 5_000).unwrap();
    let mut data = discriminator("auctioneer_deposit");
    data.push(esc_bump);
    data.extend_from_slice(&5_000u64.to_le_bytes());
    assert_eq!(req.instruction.data, data);
    assert_eq!(req.instruction.accounts.len(), 13);
    let unsigned = AuctioneerDeposit { signers: Vec::new(), ..d };
    assert_eq!(deposit(&unsigned, &program_id(), esc_bump, w.auth_bump, 5_000).err(), Some(AuctioneerError::Unauthorized));

    let wd = AuctioneerWithdraw {
        auction_house_program: engine(),
        wallet: key(BUYER),
        receipt_account: key(BUYER),
        escrow_payment_account: esc,
        treasury_mint: w.data.treasury_mint,
        authority: key(AUTHORITY),
        auction_house: w.house,
        auction_house_fee_account: w.data.auction_house_fee_account,
        auctioneer_authority: w.auth,
        ah_auctioneer_pda: w.ah_pda,
        token_program: key(41),
        system_program: key(42),
        ata_program: key(45),
        rent: key(43),
        auction_house_data: w.data,
        ah_auctioneer_bump: w.ah_pda_bump,
        signers: Vec::new(),
    };
    let req = withdraw(&wd, &program_id(), esc_bump, w.auth_bump, 7).unwrap();
    let mut data = discriminator("auctioneer_withdraw");
    data.push(esc_bump);
    data.extend_from_slice(&7u64.to_le_bytes());
    assert_eq!(req.instruction.data, data);
    assert_eq!(req.instruction.accounts.len(), 13);
    assert!(req.instruction.accounts[5].is_signer);
    let wrong = AuctioneerWithdraw { auction_house_program: key(9), ..wd };
    assert_eq!(withdraw(&wrong, &program_id(), esc_bump, w.auth_bump, 7).err(), Some(AuctioneerError::AccountMismatch));
}

#[test]
fn sell_success() {
    let w = world();
    let l = sell_accounts(&w);
    let args = TimedAuctionArgs { start_time: Some(NOW), duration: TimedAuctionDuration::H12 };
    let (listing, req) = sell(&l.accounts, &program_id(), NOW, l.ts_bump, l.free_bump, w.pas_bump, w.auth_bump, 1, Some(args), 1).unwrap();
    assert_eq!(listing.min_bid, 1);
    assert_eq!(listing.highest_bid.amount, 0);
    let seller_ts = &req.instruction.accounts[7];
    assert_eq!(seller_ts.pubkey, trade_state(&w, SELLER, u64::MAX, 1).0);
    assert!(seller_ts.is_writable);
}

#[test]
fn cancel_listing() {
    let w = world();
    let (_listing, _) = list(&w, None);
    let a = cancel_accounts_for(&w, SELLER, u64::MAX, SELLER);
    let req = cancel(&a, &program_id(), w.auth_bump, u64::MAX, 1).unwrap();
    assert_eq!(req.instruction.accounts[7].pubkey, a.trade_state);
    assert_eq!(req.instruction.program_id, engine());
}

#[test]
fn cancel_bid() {
    let w = world();
    let price: u64 = 1_000_000_000;
    let (mut listing, _) = list(&w, None);
    let (b, bts_bump, esc_bump) = buy_accounts(&w, price);
    buy(&b, &mut listing, &program_id(), NOW, 9, bts_bump, esc_bump, w.auth_bump, price, 1).unwrap();
    assert_eq!(listing.highest_bid.amount, price);
    let a = cancel_accounts_for(&w, BUYER, price, BUYER);
    assert_eq!(a.trade_state, b.buyer_trade_state);
    let req = cancel(&a, &program_id(), w.auth_bump, price, 1).unwrap();
    let mut data = discriminator("auctioneer_cancel");
    data.extend_from_slice(&price.to_le_bytes());
    data.extend_from_slice(&1u64.to_le_bytes());
    assert_eq!(req.instruction.data, data);
    assert!(req.instruction.accounts[0].is_signer);
}

#[test]
fn too_many_seeds_have_no_nonce() {
    let seeds: Vec<Vec<u8>> = (0..17u8).map(|i| vec![i]).collect();
    assert_eq!(find_address(&seeds, &engine()).err(), Some(AuctioneerError::NoValidNonce));
    assert_eq!(derive_address(&seeds, 255, &engine()).err(), Some(AuctioneerError::InvalidSeeds));
    let long = vec![vec![7u8; 33]];
    assert_eq!(find_address(&long, &engine()).err(), Some(AuctioneerError::NoValidNonce));
}

#[test]
fn withdraw_takes_any_authority_account() {
    let w = world();
    let (esc, esc_bump) = escrow(&w, BUYER);
    let wd = AuctioneerWithdraw {
        auction_house_program: engine(),
        wallet: key(BUYER),
        receipt_account: key(BUYER),
        escrow_payment_account: esc,
        treasury_mint: w.data.treasury_mint,
        authority: key(STRANGER),
        auction_house: w.house,
        auction_house_fee_account: w.data.auction_house_fee_account,
        auctioneer_authority: w.auth,
        ah_auctioneer_pda: w.ah_pda,
        token_program: key(41),
        system_program: key(42),
        ata_program: key(45),
        rent: key(43),
        auction_house_data: w.data,
        ah_auctioneer_bump: w.ah_pda_bump,
        signers: Vec::new(),
    };
    assert!(withdraw(&wd, &program_id(), esc_bump, w.auth_bump, 1).is_ok());
    let wrong_escrow = AuctioneerWithdraw { escrow_payment_account: key(5), ..wd };
    assert_eq!(withdraw(&wrong_escrow, &program_id(), esc_bump, w.auth_bump, 1).err(), Some(AuctioneerError::InvalidSeeds));
}

#[test]
fn deposit_needs_house_authority() {
    let w = world();
    let (esc, esc_bump) = escrow(&w, BUYER);
    let d = AuctioneerDeposit {
        auction_house_program: engine(),
        wallet: key(BUYER),
        payment_account: key(BUYER),
        transfer_authority: key(BUYER),
        escrow_payment_account: esc,
        treasury_mint: w.data.treasury_mint,
        authority: key(STRANGER),
        auction_house: w.house,
        auction_house_fee_account: w.data.auction_house_fee_account,
        auctioneer_authority: w.auth,
        ah_auctioneer_pda: w.ah_pda,
        token_program: key(41),
        system_program: key(42),
        rent: key(43),
        auction_house_data: w.data,
        ah_auctioneer_bump: w.ah_pda_bump,
        signers: vec![key(BUYER)],
    };
    assert_eq!(deposit(&d, &program_id(), esc_bump, w.auth_bump, 1).err(), Some(AuctioneerError::AccountMismatch));
}
