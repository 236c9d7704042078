use vstd::prelude::*;
use vstd::bytes::spec_u64_to_le_bytes;

use crate::cpi::AccountMeta;
use crate::errors::AuctioneerError;
use crate::pda::{
    ah_auctioneer_seed_list, ah_auctioneer_seeds, assert_derived, auction_house_seed_list, auction_house_seeds,
    auctioneer_authority_seed_list, auctioneer_authority_seeds, derives, fee_account_seed_list, fee_account_seeds,
    seeds_view, seeds_with_bump, with_bump,
};
use crate::pubkey::Pubkey;
use crate::utils::{same_accounts, to_signed_metas};

verus! {

/// The fields of an auction house instance that the operations read.
#[derive(Clone, Copy, Debug)]
pub struct AuctionHouseData {
    pub auction_house_fee_account: Pubkey,
    pub auction_house_treasury: Pubkey,
    pub treasury_mint: Pubkey,
    pub authority: Pubkey,
    pub creator: Pubkey,
    pub bump: u8,
    pub treasury_bump: u8,
    pub fee_payer_bump: u8,
}

/// A request to a program: the accounts it takes, in order, and its data.
pub struct Instruction {
    pub program_id: Pubkey,
    pub accounts: Vec<AccountMeta>,
    pub data: Vec<u8>,
}

/// A request to the base engine, with the seeds that prove the delegate's
/// signature.
pub struct ForwardRequest {
    pub instruction: Instruction,
    pub signer_seeds: Vec<Vec<u8>>,
}

/// Whether `key` is among the accounts that signed the incoming call.
pub open spec fn signed_by(signers: Seq<Pubkey>, key: Pubkey) -> bool {
    exists|i: int| 0 <= i < signers.len() && (#[trigger] signers[i])@ == key@
}

/// The entries of `schema` as the base engine receives them: each signs
/// where its account signed the incoming call or is the delegate.
pub open spec fn forwarded(schema: Seq<AccountMeta>, signers: Seq<Pubkey>, delegate: Pubkey) -> Seq<AccountMeta> {
    schema.map_values(|m: AccountMeta| AccountMeta {
        pubkey: m.pubkey,
        is_signer: signed_by(signers, m.pubkey) || m.pubkey@ == delegate@,
        is_writable: m.is_writable,
    })
}

/// Whether `key` is among `signers`.
pub fn is_signer(signers: &Vec<Pubkey>, key: &Pubkey) -> (r: bool)
    ensures
        r == signed_by(signers@, *key),
{
    let mut i: usize = 0;
    while i < signers.len()
        invariant
            i <= signers@.len(),
            forall|j: int| 0 <= j < i ==> (#[trigger] signers@[j])@ != key@,
        decreases signers@.len() - i,
    {
        if signers[i].same(key) {
            return true;
        }
        i += 1;
    }
    false
}

/// The incoming accounts of `schema`, each flagged as signing where it
/// signed the incoming call.
fn incoming(schema: &Vec<AccountMeta>, signers: &Vec<Pubkey>) -> (r: Vec<AccountMeta>)
    ensures
        same_accounts(schema@, r@),
        forall|i: int| 0 <= i < r@.len() ==> (#[trigger] r@[i]).is_signer == signed_by(signers@, schema@[i].pubkey),
{
    let mut out: Vec<AccountMeta> = Vec::new();
    let mut i: usize = 0;
    while i < schema.len()
        invariant
            i <= schema@.len(),
            out@.len() == i,
            forall|j: int| 0 <= j < i ==> (#[trigger] out@[j]).pubkey@ == schema@[j].pubkey@,
            forall|j: int| 0 <= j < i ==> (#[trigger] out@[j]).is_signer == signed_by(signers@, schema@[j].pubkey),
        decreases schema@.len() - i,
    {
        let m = schema[i];
        let s = is_signer(signers, &m.pubkey);
        out.push(AccountMeta { pubkey: m.pubkey, is_signer: s, is_writable: m.is_writable });
        i += 1;
    }
    out
}

/// The account list of a forwarded request: `schema` in the base engine's
/// order, with each entry signing where its account signed the incoming
/// call or is the delegate.
pub fn forward_accounts(schema: &Vec<AccountMeta>, signers: &Vec<Pubkey>, delegate: &Pubkey) -> (r: Vec<AccountMeta>)
    ensures
        r@ == forwarded(schema@, signers@, *delegate),
{
    let infos = incoming(schema, signers);
    match to_signed_metas(delegate, schema, &infos) {
        Ok(out) => {
            assert(out@ =~= forwarded(schema@, signers@, *delegate));
            out
        },
        Err(_) => {
            assert(false);
            Vec::new()
        },
    }
}

/// The bytes of the base engine's program identity.
pub open spec fn auction_house_program_id() -> Seq<u8> {
    seq![10u8, 101, 147, 134, 60, 186, 70, 21, 100, 234, 228, 19, 115, 114, 21, 70,
        235, 1, 81, 201, 48, 130, 118, 187, 212, 173, 42, 28, 58, 66, 16, 123]
}

/// Relies on `mpl_auction_house::ID`, declared there as
/// `hausS13jsjafwWwGqZTUQRmWyvyxn9EQpqMwV1PBBmk`, whose bytes these are.
#[verifier::external_body]
pub(crate) fn auction_house_id() -> (r: Pubkey)
    ensures
        r@ == auction_house_program_id(),
{
    Pubkey { bytes: mpl_auction_house::ID.to_bytes() }
}

/// Refuses `key` unless it is the base engine's program.
pub fn assert_auction_house_program(key: &Pubkey) -> (r: Result<(), AuctioneerError>)
    ensures
        r is Ok <==> key@ == auction_house_program_id(),
        r is Err ==> r == Err::<(), AuctioneerError>(AuctioneerError::AccountMismatch),
{
    if auction_house_id().same(key) {
        Ok(())
    } else {
        Err(AuctioneerError::AccountMismatch)
    }
}

/// What `mpl_auction_house::instruction::AuctioneerSell` encodes as instruction data.
pub uninterp spec fn auctioneer_sell_data(trade_state_bump: u8, free_trade_state_bump: u8, program_as_signer_bump: u8, token_size: u64) -> Seq<u8>;

/// What `mpl_auction_house::instruction::AuctioneerBuy` encodes as instruction data.
pub uninterp spec fn auctioneer_buy_data(trade_state_bump: u8, escrow_payment_bump: u8, buyer_price: u64, token_size: u64) -> Seq<u8>;

/// What `mpl_auction_house::instruction::AuctioneerCancel` encodes as instruction data.
pub uninterp spec fn auctioneer_cancel_data(buyer_price: u64, token_size: u64) -> Seq<u8>;

/// What `mpl_auction_house::instruction::AuctioneerDeposit` encodes as instruction data.
pub uninterp spec fn auctioneer_deposit_data(escrow_payment_bump: u8, amount: u64) -> Seq<u8>;

/// What `mpl_auction_house::instruction::AuctioneerExecuteSale` encodes as instruction data.
pub uninterp spec fn auctioneer_execute_sale_data(
    escrow_payment_bump: u8,
    free_trade_state_bump: u8,
    program_as_signer_bump: u8,
    buyer_price: u64,
    token_size: u64,
) -> Seq<u8>;

/// What `mpl_auction_house::instruction::AuctioneerWithdraw` encodes as instruction data.
pub uninterp spec fn auctioneer_withdraw_data(escrow_payment_bump: u8, amount: u64) -> Seq<u8>;

/// Relies on anchor's `InstructionData::data` for
/// `mpl_auction_house::instruction::AuctioneerSell`: an eight-byte
/// discriminator followed by the borsh encoding of the arguments in order.
#[verifier::external_body]
pub(crate) fn sell_data(trade_state_bump: u8, free_trade_state_bump: u8, program_as_signer_bump: u8, token_size: u64) -> (r: Vec<u8>)
    ensures
        r@ == auctioneer_sell_data(trade_state_bump, free_trade_state_bump, program_as_signer_bump, token_size),
        r@.len() == 19,
        r@.subrange(8, 19) == seq![trade_state_bump, free_trade_state_bump, program_as_signer_bump] + spec_u64_to_le_bytes(token_size),
{
    let ix = mpl_auction_house::instruction::AuctioneerSell { trade_state_bump, free_trade_state_bump, program_as_signer_bump, token_size };
    anchor_lang::InstructionData::data(&ix)
}

/// Relies on anchor's `InstructionData::data` for
/// `mpl_auction_house::instruction::AuctioneerBuy`: an eight-byte
/// discriminator followed by the borsh encoding of the arguments in order.
#[verifier::external_body]
pub(crate) fn buy_data(trade_state_bump: u8, escrow_payment_bump: u8, buyer_price: u64, token_size: u64) -> (r: Vec<u8>)
    ensures
        r@ == auctioneer_buy_data(trade_state_bump, escrow_payment_bump, buyer_price, token_size),
        r@.len() == 26,
        r@.subrange(8, 26) == seq![trade_state_bump, escrow_payment_bump] + spec_u64_to_le_bytes(buyer_price) + spec_u64_to_le_bytes(token_size),
{
    let ix = mpl_auction_house::instruction::AuctioneerBuy { trade_state_bump, escrow_payment_bump, buyer_price, token_size };
    anchor_lang::InstructionData::data(&ix)
}

/// Relies on anchor's `InstructionData::data` for
/// `mpl_auction_house::instruction::AuctioneerCancel`: an eight-byte
/// discriminator followed by the borsh encoding of the arguments in order.
#[verifier::external_body]
pub(crate) fn cancel_data(buyer_price: u64, token_size: u64) -> (r: Vec<u8>)
    ensures
        r@ == auctioneer_cancel_data(buyer_price, token_size),
        r@.len() == 24,
        r@.subrange(8, 24) == spec_u64_to_le_bytes(buyer_price) + spec_u64_to_le_bytes(token_size),
{
    let ix = mpl_auction_house::instruction::AuctioneerCancel { buyer_price, token_size };
    anchor_lang::InstructionData::data(&ix)
}

/// Relies on anchor's `InstructionData::data` for
/// `mpl_auction_house::instruction::AuctioneerDeposit`: an eight-byte
/// discriminator followed by the borsh encoding of the arguments in order.
#[verifier::external_body]
pub(crate) fn deposit_data(escrow_payment_bump: u8, amount: u64) -> (r: Vec<u8>)
    ensures
        r@ == auctioneer_deposit_data(escrow_payment_bump, amount),
        r@.len() == 17,
        r@.subrange(8, 17) == seq![escrow_payment_bump] + spec_u64_to_le_bytes(amount),
{
    let ix = mpl_auction_house::instruction::AuctioneerDeposit { escrow_payment_bump, amount };
    anchor_lang::InstructionData::data(&ix)
}

/// Relies on anchor's `InstructionData::data` for
/// `mpl_auction_house::instruction::AuctioneerExecuteSale`: an eight-byte
/// discriminator followed by the borsh encoding of the arguments in order.
#[verifier::external_body]
pub(crate) fn execute_sale_data(
    escrow_payment_bump: u8,
    free_trade_state_bump: u8,
    program_as_signer_bump: u8,
    buyer_price: u64,
    token_size: u64,
) -> (r: Vec<u8>)
    ensures
        r@ == auctioneer_execute_sale_data(escrow_payment_bump, free_trade_state_bump, program_as_signer_bump, buyer_price, token_size),
        r@.len() == 27,
        r@.subrange(8, 27) == seq![escrow_payment_bump, free_trade_state_bump, program_as_signer_bump]
            + spec_u64_to_le_bytes(buyer_price) + spec_u64_to_le_bytes(token_size),
{
    let ix = mpl_auction_house::instruction::AuctioneerExecuteSale {
        escrow_payment_bump,
        _free_trade_state_bump: free_trade_state_bump,
        program_as_signer_bump,
        buyer_price,
        token_size,
    };
    anchor_lang::InstructionData::data(&ix)
}

/// Relies on anchor's `InstructionData::data` for
/// `mpl_auction_house::instruction::AuctioneerWithdraw`: an eight-byte
/// discriminator followed by the borsh encoding of the arguments in order.
#[verifier::external_body]
pub(crate) fn withdraw_data(escrow_payment_bump: u8, amount: u64) -> (r: Vec<u8>)
    ensures
        r@ == auctioneer_withdraw_data(escrow_payment_bump, amount),
        r@.len() == 17,
        r@.subrange(8, 17) == seq![escrow_payment_bump] + spec_u64_to_le_bytes(amount),
{
    let ix = mpl_auction_house::instruction::AuctioneerWithdraw { escrow_payment_bump, amount };
    anchor_lang::InstructionData::data(&ix)
}

/// The auction house accounts of an operation agree with its record: the
/// base engine's program, the instance's own identity, and its fee account.
pub open spec fn house_ok(program: Pubkey, house: Pubkey, fee_account: Pubkey, data: AuctionHouseData) -> bool {
    &&& program@ == auction_house_program_id()
    &&& derives(house@, auction_house_seeds(data.creator@, data.treasury_mint@), data.bump, program@)
    &&& data.auction_house_fee_account@ == fee_account@
    &&& derives(fee_account@, fee_account_seeds(house@), data.fee_payer_bump, program@)
}

/// The delegate accounts of an operation are this program's signing
/// identity for the house, with nonce `bump`, and the base engine's record
/// of that delegate, with nonce `record_bump`.
pub open spec fn delegate_ok(
    program_id: Pubkey,
    house: Pubkey,
    auctioneer_authority: Pubkey,
    bump: u8,
    ah_auctioneer_pda: Pubkey,
    record_bump: u8,
) -> bool {
    &&& derives(auctioneer_authority@, auctioneer_authority_seeds(house@), bump, program_id@)
    &&& derives(ah_auctioneer_pda@, ah_auctioneer_seeds(house@, auctioneer_authority@), record_bump, auction_house_program_id())
}

/// The errors that refuse the accounts of an operation.
pub open spec fn account_error(e: AuctioneerError) -> bool {
    e == AuctioneerError::InvalidSeeds || e == AuctioneerError::AccountMismatch || e == AuctioneerError::NoValidNonce
}

/// Refuses an operation whose auction house accounts disagree with its record.
pub fn check_house(program: &Pubkey, house: &Pubkey, fee_account: &Pubkey, data: &AuctionHouseData) -> (r: Result<(), AuctioneerError>)
    ensures
        r is Ok <==> house_ok(*program, *house, *fee_account, *data),
        r matches Err(e) ==> account_error(e),
{
    assert_auction_house_program(program)?;
    assert_derived(house, &auction_house_seed_list(&data.creator, &data.treasury_mint), data.bump, program)?;
    if !data.auction_house_fee_account.same(fee_account) {
        return Err(AuctioneerError::AccountMismatch);
    }
    assert_derived(fee_account, &fee_account_seed_list(house), data.fee_payer_bump, program)?;
    Ok(())
}

/// Refuses an account that is not the authority the auction house records.
pub fn check_authority(authority: &Pubkey, data: &AuctionHouseData) -> (r: Result<(), AuctioneerError>)
    ensures
        r is Ok <==> data.authority@ == authority@,
        r is Err ==> r == Err::<(), AuctioneerError>(AuctioneerError::AccountMismatch),
{
    if data.authority.same(authority) {
        Ok(())
    } else {
        Err(AuctioneerError::AccountMismatch)
    }
}

/// Refuses an operation whose delegate accounts are not this program's
/// signing identity for the house and the base engine's record of it.
pub fn check_delegate(
    program_id: &Pubkey,
    house: &Pubkey,
    auctioneer_authority: &Pubkey,
    bump: u8,
    ah_auctioneer_pda: &Pubkey,
    record_bump: u8,
) -> (r: Result<(), AuctioneerError>)
    ensures
        r is Ok <==> delegate_ok(*program_id, *house, *auctioneer_authority, bump, *ah_auctioneer_pda, record_bump),
        r matches Err(e) ==> account_error(e),
{
    assert_derived(auctioneer_authority, &auctioneer_authority_seed_list(house), bump, program_id)?;
    let engine = auction_house_id();
    assert_derived(ah_auctioneer_pda, &ah_auctioneer_seed_list(house, auctioneer_authority), record_bump, &engine)?;
    Ok(())
}

/// The seeds with which this program signs as the house's delegate.
pub fn delegate_signer_seeds(house: &Pubkey, bump: u8) -> (r: Vec<Vec<u8>>)
    ensures
        seeds_view(r@) == with_bump(auctioneer_authority_seeds(house@), bump),
{
    seeds_with_bump(&auctioneer_authority_seed_list(house), bump)
}

/// A request to the base engine with the given accounts and data, signed as
/// the house's delegate with nonce `bump`.
pub fn forward_request(
    schema: &Vec<AccountMeta>,
    signers: &Vec<Pubkey>,
    delegate: &Pubkey,
    house: &Pubkey,
    bump: u8,
    data: Vec<u8>,
) -> (r: ForwardRequest)
    ensures
        r.instruction.program_id@ == auction_house_program_id(),
        r.instruction.accounts@ == forwarded(schema@, signers@, *delegate),
        r.instruction.data@ == data@,
        seeds_view(r.signer_seeds@) == with_bump(auctioneer_authority_seeds(house@), bump),
{
    ForwardRequest {
        instruction: Instruction {
            program_id: auction_house_id(),
            accounts: forward_accounts(schema, signers, delegate),
            data,
        },
        signer_seeds: delegate_signer_seeds(house, bump),
    }
}

} // verus!
