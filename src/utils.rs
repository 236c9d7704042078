use vstd::prelude::*;

use crate::cpi::AccountMeta;
use crate::errors::AuctioneerError;
use crate::pubkey::Pubkey;
use crate::state::ListingConfig;

verus! {

/// The smallest step between bids is `MIN_BID_STEP_VAL` units at this many
/// decimal places of the settlement currency.
pub const MIN_BID_STEP_DECIMALS: u8 = 2;

/// Number of units at `MIN_BID_STEP_DECIMALS` places in the smallest step.
pub const MIN_BID_STEP_VAL: u64 = 1;

/// Ten to the power `n`.
pub open spec fn pow10(n: nat) -> nat
    decreases n,
{
    if n == 0 {
        1
    } else {
        10 * pow10((n - 1) as nat)
    }
}

/// The smallest step between bids, in minor units, for a currency with
/// `decimals` decimal places (at least two).
pub open spec fn min_step(decimals: u8) -> nat {
    (MIN_BID_STEP_VAL * pow10((decimals - MIN_BID_STEP_DECIMALS) as nat)) as nat
}

/// Whether a listing takes bids at `now`.
pub open spec fn auction_active(l: ListingConfig, now: u64) -> Result<(), AuctioneerError> {
    match l.timed_auction_config {
        None => Ok(()),
        Some(w) => if now < w.start_time {
            Err(AuctioneerError::AuctionNotStarted)
        } else if now >= w.end_time {
            Err(AuctioneerError::AuctionEnded)
        } else {
            Ok(())
        },
    }
}

/// Whether a bid of `new_bid` may replace the listing's highest bid, in a
/// currency with `decimals` decimal places.
pub open spec fn higher_bid(l: ListingConfig, decimals: u8, new_bid: u64) -> Result<(), AuctioneerError> {
    if new_bid < l.min_bid || new_bid < l.highest_bid.amount {
        Err(AuctioneerError::BidTooLow)
    } else if decimals < MIN_BID_STEP_DECIMALS {
        Err(AuctioneerError::BidStepTooSmall)
    } else if new_bid - l.highest_bid.amount < min_step(decimals) {
        Err(AuctioneerError::BidStepTooSmall)
    } else {
        Ok(())
    }
}

/// Whether a listing may be settled at `now`.
pub open spec fn auction_over(l: ListingConfig, now: u64) -> Result<(), AuctioneerError> {
    match l.timed_auction_config {
        None => Ok(()),
        Some(w) => if now > w.end_time {
            Ok(())
        } else {
            Err(AuctioneerError::AuctionActive)
        },
    }
}

proof fn lemma_pow10_positive(n: nat)
    ensures
        pow10(n) >= 1,
    decreases n,
{
    if n > 0 {
        lemma_pow10_positive((n - 1) as nat);
    }
}

proof fn lemma_pow10_grows(a: nat, b: nat)
    requires
        a <= b,
    ensures
        pow10(a) <= pow10(b),
    decreases b,
{
    if a < b {
        lemma_pow10_grows(a, (b - 1) as nat);
        lemma_pow10_positive((b - 1) as nat);
    }
}

/// The smallest step between bids, when there is one that fits in 64 bits.
pub fn min_bid_step(decimals: u8) -> (r: Option<u64>)
    ensures
        match r {
            Some(step) => decimals >= MIN_BID_STEP_DECIMALS && step == min_step(decimals),
            None => decimals < MIN_BID_STEP_DECIMALS || min_step(decimals) > u64::MAX,
        },
{
    if decimals < MIN_BID_STEP_DECIMALS {
        return None;
    }
    let e: u8 = decimals - MIN_BID_STEP_DECIMALS;
    let mut step: u64 = MIN_BID_STEP_VAL;
    let mut k: u8 = 0;
    while k < e
        invariant
            k <= e,
            e == decimals - MIN_BID_STEP_DECIMALS,
            step as nat == pow10(k as nat),
        decreases e - k,
    {
        if step > u64::MAX / 10 {
            proof {
                lemma_pow10_grows((k + 1) as nat, e as nat);
            }
            return None;
        }
        step = step * 10;
        k = k + 1;
    }
    Some(step)
}

/// Refuses a bid unless the listing's auction window is open at `now`:
/// from its start, inclusive, to its end, exclusive.
pub fn assert_auction_active(listing_config: &ListingConfig, now: u64) -> (r: Result<(), AuctioneerError>)
    ensures
        r == auction_active(*listing_config, now),
{
    match listing_config.timed_auction_config {
        None => Ok(()),
        Some(w) => {
            if now < w.start_time {
                Err(AuctioneerError::AuctionNotStarted)
            } else if now >= w.end_time {
                Err(AuctioneerError::AuctionEnded)
            } else {
                Ok(())
            }
        },
    }
}

/// Refuses a bid below the minimum or the standing highest bid, or one that
/// raises it by less than the smallest step of a currency with `decimals`
/// decimal places.
pub fn assert_higher_bid(listing_config: &ListingConfig, decimals: u8, new_bid_price: u64) -> (r: Result<(), AuctioneerError>)
    ensures
        r == higher_bid(*listing_config, decimals, new_bid_price),
{
    if new_bid_price < listing_config.min_bid {
        return Err(AuctioneerError::BidTooLow);
    }
    if new_bid_price < listing_config.highest_bid.amount {
        return Err(AuctioneerError::BidTooLow);
    }
    let diff = new_bid_price - listing_config.highest_bid.amount;
    match min_bid_step(decimals) {
        None => Err(AuctioneerError::BidStepTooSmall),
        Some(step) => {
            if diff < step {
                Err(AuctioneerError::BidStepTooSmall)
            } else {
                Ok(())
            }
        },
    }
}

/// Refuses a settlement unless the listing's auction window ended strictly
/// before `now`.
pub fn assert_auction_over(listing_config: &ListingConfig, now: u64) -> (r: Result<(), AuctioneerError>)
    ensures
        r == auction_over(*listing_config, now),
{
    match listing_config.timed_auction_config {
        None => Ok(()),
        Some(w) => {
            if now > w.end_time {
                Ok(())
            } else {
                Err(AuctioneerError::AuctionActive)
            }
        },
    }
}

/// The entry `m` as forwarded with the signer flag `signed` of its account,
/// and marked signing as well where it is the delegate `signer`.
pub open spec fn signed_meta(m: AccountMeta, signed: bool, signer: Pubkey) -> AccountMeta {
    AccountMeta { pubkey: m.pubkey, is_signer: signed || m.pubkey@ == signer@, is_writable: m.is_writable }
}

/// The account lists `metas` and `infos` name the same accounts in the same order.
pub open spec fn same_accounts(metas: Seq<AccountMeta>, infos: Seq<AccountMeta>) -> bool {
    &&& metas.len() == infos.len()
    &&& forall|i: int| 0 <= i < metas.len() ==> (#[trigger] metas[i]).pubkey@ == infos[i].pubkey@
}

/// Rewrites a request's account list so that each entry signs where its
/// account signed the incoming call, or where it is the delegate `signer`.
/// Lists that do not name the same accounts in the same order are refused.
pub fn to_signed_metas(signer: &Pubkey, metas: &Vec<AccountMeta>, infos: &Vec<AccountMeta>) -> (r: Result<Vec<AccountMeta>, AuctioneerError>)
    ensures
        match r {
            Ok(out) => {
                &&& same_accounts(metas@, infos@)
                &&& out@.len() == metas@.len()
                &&& forall|i: int| 0 <= i < out@.len() ==> #[trigger] out@[i] == signed_meta(metas@[i], infos@[i].is_signer, *signer)
            },
            Err(e) => e == AuctioneerError::MalformedForwardRequest && !same_accounts(metas@, infos@),
        },
{
    if metas.len() != infos.len() {
        return Err(AuctioneerError::MalformedForwardRequest);
    }
    let mut out: Vec<AccountMeta> = Vec::new();
    let mut i: usize = 0;
    while i < metas.len()
        invariant
            metas@.len() == infos@.len(),
            i <= metas@.len(),
            out@.len() == i,
            forall|j: int| 0 <= j < i ==> metas@[j].pubkey@ == infos@[j].pubkey@,
            forall|j: int| 0 <= j < i ==> #[trigger] out@[j] == signed_meta(metas@[j], infos@[j].is_signer, *signer),
        decreases metas@.len() - i,
    {
        let m = metas[i];
        let info = infos[i];
        if !m.pubkey.same(&info.pubkey) {
            return Err(AuctioneerError::MalformedForwardRequest);
        }
        let is_signer = info.is_signer || m.pubkey.same(signer);
        out.push(AccountMeta { pubkey: m.pubkey, is_signer, is_writable: m.is_writable });
        i += 1;
    }
    Ok(out)
}

} // verus!
