use vstd::prelude::*;

verus! {

/// Seed that opens most base-engine derivations: the bytes of `auction_house`.
pub open spec fn prefix_seed() -> Seq<u8> {
    seq![97u8, 117, 99, 116, 105, 111, 110, 95, 104, 111, 117, 115, 101]
}

/// Seed of an auction house's fee account: the bytes of `fee_payer`.
pub open spec fn fee_payer_seed() -> Seq<u8> {
    seq![102u8, 101, 101, 95, 112, 97, 121, 101, 114]
}

/// Seed of an auction house's treasury: the bytes of `treasury`.
pub open spec fn treasury_seed() -> Seq<u8> {
    seq![116u8, 114, 101, 97, 115, 117, 114, 121]
}

/// Seed of the base engine's signing identity: the bytes of `signer`.
pub open spec fn signer_seed() -> Seq<u8> {
    seq![115u8, 105, 103, 110, 101, 114]
}

/// Seed of delegation records: the bytes of `auctioneer`.
pub open spec fn auctioneer_seed() -> Seq<u8> {
    seq![97u8, 117, 99, 116, 105, 111, 110, 101, 101, 114]
}

/// Seed of listing configurations: the bytes of `listing_config`.
pub open spec fn listing_config_seed() -> Seq<u8> {
    seq![108u8, 105, 115, 116, 105, 110, 103, 95, 99, 111, 110, 102, 105, 103]
}

/// The bytes of `auction_house`.
pub fn prefix() -> (r: Vec<u8>)
    ensures
        r@ == prefix_seed(),
{
    vec![97u8, 117, 99, 116, 105, 111, 110, 95, 104, 111, 117, 115, 101]
}

/// The bytes of `fee_payer`.
pub fn fee_payer() -> (r: Vec<u8>)
    ensures
        r@ == fee_payer_seed(),
{
    vec![102u8, 101, 101, 95, 112, 97, 121, 101, 114]
}

/// The bytes of `treasury`.
pub fn treasury() -> (r: Vec<u8>)
    ensures
        r@ == treasury_seed(),
{
    vec![116u8, 114, 101, 97, 115, 117, 114, 121]
}

/// The bytes of `signer`.
pub fn signer() -> (r: Vec<u8>)
    ensures
        r@ == signer_seed(),
{
    vec![115u8, 105, 103, 110, 101, 114]
}

/// The bytes of `auctioneer`.
pub fn auctioneer() -> (r: Vec<u8>)
    ensures
        r@ == auctioneer_seed(),
{
    vec![97u8, 117, 99, 116, 105, 111, 110, 101, 101, 114]
}

/// The bytes of `listing_config`.
pub fn listing_config() -> (r: Vec<u8>)
    ensures
        r@ == listing_config_seed(),
{
    vec![108u8, 105, 115, 116, 105, 110, 103, 95, 99, 111, 110, 102, 105, 103]
}

} // verus!
