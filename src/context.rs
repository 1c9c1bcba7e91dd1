use vstd::prelude::*;

verus! {

/// What the host tells a call about its circumstances.
#[derive(Clone, Debug)]
pub struct Context {
    /// The current block height.
    pub block_index: u64,
    /// The account that made the call.
    pub predecessor_account_id: String,
    /// The payment attached to the call.
    pub attached_deposit: u128,
}

/// The price of storing one byte, in the smallest unit of value.
pub open spec fn storage_price() -> int {
    10_000_000_000_000_000_000
}

/// Relies on `near_sdk::env::storage_byte_cost`, which returns the constant
/// `STORAGE_PRICE_PER_BYTE` of ten to the nineteenth.
#[verifier::external_body]
pub(crate) fn storage_byte_cost() -> (r: u128)
    ensures
        r == storage_price(),
{
    near_sdk::env::storage_byte_cost()
}

} // verus!
