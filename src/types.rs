use vstd::prelude::*;

verus! {

/// Identifies a participant; the key of every per-account mapping.
pub type AccountId = String;

/// An account's balance.
pub type Balance = u128;

/// The number of a block.
pub type BlockNumber = u32;

/// The number of calls an account has submitted.
pub type Nonce = u32;

/// A piece of claimable content (or the hash of it).
pub type Content = String;

/// The types a runtime is built on: account identifiers, block numbers,
/// nonces and balances.
pub trait Config {
    type AccountId;
    type BlockNumber;
    type Nonce;
    type Balance;
}

/// The configuration that the modules are tested with.
pub struct TestConfig;

impl Config for TestConfig {
    type AccountId = String;
    type BlockNumber = u32;
    type Nonce = u32;
    type Balance = u128;
}

/// Relies on `num::CheckedAdd::checked_add` for `u128`: the sum, or `None`
/// when it does not fit.
#[verifier::external_body]
pub(crate) fn balance_checked_add(a: Balance, b: Balance) -> (r: Option<Balance>)
    ensures
        r == (if a + b <= u128::MAX { Some((a + b) as u128) } else { None::<u128> }),
{
    <u128 as num::CheckedAdd>::checked_add(&a, &b)
}

/// Relies on `num::CheckedSub::checked_sub` for `u128`: the difference, or
/// `None` when it would be negative.
#[verifier::external_body]
pub(crate) fn balance_checked_sub(a: Balance, b: Balance) -> (r: Option<Balance>)
    ensures
        r == (if b <= a { Some((a - b) as u128) } else { None::<u128> }),
{
    <u128 as num::CheckedSub>::checked_sub(&a, &b)
}

/// Relies on `num::CheckedAdd::checked_add` for `u32`: the sum, or `None`
/// when it does not fit.
#[verifier::external_body]
pub(crate) fn counter_checked_add(a: u32, b: u32) -> (r: Option<u32>)
    ensures
        r == (if a + b <= u32::MAX { Some((a + b) as u32) } else { None::<u32> }),
{
    <u32 as num::CheckedAdd>::checked_add(&a, &b)
}

} // verus!
