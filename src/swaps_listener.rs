use vstd::prelude::*;
use crate::address::Address;

verus! {

/// Whether a pair-shape swap event sells the watched token: the token is
/// paid into the pair (on its side of the pair) and none of it comes out.
pub open spec fn is_pair_sell(
    token0: Address,
    target: Address,
    amount_0_in: u128,
    amount_1_in: u128,
    amount_0_out: u128,
    amount_1_out: u128,
) -> bool {
    let (amount_in, amount_out) = if token0 == target {
        (amount_0_in, amount_0_out)
    } else {
        (amount_1_in, amount_1_out)
    };
    amount_in > 0 && amount_out == 0
}

/// Classifies a pair-shape swap event of a pair whose first token is `token0`.
pub fn is_v2_sell(
    token0: Address,
    target: Address,
    amount_0_in: u128,
    amount_1_in: u128,
    amount_0_out: u128,
    amount_1_out: u128,
) -> (r: bool)
    ensures
        r == is_pair_sell(token0, target, amount_0_in, amount_1_in, amount_0_out, amount_1_out),
{
    let is_token0 = token0 == target;
    let amount_in = if is_token0 {
        amount_0_in
    } else {
        amount_1_in
    };
    let amount_out = if is_token0 {
        amount_0_out
    } else {
        amount_1_out
    };
    amount_in > 0 && amount_out == 0
}

/// For a concentrated-liquidity pool: `None` when the watched token is in
/// neither slot (a slot holding the wrapped native asset does not count);
/// else whether the pool's signed change for the watched token's slot is
/// positive, which is a sale of it.
pub open spec fn pool_sell(
    token0: Address,
    token1: Address,
    target: Address,
    wrapped: Address,
    amount_0: i128,
    amount_1: i128,
) -> Option<bool> {
    if token0 == target && token0 != wrapped {
        Some(amount_0 > 0)
    } else if token1 == target && token1 != wrapped {
        Some(amount_1 > 0)
    } else {
        None
    }
}

/// Classifies a concentrated-liquidity swap event.
pub fn is_v3_sell(
    token0: Address,
    token1: Address,
    target: Address,
    wrapped: Address,
    amount_0: i128,
    amount_1: i128,
) -> (r: Option<bool>)
    ensures
        r == pool_sell(token0, token1, target, wrapped, amount_0, amount_1),
{
    if token0 == target && token0 != wrapped {
        Some(amount_0 > 0)
    } else if token1 == target && token1 != wrapped {
        Some(amount_1 > 0)
    } else {
        None
    }
}

/// Whether a pending transaction is sent to the watched pair.
pub fn is_pair_transaction(to: Option<Address>, pair: Address) -> (r: bool)
    ensures
        r == (to == Some(pair)),
{
    match to {
        Some(a) => a == pair,
        None => false,
    }
}

} // verus!
