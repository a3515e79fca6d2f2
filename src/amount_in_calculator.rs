use vstd::prelude::*;
use crate::score_calculator::FULL_SCORE;

verus! {

/// Least pool liquidity worth trading: 1000 in millionths of a US dollar.
pub const MIN_LIQUIDITY_THRESHOLD: i64 = 1_000_000_000;

/// Least confidence worth trading: 50 points in millionths.
pub const MIN_CONFIDENCE_THRESHOLD: i64 = 50_000_000;

/// Least wallet balance worth trading from: 0.1 native unit, in wei.
pub const MIN_WALLET_BALANCE_THRESHOLD: u128 = 100_000_000_000_000_000;

/// Whether sizing needs the native price and the wallet balance: only when
/// both liquidity and confidence reach their thresholds.
pub open spec fn sizing_needs_market(confidence: int, liquidity: int) -> bool {
    liquidity >= MIN_LIQUIDITY_THRESHOLD && confidence >= MIN_CONFIDENCE_THRESHOLD
}

/// The price-impact cap scaled by confidence, in wei: the pool's liquidity
/// (millionths of a dollar) over the native price (millionths of a dollar per
/// native unit) gives native units; 1% of that, times confidence over 100
/// points, times 10^18 wei per unit, is `liquidity * confidence * 10^8 / price`.
pub open spec fn impact_cap(confidence: int, liquidity: int, native_price: int) -> int {
    liquidity * confidence * 100_000_000 / native_price
}

/// Half the wallet balance.
pub open spec fn wallet_cap(balance_wei: int) -> int {
    balance_wei / 2
}

pub open spec fn min3(a: int, b: int, c: int) -> int {
    let m = if a <= b {
        a
    } else {
        b
    };
    if m <= c {
        m
    } else {
        c
    }
}

/// The recommended trade size in wei: 0 below the liquidity, confidence or
/// balance thresholds, else the least of the confidence-scaled price-impact
/// cap, half the balance, and the whole balance. A price of 0 leaves the
/// price-impact cap unbounded (liquidity over a zero price), so the two
/// wallet caps decide.
pub open spec fn trade_size(
    confidence: int,
    liquidity: int,
    native_price: int,
    balance_wei: int,
) -> int {
    if !sizing_needs_market(confidence, liquidity) {
        0
    } else if balance_wei < MIN_WALLET_BALANCE_THRESHOLD {
        0
    } else if native_price == 0 {
        min3(wallet_cap(balance_wei), wallet_cap(balance_wei), balance_wei)
    } else {
        min3(impact_cap(confidence, liquidity, native_price), wallet_cap(balance_wei), balance_wei)
    }
}

/// Whether the trade size depends on the native price and the wallet balance,
/// which are then to be fetched; otherwise the size is 0 without them.
pub fn needs_market_data(confidence: i64, liquidity: i64) -> (r: bool)
    ensures
        r == sizing_needs_market(confidence as int, liquidity as int),
{
    liquidity >= MIN_LIQUIDITY_THRESHOLD && confidence >= MIN_CONFIDENCE_THRESHOLD
}

/// The recommended trade size in wei, from the confidence (millionths of a
/// point), the pool's liquidity (millionths of a dollar), the native asset's
/// price (millionths of a dollar per unit) and the wallet balance in wei.
pub fn calculate_amount_in(
    confidence: i64,
    liquidity: i64,
    native_price: u64,
    balance_wei: u128,
) -> (r: u128)
    requires
        0 <= confidence <= FULL_SCORE,
    ensures
        r as int == trade_size(
            confidence as int,
            liquidity as int,
            native_price as int,
            balance_wei as int,
        ),
        r <= balance_wei / 2,
        r <= balance_wei,
{
    if !needs_market_data(confidence, liquidity) {
        return 0;
    }
    if balance_wei < MIN_WALLET_BALANCE_THRESHOLD {
        return 0;
    }
    let half = balance_wei / 2;
    if native_price == 0 {
        return half;
    }
    let l = liquidity as u128;
    let c = confidence as u128;
    assert(l * c <= 0x8000_0000_0000_0000 * 100_000_000) by (nonlinear_arith)
        requires
            l < 0x8000_0000_0000_0000,
            c <= 100_000_000,
    ;
    let impact = l * c * 100_000_000 / (native_price as u128);
    let mut amount = if impact <= half {
        impact
    } else {
        half
    };
    if balance_wei < amount {
        amount = balance_wei;
    }
    amount
}

/// For fixed liquidity, price and balance, the trade size never decreases
/// as confidence grows.
pub proof fn lemma_size_monotonic_in_confidence(
    c1: int,
    c2: int,
    liquidity: int,
    native_price: int,
    balance_wei: int,
)
    requires
        0 <= c1 <= c2,
        native_price >= 0,
        balance_wei >= 0,
    ensures
        trade_size(c1, liquidity, native_price, balance_wei) <= trade_size(
            c2,
            liquidity,
            native_price,
            balance_wei,
        ),
{
    if native_price == 0 {
    } else if sizing_needs_market(c1, liquidity) && balance_wei >= MIN_WALLET_BALANCE_THRESHOLD {
        assert(liquidity * c1 * 100_000_000 <= liquidity * c2 * 100_000_000) by (nonlinear_arith)
            requires
                liquidity >= 0,
                c1 <= c2,
        ;
        vstd::arithmetic::div_mod::lemma_div_is_ordered(
            liquidity * c1 * 100_000_000,
            liquidity * c2 * 100_000_000,
            native_price,
        );
    } else if sizing_needs_market(c2, liquidity) && balance_wei >= MIN_WALLET_BALANCE_THRESHOLD {
        assert(liquidity * c2 * 100_000_000 >= 0) by (nonlinear_arith)
            requires
                liquidity >= 0,
                c2 >= 0,
        ;
        vstd::arithmetic::div_mod::lemma_div_pos_is_pos(
            liquidity * c2 * 100_000_000,
            native_price,
        );
    }
}

/// A trade size never exceeds half the balance nor the balance, and, where
/// the size is taken from a nonzero price, never exceeds the
/// confidence-scaled price-impact cap either.
pub proof fn lemma_size_within_caps(
    confidence: int,
    liquidity: int,
    native_price: int,
    balance_wei: int,
)
    requires
        native_price >= 0,
        balance_wei >= 0,
    ensures
        trade_size(confidence, liquidity, native_price, balance_wei) <= wallet_cap(balance_wei),
        trade_size(confidence, liquidity, native_price, balance_wei) <= balance_wei,
        sizing_needs_market(confidence, liquidity) && native_price > 0 ==> trade_size(
            confidence,
            liquidity,
            native_price,
            balance_wei,
        ) <= impact_cap(confidence, liquidity, native_price),
{
    if sizing_needs_market(confidence, liquidity) && native_price > 0 {
        assert(liquidity * confidence * 100_000_000 >= 0) by (nonlinear_arith)
            requires
                liquidity >= 0,
                confidence >= 0,
        ;
        vstd::arithmetic::div_mod::lemma_div_pos_is_pos(
            liquidity * confidence * 100_000_000,
            native_price,
        );
    }
}

} // verus!
