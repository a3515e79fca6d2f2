use vstd::prelude::*;
use crate::address::{address_of_text, parse_address, Address};
use crate::config_models::{ExchangeConfig, NetworkMetadata};
use crate::errors::SendableError;
use crate::processed_trade::seconds_since_epoch;

verus! {

/// Slippage tolerated below the quoted output, in percent.
pub const SLIPPAGE_PERCENT: u128 = 20;

/// How long a pair-shape swap stays valid, in seconds.
pub const DEADLINE_WINDOW: u64 = 900;

/// Fee tier used when none is given: 0.3%, in millionths.
pub const DEFAULT_FEE: u32 = 3000;

/// The chain whose transactions go through the private relay.
pub const PRIMARY_CHAIN_ID: u64 = 1;

/// The least output accepted for a quoted output: the quote less the
/// slippage tolerance, rounded down.
pub open spec fn min_output(quoted: int) -> int {
    quoted * (100 - SLIPPAGE_PERCENT) / 100
}

/// The least output accepted for a quoted output.
pub fn apply_slippage(quoted: u128) -> (r: u128)
    ensures
        r as int == min_output(quoted as int),
{
    let keep: u128 = 100 - SLIPPAGE_PERCENT;
    let q = quoted / 100;
    let rem = quoted % 100;
    proof {
        let qi = q as int;
        let ri = rem as int;
        assert(quoted as int == qi * 100 + ri);
        assert((qi * 100 + ri) * 80 == (qi * 80) * 100 + ri * 80) by (nonlinear_arith);
        vstd::arithmetic::div_mod::lemma_hoist_over_denominator(ri * 80, qi * 80, 100);
        assert(q * 80 <= quoted) by (nonlinear_arith)
            requires
                quoted as int == qi * 100 + ri,
                ri >= 0,
                qi == q,
                qi >= 0,
        ;
    }
    q * keep + rem * keep / 100
}

/// The output that a pair-shape quote gives: the last amount along the path.
pub fn quoted_output(amounts: &Vec<u128>) -> (r: Result<u128, SendableError>)
    ensures
        amounts@.len() > 0 ==> r == Ok::<u128, SendableError>(amounts@.last()),
        amounts@.len() == 0 ==> r is Err,
{
    if amounts.len() == 0 {
        Err(SendableError::from_message("Failed to get output amount"))
    } else {
        Ok(amounts[amounts.len() - 1])
    }
}

/// The fee tier to trade at.
pub fn fee_tier(fee: Option<u32>) -> (r: u32)
    ensures
        r == match fee {
            Some(f) => f,
            None => DEFAULT_FEE,
        },
{
    match fee {
        Some(f) => f,
        None => DEFAULT_FEE,
    }
}

/// How a transaction reaches the chain.
#[derive(Clone, Copy, Debug, PartialEq, Eq, Structural)]
pub enum SubmissionRoute {
    /// Through a private relay, out of sight of the public pending pool.
    PrivateRelay,
    /// Through the public pending pool.
    Public,
}

/// Transactions on the primary chain go through the private relay; all
/// others are broadcast publicly.
pub fn submission_route(chain_id: u64) -> (r: SubmissionRoute)
    ensures
        r == (if chain_id == PRIMARY_CHAIN_ID {
            SubmissionRoute::PrivateRelay
        } else {
            SubmissionRoute::Public
        }),
{
    if chain_id == PRIMARY_CHAIN_ID {
        SubmissionRoute::PrivateRelay
    } else {
        SubmissionRoute::Public
    }
}

/// The deadline of a pair-shape swap made at Unix time `now`.
pub open spec fn deadline_after(now: int) -> int {
    if now < 0 {
        DEADLINE_WINDOW as int
    } else {
        now + DEADLINE_WINDOW
    }
}

/// The deadline of a pair-shape swap made at Unix time `now`.
pub fn swap_deadline(now: i64) -> (r: u64)
    ensures
        r as int == deadline_after(now as int),
{
    if now < 0 {
        DEADLINE_WINDOW
    } else {
        now as u64 + DEADLINE_WINDOW
    }
}

/// The deadline of a pair-shape swap made now.
pub fn deadline_from_now() -> (r: u64)
    ensures
        exists|now: int| r as int == deadline_after(now),
{
    let now: i64 = match seconds_since_epoch() {
        Some(secs) => if secs <= i64::MAX as u64 {
            secs as i64
        } else {
            i64::MAX
        },
        None => -1,
    };
    swap_deadline(now)
}

/// The contract call that a swap makes on the router.
#[derive(Clone, Debug)]
pub enum SwapCall {
    /// Pair shape: spend the sent native value for tokens along `path`.
    SwapExactEthForTokens { amount_out_min: u128, path: Vec<Address>, to: Address, deadline: u64 },
    /// Pair shape: spend `amount_in` tokens for native value along `path`.
    SwapExactTokensForEth {
        amount_in: u128,
        amount_out_min: u128,
        path: Vec<Address>,
        to: Address,
        deadline: u64,
    },
    /// Concentrated-liquidity shape: one hop at one fee tier, with no price limit.
    ExactInputSingle {
        token_in: Address,
        token_out: Address,
        fee: u32,
        recipient: Address,
        amount_in: u128,
        amount_out_minimum: u128,
        sqrt_price_limit_x96: u128,
    },
}

/// An unsigned swap transaction and the route it takes.
#[derive(Clone, Debug)]
pub struct SwapTransaction {
    pub chain_id: u64,
    pub from: Address,
    pub to: Address,
    /// Native value sent along, in wei.
    pub value: Option<u128>,
    pub call: SwapCall,
    pub route: SubmissionRoute,
}

/// The router of an exchange; an error when its configured address is not one.
pub fn router_address(exchange: &ExchangeConfig) -> (r: Result<Address, SendableError>)
    ensures
        match address_of_text(exchange.router_contract_address@) {
            Some(a) => r == Ok::<Address, SendableError>(a),
            None => r is Err,
        },
{
    match parse_address(exchange.router_contract_address.as_str()) {
        Some(a) => Ok(a),
        None => Err(SendableError::from_message("Invalid router contract address")),
    }
}

/// The two-token path of a trade.
pub fn token_path(first: Address, second: Address) -> (r: Vec<Address>)
    ensures
        r@ == seq![first, second],
{
    let mut path: Vec<Address> = Vec::new();
    path.push(first);
    path.push(second);
    assert(path@ =~= seq![first, second]);
    path
}

/// Whether `call` is the swap call of a buy of `target` for `amount_in` wei
/// whose quote gave `quoted_out`: along [wrapped native, target] in the pair
/// shape, or one hop at the fee tier in the concentrated-liquidity shape, to
/// the bot's wallet, accepting no less than the quote less the slippage.
pub open spec fn is_buy_call(
    call: SwapCall,
    is_v3: bool,
    network: NetworkMetadata,
    target: Address,
    amount_in: u128,
    quoted_out: u128,
    fee: u32,
    deadline: u64,
) -> bool {
    match call {
        SwapCall::ExactInputSingle {
            token_in,
            token_out,
            fee: f,
            recipient,
            amount_in: a,
            amount_out_minimum,
            sqrt_price_limit_x96,
        } => is_v3 && token_in == network.wrapped_native_address && token_out == target && f == fee
            && recipient == network.wallet_address && a == amount_in && amount_out_minimum
            == min_output(quoted_out as int) && sqrt_price_limit_x96 == 0,
        SwapCall::SwapExactEthForTokens { amount_out_min, path, to, deadline: d } => !is_v3
            && amount_out_min == min_output(quoted_out as int) && path@ == seq![
            network.wrapped_native_address,
            target,
        ] && to == network.wallet_address && d == deadline,
        SwapCall::SwapExactTokensForEth { .. } => false,
    }
}

/// Plans the buy of `target` for `amount_in` wei, from the router's quote
/// `quoted_out`: the transaction carries `amount_in` as value and takes the
/// route of the network's chain.
pub fn plan_buy(
    exchange: &ExchangeConfig,
    network: &NetworkMetadata,
    target: Address,
    amount_in: u128,
    quoted_out: u128,
    fee: Option<u32>,
    deadline: u64,
) -> (r: Result<SwapTransaction, SendableError>)
    ensures
        match address_of_text(exchange.router_contract_address@) {
            Some(router) => r matches Ok(tx) && tx.chain_id == network.chain_id && tx.from
                == network.wallet_address && tx.to == router && tx.value == Some(amount_in)
                && tx.route == (if network.chain_id == PRIMARY_CHAIN_ID {
                SubmissionRoute::PrivateRelay
            } else {
                SubmissionRoute::Public
            }) && is_buy_call(
                tx.call,
                exchange.base_implementation@ == "UniswapV3"@,
                *network,
                target,
                amount_in,
                quoted_out,
                fee_tier_of(fee),
                deadline,
            ),
            None => r is Err,
        },
{
    let router = match router_address(exchange) {
        Ok(a) => a,
        Err(e) => return Err(e),
    };
    let amount_out_min = apply_slippage(quoted_out);
    let call = if exchange.is_v3() {
        SwapCall::ExactInputSingle {
            token_in: network.wrapped_native_address,
            token_out: target,
            fee: fee_tier(fee),
            recipient: network.wallet_address,
            amount_in,
            amount_out_minimum: amount_out_min,
            sqrt_price_limit_x96: 0,
        }
    } else {
        SwapCall::SwapExactEthForTokens {
            amount_out_min,
            path: token_path(network.wrapped_native_address, target),
            to: network.wallet_address,
            deadline,
        }
    };
    Ok(
        SwapTransaction {
            chain_id: network.chain_id,
            from: network.wallet_address,
            to: router,
            value: Some(amount_in),
            call,
            route: submission_route(network.chain_id),
        },
    )
}

/// The fee tier to trade at.
pub open spec fn fee_tier_of(fee: Option<u32>) -> u32 {
    match fee {
        Some(f) => f,
        None => DEFAULT_FEE,
    }
}

/// Whether `call` is the swap call of a sale of `amount_in` tokens of
/// `target` for at least `amount_out_min` wei: along [target, wrapped native]
/// in the pair shape, or one hop at the fee tier in the concentrated-liquidity
/// shape, to the bot's wallet.
pub open spec fn is_sell_call(
    call: SwapCall,
    is_v3: bool,
    network: NetworkMetadata,
    target: Address,
    amount_in: u128,
    amount_out_min: u128,
    fee: u32,
    deadline: u64,
) -> bool {
    match call {
        SwapCall::ExactInputSingle {
            token_in,
            token_out,
            fee: f,
            recipient,
            amount_in: a,
            amount_out_minimum,
            sqrt_price_limit_x96,
        } => is_v3 && token_in == target && token_out == network.wrapped_native_address && f == fee
            && recipient == network.wallet_address && a == amount_in && amount_out_minimum
            == amount_out_min && sqrt_price_limit_x96 == 0,
        SwapCall::SwapExactTokensForEth { amount_in: a, amount_out_min: m, path, to, deadline: d } =>
            !is_v3 && a == amount_in && m == amount_out_min && path@ == seq![
            target,
            network.wrapped_native_address,
        ] && to == network.wallet_address && d == deadline,
        SwapCall::SwapExactEthForTokens { .. } => false,
    }
}

/// Plans the sale of `amount_in` tokens of `target`: the transaction sends
/// no native value and takes the route of the network's chain.
pub fn plan_sell(
    exchange: &ExchangeConfig,
    network: &NetworkMetadata,
    target: Address,
    amount_in: u128,
    amount_out_min: u128,
    fee: Option<u32>,
    deadline: u64,
) -> (r: Result<SwapTransaction, SendableError>)
    ensures
        match address_of_text(exchange.router_contract_address@) {
            Some(router) => r matches Ok(tx) && tx.chain_id == network.chain_id && tx.from
                == network.wallet_address && tx.to == router && tx.value is None && tx.route == (
            if network.chain_id == PRIMARY_CHAIN_ID {
                SubmissionRoute::PrivateRelay
            } else {
                SubmissionRoute::Public
            }) && is_sell_call(
                tx.call,
                exchange.base_implementation@ == "UniswapV3"@,
                *network,
                target,
                amount_in,
                amount_out_min,
                fee_tier_of(fee),
                deadline,
            ),
            None => r is Err,
        },
{
    let router = match router_address(exchange) {
        Ok(a) => a,
        Err(e) => return Err(e),
    };
    let call = if exchange.is_v3() {
        SwapCall::ExactInputSingle {
            token_in: target,
            token_out: network.wrapped_native_address,
            fee: fee_tier(fee),
            recipient: network.wallet_address,
            amount_in,
            amount_out_minimum: amount_out_min,
            sqrt_price_limit_x96: 0,
        }
    } else {
        SwapCall::SwapExactTokensForEth {
            amount_in,
            amount_out_min,
            path: token_path(target, network.wrapped_native_address),
            to: network.wallet_address,
            deadline,
        }
    };
    Ok(
        SwapTransaction {
            chain_id: network.chain_id,
            from: network.wallet_address,
            to: router,
            value: None,
            call,
            route: submission_route(network.chain_id),
        },
    )
}

/// What a buy's quote asks the router.
#[derive(Clone, Debug)]
pub enum QuoteRequest {
    /// Pair shape: the amounts out along `path` for `amount_in`.
    AmountsOut { amount_in: u128, path: Vec<Address> },
    /// Concentrated-liquidity shape: this single-hop swap, simulated.
    Single(SwapCall),
}

/// The quote of a buy of `target` for `amount_in` wei: along [wrapped
/// native, target] in the pair shape; in the concentrated-liquidity shape,
/// the single-hop swap at the fee tier to the bot's wallet, with no minimum
/// output and no price limit.
pub fn buy_quote_request(
    exchange: &ExchangeConfig,
    network: &NetworkMetadata,
    target: Address,
    amount_in: u128,
    fee: Option<u32>,
) -> (r: QuoteRequest)
    ensures
        exchange.base_implementation@ == "UniswapV3"@ ==> r == QuoteRequest::Single(
            SwapCall::ExactInputSingle {
                token_in: network.wrapped_native_address,
                token_out: target,
                fee: fee_tier_of(fee),
                recipient: network.wallet_address,
                amount_in,
                amount_out_minimum: 0,
                sqrt_price_limit_x96: 0,
            },
        ),
        exchange.base_implementation@ != "UniswapV3"@ ==> (r matches QuoteRequest::AmountsOut {
            amount_in: a,
            path,
        } && a == amount_in && path@ == seq![network.wrapped_native_address, target]),
{
    if exchange.is_v3() {
        QuoteRequest::Single(
            SwapCall::ExactInputSingle {
                token_in: network.wrapped_native_address,
                token_out: target,
                fee: fee_tier(fee),
                recipient: network.wallet_address,
                amount_in,
                amount_out_minimum: 0,
                sqrt_price_limit_x96: 0,
            },
        )
    } else {
        QuoteRequest::AmountsOut {
            amount_in,
            path: token_path(network.wrapped_native_address, target),
        }
    }
}

} // verus!
