use sniper_bot::address::{parse_address, Address};
use sniper_bot::config_models::{ExchangeConfig, NetworkMetadata};
use sniper_bot::trading::{
    buy_quote_request, QuoteRequest, apply_slippage, fee_tier, plan_buy, plan_sell, quoted_output, submission_route, swap_deadline,
    deadline_from_now, SubmissionRoute, SwapCall,
};

fn network(chain_id: u64) -> NetworkMetadata {
    NetworkMetadata {
        name: "Mainnet".to_string(),
        symbol: "ETH".to_string(),
        chain_id,
        native_coin_coingecko_id: "ethereum".to_string(),
        rpc_url: "http://localhost:8545".to_string(),
        ws_url: "ws://localhost:8546".to_string(),
        wallet_address: Address::new(1, 2),
        wrapped_native_address: Address::new(3, 4),
    }
}

fn exchange(implementation: &str, router: &str) -> ExchangeConfig {
    ExchangeConfig {
        name: "Uniswap".to_string(),
        base_implementation: implementation.to_string(),
        factory_contract_address: String::new(),
        router_contract_address: router.to_string(),
    }
}

const ROUTER: &str = "0x00000000000000000000000000000000000000ff";

#[test]
fn slippage_keeps_eighty_percent() {
    assert_eq!(apply_slippage(1000), 800);
    assert_eq!(apply_slippage(999), 799);
    assert_eq!(apply_slippage(0), 0);
    assert_eq!(apply_slippage(u128::MAX), u128::MAX / 100 * 80 + (u128::MAX % 100) * 80 / 100);
}

#[test]
fn primary_chain_uses_private_relay() {
    assert_eq!(submission_route(1), SubmissionRoute::PrivateRelay);
    assert_eq!(submission_route(56), SubmissionRoute::Public);
}

#[test]
fn fee_tier_defaults_to_three_thousand() {
    assert_eq!(fee_tier(None), 3000);
    assert_eq!(fee_tier(Some(500)), 500);
}

#[test]
fn quote_takes_last_amount() {
    assert_eq!(quoted_output(&vec![10, 20, 30]).ok(), Some(30));
    assert!(quoted_output(&vec![]).is_err());
}

#[test]
fn deadlines_are_fifteen_minutes_out() {
    assert_eq!(swap_deadline(1_000), 1_900);
    assert_eq!(swap_deadline(-5), 900);
    assert!(deadline_from_now() > 1_600_000_000);
}

#[test]
fn concentrated_buy_on_primary_chain() {
    let tx = plan_buy(&exchange("UniswapV3", ROUTER), &network(1), Address::new(7, 7), 5000, 2000, None, 0)
        .ok()
        .unwrap();
    assert_eq!(tx.route, SubmissionRoute::PrivateRelay);
    assert_eq!(tx.value, Some(5000));
    assert_eq!(tx.chain_id, 1);
    assert_eq!(tx.from, Address::new(1, 2));
    assert_eq!(tx.to, Address::new(0, 0xff));
    match tx.call {
        SwapCall::ExactInputSingle { token_in, token_out, fee, recipient, amount_in, amount_out_minimum, sqrt_price_limit_x96 } => {
            assert_eq!(token_in, Address::new(3, 4));
            assert_eq!(token_out, Address::new(7, 7));
            assert_eq!(fee, 3000);
            assert_eq!(recipient, Address::new(1, 2));
            assert_eq!(amount_in, 5000);
            assert_eq!(amount_out_minimum, 1600);
            assert_eq!(sqrt_price_limit_x96, 0);
        }
        _ => panic!("single-hop call expected"),
    }
}

#[test]
fn pair_sell_sends_no_value() {
    let tx = plan_sell(&exchange("UniswapV2", ROUTER), &network(56), Address::new(7, 7), 900, 44, Some(500), 1234)
        .ok()
        .unwrap();
    assert_eq!(tx.value, None);
    assert_eq!(tx.route, SubmissionRoute::Public);
    match tx.call {
        SwapCall::SwapExactTokensForEth { amount_in, amount_out_min, path, to, deadline } => {
            assert_eq!(amount_in, 900);
            assert_eq!(amount_out_min, 44);
            assert_eq!(path, vec![Address::new(7, 7), Address::new(3, 4)]);
            assert_eq!(to, Address::new(1, 2));
            assert_eq!(deadline, 1234);
        }
        _ => panic!("pair-shape call expected"),
    }
}

#[test]
fn concentrated_sell_at_given_fee() {
    let tx = plan_sell(&exchange("UniswapV3", ROUTER), &network(1), Address::new(7, 7), 900, 44, Some(500), 0)
        .ok()
        .unwrap();
    match tx.call {
        SwapCall::ExactInputSingle { token_in, token_out, fee, amount_out_minimum, .. } => {
            assert_eq!(token_in, Address::new(7, 7));
            assert_eq!(token_out, Address::new(3, 4));
            assert_eq!(fee, 500);
            assert_eq!(amount_out_minimum, 44);
        }
        _ => panic!("single-hop call expected"),
    }
}

#[test]
fn bad_router_address_is_an_error() {
    assert!(plan_buy(&exchange("UniswapV2", "0x12"), &network(1), Address::new(7, 7), 1, 1, None, 0).is_err());
    assert!(plan_sell(&exchange("UniswapV2", "router"), &network(1), Address::new(7, 7), 1, 1, None, 0).is_err());
}

#[test]
fn addresses_parse_as_forty_hex_digits() {
    assert_eq!(
        parse_address("0x7a250d5630B4cF539739dF2C5dAcb4c659F2488D"),
        Some(Address::new(0x7a250d5630B4cF539739dF2C5dAcb4c6, 0x59F2488D))
    );
    assert_eq!(
        parse_address("ffffffffffffffffffffffffffffffffffffffff"),
        Some(Address::new(u128::MAX, u32::MAX))
    );
    assert_eq!(parse_address("0X7a250d5630B4cF539739dF2C5dAcb4c659F2488D"), None);
    assert_eq!(parse_address("0x7a250d5630B4cF539739dF2C5dAcb4c659F2488"), None);
    assert_eq!(parse_address("0x7a250d5630B4cF539739dF2C5dAcb4c659F2488D0"), None);
    assert_eq!(parse_address("0x7a250d5630B4cF539739dF2C5dAcb4c659F2488G"), None);
    assert_eq!(parse_address(""), None);
}

#[test]
fn buy_quotes_follow_the_market_shape() {
    match buy_quote_request(&exchange("UniswapV2", ROUTER), &network(56), Address::new(7, 7), 1000, None) {
        QuoteRequest::AmountsOut { amount_in, path } => {
            assert_eq!(amount_in, 1000);
            assert_eq!(path, vec![Address::new(3, 4), Address::new(7, 7)]);
        }
        QuoteRequest::Single(_) => panic!("pair-shape quote expected"),
    }
    match buy_quote_request(&exchange("UniswapV3", ROUTER), &network(56), Address::new(7, 7), 1000, Some(10000)) {
        QuoteRequest::Single(SwapCall::ExactInputSingle { token_in, token_out, fee, amount_in, amount_out_minimum, .. }) => {
            assert_eq!(token_in, Address::new(3, 4));
            assert_eq!(token_out, Address::new(7, 7));
            assert_eq!(fee, 10000);
            assert_eq!(amount_in, 1000);
            assert_eq!(amount_out_minimum, 0);
        }
        _ => panic!("single-hop quote expected"),
    }
}
