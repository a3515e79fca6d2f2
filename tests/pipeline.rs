use sniper_bot::address::{parse_address, Address};
use sniper_bot::amount_in_calculator::{calculate_amount_in, needs_market_data};
use sniper_bot::config_models::{AmmVersion, Config, ExchangeConfig, NetworkConfig, NetworkMetadata};
use sniper_bot::processor::{decide, select_target, PairDecision};
use sniper_bot::security_checker::{
    complete_assessment, plan_assessment, AssessmentEngine, AssessmentPlan, EngineStep,
    TokenAssessment,
};
use sniper_bot::token_api_response_models::{DexInfo, TokenSecurityDetails, TokenSecurityResponse};
use sniper_bot::trading::{plan_buy, SubmissionRoute, SwapCall};

const P: i64 = 1_000_000;
const WEI: u128 = 1_000_000_000_000_000_000;

fn wrapped() -> Address {
    Address::new(0xAAAA_0000_0000_0000_0000_0000_0000_0001, 0x1111)
}

fn target() -> Address {
    Address::new(0x7777_0000_0000_0000_0000_0000_0000_0002, 0x2222)
}

fn other() -> Address {
    Address::new(0x5555, 0x3333)
}

fn network(chain_id: u64) -> NetworkMetadata {
    NetworkMetadata {
        name: "Sepolia".to_string(),
        symbol: "ETH".to_string(),
        chain_id,
        native_coin_coingecko_id: "ethereum".to_string(),
        rpc_url: "http://localhost:8545".to_string(),
        ws_url: "ws://localhost:8546".to_string(),
        wallet_address: Address::new(9, 9),
        wrapped_native_address: wrapped(),
    }
}

fn exchange(implementation: &str) -> ExchangeConfig {
    ExchangeConfig {
        name: "UniswapV2".to_string(),
        base_implementation: implementation.to_string(),
        factory_contract_address: "0x5C69bEe701ef814a2B6a3EDD4B1652CB9cc5aA6f".to_string(),
        router_contract_address: "0x7a250d5630B4cF539739dF2C5dAcb4c659F2488D".to_string(),
    }
}

fn s(v: &str) -> Option<String> {
    Some(v.to_string())
}

fn details_scoring_85(liquidity: &str) -> TokenSecurityDetails {
    TokenSecurityDetails {
        anti_whale_modifiable: s("0"),
        buy_tax: s("0.1"),
        can_take_back_ownership: None,
        cannot_buy: s("0"),
        cannot_sell_all: s("0"),
        creator_address: None,
        creator_balance: None,
        creator_percent: None,
        dex: Some(vec![DexInfo {
            liquidity_type: None,
            name: s("UniswapV2"),
            liquidity: s(liquidity),
            pair: None,
        }]),
        external_call: s("0"),
        hidden_owner: s("0"),
        holder_count: s("1000"),
        holders: None,
        is_anti_whale: s("0"),
        is_blacklisted: s("1"),
        is_honeypot: s("0"),
        is_in_dex: s("1"),
        honeypot_with_same_creator: s("0"),
        is_mintable: s("0"),
        is_open_source: s("1"),
        is_proxy: s("0"),
        is_whitelisted: s("0"),
        lp_holder_count: None,
        owner_address: None,
        owner_balance: None,
        owner_change_balance: s("0"),
        owner_percent: s("0"),
        personal_slippage_modifiable: s("0"),
        selfdestruct: s("0"),
        sell_tax: s("0.1"),
        slippage_modifiable: s("0"),
        token_name: None,
        token_symbol: None,
        total_supply: None,
        trading_cooldown: s("0"),
        transfer_pausable: s("1"),
    }
}

#[test]
fn wrapped_first_selects_second_token() {
    assert_eq!(select_target(wrapped(), target(), wrapped()), Some(target()));
    assert_eq!(select_target(target(), wrapped(), wrapped()), Some(target()));
}

#[test]
fn pair_without_wrapped_native_is_rejected() {
    assert_eq!(select_target(other(), target(), wrapped()), None);
    assert_eq!(select_target(wrapped(), wrapped(), wrapped()), None);
}

#[test]
fn end_to_end_buy_is_sized_and_planned() {
    let token = select_target(wrapped(), target(), wrapped()).unwrap();
    let details = details_scoring_85("50000");
    let plan = plan_assessment(&details, &"UniswapV2".to_string());
    let (confidence, liquidity) = match plan {
        AssessmentPlan::NeedsMarket { confidence, liquidity } => (confidence, liquidity),
        AssessmentPlan::Complete(_) => panic!("market data expected"),
    };
    assert_eq!(confidence, 85 * P);
    assert_eq!(liquidity, 50000 * P);
    let assessment = complete_assessment(confidence, liquidity, 3000 * P as u64, WEI);
    // min(50000 / 3000 * 0.01 * 0.85, 0.5, 1.0) native units
    assert_eq!(assessment.recommended_trade_amount, 141_666_666_666_666_666);
    let (mut engine, first) = AssessmentEngine::new();
    assert!(matches!(first, EngineStep::Fetch));
    let accepted = match engine.on_outcome(Ok(assessment)) {
        EngineStep::Finish(Ok(a)) => a,
        _ => panic!("accepted assessment expected"),
    };
    let amount = match decide(&accepted) {
        PairDecision::Buy { amount_wei } => amount_wei,
        PairDecision::Cancel => panic!("buy expected"),
    };
    let tx = plan_buy(&exchange("UniswapV2"), &network(11155111), token, amount, 1_000_000, None, 1_700_000_900)
        .ok()
        .unwrap();
    assert_eq!(tx.value, Some(141_666_666_666_666_666));
    assert_eq!(tx.route, SubmissionRoute::Public);
    assert_eq!(tx.to, parse_address("0x7a250d5630B4cF539739dF2C5dAcb4c659F2488D").unwrap());
    match tx.call {
        SwapCall::SwapExactEthForTokens { amount_out_min, path, to, deadline } => {
            assert_eq!(path, vec![wrapped(), target()]);
            assert_eq!(amount_out_min, 800_000);
            assert_eq!(to, Address::new(9, 9));
            assert_eq!(deadline, 1_700_000_900);
        }
        _ => panic!("pair-shape buy expected"),
    }
}

#[test]
fn listing_on_another_exchange_is_rejected() {
    let details = details_scoring_85("50000");
    match plan_assessment(&details, &"SushiSwap".to_string()) {
        AssessmentPlan::Complete(a) => {
            assert_eq!(a, TokenAssessment { confidence_score: 0, recommended_trade_amount: 0 })
        }
        AssessmentPlan::NeedsMarket { .. } => panic!("rejection expected"),
    }
}

#[test]
fn low_liquidity_completes_without_market_data() {
    let details = details_scoring_85("500");
    match plan_assessment(&details, &"UniswapV2".to_string()) {
        AssessmentPlan::Complete(a) => {
            // under 20000 of liquidity the moderate sub-score drops to 30: (500 + 90 + 100) / 9
            assert_eq!(a, TokenAssessment { confidence_score: 76_666_666, recommended_trade_amount: 0 })
        }
        AssessmentPlan::NeedsMarket { .. } => panic!("no market data expected"),
    }
}

#[test]
fn low_confidence_is_canceled() {
    let a = TokenAssessment { confidence_score: 69_999_999, recommended_trade_amount: 5 };
    assert_eq!(decide(&a), PairDecision::Cancel);
}

#[test]
fn sizing_thresholds() {
    assert!(!needs_market_data(80 * P, 999 * P));
    assert!(!needs_market_data(49 * P, 5000 * P));
    assert!(needs_market_data(50 * P, 1000 * P));
    assert_eq!(calculate_amount_in(80 * P, 999 * P, 0, 0), 0);
    // balance under 0.1 native unit: no trade, whatever the price
    assert_eq!(calculate_amount_in(80 * P, 5000 * P, 2000 * P as u64, WEI / 10 - 1), 0);
    assert_eq!(calculate_amount_in(60 * P, 2000 * P, 0, 0), 0);
    assert_eq!(calculate_amount_in(60 * P, 2000 * P, 0, WEI / 10 - 1), 0);
}

#[test]
fn sizing_is_monotonic_and_capped() {
    let liquidity = 2_000_000 * P;
    let price = 2000 * P as u64;
    let balance = 3 * WEI;
    let mut last = 0;
    for points in 0..=100 {
        let size = calculate_amount_in(points * P, liquidity, price, balance);
        assert!(size >= last);
        assert!(size <= balance / 2);
        assert!(size <= balance);
        last = size;
    }
    // wallet cap is the tightest here: the impact cap at 100 points is 10 units
    assert_eq!(last, balance / 2);
    // the impact cap is the tightest here: 40000 / 2000 * 0.01 * 0.6 = 0.12
    assert_eq!(calculate_amount_in(60 * P, 40000 * P, price, balance), 120_000_000_000_000_000);
}

#[test]
fn zero_price_leaves_the_wallet_caps() {
    // no usable price-impact cap: half the balance
    assert_eq!(calculate_amount_in(60 * P, 2000 * P, 0, 3 * WEI), 3 * WEI / 2);
    let a = complete_assessment(60 * P, 2000 * P, 0, WEI);
    assert_eq!(a, TokenAssessment { confidence_score: 60 * P, recommended_trade_amount: WEI / 2 });
}

#[test]
fn oracle_response_rejects_repeated_keys() {
    let repeated = TokenSecurityResponse::from_entries(vec![
        ("0xaa".to_string(), details_scoring_85("1")),
        ("0xbb".to_string(), details_scoring_85("2")),
        ("0xaa".to_string(), details_scoring_85("3")),
    ]);
    assert!(repeated.is_none());
    assert!(TokenSecurityResponse::from_entries(vec![]).is_some());
}

#[test]
fn oracle_response_lookup() {
    let response = TokenSecurityResponse::from_entries(vec![
        ("0xaa".to_string(), details_scoring_85("1")),
        ("0xbb".to_string(), details_scoring_85("2")),
    ])
    .unwrap();
    let found = response.details_for(&"0xbb".to_string()).unwrap();
    assert_eq!(found.dex.as_ref().unwrap()[0].liquidity, s("2"));
    assert!(response.details_for(&"0xcc".to_string()).is_none());
}

#[test]
fn barrier_counts_every_listener_and_the_starter() {
    let config = Config {
        networks: vec![
            NetworkConfig { metadata: network(1), exchanges: vec![exchange("UniswapV2"), exchange("UniswapV3")] },
            NetworkConfig { metadata: network(56), exchanges: vec![exchange("UniswapV2")] },
        ],
    };
    assert_eq!(config.barrier_parties(), 4);
    assert_eq!(Config { networks: vec![] }.barrier_parties(), 1);
}

#[test]
fn implementation_tags() {
    assert_eq!(exchange("UniswapV2").amm_version(), Some(AmmVersion::UniswapV2));
    assert_eq!(exchange("UniswapV3").amm_version(), Some(AmmVersion::UniswapV3));
    assert_eq!(exchange("Curve").amm_version(), None);
    assert!(exchange("UniswapV3").is_v3());
    assert!(!exchange("Curve").is_v3());
}
