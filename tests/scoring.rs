use sniper_bot::score_calculator::{
    apply_high_risk_checks, apply_low_risk_checks, apply_risky_checks, calculate_security_score,
    FULL_SCORE,
};
use sniper_bot::token_api_response_models::{DexInfo, HolderInfo, TokenSecurityDetails};

fn blank() -> TokenSecurityDetails {
    TokenSecurityDetails {
        anti_whale_modifiable: None,
        buy_tax: None,
        can_take_back_ownership: None,
        cannot_buy: None,
        cannot_sell_all: None,
        creator_address: None,
        creator_balance: None,
        creator_percent: None,
        dex: None,
        external_call: None,
        hidden_owner: None,
        holder_count: None,
        holders: None,
        is_anti_whale: None,
        is_blacklisted: None,
        is_honeypot: None,
        is_in_dex: None,
        honeypot_with_same_creator: None,
        is_mintable: None,
        is_open_source: None,
        is_proxy: None,
        is_whitelisted: None,
        lp_holder_count: None,
        owner_address: None,
        owner_balance: None,
        owner_change_balance: None,
        owner_percent: None,
        personal_slippage_modifiable: None,
        selfdestruct: None,
        sell_tax: None,
        slippage_modifiable: None,
        token_name: None,
        token_symbol: None,
        total_supply: None,
        trading_cooldown: None,
        transfer_pausable: None,
    }
}

fn s(v: &str) -> Option<String> {
    Some(v.to_string())
}

fn dex(name: &str, liquidity: &str) -> DexInfo {
    DexInfo { liquidity_type: None, name: s(name), liquidity: s(liquidity), pair: None }
}

/// A token with every fact known and clean, listed once with 50000 of liquidity.
fn clean() -> TokenSecurityDetails {
    let mut t = blank();
    t.is_in_dex = s("1");
    t.cannot_buy = s("0");
    t.cannot_sell_all = s("0");
    t.is_honeypot = s("0");
    t.honeypot_with_same_creator = s("0");
    t.selfdestruct = s("0");
    t.hidden_owner = s("0");
    t.owner_change_balance = s("0");
    t.is_proxy = s("0");
    t.is_mintable = s("0");
    t.dex = Some(vec![dex("UniswapV2", "50000")]);
    t.buy_tax = s("0");
    t.sell_tax = s("0");
    t.is_anti_whale = s("0");
    t.slippage_modifiable = s("0");
    t.owner_percent = s("0");
    t.is_blacklisted = s("0");
    t.transfer_pausable = s("0");
    t.trading_cooldown = s("0");
    t.is_open_source = s("1");
    t.external_call = s("0");
    t.personal_slippage_modifiable = s("0");
    t.holder_count = s("1000");
    t.is_whitelisted = s("0");
    t.anti_whale_modifiable = s("0");
    t
}

const P: i64 = 1_000_000;

#[test]
fn clean_token_scores_full() {
    let t = clean();
    assert_eq!(apply_high_risk_checks(&t), 100 * P);
    assert_eq!(apply_risky_checks(&t), 100 * P);
    assert_eq!(apply_low_risk_checks(&t), 100 * P);
    assert_eq!(calculate_security_score(&t), 100 * P);
}

#[test]
fn weighted_mean_gives_eighty_five() {
    let mut t = clean();
    t.buy_tax = s("0.1");
    t.sell_tax = s("0.1");
    t.is_blacklisted = s("1");
    t.transfer_pausable = s("1");
    assert_eq!(apply_risky_checks(&t), 55 * P);
    assert_eq!(calculate_security_score(&t), 85 * P);
}

#[test]
fn each_disqualifying_flag_scores_zero() {
    let setters: Vec<fn(&mut TokenSecurityDetails)> = vec![
        |t| t.is_honeypot = Some("1".to_string()),
        |t| t.cannot_buy = Some("1".to_string()),
        |t| t.cannot_sell_all = Some("1".to_string()),
        |t| t.selfdestruct = Some("1".to_string()),
        |t| t.hidden_owner = Some("1".to_string()),
        |t| t.owner_change_balance = Some("1".to_string()),
        |t| t.honeypot_with_same_creator = Some("1".to_string()),
        |t| t.is_in_dex = Some("0".to_string()),
        |t| t.is_in_dex = None,
        |t| t.dex = Some(vec![]),
        |t| t.dex = None,
        |t| {
            t.dex = Some(vec![
                DexInfo { liquidity_type: None, name: None, liquidity: Some("10".to_string()), pair: None },
                DexInfo { liquidity_type: None, name: None, liquidity: Some("10".to_string()), pair: None },
            ])
        },
        |t| t.dex = Some(vec![DexInfo { liquidity_type: None, name: None, liquidity: Some("0".to_string()), pair: None }]),
        |t| t.dex = Some(vec![DexInfo { liquidity_type: None, name: None, liquidity: None, pair: None }]),
    ];
    for set in setters {
        let mut t = clean();
        set(&mut t);
        assert_eq!(apply_high_risk_checks(&t), 0);
        assert_eq!(calculate_security_score(&t), 0);
    }
}

#[test]
fn unknown_high_risk_facts_cost_thirty_each() {
    let mut t = clean();
    t.cannot_buy = None;
    t.is_honeypot = None;
    assert_eq!(apply_high_risk_checks(&t), 40 * P);
    t.cannot_sell_all = None;
    assert_eq!(apply_high_risk_checks(&t), 10 * P);
    t.is_proxy = s("1");
    assert_eq!(apply_high_risk_checks(&t), 0);
    assert_eq!(calculate_security_score(&t), 0);
}

#[test]
fn proxy_and_mintable_halve_high_risk_each() {
    let mut t = clean();
    t.is_proxy = s("1");
    assert_eq!(apply_high_risk_checks(&t), 50 * P);
    // low risk: proxy costs 5 more
    assert_eq!(apply_low_risk_checks(&t), 95 * P);
    t.is_mintable = s("1");
    assert_eq!(apply_high_risk_checks(&t), 0);
}

#[test]
fn low_liquidity_and_owner_share_penalties() {
    let mut t = clean();
    t.dex = Some(vec![dex("UniswapV2", "15000.5")]);
    t.owner_percent = s("30");
    // 100 - 20 - 15
    assert_eq!(apply_risky_checks(&t), 65 * P);
    t.owner_percent = s("60");
    assert_eq!(apply_risky_checks(&t), 50 * P);
}

#[test]
fn unknown_moderate_facts_cost_five_each() {
    let mut t = clean();
    t.dex = None;
    t.is_anti_whale = None;
    t.slippage_modifiable = None;
    t.is_blacklisted = None;
    t.transfer_pausable = None;
    t.trading_cooldown = None;
    assert_eq!(apply_risky_checks(&t), 70 * P);
}

#[test]
fn low_risk_penalties() {
    let mut t = clean();
    t.is_open_source = s("0");
    t.holder_count = s("9");
    t.holders = Some(vec![
        HolderInfo { address: None, tag: None, is_contract: None, balance: None, percent: s("0.2"), is_locked: None },
        HolderInfo { address: None, tag: None, is_contract: None, balance: None, percent: s("50.5"), is_locked: None },
        HolderInfo { address: None, tag: None, is_contract: None, balance: None, percent: s("junk"), is_locked: None },
    ]);
    assert_eq!(apply_low_risk_checks(&t), 85 * P);
    let mut u = clean();
    u.is_proxy = None;
    u.is_open_source = None;
    u.external_call = None;
    u.personal_slippage_modifiable = None;
    u.holder_count = None;
    u.is_whitelisted = None;
    u.anti_whale_modifiable = None;
    assert_eq!(apply_low_risk_checks(&u), 86 * P);
}

#[test]
fn score_stays_within_bounds_over_many_combinations() {
    let flags = [None, s("0"), s("1"), s("x")];
    let numbers = [None, s("0"), s("0.5"), s("-3"), s("99999999999999999999999"), s("1e5")];
    let mut seed: u64 = 12345;
    for _ in 0..2000 {
        let mut next = |n: usize| {
            seed = seed.wrapping_mul(6364136223846793005).wrapping_add(1442695040888963407);
            ((seed >> 33) as usize) % n
        };
        let mut t = clean();
        t.is_proxy = flags[next(4)].clone();
        t.is_mintable = flags[next(4)].clone();
        t.cannot_buy = flags[next(4)].clone();
        t.is_honeypot = flags[next(4)].clone();
        t.is_anti_whale = flags[next(4)].clone();
        t.is_blacklisted = flags[next(4)].clone();
        t.is_open_source = flags[next(4)].clone();
        t.buy_tax = numbers[next(6)].clone();
        t.sell_tax = numbers[next(6)].clone();
        t.owner_percent = numbers[next(6)].clone();
        t.holder_count = numbers[next(6)].clone();
        t.dex = Some(vec![dex("UniswapV2", ["1", "25000", "-7", "3.5"][next(4)])]);
        let score = calculate_security_score(&t);
        assert!(0 <= score && score <= FULL_SCORE);
    }
}
