use vstd::prelude::*;
use crate::formatter::{
    decimal_field_value, i32_field_value, parse_decimal_field, parse_i32_field, UNIT,
};
use crate::token_api_response_models::{HolderInfo, TokenSecurityDetails};

verus! {

/// Weight of the high-risk sub-score in the final score.
pub const HIGH_RISK_COEFF: i64 = 5;

/// Weight of the moderate-risk sub-score in the final score.
pub const RISKY_COEFF: i64 = 3;

/// Weight of the low-risk sub-score in the final score.
pub const LOW_RISK_COEFF: i64 = 1;

/// A full score: 100 points in millionths.
pub const FULL_SCORE: i64 = 100_000_000;

/// `p` points, in millionths.
pub open spec fn points(p: int) -> int {
    p * UNIT as int
}

pub open spec fn clamp_score(v: int) -> int {
    if v < 0 {
        0
    } else if v > points(100) {
        points(100)
    } else {
        v
    }
}

/// Whether a flag field holds exactly the one-character text `c`.
pub open spec fn flag_is(field: Option<String>, c: char) -> bool {
    field matches Some(s) && s@ == seq![c]
}

/// The penalty of a flag: `present` when it is `"1"`, `unknown` when missing.
pub open spec fn flag_penalty(field: Option<String>, present: int, unknown: int) -> int {
    if flag_is(field, '1') {
        present
    } else if field is None {
        unknown
    } else {
        0
    }
}

/// Whether the token has exactly one listing.
pub open spec fn has_single_dex(t: TokenSecurityDetails) -> bool {
    t.dex matches Some(l) && l@.len() == 1
}

/// The liquidity of the token's only listing, in millionths (0 when it has not
/// exactly one listing, or the figure is missing or unreadable).
pub open spec fn single_dex_liquidity(t: TokenSecurityDetails) -> int {
    match t.dex {
        Some(l) => if l@.len() == 1 {
            decimal_field_value(l@[0].liquidity)
        } else {
            0
        },
        None => 0,
    }
}

/// Whether a single fact rules the token out: any of them sets the
/// high-risk sub-score, and so the whole score, to 0.
pub open spec fn hard_disqualified(t: TokenSecurityDetails) -> bool {
    ||| !flag_is(t.is_in_dex, '1')
    ||| flag_is(t.cannot_buy, '1')
    ||| flag_is(t.cannot_sell_all, '1')
    ||| !has_single_dex(t)
    ||| single_dex_liquidity(t) == 0
    ||| flag_is(t.is_honeypot, '1')
    ||| flag_is(t.honeypot_with_same_creator, '1')
    ||| flag_is(t.selfdestruct, '1')
    ||| flag_is(t.hidden_owner, '1')
    ||| flag_is(t.owner_change_balance, '1')
}

/// The high-risk sub-score, in millionths of a point.
pub open spec fn high_risk_score(t: TokenSecurityDetails) -> int {
    if hard_disqualified(t) {
        0
    } else {
        clamp_score(
            points(100) - flag_penalty(t.cannot_buy, 0, points(30)) - flag_penalty(
                t.cannot_sell_all,
                0,
                points(30),
            ) - flag_penalty(t.is_honeypot, 0, points(30)) - flag_penalty(
                t.is_proxy,
                points(50),
                0,
            ) - flag_penalty(t.is_mintable, points(50), 0),
        )
    }
}

/// Penalty (or bonus, when negative) for the first listing's liquidity.
pub open spec fn liquidity_penalty(t: TokenSecurityDetails) -> int {
    match t.dex {
        Some(l) => if l@.len() > 0 {
            if decimal_field_value(l@[0].liquidity) < points(20000) {
                points(20)
            } else {
                -points(5)
            }
        } else {
            points(5)
        },
        None => points(5),
    }
}

/// `v / 2` rounded toward zero.
pub open spec fn half_toward_zero(v: int) -> int {
    if v >= 0 {
        v / 2
    } else {
        -((-v) / 2)
    }
}

/// Penalty for the owner's share of the supply (a percentage, in millionths).
pub open spec fn owner_penalty(owner_percent: int) -> int {
    if owner_percent > points(50) {
        points(30)
    } else {
        half_toward_zero(owner_percent)
    }
}

/// The moderate-risk sub-score, in millionths of a point.
pub open spec fn risky_score(t: TokenSecurityDetails) -> int {
    clamp_score(
        points(100) - liquidity_penalty(t) - decimal_field_value(t.buy_tax) * 100
            - decimal_field_value(t.sell_tax) * 100 - flag_penalty(
            t.is_anti_whale,
            points(10),
            points(5),
        ) - flag_penalty(t.slippage_modifiable, points(15), points(5)) - owner_penalty(
            decimal_field_value(t.owner_percent),
        ) - flag_penalty(t.is_blacklisted, points(20), points(5)) - flag_penalty(
            t.transfer_pausable,
            points(10),
            points(5),
        ) - flag_penalty(t.trading_cooldown, points(10), points(5)),
    )
}

/// The largest holder share among `hs` (a percentage, in millionths), and
/// at least 0; a share that is missing or unreadable counts as 0.
pub open spec fn top_holder_percent(hs: Seq<HolderInfo>) -> int
    decreases hs.len(),
{
    if hs.len() == 0 {
        0
    } else {
        let rest = top_holder_percent(hs.drop_last());
        let p = decimal_field_value(hs.last().percent);
        if p > rest {
            p
        } else {
            rest
        }
    }
}

pub open spec fn holder_count_penalty(t: TokenSecurityDetails) -> int {
    if t.holder_count is Some {
        if i32_field_value(t.holder_count) < 10 {
            points(5)
        } else {
            0
        }
    } else {
        points(2)
    }
}

pub open spec fn top_holder_penalty(t: TokenSecurityDetails) -> int {
    match t.holders {
        Some(hs) => if top_holder_percent(hs@) > points(50) {
            points(5)
        } else {
            0
        },
        None => 0,
    }
}

pub open spec fn open_source_penalty(t: TokenSecurityDetails) -> int {
    if flag_is(t.is_open_source, '0') {
        points(5)
    } else if t.is_open_source is None {
        points(2)
    } else {
        0
    }
}

/// The low-risk sub-score, in millionths of a point.
pub open spec fn low_risk_score(t: TokenSecurityDetails) -> int {
    clamp_score(
        points(100) - flag_penalty(t.is_proxy, points(5), points(2)) - open_source_penalty(t)
            - flag_penalty(t.external_call, points(5), points(2)) - flag_penalty(
            t.personal_slippage_modifiable,
            points(5),
            points(2),
        ) - holder_count_penalty(t) - flag_penalty(t.is_whitelisted, points(5), points(2))
            - flag_penalty(t.anti_whale_modifiable, points(5), points(2)) - top_holder_penalty(t),
    )
}

/// The confidence score of a token, in millionths of a point: 0 when the
/// high-risk sub-score is 0, else the weighted mean of the three sub-scores.
pub open spec fn security_score(t: TokenSecurityDetails) -> int {
    let high = high_risk_score(t) * HIGH_RISK_COEFF;
    if high == 0 {
        0
    } else {
        clamp_score(
            (high + risky_score(t) * RISKY_COEFF + low_risk_score(t) * LOW_RISK_COEFF) / (
            HIGH_RISK_COEFF + RISKY_COEFF + LOW_RISK_COEFF),
        )
    }
}

/// Whether an optional text is exactly the one character `c`.
pub fn flag_equals(field: &Option<String>, c: char) -> (r: bool)
    ensures
        r == flag_is(*field, c),
{
    match field {
        Some(s) => {
            let t = s.as_str();
            if t.unicode_len() == 1 {
                let first = t.get_char(0);
                if first == c {
                    assert(t@ =~= seq![c]);
                    true
                } else {
                    assert(t@[0] != c);
                    false
                }
            } else {
                false
            }
        },
        None => false,
    }
}

fn flag_penalty_of(field: &Option<String>, present: i128, unknown: i128) -> (r: i128)
    ensures
        r == flag_penalty(*field, present as int, unknown as int),
{
    if flag_equals(field, '1') {
        present
    } else if field.is_none() {
        unknown
    } else {
        0
    }
}

fn clamp_points(v: i128) -> (r: i64)
    ensures
        r as int == clamp_score(v as int),
{
    if v < 0 {
        0
    } else if v > FULL_SCORE as i128 {
        FULL_SCORE
    } else {
        v as i64
    }
}

/// The liquidity figure of the token's only listing, in millionths.
pub fn single_listing_liquidity(t: &TokenSecurityDetails) -> (r: i64)
    ensures
        r as int == single_dex_liquidity(*t),
{
    match &t.dex {
        Some(dex_list) => if dex_list.len() == 1 {
            parse_decimal_field(&dex_list[0].liquidity)
        } else {
            0
        },
        None => 0,
    }
}

/// The high-risk sub-score: 0 when a single fact rules the token out, else
/// 100 points less 30 for each unknown buy, sell-all or honeypot fact and 50
/// for each of proxy and mintable, not below 0.
pub fn apply_high_risk_checks(t: &TokenSecurityDetails) -> (r: i64)
    ensures
        r as int == high_risk_score(*t),
        0 <= r <= FULL_SCORE,
{
    let p: i128 = UNIT as i128;
    if !flag_equals(&t.is_in_dex, '1') || flag_equals(&t.cannot_buy, '1') || flag_equals(
        &t.cannot_sell_all,
        '1',
    ) {
        return 0;
    }
    let single = match &t.dex {
        Some(dex_list) => dex_list.len() == 1,
        None => false,
    };
    if !single || single_listing_liquidity(t) == 0 {
        return 0;
    }
    if flag_equals(&t.is_honeypot, '1') || flag_equals(&t.honeypot_with_same_creator, '1')
        || flag_equals(&t.selfdestruct, '1') || flag_equals(&t.hidden_owner, '1') || flag_equals(
        &t.owner_change_balance,
        '1',
    ) {
        return 0;
    }
    let mut score: i128 = 100 * p;
    score = score - flag_penalty_of(&t.cannot_buy, 0, 30 * p);
    score = score - flag_penalty_of(&t.cannot_sell_all, 0, 30 * p);
    score = score - flag_penalty_of(&t.is_honeypot, 0, 30 * p);
    score = score - flag_penalty_of(&t.is_proxy, 50 * p, 0);
    score = score - flag_penalty_of(&t.is_mintable, 50 * p, 0);
    clamp_points(score)
}

fn liquidity_penalty_of(t: &TokenSecurityDetails) -> (r: i128)
    ensures
        r == liquidity_penalty(*t),
{
    let p: i128 = UNIT as i128;
    match &t.dex {
        Some(dex_list) => if dex_list.len() > 0 {
            let liquidity = parse_decimal_field(&dex_list[0].liquidity);
            if (liquidity as i128) < 20000 * p {
                20 * p
            } else {
                -5 * p
            }
        } else {
            5 * p
        },
        None => 5 * p,
    }
}

fn owner_penalty_of(owner_percent: i64) -> (r: i128)
    ensures
        r == owner_penalty(owner_percent as int),
        -0x4000_0000_0000_0000 <= r <= 0x4000_0000_0000_0000,
{
    let p: i128 = UNIT as i128;
    let v = owner_percent as i128;
    if v > 50 * p {
        30 * p
    } else if v >= 0 {
        v / 2
    } else {
        0 - (0 - v) / 2
    }
}

/// The moderate-risk sub-score: 100 points less the penalties for low
/// liquidity (or a 5-point bonus), buy and sell tax (the tax fraction times
/// 100 points), anti-whale, modifiable slippage, owner share, blacklist,
/// pausable transfers and trading cooldown, kept within [0, 100] points.
pub fn apply_risky_checks(t: &TokenSecurityDetails) -> (r: i64)
    ensures
        r as int == risky_score(*t),
        0 <= r <= FULL_SCORE,
{
    let p: i128 = UNIT as i128;
    let mut score: i128 = 100 * p;
    score = score - liquidity_penalty_of(t);
    let buy_tax = parse_decimal_field(&t.buy_tax);
    score = score - (buy_tax as i128) * 100;
    let sell_tax = parse_decimal_field(&t.sell_tax);
    score = score - (sell_tax as i128) * 100;
    score = score - flag_penalty_of(&t.is_anti_whale, 10 * p, 5 * p);
    score = score - flag_penalty_of(&t.slippage_modifiable, 15 * p, 5 * p);
    let owner_percent = parse_decimal_field(&t.owner_percent);
    score = score - owner_penalty_of(owner_percent);
    score = score - flag_penalty_of(&t.is_blacklisted, 20 * p, 5 * p);
    score = score - flag_penalty_of(&t.transfer_pausable, 10 * p, 5 * p);
    score = score - flag_penalty_of(&t.trading_cooldown, 10 * p, 5 * p);
    clamp_points(score)
}

/// The largest holder share, at least 0.
pub fn top_holder_share(holders: &Vec<HolderInfo>) -> (r: i64)
    ensures
        r as int == top_holder_percent(holders@),
{
    let mut top: i64 = 0;
    let mut i: usize = 0;
    while i < holders.len()
        invariant
            i <= holders@.len(),
            top as int == top_holder_percent(holders@.subrange(0, i as int)),
        decreases holders@.len() - i,
    {
        let share = parse_decimal_field(&holders[i].percent);
        proof {
            assert(holders@.subrange(0, i + 1).drop_last() =~= holders@.subrange(0, i as int));
        }
        if share > top {
            top = share;
        }
        i = i + 1;
    }
    assert(holders@.subrange(0, holders@.len() as int) =~= holders@);
    top
}

/// The low-risk sub-score: 100 points less 5 for each risky fact (2 when
/// unknown) among proxy, closed source, external calls, modifiable personal
/// slippage, fewer than 10 holders, whitelist and modifiable anti-whale, and
/// 5 when one holder has more than half of the supply.
pub fn apply_low_risk_checks(t: &TokenSecurityDetails) -> (r: i64)
    ensures
        r as int == low_risk_score(*t),
        0 <= r <= FULL_SCORE,
{
    let p: i128 = UNIT as i128;
    let mut score: i128 = 100 * p;
    score = score - flag_penalty_of(&t.is_proxy, 5 * p, 2 * p);
    if flag_equals(&t.is_open_source, '0') {
        score = score - 5 * p;
    } else if t.is_open_source.is_none() {
        score = score - 2 * p;
    }
    score = score - flag_penalty_of(&t.external_call, 5 * p, 2 * p);
    score = score - flag_penalty_of(&t.personal_slippage_modifiable, 5 * p, 2 * p);
    if t.holder_count.is_some() {
        if parse_i32_field(&t.holder_count) < 10 {
            score = score - 5 * p;
        }
    } else {
        score = score - 2 * p;
    }
    score = score - flag_penalty_of(&t.is_whitelisted, 5 * p, 2 * p);
    score = score - flag_penalty_of(&t.anti_whale_modifiable, 5 * p, 2 * p);
    match &t.holders {
        Some(holders) => {
            if (top_holder_share(holders) as i128) > 50 * p {
                score = score - 5 * p;
            }
        },
        None => {},
    }
    clamp_points(score)
}

/// The confidence score of a token in millionths of a point, within
/// [0, 100] points: 0 when the high-risk sub-score is 0, else the mean of
/// the three sub-scores weighted 5, 3 and 1.
pub fn calculate_security_score(t: &TokenSecurityDetails) -> (r: i64)
    ensures
        r as int == security_score(*t),
        0 <= r <= FULL_SCORE,
{
    let high = apply_high_risk_checks(t) * HIGH_RISK_COEFF;
    if high == 0 {
        return 0;
    }
    let risky = apply_risky_checks(t) * RISKY_COEFF;
    let low = apply_low_risk_checks(t) * LOW_RISK_COEFF;
    let total = (high + risky + low) / (HIGH_RISK_COEFF + RISKY_COEFF + LOW_RISK_COEFF);
    clamp_points(total as i128)
}

/// A token for which any single fact is disqualifying (not listed, cannot be
/// bought, cannot all be sold, a honeypot, made by a honeypot's creator,
/// self-destructible, with a hidden owner, with an owner who can change
/// balances, without exactly one listing, or with zero liquidity) scores 0.
pub proof fn lemma_disqualified_token_scores_zero(t: TokenSecurityDetails)
    requires
        hard_disqualified(t),
    ensures
        security_score(t) == 0,
{
}

/// Every token's score lies within [0, 100] points.
pub proof fn lemma_score_within_bounds(t: TokenSecurityDetails)
    ensures
        0 <= security_score(t) <= points(100),
{
}

} // verus!
