use vstd::prelude::*;
use crate::amount_in_calculator::{
    calculate_amount_in, needs_market_data, sizing_needs_market, trade_size,
};
use crate::errors::SendableError;
use crate::formatter::{decimal_field_value, parse_decimal_field};
use crate::score_calculator::{calculate_security_score, security_score, FULL_SCORE};
use crate::token_api_response_models::TokenSecurityDetails;

verus! {

/// Attempts made before the last, unconditional one.
pub const MAX_RETRIES: u32 = 3;

/// Wait before the first retry, in seconds; each later wait doubles it.
pub const BASE_BACKOFF: u64 = 5;

/// Confidence at which a token is accepted: 70 points in millionths.
pub const CONFIDENCE_THRESHOLD: i64 = 70_000_000;

/// What one assessment of a token yields.
#[derive(Clone, Copy, Debug, PartialEq, Eq, Structural)]
pub struct TokenAssessment {
    /// Confidence in millionths of a point, within [0, 100] points.
    pub confidence_score: i64,
    /// The size of the trade to make, in wei.
    pub recommended_trade_amount: u128,
}

/// The liquidity that counts for the assessment on one exchange: `None` when
/// the token has not exactly one listing; else the listing's liquidity (in
/// millionths) when it is on this exchange and has a figure, and 0 otherwise.
pub open spec fn exchange_liquidity(t: TokenSecurityDetails, exchange_name: Seq<char>) -> Option<
    int,
> {
    match t.dex {
        Some(l) => if l@.len() == 1 {
            if l@[0].name matches Some(n) && n@ == exchange_name && l@[0].liquidity is Some {
                Some(decimal_field_value(l@[0].liquidity))
            } else {
                Some(0)
            }
        } else {
            None
        },
        None => None,
    }
}

/// What an assessment needs once the oracle has answered.
pub enum AssessmentPlan {
    /// The assessment is complete without market data.
    Complete(TokenAssessment),
    /// The trade is to be sized from the native price and the wallet balance.
    NeedsMarket { confidence: i64, liquidity: i64 },
}

/// The assessment, or what it waits for, once the oracle's details are in:
/// a rejected assessment (0, 0) without exactly one usable listing on this
/// exchange; the score and no trade when the size needs no market data; else
/// the score and liquidity to size from.
pub open spec fn assessment_plan(t: TokenSecurityDetails, exchange_name: Seq<char>) -> AssessmentPlan {
    match exchange_liquidity(t, exchange_name) {
        Some(liq) => if liq == 0 {
            AssessmentPlan::Complete(TokenAssessment { confidence_score: 0, recommended_trade_amount: 0 })
        } else if !sizing_needs_market(security_score(t), liq) {
            AssessmentPlan::Complete(
                TokenAssessment {
                    confidence_score: security_score(t) as i64,
                    recommended_trade_amount: 0,
                },
            )
        } else {
            AssessmentPlan::NeedsMarket { confidence: security_score(t) as i64, liquidity: liq as i64 }
        },
        None => AssessmentPlan::Complete(
            TokenAssessment { confidence_score: 0, recommended_trade_amount: 0 },
        ),
    }
}

fn exchange_liquidity_of(t: &TokenSecurityDetails, exchange_name: &String) -> (r: Option<i64>)
    ensures
        match exchange_liquidity(*t, exchange_name@) {
            Some(v) => r == Some(v as i64) && v == v as i64,
            None => r is None,
        },
{
    match &t.dex {
        Some(dex_list) => if dex_list.len() == 1 {
            let dex = &dex_list[0];
            match &dex.name {
                Some(name) => if *name == *exchange_name && dex.liquidity.is_some() {
                    Some(parse_decimal_field(&dex.liquidity))
                } else {
                    Some(0)
                },
                None => Some(0),
            }
        } else {
            None
        },
        None => None,
    }
}

/// Scores the oracle's details and says what the assessment still needs.
pub fn plan_assessment(t: &TokenSecurityDetails, exchange_name: &String) -> (r: AssessmentPlan)
    ensures
        r == assessment_plan(*t, exchange_name@),
        r matches AssessmentPlan::NeedsMarket { confidence, .. } ==> 0 <= confidence
            <= FULL_SCORE,
{
    let confidence = calculate_security_score(t);
    match exchange_liquidity_of(t, exchange_name) {
        Some(liquidity) => if liquidity == 0 {
            AssessmentPlan::Complete(TokenAssessment { confidence_score: 0, recommended_trade_amount: 0 })
        } else if !needs_market_data(confidence, liquidity) {
            AssessmentPlan::Complete(
                TokenAssessment { confidence_score: confidence, recommended_trade_amount: 0 },
            )
        } else {
            AssessmentPlan::NeedsMarket { confidence, liquidity }
        },
        None => AssessmentPlan::Complete(
            TokenAssessment { confidence_score: 0, recommended_trade_amount: 0 },
        ),
    }
}

/// Completes an assessment from the native price (millionths of a dollar per
/// unit) and the wallet balance (wei): the confidence and the trade size.
pub fn complete_assessment(
    confidence: i64,
    liquidity: i64,
    native_price: u64,
    balance_wei: u128,
) -> (r: TokenAssessment)
    requires
        0 <= confidence <= FULL_SCORE,
    ensures
        r.confidence_score == confidence,
        r.recommended_trade_amount as int == trade_size(
            confidence as int,
            liquidity as int,
            native_price as int,
            balance_wei as int,
        ),
{
    let amount = calculate_amount_in(confidence, liquidity, native_price, balance_wei);
    TokenAssessment { confidence_score: confidence, recommended_trade_amount: amount }
}

/// Whether an assessment clears the acceptance threshold.
pub open spec fn accepted(a: TokenAssessment) -> bool {
    a.confidence_score >= CONFIDENCE_THRESHOLD
}

/// What the retrying assessment asks its driver to do next.
pub enum EngineStep {
    /// Fetch and assess the token now.
    Fetch,
    /// Wait this many seconds, then fetch and assess the token.
    SleepThenFetch(u64),
    /// Stop: this is the result of the assessment.
    Finish(Result<TokenAssessment, SendableError>),
}

/// The retrying security assessment of one token. Attempts that fail or
/// fall short of the threshold are retried with a doubling wait, up to
/// `MAX_RETRIES` attempts; then one last attempt is made and its result,
/// whatever it is, is final.
pub struct AssessmentEngine {
    /// Outcomes received so far.
    pub outcomes_seen: u32,
    /// Whether the assessment has finished.
    pub finished: bool,
}

impl AssessmentEngine {
    pub open spec fn wf(&self) -> bool {
        &&& self.outcomes_seen <= MAX_RETRIES + 1
        &&& self.outcomes_seen == MAX_RETRIES + 1 ==> self.finished
    }

    /// A new assessment, which begins with a fetch.
    pub fn new() -> (r: (AssessmentEngine, EngineStep))
        ensures
            r.0.wf(),
            r.0.outcomes_seen == 0,
            !r.0.finished,
            r.1 is Fetch,
    {
        (AssessmentEngine { outcomes_seen: 0, finished: false }, EngineStep::Fetch)
    }

    /// Takes the outcome of the fetch just made and says what comes next:
    /// an accepted assessment finishes at once; any other outcome of one of
    /// the first `MAX_RETRIES - 1` attempts is retried after
    /// `BASE_BACKOFF * 2^attempt` seconds; after the last retried attempt
    /// comes one more fetch at once, whose outcome finishes the assessment.
    pub fn on_outcome(&mut self, outcome: Result<TokenAssessment, SendableError>) -> (r: EngineStep)
        requires
            old(self).wf(),
            !old(self).finished,
        ensures
            final(self).wf(),
            final(self).outcomes_seen == old(self).outcomes_seen + 1,
            final(self).finished == r is Finish,
            r == engine_next(*old(self), outcome),
    {
        let attempt = self.outcomes_seen;
        self.outcomes_seen = attempt + 1;
        if attempt == MAX_RETRIES {
            self.finished = true;
            return EngineStep::Finish(outcome);
        }
        match outcome {
            Ok(a) => {
                if a.confidence_score >= CONFIDENCE_THRESHOLD {
                    self.finished = true;
                    return EngineStep::Finish(Ok(a));
                }
            },
            Err(_) => {},
        }
        if attempt + 1 < MAX_RETRIES {
            let factor: u64 = if attempt == 0 {
                1
            } else {
                2
            };
            proof {
                vstd::arithmetic::power2::lemma2_to64();
            }
            EngineStep::SleepThenFetch(BASE_BACKOFF * factor)
        } else {
            EngineStep::Fetch
        }
    }
}

/// An assessment fetches at most `MAX_RETRIES + 1` times: one that is still
/// running has received fewer outcomes than that, and on the last of them
/// it finishes, with that outcome as its result.
pub proof fn lemma_at_most_four_fetches(
    engine: AssessmentEngine,
    outcome: Result<TokenAssessment, SendableError>,
)
    requires
        engine.wf(),
        !engine.finished,
    ensures
        engine.outcomes_seen < MAX_RETRIES + 1,
        engine.outcomes_seen + 1 == MAX_RETRIES + 1 ==> engine_next(engine, outcome) == EngineStep::Finish(
            outcome,
        ),
{
}

/// The step that follows an outcome: after the last retried attempt
/// (`MAX_RETRIES` outcomes seen) the outcome itself is the result; before,
/// an accepted assessment is the result, and anything else is retried after
/// `BASE_BACKOFF * 2^attempt` seconds, or at once after the last retried one.
pub open spec fn engine_next(
    engine: AssessmentEngine,
    outcome: Result<TokenAssessment, SendableError>,
) -> EngineStep {
    if engine.outcomes_seen == MAX_RETRIES {
        EngineStep::Finish(outcome)
    } else {
        match outcome {
            Ok(a) if accepted(a) => EngineStep::Finish(Ok(a)),
            _ => if engine.outcomes_seen + 1 < MAX_RETRIES {
                EngineStep::SleepThenFetch(
                    (BASE_BACKOFF * vstd::arithmetic::power2::pow2(engine.outcomes_seen as nat)) as u64,
                )
            } else {
                EngineStep::Fetch
            },
        }
    }
}

} // verus!
