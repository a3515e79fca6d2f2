use vstd::prelude::*;
use crate::address::Address;
use crate::security_checker::{accepted, TokenAssessment, CONFIDENCE_THRESHOLD};

verus! {

/// The token to assess in a new pair: the one that is not the wrapped native
/// asset, when exactly one of the two is; otherwise the pair is passed over.
pub open spec fn target_token(token_0: Address, token_1: Address, wrapped: Address) -> Option<Address> {
    if token_0 == wrapped && token_1 != wrapped {
        Some(token_1)
    } else if token_1 == wrapped && token_0 != wrapped {
        Some(token_0)
    } else {
        None
    }
}

/// Picks the token to assess in a newly created pair or pool.
pub fn select_target(token_0: Address, token_1: Address, wrapped: Address) -> (r: Option<Address>)
    ensures
        r == target_token(token_0, token_1, wrapped),
{
    if token_0 == wrapped && token_1 != wrapped {
        Some(token_1)
    } else if token_1 == wrapped && token_0 != wrapped {
        Some(token_0)
    } else {
        None
    }
}

/// What to do with a candidate once it has been assessed.
#[derive(Clone, Copy, Debug, PartialEq, Eq, Structural)]
pub enum PairDecision {
    /// Buy the token for this many wei.
    Buy { amount_wei: u128 },
    /// Mark the trade record as canceled for a failed security check.
    Cancel,
}

/// Buys at the recommended size when the confidence clears the threshold,
/// and cancels otherwise.
pub fn decide(assessment: &TokenAssessment) -> (r: PairDecision)
    ensures
        accepted(*assessment) ==> r == (PairDecision::Buy {
            amount_wei: assessment.recommended_trade_amount,
        }),
        !accepted(*assessment) ==> r == PairDecision::Cancel,
{
    if assessment.confidence_score >= CONFIDENCE_THRESHOLD {
        PairDecision::Buy { amount_wei: assessment.recommended_trade_amount }
    } else {
        PairDecision::Cancel
    }
}

/// A pair with the wrapped native asset on one side, and a distinct token on
/// the other, is taken up with that other token as the target; a pair
/// without the wrapped native asset is passed over.
pub proof fn lemma_filter_picks_other_token(token_0: Address, token_1: Address, wrapped: Address)
    ensures
        token_0 == wrapped && token_1 != wrapped ==> target_token(token_0, token_1, wrapped)
            == Some(token_1),
        token_1 == wrapped && token_0 != wrapped ==> target_token(token_0, token_1, wrapped)
            == Some(token_0),
        token_0 != wrapped && token_1 != wrapped ==> target_token(token_0, token_1, wrapped)
            is None,
{
}

} // verus!
