//! How many votes a proposal needs.
use crate::error::{contract_result, ContractError, ContractErrorView};
use vstd::prelude::*;

verus! {

/// A share, in units of ten to the power of minus eighteen.
#[derive(Clone, Copy, Debug, PartialEq, Eq, Structural)]
pub struct Decimal {
    pub atomics: u128,
}

/// The atomics of the share that is the whole.
pub const DECIMAL_ONE: u128 = 1_000_000_000_000_000_000;

/// Votes are counted to one part in this many.
pub const PRECISION_FACTOR: u128 = 1_000_000_000;

/// The rule by which the votes for a proposal are held against the total weight.
#[derive(Clone, Copy, Debug, PartialEq, Eq, Structural)]
pub enum Threshold {
    /// The share of all weight, less abstentions, that has to vote yes.
    AbsolutePercentage { percentage: Decimal },
    /// The share of all weight that has to vote at all, and the share of what is voted, less
    /// abstentions, that has to vote yes.
    ThresholdQuorum { threshold: Decimal, quorum: Decimal },
}

/// A threshold, together with the total weight that it applies to.
#[derive(Clone, Copy, Debug, PartialEq, Eq, Structural)]
pub enum ThresholdResponse {
    AbsolutePercentage { percentage: Decimal, total_weight: u128 },
    ThresholdQuorum { threshold: Decimal, quorum: Decimal, total_weight: u128 },
}

/// `numerator / denominator`, rounded up.
pub open spec fn divide_up(numerator: int, denominator: int) -> int {
    (numerator + denominator - 1) / denominator
}

/// The number of votes that make up the share `percentage` of `weight`: the product, cut off
/// after as many places as `PRECISION_FACTOR` has, then rounded up.
pub open spec fn share_of(weight: int, percentage: Decimal) -> int {
    divide_up(weight * percentage.atomics / (PRECISION_FACTOR as int), PRECISION_FACTOR as int)
}

/// Why a share cannot be asked for, if it cannot.
pub open spec fn percentage_refusal(percentage: Decimal) -> Option<ContractErrorView> {
    if percentage.atomics == 0 {
        Some(ContractErrorView::ZeroThreshold)
    } else if percentage.atomics > DECIMAL_ONE {
        Some(ContractErrorView::UnreachableThreshold)
    } else {
        None
    }
}

impl Threshold {
    /// Why the rule cannot be adopted, if it cannot.
    pub open spec fn refusal(self) -> Option<ContractErrorView> {
        match self {
            Threshold::AbsolutePercentage { percentage } => percentage_refusal(percentage),
            Threshold::ThresholdQuorum { threshold, quorum } => match percentage_refusal(threshold) {
                Some(error) => Some(error),
                None => percentage_refusal(quorum),
            },
        }
    }

    /// Every share of the rule is above nothing and at most the whole.
    pub open spec fn valid(self) -> bool {
        self.refusal() is None
    }

    /// The rule with the weight that it applies to.
    pub open spec fn response(self, total_weight: u128) -> ThresholdResponse {
        match self {
            Threshold::AbsolutePercentage { percentage } => ThresholdResponse::AbsolutePercentage {
                percentage,
                total_weight,
            },
            Threshold::ThresholdQuorum { threshold, quorum } => ThresholdResponse::ThresholdQuorum {
                threshold,
                quorum,
                total_weight,
            },
        }
    }

    /// Accepts the rule if every share is above nothing and at most the whole.
    pub fn validate(&self) -> (result: Result<(), ContractError>)
        ensures
            match self.refusal() {
                Some(error) => contract_result(result) == Err::<(), _>(error),
                None => result is Ok,
            },
    {
        match self {
            Threshold::AbsolutePercentage { percentage } => valid_percentage(percentage),
            Threshold::ThresholdQuorum { threshold, quorum } => {
                match valid_percentage(threshold) {
                    Ok(()) => valid_percentage(quorum),
                    Err(error) => Err(error),
                }
            },
        }
    }

    /// Whether `validate` accepts the rule.
    pub fn is_valid(&self) -> (valid: bool)
        ensures
            valid == self.valid(),
    {
        self.validate().is_ok()
    }

    /// The rule with the weight that it applies to.
    pub fn to_response(&self, total_weight: u128) -> (response: ThresholdResponse)
        ensures
            response == self.response(total_weight),
    {
        match self {
            Threshold::AbsolutePercentage { percentage } => ThresholdResponse::AbsolutePercentage {
                percentage: *percentage,
                total_weight,
            },
            Threshold::ThresholdQuorum { threshold, quorum } => ThresholdResponse::ThresholdQuorum {
                threshold: *threshold,
                quorum: *quorum,
                total_weight,
            },
        }
    }
}

/// Accepts a share above nothing and at most the whole.
pub fn valid_percentage(percentage: &Decimal) -> (result: Result<(), ContractError>)
    ensures
        match percentage_refusal(*percentage) {
            Some(error) => contract_result(result) == Err::<(), _>(error),
            None => result is Ok,
        },
{
    if percentage.atomics == 0 {
        Err(ContractError::ZeroThreshold)
    } else if percentage.atomics > DECIMAL_ONE {
        Err(ContractError::UnreachableThreshold)
    } else {
        Ok(())
    }
}

/// The number of votes that make up the share `percentage` of `weight`.
pub fn votes_needed(weight: u128, percentage: &Decimal) -> (votes: u128)
    requires
        percentage.atomics <= DECIMAL_ONE,
    ensures
        votes == share_of(weight as int, *percentage),
        votes <= weight,
{
    let p: u128 = percentage.atomics;
    let weight_high: u128 = weight / PRECISION_FACTOR;
    let weight_low: u128 = weight % PRECISION_FACTOR;
    let share_high: u128 = p / PRECISION_FACTOR;
    let share_low: u128 = p % PRECISION_FACTOR;
    proof {
        lemma_share_in_parts(weight as int, p as int);
    }
    let rest: u128 = weight_high * share_low + weight_low * p / PRECISION_FACTOR;
    weight_high * share_high + (rest + (PRECISION_FACTOR - 1)) / PRECISION_FACTOR
}

/// The share, computed from the upper and lower halves of both factors, stays within `u128`.
proof fn lemma_share_in_parts(weight: int, p: int)
    requires
        0 <= weight <= u128::MAX,
        0 <= p <= DECIMAL_ONE,
    ensures
        ({
            let g = PRECISION_FACTOR as int;
            let (a, b) = (weight / g, weight % g);
            let (c, d) = (p / g, p % g);
            let rest = a * d + b * p / g;
            &&& 0 <= a * d <= u128::MAX
            &&& 0 <= b * p <= u128::MAX
            &&& 0 <= b * p / g
            &&& rest + g - 1 <= u128::MAX
            &&& 0 <= a * c
            &&& a * c + (rest + (g - 1)) / g == divide_up(weight * p / g, g)
            &&& divide_up(weight * p / g, g) <= weight
        }),
{
    let g = PRECISION_FACTOR as int;
    let (a, b) = (weight / g, weight % g);
    let (c, d) = (p / g, p % g);
    let rest = a * d + b * p / g;
    assert(weight == a * g + b);
    assert(p == c * g + d);
    assert(0 <= a * d <= a * (g - 1)) by (nonlinear_arith)
        requires
            0 <= a,
            0 <= d <= g - 1,
    ;
    assert(0 <= b * p <= (g - 1) * 1_000_000_000_000_000_000) by (nonlinear_arith)
        requires
            0 <= b <= g - 1,
            0 <= p <= 1_000_000_000_000_000_000,
    ;
    assert(0 <= a * c) by (nonlinear_arith)
        requires
            0 <= a,
            0 <= c,
    ;
    assert(weight * p == (a * c * g + a * d) * g + b * p) by (nonlinear_arith)
        requires
            weight == a * g + b,
            p == c * g + d,
    ;
    let k = a * c * g + a * d;
    assert(weight * p / g == k + b * p / g) by (nonlinear_arith)
        requires
            weight * p == k * g + b * p,
            g == 1_000_000_000,
    ;
    let m = a * c;
    assert(weight * p / g == m * g + rest);
    assert(divide_up(weight * p / g, g) == m + (rest + (g - 1)) / g) by (nonlinear_arith)
        requires
            weight * p / g == m * g + rest,
            g == 1_000_000_000,
    ;
    assert(weight * p <= weight * g * g) by (nonlinear_arith)
        requires
            0 <= weight,
            0 <= p <= 1_000_000_000_000_000_000,
            g == 1_000_000_000,
    ;
    assert(weight * p / g <= weight * g) by (nonlinear_arith)
        requires
            weight * p <= weight * g * g,
            g == 1_000_000_000,
    ;
    assert(divide_up(weight * p / g, g) <= weight) by (nonlinear_arith)
        requires
            weight * p / g <= weight * g,
            g == 1_000_000_000,
    ;
}

} // verus!
