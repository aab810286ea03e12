//! The evaluator: nominal and worst-case profit, and the profitability
//! verdict, in exact integer arithmetic with explicit overflow detection.

use vstd::prelude::*;
use crate::intstr::in_i128_range;
use crate::model::{OverflowError, ScenarioRequest, Verdict};

verus! {

/// Nominal profit of a scenario, as an unbounded integer.
pub open spec fn spec_profit(req: ScenarioRequest) -> int {
    req.quote2_out - req.amount_in - req.fee_estimate_in_input_units
}

/// Worst-case profit of a scenario, as an unbounded integer.
pub open spec fn spec_conservative_profit(req: ScenarioRequest) -> int {
    req.quote2_min_out - req.amount_in - req.fee_estimate_in_input_units
}

/// Every intermediate and final arithmetic step of the evaluation stays
/// within the supported signed 128-bit range.
pub open spec fn evaluation_in_range(req: ScenarioRequest) -> bool {
    &&& in_i128_range(req.quote2_out - req.amount_in)
    &&& in_i128_range(spec_profit(req))
    &&& in_i128_range(req.quote2_min_out - req.amount_in)
    &&& in_i128_range(spec_conservative_profit(req))
}

/// The verdict owed for a scenario: both profit figures, and profitable
/// exactly when the worst-case figure clears the threshold. An overflow
/// of any arithmetic step is reported instead of being wrapped away.
pub open spec fn spec_evaluate(req: ScenarioRequest) -> Result<Verdict, OverflowError> {
    if evaluation_in_range(req) {
        Ok(Verdict {
            profitable: spec_conservative_profit(req) >= req.min_profit,
            profit: spec_profit(req) as i128,
            conservative_profit: spec_conservative_profit(req) as i128,
        })
    } else {
        Err(OverflowError)
    }
}

/// Compute the verdict for one decoded scenario.
pub fn evaluate(req: &ScenarioRequest) -> (r: Result<Verdict, OverflowError>)
    ensures
        r == spec_evaluate(*req),
{
    let gross = match req.quote2_out.checked_sub(req.amount_in) {
        Some(v) => v,
        None => {
            return Err(OverflowError);
        },
    };
    let profit = match gross.checked_sub(req.fee_estimate_in_input_units) {
        Some(v) => v,
        None => {
            return Err(OverflowError);
        },
    };
    let gross_min = match req.quote2_min_out.checked_sub(req.amount_in) {
        Some(v) => v,
        None => {
            return Err(OverflowError);
        },
    };
    let conservative_profit = match gross_min.checked_sub(req.fee_estimate_in_input_units) {
        Some(v) => v,
        None => {
            return Err(OverflowError);
        },
    };
    Ok(Verdict {
        profitable: conservative_profit >= req.min_profit,
        profit,
        conservative_profit,
    })
}

/// Law: for every scenario the evaluator accepts, the profit figures are
/// exactly `quote2Out - amountIn - fee` and `quote2MinOut - amountIn - fee`,
/// computed in exact integer arithmetic.
pub proof fn lemma_profit_formula(req: ScenarioRequest)
    requires
        spec_evaluate(req) is Ok,
    ensures
        spec_evaluate(req)->Ok_0.profit as int == req.quote2_out - req.amount_in
            - req.fee_estimate_in_input_units,
        spec_evaluate(req)->Ok_0.conservative_profit as int == req.quote2_min_out - req.amount_in
            - req.fee_estimate_in_input_units,
{
}

/// Law: a scenario is profitable exactly when its worst-case profit is at
/// least the threshold; equality at the threshold counts as profitable.
pub proof fn lemma_profitable_threshold(req: ScenarioRequest)
    requires
        spec_evaluate(req) is Ok,
    ensures
        spec_evaluate(req)->Ok_0.profitable <==> spec_evaluate(req)->Ok_0.conservative_profit
            >= req.min_profit,
        spec_evaluate(req)->Ok_0.conservative_profit == req.min_profit ==> spec_evaluate(
            req,
        )->Ok_0.profitable,
{
}

/// Law: evaluation is deterministic; two results for the same scenario
/// are identical.
pub proof fn lemma_evaluate_deterministic(
    req: ScenarioRequest,
    r1: Result<Verdict, OverflowError>,
    r2: Result<Verdict, OverflowError>,
)
    requires
        r1 == spec_evaluate(req),
        r2 == spec_evaluate(req),
    ensures
        r1 == r2,
{
}

} // verus!
