//! The risk gate: admits a candidate trade only if it keeps total exposure
//! within the ledger's ceiling.
use vstd::prelude::*;
use crate::ledger::PositionTracker;

verus! {

/// The outcome of the risk gate for one candidate trade.
#[derive(Clone, Copy, Debug, PartialEq, Eq, Structural)]
pub enum Admission {
    Admit,
    Reject { current_exposure: i128, limit: i64 },
}

/// Admission of a trade with legs costing `yes_cost` and `no_cost` dollars
/// (in millionths) at total exposure `exposure` and ceiling `limit`.
pub open spec fn admission(exposure: int, limit: int, yes_cost: int, no_cost: int) -> Admission {
    if exposure + yes_cost + no_cost > limit {
        Admission::Reject { current_exposure: exposure as i128, limit: limit as i64 }
    } else {
        Admission::Admit
    }
}

/// Admits a candidate trade, or rejects it with the current exposure and the
/// ceiling when it would take exposure above the ceiling. Changes nothing.
pub fn admit_trade(ledger: &PositionTracker, yes_cost: i64, no_cost: i64) -> (r: Admission)
    requires
        ledger.wf(),
    ensures
        r == admission(ledger.exposure(), ledger.limit(), yes_cost as int, no_cost as int),
{
    if ledger.would_exceed_limit(yes_cost, no_cost) {
        Admission::Reject { current_exposure: ledger.calculate_exposure(), limit: ledger.max_exposure() }
    } else {
        Admission::Admit
    }
}

} // verus!
