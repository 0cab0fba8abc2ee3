//! The settlement classifier: what a two-legged trade's fills leave to do.
use vstd::prelude::*;
use crate::amount::{Id256, SCALE};
use crate::ledger::{cost_after_fill, drop_dust, snap, PositionTracker};

verus! {

/// One leg of an executed pair: the token, the quantity ordered and the
/// quantity filled.
#[derive(Clone, Copy, Debug, PartialEq, Eq, Structural)]
pub struct LegFill {
    pub token: Id256,
    pub requested: i64,
    pub filled: i64,
}

/// Why a pair needs a human.
#[derive(Clone, Copy, Debug, PartialEq, Eq, Structural)]
pub enum InterventionReason {
    /// Neither leg filled.
    NothingFilled,
    /// A leg reports a negative fill, or more than was ordered.
    InconsistentFill,
    /// Both legs filled the same quantity, but not in full.
    PartialBalanced,
}

/// The follow-up that a pair's fills call for.
#[derive(Clone, Copy, Debug, PartialEq, Eq, Structural)]
pub enum RecoveryAction {
    /// Both legs filled in full and equally.
    NoAction,
    /// Only one leg filled: naked exposure to close eventually.
    MonitorForExit { token: Id256, quantity: i64 },
    /// Both legs filled unequally: the excess of the larger one to trim.
    SellExcess { token: Id256, quantity: i64 },
    /// No automated recipe fits.
    ManualIntervention { reason: InterventionReason },
}

/// The operator's description of an action.
pub open spec fn description(a: RecoveryAction) -> Seq<char> {
    match a {
        RecoveryAction::NoAction => "none"@,
        RecoveryAction::MonitorForExit { .. } => "monitor for exit"@,
        RecoveryAction::SellExcess { .. } => "sell excess"@,
        RecoveryAction::ManualIntervention { reason } => match reason {
            InterventionReason::NothingFilled => "manual intervention: no leg filled"@,
            InterventionReason::InconsistentFill => "manual intervention: fill inconsistent with order"@,
            InterventionReason::PartialBalanced => "manual intervention: both legs partially filled"@,
        },
    }
}

impl RecoveryAction {
    /// A short description of the action, for the operator.
    pub fn describe(&self) -> (r: String)
        ensures
            r@ == description(*self),
    {
        match self {
            RecoveryAction::NoAction => String::from_str("none"),
            RecoveryAction::MonitorForExit { .. } => String::from_str("monitor for exit"),
            RecoveryAction::SellExcess { .. } => String::from_str("sell excess"),
            RecoveryAction::ManualIntervention { reason } => match reason {
                InterventionReason::NothingFilled => String::from_str("manual intervention: no leg filled"),
                InterventionReason::InconsistentFill => String::from_str(
                    "manual intervention: fill inconsistent with order",
                ),
                InterventionReason::PartialBalanced => String::from_str(
                    "manual intervention: both legs partially filled",
                ),
            },
        }
    }
}

pub open spec fn consistent(l: LegFill) -> bool {
    0 <= l.filled <= l.requested
}

/// The follow-up for a pair of fills.
pub open spec fn classification(yes: LegFill, no: LegFill) -> RecoveryAction {
    if !consistent(yes) || !consistent(no) {
        RecoveryAction::ManualIntervention { reason: InterventionReason::InconsistentFill }
    } else if yes.filled == 0 && no.filled == 0 {
        RecoveryAction::ManualIntervention { reason: InterventionReason::NothingFilled }
    } else if no.filled == 0 {
        RecoveryAction::MonitorForExit { token: yes.token, quantity: yes.filled }
    } else if yes.filled == 0 {
        RecoveryAction::MonitorForExit { token: no.token, quantity: no.filled }
    } else if yes.filled > no.filled {
        RecoveryAction::SellExcess { token: yes.token, quantity: (yes.filled - no.filled) as i64 }
    } else if no.filled > yes.filled {
        RecoveryAction::SellExcess { token: no.token, quantity: (no.filled - yes.filled) as i64 }
    } else if yes.filled == yes.requested && no.filled == no.requested {
        RecoveryAction::NoAction
    } else {
        RecoveryAction::ManualIntervention { reason: InterventionReason::PartialBalanced }
    }
}

/// Classifies the fills of a pair.
pub fn classify(yes: LegFill, no: LegFill) -> (r: RecoveryAction)
    ensures
        r == classification(yes, no),
{
    if !(0 <= yes.filled && yes.filled <= yes.requested) || !(0 <= no.filled && no.filled
        <= no.requested) {
        RecoveryAction::ManualIntervention { reason: InterventionReason::InconsistentFill }
    } else if yes.filled == 0 && no.filled == 0 {
        RecoveryAction::ManualIntervention { reason: InterventionReason::NothingFilled }
    } else if no.filled == 0 {
        RecoveryAction::MonitorForExit { token: yes.token, quantity: yes.filled }
    } else if yes.filled == 0 {
        RecoveryAction::MonitorForExit { token: no.token, quantity: no.filled }
    } else if yes.filled > no.filled {
        RecoveryAction::SellExcess { token: yes.token, quantity: yes.filled - no.filled }
    } else if no.filled > yes.filled {
        RecoveryAction::SellExcess { token: no.token, quantity: no.filled - yes.filled }
    } else if yes.filled == yes.requested && no.filled == no.requested {
        RecoveryAction::NoAction
    } else {
        RecoveryAction::ManualIntervention { reason: InterventionReason::PartialBalanced }
    }
}

/// Quantity of a token after a fill of `filled` on it.
pub open spec fn position_after(t: &PositionTracker, leg: LegFill) -> int {
    snap(t.position(leg.token) + leg.filled)
}

/// Cost basis of a token after a fill of `filled` on it at `price`.
pub open spec fn cost_basis_after(t: &PositionTracker, leg: LegFill, price: int) -> int {
    if position_after(t, leg) == 0 {
        0
    } else if leg.filled == 0 {
        t.cost_basis(leg.token)
    } else {
        drop_dust(cost_after_fill(t.cost_basis(leg.token), t.position(leg.token), price, leg.filled as int))
    }
}

/// Records both legs of an executed pair in the ledger, each at its price,
/// and classifies the pair.
pub fn settle_pair(
    ledger: &mut PositionTracker,
    yes: LegFill,
    no: LegFill,
    yes_price: i64,
    no_price: i64,
) -> (r: RecoveryAction)
    requires
        old(ledger).wf(),
        yes.token != no.token,
        yes_price >= 0,
        no_price >= 0,
        old(ledger).cost_basis(yes.token) + (yes_price * yes.filled) / (SCALE as int) <= i64::MAX,
        old(ledger).cost_basis(no.token) + (no_price * no.filled) / (SCALE as int) <= i64::MAX,
        i64::MIN <= old(ledger).position(yes.token) + yes.filled <= i64::MAX,
        i64::MIN <= old(ledger).position(no.token) + no.filled <= i64::MAX,
    ensures
        r == classification(yes, no),
        final(ledger).wf(),
        final(ledger).position(yes.token) == position_after(old(ledger), yes),
        final(ledger).position(no.token) == position_after(old(ledger), no),
        final(ledger).cost_basis(yes.token) == cost_basis_after(old(ledger), yes, yes_price as int),
        final(ledger).cost_basis(no.token) == cost_basis_after(old(ledger), no, no_price as int),
        forall|t: Id256|
            t != yes.token && t != no.token ==> final(ledger).position(t) == old(ledger).position(t)
                && final(ledger).cost_basis(t) == old(ledger).cost_basis(t),
        final(ledger).limit() == old(ledger).limit(),
        old(ledger).basis_consistent() ==> final(ledger).basis_consistent(),
{
    proof {
        crate::ledger::lemma_cost_after_fill_bounds(
            old(ledger).cost_basis(yes.token),
            old(ledger).position(yes.token),
            yes_price as int,
            yes.filled as int,
        );
    }
    ledger.apply_fill(yes.token, yes_price, yes.filled);
    let ghost mid = *ledger;
    proof {
        assert(mid.position(no.token) == old(ledger).position(no.token));
        assert(mid.cost_basis(no.token) == old(ledger).cost_basis(no.token));
        crate::ledger::lemma_cost_after_fill_bounds(
            mid.cost_basis(no.token),
            mid.position(no.token),
            no_price as int,
            no.filled as int,
        );
    }
    ledger.apply_fill(no.token, no_price, no.filled);
    proof {
        assert(ledger.position(yes.token) == mid.position(yes.token));
        assert(ledger.cost_basis(yes.token) == mid.cost_basis(yes.token));
    }
    classify(yes, no)
}

} // verus!
