//! The exposure ledger: signed quantity and dollar cost basis per token.
//!
//! Each store is a concurrent map, so reads never block one another, and no
//! operation holds one store while working in the other. Changes take
//! `&mut self`: tasks that share a ledger hold it behind a lock, which also
//! makes each fill (`apply_fill`: cost side against the quantity held before
//! the fill, then the quantity) a single step.
use vstd::prelude::*;
use crate::amount::{abs, Id256, CENT, EPSILON, SCALE};
use crate::store::{entries, store_get, store_insert, store_new, store_remove, store_snapshot};
use dashmap::DashMap;

verus! {

/// A quantity after a change: flat (zero) once its magnitude is below `EPSILON`.
pub open spec fn snap(q: int) -> int {
    if abs(q) < EPSILON { 0 } else { q }
}

/// The value of `m` at `t`, zero where `m` has no entry.
pub open spec fn value_at(m: Map<Id256, i64>, t: Id256) -> int {
    if m.contains_key(t) { m[t] as int } else { 0 }
}

/// `m` after storing `v` at `t`, where a zero `v` means no entry.
pub open spec fn store_or_drop(m: Map<Id256, i64>, t: Id256, v: int) -> Map<Id256, i64> {
    if v == 0 { m.remove(t) } else { m.insert(t, v as i64) }
}

/// Adds the value of one entry to a running total.
pub open spec fn cost_adder(m: Map<Id256, i64>) -> spec_fn(int, Id256) -> int {
    |acc: int, k: Id256| acc + m[k] as int
}

/// The sum of all values of `m`.
pub open spec fn total_cost(m: Map<Id256, i64>) -> int {
    m.dom().fold(0int, cost_adder(m))
}

/// Cost basis of a position of `pos` with cost `cost` after a fill of `delta`
/// at `price`, before dust removal. Buys add `price * delta`; sells shrink the
/// cost in the proportion of the position they close; a sell against a
/// position that is not long leaves no cost.
pub open spec fn cost_after_fill(cost: int, pos: int, price: int, delta: int) -> int {
    if delta == 0 {
        cost
    } else if delta > 0 {
        cost + (price * delta) / (SCALE as int)
    } else if pos > 0 {
        let sold = if -delta < pos { -delta } else { pos };
        (cost * (pos - sold)) / pos
    } else {
        0
    }
}

/// A fill keeps a non-negative cost basis within bounds.
pub proof fn lemma_cost_after_fill_bounds(cost: int, pos: int, price: int, delta: int)
    requires
        0 <= cost <= i64::MAX,
        price >= 0,
        cost + (price * delta) / (SCALE as int) <= i64::MAX,
    ensures
        0 <= cost_after_fill(cost, pos, price, delta) <= i64::MAX,
{
    if delta > 0 {
        assert(price * delta >= 0) by (nonlinear_arith)
            requires price >= 0, delta > 0;
    } else if delta < 0 && pos > 0 {
        let sold = if -delta < pos { -delta } else { pos };
        assert(0 <= cost * (pos - sold) <= cost * pos) by (nonlinear_arith)
            requires 0 <= sold <= pos, 0 <= cost;
        assert((cost * (pos - sold)) / pos <= cost) by (nonlinear_arith)
            requires 0 <= cost * (pos - sold) <= cost * pos, pos > 0;
    }
}

/// A cost below one cent counts as none.
pub open spec fn drop_dust(c: int) -> int {
    if c < CENT { 0 } else { c }
}

/// `|a - b| / (a + b)` in millionths, truncated toward zero; zero when `a + b == 0`.
pub open spec fn imbalance_ratio(a: int, b: int) -> int {
    let total = a + b;
    let num = abs(a - b) * SCALE;
    if total == 0 {
        0
    } else if total > 0 {
        num / total
    } else {
        -(num / (-total))
    }
}

/// The quantity reached from `start` by adding each of `deltas` in turn,
/// snapping to zero after every step whose result is below `EPSILON` in magnitude.
pub open spec fn running_position(start: int, deltas: Seq<i64>) -> int
    decreases deltas.len(),
{
    if deltas.len() == 0 {
        start
    } else {
        snap(running_position(start, deltas.drop_last()) + deltas.last())
    }
}

/// Over any sequence of `update_position` calls on one token, the stored
/// quantity is the running sum of their deltas, snapped to zero at every step
/// where its magnitude drops below `EPSILON`. `trail[i + 1]` is the ledger
/// after the call with `deltas[i]` on `trail[i]`.
pub proof fn lemma_position_is_running_sum(trail: Seq<PositionTracker>, token: Id256, deltas: Seq<i64>)
    requires
        trail.len() == deltas.len() + 1,
        forall|i: int|
            0 <= i < deltas.len() ==> i64::MIN <= (#[trigger] trail[i]).position(token) + deltas[i] <= i64::MAX,
        forall|i: int|
            0 <= i < deltas.len() ==> (#[trigger] trail[i + 1]).positions() == store_or_drop(
                trail[i].positions(),
                token,
                snap(trail[i].position(token) + deltas[i]),
            ),
    ensures
        trail.last().position(token) == running_position(trail[0].position(token), deltas),
    decreases deltas.len(),
{
    if deltas.len() > 0 {
        let n = deltas.len() - 1;
        let shorter = trail.drop_last();
        assert forall|i: int| 0 <= i < n implies i64::MIN <= (#[trigger] shorter[i]).position(token)
            + deltas.drop_last()[i] <= i64::MAX by {
            assert(shorter[i] == trail[i]);
        }
        assert forall|i: int| 0 <= i < n implies (#[trigger] shorter[i + 1]).positions() == store_or_drop(
            shorter[i].positions(),
            token,
            snap(shorter[i].position(token) + deltas.drop_last()[i]),
        ) by {
            assert(shorter[i + 1] == trail[i + 1]);
            assert(shorter[i] == trail[i]);
        }
        lemma_position_is_running_sum(shorter, token, deltas.drop_last());
        assert(trail[n] == shorter.last());
        assert(i64::MIN <= trail[n].position(token) + deltas[n] <= i64::MAX);
        assert(trail[n + 1].positions() == store_or_drop(trail[n].positions(), token, snap(trail[n].position(token) + deltas[n])));
    }
}

/// For two holdings that are not short, the imbalance lies between zero and
/// one (`SCALE`), and is zero when they are equal.
pub proof fn lemma_imbalance_bounds(a: int, b: int)
    requires
        a >= 0,
        b >= 0,
    ensures
        0 <= imbalance_ratio(a, b) <= SCALE,
        a == b ==> imbalance_ratio(a, b) == 0,
{
    if a + b > 0 {
        let num = abs(a - b) * SCALE;
        assert(0 <= num <= (a + b) * SCALE) by (nonlinear_arith)
            requires num == abs(a - b) * SCALE, 0 <= abs(a - b) <= a + b;
        assert(num / (a + b) <= SCALE) by (nonlinear_arith)
            requires 0 <= num <= (a + b) * SCALE, a + b > 0;
        assert(num / (a + b) >= 0) by (nonlinear_arith)
            requires 0 <= num, a + b > 0;
    }
}

/// Per-token inventory and cost basis, with a ceiling on the total cost.
pub struct PositionTracker {
    positions: DashMap<Id256, i64>,
    exposure_costs: DashMap<Id256, i64>,
    max_exposure: i64,
}

impl PositionTracker {
    /// Signed quantity per token; flat tokens have no entry.
    pub closed spec fn positions(&self) -> Map<Id256, i64> {
        entries(self.positions)
    }

    /// Dollar cost basis per token; tokens without cost have no entry.
    pub closed spec fn costs(&self) -> Map<Id256, i64> {
        entries(self.exposure_costs)
    }

    /// The ceiling on total exposure.
    pub closed spec fn limit(&self) -> int {
        self.max_exposure as int
    }

    pub open spec fn position(&self, t: Id256) -> int {
        value_at(self.positions(), t)
    }

    pub open spec fn cost_basis(&self, t: Id256) -> int {
        value_at(self.costs(), t)
    }

    /// Total exposure: the sum of all cost entries.
    pub open spec fn exposure(&self) -> int {
        total_cost(self.costs())
    }

    /// Every stored quantity is at least `EPSILON` in magnitude, every stored
    /// cost is at least one cent, and finitely many costs are stored.
    pub open spec fn wf(&self) -> bool {
        &&& forall|t: Id256| #[trigger] self.positions().contains_key(t) ==> abs(self.positions()[t] as int) >= EPSILON
        &&& forall|t: Id256| #[trigger] self.costs().contains_key(t) ==> self.costs()[t] >= CENT
        &&& self.costs().dom().finite()
    }

    /// No flat token carries a cost.
    pub open spec fn basis_consistent(&self) -> bool {
        forall|t: Id256| #[trigger] self.position(t) == 0 ==> self.cost_basis(t) == 0
    }

    pub fn new(max_exposure: i64) -> (r: Self)
        ensures
            r.wf(),
            r.basis_consistent(),
            r.positions() == Map::<Id256, i64>::empty(),
            r.costs() == Map::<Id256, i64>::empty(),
            r.limit() == max_exposure,
    {
        let r = PositionTracker { positions: store_new(), exposure_costs: store_new(), max_exposure };
        proof {
            assert(r.positions() == Map::<Id256, i64>::empty());
            assert(r.costs() == Map::<Id256, i64>::empty());
        }
        r
    }

    /// Adds `delta` to the quantity held of `token`. A result below `EPSILON`
    /// in magnitude leaves the token flat and drops its cost entry.
    pub fn update_position(&mut self, token: Id256, delta: i64)
        requires
            old(self).wf(),
            i64::MIN <= old(self).position(token) + delta <= i64::MAX,
        ensures
            final(self).wf(),
            final(self).positions() == store_or_drop(
                old(self).positions(),
                token,
                snap(old(self).position(token) + delta),
            ),
            final(self).costs() == (if snap(old(self).position(token) + delta) == 0 {
                old(self).costs().remove(token)
            } else {
                old(self).costs()
            }),
            final(self).limit() == old(self).limit(),
            old(self).basis_consistent() ==> final(self).basis_consistent(),
    {
        let cur: i64 = match store_get(&self.positions, &token) {
            Some(v) => v,
            None => 0,
        };
        let sum: i64 = cur + delta;
        let flat: bool = -EPSILON < sum && sum < EPSILON;
        if flat {
            store_remove(&mut self.positions, &token);
            store_remove(&mut self.exposure_costs, &token);
        } else {
            store_insert(&mut self.positions, token, sum);
        }
        proof {
            assert(self.positions() == store_or_drop(
                old(self).positions(),
                token,
                snap(old(self).position(token) + delta),
            ));
            assert forall|t: Id256| #[trigger] self.positions().contains_key(t) implies abs(
                self.positions()[t] as int,
            ) >= EPSILON by {
                if t != token {
                    assert(old(self).positions().contains_key(t));
                }
            }
            if old(self).basis_consistent() {
                assert forall|t: Id256| #[trigger] self.position(t) == 0 implies self.cost_basis(t)
                    == 0 by {
                    if t != token {
                        assert(old(self).position(t) == 0);
                    }
                }
            }
        }
    }

    /// Records the cost side of a fill of `delta` units of `token` at `price`:
    /// buys add `price * delta`; sells shrink the cost in the proportion of
    /// the currently held quantity they close (the quantity must not yet
    /// include this fill). A cost below one cent is dropped.
    pub fn update_exposure_cost(&mut self, token: Id256, price: i64, delta: i64)
        requires
            old(self).wf(),
            price >= 0,
            old(self).cost_basis(token) + (price * delta) / (SCALE as int) <= i64::MAX,
        ensures
            final(self).wf(),
            final(self).positions() == old(self).positions(),
            final(self).costs() == (if delta == 0 {
                old(self).costs()
            } else {
                store_or_drop(
                    old(self).costs(),
                    token,
                    drop_dust(
                        cost_after_fill(
                            old(self).cost_basis(token),
                            old(self).position(token),
                            price as int,
                            delta as int,
                        ),
                    ),
                )
            }),
            final(self).limit() == old(self).limit(),
    {
        if delta == 0 {
            return;
        }
        let cost: i64 = match store_get(&self.exposure_costs, &token) {
            Some(v) => v,
            None => 0,
        };
        let new_cost: i64;
        if delta > 0 {
            let added: i128 = (price as i128) * (delta as i128) / (SCALE as i128);
            proof {
                assert((price as i128) * (delta as i128) >= 0) by (nonlinear_arith)
                    requires price >= 0, delta > 0;
            }
            new_cost = (cost as i128 + added) as i64;
        } else {
            let cur: i64 = match store_get(&self.positions, &token) {
                Some(v) => v,
                None => 0,
            };
            if cur > 0 {
                let want: i128 = -(delta as i128);
                let sold: i128 = if want < cur as i128 { want } else { cur as i128 };
                let kept: i128 = cur as i128 - sold;
                proof {
                    assert(0 <= kept <= cur);
                    assert(0 <= cost);
                    assert((cost as int) * (kept as int) <= (cost as int) * (cur as int)) by (nonlinear_arith)
                        requires 0 <= kept <= cur, 0 <= cost;
                    assert((cost as int) * (kept as int) >= 0) by (nonlinear_arith)
                        requires 0 <= kept, 0 <= cost;
                    assert((cost as int) * (cur as int) <= 0x7fff_ffff_ffff_ffff * 0x7fff_ffff_ffff_ffff) by (nonlinear_arith)
                        requires 0 <= cost <= 0x7fff_ffff_ffff_ffff, 0 < cur <= 0x7fff_ffff_ffff_ffff;
                    assert(((cost as int) * (kept as int)) / (cur as int) <= cost) by (nonlinear_arith)
                        requires (cost as int) * (kept as int) <= (cost as int) * (cur as int), cur > 0,
                            (cost as int) * (kept as int) >= 0;
                }
                new_cost = ((cost as i128) * kept / (cur as i128)) as i64;
            } else {
                new_cost = 0;
            }
        }
        if new_cost < CENT {
            store_remove(&mut self.exposure_costs, &token);
        } else {
            store_insert(&mut self.exposure_costs, token, new_cost);
        }
        proof {
            assert(self.positions() == old(self).positions());
            assert(self.costs().dom().finite());
            assert forall|t: Id256| #[trigger] self.costs().contains_key(t) implies self.costs()[t]
                >= CENT by {
                if t != token {
                    assert(old(self).costs().contains_key(t));
                }
            }
        }
    }

    /// Records one fill of `delta` units of `token` at `price`: the cost side
    /// first, against the quantity held before the fill, then the quantity.
    pub fn apply_fill(&mut self, token: Id256, price: i64, delta: i64)
        requires
            old(self).wf(),
            price >= 0,
            old(self).cost_basis(token) + (price * delta) / (SCALE as int) <= i64::MAX,
            i64::MIN <= old(self).position(token) + delta <= i64::MAX,
        ensures
            final(self).wf(),
            final(self).positions() == store_or_drop(
                old(self).positions(),
                token,
                snap(old(self).position(token) + delta),
            ),
            final(self).costs() == (if snap(old(self).position(token) + delta) == 0 {
                old(self).costs().remove(token)
            } else if delta == 0 {
                old(self).costs()
            } else {
                store_or_drop(
                    old(self).costs(),
                    token,
                    drop_dust(
                        cost_after_fill(
                            old(self).cost_basis(token),
                            old(self).position(token),
                            price as int,
                            delta as int,
                        ),
                    ),
                )
            }),
            final(self).limit() == old(self).limit(),
            old(self).basis_consistent() ==> final(self).basis_consistent(),
    {
        self.update_exposure_cost(token, price, delta);
        self.update_position(token, delta);
        proof {
            if snap(old(self).position(token) + delta) == 0 {
                assert(self.costs() == old(self).costs().remove(token));
            }
            if old(self).basis_consistent() {
                assert forall|t: Id256| #[trigger] self.position(t) == 0 implies self.cost_basis(t)
                    == 0 by {
                    if t != token {
                        assert(old(self).position(t) == 0);
                    }
                }
            }
        }
    }

    /// The ceiling on total exposure.
    pub fn max_exposure(&self) -> (r: i64)
        ensures
            r == self.limit(),
    {
        self.max_exposure
    }

    /// Signed quantity held of `token`; zero for a flat token.
    pub fn get_position(&self, token: Id256) -> (r: i64)
        ensures
            r == self.position(token),
    {
        match store_get(&self.positions, &token) {
            Some(v) => v,
            None => 0,
        }
    }

    /// How unbalanced two holdings are: `|a - b| / (a + b)` in millionths
    /// (zero when balanced, `SCALE` when one side is empty).
    pub fn calculate_imbalance(&self, yes_token: Id256, no_token: Id256) -> (r: i128)
        ensures
            r == imbalance_ratio(self.position(yes_token), self.position(no_token)),
    {
        let yes_pos = self.get_position(yes_token) as i128;
        let no_pos = self.get_position(no_token) as i128;
        let total: i128 = yes_pos + no_pos;
        if total == 0 {
            return 0;
        }
        let diff: i128 = if yes_pos >= no_pos { yes_pos - no_pos } else { no_pos - yes_pos };
        proof {
            assert(diff * (SCALE as i128) <= 0x2_0000_0000_0000_0000 * 1_000_000) by (nonlinear_arith)
                requires 0 <= diff <= 0x2_0000_0000_0000_0000;
        }
        let num: i128 = diff * (SCALE as i128);
        if total > 0 {
            num / total
        } else {
            -(num / (-total))
        }
    }

    /// Total exposure: the sum of every cost entry, taken over a copy so that
    /// no entry stays locked while summing.
    pub fn calculate_exposure(&self) -> (r: i128)
        requires
            self.wf(),
        ensures
            r == self.exposure(),
            0 <= r <= 0xffff_ffff_ffff_ffff * 0x7fff_ffff_ffff_ffff,
    {
        let costs = store_snapshot(&self.exposure_costs);
        let ghost m = self.costs();
        let ghost f = cost_adder(m);
        let ghost mut seen: Set<Id256> = Set::empty();
        let mut sum: i128 = 0;
        let mut i: usize = 0;
        proof {
            assert(vstd::set::fold::is_fun_commutative(f));
            vstd::set::fold::lemma_fold_empty(0int, f);
        }
        while i < costs.len()
            invariant
                i <= costs@.len(),
                m == self.costs(),
                f == cost_adder(m),
                vstd::set::fold::is_fun_commutative(f),
                self.wf(),
                seen.finite(),
                forall|k: Id256| #[trigger] seen.contains(k) <==> exists|j: int| 0 <= j < i && costs@[j].0 == k,
                sum as int == seen.fold(0int, f),
                0 <= sum <= i * 0x7fff_ffff_ffff_ffff,
                forall|j: int|
                    0 <= j < costs@.len() ==> m.contains_key(#[trigger] costs@[j].0) && m[costs@[j].0]
                        == costs@[j].1,
                forall|a: int, b: int| 0 <= a < b < costs@.len() ==> costs@[a].0 != costs@[b].0,
            decreases costs.len() - i,
        {
            let (k, v) = costs[i];
            proof {
                assert(!seen.contains(k)) by {
                    if seen.contains(k) {
                        let j = choose|j: int| 0 <= j < i && costs@[j].0 == k;
                        assert(costs@[j].0 != costs@[i as int].0);
                    }
                }
                vstd::set::fold::lemma_fold_insert(seen, 0int, f, k);
                assert(m.contains_key(costs@[i as int].0));
                assert(v >= CENT);
            }
            sum = sum + v as i128;
            proof {
                let old_seen = seen;
                seen = seen.insert(k);
                assert forall|kk: Id256| #[trigger] seen.contains(kk) <==> exists|j: int|
                    0 <= j < i + 1 && costs@[j].0 == kk by {
                    if seen.contains(kk) && kk != k {
                        assert(old_seen.contains(kk));
                    }
                    if exists|j: int| 0 <= j < i + 1 && costs@[j].0 == kk {
                        let j = choose|j: int| 0 <= j < i + 1 && costs@[j].0 == kk;
                        if j < i {
                            assert(old_seen.contains(kk));
                        }
                    }
                }
            }
            i = i + 1;
        }
        proof {
            assert(sum <= 0xffff_ffff_ffff_ffff * 0x7fff_ffff_ffff_ffff) by (nonlinear_arith)
                requires sum <= i * 0x7fff_ffff_ffff_ffff, i <= 0xffff_ffff_ffff_ffff;
            assert(seen =~= m.dom()) by {
                assert forall|k: Id256| m.dom().contains(k) implies seen.contains(k) by {
                    let j = choose|j: int| 0 <= j < costs@.len() && #[trigger] costs@[j].0 == k;
                    assert(costs@[j].0 == k);
                }
            }
        }
        sum
    }

    /// Whether total exposure is within the ceiling.
    pub fn is_within_limits(&self) -> (r: bool)
        requires
            self.wf(),
        ensures
            r == (self.exposure() <= self.limit()),
    {
        self.calculate_exposure() <= self.max_exposure as i128
    }

    /// Whether a trade costing `yes_cost + no_cost` more would take total
    /// exposure above the ceiling.
    pub fn would_exceed_limit(&self, yes_cost: i64, no_cost: i64) -> (r: bool)
        requires
            self.wf(),
        ensures
            r == (self.exposure() + yes_cost + no_cost > self.limit()),
    {
        let current = self.calculate_exposure();
        current + yes_cost as i128 + no_cost as i128 > self.max_exposure as i128
    }

    /// Quantities held of the two tokens of a market.
    pub fn get_pair_positions(&self, yes_token: Id256, no_token: Id256) -> (r: (i64, i64))
        ensures
            r.0 == self.position(yes_token),
            r.1 == self.position(no_token),
    {
        (self.get_position(yes_token), self.get_position(no_token))
    }
}

} // verus!
