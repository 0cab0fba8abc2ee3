use arb_core::amount::{Id256, CENT, SCALE};
use arb_core::gate::{admit_trade, Admission};
use arb_core::ledger::PositionTracker;

fn token(n: u128) -> Id256 {
    Id256 { hi: 0, lo: n }
}

#[test]
fn buy_then_partial_sell_shrinks_cost_pro_rata() {
    let t = token(7);
    let mut ledger = PositionTracker::new(1000 * SCALE);
    ledger.update_position(t, 10 * SCALE);
    ledger.update_exposure_cost(t, 400_000, 10 * SCALE);
    assert_eq!(ledger.calculate_exposure(), 4 * SCALE as i128);
    // the sell's cost side is taken against the quantity held before the sell
    ledger.update_exposure_cost(t, 500_000, -4 * SCALE);
    ledger.update_position(t, -4 * SCALE);
    assert_eq!(ledger.calculate_exposure(), 2_400_000);
    assert_eq!(ledger.get_position(t), 6 * SCALE);
}

#[test]
fn apply_fill_matches_separate_updates() {
    let t = token(7);
    let mut ledger = PositionTracker::new(1000 * SCALE);
    ledger.apply_fill(t, 400_000, 10 * SCALE);
    ledger.apply_fill(t, 500_000, -4 * SCALE);
    assert_eq!(ledger.calculate_exposure(), 2_400_000);
    assert_eq!(ledger.get_position(t), 6 * SCALE);
}

#[test]
fn position_is_running_sum_with_snapping() {
    let t = token(1);
    let mut ledger = PositionTracker::new(SCALE);
    ledger.update_position(t, 5 * SCALE);
    ledger.update_position(t, -2 * SCALE);
    ledger.update_position(t, 250_000);
    assert_eq!(ledger.get_position(t), 3_250_000);
    // a result below 1e-4 in magnitude snaps to zero
    ledger.update_position(t, -3_249_950);
    assert_eq!(ledger.get_position(t), 0);
    // snapping happens step by step, not on the total
    ledger.update_position(t, 50);
    ledger.update_position(t, 90);
    assert_eq!(ledger.get_position(t), 0);
    ledger.update_position(t, 100);
    assert_eq!(ledger.get_position(t), 100);
}

#[test]
fn flat_position_drops_cost() {
    let t = token(3);
    let mut ledger = PositionTracker::new(1000 * SCALE);
    ledger.apply_fill(t, 450_000, 20 * SCALE);
    assert_eq!(ledger.calculate_exposure(), 9 * SCALE as i128);
    ledger.apply_fill(t, 600_000, -20 * SCALE);
    assert_eq!(ledger.get_position(t), 0);
    assert_eq!(ledger.calculate_exposure(), 0);
}

#[test]
fn update_position_to_zero_removes_cost_entry() {
    let t = token(3);
    let mut ledger = PositionTracker::new(1000 * SCALE);
    ledger.update_exposure_cost(t, 450_000, 20 * SCALE);
    ledger.update_position(t, 20 * SCALE);
    ledger.update_position(t, -20 * SCALE);
    assert_eq!(ledger.calculate_exposure(), 0);
}

#[test]
fn sell_without_long_position_clears_cost() {
    let t = token(4);
    let mut ledger = PositionTracker::new(1000 * SCALE);
    ledger.update_exposure_cost(t, 500_000, 10 * SCALE);
    ledger.update_exposure_cost(t, 500_000, -SCALE);
    assert_eq!(ledger.calculate_exposure(), 0);
}

#[test]
fn zero_delta_changes_nothing() {
    let t = token(4);
    let mut ledger = PositionTracker::new(1000 * SCALE);
    ledger.apply_fill(t, 500_000, 10 * SCALE);
    ledger.update_exposure_cost(t, 900_000, 0);
    assert_eq!(ledger.calculate_exposure(), 5 * SCALE as i128);
}

#[test]
fn cost_below_a_cent_is_dropped() {
    let t = token(5);
    let mut ledger = PositionTracker::new(1000 * SCALE);
    // 0.99 of a cent
    ledger.update_exposure_cost(t, 9_900, SCALE);
    assert_eq!(ledger.calculate_exposure(), 0);
    ledger.update_exposure_cost(t, CENT, SCALE);
    assert_eq!(ledger.calculate_exposure(), CENT as i128);
}

#[test]
fn exposure_sums_all_tokens() {
    let mut ledger = PositionTracker::new(1000 * SCALE);
    ledger.apply_fill(token(1), 400_000, 10 * SCALE);
    ledger.apply_fill(token(2), 550_000, 10 * SCALE);
    ledger.apply_fill(token(3), 100_000, 3 * SCALE);
    assert_eq!(ledger.calculate_exposure(), 9_800_000);
    assert!(ledger.is_within_limits());
}

#[test]
fn imbalance_values() {
    let (a, b) = (token(1), token(2));
    let mut ledger = PositionTracker::new(1000 * SCALE);
    assert_eq!(ledger.calculate_imbalance(a, b), 0);
    ledger.update_position(a, 30 * SCALE);
    assert_eq!(ledger.calculate_imbalance(a, b), SCALE as i128);
    ledger.update_position(b, 10 * SCALE);
    // |30 - 10| / 40 = 0.5
    assert_eq!(ledger.calculate_imbalance(a, b), 500_000);
    ledger.update_position(b, 20 * SCALE);
    assert_eq!(ledger.calculate_imbalance(a, b), 0);
    assert_eq!(ledger.get_pair_positions(a, b), (30 * SCALE, 30 * SCALE));
}

#[test]
fn imbalance_of_opposite_signs_exceeds_one() {
    let (a, b) = (token(1), token(2));
    let mut ledger = PositionTracker::new(1000 * SCALE);
    ledger.update_position(a, 10 * SCALE);
    ledger.update_position(b, -5 * SCALE);
    assert_eq!(ledger.calculate_imbalance(a, b), 3 * SCALE as i128);
}

#[test]
fn exposure_ceiling_rejects_trade() {
    let mut ledger = PositionTracker::new(1000 * SCALE);
    ledger.apply_fill(token(9), 500_000, 1900 * SCALE);
    assert_eq!(ledger.calculate_exposure(), 950 * SCALE as i128);
    assert!(ledger.would_exceed_limit(30 * SCALE, 28 * SCALE));
    assert_eq!(
        admit_trade(&ledger, 30 * SCALE, 28 * SCALE),
        Admission::Reject { current_exposure: 950 * SCALE as i128, limit: 1000 * SCALE }
    );
}

#[test]
fn exposure_ceiling_admits_trade_at_limit() {
    let mut ledger = PositionTracker::new(1000 * SCALE);
    ledger.apply_fill(token(9), 500_000, 1900 * SCALE);
    assert!(!ledger.would_exceed_limit(30 * SCALE, 20 * SCALE));
    assert_eq!(admit_trade(&ledger, 30 * SCALE, 20 * SCALE), Admission::Admit);
    assert_eq!(ledger.max_exposure(), 1000 * SCALE);
}
