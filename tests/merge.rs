use arb_core::amount::Id256;
use arb_core::merge::{
    condition_ids_with_both_sides, delay_before_merge, merge_follow_up, merge_interval_secs, InventoryItem,
    MergeReport, MergeStep, DELAY_BETWEEN_MERGES_SECS, RATE_LIMIT_BACKOFF_SECS,
};

fn item(c: u128, outcome_index: i32, size: i64) -> InventoryItem {
    InventoryItem { condition_id: Id256 { hi: 0, lo: c }, outcome_index, size }
}

#[test]
fn only_two_sided_markets_are_merged() {
    let items = vec![
        item(1, 0, 5),
        item(2, 0, 5),
        item(1, 1, 3),
        item(3, 1, 4),
        item(3, 0, 0),
        item(2, 0, 7),
        item(4, 1, 2),
        item(4, 0, 9),
        item(1, 0, 1),
    ];
    let ids = condition_ids_with_both_sides(&items);
    assert_eq!(ids, vec![Id256 { hi: 0, lo: 1 }, Id256 { hi: 0, lo: 4 }]);
}

#[test]
fn empty_inventory_merges_nothing() {
    assert!(condition_ids_with_both_sides(&[]).is_empty());
}

#[test]
fn rate_limit_is_retried_once() {
    assert_eq!(
        merge_follow_up(Some("rpc error: rate limit exceeded"), false),
        MergeStep::RetryAfter { secs: RATE_LIMIT_BACKOFF_SECS }
    );
    assert_eq!(
        merge_follow_up(Some("please retry in 10s"), false),
        MergeStep::RetryAfter { secs: 12 }
    );
    assert_eq!(
        merge_follow_up(Some("rate limit"), true),
        MergeStep::Finish { report: MergeReport::Failed }
    );
}

#[test]
fn merge_outcomes_are_reported() {
    assert_eq!(merge_follow_up(None, false), MergeStep::Finish { report: MergeReport::Merged });
    assert_eq!(merge_follow_up(None, true), MergeStep::Finish { report: MergeReport::Merged });
    assert_eq!(
        merge_follow_up(Some("merge failed: 无可用份额"), false),
        MergeStep::Finish { report: MergeReport::NothingToRedeem }
    );
    assert_eq!(
        merge_follow_up(Some("execution reverted"), false),
        MergeStep::Finish { report: MergeReport::Failed }
    );
}

#[test]
fn merges_are_spaced() {
    assert_eq!(delay_before_merge(0), 0);
    assert_eq!(delay_before_merge(1), DELAY_BETWEEN_MERGES_SECS);
    assert_eq!(delay_before_merge(7), 30);
    assert_eq!(merge_interval_secs(5), 300);
}
