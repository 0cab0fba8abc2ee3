//! Decisions of the periodic merge task: which markets hold both outcomes and
//! can be redeemed, how long to wait between merges, and what a failed merge
//! calls for. The task itself (fetching inventory, merging, sleeping) runs
//! outside the library and hands the results back here.
use vstd::prelude::*;
use crate::amount::Id256;

verus! {

/// Seconds between two merges of one cycle.
pub const DELAY_BETWEEN_MERGES_SECS: u64 = 30;

/// Seconds to wait before the single retry of a rate-limited merge; longer
/// than the ten seconds that the upstream asks for.
pub const RATE_LIMIT_BACKOFF_SECS: u64 = 12;


/// One line of an inventory snapshot.
#[derive(Clone, Copy, Debug, PartialEq, Eq, Structural)]
pub struct InventoryItem {
    pub condition_id: Id256,
    pub outcome_index: i32,
    pub size: i64,
}

/// Whether `items` holds a strictly positive quantity of outcome `side` of market `c`.
pub open spec fn holds_side(items: Seq<InventoryItem>, c: Id256, side: i32) -> bool {
    exists|i: int|
        0 <= i < items.len() && (#[trigger] items[i]).condition_id == c && items[i].outcome_index
            == side && items[i].size > 0
}

/// Whether both outcomes of market `c` are held, so that pairs can be merged.
pub open spec fn mergeable(items: Seq<InventoryItem>, c: Id256) -> bool {
    holds_side(items, c, 0) && holds_side(items, c, 1)
}

fn holds(items: &[InventoryItem], c: Id256, side: i32) -> (r: bool)
    ensures
        r == holds_side(items@, c, side),
{
    let mut i: usize = 0;
    while i < items.len()
        invariant
            i <= items@.len(),
            forall|j: int|
                0 <= j < i ==> !((#[trigger] items@[j]).condition_id == c && items@[j].outcome_index
                    == side && items@[j].size > 0),
        decreases items.len() - i,
    {
        if items[i].condition_id == c && items[i].outcome_index == side && items[i].size > 0 {
            return true;
        }
        i = i + 1;
    }
    false
}

fn contains_id(ids: &Vec<Id256>, c: Id256) -> (r: bool)
    ensures
        r == ids@.contains(c),
{
    let mut i: usize = 0;
    while i < ids.len()
        invariant
            i <= ids@.len(),
            forall|j: int| 0 <= j < i ==> ids@[j] != c,
        decreases ids.len() - i,
    {
        if ids[i] == c {
            return true;
        }
        i = i + 1;
    }
    false
}

/// The markets of an inventory snapshot that hold a positive quantity of both
/// outcomes, each once, in order of first appearance. Single-sided holdings
/// are left out: there is nothing to merge.
pub fn condition_ids_with_both_sides(positions: &[InventoryItem]) -> (r: Vec<Id256>)
    ensures
        forall|c: Id256| r@.contains(c) <==> mergeable(positions@, c),
        r@.no_duplicates(),
{
    let mut out: Vec<Id256> = Vec::new();
    let mut i: usize = 0;
    while i < positions.len()
        invariant
            i <= positions@.len(),
            out@.no_duplicates(),
            forall|c: Id256| out@.contains(c) ==> mergeable(positions@, c),
            forall|j: int|
                0 <= j < i && (#[trigger] positions@[j]).size > 0 && mergeable(positions@, positions@[j].condition_id)
                    ==> out@.contains(positions@[j].condition_id),
        decreases positions.len() - i,
    {
        let c = positions[i].condition_id;
        if positions[i].size > 0 && !contains_id(&out, c) && holds(positions, c, 0) && holds(positions, c, 1) {
            let ghost prev = out@;
            out.push(c);
            proof {
                assert(out@ == prev.push(c));
                assert(!prev.contains(c));
                assert forall|j: int, k: int| 0 <= j < k < out@.len() implies out@[j] != out@[k] by {
                    if k == out@.len() - 1 {
                        assert(out@[j] == prev[j]);
                    } else {
                        assert(prev[j] != prev[k]);
                    }
                }
                assert forall|cc: Id256| out@.contains(cc) implies mergeable(positions@, cc) by {
                    if cc != c {
                        let k = choose|k: int| 0 <= k < out@.len() && out@[k] == cc;
                        assert(prev[k] == cc);
                        assert(prev.contains(cc));
                    }
                }
                assert forall|j: int|
                    0 <= j < i + 1 && (#[trigger] positions@[j]).size > 0 && mergeable(positions@, positions@[j].condition_id)
                        implies out@.contains(positions@[j].condition_id) by {
                    if j < i {
                        assert(prev.contains(positions@[j].condition_id));
                        let k = choose|k: int| 0 <= k < prev.len() && prev[k] == positions@[j].condition_id;
                        assert(out@[k] == prev[k]);
                    } else {
                        assert(out@[out@.len() - 1] == c);
                    }
                }
            }
        }
        i = i + 1;
    }
    proof {
        assert forall|c: Id256| mergeable(positions@, c) implies out@.contains(c) by {
            let j = choose|j: int|
                0 <= j < positions@.len() && (#[trigger] positions@[j]).condition_id == c && positions@[j].outcome_index
                    == 0 && positions@[j].size > 0;
            assert(positions@[j].size > 0);
        }
    }
    out
}

/// Whether `p` occurs in `s`.
pub open spec fn occurs_in(p: Seq<char>, s: Seq<char>) -> bool {
    exists|i: int| 0 <= i <= s.len() - p.len() && #[trigger] s.subrange(i, i + p.len()) == p
}

/// Relies on `str::contains`: whether `pat` occurs in `s`.
#[verifier::external_body]
fn str_contains(s: &str, pat: &str) -> (r: bool)
    ensures
        r == occurs_in(pat@, s@),
{
    s.contains(pat)
}

/// Whether a merge error says that the upstream rate limit was hit.
pub open spec fn rate_limited(msg: Seq<char>) -> bool {
    occurs_in("rate limit"@, msg) || occurs_in("retry in"@, msg)
}

/// Whether a merge error says that there was nothing to redeem.
pub open spec fn nothing_to_redeem(msg: Seq<char>) -> bool {
    occurs_in("无可用份额"@, msg)
}

/// How a finished merge attempt is reported.
#[derive(Clone, Copy, Debug, PartialEq, Eq, Structural)]
pub enum MergeReport {
    /// The merge went through.
    Merged,
    /// Nothing to redeem: expected, reported quietly.
    NothingToRedeem,
    /// Any other failure: reported as a warning; the cycle goes on.
    Failed,
}

/// What to do after one merge attempt on a market.
#[derive(Clone, Copy, Debug, PartialEq, Eq, Structural)]
pub enum MergeStep {
    /// Done with this market; report the outcome and go on to the next.
    Finish { report: MergeReport },
    /// Wait `secs` seconds and attempt this market once more.
    RetryAfter { secs: u64 },
}

/// The step after an attempt that failed with `msg` (or succeeded, when
/// `msg` is `None`); `retried` tells whether the attempt was the retry.
pub open spec fn next_step(msg: Option<Seq<char>>, retried: bool) -> MergeStep {
    match msg {
        None => MergeStep::Finish { report: MergeReport::Merged },
        Some(m) => if !retried && rate_limited(m) {
            MergeStep::RetryAfter { secs: RATE_LIMIT_BACKOFF_SECS }
        } else if nothing_to_redeem(m) {
            MergeStep::Finish { report: MergeReport::NothingToRedeem }
        } else {
            MergeStep::Finish { report: MergeReport::Failed }
        },
    }
}

/// Decides what follows a merge attempt: a rate-limited first attempt is
/// retried once after the backoff; a rate-limited retry, like any other
/// failure, ends the market's turn until the next cycle.
pub fn merge_follow_up(error: Option<&str>, retried: bool) -> (r: MergeStep)
    ensures
        r == next_step(
            match error {
                None => None,
                Some(m) => Some(m@),
            },
            retried,
        ),
{
    match error {
        None => MergeStep::Finish { report: MergeReport::Merged },
        Some(m) => {
            if !retried && (str_contains(m, "rate limit") || str_contains(m, "retry in")) {
                MergeStep::RetryAfter { secs: RATE_LIMIT_BACKOFF_SECS }
            } else if str_contains(m, "无可用份额") {
                MergeStep::Finish { report: MergeReport::NothingToRedeem }
            } else {
                MergeStep::Finish { report: MergeReport::Failed }
            }
        },
    }
}

/// Seconds to wait before the merge at position `index` of a cycle: none
/// before the first, a fixed delay before every other.
pub fn delay_before_merge(index: usize) -> (r: u64)
    ensures
        r == (if index == 0 { 0 } else { DELAY_BETWEEN_MERGES_SECS }),
{
    if index == 0 { 0 } else { DELAY_BETWEEN_MERGES_SECS }
}

/// Seconds between two cycles of the merge task.
pub fn merge_interval_secs(interval_minutes: u64) -> (r: u64)
    requires
        interval_minutes * 60 <= u64::MAX,
    ensures
        r == interval_minutes * 60,
{
    interval_minutes * 60
}

} // verus!
