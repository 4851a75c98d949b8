//! Administrator-demanded bulk reconciliation over a guild roster: the
//! permission gate, one plan per member, and a summary that survives
//! per-member failures.

use vstd::prelude::*;
use crate::engine::MemberState;
use crate::engine::Plan;
use crate::engine::plan_matches;
use crate::engine::reconcile;

verus! {

/// What a scan request came to.
pub enum ScanOutcome {
    /// The invoker lacks administrator permission: nothing was planned, and
    /// zero platform mutations may follow.
    Denied,
    /// One reconciliation plan per roster member, in roster order.
    Planned(Vec<Plan>),
}

/// A scan's closing report: the batch always runs to completion, with
/// per-member failures counted rather than propagated.
pub struct ScanSummary {
    /// The scan reached the end of the roster.
    pub completed: bool,
    /// How many members the scan reconciled or tried to.
    pub attempted: usize,
    /// How many members' mutation calls failed.
    pub failures: usize,
}

/// How many entries of a batch result list report failure.
pub open spec fn count_failures(results: Seq<bool>) -> nat
    decreases results.len(),
{
    if results.len() == 0 {
        0
    } else {
        count_failures(results.drop_last()) + if results.last() {
            0nat
        } else {
            1nat
        }
    }
}

/// Plans a scan over a full roster. A non-administrator invoker is denied
/// outright: no plan is produced, so no platform mutation can follow. For an
/// administrator, every roster member gets a reconciliation plan — each
/// member's plan depends on that member alone, so one member's failure
/// downstream cannot starve another of its plan.
pub fn scan(
    invoker_is_admin: bool,
    members: &Vec<MemberState>,
    verified: &Vec<bool>,
    verified_role: u64,
) -> (r: ScanOutcome)
    requires
        members@.len() == verified@.len(),
    ensures
        (!invoker_is_admin ==> r is Denied),
        (invoker_is_admin ==> (r matches ScanOutcome::Planned(plans) && plans@.len()
            == members@.len() && (forall|i: int|
            0 <= i < members@.len() ==> #[trigger] plan_matches(
                plans@[i],
                members@[i].display_name@,
                members@[i].roles@,
                verified@[i],
                verified_role,
            )))),
{
    if !invoker_is_admin {
        return ScanOutcome::Denied;
    }
    let mut plans: Vec<Plan> = Vec::new();
    let mut i: usize = 0;
    while i < members.len()
        invariant
            i <= members.len(),
            members@.len() == verified@.len(),
            plans@.len() == i,
            forall|j: int|
                0 <= j < i ==> #[trigger] plan_matches(
                    plans@[j],
                    members@[j].display_name@,
                    members@[j].roles@,
                    verified@[j],
                    verified_role,
                ),
        decreases members.len() - i,
    {
        let p = reconcile(&members[i], verified[i], verified_role);
        plans.push(p);
        i = i + 1;
    }
    ScanOutcome::Planned(plans)
}

/// Folds per-member mutation results into the scan's report. Completion is
/// unconditional: failures are counted, never allowed to abort the batch.
pub fn summarize_scan(results: &Vec<bool>) -> (s: ScanSummary)
    ensures
        s.completed,
        s.attempted == results@.len(),
        s.failures == count_failures(results@),
{
    let mut failures: usize = 0;
    let mut i: usize = 0;
    while i < results.len()
        invariant
            i <= results.len(),
            failures <= i,
            failures == count_failures(results@.take(i as int)),
        decreases results.len() - i,
    {
        if !results[i] {
            failures = failures + 1;
        }
        i = i + 1;
        proof {
            assert(results@.take(i as int).drop_last() =~= results@.take(i as int - 1));
            assert(results@.take(i as int).last() == results@[i as int - 1]);
        }
    }
    proof {
        assert(results@.take(results@.len() as int) =~= results@);
    }
    ScanSummary { completed: true, attempted: results.len(), failures }
}

/// Where to start the next roster page: rosters larger than one page are
/// walked by asking for the members after the last user id seen, until a
/// short page arrives.
pub fn next_page_cursor(page: &Vec<MemberState>, page_limit: usize) -> (r: Option<u64>)
    requires
        0 < page_limit,
    ensures
        (r matches Some(id) ==> page@.len() == page_limit && id == page@.last().user_id),
        (r is None <==> page@.len() != page_limit),
{
    if page.len() == page_limit {
        Some(page[page.len() - 1].user_id)
    } else {
        None
    }
}

} // verus!
