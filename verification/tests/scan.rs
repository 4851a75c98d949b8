use utv_bot::engine::MemberState;
use utv_bot::scan::{next_page_cursor, scan, summarize_scan, ScanOutcome};

fn chars(s: &str) -> Vec<char> {
    s.chars().collect()
}

fn member(user_id: u64, name: &str, roles: Vec<u64>) -> MemberState {
    MemberState { user_id, guild_id: 20, display_name: chars(name), roles }
}

const ROLE: u64 = 777;

#[test]
fn non_admin_scan_is_denied() {
    let roster = vec![member(1, "alice", vec![]), member(2, "bob", vec![])];
    let outcome = scan(false, &roster, &vec![true, true], ROLE);
    assert!(matches!(outcome, ScanOutcome::Denied));
}

#[test]
fn admin_scan_plans_every_member() {
    let roster = vec![
        member(1, "alice", vec![]),
        member(2, "bob✓fake", vec![]),
        member(3, "carol ✓", vec![ROLE]),
    ];
    let outcome = scan(true, &roster, &vec![true, false, true], ROLE);
    let plans = match outcome {
        ScanOutcome::Planned(plans) => plans,
        ScanOutcome::Denied => panic!("an administrator scan was denied"),
    };
    assert_eq!(plans.len(), 3);
    assert_eq!(plans[0].add_role, Some(ROLE));
    assert_eq!(plans[0].rename_to, Some(chars("alice ✓")));
    assert_eq!(plans[1].add_role, None);
    assert_eq!(plans[1].rename_to, Some(chars("bob_fake")));
    assert_eq!(plans[2].add_role, None);
    assert_eq!(plans[2].rename_to, None);
}

#[test]
fn one_failure_does_not_abort_the_batch() {
    let summary = summarize_scan(&vec![true, false, true]);
    assert!(summary.completed);
    assert_eq!(summary.attempted, 3);
    assert_eq!(summary.failures, 1);
}

#[test]
fn all_failures_still_complete() {
    let summary = summarize_scan(&vec![false, false]);
    assert!(summary.completed);
    assert_eq!(summary.attempted, 2);
    assert_eq!(summary.failures, 2);
}

#[test]
fn empty_roster_summary() {
    let summary = summarize_scan(&vec![]);
    assert!(summary.completed);
    assert_eq!(summary.attempted, 0);
    assert_eq!(summary.failures, 0);
}

#[test]
fn full_page_asks_for_the_next_one() {
    let page = vec![member(4, "a", vec![]), member(9, "b", vec![])];
    assert_eq!(next_page_cursor(&page, 2), Some(9));
}

#[test]
fn short_page_ends_the_walk() {
    let page = vec![member(4, "a", vec![])];
    assert_eq!(next_page_cursor(&page, 2), None);
    assert_eq!(next_page_cursor(&vec![], 2), None);
}
