use fleet_federation::fleet::Fleet;
use fleet_federation::ledger::{CommitResult, Ledger, Versioned};

fn two_users() -> Ledger {
    let mut ledger = Ledger::new();
    assert!(ledger.create("alice", Fleet::new(5, 4, 3)));
    assert!(ledger.create("bob", Fleet::new(1, 2, 3)));
    ledger
}

#[test]
fn unprovisioned_user_is_not_found() {
    let ledger = Ledger::new();
    assert_eq!(ledger.get("alice"), None);
    let ledger = two_users();
    assert_eq!(ledger.get("carol"), None);
    assert_eq!(ledger.get(""), None);
    assert_eq!(ledger.get("alic"), None);
}

#[test]
fn created_fleet_starts_at_version_zero() {
    let ledger = two_users();
    assert_eq!(ledger.get("alice"), Some(Versioned { fleet: Fleet::new(5, 4, 3), version: 0 }));
    assert_eq!(ledger.get("bob"), Some(Versioned { fleet: Fleet::new(1, 2, 3), version: 0 }));
}

#[test]
fn second_creation_keeps_the_first_fleet() {
    let mut ledger = two_users();
    assert!(!ledger.create("alice", Fleet::new(9, 9, 9)));
    assert_eq!(ledger.get("alice"), Some(Versioned { fleet: Fleet::new(5, 4, 3), version: 0 }));
}

#[test]
fn battle_commit_writes_both_rows() {
    let mut ledger = two_users();
    let result = ledger.commit_battle("alice", Fleet::new(2, 0, 0), "bob", Fleet::new(0, 0, 0), 0, 0);
    assert_eq!(result, CommitResult::Committed);
    assert_eq!(ledger.get("alice"), Some(Versioned { fleet: Fleet::new(2, 0, 0), version: 1 }));
    assert_eq!(ledger.get("bob"), Some(Versioned { fleet: Fleet::new(0, 0, 0), version: 1 }));
}

#[test]
fn stale_version_is_a_conflict_and_writes_nothing() {
    let mut ledger = two_users();
    let result = ledger.commit_battle("alice", Fleet::new(2, 0, 0), "bob", Fleet::new(0, 0, 0), 0, 1);
    assert_eq!(result, CommitResult::Conflict);
    let result = ledger.commit_battle("alice", Fleet::new(2, 0, 0), "bob", Fleet::new(0, 0, 0), 7, 0);
    assert_eq!(result, CommitResult::Conflict);
    assert_eq!(ledger.get("alice"), Some(Versioned { fleet: Fleet::new(5, 4, 3), version: 0 }));
    assert_eq!(ledger.get("bob"), Some(Versioned { fleet: Fleet::new(1, 2, 3), version: 0 }));
}

#[test]
fn absent_user_counts_before_a_conflict() {
    let mut ledger = two_users();
    let result = ledger.commit_battle("alice", Fleet::new(2, 0, 0), "carol", Fleet::new(0, 0, 0), 5, 0);
    assert_eq!(result, CommitResult::NotFound);
    let result = ledger.commit_battle("carol", Fleet::new(2, 0, 0), "bob", Fleet::new(0, 0, 0), 0, 0);
    assert_eq!(result, CommitResult::NotFound);
    assert_eq!(ledger.get("alice"), Some(Versioned { fleet: Fleet::new(5, 4, 3), version: 0 }));
    assert_eq!(ledger.get("bob"), Some(Versioned { fleet: Fleet::new(1, 2, 3), version: 0 }));
}

#[test]
fn two_commits_with_one_expected_version() {
    let mut ledger = two_users();
    assert!(ledger.create("carol", Fleet::new(7, 7, 7)));
    let first = ledger.commit_battle("alice", Fleet::new(4, 0, 0), "bob", Fleet::new(0, 1, 0), 0, 0);
    let second = ledger.commit_battle("carol", Fleet::new(6, 0, 0), "bob", Fleet::new(0, 0, 2), 0, 0);
    assert_eq!(first, CommitResult::Committed);
    assert_eq!(second, CommitResult::Conflict);
    assert_eq!(ledger.get("bob"), Some(Versioned { fleet: Fleet::new(0, 1, 0), version: 1 }));
    assert_eq!(ledger.get("carol"), Some(Versioned { fleet: Fleet::new(7, 7, 7), version: 0 }));
    let again = ledger.commit_battle("carol", Fleet::new(6, 0, 0), "bob", Fleet::new(0, 0, 2), 0, 1);
    assert_eq!(again, CommitResult::Committed);
    assert_eq!(ledger.get("bob"), Some(Versioned { fleet: Fleet::new(0, 0, 2), version: 2 }));
    assert_eq!(ledger.get("carol"), Some(Versioned { fleet: Fleet::new(6, 0, 0), version: 1 }));
}

#[test]
fn single_fleet_commit() {
    let mut ledger = two_users();
    assert_eq!(ledger.commit_fleet("carol", Fleet::new(1, 1, 1), 0), CommitResult::NotFound);
    assert_eq!(ledger.commit_fleet("bob", Fleet::new(1, 1, 1), 3), CommitResult::Conflict);
    assert_eq!(ledger.get("bob"), Some(Versioned { fleet: Fleet::new(1, 2, 3), version: 0 }));
    assert_eq!(ledger.commit_fleet("bob", Fleet::new(1, 1, 1), 0), CommitResult::Committed);
    assert_eq!(ledger.get("bob"), Some(Versioned { fleet: Fleet::new(1, 1, 1), version: 1 }));
    assert_eq!(ledger.commit_fleet("bob", Fleet::new(0, 0, 0), 0), CommitResult::Conflict);
    assert_eq!(ledger.get("alice"), Some(Versioned { fleet: Fleet::new(5, 4, 3), version: 0 }));
}

#[test]
fn battle_against_oneself_keeps_the_second_fleet() {
    let mut ledger = two_users();
    let result = ledger.commit_battle("alice", Fleet::new(2, 0, 0), "alice", Fleet::new(0, 0, 1), 0, 0);
    assert_eq!(result, CommitResult::Committed);
    assert_eq!(ledger.get("alice"), Some(Versioned { fleet: Fleet::new(0, 0, 1), version: 1 }));
}

#[test]
fn restored_row_keeps_its_version() {
    let mut ledger = Ledger::new();
    let entry = Versioned { fleet: Fleet::new(3, 2, 1), version: 17 };
    assert!(ledger.restore("alice", entry));
    assert_eq!(ledger.get("alice"), Some(entry));
    assert!(!ledger.restore("alice", Versioned { fleet: Fleet::new(0, 0, 0), version: 0 }));
    assert_eq!(ledger.get("alice"), Some(entry));
    assert_eq!(ledger.commit_fleet("alice", Fleet::new(1, 1, 1), 17), CommitResult::Committed);
    assert_eq!(ledger.get("alice"), Some(Versioned { fleet: Fleet::new(1, 1, 1), version: 18 }));
}

#[test]
fn last_version_cannot_be_written_over() {
    let mut ledger = two_users();
    let worn = Versioned { fleet: Fleet::new(3, 2, 1), version: u64::MAX };
    assert!(ledger.restore("carol", worn));
    assert_eq!(ledger.commit_fleet("carol", Fleet::new(1, 1, 1), u64::MAX), CommitResult::Exhausted);
    assert_eq!(ledger.commit_fleet("carol", Fleet::new(1, 1, 1), 0), CommitResult::Conflict);
    assert_eq!(
        ledger.commit_battle("alice", Fleet::new(0, 0, 0), "carol", Fleet::new(1, 1, 1), 0, u64::MAX),
        CommitResult::Exhausted
    );
    assert_eq!(
        ledger.commit_battle("carol", Fleet::new(0, 0, 0), "alice", Fleet::new(1, 1, 1), u64::MAX, 0),
        CommitResult::Exhausted
    );
    assert_eq!(
        ledger.commit_battle("carol", Fleet::new(0, 0, 0), "alice", Fleet::new(1, 1, 1), u64::MAX, 4),
        CommitResult::Conflict
    );
    assert_eq!(ledger.get("carol"), Some(worn));
    assert_eq!(ledger.get("alice"), Some(Versioned { fleet: Fleet::new(5, 4, 3), version: 0 }));
}
