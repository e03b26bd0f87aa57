use fleet_federation::activity::{Activity, Disposition, EndpointError};
use fleet_federation::combat::{BattleOutcome, Winner};
use fleet_federation::fleet::Fleet;
use fleet_federation::log::{is_among, ActivityLog, InboundRecord, LogEntry};

fn message(actor: &str, object: &str, id: &str, text: &str) -> Activity {
    Activity {
        activity_type: "Message".to_string(),
        actor: actor.to_string(),
        object: object.to_string(),
        id: id.to_string(),
        content: Some(text.to_string()),
        fleet: None,
        seed: None,
    }
}

fn settled() -> Disposition {
    Disposition::Settled(BattleOutcome {
        winner: Winner::ActorWins,
        actor_fleet_after: Fleet::new(1, 0, 0),
        target_fleet_after: Fleet::new(0, 0, 0),
    })
}

#[test]
fn first_delivery_is_fresh_and_second_is_duplicate() {
    let mut log = ActivityLog::new();
    let activity = message("alice", "bob", "m-1", "hello");
    assert_eq!(log.stored("alice", "bob", "m-1"), None);
    assert_eq!(log.record_inbound(&activity, settled(), 1234), InboundRecord::Fresh);
    assert_eq!(log.len(), 1);
    assert_eq!(log.stored("alice", "bob", "m-1"), Some(settled()));
    assert_eq!(
        log.record_inbound(&activity, Disposition::Stored, 3),
        InboundRecord::Duplicate(settled())
    );
    assert_eq!(log.len(), 1);
    assert_eq!(log.stored("alice", "bob", "m-1"), Some(settled()));
    let page = log.history(&named(&["bob"]), 0, 5);
    assert_eq!(
        page.items,
        vec![LogEntry { activity, inbound: true, disposition: settled(), created_at: 1234 }]
    );
}

#[test]
fn the_key_is_sender_recipient_and_id() {
    let mut log = ActivityLog::new();
    assert_eq!(
        log.record_inbound(&message("alice", "bob", "m-1", "a"), Disposition::Stored, 3),
        InboundRecord::Fresh
    );
    assert_eq!(
        log.record_inbound(&message("carol", "bob", "m-1", "b"), settled(), 3),
        InboundRecord::Fresh
    );
    assert_eq!(
        log.record_inbound(
            &message("alice", "carol", "m-1", "c"),
            Disposition::Refused(EndpointError::ActorNotFound), 3
        ),
        InboundRecord::Fresh
    );
    assert_eq!(
        log.record_inbound(&message("alice", "bob", "m-2", "d"), Disposition::Stored, 3),
        InboundRecord::Fresh
    );
    assert_eq!(log.len(), 4);
    assert_eq!(log.stored("alice", "bob", "m-1"), Some(Disposition::Stored));
    assert_eq!(log.stored("carol", "bob", "m-1"), Some(settled()));
    assert_eq!(
        log.stored("alice", "carol", "m-1"),
        Some(Disposition::Refused(EndpointError::ActorNotFound))
    );
    assert_eq!(log.stored("bob", "alice", "m-1"), None);
    assert_eq!(log.stored("alice", "bob", "m-3"), None);
}

#[test]
fn sent_activities_do_not_count_as_deliveries() {
    let mut log = ActivityLog::new();
    let activity = message("alice", "bob", "m-1", "hello");
    log.record_outbound(&activity, 4);
    log.record_outbound(&activity, 4);
    assert_eq!(log.len(), 2);
    assert_eq!(log.stored("alice", "bob", "m-1"), None);
    assert_eq!(log.record_inbound(&activity, Disposition::Stored, 3), InboundRecord::Fresh);
    assert_eq!(log.len(), 3);
}

fn filled() -> ActivityLog {
    let mut log = ActivityLog::new();
    log.record_outbound(&message("alice", "bob", "1", "one"), 4);
    log.record_inbound(&message("carol", "dave", "2", "two"), Disposition::Stored, 3);
    log.record_inbound(&message("bob", "alice", "3", "three"), Disposition::Stored, 3);
    log.record_outbound(&message("alice", "carol", "4", "four"), 4);
    log.record_inbound(&message("dave", "bob", "5", "five"), Disposition::Stored, 3);
    log.record_outbound(&message("alice", "dave", "6", "six"), 4);
    log.record_inbound(&message("erin", "alice", "7", "seven"), Disposition::Stored, 3);
    log
}

fn named(names: &[&str]) -> Vec<String> {
    let mut owned = Vec::new();
    for name in names {
        owned.push(name.to_string());
    }
    owned
}

fn ids(items: &Vec<LogEntry>) -> Vec<String> {
    let mut found = Vec::new();
    for item in items {
        found.push(item.activity.id.clone());
    }
    found
}

#[test]
fn pages_follow_insertion_order_without_gaps_or_repeats() {
    let log = filled();
    let first = log.history(&named(&["alice"]), 0, 2);
    assert_eq!(ids(&first.items), vec!["1".to_string(), "3".to_string()]);
    assert_eq!(first.next, 3);
    let second = log.history(&named(&["alice"]), first.next, 2);
    assert_eq!(ids(&second.items), vec!["4".to_string(), "6".to_string()]);
    assert_eq!(second.next, 6);
    let third = log.history(&named(&["alice"]), second.next, 2);
    assert_eq!(ids(&third.items), vec!["7".to_string()]);
    assert_eq!(third.next, 7);
    let fourth = log.history(&named(&["alice"]), third.next, 2);
    assert!(fourth.items.is_empty());
    assert_eq!(fourth.next, 7);
}

#[test]
fn one_large_page_holds_the_whole_history() {
    let log = filled();
    let page = log.history(&named(&["alice"]), 0, 100);
    assert_eq!(
        ids(&page.items),
        vec!["1".to_string(), "3".to_string(), "4".to_string(), "6".to_string(), "7".to_string()]
    );
    assert_eq!(page.next, 7);
    assert_eq!(page.items[0].inbound, false);
    assert_eq!(page.items[0].created_at, 4);
    assert_eq!(page.items[0].disposition, Disposition::Stored);
    assert_eq!(page.items[1].inbound, true);
    assert_eq!(page.items[1].created_at, 3);
    assert_eq!(page.items[1].activity, message("bob", "alice", "3", "three"));
    let page = log.history(&named(&["dave"]), 0, 100);
    assert_eq!(ids(&page.items), vec!["2".to_string(), "5".to_string(), "6".to_string()]);
    let page = log.history(&named(&["nobody"]), 0, 100);
    assert!(page.items.is_empty());
    assert_eq!(page.next, 7);
}

#[test]
fn page_edges() {
    let log = filled();
    let page = log.history(&named(&["alice"]), 0, 0);
    assert!(page.items.is_empty());
    assert_eq!(page.next, 0);
    let page = log.history(&named(&["alice"]), 4, 0);
    assert_eq!(page.next, 4);
    let page = log.history(&named(&["alice"]), 100, 5);
    assert!(page.items.is_empty());
    assert_eq!(page.next, 7);
    let page = log.history(&named(&["alice"]), 0, 5);
    assert_eq!(page.items.len(), 5);
    assert_eq!(page.next, 7);
    let page = log.history(&named(&["bob"]), 0, 1);
    assert_eq!(ids(&page.items), vec!["1".to_string()]);
    assert_eq!(page.next, 1);
    let page = log.history(&named(&["bob"]), 1, 1);
    assert_eq!(ids(&page.items), vec!["3".to_string()]);
    assert_eq!(page.next, 3);
    let empty = ActivityLog::new();
    let page = empty.history(&named(&["alice"]), 0, 3);
    assert!(page.items.is_empty());
    assert_eq!(page.next, 0);
}

#[test]
fn history_under_several_names() {
    let mut log = filled();
    log.record_inbound(&message("alice@local", "bob@local", "8", "eight"), Disposition::Stored, 3);
    log.record_inbound(&message("zed", "alice@elsewhere", "9", "nine"), Disposition::Stored, 3);
    let page = log.history(&named(&["alice", "alice@local"]), 0, 100);
    assert_eq!(
        ids(&page.items),
        vec![
            "1".to_string(),
            "3".to_string(),
            "4".to_string(),
            "6".to_string(),
            "7".to_string(),
            "8".to_string()
        ]
    );
    assert_eq!(page.next, 9);
    let page = log.history(&named(&["bob@local"]), 0, 100);
    assert_eq!(ids(&page.items), vec!["8".to_string()]);
    let page = log.history(&named(&[]), 0, 100);
    assert!(page.items.is_empty());
    assert_eq!(page.next, 9);
}

#[test]
fn names_are_compared_whole() {
    let names = named(&["alice", "bob@local"]);
    assert!(is_among(&names, &"alice".to_string()));
    assert!(is_among(&names, &"bob@local".to_string()));
    assert!(!is_among(&names, &"bob".to_string()));
    assert!(!is_among(&names, &"alic".to_string()));
    assert!(!is_among(&names, &String::new()));
    assert!(!is_among(&named(&[]), &"alice".to_string()));
}
