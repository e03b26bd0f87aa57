use fleet_federation::activity::{
    kind_tag, parse_kind, Activity, ActivityKind, BattleRequestActivity, BattleResultActivity,
    EndpointError, Incoming,
};
use fleet_federation::combat::{BattleOutcome, Winner};
use fleet_federation::fleet::Fleet;

fn envelope(kind: &str) -> Activity {
    Activity {
        activity_type: kind.to_string(),
        actor: "alice@north".to_string(),
        object: "bob@south".to_string(),
        id: "a-1".to_string(),
        content: None,
        fleet: None,
        seed: None,
    }
}

#[test]
fn tags_name_kinds() {
    assert_eq!(parse_kind("BattleRequest"), Some(ActivityKind::BattleRequest));
    assert_eq!(parse_kind("BattleResult"), Some(ActivityKind::BattleResult));
    assert_eq!(parse_kind("Message"), Some(ActivityKind::Message));
    assert_eq!(parse_kind("message"), None);
    assert_eq!(parse_kind("Follow"), None);
    assert_eq!(parse_kind(""), None);
    assert_eq!(parse_kind("BattleRequest "), None);
    assert_eq!(kind_tag(ActivityKind::BattleRequest), "BattleRequest");
    assert_eq!(kind_tag(ActivityKind::BattleResult), "BattleResult");
    assert_eq!(kind_tag(ActivityKind::Message), "Message");
}

#[test]
fn battle_request_needs_fleet_and_seed() {
    let mut activity = envelope("BattleRequest");
    assert_eq!(activity.classify(), Err(EndpointError::MalformedActivity));
    activity.fleet = Some(Fleet::new(1, 2, 3));
    assert_eq!(activity.classify(), Err(EndpointError::MalformedActivity));
    activity.seed = Some(9);
    assert_eq!(activity.classify(), Ok(Incoming::Battle { fleet: Fleet::new(1, 2, 3), seed: 9 }));
    activity.fleet = None;
    assert_eq!(activity.classify(), Err(EndpointError::MalformedActivity));
}

#[test]
fn message_needs_content() {
    let mut activity = envelope("Message");
    assert_eq!(activity.classify(), Err(EndpointError::MalformedActivity));
    activity.content = Some(String::new());
    assert_eq!(activity.classify(), Ok(Incoming::Note));
    activity.content = Some("hello".to_string());
    assert_eq!(activity.classify(), Ok(Incoming::Note));
}

#[test]
fn unknown_tag_is_refused_before_the_fields_are_read() {
    let mut activity = envelope("Follow");
    assert_eq!(activity.classify(), Err(EndpointError::UnknownActivityType));
    activity.fleet = Some(Fleet::new(1, 2, 3));
    activity.seed = Some(1);
    activity.content = Some("x".to_string());
    assert_eq!(activity.classify(), Err(EndpointError::UnknownActivityType));
    assert_eq!(envelope("BattleResult").classify(), Ok(Incoming::BattleNews));
}

#[test]
fn copies_are_equal() {
    let mut activity = envelope("Message");
    activity.content = Some("hello".to_string());
    activity.fleet = Some(Fleet::new(4, 5, 6));
    activity.seed = Some(u64::MAX);
    assert_eq!(activity.duplicate(), activity);
    assert_eq!(envelope("x").duplicate(), envelope("x"));
}

#[test]
fn request_travels_in_an_envelope() {
    let request = BattleRequestActivity {
        activity_type: "BattleRequest".to_string(),
        actor: "alice@north".to_string(),
        target: "bob@south".to_string(),
        fleet: Fleet::new(3, 2, 1),
        seed: 77,
    };
    let activity = request.envelope("b-9");
    let mut expected = envelope("BattleRequest");
    expected.id = "b-9".to_string();
    expected.fleet = Some(Fleet::new(3, 2, 1));
    expected.seed = Some(77);
    assert_eq!(activity, expected);
    assert_eq!(activity.classify(), Ok(Incoming::Battle { fleet: Fleet::new(3, 2, 1), seed: 77 }));
}

#[test]
fn news_goes_from_the_target_to_the_actor() {
    let outcome = BattleOutcome {
        winner: Winner::TargetWins,
        actor_fleet_after: Fleet::new(0, 0, 0),
        target_fleet_after: Fleet::new(0, 1, 0),
    };
    let news = BattleResultActivity::announce("alice@north", "bob@south", outcome);
    assert_eq!(
        news,
        BattleResultActivity {
            activity_type: "BattleResult".to_string(),
            actor: "bob@south".to_string(),
            target: "alice@north".to_string(),
            result: outcome,
        }
    );
}
