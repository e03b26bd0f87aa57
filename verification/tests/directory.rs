use fleet_federation::directory::{
    actor_document, actor_url, parse_handle, parse_resource, Directory, Handle, Resolution,
};

fn handle(username: &str, instance: &str) -> Handle {
    Handle { username: username.to_string(), instance: instance.to_string() }
}

#[test]
fn handle_is_split_at_its_only_at_sign() {
    assert_eq!(parse_handle("alice@local"), Some(handle("alice", "local")));
    assert_eq!(parse_handle("a@b"), Some(handle("a", "b")));
    assert_eq!(parse_handle("@b"), Some(handle("", "b")));
    assert_eq!(parse_handle("a@"), Some(handle("a", "")));
    assert_eq!(parse_handle("@"), Some(handle("", "")));
    assert_eq!(parse_handle("zo\u{e9}@caf\u{e9}.example"), Some(handle("zo\u{e9}", "caf\u{e9}.example")));
}

#[test]
fn text_without_one_at_sign_is_no_handle() {
    assert_eq!(parse_handle(""), None);
    assert_eq!(parse_handle("alice"), None);
    assert_eq!(parse_handle("alice@local@remote"), None);
    assert_eq!(parse_handle("@@"), None);
    assert_eq!(parse_handle("a@b@"), None);
}

#[test]
fn resource_needs_the_account_scheme() {
    assert_eq!(parse_resource("acct:alice@local"), Some(handle("alice", "local")));
    assert_eq!(parse_resource("acct:@local"), Some(handle("", "local")));
    assert_eq!(parse_resource("alice@local"), None);
    assert_eq!(parse_resource("acct:alice"), None);
    assert_eq!(parse_resource("acct:alice@local@x"), None);
    assert_eq!(parse_resource("ACCT:alice@local"), None);
    assert_eq!(parse_resource("acct"), None);
    assert_eq!(parse_resource("acct:"), None);
    assert_eq!(parse_resource(""), None);
    assert_eq!(parse_resource("mail:alice@local"), None);
    assert_eq!(parse_resource("a@ct:alice"), None);
}

#[test]
fn actor_addresses() {
    assert_eq!(actor_url("local", "alice"), "http://local/actor/alice".to_string());
    assert_eq!(actor_url("", ""), "http:///actor/".to_string());
    let actor = actor_document("example.org", "bob");
    assert_eq!(actor.id, "http://example.org/actor/bob");
    assert_eq!(actor.actor_type, "Person");
    assert_eq!(actor.inbox, "http://example.org/actor/bob/inbox");
    assert_eq!(actor.outbox, "http://example.org/actor/bob/outbox");
    assert_eq!(actor.preferred_username, "bob");
    assert_eq!(actor.name, Some("bob".to_string()));
    assert_eq!(actor.summary, None);
    let key = actor.public_key.unwrap();
    assert_eq!(key.id, "http://example.org/actor/bob#main-key");
    assert_eq!(key.owner, "http://example.org/actor/bob");
    assert_eq!(key.public_key_pem, "-----BEGIN PUBLIC KEY-----\n...\n-----END PUBLIC KEY-----");
}

#[test]
fn provisioned_users_are_hosted() {
    let mut directory = Directory::new("local");
    assert_eq!(directory.home(), "local");
    assert!(!directory.hosts("alice"));
    assert!(directory.provision("alice"));
    assert!(directory.hosts("alice"));
    assert!(!directory.provision("alice"));
    assert!(directory.provision("bob"));
    assert!(directory.hosts("alice"));
    assert!(directory.hosts("bob"));
    assert!(!directory.hosts("carol"));
    assert!(!directory.hosts("Alice"));
    assert_eq!(directory.lookup_local("carol"), None);
    assert_eq!(directory.lookup_local("bob"), Some(actor_document("local", "bob")));
}

#[test]
fn discovery_of_a_hosted_user() {
    let mut directory = Directory::new("local");
    directory.provision("alice");
    let found = directory.webfinger("acct:alice@local").unwrap();
    assert_eq!(found.subject, "acct:alice@local");
    assert_eq!(found.links.len(), 1);
    assert_eq!(found.links[0].rel, "self");
    assert_eq!(found.links[0].media_type, "application/activity+json");
    assert_eq!(found.links[0].href, "http://local/actor/alice");
    assert!(found.links[0].href.ends_with("/actor/alice"));
}

#[test]
fn discovery_of_an_unknown_user() {
    let mut directory = Directory::new("local");
    directory.provision("alice");
    assert_eq!(directory.webfinger("acct:bob@local"), None);
    assert_eq!(directory.webfinger("alice@local"), None);
    assert_eq!(directory.webfinger("acct:alice"), None);
    assert_eq!(directory.webfinger("acct:alice@local@local"), None);
    assert_eq!(directory.webfinger(""), None);
}

#[test]
fn handles_resolve_by_their_instance() {
    let mut directory = Directory::new("local");
    directory.provision("alice");
    assert_eq!(
        directory.resolve("alice@local"),
        Resolution::Local(actor_document("local", "alice"))
    );
    assert_eq!(directory.resolve("bob@local"), Resolution::NotFound);
    assert_eq!(directory.resolve("alice"), Resolution::NotFound);
    assert_eq!(directory.resolve("a@b@c"), Resolution::NotFound);
    assert_eq!(directory.resolve("alice@remote"), Resolution::Remote(handle("alice", "remote")));
    assert_eq!(directory.resolve("zed@remote"), Resolution::Remote(handle("zed", "remote")));
}

#[test]
fn names_stand_for_parties() {
    let directory = Directory::new("local");
    assert_eq!(directory.locate("alice"), handle("alice", "local"));
    assert_eq!(directory.locate("alice@local"), handle("alice", "local"));
    assert_eq!(directory.locate("alice@remote"), handle("alice", "remote"));
    assert_eq!(directory.locate("a@b@c"), handle("a@b@c", "local"));
    assert_eq!(directory.locate(""), handle("", "local"));
    assert!(directory.is_home_of(&handle("zed", "local")));
    assert!(!directory.is_home_of(&handle("zed", "Local")));
    assert!(!directory.is_home_of(&handle("local", "remote")));
}

#[test]
fn handle_written_out() {
    assert_eq!(handle("alice", "local").text(), "alice@local");
    assert_eq!(handle("", "").text(), "@");
    assert_eq!(parse_handle(&handle("bob", "south.example").text()), Some(handle("bob", "south.example")));
}
