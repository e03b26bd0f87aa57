//! The actor directory: qualified handles, the actors hosted on this
//! instance, and the answers to discovery queries.

use vstd::prelude::*;
use vstd::string::*;

verus! {

/// A qualified handle, `username@instance`, taken apart.
#[derive(Clone, Debug, PartialEq, Eq)]
pub struct Handle {
    pub username: String,
    pub instance: String,
}

/// The mathematical content of a [`Handle`].
pub struct HandleView {
    pub username: Seq<char>,
    pub instance: Seq<char>,
}

impl View for Handle {
    type V = HandleView;

    open spec fn view(&self) -> HandleView {
        HandleView { username: self.username@, instance: self.instance@ }
    }
}

/// The key that an actor publishes. It is stored and handed out, never used.
#[derive(Clone, Debug, PartialEq, Eq)]
pub struct PublicKey {
    pub id: String,
    pub owner: String,
    pub public_key_pem: String,
}

/// The document that describes an actor to other instances.
#[derive(Clone, Debug, PartialEq, Eq)]
pub struct Actor {
    pub id: String,
    pub actor_type: String,
    pub inbox: String,
    pub outbox: String,
    pub preferred_username: String,
    pub name: Option<String>,
    pub summary: Option<String>,
    pub public_key: Option<PublicKey>,
}

/// One link of a discovery answer.
#[derive(Clone, Debug, PartialEq, Eq)]
pub struct Link {
    pub rel: String,
    pub media_type: String,
    pub href: String,
}

/// The answer to a discovery query.
#[derive(Clone, Debug, PartialEq, Eq)]
pub struct Discovery {
    pub subject: String,
    pub links: Vec<Link>,
}

/// Where a handle leads.
#[derive(Clone, Debug, PartialEq, Eq)]
pub enum Resolution {
    /// The actor is hosted here.
    Local(Actor),
    /// The actor belongs to another instance, whose own discovery endpoint
    /// has to be asked.
    Remote(Handle),
    /// The handle is not well formed, or names nobody on this instance.
    NotFound,
}

/// The actors hosted on one instance. Its view is the set of their usernames.
pub struct Directory {
    instance: String,
    users: Vec<String>,
}

/// Whether `text` has an at sign at `index`.
pub open spec fn at_sign(text: Seq<char>, index: int) -> bool {
    0 <= index < text.len() && text[index] == '@'
}

/// Whether the at sign at `index` is the only one in `text`.
pub open spec fn sole_at_sign(text: Seq<char>, index: int) -> bool {
    at_sign(text, index) && forall|other: int| at_sign(text, other) ==> other == index
}

/// The two parts of a qualified handle: what stands before its only at sign
/// and what stands behind. A text with no at sign, or with several, is no
/// handle.
pub open spec fn handle_of(text: Seq<char>) -> Option<HandleView> {
    if exists|index: int| sole_at_sign(text, index) {
        let index = choose|index: int| sole_at_sign(text, index);
        Some(
            HandleView {
                username: text.subrange(0, index),
                instance: text.subrange(index + 1, text.len() as int),
            },
        )
    } else {
        None
    }
}

/// The handle that a discovery resource names: the resource is `acct:`
/// followed by a qualified handle.
pub open spec fn account_of(resource: Seq<char>) -> Option<HandleView> {
    if resource.len() >= 5 && resource.subrange(0, 5) == "acct:"@ {
        handle_of(resource.subrange(5, resource.len() as int))
    } else {
        None
    }
}

/// The user and the instance that a name in an activity stands for: a
/// qualified handle stands for what it says, and any other text for the
/// user of that name on the instance `home`.
pub open spec fn party_of(home: Seq<char>, text: Seq<char>) -> HandleView {
    match handle_of(text) {
        Some(parts) => parts,
        None => HandleView { username: text, instance: home },
    }
}

/// A handle written out: the username, an at sign, the instance.
pub open spec fn handle_text(handle: HandleView) -> Seq<char> {
    handle.username + seq!['@'] + handle.instance
}

/// The address of the actor document of `username` on `instance`.
pub open spec fn actor_url_of(instance: Seq<char>, username: Seq<char>) -> Seq<char> {
    "http://"@ + instance + "/actor/"@ + username
}

/// The text of an optional string.
pub open spec fn text_of(field: Option<String>) -> Option<Seq<char>> {
    match field {
        Some(text) => Some(text@),
        None => None,
    }
}

/// Whether `actor` is the document of `username` on `instance`: every
/// address in it is derived from the actor's own.
pub open spec fn is_actor_document(actor: Actor, instance: Seq<char>, username: Seq<char>) -> bool {
    &&& actor.id@ == actor_url_of(instance, username)
    &&& actor.actor_type@ == "Person"@
    &&& actor.inbox@ == actor_url_of(instance, username) + "/inbox"@
    &&& actor.outbox@ == actor_url_of(instance, username) + "/outbox"@
    &&& actor.preferred_username@ == username
    &&& text_of(actor.name) == Some(username)
    &&& actor.summary is None
    &&& match actor.public_key {
        Some(key) => {
            &&& key.id@ == actor_url_of(instance, username) + "#main-key"@
            &&& key.owner@ == actor_url_of(instance, username)
            &&& key.public_key_pem@ == "-----BEGIN PUBLIC KEY-----\n...\n-----END PUBLIC KEY-----"@
        },
        None => false,
    }
}

/// Whether `found` is the answer to a discovery query for `resource` that
/// names `account`: one link, to the actor document on the instance that
/// the resource names.
pub open spec fn is_discovery(found: Discovery, resource: Seq<char>, account: HandleView) -> bool {
    &&& found.subject@ == resource
    &&& found.links@.len() == 1
    &&& found.links@[0].rel@ == "self"@
    &&& found.links@[0].media_type@ == "application/activity+json"@
    &&& found.links@[0].href@ == actor_url_of(account.instance, account.username)
}

/// Whether `text` holds no at sign at all.
pub open spec fn is_plain(text: Seq<char>) -> bool {
    forall|index: int| !at_sign(text, index)
}

/// Takes a qualified handle apart at its only at sign.
pub fn parse_handle(text: &str) -> (parsed: Option<Handle>)
    ensures
        match parsed {
            Some(handle) => handle_of(text@) == Some(handle@),
            None => handle_of(text@) is None,
        },
{
    let length: usize = text.unicode_len();
    let mut found: Option<usize> = None;
    let mut index: usize = 0;
    while index < length
        invariant
            length == text@.len(),
            index <= length,
            match found {
                Some(place) => place < index && at_sign(text@, place as int) && forall|other: int|
                    0 <= other < index && at_sign(text@, other) ==> other == place,
                None => forall|other: int| 0 <= other < index ==> !at_sign(text@, other),
            },
        decreases length - index,
    {
        if text.get_char(index) == '@' {
            if found.is_some() {
                proof {
                    assert(at_sign(text@, index as int));
                    assert forall|any: int| !sole_at_sign(text@, any) by {}
                }
                return None;
            }
            found = Some(index);
        }
        index = index + 1;
    }
    match found {
        None => {
            proof {
                assert forall|any: int| !sole_at_sign(text@, any) by {}
            }
            None
        },
        Some(place) => {
            proof {
                assert(sole_at_sign(text@, place as int));
            }
            let username = String::from_str(text.substring_char(0, place));
            let instance = String::from_str(text.substring_char(place + 1, length));
            Some(Handle { username, instance })
        },
    }
}

impl Handle {
    /// Writes the handle out.
    pub fn text(&self) -> (written: String)
        ensures
            written@ == handle_text(self@),
    {
        proof {
            reveal_strlit("@");
        }
        let mut written = self.username.clone();
        written.append("@");
        written.append(self.instance.as_str());
        written
    }
}

/// Reads the handle out of a discovery resource.
pub fn parse_resource(resource: &str) -> (parsed: Option<Handle>)
    ensures
        match parsed {
            Some(handle) => account_of(resource@) == Some(handle@),
            None => account_of(resource@) is None,
        },
{
    let length: usize = resource.unicode_len();
    if length < 5 {
        return None;
    }
    let scheme = String::from_str(resource.substring_char(0, 5));
    if scheme == String::from_str("acct:") {
        parse_handle(resource.substring_char(5, length))
    } else {
        None
    }
}

/// Builds the address of the actor document of `username` on `instance`.
pub fn actor_url(instance: &str, username: &str) -> (url: String)
    ensures
        url@ == actor_url_of(instance@, username@),
{
    let mut url = String::from_str("http://");
    url.append(instance);
    url.append("/actor/");
    url.append(username);
    url
}

/// Appends `suffix` to a copy of `base`.
fn with_suffix(base: &String, suffix: &str) -> (joined: String)
    ensures
        joined@ == base@ + suffix@,
{
    let mut joined = base.clone();
    joined.append(suffix);
    joined
}

/// Builds the actor document of `username` on `instance`.
pub fn actor_document(instance: &str, username: &str) -> (actor: Actor)
    ensures
        is_actor_document(actor, instance@, username@),
{
    let id = actor_url(instance, username);
    let key = PublicKey {
        id: with_suffix(&id, "#main-key"),
        owner: id.clone(),
        public_key_pem: String::from_str(
            "-----BEGIN PUBLIC KEY-----\n...\n-----END PUBLIC KEY-----",
        ),
    };
    Actor {
        inbox: with_suffix(&id, "/inbox"),
        outbox: with_suffix(&id, "/outbox"),
        id,
        actor_type: String::from_str("Person"),
        preferred_username: String::from_str(username),
        name: Some(String::from_str(username)),
        summary: None,
        public_key: Some(key),
    }
}

impl Directory {
    /// The usernames hosted here.
    pub closed spec fn view(&self) -> Set<Seq<char>> {
        Set::new(|username: Seq<char>| exists|index: int| self.hosts_at(username, index))
    }

    /// Whether `index` is the place of `username`.
    pub closed spec fn hosts_at(&self, username: Seq<char>, index: int) -> bool {
        0 <= index < self.users@.len() && self.users@[index]@ == username
    }

    /// The name of this instance.
    pub closed spec fn instance(&self) -> Seq<char> {
        self.instance@
    }

    /// The directory of the instance `instance`, hosting nobody yet.
    pub fn new(instance: &str) -> (directory: Directory)
        ensures
            directory@ == Set::<Seq<char>>::empty(),
            directory.instance() == instance@,
    {
        Directory { instance: String::from_str(instance), users: Vec::new() }
    }

    /// The name of this instance.
    pub fn home(&self) -> (name: String)
        ensures
            name@ == self.instance(),
    {
        self.instance.clone()
    }

    /// The user and the instance that `text` stands for.
    pub fn locate(&self, text: &str) -> (party: Handle)
        ensures
            party@ == party_of(self.instance(), text@),
    {
        match parse_handle(text) {
            Some(parts) => parts,
            None => Handle { username: String::from_str(text), instance: self.instance.clone() },
        }
    }

    /// Whether `party` belongs to this instance.
    pub fn is_home_of(&self, party: &Handle) -> (local: bool)
        ensures
            local == (party@.instance == self.instance()),
    {
        party.instance == self.instance
    }

    /// Whether `username` is hosted here.
    pub fn hosts(&self, username: &str) -> (hosted: bool)
        ensures
            hosted == self@.contains(username@),
    {
        let name = String::from_str(username);
        let mut index: usize = 0;
        while index < self.users.len()
            invariant
                index <= self.users@.len(),
                name@ == username@,
                forall|k: int| 0 <= k < index ==> !self.hosts_at(username@, k),
            decreases self.users@.len() - index,
        {
            if self.users[index] == name {
                assert(self.hosts_at(username@, index as int));
                return true;
            }
            index = index + 1;
        }
        assert forall|k: int| !self.hosts_at(username@, k) by {}
        false
    }

    /// Hosts `username` from now on. Returns `false`, and changes nothing,
    /// for a username that is hosted already.
    pub fn provision(&mut self, username: &str) -> (added: bool)
        ensures
            added == !old(self)@.contains(username@),
            final(self)@ == old(self)@.insert(username@),
            final(self).instance() == old(self).instance(),
    {
        if self.hosts(username) {
            return false;
        }
        let ghost before = *self;
        self.users.push(String::from_str(username));
        proof {
            assert(self.hosts_at(username@, before.users@.len() as int));
            assert forall|who: Seq<char>| #[trigger] before@.contains(who) implies
                self@.contains(who) by {
                let place = choose|k: int| before.hosts_at(who, k);
                assert(self.hosts_at(who, place));
            }
            assert forall|who: Seq<char>| #[trigger] self@.contains(who) implies
                before@.insert(username@).contains(who) by {
                let place = choose|k: int| self.hosts_at(who, k);
                if place < before.users@.len() {
                    assert(before.hosts_at(who, place));
                }
            }
        }
        true
    }

    /// The actor document of a username hosted here, or `None`.
    pub fn lookup_local(&self, username: &str) -> (found: Option<Actor>)
        ensures
            match found {
                Some(actor) => self@.contains(username@) && is_actor_document(
                    actor,
                    self.instance(),
                    username@,
                ),
                None => !self@.contains(username@),
            },
    {
        if self.hosts(username) {
            Some(actor_document(self.instance.as_str(), username))
        } else {
            None
        }
    }

    /// Resolves a qualified handle: to the actor document for a handle of
    /// this instance that names a hosted user, to the handle itself for a
    /// handle of another instance.
    pub fn resolve(&self, handle: &str) -> (resolution: Resolution)
        ensures
            match resolution {
                Resolution::Local(actor) => match handle_of(handle@) {
                    Some(parts) => parts.instance == self.instance() && self@.contains(
                        parts.username,
                    ) && is_actor_document(actor, self.instance(), parts.username),
                    None => false,
                },
                Resolution::Remote(remote) => handle_of(handle@) == Some(remote@)
                    && remote@.instance != self.instance(),
                Resolution::NotFound => match handle_of(handle@) {
                    Some(parts) => parts.instance == self.instance() && !self@.contains(
                        parts.username,
                    ),
                    None => true,
                },
            },
    {
        match parse_handle(handle) {
            None => Resolution::NotFound,
            Some(parts) => {
                if parts.instance == self.instance {
                    match self.lookup_local(parts.username.as_str()) {
                        Some(actor) => Resolution::Local(actor),
                        None => Resolution::NotFound,
                    }
                } else {
                    Resolution::Remote(parts)
                }
            },
        }
    }

    /// Answers a discovery query: for a resource that names a user hosted
    /// here, one link to the actor document; for any other, `None`.
    pub fn webfinger(&self, resource: &str) -> (answer: Option<Discovery>)
        ensures
            match answer {
                Some(found) => match account_of(resource@) {
                    Some(account) => self@.contains(account.username) && is_discovery(
                        found,
                        resource@,
                        account,
                    ),
                    None => false,
                },
                None => match account_of(resource@) {
                    Some(account) => !self@.contains(account.username),
                    None => true,
                },
            },
    {
        match parse_resource(resource) {
            None => None,
            Some(account) => {
                if self.hosts(account.username.as_str()) {
                    let link = Link {
                        rel: String::from_str("self"),
                        media_type: String::from_str("application/activity+json"),
                        href: actor_url(account.instance.as_str(), account.username.as_str()),
                    };
                    let mut links: Vec<Link> = Vec::new();
                    links.push(link);
                    Some(Discovery { subject: String::from_str(resource), links })
                } else {
                    None
                }
            },
        }
    }
}

/// Reading undoes writing: a handle whose two parts hold no at sign is
/// read back, once it is written out, as it was.
pub proof fn lemma_written_handle_is_read_back(handle: HandleView)
    requires
        is_plain(handle.username),
        is_plain(handle.instance),
    ensures
        handle_of(handle_text(handle)) == Some(handle),
{
    let text = handle_text(handle);
    let middle = handle.username.len() as int;
    assert(at_sign(text, middle));
    assert forall|other: int| at_sign(text, other) implies other == middle by {
        if other < middle {
            assert(at_sign(handle.username, other));
        } else if other > middle {
            assert(at_sign(handle.instance, other - middle - 1));
        }
    }
    assert(sole_at_sign(text, middle));
    let found = choose|index: int| sole_at_sign(text, index);
    assert(found == middle);
    assert(text.subrange(0, middle) =~= handle.username);
    assert(text.subrange(middle + 1, text.len() as int) =~= handle.instance);
}

/// Writing undoes reading: the parts that a text is read as, written out,
/// are the text.
pub proof fn lemma_read_handle_is_written_back(text: Seq<char>)
    requires
        handle_of(text) is Some,
    ensures
        handle_text(handle_of(text)->Some_0) == text,
{
    let found = choose|index: int| sole_at_sign(text, index);
    assert(handle_text(handle_of(text)->Some_0) =~= text);
}

/// The names of a local user: where neither the username nor the name of
/// the instance holds an at sign, a text stands for the user `username` of
/// the instance `home` exactly when it is the bare username or the
/// qualified handle.
pub proof fn lemma_names_of_a_local_user(home: Seq<char>, username: Seq<char>, text: Seq<char>)
    requires
        is_plain(home),
        is_plain(username),
    ensures
        party_of(home, text) == (HandleView { username, instance: home }) <==> (text == username
            || text == handle_text(HandleView { username, instance: home })),
{
    let user = HandleView { username, instance: home };
    lemma_written_handle_is_read_back(user);
    if handle_of(text) is Some {
        lemma_read_handle_is_written_back(text);
        let found = choose|index: int| sole_at_sign(text, index);
        assert(at_sign(text, found));
    }
}

} // verus!
