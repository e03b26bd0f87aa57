//! The federation endpoint of one instance: it takes the activities that
//! are delivered to an inbox, settles the battles they ask for against the
//! ledger, records them in the log, and answers.

use crate::activity::{classified, Activity, ActivityView, Disposition, EndpointError, Incoming};
use crate::activity::{BattleRequest, BattleRequestActivity, BattleResponse, BattleResultActivity};
use crate::combat::{is_outcome, simulate_battle, BattleOutcome};
use crate::directory::{account_of, actor_url_of, handle_text, party_of};
use crate::directory::{is_actor_document, is_discovery};
use crate::directory::{actor_url, Actor, Directory, Discovery, Handle, HandleView};
use crate::dispatch::{next_commit_step, CommitStep, MAX_COMMIT_RETRIES};
use crate::fleet::Fleet;
use crate::ledger::{next_version, CommitResult, Ledger, Versioned};
use crate::log::{history_of, page_ends_at, stored_disposition, texts_of, token_position};
use crate::log::{views_of, ActivityLog, EntryView, Page};
use vstd::prelude::*;
use vstd::string::*;

verus! {

/// A request to provision a user with a fleet.
#[derive(Clone, Debug, PartialEq, Eq)]
pub struct FleetRequest {
    pub username: String,
    pub ships: u32,
    pub fighters: u32,
    pub bombers: u32,
}

/// The news of a settled battle, ready to be sent to the actor's instance.
#[derive(Clone, Debug, PartialEq, Eq)]
pub struct Notice {
    pub news: BattleResultActivity,
    /// The id that the news travels under.
    pub id: String,
    /// The address of the inbox to send it to.
    pub inbox: String,
}

/// The answer to a delivery.
#[derive(Clone, Debug, PartialEq, Eq)]
pub struct Receipt {
    /// What was concluded for the activity.
    pub disposition: Disposition,
    /// The news that is owed, where the battle was settled just now and
    /// the actor belongs to another instance.
    pub notify: Option<Notice>,
}

/// A battle request that is ready to be sent.
#[derive(Clone, Debug, PartialEq, Eq)]
pub struct Outgoing {
    pub activity: Activity,
    /// The address of the inbox to send it to.
    pub inbox: String,
}

/// One instance: its directory, its ledger and its log.
pub struct Instance {
    pub directory: Directory,
    pub ledger: Ledger,
    pub log: ActivityLog,
}

/// The mathematical content of an [`Instance`].
pub struct InstanceView {
    pub home: Seq<char>,
    pub users: Set<Seq<char>>,
    pub rows: Map<Seq<char>, Versioned>,
    pub entries: Seq<EntryView>,
}

impl View for Instance {
    type V = InstanceView;

    open spec fn view(&self) -> InstanceView {
        InstanceView {
            home: self.directory.instance(),
            users: self.directory@,
            rows: self.ledger@,
            entries: self.log@,
        }
    }
}

/// Why a battle cannot be settled, if it cannot: the target is not of this
/// instance, a participant whose fleet is read here has none, or a version
/// counter has no successor.
pub open spec fn battle_blocked(
    rows: Map<Seq<char>, Versioned>,
    home: Seq<char>,
    actor: HandleView,
    target: HandleView,
) -> Option<EndpointError> {
    if target.instance != home || !rows.contains_key(target.username) || (actor.instance == home
        && !rows.contains_key(actor.username)) {
        Some(EndpointError::ActorNotFound)
    } else if rows[target.username].version == u64::MAX || (actor.instance == home
        && rows[actor.username].version == u64::MAX) {
        Some(EndpointError::StorageFailure)
    } else {
        None
    }
}

/// The fleet that the actor enters the battle with: the one that travelled
/// with the request for an actor of another instance, the one in the ledger
/// for an actor of this one.
pub open spec fn fielded_fleet(
    rows: Map<Seq<char>, Versioned>,
    home: Seq<char>,
    actor: HandleView,
    carried: Fleet,
) -> Fleet {
    if actor.instance != home {
        carried
    } else {
        rows[actor.username].fleet
    }
}

/// The ledger after a settled battle: the target's row, and the row of an
/// actor of this instance, hold what the battle left, one version later.
pub open spec fn rows_after_battle(
    rows: Map<Seq<char>, Versioned>,
    home: Seq<char>,
    actor: HandleView,
    target: HandleView,
    outcome: BattleOutcome,
) -> Map<Seq<char>, Versioned> {
    let target_row = Versioned {
        fleet: outcome.target_fleet_after,
        version: next_version(rows[target.username].version),
    };
    if actor.instance != home {
        rows.insert(target.username, target_row)
    } else {
        rows.insert(
            actor.username,
            Versioned {
                fleet: outcome.actor_fleet_after,
                version: next_version(rows[actor.username].version),
            },
        ).insert(target.username, target_row)
    }
}

/// Whether `verdict` and `after` are what settling a battle on `rows` gives:
/// a blocked battle fails with its reason and writes nothing, any other is
/// resolved under `seed` and written.
pub open spec fn is_settlement(
    rows: Map<Seq<char>, Versioned>,
    home: Seq<char>,
    actor: HandleView,
    target: HandleView,
    carried: Fleet,
    seed: u64,
    verdict: Result<BattleOutcome, EndpointError>,
    after: Map<Seq<char>, Versioned>,
) -> bool {
    match battle_blocked(rows, home, actor, target) {
        Some(reason) => verdict == Err::<BattleOutcome, EndpointError>(reason) && after == rows,
        None => match verdict {
            Ok(outcome) => is_outcome(
                fielded_fleet(rows, home, actor, carried),
                rows[target.username].fleet,
                seed,
                outcome,
            ) && after == rows_after_battle(rows, home, actor, target, outcome),
            Err(_) => false,
        },
    }
}

/// The verdict of a settlement that a disposition stands for, if it stands
/// for one.
pub open spec fn verdict_of(disposition: Disposition) -> Option<
    Result<BattleOutcome, EndpointError>,
> {
    match disposition {
        Disposition::Stored => None,
        Disposition::Settled(outcome) => Some(Ok(outcome)),
        Disposition::Refused(reason) => Some(Err(reason)),
    }
}

/// The verdict of a settlement that the answer to a direct battle stands for.
pub open spec fn verdict_behind(answer: Result<BattleResponse, EndpointError>) -> Result<
    BattleOutcome,
    EndpointError,
> {
    match answer {
        Ok(response) => Ok(
            BattleOutcome {
                winner: response.winner,
                actor_fleet_after: response.player_a_remaining,
                target_fleet_after: response.player_b_remaining,
            },
        ),
        Err(reason) => Err(reason),
    }
}

/// Whether a delivery that was concluded with `disposition` is recorded. A
/// failure of the ledger is not, so that the same delivery can be tried again.
pub open spec fn is_recorded(disposition: Disposition) -> bool {
    match disposition {
        Disposition::Stored => true,
        Disposition::Settled(_) => true,
        Disposition::Refused(reason) => reason == EndpointError::ActorNotFound,
    }
}

/// The entries after a fresh delivery was concluded with `disposition`.
pub open spec fn entries_after(
    entries: Seq<EntryView>,
    activity: ActivityView,
    disposition: Disposition,
    now: u64,
) -> Seq<EntryView> {
    if is_recorded(disposition) {
        entries.push(EntryView { activity, inbound: true, disposition, created_at: now })
    } else {
        entries
    }
}

/// Whether `after` and `disposition` are what the delivery of `activity` to
/// the instance `before` at the time `now` gives. An activity that does not classify is
/// refused and leaves no trace. One that was recorded before is answered as
/// it was then and changes nothing. A fresh battle request is settled
/// between the parties that its sender and its recipient stand for, any
/// other fresh activity is stored.
pub open spec fn is_delivery_handled(
    before: InstanceView,
    activity: ActivityView,
    now: u64,
    after: InstanceView,
    disposition: Disposition,
) -> bool {
    &&& after.home == before.home
    &&& after.users == before.users
    &&& match classified(activity) {
        Err(reason) => disposition == Disposition::Refused(reason) && after == before,
        Ok(incoming) => match stored_disposition(
            before.entries,
            activity.actor,
            activity.object,
            activity.id,
        ) {
            Some(earlier) => disposition == earlier && after == before,
            None => {
                &&& after.entries == entries_after(before.entries, activity, disposition, now)
                &&& match incoming {
                    Incoming::Battle { fleet, seed } => match verdict_of(disposition) {
                        Some(verdict) => is_settlement(
                            before.rows,
                            before.home,
                            party_of(before.home, activity.actor),
                            party_of(before.home, activity.object),
                            fleet,
                            seed,
                            verdict,
                            after.rows,
                        ),
                        None => false,
                    },
                    _ => disposition == Disposition::Stored && after.rows == before.rows,
                }
            },
        },
    }
}

/// Whether `notify` is the news that a delivery owes: the outcome, sent in
/// the target's name to the inbox of the actor, under the id of the request
/// followed by `/result`, exactly where a fresh battle request of an actor
/// of another instance was settled.
pub open spec fn is_notification(
    before: InstanceView,
    activity: ActivityView,
    disposition: Disposition,
    notify: Option<Notice>,
) -> bool {
    let owed = classified(activity) is Ok && stored_disposition(
        before.entries,
        activity.actor,
        activity.object,
        activity.id,
    ) is None && disposition is Settled && party_of(before.home, activity.actor).instance
        != before.home;
    match notify {
        Some(notice) => {
            &&& owed
            &&& notice.news.activity_type@ == "BattleResult"@
            &&& notice.news.actor@ == handle_text(party_of(before.home, activity.object))
            &&& notice.news.target@ == activity.actor
            &&& Disposition::Settled(notice.news.result) == disposition
            &&& notice.id@ == activity.id + "/result"@
            &&& notice.inbox@ == actor_url_of(
                party_of(before.home, activity.actor).instance,
                party_of(before.home, activity.actor).username,
            ) + "/inbox"@
        },
        None => !owed,
    }
}

/// The names under which the log may hold the user `username` of the
/// instance `home`: the bare name and the qualified handle.
pub open spec fn names_of(home: Seq<char>, username: Seq<char>) -> Seq<Seq<char>> {
    seq![username, handle_text(HandleView { username, instance: home })]
}

/// The status that an answer travels with: 200 for what was accepted, 400
/// for what the sender got wrong, 500 for what failed here.
pub open spec fn status_of(disposition: Disposition) -> u16 {
    match disposition {
        Disposition::Stored => 200,
        Disposition::Settled(_) => 200,
        Disposition::Refused(reason) => match reason {
            EndpointError::MalformedActivity => 400,
            EndpointError::UnknownActivityType => 400,
            EndpointError::ActorNotFound => 400,
            _ => 500,
        },
    }
}

/// The address of the inbox of `party` on its instance.
pub fn inbox_url(party: &Handle) -> (address: String)
    ensures
        address@ == actor_url_of(party@.instance, party@.username) + "/inbox"@,
{
    let mut address = actor_url(party.instance.as_str(), party.username.as_str());
    address.append("/inbox");
    address
}

/// The status that an answer travels with.
pub fn response_status(disposition: Disposition) -> (status: u16)
    ensures
        status == status_of(disposition),
{
    match disposition {
        Disposition::Stored => 200,
        Disposition::Settled(_) => 200,
        Disposition::Refused(reason) => match reason {
            EndpointError::MalformedActivity => 400,
            EndpointError::UnknownActivityType => 400,
            EndpointError::ActorNotFound => 400,
            _ => 500,
        },
    }
}

impl Instance {
    /// The ledger's own invariant.
    pub open spec fn wf(&self) -> bool {
        self.ledger.wf()
    }

    /// The instance named `home`, with nobody hosted, no fleet and an empty log.
    pub fn new(home: &str) -> (instance: Instance)
        ensures
            instance.wf(),
            instance@.home == home@,
            instance@.users == Set::<Seq<char>>::empty(),
            instance@.rows == Map::<Seq<char>, Versioned>::empty(),
            instance@.entries == Seq::<EntryView>::empty(),
    {
        Instance { directory: Directory::new(home), ledger: Ledger::new(), log: ActivityLog::new() }
    }

    /// One attempt at a settlement: reads the fleets, resolves the battle and
    /// writes what it left, on condition that the versions are still the
    /// ones that were read. With the instance in one hand from the read to
    /// the write, the answer is never a conflict.
    fn attempt(
        &mut self,
        actor: &Handle,
        target: &Handle,
        carried: Fleet,
        seed: u64,
    ) -> (tried: (CommitResult, Option<BattleOutcome>))
        requires
            old(self).wf(),
        ensures
            final(self).wf(),
            final(self).directory == old(self).directory,
            final(self).log == old(self).log,
            tried.0 != CommitResult::Conflict,
            match tried.0 {
                CommitResult::Committed => match tried.1 {
                    Some(outcome) => is_settlement(
                        old(self)@.rows,
                        old(self)@.home,
                        actor@,
                        target@,
                        carried,
                        seed,
                        Ok(outcome),
                        final(self)@.rows,
                    ),
                    None => false,
                },
                CommitResult::NotFound => is_settlement(
                    old(self)@.rows,
                    old(self)@.home,
                    actor@,
                    target@,
                    carried,
                    seed,
                    Err(EndpointError::ActorNotFound),
                    final(self)@.rows,
                ),
                _ => is_settlement(
                    old(self)@.rows,
                    old(self)@.home,
                    actor@,
                    target@,
                    carried,
                    seed,
                    Err(EndpointError::StorageFailure),
                    final(self)@.rows,
                ),
            },
    {
        if !self.directory.is_home_of(target) {
            return (CommitResult::NotFound, None);
        }
        let target_name = target.username.as_str();
        let target_row = match self.ledger.get(target_name) {
            Some(row) => row,
            None => {
                return (CommitResult::NotFound, None);
            },
        };
        if !self.directory.is_home_of(actor) {
            let outcome = simulate_battle(carried, target_row.fleet, seed);
            let result = self.ledger.commit_fleet(
                target_name,
                outcome.target_fleet_after,
                target_row.version,
            );
            (result, Some(outcome))
        } else {
            let actor_name = actor.username.as_str();
            let actor_row = match self.ledger.get(actor_name) {
                Some(row) => row,
                None => {
                    return (CommitResult::NotFound, None);
                },
            };
            let outcome = simulate_battle(actor_row.fleet, target_row.fleet, seed);
            let result = self.ledger.commit_battle(
                actor_name,
                outcome.actor_fleet_after,
                target_name,
                outcome.target_fleet_after,
                actor_row.version,
                target_row.version,
            );
            (result, Some(outcome))
        }
    }

    /// Settles a battle: attempts are made until one is not answered with a
    /// conflict, or the retries are used up. Every attempt reads the fleets
    /// afresh and resolves under the same seed.
    fn settle(
        &mut self,
        actor: &Handle,
        target: &Handle,
        carried: Fleet,
        seed: u64,
    ) -> (verdict: Result<BattleOutcome, EndpointError>)
        requires
            old(self).wf(),
        ensures
            final(self).wf(),
            final(self).directory == old(self).directory,
            final(self).log == old(self).log,
            is_settlement(
                old(self)@.rows,
                old(self)@.home,
                actor@,
                target@,
                carried,
                seed,
                verdict,
                final(self)@.rows,
            ),
    {
        let ghost start = *self;
        let mut retries_made: u32 = 0;
        loop
            invariant
                *self == start,
                start == *old(self),
                self.wf(),
                retries_made <= MAX_COMMIT_RETRIES,
            decreases MAX_COMMIT_RETRIES - retries_made,
        {
            let tried = self.attempt(actor, target, carried, seed);
            match next_commit_step(tried.0, retries_made) {
                CommitStep::Done => {
                    return Ok(tried.1.unwrap());
                },
                CommitStep::Failed(reason) => {
                    return Err(reason);
                },
                CommitStep::Retry => {
                    retries_made = retries_made + 1;
                },
            }
        }
    }

    /// Settles the battle that a request asks for. The target's fleet is
    /// read from the ledger, and so is the fleet of an actor of this
    /// instance; an actor of another instance fights with the fleet that
    /// the request carries, and only the target's fleet is written.
    pub fn handle_battle_request(
        &mut self,
        request: &BattleRequestActivity,
    ) -> (verdict: Result<BattleOutcome, EndpointError>)
        requires
            old(self).wf(),
        ensures
            final(self).wf(),
            final(self)@.home == old(self)@.home,
            final(self)@.users == old(self)@.users,
            final(self)@.entries == old(self)@.entries,
            is_settlement(
                old(self)@.rows,
                old(self)@.home,
                party_of(old(self)@.home, request.actor@),
                party_of(old(self)@.home, request.target@),
                request.fleet,
                request.seed,
                verdict,
                final(self)@.rows,
            ),
    {
        let actor = self.directory.locate(request.actor.as_str());
        let target = self.directory.locate(request.target.as_str());
        self.settle(&actor, &target, request.fleet, request.seed)
    }

    /// Lets two users of this instance fight, both with the fleets that the
    /// ledger holds under their names, and writes what the battle left of
    /// them.
    pub fn battle_handler(
        &mut self,
        request: &BattleRequest,
    ) -> (answer: Result<BattleResponse, EndpointError>)
        requires
            old(self).wf(),
        ensures
            final(self).wf(),
            final(self)@.home == old(self)@.home,
            final(self)@.users == old(self)@.users,
            final(self)@.entries == old(self)@.entries,
            is_settlement(
                old(self)@.rows,
                old(self)@.home,
                HandleView { username: request.player_a@, instance: old(self)@.home },
                HandleView { username: request.player_b@, instance: old(self)@.home },
                Fleet { ships: 0, fighters: 0, bombers: 0 },
                request.seed,
                verdict_behind(answer),
                final(self)@.rows,
            ),
    {
        let actor = Handle { username: request.player_a.clone(), instance: self.directory.home() };
        let target = Handle { username: request.player_b.clone(), instance: self.directory.home() };
        let verdict = self.settle(
            &actor,
            &target,
            Fleet { ships: 0, fighters: 0, bombers: 0 },
            request.seed,
        );
        match verdict {
            Ok(outcome) => Ok(
                BattleResponse {
                    winner: outcome.winner,
                    player_a_remaining: outcome.actor_fleet_after,
                    player_b_remaining: outcome.target_fleet_after,
                },
            ),
            Err(reason) => Err(reason),
        }
    }

    /// Takes one delivery: classifies the activity, answers a repeated one
    /// as it was answered before, settles a fresh battle request, stores any
    /// other fresh activity, and says what news is owed to an actor of
    /// another instance.
    pub fn inbox(&mut self, activity: &Activity, now: u64) -> (receipt: Receipt)
        requires
            old(self).wf(),
        ensures
            final(self).wf(),
            is_delivery_handled(old(self)@, activity@, now, final(self)@, receipt.disposition),
            is_notification(old(self)@, activity@, receipt.disposition, receipt.notify),
    {
        let incoming = match activity.classify() {
            Ok(incoming) => incoming,
            Err(reason) => {
                return Receipt { disposition: Disposition::Refused(reason), notify: None };
            },
        };
        let sender = activity.actor.as_str();
        let recipient = activity.object.as_str();
        if let Some(earlier) = self.log.stored(sender, recipient, activity.id.as_str()) {
            return Receipt { disposition: earlier, notify: None };
        }
        match incoming {
            Incoming::Battle { fleet, seed } => {
                let actor = self.directory.locate(sender);
                let target = self.directory.locate(recipient);
                let verdict = self.settle(&actor, &target, fleet, seed);
                let disposition = match verdict {
                    Ok(outcome) => Disposition::Settled(outcome),
                    Err(reason) => Disposition::Refused(reason),
                };
                let notify = match verdict {
                    Ok(outcome) => {
                        self.log.record_inbound(activity, disposition, now);
                        if self.directory.is_home_of(&actor) {
                            None
                        } else {
                            let mut id = activity.id.clone();
                            id.append("/result");
                            Some(
                                Notice {
                                    news: BattleResultActivity::announce(
                                        sender,
                                        target.text().as_str(),
                                        outcome,
                                    ),
                                    id,
                                    inbox: inbox_url(&actor),
                                },
                            )
                        }
                    },
                    Err(EndpointError::ActorNotFound) => {
                        self.log.record_inbound(activity, disposition, now);
                        None
                    },
                    Err(_) => None,
                };
                Receipt { disposition, notify }
            },
            _ => {
                self.log.record_inbound(activity, Disposition::Stored, now);
                Receipt { disposition: Disposition::Stored, notify: None }
            },
        }
    }

    /// One page of the activities that the user `username` of this instance
    /// sent or received, under the bare name or the qualified handle, oldest
    /// first; `None` for a user who is not hosted here.
    pub fn outbox(&self, username: &str, token: usize, limit: usize) -> (answer: Option<Page>)
        ensures
            match answer {
                None => !self@.users.contains(username@),
                Some(page) => {
                    &&& self@.users.contains(username@)
                    &&& token_position(token, self@.entries.len()) <= page.next
                        <= self@.entries.len()
                    &&& views_of(page.items@) == history_of(
                        self@.entries.subrange(
                            token_position(token, self@.entries.len()),
                            page.next as int,
                        ),
                        names_of(self@.home, username@),
                    )
                    &&& page.items@.len() <= limit
                    &&& page_ends_at(
                        self@.entries,
                        names_of(self@.home, username@),
                        token_position(token, self@.entries.len()),
                        limit as int,
                        page.items@.len() as int,
                        page.next as int,
                    )
                },
            },
    {
        if self.directory.hosts(username) {
            let qualified = Handle {
                username: String::from_str(username),
                instance: self.directory.home(),
            };
            let mut names: Vec<String> = Vec::new();
            names.push(String::from_str(username));
            names.push(qualified.text());
            assert(texts_of(names@) =~= names_of(self@.home, username@));
            Some(self.log.history(&names, token, limit))
        } else {
            None
        }
    }

    /// The actor document of a user hosted here, or `None`.
    pub fn get_actor(&self, username: &str) -> (found: Option<Actor>)
        ensures
            match found {
                Some(actor) => self@.users.contains(username@) && is_actor_document(
                    actor,
                    self@.home,
                    username@,
                ),
                None => !self@.users.contains(username@),
            },
    {
        self.directory.lookup_local(username)
    }

    /// Answers a discovery query for `resource`.
    pub fn webfinger(&self, resource: &str) -> (answer: Option<Discovery>)
        ensures
            match answer {
                Some(found) => match account_of(resource@) {
                    Some(account) => self@.users.contains(account.username) && is_discovery(
                        found,
                        resource@,
                        account,
                    ),
                    None => false,
                },
                None => match account_of(resource@) {
                    Some(account) => !self@.users.contains(account.username),
                    None => true,
                },
            },
    {
        self.directory.webfinger(resource)
    }

    /// Provisions a hosted user with a first fleet. A user who is not
    /// hosted here is not found; one who has a fleet already keeps it, and
    /// the request fails.
    pub fn create_fleet(&mut self, request: &FleetRequest) -> (created: Result<(), EndpointError>)
        requires
            old(self).wf(),
        ensures
            final(self).wf(),
            final(self)@.home == old(self)@.home,
            final(self)@.users == old(self)@.users,
            final(self)@.entries == old(self)@.entries,
            created == (if !old(self)@.users.contains(request.username@) {
                Err::<(), EndpointError>(EndpointError::ActorNotFound)
            } else if old(self)@.rows.contains_key(request.username@) {
                Err::<(), EndpointError>(EndpointError::StorageFailure)
            } else {
                Ok::<(), EndpointError>(())
            }),
            final(self)@.rows == (if created is Ok {
                old(self)@.rows.insert(
                    request.username@,
                    Versioned {
                        fleet: Fleet {
                            ships: request.ships,
                            fighters: request.fighters,
                            bombers: request.bombers,
                        },
                        version: 0,
                    },
                )
            } else {
                old(self)@.rows
            }),
    {
        if !self.directory.hosts(request.username.as_str()) {
            return Err(EndpointError::ActorNotFound);
        }
        let fleet = Fleet::new(request.ships, request.fighters, request.bombers);
        if self.ledger.create(request.username.as_str(), fleet) {
            Ok(())
        } else {
            Err(EndpointError::StorageFailure)
        }
    }

    /// Prepares a battle request for sending. The actor has to be a user of
    /// this instance with a fleet; else the actor is not found and nothing
    /// is recorded. The request leaves with both names written out as
    /// qualified handles, with the actor's fleet as the ledger holds it,
    /// whatever the request said, and addressed to the inbox of the target
    /// on the target's instance. It is recorded as sent.
    pub fn send_battle_request_handler(
        &mut self,
        request: &BattleRequestActivity,
        id: &str,
        now: u64,
    ) -> (prepared: Result<Outgoing, EndpointError>)
        requires
            old(self).wf(),
        ensures
            final(self).wf(),
            final(self)@.home == old(self)@.home,
            final(self)@.users == old(self)@.users,
            final(self)@.rows == old(self)@.rows,
            ({
                let home = old(self)@.home;
                let actor = party_of(home, request.actor@);
                let target = party_of(home, request.target@);
                let sendable = actor.instance == home && old(self)@.rows.contains_key(
                    actor.username,
                );
                match prepared {
                    Err(reason) => {
                        &&& !sendable
                        &&& reason == EndpointError::ActorNotFound
                        &&& final(self)@.entries == old(self)@.entries
                    },
                    Ok(outgoing) => {
                        &&& sendable
                        &&& outgoing.activity@ == (ActivityView {
                            activity_type: request.activity_type@,
                            actor: handle_text(actor),
                            object: handle_text(target),
                            id: id@,
                            content: None,
                            fleet: Some(old(self)@.rows[actor.username].fleet),
                            seed: Some(request.seed),
                        })
                        &&& outgoing.inbox@ == actor_url_of(target.instance, target.username)
                            + "/inbox"@
                        &&& final(self)@.entries == old(self)@.entries.push(
                            EntryView {
                                activity: outgoing.activity@,
                                inbound: false,
                                disposition: Disposition::Stored,
                                created_at: now,
                            },
                        )
                    },
                }
            }),
    {
        let actor = self.directory.locate(request.actor.as_str());
        let target = self.directory.locate(request.target.as_str());
        if !self.directory.is_home_of(&actor) {
            return Err(EndpointError::ActorNotFound);
        }
        let held = match self.ledger.get(actor.username.as_str()) {
            Some(row) => row,
            None => {
                return Err(EndpointError::ActorNotFound);
            },
        };
        let outbound = BattleRequestActivity {
            activity_type: request.activity_type.clone(),
            actor: actor.text(),
            target: target.text(),
            fleet: held.fleet,
            seed: request.seed,
        };
        let activity = outbound.envelope(id);
        self.log.record_outbound(&activity, now);
        Ok(Outgoing { activity, inbox: inbox_url(&target) })
    }
}

/// Idempotent delivery: when an activity is delivered a second time,
/// whenever that is, it is answered as it was the first time, and the
/// second delivery changes neither the ledger nor anything else.
pub proof fn lemma_redelivery_changes_nothing(
    start: InstanceView,
    activity: ActivityView,
    first_time: u64,
    once: InstanceView,
    first: Disposition,
    second_time: u64,
    twice: InstanceView,
    second: Disposition,
)
    requires
        is_delivery_handled(start, activity, first_time, once, first),
        is_delivery_handled(once, activity, second_time, twice, second),
    ensures
        second == first,
        twice.rows == once.rows,
        twice == once,
{
    if classified(activity) is Ok && is_recorded(first) && stored_disposition(
        start.entries,
        activity.actor,
        activity.object,
        activity.id,
    ) is None {
        crate::log::lemma_recorded_is_stored(start.entries, activity, first, first_time);
    }
}

/// The id decides: once a delivery is recorded, any activity that arrives
/// from the same sender for the same recipient under the same id, whatever
/// else it holds, is answered as the recorded one was, and changes nothing.
pub proof fn lemma_same_id_is_answered_alike(
    start: InstanceView,
    activity: ActivityView,
    first_time: u64,
    once: InstanceView,
    first: Disposition,
    repeated: ActivityView,
    second_time: u64,
    twice: InstanceView,
    second: Disposition,
)
    requires
        is_delivery_handled(start, activity, first_time, once, first),
        is_delivery_handled(once, repeated, second_time, twice, second),
        repeated.actor == activity.actor,
        repeated.object == activity.object,
        repeated.id == activity.id,
        classified(activity) is Ok,
        classified(repeated) is Ok,
        is_recorded(first),
    ensures
        second == first,
        twice == once,
{
    if stored_disposition(start.entries, activity.actor, activity.object, activity.id) is None {
        crate::log::lemma_recorded_is_stored(start.entries, activity, first, first_time);
    }
}

} // verus!
