//! The activity envelope that instances exchange, and its classification.

use crate::combat::BattleOutcome;
use crate::fleet::Fleet;
use vstd::prelude::*;
use vstd::string::*;

verus! {

/// Why an activity, a settlement or a delivery failed.
#[derive(Clone, Copy, Debug, PartialEq, Eq, Structural)]
pub enum EndpointError {
    /// A field that the activity's type needs is missing.
    MalformedActivity,
    /// The type tag is none of the known ones.
    UnknownActivityType,
    /// A participant has no fleet here.
    ActorNotFound,
    /// The ledger kept answering a write with a conflict.
    LedgerConflict,
    /// The remote inbox could not be reached.
    DeliveryUnreachable,
    /// The remote inbox refused the activity with this status.
    DeliveryRejected(u16),
    /// The ledger or the log could not store what it was given.
    StorageFailure,
}

/// The known types of activity.
#[derive(Clone, Copy, Debug, PartialEq, Eq, Structural)]
pub enum ActivityKind {
    BattleRequest,
    BattleResult,
    Message,
}

/// An activity as it travels: a type tag, sender, recipient, an id that is
/// unique per sender, and the fields that some types carry.
#[derive(Clone, Debug, PartialEq, Eq)]
pub struct Activity {
    pub activity_type: String,
    pub actor: String,
    pub object: String,
    pub id: String,
    pub content: Option<String>,
    pub fleet: Option<Fleet>,
    pub seed: Option<u64>,
}

/// The mathematical content of an [`Activity`].
pub struct ActivityView {
    pub activity_type: Seq<char>,
    pub actor: Seq<char>,
    pub object: Seq<char>,
    pub id: Seq<char>,
    pub content: Option<Seq<char>>,
    pub fleet: Option<Fleet>,
    pub seed: Option<u64>,
}

/// What an accepted activity asks for.
#[derive(Clone, Copy, Debug, PartialEq, Eq, Structural)]
pub enum Incoming {
    /// A battle of the sender against the recipient.
    Battle { fleet: Fleet, seed: u64 },
    /// The news of a battle settled elsewhere.
    BattleNews,
    /// A plain message.
    Note,
}

/// What the endpoint concluded for an activity, kept with it in the log and
/// given again when the activity is delivered again.
#[derive(Clone, Copy, Debug, PartialEq, Eq, Structural)]
pub enum Disposition {
    /// The activity was stored and asked for nothing more.
    Stored,
    /// The battle was settled with this outcome.
    Settled(BattleOutcome),
    /// The activity was turned down for this reason.
    Refused(EndpointError),
}

/// A request to let two local players fight.
#[derive(Clone, Debug, PartialEq, Eq)]
pub struct BattleRequest {
    pub player_a: String,
    pub player_b: String,
    pub seed: u64,
}

/// The answer to a [`BattleRequest`].
#[derive(Clone, Copy, Debug, PartialEq, Eq, Structural)]
pub struct BattleResponse {
    pub winner: crate::combat::Winner,
    pub player_a_remaining: Fleet,
    pub player_b_remaining: Fleet,
}

/// A battle request on its way to the target's inbox.
#[derive(Clone, Debug, PartialEq, Eq)]
pub struct BattleRequestActivity {
    pub activity_type: String,
    pub actor: String,
    pub target: String,
    pub fleet: Fleet,
    pub seed: u64,
}

/// The news of a settled battle on its way back to the actor.
#[derive(Clone, Debug, PartialEq, Eq)]
pub struct BattleResultActivity {
    pub activity_type: String,
    pub actor: String,
    pub target: String,
    pub result: BattleOutcome,
}

/// The kind that a type tag names.
pub open spec fn kind_of(tag: Seq<char>) -> Option<ActivityKind> {
    if tag == "BattleRequest"@ {
        Some(ActivityKind::BattleRequest)
    } else if tag == "BattleResult"@ {
        Some(ActivityKind::BattleResult)
    } else if tag == "Message"@ {
        Some(ActivityKind::Message)
    } else {
        None
    }
}

/// What an activity asks for, or why it is turned down: an unknown tag is
/// turned down before any other field is looked at, a battle request needs
/// its fleet and its seed, a message needs its content.
pub open spec fn classified(activity: ActivityView) -> Result<Incoming, EndpointError> {
    match kind_of(activity.activity_type) {
        None => Err(EndpointError::UnknownActivityType),
        Some(ActivityKind::BattleRequest) => match (activity.fleet, activity.seed) {
            (Some(fleet), Some(seed)) => Ok(Incoming::Battle { fleet, seed }),
            _ => Err(EndpointError::MalformedActivity),
        },
        Some(ActivityKind::BattleResult) => Ok(Incoming::BattleNews),
        Some(ActivityKind::Message) => match activity.content {
            Some(_) => Ok(Incoming::Note),
            None => Err(EndpointError::MalformedActivity),
        },
    }
}

/// Reads a type tag.
pub fn parse_kind(tag: &str) -> (kind: Option<ActivityKind>)
    ensures
        kind == kind_of(tag@),
{
    let given = String::from_str(tag);
    if given == String::from_str("BattleRequest") {
        Some(ActivityKind::BattleRequest)
    } else if given == String::from_str("BattleResult") {
        Some(ActivityKind::BattleResult)
    } else if given == String::from_str("Message") {
        Some(ActivityKind::Message)
    } else {
        None
    }
}

/// The tag that a kind is written as.
pub fn kind_tag(kind: ActivityKind) -> (tag: String)
    ensures
        kind_of(tag@) == Some(kind),
        tag@ == match kind {
            ActivityKind::BattleRequest => "BattleRequest"@,
            ActivityKind::BattleResult => "BattleResult"@,
            ActivityKind::Message => "Message"@,
        },
{
    proof {
        reveal_strlit("BattleRequest");
        reveal_strlit("BattleResult");
        reveal_strlit("Message");
        assert("BattleRequest"@[8] != "BattleResult"@[8]);
        assert("BattleResult"@[0] != "Message"@[0]);
    }
    match kind {
        ActivityKind::BattleRequest => String::from_str("BattleRequest"),
        ActivityKind::BattleResult => String::from_str("BattleResult"),
        ActivityKind::Message => String::from_str("Message"),
    }
}

impl View for Activity {
    type V = ActivityView;

    open spec fn view(&self) -> ActivityView {
        ActivityView {
            activity_type: self.activity_type@,
            actor: self.actor@,
            object: self.object@,
            id: self.id@,
            content: match self.content {
                Some(text) => Some(text@),
                None => None,
            },
            fleet: self.fleet,
            seed: self.seed,
        }
    }
}

impl Activity {
    /// A copy with the same content.
    pub fn duplicate(&self) -> (copy: Activity)
        ensures
            copy@ == self@,
    {
        let content = match &self.content {
            Some(text) => Some(text.clone()),
            None => None,
        };
        Activity {
            activity_type: self.activity_type.clone(),
            actor: self.actor.clone(),
            object: self.object.clone(),
            id: self.id.clone(),
            content,
            fleet: self.fleet,
            seed: self.seed,
        }
    }

    /// Validates the activity at the boundary.
    pub fn classify(&self) -> (verdict: Result<Incoming, EndpointError>)
        ensures
            verdict == classified(self@),
    {
        match parse_kind(self.activity_type.as_str()) {
            None => Err(EndpointError::UnknownActivityType),
            Some(ActivityKind::BattleRequest) => match (self.fleet, self.seed) {
                (Some(fleet), Some(seed)) => Ok(Incoming::Battle { fleet, seed }),
                _ => Err(EndpointError::MalformedActivity),
            },
            Some(ActivityKind::BattleResult) => Ok(Incoming::BattleNews),
            Some(ActivityKind::Message) => match &self.content {
                Some(_) => Ok(Incoming::Note),
                None => Err(EndpointError::MalformedActivity),
            },
        }
    }
}

impl BattleRequestActivity {
    /// The envelope that carries this request: the target becomes the
    /// recipient, and the fleet and the seed travel with it.
    pub fn envelope(&self, id: &str) -> (activity: Activity)
        ensures
            activity@ == (ActivityView {
                activity_type: self.activity_type@,
                actor: self.actor@,
                object: self.target@,
                id: id@,
                content: None,
                fleet: Some(self.fleet),
                seed: Some(self.seed),
            }),
    {
        Activity {
            activity_type: self.activity_type.clone(),
            actor: self.actor.clone(),
            object: self.target.clone(),
            id: String::from_str(id),
            content: None,
            fleet: Some(self.fleet),
            seed: Some(self.seed),
        }
    }
}

impl BattleResultActivity {
    /// The news that `outcome` settled the battle of `actor` against
    /// `target`, addressed by the target's side to the actor.
    pub fn announce(
        actor: &str,
        target: &str,
        outcome: BattleOutcome,
    ) -> (news: BattleResultActivity)
        ensures
            news.activity_type@ == "BattleResult"@,
            news.actor@ == target@,
            news.target@ == actor@,
            news.result == outcome,
    {
        BattleResultActivity {
            activity_type: kind_tag(ActivityKind::BattleResult),
            actor: String::from_str(target),
            target: String::from_str(actor),
            result: outcome,
        }
    }
}

} // verus!
