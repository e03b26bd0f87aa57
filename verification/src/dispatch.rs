//! What follows from the answer of a remote inbox or of the ledger: how a
//! delivery attempt is judged, and when an attempt is made again.

use crate::activity::EndpointError;
use crate::ledger::CommitResult;
use vstd::prelude::*;

verus! {

/// How one delivery attempt ended.
#[derive(Clone, Copy, Debug, PartialEq, Eq, Structural)]
pub enum Delivery {
    /// The remote inbox accepted the activity.
    Delivered,
    /// No answer came, or the remote instance failed; its state is unknown.
    Unreachable,
    /// The remote inbox turned the activity down with this status.
    Rejected(u16),
}

/// What to do after a delivery attempt.
#[derive(Clone, Copy, Debug, PartialEq, Eq, Structural)]
pub enum DeliveryStep {
    /// Nothing more.
    Done,
    /// Attempt again once this many milliseconds have passed.
    RetryAfter(u64),
    /// Give up with this error.
    Failed(EndpointError),
}

/// What to do after a conditional write to the ledger.
#[derive(Clone, Copy, Debug, PartialEq, Eq, Structural)]
pub enum CommitStep {
    /// The write is in place.
    Done,
    /// Read the fleets again, resolve with the same seed and write again.
    Retry,
    /// Give up with this error.
    Failed(EndpointError),
}

/// How often an unreachable inbox is tried again.
pub const MAX_DELIVERY_RETRIES: u32 = 3;

/// How often a conflicting write is tried again.
pub const MAX_COMMIT_RETRIES: u32 = 3;

/// The wait before the first retry of a delivery, in milliseconds.
pub const BASE_BACKOFF_MS: u64 = 100;

/// How an attempt is judged by the status it was answered with, `None`
/// standing for no answer in time: a status from 200 to 299 is an
/// acceptance, one from 400 to 499 a rejection, and all else leaves the
/// remote side unreachable.
pub open spec fn delivery_of(status: Option<u16>) -> Delivery {
    match status {
        None => Delivery::Unreachable,
        Some(code) => if 200 <= code <= 299 {
            Delivery::Delivered
        } else if 400 <= code <= 499 {
            Delivery::Rejected(code)
        } else {
            Delivery::Unreachable
        },
    }
}

/// The wait before the retry that follows `retries_made` earlier ones: it
/// doubles with every retry and stays where it is once the last retry is
/// reached.
pub open spec fn backoff_of(retries_made: nat) -> nat
    decreases retries_made,
{
    if retries_made == 0 {
        BASE_BACKOFF_MS as nat
    } else if retries_made > MAX_DELIVERY_RETRIES {
        backoff_of(MAX_DELIVERY_RETRIES as nat)
    } else {
        2 * backoff_of((retries_made - 1) as nat)
    }
}

/// The step that follows a delivery attempt made after `retries_made`
/// retries: a rejection is final, an unreachable inbox is tried again until
/// the retries are used up.
pub open spec fn delivery_step_of(delivery: Delivery, retries_made: u32) -> DeliveryStep {
    match delivery {
        Delivery::Delivered => DeliveryStep::Done,
        Delivery::Rejected(code) => DeliveryStep::Failed(EndpointError::DeliveryRejected(code)),
        Delivery::Unreachable => if retries_made < MAX_DELIVERY_RETRIES {
            DeliveryStep::RetryAfter(backoff_of(retries_made as nat) as u64)
        } else {
            DeliveryStep::Failed(EndpointError::DeliveryUnreachable)
        },
    }
}

/// The step that follows a conditional write made after `retries_made`
/// retries: only a conflict is worth another try.
pub open spec fn commit_step_of(result: CommitResult, retries_made: u32) -> CommitStep {
    match result {
        CommitResult::Committed => CommitStep::Done,
        CommitResult::NotFound => CommitStep::Failed(EndpointError::ActorNotFound),
        CommitResult::Exhausted => CommitStep::Failed(EndpointError::StorageFailure),
        CommitResult::Conflict => if retries_made < MAX_COMMIT_RETRIES {
            CommitStep::Retry
        } else {
            CommitStep::Failed(EndpointError::LedgerConflict)
        },
    }
}

/// Judges a delivery attempt by its status.
pub fn classify_response(status: Option<u16>) -> (delivery: Delivery)
    ensures
        delivery == delivery_of(status),
{
    match status {
        None => Delivery::Unreachable,
        Some(code) => {
            if 200 <= code && code <= 299 {
                Delivery::Delivered
            } else if 400 <= code && code <= 499 {
                Delivery::Rejected(code)
            } else {
                Delivery::Unreachable
            }
        },
    }
}

/// The waits of the retries, one after the other.
proof fn lemma_backoff_values()
    ensures
        backoff_of(0) == 100,
        backoff_of(1) == 200,
        backoff_of(2) == 400,
        backoff_of(3) == 800,
        forall|later: nat| later > 3 ==> backoff_of(later) == 800,
{
    reveal_with_fuel(backoff_of, 5);
}

/// The wait in milliseconds before the retry that follows `retries_made`
/// earlier ones.
pub fn backoff_ms(retries_made: u32) -> (wait: u64)
    ensures
        wait == backoff_of(retries_made as nat),
{
    proof {
        lemma_backoff_values();
    }
    let doublings: u32 = if retries_made < MAX_DELIVERY_RETRIES {
        retries_made
    } else {
        MAX_DELIVERY_RETRIES
    };
    let mut wait: u64 = BASE_BACKOFF_MS;
    let mut done: u32 = 0;
    while done < doublings
        invariant
            done <= doublings <= MAX_DELIVERY_RETRIES,
            wait == backoff_of(done as nat),
            wait <= 800,
        decreases doublings - done,
    {
        proof {
            lemma_backoff_values();
        }
        wait = wait * 2;
        done = done + 1;
    }
    wait
}

/// Decides what follows a delivery attempt.
pub fn next_delivery_step(delivery: Delivery, retries_made: u32) -> (step: DeliveryStep)
    ensures
        step == delivery_step_of(delivery, retries_made),
{
    match delivery {
        Delivery::Delivered => DeliveryStep::Done,
        Delivery::Rejected(code) => DeliveryStep::Failed(EndpointError::DeliveryRejected(code)),
        Delivery::Unreachable => {
            if retries_made < MAX_DELIVERY_RETRIES {
                DeliveryStep::RetryAfter(backoff_ms(retries_made))
            } else {
                DeliveryStep::Failed(EndpointError::DeliveryUnreachable)
            }
        },
    }
}

/// Decides what follows a conditional write to the ledger.
pub fn next_commit_step(result: CommitResult, retries_made: u32) -> (step: CommitStep)
    ensures
        step == commit_step_of(result, retries_made),
{
    match result {
        CommitResult::Committed => CommitStep::Done,
        CommitResult::NotFound => CommitStep::Failed(EndpointError::ActorNotFound),
        CommitResult::Exhausted => CommitStep::Failed(EndpointError::StorageFailure),
        CommitResult::Conflict => {
            if retries_made < MAX_COMMIT_RETRIES {
                CommitStep::Retry
            } else {
                CommitStep::Failed(EndpointError::LedgerConflict)
            }
        },
    }
}

/// Retrying ends: whatever the answers are, after the last retry the step
/// is no further retry, and every wait before that is at most the last one.
pub proof fn lemma_retries_are_bounded(delivery: Delivery, result: CommitResult, retries_made: u32)
    ensures
        retries_made >= MAX_DELIVERY_RETRIES ==> !(delivery_step_of(delivery, retries_made)
            is RetryAfter),
        retries_made >= MAX_COMMIT_RETRIES ==> !(commit_step_of(result, retries_made) is Retry),
        delivery_step_of(delivery, retries_made) is RetryAfter ==> delivery_step_of(
            delivery,
            retries_made,
        )->RetryAfter_0 <= backoff_of(MAX_DELIVERY_RETRIES as nat),
{
    lemma_backoff_values();
}

} // verus!
