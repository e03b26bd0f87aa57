//! Federated fleet battles: deterministic combat resolution, a versioned fleet
//! ledger, an actor directory, an activity log with de-duplication and paged
//! history, delivery classification, and the inbox endpoint that ties them
//! together.

pub mod fleet;
pub mod combat;
pub mod ledger;
pub mod activity;
pub mod log;
pub mod directory;
pub mod dispatch;
pub mod endpoint;
