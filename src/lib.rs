//! A multi-relay event aggregator: one dispatch loop owns every relay handle,
//! deduplicates what the relays deliver, keeps the registry of subscriptions,
//! and fans the consumer's commands out to the relays.

use vstd::prelude::*;

pub mod commands;
pub mod laws;
pub mod ledger;
pub mod model;
pub mod pool;
pub mod registry;
pub mod types;

pub use commands::{command_channel, CommandError, CommandQueues, RelayProvider};
pub use ledger::DedupLedger;
pub use model::PoolStatus;
pub use pool::{RelayAction, RelayPool};
pub use registry::SubscriptionRegistry;
pub use types::{
    ClientMessage, FailureKind, IdbStoreConfig, Note, RawEvent, RelayCommand, RelayEvent,
    Subscription, UserRelay,
};

verus! {

} // verus!
