use vstd::prelude::*;
use crate::types::{Note, Subscription};

verus! {

#[verifier::external_type_specification]
#[verifier::external_body]
#[verifier::reject_recursive_types(T)]
pub struct ExSender<T>(async_channel::Sender<T>);

#[verifier::external_type_specification]
#[verifier::external_body]
#[verifier::reject_recursive_types(T)]
pub struct ExReceiver<T>(async_channel::Receiver<T>);

/// Why a command could not be queued.
#[derive(Debug, Clone, Copy, PartialEq, Eq, Structural)]
pub enum CommandError {
    /// The queue had no room; an unbounded queue never reports it.
    Full,
    /// The dispatch loop has dropped its end of the queue.
    Closed,
}

/// The sending end of a queue made by `async_channel::unbounded`. The field is
/// private and only [`unbounded_queue`] builds one, so every value of this type
/// sends into a queue without a bound.
#[verifier::reject_recursive_types(T)]
pub struct UnboundedSender<T> {
    tx: async_channel::Sender<T>,
}

/// A queue either took the command or its receiving end is gone: an unbounded
/// queue is never full.
pub open spec fn queued_or_closed(r: Result<(), CommandError>) -> bool {
    match r {
        Ok(()) => true,
        Err(e) => e == CommandError::Closed,
    }
}

/// Relies on `async_channel::unbounded`: a new queue without a bound, as a
/// sending end and a receiving end.
#[verifier::external_body]
fn unbounded_queue<T>() -> (UnboundedSender<T>, async_channel::Receiver<T>) {
    let (tx, rx) = async_channel::unbounded();
    (UnboundedSender { tx }, rx)
}

/// Relies on `async_channel::Sender::try_send`, which queues `msg` without
/// waiting or reports a full or a closed queue. On a queue made by
/// `async_channel::unbounded` the underlying unbounded `ConcurrentQueue::push`
/// fails only when the queue is closed, so `Full` never comes back.
#[verifier::external_body]
fn try_queue<T>(tx: &UnboundedSender<T>, msg: T) -> (r: Result<(), CommandError>)
    ensures
        queued_or_closed(r),
{
    match tx.tx.try_send(msg) {
        Ok(()) => Ok(()),
        Err(async_channel::TrySendError::Full(_)) => Err(CommandError::Full),
        Err(async_channel::TrySendError::Closed(_)) => Err(CommandError::Closed),
    }
}

/// The consumer's side of the command channel: one unbounded queue per kind of
/// command. Queuing never waits on relay traffic.
pub struct RelayProvider {
    notes: UnboundedSender<Note>,
    subscriptions: UnboundedSender<Subscription>,
    cancellations: UnboundedSender<String>,
    shutdown: UnboundedSender<()>,
}

/// The dispatch loop's side of the command channel.
pub struct CommandQueues {
    pub notes: async_channel::Receiver<Note>,
    pub subscriptions: async_channel::Receiver<Subscription>,
    pub cancellations: async_channel::Receiver<String>,
    pub shutdown: async_channel::Receiver<()>,
}

/// A command channel: four independent unbounded queues, first in first out
/// within each.
pub fn command_channel() -> (RelayProvider, CommandQueues) {
    let (notes_tx, notes_rx) = unbounded_queue::<Note>();
    let (subs_tx, subs_rx) = unbounded_queue::<Subscription>();
    let (cancel_tx, cancel_rx) = unbounded_queue::<String>();
    let (shutdown_tx, shutdown_rx) = unbounded_queue::<()>();
    (
        RelayProvider {
            notes: notes_tx,
            subscriptions: subs_tx,
            cancellations: cancel_tx,
            shutdown: shutdown_tx,
        },
        CommandQueues {
            notes: notes_rx,
            subscriptions: subs_rx,
            cancellations: cancel_rx,
            shutdown: shutdown_rx,
        },
    )
}

impl RelayProvider {
    /// Queues a note for publication.
    pub fn send_nostr_note(&self, note: Note) -> (r: Result<(), CommandError>)
        ensures
            queued_or_closed(r),
    {
        try_queue(&self.notes, note)
    }

    /// Queues a subscription.
    pub fn subscribe(&self, sub: Subscription) -> (r: Result<(), CommandError>)
        ensures
            queued_or_closed(r),
    {
        try_queue(&self.subscriptions, sub)
    }

    /// Queues the cancellation of subscription `id`.
    pub fn unsubscribe(&self, id: String) -> (r: Result<(), CommandError>)
        ensures
            queued_or_closed(r),
    {
        try_queue(&self.cancellations, id)
    }

    /// Queues the shutdown of the pool.
    pub fn close_ws(&self) -> (r: Result<(), CommandError>)
        ensures
            queued_or_closed(r),
    {
        try_queue(&self.shutdown, ())
    }
}

} // verus!
