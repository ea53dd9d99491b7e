use vstd::prelude::*;
use crate::types::{
    ClientMessageView, EndpointView, FailureKind, NoteView, RawEventView, RelayCommandView,
    RelayEventView,
};

verus! {

/// Where the pool is in its life.
#[derive(Debug, Clone, Copy, PartialEq, Eq, Structural)]
pub enum PoolStatus {
    /// Relay handles are in use and commands are serviced.
    Open,
    /// Close requests went out; waiting for the relays that have not acknowledged.
    Closing,
    /// No handle remains; nothing is serviced any more.
    Closed,
}

/// One input of the dispatch loop, as a mathematical value.
pub enum RelayActionView {
    Event { relay: Seq<char>, event: RelayEventView },
    SendNote(NoteView),
    Subscribe { id: Seq<char>, filter: Seq<char> },
    Unsubscribe(Seq<char>),
    Close,
    CloseAcknowledged(Seq<char>),
    CloseTimeout,
}

/// The whole state of a pool, as a mathematical value.
pub struct PoolView {
    /// The active relay handles, by endpoint.
    pub relays: Seq<EndpointView>,
    /// The deduplication ledger.
    pub seen: Set<Seq<char>>,
    /// The subscription registry: identifier to filter.
    pub subscriptions: Map<Seq<char>, Seq<char>>,
    /// The raw event stream, oldest first.
    pub relay_events: Seq<RawEventView>,
    /// The deduplicated note stream, oldest first.
    pub unique_notes: Seq<NoteView>,
    pub status: PoolStatus,
}

/// Whether a relay address is one the relay client accepts: it starts with `wss://`.
pub open spec fn wss_url(url: Seq<char>) -> bool {
    url.len() >= 6 && url.subrange(0, 6) == seq!['w', 's', 's', ':', '/', '/']
}

pub open spec fn has_relay(relays: Seq<EndpointView>, url: Seq<char>) -> bool {
    exists|i: int| 0 <= i < relays.len() && relays[i].url == url
}

/// The endpoints that get a handle: those with an accepted address, first
/// occurrence of each address only.
pub open spec fn admitted(eps: Seq<EndpointView>) -> Seq<EndpointView>
    decreases eps.len(),
{
    if eps.len() == 0 {
        Seq::empty()
    } else {
        let prev = admitted(eps.drop_last());
        let e = eps.last();
        if wss_url(e.url) && !has_relay(prev, e.url) {
            prev.push(e)
        } else {
            prev
        }
    }
}

/// One `Unreachable` record for each endpoint whose address was refused.
pub open spec fn refused(eps: Seq<EndpointView>) -> Seq<RawEventView>
    decreases eps.len(),
{
    if eps.len() == 0 {
        Seq::empty()
    } else {
        let prev = refused(eps.drop_last());
        let e = eps.last();
        if !wss_url(e.url) {
            prev.push(RawEventView { relay: e.url, event: RelayEventView::Failure(FailureKind::Unreachable) })
        } else {
            prev
        }
    }
}

/// A freshly created pool over `eps`.
pub open spec fn initial(eps: Seq<EndpointView>) -> PoolView {
    PoolView {
        relays: admitted(eps),
        seen: Set::empty(),
        subscriptions: Map::empty(),
        relay_events: refused(eps),
        unique_notes: Seq::empty(),
        status: PoolStatus::Open,
    }
}

/// `relays` without the handle for `url`.
pub open spec fn drop_relay(relays: Seq<EndpointView>, url: Seq<char>) -> Seq<EndpointView>
    decreases relays.len(),
{
    if relays.len() == 0 {
        relays
    } else {
        let prev = drop_relay(relays.drop_last(), url);
        if relays.last().url == url {
            prev
        } else {
            prev.push(relays.last())
        }
    }
}

/// The note, sent to each writable relay in order.
pub open spec fn publish_out(relays: Seq<EndpointView>, note: NoteView) -> Seq<RelayCommandView>
    decreases relays.len(),
{
    if relays.len() == 0 {
        Seq::empty()
    } else {
        let prev = publish_out(relays.drop_last(), note);
        if relays.last().write {
            prev.push(RelayCommandView::Send { relay: relays.last().url, message: ClientMessageView::Publish(note) })
        } else {
            prev
        }
    }
}

/// The subscription, sent to each readable relay in order.
pub open spec fn subscribe_out(relays: Seq<EndpointView>, id: Seq<char>, filter: Seq<char>) -> Seq<RelayCommandView>
    decreases relays.len(),
{
    if relays.len() == 0 {
        Seq::empty()
    } else {
        let prev = subscribe_out(relays.drop_last(), id, filter);
        if relays.last().read {
            prev.push(RelayCommandView::Send {
                relay: relays.last().url,
                message: ClientMessageView::Subscribe { id, filter },
            })
        } else {
            prev
        }
    }
}

/// The cancellation of `id`, sent to every relay in order.
pub open spec fn cancel_out(relays: Seq<EndpointView>, id: Seq<char>) -> Seq<RelayCommandView> {
    relays.map_values(|r: EndpointView| RelayCommandView::Send { relay: r.url, message: ClientMessageView::Cancel { id } })
}

/// A close request for every relay in order.
pub open spec fn close_out(relays: Seq<EndpointView>) -> Seq<RelayCommandView> {
    relays.map_values(|r: EndpointView| RelayCommandView::Close { relay: r.url })
}

/// One `CloseTimedOut` record for each relay still waited for.
pub open spec fn timeout_records(relays: Seq<EndpointView>) -> Seq<RawEventView> {
    relays.map_values(|r: EndpointView| RawEventView { relay: r.url, event: RelayEventView::Failure(FailureKind::CloseTimedOut) })
}

/// What an open pool does with `event` from its active relay `relay`.
pub open spec fn receive(p: PoolView, relay: Seq<char>, event: RelayEventView) -> PoolView {
    match event {
        RelayEventView::Delivery { subscription, note } => match note.id {
            Some(x) => PoolView {
                seen: p.seen.insert(x),
                unique_notes: if p.seen.contains(x) { p.unique_notes } else { p.unique_notes.push(note) },
                relay_events: p.relay_events.push(RawEventView { relay, event }),
                ..p
            },
            None => PoolView {
                relay_events: p.relay_events.push(RawEventView { relay, event: RelayEventView::Failure(FailureKind::Malformed) }),
                ..p
            },
        },
        RelayEventView::Failure(k) => PoolView {
            relays: drop_relay(p.relays, relay),
            relay_events: p.relay_events.push(RawEventView { relay, event }),
            ..p
        },
        _ => PoolView { relay_events: p.relay_events.push(RawEventView { relay, event }), ..p },
    }
}

/// A closing pool lets go of the handle for `relay`; once none is left it is closed.
pub open spec fn release(p: PoolView, relay: Seq<char>) -> PoolView {
    let rest = drop_relay(p.relays, relay);
    PoolView { relays: rest, status: if rest.len() == 0 { PoolStatus::Closed } else { PoolStatus::Closing }, ..p }
}

/// One step of the dispatch loop: the next state and the commands for the relays.
pub open spec fn next(p: PoolView, a: RelayActionView) -> (PoolView, Seq<RelayCommandView>) {
    match a {
        RelayActionView::Event { relay, event } => {
            if !has_relay(p.relays, relay) {
                (p, Seq::empty())
            } else if p.status == PoolStatus::Open {
                (receive(p, relay, event), Seq::empty())
            } else if p.status == PoolStatus::Closing && event is Failure {
                let q = release(p, relay);
                (PoolView { relay_events: p.relay_events.push(RawEventView { relay, event }), ..q }, Seq::empty())
            } else {
                (p, Seq::empty())
            }
        },
        RelayActionView::SendNote(note) => {
            if p.status == PoolStatus::Open {
                (p, publish_out(p.relays, note))
            } else {
                (p, Seq::empty())
            }
        },
        RelayActionView::Subscribe { id, filter } => {
            if p.status == PoolStatus::Open {
                (PoolView { subscriptions: p.subscriptions.insert(id, filter), ..p }, subscribe_out(p.relays, id, filter))
            } else {
                (p, Seq::empty())
            }
        },
        RelayActionView::Unsubscribe(id) => {
            if p.status == PoolStatus::Open {
                (PoolView { subscriptions: p.subscriptions.remove(id), ..p }, cancel_out(p.relays, id))
            } else {
                (p, Seq::empty())
            }
        },
        RelayActionView::Close => {
            if p.status == PoolStatus::Open {
                let s = if p.relays.len() == 0 { PoolStatus::Closed } else { PoolStatus::Closing };
                (PoolView { status: s, ..p }, close_out(p.relays))
            } else {
                (p, Seq::empty())
            }
        },
        RelayActionView::CloseAcknowledged(relay) => {
            if p.status == PoolStatus::Closing && has_relay(p.relays, relay) {
                (release(p, relay), Seq::empty())
            } else {
                (p, Seq::empty())
            }
        },
        RelayActionView::CloseTimeout => {
            if p.status == PoolStatus::Closing {
                (PoolView {
                    relays: Seq::empty(),
                    relay_events: p.relay_events + timeout_records(p.relays),
                    status: PoolStatus::Closed,
                    ..p
                }, Seq::empty())
            } else {
                (p, Seq::empty())
            }
        },
    }
}

/// The state after the inputs `acts`, in order.
pub open spec fn run(p: PoolView, acts: Seq<RelayActionView>) -> PoolView
    decreases acts.len(),
{
    if acts.len() == 0 {
        p
    } else {
        next(run(p, acts.drop_last()), acts.last()).0
    }
}

/// The invariant of every reachable state: a closed pool holds no handle, and
/// the ledger holds exactly the identifiers of the deduplicated stream, each
/// carried by one note of it.
pub open spec fn inv(p: PoolView) -> bool {
    &&& (p.status == PoolStatus::Closed ==> p.relays.len() == 0)
    &&& forall|i: int| 0 <= i < p.unique_notes.len() ==> (#[trigger] p.unique_notes[i]).id is Some
        && p.seen.contains(p.unique_notes[i].id->Some_0)
    &&& forall|i: int, j: int| 0 <= i < j < p.unique_notes.len() ==> p.unique_notes[i].id != p.unique_notes[j].id
    &&& forall|x: Seq<char>| #[trigger] p.seen.contains(x) ==> exists|i: int|
        0 <= i < p.unique_notes.len() && p.unique_notes[i].id == Some(x)
}

} // verus!
