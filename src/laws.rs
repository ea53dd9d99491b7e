use vstd::prelude::*;
use crate::model::{
    close_out, has_relay, initial, inv, next, publish_out, run, PoolStatus, PoolView,
    RelayActionView,
};
use crate::types::{ClientMessageView, EndpointView, NoteView, RawEventView, RelayCommandView, RelayEventView};

verus! {

/// How many notes of `notes` carry the identifier `x`.
pub open spec fn count_id(notes: Seq<NoteView>, x: Seq<char>) -> nat
    decreases notes.len(),
{
    if notes.len() == 0 {
        0
    } else {
        count_id(notes.drop_last(), x) + if notes.last().id == Some(x) { 1nat } else { 0nat }
    }
}

/// `a` delivers a note with identifier `x` from one of `relays`.
pub open spec fn delivers(a: RelayActionView, relays: Seq<EndpointView>, x: Seq<char>) -> bool {
    match a {
        RelayActionView::Event { relay, event } => has_relay(relays, relay) && match event {
            RelayEventView::Delivery { subscription, note } => note.id == Some(x),
            _ => false,
        },
        _ => false,
    }
}

/// The raw-stream entry that the input `a` stands for, when it is an event.
pub open spec fn raw_of(a: RelayActionView) -> RawEventView {
    match a {
        RelayActionView::Event { relay, event } => RawEventView { relay, event },
        _ => RawEventView { relay: Seq::empty(), event: RelayEventView::Other },
    }
}

proof fn lemma_count_push(notes: Seq<NoteView>, n: NoteView, x: Seq<char>)
    ensures
        count_id(notes.push(n), x) == count_id(notes, x) + if n.id == Some(x) { 1nat } else { 0nat },
{
    assert(notes.push(n).drop_last() =~= notes);
}

proof fn lemma_count_absent(notes: Seq<NoteView>, x: Seq<char>)
    requires
        forall|i: int| 0 <= i < notes.len() ==> notes[i].id != Some(x),
    ensures
        count_id(notes, x) == 0,
    decreases notes.len(),
{
    if notes.len() > 0 {
        lemma_count_absent(notes.drop_last(), x);
    }
}

proof fn lemma_count_one(notes: Seq<NoteView>, x: Seq<char>, k: int)
    requires
        0 <= k < notes.len(),
        notes[k].id == Some(x),
        forall|i: int, j: int| 0 <= i < j < notes.len() ==> notes[i].id != notes[j].id,
    ensures
        count_id(notes, x) == 1,
    decreases notes.len(),
{
    let init = notes.drop_last();
    if k == notes.len() - 1 {
        assert forall|i: int| 0 <= i < init.len() implies init[i].id != Some(x) by {
            assert(init[i] == notes[i]);
        }
        lemma_count_absent(init, x);
    } else {
        assert(init[k] == notes[k]);
        lemma_count_one(init, x, k);
    }
}

proof fn lemma_count_inv(p: PoolView, x: Seq<char>)
    requires
        inv(p),
    ensures
        count_id(p.unique_notes, x) == if p.seen.contains(x) { 1nat } else { 0nat },
{
    if p.seen.contains(x) {
        let k = choose|k: int| 0 <= k < p.unique_notes.len() && p.unique_notes[k].id == Some(x);
        lemma_count_one(p.unique_notes, x, k);
    } else {
        assert forall|i: int| 0 <= i < p.unique_notes.len() implies p.unique_notes[i].id != Some(x) by {
            assert(p.seen.contains(p.unique_notes[i].id->Some_0));
        }
        lemma_count_absent(p.unique_notes, x);
    }
}

/// Every input keeps the pool invariant: a closed pool holds no handle, and the
/// deduplicated stream holds each identifier at most once, all of them in the
/// ledger.
pub proof fn lemma_next_keeps_inv(p: PoolView, a: RelayActionView)
    requires
        inv(p),
    ensures
        inv(next(p, a).0),
{
    match a {
        RelayActionView::Event { relay, event } => {
            if has_relay(p.relays, relay) && p.status == PoolStatus::Open {
                let q = next(p, a).0;
                if let RelayEventView::Delivery { subscription, note } = event {
                    if let Some(x) = note.id {
                        assert forall|i: int| 0 <= i < q.unique_notes.len() implies (#[trigger] q.unique_notes[i]).id is Some
                            && q.seen.contains(q.unique_notes[i].id->Some_0) by {
                            if i < p.unique_notes.len() {
                                assert(q.unique_notes[i] == p.unique_notes[i]);
                            }
                        }
                        assert forall|y: Seq<char>| #[trigger] q.seen.contains(y) implies exists|i: int|
                            0 <= i < q.unique_notes.len() && q.unique_notes[i].id == Some(y) by {
                            if p.seen.contains(y) {
                                let i = choose|i: int| 0 <= i < p.unique_notes.len() && p.unique_notes[i].id == Some(y);
                                assert(q.unique_notes[i] == p.unique_notes[i]);
                            } else {
                                assert(q.unique_notes[q.unique_notes.len() - 1].id == Some(y));
                            }
                        }
                    }
                }
            }
        },
        _ => {},
    }
}

proof fn lemma_deliveries(p: PoolView, acts: Seq<RelayActionView>, x: Seq<char>)
    requires
        inv(p),
        p.status == PoolStatus::Open,
        forall|i: int| 0 <= i < acts.len() ==> delivers(#[trigger] acts[i], p.relays, x),
    ensures
        inv(run(p, acts)),
        run(p, acts).status == PoolStatus::Open,
        run(p, acts).relays == p.relays,
        run(p, acts).seen == if acts.len() > 0 { p.seen.insert(x) } else { p.seen },
        run(p, acts).relay_events == p.relay_events + Seq::new(acts.len(), |i: int| raw_of(acts[i])),
    decreases acts.len(),
{
    if acts.len() == 0 {
        assert(p.relay_events + Seq::new(0, |i: int| raw_of(acts[i])) =~= p.relay_events);
    } else {
        let init = acts.drop_last();
        assert forall|i: int| 0 <= i < init.len() implies delivers(#[trigger] init[i], p.relays, x) by {
            assert(init[i] == acts[i]);
        }
        lemma_deliveries(p, init, x);
        let q = run(p, init);
        let a = acts.last();
        assert(delivers(acts[acts.len() - 1], p.relays, x));
        lemma_next_keeps_inv(q, a);
        assert(run(p, acts).seen =~= p.seen.insert(x));
        assert(run(p, acts).relay_events =~= p.relay_events + Seq::new(acts.len(), |i: int| raw_of(acts[i])));
    }
}

/// However many of its active relays deliver a note with one identifier, the
/// deduplicated stream then holds exactly one note with that identifier, while
/// the raw stream gains every delivery, in order.
pub proof fn lemma_duplicates_surface_once(p: PoolView, acts: Seq<RelayActionView>, x: Seq<char>)
    requires
        inv(p),
        p.status == PoolStatus::Open,
        acts.len() > 0,
        forall|i: int| 0 <= i < acts.len() ==> delivers(#[trigger] acts[i], p.relays, x),
    ensures
        count_id(run(p, acts).unique_notes, x) == 1,
        run(p, acts).relay_events == p.relay_events + Seq::new(acts.len(), |i: int| raw_of(acts[i])),
        run(p, acts).relay_events.len() == p.relay_events.len() + acts.len(),
{
    lemma_deliveries(p, acts, x);
    lemma_count_inv(run(p, acts), x);
}

/// Subscribing twice under one identifier leaves one entry for it, holding the
/// second filter.
pub proof fn lemma_resubscribe_replaces(p: PoolView, id: Seq<char>, f1: Seq<char>, f2: Seq<char>)
    requires
        p.status == PoolStatus::Open,
    ensures
        ({
            let q = next(next(p, RelayActionView::Subscribe { id, filter: f1 }).0, RelayActionView::Subscribe { id, filter: f2 }).0;
            &&& q.subscriptions.contains_key(id)
            &&& q.subscriptions[id] == f2
            &&& q.subscriptions.dom() == p.subscriptions.dom().insert(id)
        }),
{
    let q = next(next(p, RelayActionView::Subscribe { id, filter: f1 }).0, RelayActionView::Subscribe { id, filter: f2 }).0;
    assert(q.subscriptions.dom() =~= p.subscriptions.dom().insert(id));
}

/// Every state that a pool reaches from its creation satisfies the invariant:
/// in particular no identifier is ever surfaced twice.
pub proof fn lemma_reachable_inv(eps: Seq<EndpointView>, acts: Seq<RelayActionView>)
    ensures
        inv(run(initial(eps), acts)),
    decreases acts.len(),
{
    if acts.len() > 0 {
        lemma_reachable_inv(eps, acts.drop_last());
        lemma_next_keeps_inv(run(initial(eps), acts.drop_last()), acts.last());
    }
}

/// In a pool reached from its creation by any inputs, however many active
/// relays deliver a note with one identifier, the deduplicated stream then
/// holds exactly one note with that identifier, while the raw stream gains
/// every delivery, in order.
pub proof fn lemma_duplicates_from_creation(
    eps: Seq<EndpointView>,
    before: Seq<RelayActionView>,
    acts: Seq<RelayActionView>,
    x: Seq<char>,
)
    requires
        run(initial(eps), before).status == PoolStatus::Open,
        acts.len() > 0,
        forall|i: int| 0 <= i < acts.len() ==> delivers(#[trigger] acts[i], run(initial(eps), before).relays, x),
    ensures
        count_id(run(run(initial(eps), before), acts).unique_notes, x) == 1,
        run(run(initial(eps), before), acts).relay_events.len() == run(initial(eps), before).relay_events.len() + acts.len(),
{
    lemma_reachable_inv(eps, before);
    lemma_duplicates_surface_once(run(initial(eps), before), acts, x);
}

/// Subscribing and then unsubscribing one identifier leaves no entry for it,
/// and leaves every other entry of the registry as it was.
pub proof fn lemma_unsubscribe_forgets(p: PoolView, id: Seq<char>, filter: Seq<char>)
    requires
        p.status == PoolStatus::Open,
    ensures
        !next(next(p, RelayActionView::Subscribe { id, filter }).0, RelayActionView::Unsubscribe(id)).0.subscriptions.contains_key(id),
        next(next(p, RelayActionView::Subscribe { id, filter }).0, RelayActionView::Unsubscribe(id)).0.subscriptions == p.subscriptions.remove(id),
{
    let q = next(next(p, RelayActionView::Subscribe { id, filter }).0, RelayActionView::Unsubscribe(id)).0;
    assert(q.subscriptions =~= p.subscriptions.remove(id));
}

/// Unsubscribing an identifier that is not registered changes nothing in the
/// pool and records nothing on its streams.
pub proof fn lemma_unsubscribe_absent(p: PoolView, id: Seq<char>)
    requires
        !p.subscriptions.contains_key(id),
    ensures
        next(p, RelayActionView::Unsubscribe(id)).0 == p,
{
    assert(p.subscriptions.remove(id) =~= p.subscriptions);
}

/// The command that publishes `note` on the relay at `url`.
pub open spec fn publish_to(url: Seq<char>, note: NoteView) -> RelayCommandView {
    RelayCommandView::Send { relay: url, message: ClientMessageView::Publish(note) }
}

/// `cmds` publishes `note` on each writable relay of `relays` and on nothing else.
pub open spec fn reaches_writable(cmds: Seq<RelayCommandView>, relays: Seq<EndpointView>, note: NoteView) -> bool {
    &&& forall|i: int| 0 <= i < cmds.len() ==> exists|j: int|
        0 <= j < relays.len() && relays[j].write && #[trigger] cmds[i] == publish_to(relays[j].url, note)
    &&& forall|j: int| 0 <= j < relays.len() && #[trigger] relays[j].write ==> cmds.contains(publish_to(relays[j].url, note))
}

proof fn lemma_publish_out(relays: Seq<EndpointView>, note: NoteView)
    ensures
        reaches_writable(publish_out(relays, note), relays, note),
    decreases relays.len(),
{
    if relays.len() > 0 {
        let init = relays.drop_last();
        lemma_publish_out(init, note);
        let prev = publish_out(init, note);
        let out = publish_out(relays, note);
        assert forall|i: int| 0 <= i < out.len() implies exists|j: int|
            0 <= j < relays.len() && relays[j].write && #[trigger] out[i] == publish_to(relays[j].url, note) by {
            if i < prev.len() {
                assert(out[i] == prev[i]);
                let j = choose|j: int| 0 <= j < init.len() && init[j].write && prev[i] == publish_to(init[j].url, note);
                assert(relays[j] == init[j]);
            } else {
                assert(relays[relays.len() - 1].write);
            }
        }
        assert forall|j: int| 0 <= j < relays.len() && #[trigger] relays[j].write implies out.contains(
            publish_to(relays[j].url, note),
        ) by {
            let c = publish_to(relays[j].url, note);
            if j < init.len() {
                assert(init[j] == relays[j]);
                assert(init[j].write);
                assert(prev.contains(c));
                let k = choose|k: int| 0 <= k < prev.len() && prev[k] == c;
                assert(out[k] == c);
            } else {
                assert(out[out.len() - 1] == c);
            }
        }
    }
}

/// A published note goes to every active writable relay and to no other relay,
/// and publishing changes nothing in the pool itself.
pub proof fn lemma_publish_reaches_writable(p: PoolView, note: NoteView)
    requires
        p.status == PoolStatus::Open,
    ensures
        next(p, RelayActionView::SendNote(note)).0 == p,
        reaches_writable(next(p, RelayActionView::SendNote(note)).1, p.relays, note),
{
    lemma_publish_out(p.relays, note);
}

/// Once shutdown has begun, no input makes the pool send anything to a relay or
/// reopen it.
pub proof fn lemma_no_service_after_close(p: PoolView, a: RelayActionView)
    requires
        p.status != PoolStatus::Open,
    ensures
        next(p, a).1 == Seq::<RelayCommandView>::empty(),
        next(p, a).0.status != PoolStatus::Open,
{
}

/// Shutdown sends a close request to every active relay, and the end of the
/// wait for acknowledgements closes the pool and drops every handle, whatever
/// the relays did in between.
pub proof fn lemma_shutdown_terminates(p: PoolView, acks: Seq<RelayActionView>)
    requires
        inv(p),
        p.status == PoolStatus::Open,
    ensures
        next(p, RelayActionView::Close).1 == close_out(p.relays),
        ({
            let q = run(next(p, RelayActionView::Close).0, acks);
            &&& next(q, RelayActionView::CloseTimeout).0.status == PoolStatus::Closed
            &&& next(q, RelayActionView::CloseTimeout).0.relays.len() == 0
        }),
{
    let closing = next(p, RelayActionView::Close).0;
    lemma_run_stays_shut(closing, acks);
}

proof fn lemma_run_stays_shut(p: PoolView, acts: Seq<RelayActionView>)
    requires
        inv(p),
        p.status != PoolStatus::Open,
    ensures
        inv(run(p, acts)),
        run(p, acts).status != PoolStatus::Open,
    decreases acts.len(),
{
    if acts.len() > 0 {
        lemma_run_stays_shut(p, acts.drop_last());
        lemma_next_keeps_inv(run(p, acts.drop_last()), acts.last());
    }
}

} // verus!
