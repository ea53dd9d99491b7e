use vstd::prelude::*;
use crate::ledger::DedupLedger;
use crate::model::{
    admitted, cancel_out, close_out, drop_relay, has_relay, initial, inv, next, publish_out,
    receive, refused, release, subscribe_out, timeout_records, wss_url, PoolStatus, PoolView,
    RelayActionView,
};
use crate::laws::lemma_next_keeps_inv;
use crate::registry::SubscriptionRegistry;
use crate::types::{
    ClientMessage, EndpointView, FailureKind, Note, RawEvent, RawEventView, RelayCommand,
    RelayCommandView, RelayEvent, Subscription, UserRelay,
};

verus! {

/// Relies on `nostro2::relays::Url::new`, which accepts an address exactly when
/// it starts with `wss://`.
#[verifier::external_body]
fn relay_url_accepted(url: &str) -> (r: bool)
    ensures
        r == wss_url(url@),
{
    nostro2::relays::Url::new(url).is_ok()
}

/// One input of the dispatch loop.
#[derive(Debug)]
pub enum RelayAction {
    /// `event` arrived from, or concerns, the relay at `relay`.
    Event { relay: String, event: RelayEvent },
    /// Publish a note to the writable relays.
    SendNote(Note),
    /// Register a subscription and send it to the readable relays.
    Subscribe(Subscription),
    /// Drop a subscription and cancel it on every relay.
    Unsubscribe(String),
    /// Shut the pool down.
    Close,
    /// The relay at this address has closed its handle.
    CloseAcknowledged(String),
    /// The time allowed for close acknowledgements has run out.
    CloseTimeout,
}

impl View for RelayAction {
    type V = RelayActionView;

    open spec fn view(&self) -> RelayActionView {
        match self {
            RelayAction::Event { relay, event } => RelayActionView::Event { relay: relay@, event: event@ },
            RelayAction::SendNote(n) => RelayActionView::SendNote(n@),
            RelayAction::Subscribe(s) => RelayActionView::Subscribe { id: s.id@, filter: s.filter@ },
            RelayAction::Unsubscribe(id) => RelayActionView::Unsubscribe(id@),
            RelayAction::Close => RelayActionView::Close,
            RelayAction::CloseAcknowledged(r) => RelayActionView::CloseAcknowledged(r@),
            RelayAction::CloseTimeout => RelayActionView::CloseTimeout,
        }
    }
}

pub open spec fn endpoints(v: Seq<UserRelay>) -> Seq<EndpointView> {
    v.map_values(|r: UserRelay| r@)
}

pub open spec fn commands(v: Seq<RelayCommand>) -> Seq<RelayCommandView> {
    v.map_values(|c: RelayCommand| c@)
}

pub open spec fn raw_events(v: Seq<RawEvent>) -> Seq<RawEventView> {
    v.map_values(|e: RawEvent| e@)
}

pub open spec fn notes(v: Seq<Note>) -> Seq<crate::types::NoteView> {
    v.map_values(|n: Note| n@)
}

/// The dispatch loop's state: the active relay handles, the deduplication
/// ledger, the subscription registry and the two output streams. It is the
/// only place where any of them changes.
pub struct RelayPool {
    relays: Vec<UserRelay>,
    ledger: DedupLedger,
    registry: SubscriptionRegistry,
    relay_events: Vec<RawEvent>,
    unique_notes: Vec<Note>,
    status: PoolStatus,
}

impl View for RelayPool {
    type V = PoolView;

    closed spec fn view(&self) -> PoolView {
        PoolView {
            relays: endpoints(self.relays@),
            seen: self.ledger@,
            subscriptions: self.registry@,
            relay_events: raw_events(self.relay_events@),
            unique_notes: notes(self.unique_notes@),
            status: self.status,
        }
    }
}

fn has_relay_exec(relays: &Vec<UserRelay>, url: &String) -> (r: bool)
    ensures
        r == has_relay(endpoints(relays@), url@),
{
    let mut i: usize = 0;
    while i < relays.len()
        invariant
            0 <= i <= relays@.len(),
            forall|j: int| 0 <= j < i ==> relays@[j].url@ != url@,
        decreases relays@.len() - i,
    {
        if relays[i].url == *url {
            assert(endpoints(relays@)[i as int].url == url@);
            return true;
        }
        i += 1;
    }
    false
}

fn without_relay(relays: &Vec<UserRelay>, url: &String) -> (r: Vec<UserRelay>)
    ensures
        endpoints(r@) == drop_relay(endpoints(relays@), url@),
{
    let ghost s = endpoints(relays@);
    let mut out: Vec<UserRelay> = Vec::new();
    let mut i: usize = 0;
    while i < relays.len()
        invariant
            0 <= i <= relays@.len(),
            s == endpoints(relays@),
            endpoints(out@) == drop_relay(s.subrange(0, i as int), url@),
        decreases relays@.len() - i,
    {
        assert(s.subrange(0, i + 1).drop_last() =~= s.subrange(0, i as int));
        if relays[i].url == *url {
        } else {
            let ghost before = out@;
            out.push(relays[i].duplicate());
            assert(endpoints(out@) =~= endpoints(before).push(s[i as int]));
        }
        i += 1;
    }
    assert(s.subrange(0, relays@.len() as int) =~= s);
    out
}

fn publish_commands(relays: &Vec<UserRelay>, note: &Note) -> (r: Vec<RelayCommand>)
    ensures
        commands(r@) == publish_out(endpoints(relays@), note@),
{
    let ghost s = endpoints(relays@);
    let mut out: Vec<RelayCommand> = Vec::new();
    let mut i: usize = 0;
    while i < relays.len()
        invariant
            0 <= i <= relays@.len(),
            s == endpoints(relays@),
            commands(out@) == publish_out(s.subrange(0, i as int), note@),
        decreases relays@.len() - i,
    {
        assert(s.subrange(0, i + 1).drop_last() =~= s.subrange(0, i as int));
        if relays[i].write {
            let ghost before = out@;
            out.push(RelayCommand::Send { relay: relays[i].url.clone(), message: ClientMessage::Publish(note.duplicate()) });
            assert(commands(out@) =~= commands(before).push(out@.last()@));
        }
        i += 1;
    }
    assert(s.subrange(0, relays@.len() as int) =~= s);
    out
}

fn subscribe_commands(relays: &Vec<UserRelay>, id: &String, filter: &String) -> (r: Vec<RelayCommand>)
    ensures
        commands(r@) == subscribe_out(endpoints(relays@), id@, filter@),
{
    let ghost s = endpoints(relays@);
    let mut out: Vec<RelayCommand> = Vec::new();
    let mut i: usize = 0;
    while i < relays.len()
        invariant
            0 <= i <= relays@.len(),
            s == endpoints(relays@),
            commands(out@) == subscribe_out(s.subrange(0, i as int), id@, filter@),
        decreases relays@.len() - i,
    {
        assert(s.subrange(0, i + 1).drop_last() =~= s.subrange(0, i as int));
        if relays[i].read {
            let ghost before = out@;
            out.push(RelayCommand::Send {
                relay: relays[i].url.clone(),
                message: ClientMessage::Subscribe { id: id.clone(), filter: filter.clone() },
            });
            assert(commands(out@) =~= commands(before).push(out@.last()@));
        }
        i += 1;
    }
    assert(s.subrange(0, relays@.len() as int) =~= s);
    out
}

fn cancel_commands(relays: &Vec<UserRelay>, id: &String) -> (r: Vec<RelayCommand>)
    ensures
        commands(r@) == cancel_out(endpoints(relays@), id@),
{
    let ghost s = endpoints(relays@);
    let mut out: Vec<RelayCommand> = Vec::new();
    let mut i: usize = 0;
    while i < relays.len()
        invariant
            0 <= i <= relays@.len(),
            s == endpoints(relays@),
            commands(out@) =~= cancel_out(s.subrange(0, i as int), id@),
        decreases relays@.len() - i,
    {
        out.push(RelayCommand::Send { relay: relays[i].url.clone(), message: ClientMessage::Cancel { id: id.clone() } });
        assert(cancel_out(s.subrange(0, i + 1), id@) =~= cancel_out(s.subrange(0, i as int), id@).push(out@.last()@));
        i += 1;
    }
    assert(s.subrange(0, relays@.len() as int) =~= s);
    out
}

fn close_commands(relays: &Vec<UserRelay>) -> (r: Vec<RelayCommand>)
    ensures
        commands(r@) == close_out(endpoints(relays@)),
{
    let ghost s = endpoints(relays@);
    let mut out: Vec<RelayCommand> = Vec::new();
    let mut i: usize = 0;
    while i < relays.len()
        invariant
            0 <= i <= relays@.len(),
            s == endpoints(relays@),
            commands(out@) =~= close_out(s.subrange(0, i as int)),
        decreases relays@.len() - i,
    {
        out.push(RelayCommand::Close { relay: relays[i].url.clone() });
        assert(close_out(s.subrange(0, i + 1)) =~= close_out(s.subrange(0, i as int)).push(out@.last()@));
        i += 1;
    }
    assert(s.subrange(0, relays@.len() as int) =~= s);
    out
}

impl RelayPool {
    /// The pool state, as a well-formed value satisfying the state invariant.
    pub closed spec fn wf(&self) -> bool {
        &&& self.registry.wf()
        &&& inv(self@)
    }

    /// Every well-formed pool satisfies the state invariant, so the laws stated
    /// over `inv` apply to it.
    pub proof fn lemma_wf_inv(&self)
        requires
            self.wf(),
        ensures
            inv(self@),
    {
    }

    /// Forwards `note` to every active writable relay; nothing is forwarded
    /// once shutdown has begun.
    pub fn send_note(&mut self, note: Note) -> (cmds: Vec<RelayCommand>)
        requires
            old(self).wf(),
        ensures
            final(self).wf(),
            (final(self)@, commands(cmds@)) == next(old(self)@, RelayActionView::SendNote(note@)),
    {
        proof {
            lemma_next_keeps_inv(self@, RelayActionView::SendNote(note@));
        }
        if self.status == PoolStatus::Open {
            publish_commands(&self.relays, &note)
        } else {
            Vec::new()
        }
    }

    /// Registers `sub` (replacing any subscription with its identifier) and
    /// forwards it to every active readable relay.
    pub fn subscribe(&mut self, sub: Subscription) -> (cmds: Vec<RelayCommand>)
        requires
            old(self).wf(),
        ensures
            final(self).wf(),
            (final(self)@, commands(cmds@)) == next(
                old(self)@,
                RelayActionView::Subscribe { id: sub.id@, filter: sub.filter@ },
            ),
    {
        proof {
            lemma_next_keeps_inv(self@, RelayActionView::Subscribe { id: sub.id@, filter: sub.filter@ });
        }
        if self.status == PoolStatus::Open {
            let cmds = subscribe_commands(&self.relays, &sub.id, &sub.filter);
            self.registry.insert(sub);
            cmds
        } else {
            Vec::new()
        }
    }

    /// Drops the subscription `id`, if any, and cancels it on every active relay.
    pub fn unsubscribe(&mut self, id: String) -> (cmds: Vec<RelayCommand>)
        requires
            old(self).wf(),
        ensures
            final(self).wf(),
            (final(self)@, commands(cmds@)) == next(old(self)@, RelayActionView::Unsubscribe(id@)),
    {
        proof {
            lemma_next_keeps_inv(self@, RelayActionView::Unsubscribe(id@));
        }
        if self.status == PoolStatus::Open {
            let cmds = cancel_commands(&self.relays, &id);
            self.registry.remove(&id);
            cmds
        } else {
            Vec::new()
        }
    }

    /// Begins shutdown: a close request goes to every active relay.
    pub fn close(&mut self) -> (cmds: Vec<RelayCommand>)
        requires
            old(self).wf(),
        ensures
            final(self).wf(),
            (final(self)@, commands(cmds@)) == next(old(self)@, RelayActionView::Close),
    {
        proof {
            lemma_next_keeps_inv(self@, RelayActionView::Close);
        }
        if self.status == PoolStatus::Open {
            let cmds = close_commands(&self.relays);
            if self.relays.len() == 0 {
                self.status = PoolStatus::Closed;
            } else {
                self.status = PoolStatus::Closing;
            }
            cmds
        } else {
            Vec::new()
        }
    }

    fn release_relay(&mut self, relay: &String)
        requires
            old(self).wf(),
            old(self)@.status == PoolStatus::Closing,
        ensures
            final(self).registry.wf(),
            final(self)@ == release(old(self)@, relay@),
    {
        self.relays = without_relay(&self.relays, relay);
        if self.relays.len() == 0 {
            self.status = PoolStatus::Closed;
        } else {
            self.status = PoolStatus::Closing;
        }
    }

    /// The relay at `relay` has closed; once every relay has, the pool is closed.
    pub fn close_acknowledged(&mut self, relay: String)
        requires
            old(self).wf(),
        ensures
            final(self).wf(),
            final(self)@ == next(old(self)@, RelayActionView::CloseAcknowledged(relay@)).0,
    {
        proof {
            lemma_next_keeps_inv(self@, RelayActionView::CloseAcknowledged(relay@));
        }
        if self.status == PoolStatus::Closing && has_relay_exec(&self.relays, &relay) {
            self.release_relay(&relay);
        }
    }

    /// The wait for close acknowledgements is over: the remaining handles are
    /// dropped, each recorded as timed out, and the pool is closed.
    pub fn close_timeout(&mut self)
        requires
            old(self).wf(),
        ensures
            final(self).wf(),
            final(self)@ == next(old(self)@, RelayActionView::CloseTimeout).0,
    {
        proof {
            lemma_next_keeps_inv(self@, RelayActionView::CloseTimeout);
        }
        if self.status == PoolStatus::Closing {
            let ghost s = endpoints(self.relays@);
            let ghost start = raw_events(self.relay_events@);
            let mut i: usize = 0;
            while i < self.relays.len()
                invariant
                    0 <= i <= self.relays@.len(),
                    s == endpoints(self.relays@),
                    raw_events(self.relay_events@) =~= start + timeout_records(s.subrange(0, i as int)),
                    self.registry.wf(),
                    self.ledger == old(self).ledger,
                    self.registry == old(self).registry,
                    self.unique_notes == old(self).unique_notes,
                    self.status == old(self).status,
                    self.relays == old(self).relays,
                decreases self.relays@.len() - i,
            {
                let url = self.relays[i].url.clone();
                let ghost before = self.relay_events@;
                self.relay_events.push(RawEvent { relay: url, event: RelayEvent::Failure(FailureKind::CloseTimedOut) });
                assert(raw_events(self.relay_events@) =~= raw_events(before).push(self.relay_events@.last()@));
                assert(timeout_records(s.subrange(0, i + 1)) =~= timeout_records(s.subrange(0, i as int)).push(
                    self.relay_events@.last()@,
                ));
                assert(raw_events(self.relay_events@) =~= start + timeout_records(s.subrange(0, i + 1)));
                i += 1;
            }
            assert(s.subrange(0, self.relays@.len() as int) =~= s);
            self.relays = Vec::new();
            self.status = PoolStatus::Closed;
            assert(endpoints(self.relays@) =~= Seq::<EndpointView>::empty());
        }
    }

    fn receive_open(&mut self, relay: String, event: RelayEvent)
        requires
            old(self).wf(),
            old(self)@.status == PoolStatus::Open,
        ensures
            final(self).registry.wf(),
            final(self)@ == receive(old(self)@, relay@, event@),
    {
        let ghost ev = event@;
        let ghost p = self@;
        match event {
            RelayEvent::Delivery { subscription, note } => {
                let fresh = match &note.id {
                    Some(x) => Some(self.ledger.check_and_mark(x)),
                    None => None,
                };
                match fresh {
                    Some(is_new) => {
                        if is_new {
                            let ghost before = self.unique_notes@;
                            self.unique_notes.push(note.duplicate());
                            assert(notes(self.unique_notes@) =~= notes(before).push(note@));
                        }
                        let ghost before = self.relay_events@;
                        self.relay_events.push(RawEvent { relay, event: RelayEvent::Delivery { subscription, note } });
                        assert(raw_events(self.relay_events@) =~= raw_events(before).push(self.relay_events@.last()@));
                    },
                    None => {
                        let ghost before = self.relay_events@;
                        self.relay_events.push(RawEvent { relay, event: RelayEvent::Failure(FailureKind::Malformed) });
                        assert(raw_events(self.relay_events@) =~= raw_events(before).push(self.relay_events@.last()@));
                    },
                }
            },
            RelayEvent::Failure(k) => {
                self.relays = without_relay(&self.relays, &relay);
                let ghost before = self.relay_events@;
                self.relay_events.push(RawEvent { relay, event: RelayEvent::Failure(k) });
                assert(raw_events(self.relay_events@) =~= raw_events(before).push(self.relay_events@.last()@));
            },
            other => {
                let ghost before = self.relay_events@;
                self.relay_events.push(RawEvent { relay, event: other });
                assert(raw_events(self.relay_events@) =~= raw_events(before).push(self.relay_events@.last()@));
            },
        }
        assert(self@ == receive(p, relay@, ev));
    }

    /// Takes in `event` from the relay at `relay`. An open pool records it on the
    /// raw stream, passes a first-seen note to the deduplicated stream, and drops
    /// a failed relay from its active set; a closing pool treats a failure as a
    /// close acknowledgement. Events from relays without an active handle are
    /// ignored.
    pub fn receive(&mut self, relay: String, event: RelayEvent)
        requires
            old(self).wf(),
        ensures
            final(self).wf(),
            final(self)@ == next(old(self)@, RelayActionView::Event { relay: relay@, event: event@ }).0,
    {
        proof {
            lemma_next_keeps_inv(self@, RelayActionView::Event { relay: relay@, event: event@ });
        }
        if !has_relay_exec(&self.relays, &relay) {
            return;
        }
        if self.status == PoolStatus::Open {
            self.receive_open(relay, event);
        } else if self.status == PoolStatus::Closing {
            if let RelayEvent::Failure(k) = event {
                self.release_relay(&relay);
                let ghost before = self.relay_events@;
                self.relay_events.push(RawEvent { relay, event: RelayEvent::Failure(k) });
                assert(raw_events(self.relay_events@) =~= raw_events(before).push(self.relay_events@.last()@));
            }
        }
    }

    /// Services one input of the dispatch loop and returns the commands for the
    /// relays, exactly as [`next`] describes.
    pub fn step(&mut self, action: RelayAction) -> (cmds: Vec<RelayCommand>)
        requires
            old(self).wf(),
        ensures
            final(self).wf(),
            (final(self)@, commands(cmds@)) == next(old(self)@, action@),
    {
        match action {
            RelayAction::Event { relay, event } => {
                self.receive(relay, event);
                Vec::new()
            },
            RelayAction::SendNote(note) => self.send_note(note),
            RelayAction::Subscribe(sub) => self.subscribe(sub),
            RelayAction::Unsubscribe(id) => self.unsubscribe(id),
            RelayAction::Close => self.close(),
            RelayAction::CloseAcknowledged(relay) => {
                self.close_acknowledged(relay);
                Vec::new()
            },
            RelayAction::CloseTimeout => {
                self.close_timeout();
                Vec::new()
            },
        }
    }

    /// Creates a pool with a handle for each endpoint whose address the relay
    /// client accepts (the first of each address only); each refused address is
    /// recorded as unreachable on the raw stream.
    pub fn new(endpoints_in: Vec<UserRelay>) -> (r: RelayPool)
        ensures
            r.wf(),
            r@ == initial(endpoints(endpoints_in@)),
    {
        let ghost s = endpoints(endpoints_in@);
        let mut relays: Vec<UserRelay> = Vec::new();
        let mut records: Vec<RawEvent> = Vec::new();
        let mut i: usize = 0;
        while i < endpoints_in.len()
            invariant
                0 <= i <= endpoints_in@.len(),
                s == endpoints(endpoints_in@),
                endpoints(relays@) == admitted(s.subrange(0, i as int)),
                raw_events(records@) == refused(s.subrange(0, i as int)),
            decreases endpoints_in@.len() - i,
        {
            assert(s.subrange(0, i + 1).drop_last() =~= s.subrange(0, i as int));
            let e = &endpoints_in[i];
            if relay_url_accepted(e.url.as_str()) {
                if !has_relay_exec(&relays, &e.url) {
                    let ghost before = relays@;
                    relays.push(e.duplicate());
                    assert(endpoints(relays@) =~= endpoints(before).push(s[i as int]));
                }
            } else {
                let ghost before = records@;
                records.push(RawEvent { relay: e.url.clone(), event: RelayEvent::Failure(FailureKind::Unreachable) });
                assert(raw_events(records@) =~= raw_events(before).push(
                    RawEventView { relay: s[i as int].url, event: crate::types::RelayEventView::Failure(FailureKind::Unreachable) },
                ));
            }
            i += 1;
        }
        assert(s.subrange(0, endpoints_in@.len() as int) =~= s);
        let r = RelayPool {
            relays,
            ledger: DedupLedger::new(),
            registry: SubscriptionRegistry::new(),
            relay_events: records,
            unique_notes: Vec::new(),
            status: PoolStatus::Open,
        };
        assert(notes(r.unique_notes@) =~= Seq::<crate::types::NoteView>::empty());
        r
    }
    /// Every event recorded so far, duplicates and failures included, oldest first.
    pub fn relay_events(&self) -> (r: &Vec<RawEvent>)
        ensures
            raw_events(r@) == self@.relay_events,
    {
        &self.relay_events
    }

    /// The first delivery of each note, oldest first.
    pub fn unique_notes(&self) -> (r: &Vec<Note>)
        ensures
            notes(r@) == self@.unique_notes,
    {
        &self.unique_notes
    }

    /// The endpoints whose handles are active.
    pub fn active_relays(&self) -> (r: &Vec<UserRelay>)
        ensures
            endpoints(r@) == self@.relays,
    {
        &self.relays
    }

    pub fn active_count(&self) -> (r: usize)
        ensures
            r == self@.relays.len(),
    {
        self.relays.len()
    }

    pub fn status(&self) -> (r: PoolStatus)
        ensures
            r == self@.status,
    {
        self.status
    }

    /// Whether a note with identifier `id` has already been surfaced.
    pub fn has_seen(&self, id: &String) -> (r: bool)
        ensures
            r == self@.seen.contains(id@),
    {
        self.ledger.seen(id)
    }

    pub fn is_subscribed(&self, id: &String) -> (r: bool)
        requires
            self.wf(),
        ensures
            r == self@.subscriptions.contains_key(id@),
    {
        self.registry.contains(id)
    }

    /// The filter registered under `id`, if any.
    pub fn subscription_filter(&self, id: &String) -> (r: Option<String>)
        requires
            self.wf(),
        ensures
            match r {
                Some(f) => self@.subscriptions.contains_key(id@) && f@ == self@.subscriptions[id@],
                None => !self@.subscriptions.contains_key(id@),
            },
    {
        self.registry.filter_of(id)
    }

    pub fn subscription_count(&self) -> (r: usize)
        requires
            self.wf(),
        ensures
            r == self@.subscriptions.len(),
    {
        self.registry.len()
    }
}

} // verus!
