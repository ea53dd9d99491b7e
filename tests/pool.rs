use minions::{
    ClientMessage, FailureKind, Note, PoolStatus, RelayAction, RelayCommand, RelayEvent, RelayPool,
    Subscription, UserRelay,
};

fn relay(url: &str, read: bool, write: bool) -> UserRelay {
    UserRelay { url: url.to_string(), read, write }
}

fn note(id: &str, kind: u32) -> Note {
    Note {
        id: Some(id.to_string()),
        pubkey: "ab12".to_string(),
        created_at: 1_700_000_000,
        kind,
        tags: vec![vec!["p".to_string(), "cd34".to_string()]],
        content: "hello".to_string(),
        sig: Some("ef56".to_string()),
    }
}

fn delivery(relay: &str, sub: &str, n: Note) -> RelayAction {
    RelayAction::Event {
        relay: relay.to_string(),
        event: RelayEvent::Delivery { subscription: sub.to_string(), note: n },
    }
}

fn sub(id: &str, filter: &str) -> Subscription {
    Subscription { id: id.to_string(), filter: filter.to_string() }
}

fn targets(cmds: &[RelayCommand]) -> Vec<String> {
    cmds.iter()
        .map(|c| match c {
            RelayCommand::Send { relay, .. } => relay.clone(),
            RelayCommand::Close { relay } => relay.clone(),
        })
        .collect()
}

const A: &str = "wss://relay.a.example";
const B: &str = "wss://relay.b.example";
const C: &str = "wss://relay.c.example";

#[test]
fn two_relays_same_note_surfaces_once() {
    let mut pool = RelayPool::new(vec![relay(A, true, true), relay(B, true, true)]);
    assert!(pool.step(delivery(A, "s", note("n1", 1))).is_empty());
    assert!(pool.step(delivery(B, "s", note("n1", 1))).is_empty());
    assert_eq!(pool.unique_notes().len(), 1);
    assert_eq!(pool.unique_notes()[0].id.as_deref(), Some("n1"));
    assert_eq!(pool.relay_events().len(), 2);
    assert_eq!(pool.relay_events()[0].relay, A);
    assert_eq!(pool.relay_events()[1].relay, B);
    assert!(pool.has_seen(&"n1".to_string()));
}

#[test]
fn n_deliveries_of_one_id_give_n_raw_entries() {
    let mut pool = RelayPool::new(vec![relay(A, true, true), relay(B, true, false), relay(C, true, true)]);
    for r in [A, B, C, A, B] {
        pool.step(delivery(r, "s", note("x", 7)));
    }
    pool.step(delivery(C, "s", note("y", 7)));
    assert_eq!(pool.relay_events().len(), 6);
    let ids: Vec<&str> = pool.unique_notes().iter().map(|n| n.id.as_deref().unwrap()).collect();
    assert_eq!(ids, vec!["x", "y"]);
}

#[test]
fn unreachable_relay_leaves_an_empty_usable_pool() {
    let mut pool = RelayPool::new(vec![relay(A, true, true)]);
    pool.step(RelayAction::Event { relay: A.to_string(), event: RelayEvent::Failure(FailureKind::Unreachable) });
    assert_eq!(pool.active_count(), 0);
    assert_eq!(pool.status(), PoolStatus::Open);
    let cmds = pool.step(RelayAction::SendNote(note("n2", 1)));
    assert!(cmds.is_empty());
    assert!(matches!(pool.relay_events()[0].event, RelayEvent::Failure(FailureKind::Unreachable)));
    let cmds = pool.step(RelayAction::Subscribe(sub("s9", "{\"kinds\":[1]}")));
    assert!(cmds.is_empty());
    assert!(pool.is_subscribed(&"s9".to_string()));
}

#[test]
fn refused_address_gets_no_handle() {
    let pool = RelayPool::new(vec![relay("ws://plain.example", true, true), relay(A, true, true)]);
    assert_eq!(pool.active_count(), 1);
    assert_eq!(pool.active_relays()[0].url, A);
    assert_eq!(pool.relay_events().len(), 1);
    assert_eq!(pool.relay_events()[0].relay, "ws://plain.example");
    assert!(matches!(pool.relay_events()[0].event, RelayEvent::Failure(FailureKind::Unreachable)));
}

#[test]
fn duplicate_address_gets_one_handle() {
    let pool = RelayPool::new(vec![relay(A, true, false), relay(A, false, true), relay(B, true, true)]);
    assert_eq!(pool.active_count(), 2);
    assert!(pool.active_relays()[0].read);
    assert!(!pool.active_relays()[0].write);
    assert!(pool.relay_events().is_empty());
}

#[test]
fn subscribe_then_unsubscribe_forgets_the_subscription() {
    let mut pool = RelayPool::new(vec![relay(A, true, true)]);
    let cmds = pool.step(RelayAction::Subscribe(sub("s1", "{\"kinds\":[1]}")));
    assert_eq!(targets(&cmds), vec![A.to_string()]);
    assert!(pool.is_subscribed(&"s1".to_string()));
    let cmds = pool.step(RelayAction::Unsubscribe("s1".to_string()));
    assert_eq!(targets(&cmds), vec![A.to_string()]);
    assert!(matches!(&cmds[0], RelayCommand::Send { message: ClientMessage::Cancel { id }, .. } if id == "s1"));
    assert!(!pool.is_subscribed(&"s1".to_string()));
    assert_eq!(pool.subscription_filter(&"s1".to_string()), None);
    assert_eq!(pool.subscription_count(), 0);
}

#[test]
fn resubscribe_replaces_filter() {
    let mut pool = RelayPool::new(vec![relay(A, true, true)]);
    pool.step(RelayAction::Subscribe(sub("s1", "{\"kinds\":[1]}")));
    pool.step(RelayAction::Subscribe(sub("s1", "{\"kinds\":[7]}")));
    assert_eq!(pool.subscription_count(), 1);
    assert_eq!(pool.subscription_filter(&"s1".to_string()), Some("{\"kinds\":[7]}".to_string()));
}

#[test]
fn unsubscribe_absent_changes_nothing() {
    let mut pool = RelayPool::new(vec![relay(A, true, true)]);
    pool.step(RelayAction::Subscribe(sub("s1", "f")));
    let before = pool.relay_events().len();
    pool.step(RelayAction::Unsubscribe("nope".to_string()));
    assert_eq!(pool.relay_events().len(), before);
    assert_eq!(pool.subscription_count(), 1);
    assert_eq!(pool.status(), PoolStatus::Open);
}

#[test]
fn publish_skips_read_only_relays() {
    let mut pool = RelayPool::new(vec![relay(A, true, false), relay(B, true, true), relay(C, false, true)]);
    let cmds = pool.step(RelayAction::SendNote(note("n3", 1)));
    assert_eq!(targets(&cmds), vec![B.to_string(), C.to_string()]);
    for c in &cmds {
        assert!(matches!(c, RelayCommand::Send { message: ClientMessage::Publish(n), .. } if n.id.as_deref() == Some("n3")));
    }
}

#[test]
fn subscribe_skips_write_only_relays() {
    let mut pool = RelayPool::new(vec![relay(A, true, false), relay(B, false, true), relay(C, false, false)]);
    let cmds = pool.step(RelayAction::Subscribe(sub("s2", "{}")));
    assert_eq!(targets(&cmds), vec![A.to_string()]);
    let cmds = pool.step(RelayAction::Unsubscribe("s2".to_string()));
    assert_eq!(targets(&cmds), vec![A.to_string(), B.to_string(), C.to_string()]);
}

#[test]
fn shutdown_times_out_on_silent_relay() {
    let mut pool = RelayPool::new(vec![relay(A, true, true), relay(B, true, true)]);
    let cmds = pool.step(RelayAction::Close);
    assert_eq!(cmds.len(), 2);
    assert!(cmds.iter().all(|c| matches!(c, RelayCommand::Close { .. })));
    assert_eq!(pool.status(), PoolStatus::Closing);
    pool.step(RelayAction::CloseAcknowledged(A.to_string()));
    assert_eq!(pool.status(), PoolStatus::Closing);
    assert_eq!(pool.active_count(), 1);
    assert!(pool.step(RelayAction::SendNote(note("late", 1))).is_empty());
    pool.step(RelayAction::CloseTimeout);
    assert_eq!(pool.status(), PoolStatus::Closed);
    assert_eq!(pool.active_count(), 0);
    let last = pool.relay_events().last().unwrap();
    assert_eq!(last.relay, B);
    assert!(matches!(last.event, RelayEvent::Failure(FailureKind::CloseTimedOut)));
}

#[test]
fn shutdown_completes_when_all_acknowledge() {
    let mut pool = RelayPool::new(vec![relay(A, true, true), relay(B, true, true)]);
    pool.step(RelayAction::Close);
    pool.step(RelayAction::CloseAcknowledged(B.to_string()));
    pool.step(RelayAction::Event { relay: A.to_string(), event: RelayEvent::Failure(FailureKind::ConnectionLost) });
    assert_eq!(pool.status(), PoolStatus::Closed);
    assert!(pool.step(RelayAction::Subscribe(sub("s", "f"))).is_empty());
    assert!(!pool.is_subscribed(&"s".to_string()));
}

#[test]
fn empty_pool_closes_at_once() {
    let mut pool = RelayPool::new(Vec::new());
    assert!(pool.step(RelayAction::Close).is_empty());
    assert_eq!(pool.status(), PoolStatus::Closed);
}

#[test]
fn delivery_without_id_is_dropped_as_malformed() {
    let mut pool = RelayPool::new(vec![relay(A, true, true)]);
    let mut n = note("z", 1);
    n.id = None;
    pool.step(delivery(A, "s", n));
    assert!(pool.unique_notes().is_empty());
    assert_eq!(pool.relay_events().len(), 1);
    assert!(matches!(pool.relay_events()[0].event, RelayEvent::Failure(FailureKind::Malformed)));
}

#[test]
fn failed_relay_stops_receiving_publications() {
    let mut pool = RelayPool::new(vec![relay(A, true, true), relay(B, true, true)]);
    pool.step(RelayAction::Event { relay: A.to_string(), event: RelayEvent::Failure(FailureKind::ConnectionLost) });
    assert_eq!(pool.active_count(), 1);
    let cmds = pool.step(RelayAction::SendNote(note("n4", 1)));
    assert_eq!(targets(&cmds), vec![B.to_string()]);
    pool.step(delivery(A, "s", note("n5", 1)));
    assert!(pool.unique_notes().is_empty());
}

#[test]
fn notices_go_to_raw_stream_only() {
    let mut pool = RelayPool::new(vec![relay(A, true, true)]);
    pool.step(RelayAction::Event { relay: A.to_string(), event: RelayEvent::Notice { message: "slow down".to_string() } });
    pool.step(RelayAction::Event { relay: A.to_string(), event: RelayEvent::EndOfStored { subscription: "s".to_string() } });
    assert_eq!(pool.relay_events().len(), 2);
    assert!(pool.unique_notes().is_empty());
    assert_eq!(pool.active_count(), 1);
}

#[test]
fn surfaced_note_keeps_its_fields() {
    let mut pool = RelayPool::new(vec![relay(A, true, true)]);
    pool.step(delivery(A, "s", note("n6", 30023)));
    let n = &pool.unique_notes()[0];
    assert_eq!(n.kind, 30023);
    assert_eq!(n.content, "hello");
    assert_eq!(n.tags, vec![vec!["p".to_string(), "cd34".to_string()]]);
    assert_eq!(n.sig.as_deref(), Some("ef56"));
}
