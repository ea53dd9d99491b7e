use minions::{command_channel, CommandError, DedupLedger, Note, Subscription, SubscriptionRegistry, UserRelay};

#[test]
fn relay_store_config() {
    let c = UserRelay::config();
    assert_eq!(c.db_name, "test_db_relays");
    assert_eq!(c.db_version, 1);
    assert_eq!(c.store_name, "user_relays");
    assert_eq!(c.document_key, "url");
}

#[test]
fn relay_key_is_its_url() {
    let r = UserRelay { url: "wss://example.com".to_string(), read: true, write: false };
    assert_eq!(r.key(), "wss://example.com");
}

#[test]
fn ledger_check_and_mark() {
    let mut l = DedupLedger::new();
    let id = "abc".to_string();
    assert!(!l.seen(&id));
    assert!(l.check_and_mark(&id));
    assert!(!l.check_and_mark(&id));
    assert!(l.seen(&id));
    assert!(!l.seen(&"abd".to_string()));
}

#[test]
fn registry_insert_replace_remove() {
    let mut r = SubscriptionRegistry::new();
    r.insert(Subscription { id: "a".to_string(), filter: "1".to_string() });
    r.insert(Subscription { id: "b".to_string(), filter: "2".to_string() });
    r.insert(Subscription { id: "a".to_string(), filter: "3".to_string() });
    assert_eq!(r.len(), 2);
    assert_eq!(r.filter_of(&"a".to_string()), Some("3".to_string()));
    assert!(r.remove(&"a".to_string()));
    assert!(!r.remove(&"a".to_string()));
    assert!(!r.contains(&"a".to_string()));
    assert!(r.contains(&"b".to_string()));
    assert_eq!(r.len(), 1);
}

#[test]
fn command_queues_deliver_in_order() {
    let (provider, queues) = command_channel();
    let n = Note {
        id: Some("q1".to_string()),
        pubkey: String::new(),
        created_at: 0,
        kind: 1,
        tags: Vec::new(),
        content: String::new(),
        sig: None,
    };
    assert_eq!(provider.send_nostr_note(n), Ok(()));
    assert_eq!(provider.unsubscribe("x".to_string()), Ok(()));
    assert_eq!(provider.unsubscribe("y".to_string()), Ok(()));
    assert_eq!(queues.notes.try_recv().unwrap().id.as_deref(), Some("q1"));
    assert_eq!(queues.cancellations.try_recv().unwrap(), "x");
    assert_eq!(queues.cancellations.try_recv().unwrap(), "y");
    assert!(queues.subscriptions.try_recv().is_err());
}

#[test]
fn command_queue_reports_closed_loop() {
    let (provider, queues) = command_channel();
    drop(queues);
    assert_eq!(provider.close_ws(), Err(CommandError::Closed));
    assert_eq!(provider.subscribe(Subscription { id: "s".to_string(), filter: "{}".to_string() }), Err(CommandError::Closed));
}
