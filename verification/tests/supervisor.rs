use bytes::Bytes;
use zonelog::EventRecord;
use zonelog::IdentityRecord;
use zonelog::IdentityTable;
use zonelog::LoggerSignal;
use zonelog::start_logger;

fn identity(uuid: &str, owner: &str, alias: Option<&str>) -> IdentityRecord {
    IdentityRecord {
        uuid: uuid.to_string(),
        owner_uuid: owner.to_string(),
        alias: alias.map(|a| a.to_string()),
    }
}

#[test]
fn unknown_zone_gets_no_logger() {
    let mut table = IdentityTable::new();
    table.update(7, identity("vm-7", "acct-1", None));
    assert!(start_logger(3, &table).is_none());
    assert!(start_logger(7, &table).is_some());
}

#[test]
fn lookup_sees_published_records() {
    let mut table = IdentityTable::new();
    assert!(table.lookup(1).is_none());
    assert!(!table.contains(1));
    table.update(1, identity("vm-1", "acct-9", Some("web")));
    assert!(table.contains(1));
    let rec = table.lookup(1).unwrap();
    assert_eq!(rec.uuid, "vm-1");
    assert_eq!(rec.owner_uuid, "acct-9");
    assert_eq!(rec.alias.as_deref(), Some("web"));
    table.update(1, identity("vm-1", "acct-9", None));
    assert!(table.lookup(1).unwrap().alias.is_none());
}

#[test]
fn sent_payloads_reach_the_worker_in_order() {
    let mut table = IdentityTable::new();
    table.update(4, identity("vm-4", "acct-1", None));
    let (logger, task) = start_logger(4, &table).unwrap();
    logger.send(Bytes::from_static(b"one")).unwrap();
    logger.send(Bytes::from_static(b"two")).unwrap();
    assert_eq!(task.events.recv().unwrap(), Bytes::from_static(b"one"));
    assert_eq!(task.events.recv().unwrap(), Bytes::from_static(b"two"));
    logger.shutdown().unwrap();
    assert!(matches!(task.signal.recv().unwrap(), LoggerSignal::Shutdown));
}

#[test]
fn send_after_worker_exit_fails_with_payload_back() {
    let mut table = IdentityTable::new();
    table.update(4, identity("vm-4", "acct-1", None));
    let (logger, task) = start_logger(4, &table).unwrap();
    drop(task);
    let err = logger.send(Bytes::from_static(b"late")).unwrap_err();
    assert_eq!(err.0, Bytes::from_static(b"late"));
    let err = logger.shutdown().unwrap_err();
    assert!(matches!(err.0, LoggerSignal::Shutdown));
    // a repeated shutdown still fails cleanly instead of panicking
    assert!(logger.shutdown().is_err());
}

#[test]
fn alias_is_frozen_at_worker_start() {
    let mut table = IdentityTable::new();
    table.update(1, identity("vm-1", "acct-9", Some("web")));
    let (logger, mut task) = start_logger(1, &table).unwrap();
    task.worker.start();

    let expected = "{\"type\":\"block\",\"proto\":\"tcp\",\"vm\":\"vm-1\",\"alias\":\"web\"}\n";

    // first payload, parsed by the dispatch-side collaborator to two fields
    logger.send(Bytes::from_static(b"raw-event-1")).unwrap();
    let _payload = task.events.recv().unwrap();
    let mut ev = EventRecord::new();
    ev.push_field("type".to_string(), "block".to_string());
    ev.push_field("proto".to_string(), "tcp".to_string());
    let first = task.worker.handle_event(&ev);
    assert!(first.is_none());

    // the alias is cleared in the table after the worker started
    table.update(1, identity("vm-1", "acct-9", None));

    // the second, identical payload still logs the alias captured at start
    logger.send(Bytes::from_static(b"raw-event-2")).unwrap();
    let _payload = task.events.recv().unwrap();
    let mut ev = EventRecord::new();
    ev.push_field("type".to_string(), "block".to_string());
    ev.push_field("proto".to_string(), "tcp".to_string());
    task.worker.handle_event(&ev);

    logger.shutdown().unwrap();
    assert!(matches!(task.signal.recv().unwrap(), LoggerSignal::Shutdown));
    let chunk = task.worker.handle_signal(LoggerSignal::Shutdown).unwrap();
    task.worker.complete();

    let mut both = String::new();
    both.push_str(expected);
    both.push_str(expected);
    assert_eq!(chunk, both.as_bytes().to_vec());
}
