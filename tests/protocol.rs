use iroh_ffi::events::{
    convert_live_event, iroh_doc_event_free, ticket_info, EntryRecord, IrohDocEventType,
    LiveEventRecord, ParsedTicket,
};
use iroh_ffi::buffer::TextArg;
use iroh_ffi::stream::{Delivery, SourceEvent, StreamRelay};

fn kinds(ds: &[Delivery<u32>]) -> Vec<String> {
    ds.iter()
        .map(|d| match d {
            Delivery::Item(x) => format!("item {}", x),
            Delivery::Complete => "complete".to_string(),
            Delivery::Failure(m) => format!("failure {}", m),
            Delivery::Nothing => "nothing".to_string(),
        })
        .collect()
}

#[test]
fn relay_delivers_items_then_one_completion() {
    let mut r = StreamRelay::new();
    let out = vec![
        r.observe(SourceEvent::Item(1)),
        r.observe(SourceEvent::Item(2)),
        r.observe(SourceEvent::Ended),
        r.observe(SourceEvent::Item(3)),
        r.observe(SourceEvent::Ended),
    ];
    assert_eq!(kinds(&out), vec!["item 1", "item 2", "complete", "nothing", "nothing"]);
}

#[test]
fn relay_failure_is_final() {
    let mut r = StreamRelay::new();
    let out = vec![
        r.observe(SourceEvent::Item(1)),
        r.observe(SourceEvent::Failed("boom".to_string())),
        r.observe(SourceEvent::Cancelled),
        r.observe(SourceEvent::Failed("again".to_string())),
    ];
    assert_eq!(kinds(&out), vec!["item 1", "failure boom", "nothing", "nothing"]);
}

#[test]
fn relay_cancellation_completes_cleanly() {
    let mut r = StreamRelay::<u32>::new();
    let out = vec![r.observe(SourceEvent::Cancelled), r.observe(SourceEvent::Item(9))];
    assert_eq!(kinds(&out), vec!["complete", "nothing"]);
}

fn entry(key: &[u8]) -> EntryRecord {
    EntryRecord {
        author: [7u8; 32],
        key: key.to_vec(),
        content_hash: "hash1".to_string(),
        content_len: 5,
        timestamp: 1000,
    }
}

#[test]
fn insert_remote_event_carries_entry_and_peer() {
    let ev = convert_live_event(LiveEventRecord::InsertRemote { from: "peer1".to_string(), entry: entry(b"k") });
    assert_eq!(ev.event_type, IrohDocEventType::InsertRemote);
    assert_eq!(ev.peer_id.as_deref(), Some("peer1"));
    assert!(ev.content_hash.is_none());
    let e = ev.entry.as_ref().unwrap();
    assert_eq!(e.author_id.bytes, [7u8; 32]);
    assert_eq!(e.key.data, b"k".to_vec());
    assert_eq!(e.content_hash, "hash1");
    assert_eq!((e.content_size, e.timestamp), (5, 1000));
    iroh_doc_event_free(ev);
}

#[test]
fn insert_local_event_has_no_peer() {
    let ev = convert_live_event(LiveEventRecord::InsertLocal { entry: entry(b"a/1") });
    assert_eq!(ev.event_type, IrohDocEventType::InsertLocal);
    assert!(ev.peer_id.is_none());
    assert!(ev.entry.is_some());
}

#[test]
fn content_ready_event_carries_hash_only() {
    let ev = convert_live_event(LiveEventRecord::ContentReady { hash: "h".to_string() });
    assert_eq!(ev.event_type, IrohDocEventType::ContentReady);
    assert_eq!(ev.content_hash.as_deref(), Some("h"));
    assert!(ev.entry.is_none() && ev.peer_id.is_none());
}

#[test]
fn swarm_events_carry_the_peer() {
    let cases = [
        (LiveEventRecord::NeighborUp { peer: "p".to_string() }, IrohDocEventType::NeighborUp),
        (LiveEventRecord::NeighborDown { peer: "p".to_string() }, IrohDocEventType::NeighborDown),
        (LiveEventRecord::SyncFinished { peer: "p".to_string() }, IrohDocEventType::SyncFinished),
    ];
    for (rec, kind) in cases {
        let ev = convert_live_event(rec);
        assert_eq!(ev.event_type, kind);
        assert_eq!(ev.peer_id.as_deref(), Some("p"));
        assert!(ev.entry.is_none() && ev.content_hash.is_none());
    }
    let ev = convert_live_event(LiveEventRecord::PendingContentReady);
    assert_eq!(ev.event_type, IrohDocEventType::PendingContentReady);
    assert!(ev.entry.is_none() && ev.peer_id.is_none() && ev.content_hash.is_none());
}

#[test]
fn ticket_validation_never_fails() {
    let null = ticket_info(&TextArg::Null, None);
    assert!(!null.is_valid && null.hash.is_none() && null.node_id.is_none() && !null.is_recursive);
    let bad_utf8 = ticket_info(&TextArg::NotUtf8("x".to_string()), None);
    assert!(!bad_utf8.is_valid);
    let empty = ticket_info(&TextArg::Text(String::new()), None);
    assert!(!empty.is_valid);
    let garbage = ticket_info(&TextArg::Text("not a ticket".to_string()), None);
    assert!(!garbage.is_valid && garbage.hash.is_none());
    let parsed = ParsedTicket { hash: "h".to_string(), node_id: "n".to_string(), recursive: true };
    let good = ticket_info(&TextArg::Text("blobxyz".to_string()), Some(parsed));
    assert!(good.is_valid && good.is_recursive);
    assert_eq!(good.hash.as_deref(), Some("h"));
    assert_eq!(good.node_id.as_deref(), Some("n"));
}
