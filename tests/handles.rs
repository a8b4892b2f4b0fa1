use iroh_ffi::boundary::{Boundary, IrohDocHandle, IrohNodeHandle, IrohSubscriptionHandle};
use iroh_ffi::buffer::{IrohBytes, TextArg};
use iroh_ffi::error::{ArgName, BridgeError};
use iroh_ffi::registry::{HandleKey, HandleRegistry};
use iroh_ffi::subscription::SubscriptionControl;

#[test]
fn registry_insert_get_remove() {
    let mut r: HandleRegistry<&str> = HandleRegistry::new();
    let a = r.insert("a");
    let b = r.insert("b");
    assert_ne!(a, b);
    assert_eq!(r.get(a), Some(&"a"));
    assert_eq!(r.get(b), Some(&"b"));
    assert_eq!(r.remove(a), Some("a"));
    assert_eq!(r.get(a), None);
    assert!(!r.contains(a));
    assert!(r.contains(b));
}

#[test]
fn registry_double_remove_is_detected() {
    let mut r: HandleRegistry<u32> = HandleRegistry::new();
    let k = r.insert(7);
    assert_eq!(r.remove(k), Some(7));
    assert_eq!(r.remove(k), None);
}

#[test]
fn registry_reused_slot_gets_new_generation() {
    let mut r: HandleRegistry<u32> = HandleRegistry::new();
    let old = r.insert(1);
    r.remove(old);
    let new = r.insert(2);
    assert_eq!(new.index, old.index);
    assert_eq!(new.generation, old.generation + 1);
    assert_eq!(r.get(old), None);
    assert_eq!(r.get(new), Some(&2));
}

#[test]
fn registry_unknown_handle_is_not_live() {
    let r: HandleRegistry<u32> = HandleRegistry::new();
    assert_eq!(r.get(HandleKey { index: 3, generation: 0 }), None);
}

#[test]
fn null_node_handle_is_a_usage_error() {
    let b: Boundary<u32, u32> = Boundary::new();
    let e = b.node(None).unwrap_err();
    assert_eq!(e, BridgeError::NullArgument(ArgName::Handle));
    assert_eq!(e.message(), "handle cannot be null");
}

#[test]
fn destroyed_node_handle_is_stale() {
    let mut b: Boundary<u32, u32> = Boundary::new();
    let h = b.register_node(5, false);
    assert_eq!(b.node(Some(h)), Ok(&5));
    assert_eq!(b.destroy_node(Some(h)), Some(5));
    assert_eq!(b.node(Some(h)), Err(BridgeError::StaleHandle(ArgName::Handle)));
    assert_eq!(b.destroy_node(Some(h)), None);
    assert_eq!(b.destroy_node(None), None);
}

#[test]
fn close_node_reports_null_and_stale() {
    let mut b: Boundary<u32, u32> = Boundary::new();
    let h = b.register_node(9, true);
    let e = b.close_node(None).unwrap_err();
    assert_eq!(e, BridgeError::NullArgument(ArgName::Handle));
    assert_eq!(e.message(), "handle cannot be null");
    assert_eq!(b.close_node(Some(h)), Ok(9));
    assert_eq!(b.close_node(Some(h)), Err(BridgeError::StaleHandle(ArgName::Handle)));
}

#[test]
fn read_content_needs_document_sync() {
    let mut b: Boundary<u32, u32> = Boundary::new();
    let plain = b.register_node(1, false);
    let synced = b.register_node(2, true);
    let e = b.prepare_read_content(Some(plain), TextArg::Text("abcd".to_string())).unwrap_err();
    assert_eq!(e, BridgeError::DocsNotEnabled);
    assert_eq!(e.message(), "docs not enabled on this node");
    assert_eq!(
        b.prepare_read_content(Some(synced), TextArg::Null).unwrap_err(),
        BridgeError::NullArgument(ArgName::ContentHash)
    );
    let (n, hash) = b.prepare_read_content(Some(synced), TextArg::Text("abcd".to_string())).unwrap();
    assert_eq!((*n, hash.as_str()), (2, "abcd"));
}

#[test]
fn docs_disabled_node_refuses_document_operations() {
    let mut b: Boundary<u32, &str> = Boundary::new();
    let h = b.register_node(1, false);
    let e = b.docs_node(Some(h)).unwrap_err();
    assert_eq!(e, BridgeError::DocsNotEnabled);
    assert_eq!(e.message(), "docs not enabled on this node");
    assert_eq!(b.register_doc(h, "doc").unwrap_err(), BridgeError::DocsNotEnabled);
    let e = b.prepare_doc_join(Some(h), TextArg::Text("docticket".to_string())).unwrap_err();
    assert_eq!(e, BridgeError::DocsNotEnabled);
}

#[test]
fn document_resolves_to_its_node() {
    let mut b: Boundary<u32, &str> = Boundary::new();
    let h = b.register_node(1, true);
    assert_eq!(b.docs_node(Some(h)), Ok(&1));
    let d = b.register_doc(h, "doc").unwrap();
    assert_eq!(b.doc(Some(d)), Ok((&"doc", &1)));
}

#[test]
fn document_of_destroyed_node_reports_the_node() {
    let mut b: Boundary<u32, &str> = Boundary::new();
    let h = b.register_node(1, true);
    let d = b.register_doc(h, "doc").unwrap();
    b.destroy_node(Some(h));
    let e = b.doc(Some(d)).unwrap_err();
    assert_eq!(e, BridgeError::StaleHandle(ArgName::Handle));
    assert_eq!(e.message(), "handle does not refer to a live object");
}

#[test]
fn closed_document_handle_is_stale() {
    let mut b: Boundary<u32, &str> = Boundary::new();
    let h = b.register_node(1, true);
    let d = b.register_doc(h, "doc").unwrap();
    assert_eq!(b.close_doc(Some(d)), Some("doc"));
    assert_eq!(b.close_doc(Some(d)), None);
    assert_eq!(b.doc(Some(d)), Err(BridgeError::StaleHandle(ArgName::DocHandle)));
    assert_eq!(b.doc(None), Err(BridgeError::NullArgument(ArgName::DocHandle)));
    let never = IrohDocHandle { key: HandleKey { index: 40, generation: 0 } };
    assert_eq!(b.doc(Some(never)), Err(BridgeError::StaleHandle(ArgName::DocHandle)));
}

#[test]
fn cancel_sends_one_signal() {
    let mut b: Boundary<u32, u32> = Boundary::new();
    let (tx, mut rx) = tokio::sync::oneshot::channel::<()>();
    let s = b.register_subscription(SubscriptionControl::new(tx));
    let sent = b.cancel_subscription(Some(s)).unwrap();
    assert!(sent.was_listening());
    assert_eq!(rx.try_recv(), Ok(()));
    assert!(b.cancel_subscription(Some(s)).is_none());
    assert!(b.cancel_subscription(None).is_none());
}

#[test]
fn control_cancel_twice_sends_once() {
    let (tx, mut rx) = tokio::sync::oneshot::channel::<()>();
    let mut c = SubscriptionControl::new(tx);
    assert!(c.cancel().is_some());
    assert!(c.cancel().is_none());
    assert_eq!(rx.try_recv(), Ok(()));
}

#[test]
fn cancel_with_unknown_handle_sends_nothing() {
    let mut b: Boundary<u32, u32> = Boundary::new();
    let (tx, mut rx) = tokio::sync::oneshot::channel::<()>();
    let s = b.register_subscription(SubscriptionControl::new(tx));
    let other = IrohSubscriptionHandle { key: HandleKey { index: s.key.index, generation: s.key.generation + 1 } };
    assert!(b.cancel_subscription(Some(other)).is_none());
    assert!(rx.try_recv().is_err());
}

#[test]
fn prepare_put_copies_the_bytes() {
    let mut b: Boundary<u32, u32> = Boundary::new();
    let h = b.register_node(3, false);
    let data = [1u8, 2, 3];
    let (n, copy) = b.prepare_put(Some(h), &IrohBytes { data: Some(&data) }).unwrap();
    assert_eq!(*n, 3);
    assert_eq!(copy, vec![1, 2, 3]);
    let (_, empty) = b.prepare_put(Some(h), &IrohBytes { data: None }).unwrap();
    assert!(empty.is_empty());
    assert_eq!(
        b.prepare_put(None, &IrohBytes { data: Some(&data) }).unwrap_err(),
        BridgeError::NullArgument(ArgName::Handle)
    );
}

#[test]
fn prepare_text_checks_handle_before_argument() {
    let mut b: Boundary<u32, u32> = Boundary::new();
    let h = b.register_node(3, false);
    assert_eq!(
        b.prepare_text(None, TextArg::Null, ArgName::Ticket).unwrap_err(),
        BridgeError::NullArgument(ArgName::Handle)
    );
    let e = b.prepare_text(Some(h), TextArg::Null, ArgName::Ticket).unwrap_err();
    assert_eq!(e.message(), "ticket cannot be null");
    let e = b
        .prepare_text(Some(h), TextArg::NotUtf8("bad byte at 2".to_string()), ArgName::ContentHash)
        .unwrap_err();
    assert_eq!(e.message(), "Invalid UTF-8 in content_hash: bad byte at 2");
    let (n, t) = b.prepare_text(Some(h), TextArg::Text("blobabc".to_string()), ArgName::Ticket).unwrap();
    assert_eq!((*n, t.as_str()), (3, "blobabc"));
}

#[test]
fn prepare_tag_set_checks_tag_before_hash() {
    let mut b: Boundary<u32, u32> = Boundary::new();
    let h = b.register_node(3, false);
    assert_eq!(
        b.prepare_tag_set(Some(h), TextArg::Null, TextArg::Null).unwrap_err(),
        BridgeError::NullArgument(ArgName::TagName)
    );
    assert_eq!(
        b.prepare_tag_set(Some(h), TextArg::Text("pin".to_string()), TextArg::Null).unwrap_err(),
        BridgeError::NullArgument(ArgName::HashStr)
    );
    let (_, tag, hash) = b
        .prepare_tag_set(Some(h), TextArg::Text("pin".to_string()), TextArg::Text("ab".to_string()))
        .unwrap();
    assert_eq!((tag.as_str(), hash.as_str()), ("pin", "ab"));
}

#[test]
fn prepare_doc_set_copies_key_and_value() {
    let mut b: Boundary<u32, &str> = Boundary::new();
    let h = b.register_node(1, true);
    let d = b.register_doc(h, "doc").unwrap();
    let key = *b"a/1";
    let value = *b"v";
    let (doc, node, k, v) = b
        .prepare_doc_set(Some(d), &IrohBytes { data: Some(&key) }, &IrohBytes { data: Some(&value) })
        .unwrap();
    assert_eq!((*doc, *node), ("doc", 1));
    assert_eq!(k, b"a/1".to_vec());
    assert_eq!(v, b"v".to_vec());
    let (_, _, prefix) = b.prepare_doc_key(Some(d), &IrohBytes { data: None }).unwrap();
    assert!(prefix.is_empty());
    assert_eq!(
        b.prepare_doc_key(None, &IrohBytes { data: None }).unwrap_err(),
        BridgeError::NullArgument(ArgName::DocHandle)
    );
}

#[test]
fn node_handles_are_fresh() {
    let mut b: Boundary<u32, u32> = Boundary::new();
    let h1 = b.register_node(1, false);
    b.destroy_node(Some(h1));
    let h2 = b.register_node(2, false);
    assert_ne!(h1, h2);
    assert_eq!(b.node(Some(h2)), Ok(&2));
    let _ = IrohNodeHandle { key: h1.key };
}

#[test]
fn registry_handles_never_repeat() {
    let mut r: HandleRegistry<u32> = HandleRegistry::new();
    let mut seen = Vec::new();
    for i in 0..20u32 {
        let k = r.insert(i);
        assert!(!seen.contains(&k));
        seen.push(k);
        if i % 3 != 0 {
            assert_eq!(r.remove(k), Some(i));
        }
    }
    for k in &seen {
        assert!(r.get(*k).is_none() || r.contains(*k));
    }
}

#[test]
fn cancel_after_receiver_dropped_still_sends_once() {
    let (tx, rx) = tokio::sync::oneshot::channel::<()>();
    drop(rx);
    let mut c = SubscriptionControl::new(tx);
    let sent = c.cancel().unwrap();
    assert!(!sent.was_listening());
    assert!(c.cancel().is_none());
}
