use swimmer::watch::{normalize_event, EventType, WatchEvent, WatchRegistration, WatchRegistry};

fn reg(id: &str, task: u8) -> WatchRegistration<u8> {
    WatchRegistration { watch_id: id.to_string(), kind: "Pods".to_string(), namespace: None, task }
}

#[test]
fn stream_items_become_modified_or_deleted() {
    assert_eq!(normalize_event(WatchEvent::Apply), Some(EventType::Modified));
    assert_eq!(normalize_event(WatchEvent::InitApply), Some(EventType::Modified));
    assert_eq!(normalize_event(WatchEvent::Delete), Some(EventType::Deleted));
    assert_eq!(normalize_event(WatchEvent::Init), None);
    assert_eq!(normalize_event(WatchEvent::InitDone), None);
    assert_eq!(EventType::Modified.name(), "modified");
    assert_eq!(EventType::Deleted.name(), "deleted");
}

#[test]
fn stopping_twice_is_a_no_op_the_second_time() {
    let mut r = WatchRegistry::new();
    assert!(r.register(reg("w1", 1)).is_ok());
    assert!(r.register(reg("w2", 2)).is_ok());
    assert_eq!(r.stop("w1"), Some(1));
    assert!(!r.contains("w1"));
    assert_eq!(r.stop("w1"), None);
    assert_eq!(r.len(), 1);
    assert!(r.contains("w2"));
}

#[test]
fn stopping_an_unknown_id_changes_nothing() {
    let mut r: WatchRegistry<u8> = WatchRegistry::new();
    assert_eq!(r.stop("nope"), None);
    assert_eq!(r.len(), 0);
}

#[test]
fn a_taken_id_is_refused_and_handed_back() {
    let mut r = WatchRegistry::new();
    assert!(r.register(reg("w1", 1)).is_ok());
    let back = r.register(reg("w1", 9));
    assert!(matches!(back, Err(g) if g.task == 9));
    assert_eq!(r.len(), 1);
    assert_eq!(r.stop("w1"), Some(1));
}
