use altre::editor::kill_ring::KillRing;

#[test]
fn push_and_front() {
    let mut ring = KillRing::new();
    ring.push("foo".to_string());
    assert_eq!(ring.front().map(String::as_str), Some("foo"));
}

#[test]
fn append_and_prepend() {
    let mut ring = KillRing::new();
    ring.append_to_front("bar");
    assert_eq!(ring.front().map(String::as_str), Some("bar"));
    ring.append_to_front("baz");
    assert_eq!(ring.front().map(String::as_str), Some("barbaz"));
    ring.prepend_to_front("foo");
    assert_eq!(ring.front().map(String::as_str), Some("foobarbaz"));
}

#[test]
fn rotate_entries() {
    let mut ring = KillRing::new();
    ring.push("first".to_string());
    ring.push("second".to_string());
    ring.push("third".to_string());
    assert_eq!(ring.yank().unwrap(), "third");
    assert_eq!(ring.rotate().unwrap(), "second");
    assert_eq!(ring.rotate().unwrap(), "first");
    assert_eq!(ring.rotate().unwrap(), "third");
}

#[test]
fn clear_resets_entries() {
    let mut ring = KillRing::new();
    ring.push("data".to_string());
    ring.clear();
    assert!(ring.is_empty());
}

#[test]
fn kill_ring_capacity_drops_oldest_and_ignores_empty() {
    let mut ring = KillRing::with_capacity(2);
    ring.push("a".to_string());
    ring.push(String::new());
    ring.push("b".to_string());
    ring.push("c".to_string());
    assert_eq!(ring.len(), 2);
    assert_eq!(ring.yank().unwrap(), "c");
    assert_eq!(ring.rotate().unwrap(), "b");
    assert_eq!(ring.rotate().unwrap(), "c");
    let empty = KillRing::new();
    assert_eq!(empty.yank(), None);
}
