//! History storage, capacity, de-duplication and browsing.

use tey_sh::history::History;

#[test]
fn capacity_keeps_most_recent_in_order() {
    let mut h = History::new(3);
    for entry in ["one", "two", "three", "four", "five"] {
        h.push(entry);
    }
    // Browsing from most recent to oldest sees exactly the last three.
    assert_eq!(h.get_next().as_deref(), Some("five"));
    assert_eq!(h.get_next().as_deref(), Some("four"));
    assert_eq!(h.get_next().as_deref(), Some("three"));
    assert_eq!(h.get_next(), None);
}

#[test]
fn consecutive_duplicates_are_stored_once() {
    let mut h = History::new(10);
    h.push("ls");
    h.push("ls");
    assert_eq!(h.get_next().as_deref(), Some("ls"));
    assert_eq!(h.get_next(), None);
}

#[test]
fn nonadjacent_duplicates_are_kept() {
    let mut h = History::new(10);
    h.push("a");
    h.push("b");
    h.push("a");
    assert_eq!(h.get_next().as_deref(), Some("a"));
    assert_eq!(h.get_next().as_deref(), Some("b"));
    assert_eq!(h.get_next().as_deref(), Some("a"));
    assert_eq!(h.get_next(), None);
}

#[test]
fn older_then_newer_returns_the_cached_draft() {
    let mut h = History::new(5);
    h.push("stored command");
    h.cache_user_input("my draft");
    assert_eq!(h.get_next().as_deref(), Some("stored command"));
    assert_eq!(h.get_prev().as_deref(), Some("my draft"));
    // Back in the idle state: one step newer gives nothing.
    assert_eq!(h.get_prev(), None);
}

#[test]
fn caching_while_browsing_keeps_the_first_draft() {
    let mut h = History::new(5);
    h.push("x");
    h.cache_user_input("first");
    assert_eq!(h.get_next().as_deref(), Some("x"));
    // Already browsing: this must be a no-op.
    h.cache_user_input("second");
    assert_eq!(h.get_prev().as_deref(), Some("first"));
}

#[test]
fn reset_returns_to_idle() {
    let mut h = History::new(5);
    h.push("a");
    h.push("b");
    h.cache_user_input("draft");
    assert_eq!(h.get_next().as_deref(), Some("b"));
    h.reset();
    assert_eq!(h.get_prev(), None);
    assert_eq!(h.get_next().as_deref(), Some("b"));
}

#[test]
fn zero_capacity_stores_nothing() {
    let mut h = History::new(0);
    h.push("a");
    assert_eq!(h.get_next(), None);
}

#[test]
fn browsing_an_empty_history_yields_nothing() {
    let mut h = History::new(5);
    h.cache_user_input("draft");
    assert_eq!(h.get_next(), None);
    assert_eq!(h.get_prev(), None);
}
