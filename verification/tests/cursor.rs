use scraper::cursor::{forward_cursor_start, CursorKind};
use std::collections::BTreeMap;

#[test]
fn forward_start_is_one_below_the_newest_record() {
    assert_eq!(forward_cursor_start(Some(0)), 0);
    assert_eq!(forward_cursor_start(Some(1)), 0);
    assert_eq!(forward_cursor_start(Some(1000)), 999);
}

#[test]
fn forward_start_without_a_record_is_zero() {
    assert_eq!(forward_cursor_start(None), 0);
}

#[test]
fn forward_start_never_wraps() {
    assert_eq!(forward_cursor_start(Some(2)), 1);
    assert_eq!(forward_cursor_start(Some(u64::MAX)), u64::MAX - 1);
}

#[test]
fn forward_start_never_skips_a_record() {
    for last in [0u64, 1, 2, 3, 999, 1000, 1 << 32, u64::MAX] {
        let start = forward_cursor_start(Some(last));
        assert!(start <= last);
        assert!(last - start <= 1);
    }
}

#[test]
fn cursor_kinds_compare_by_their_start() {
    assert_eq!(
        CursorKind::ForwardSequential { start: 3 },
        CursorKind::ForwardSequential { start: 3 }
    );
    assert_ne!(
        CursorKind::ForwardSequential { start: 3 },
        CursorKind::ForwardSequential { start: 4 }
    );
    assert_ne!(CursorKind::ForwardSequential { start: 0 }, CursorKind::RateLimited);
}

/// A store that keeps one record per sequence number, whatever is written
/// how often.
fn store_record(store: &mut BTreeMap<u64, String>, sequence: u64, body: &str) {
    store.insert(sequence, body.to_string());
}

#[test]
fn fetching_the_newest_record_again_duplicates_nothing() {
    let mut store: BTreeMap<u64, String> = BTreeMap::new();
    for sequence in 0..=1000u64 {
        store_record(&mut store, sequence, &format!("message {}", sequence));
    }
    let before = store.clone();
    let last = store.keys().next_back().copied();
    assert_eq!(last, Some(1000));
    let start = forward_cursor_start(last);
    assert_eq!(start, 999);
    for sequence in start..=1000 {
        store_record(&mut store, sequence, &format!("message {}", sequence));
    }
    assert_eq!(store.len(), 1001);
    assert_eq!(store, before);
}
