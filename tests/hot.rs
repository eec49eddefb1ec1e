use hot_sauce::{Hot, HotSource, Snapshot, SourceState, Version};
use std::sync::Arc;

#[test]
fn test() {
    let mut source = Hot::<str>::new(Arc::from("hello world"));
    let mut hot = source.clone();
    source.update(Arc::from("hello hotsauce"));
    assert!(hot.is_expired());
    hot.sync();
    assert!(!hot.is_expired());
    assert_eq!(hot.as_ref(), "hello hotsauce");
}

#[test]
fn construction_is_fresh() {
    let source = HotSource::<str>::new(Arc::from("v0"));
    let h = source.get();
    assert_eq!(h.get(), "v0");
    assert!(!h.is_expired());

    let h2 = Hot::<u64>::new(Arc::new(7));
    assert_eq!(*h2.get(), 7);
    assert!(!h2.is_expired());
}

#[test]
fn source_update_expires_then_sync_refreshes() {
    let source = HotSource::<str>::new(Arc::from("hello world"));
    let mut h1 = source.get();
    source.update(Arc::from("hello hotsauce"));
    assert!(h1.is_expired());
    assert_eq!(h1.get(), "hello world");
    h1.sync();
    assert_eq!(h1.get(), "hello hotsauce");
    assert!(!h1.is_expired());
}

#[test]
fn version_counts_every_update() {
    let mut state = SourceState::<u64>::new(Arc::new(0));
    let mut i: u64 = 1;
    while i <= 25 {
        state.update(Arc::new(i));
        i += 1;
    }
    assert_eq!(state.version.get(), 25);
    assert_eq!(*state.current, 25);
}

#[test]
fn interleaved_writers_count_exactly() {
    // three writers with four updates each, applied in an interleaved order
    let mut state = SourceState::<u64>::new(Arc::new(0));
    let mut round: u64 = 0;
    while round < 4 {
        let mut writer: u64 = 0;
        while writer < 3 {
            state.update(Arc::new(writer * 100 + round));
            writer += 1;
        }
        round += 1;
    }
    assert_eq!(state.version.get(), 12);
    assert_eq!(*state.current, 203);
}

#[test]
fn cloned_handle_keeps_its_snapshot() {
    let mut writer = Hot::<str>::new(Arc::from("original"));
    let kept = writer.clone();
    writer.update(Arc::from("second"));
    writer.update(Arc::from("third"));
    writer.update(Arc::from("fourth"));
    assert_eq!(kept.get(), "original");
    assert!(kept.is_expired());
    assert_eq!(writer.get(), "fourth");
    assert!(!writer.is_expired());
}

#[test]
fn sync_twice_is_idempotent() {
    let source = HotSource::<str>::new(Arc::from("a"));
    let mut h = source.get();
    source.update(Arc::from("b"));
    h.sync();
    assert!(!h.is_expired());
    let first = h.get().to_string();
    h.sync();
    assert!(!h.is_expired());
    assert_eq!(h.get(), first);
    assert_eq!(first, "b");
}

#[test]
fn handle_update_then_refresh() {
    let mut h = Hot::<str>::new(Arc::from("one"));
    let other = h.clone();
    h.update(Arc::from("two"));
    assert_eq!(h.get(), "two");
    assert!(!h.is_expired());
    assert!(other.is_expired());
}

#[test]
fn dropping_source_keeps_snapshot() {
    let source = HotSource::<str>::new(Arc::from("kept"));
    let h = source.get();
    drop(source);
    assert_eq!(h.get(), "kept");
    assert!(!h.is_expired());

    let value: Arc<str> = Arc::from("shared");
    let h2 = Hot::<str>::new(value.clone());
    drop(h2);
    assert_eq!(&*value, "shared");
}

#[test]
fn get_sync_returns_newest() {
    let source = HotSource::<u64>::new(Arc::new(1));
    let mut h = source.get();
    source.update(Arc::new(2));
    source.update(Arc::new(3));
    assert_eq!(*h.get_sync(), 3);
    assert!(!h.is_expired());
    assert_eq!(*h.get_sync(), 3);
}

#[test]
fn deref_and_into_arc_give_cached_value() {
    let h = Hot::<str>::new(Arc::from("deref"));
    assert_eq!(&*h, "deref");
    let a: Arc<str> = Arc::from(h);
    assert_eq!(&*a, "deref");
}

#[test]
fn cloned_source_shares_one_cell() {
    let source = HotSource::<u64>::new(Arc::new(10));
    let twin = source.clone();
    let h = source.get();
    twin.update(Arc::new(11));
    assert!(h.is_expired());
    assert_eq!(*source.get().get(), 11);
}

#[test]
fn model_snapshot_expiry() {
    let mut state = SourceState::<u64>::new(Arc::new(5));
    let mut snap: Snapshot<u64> = state.get();
    assert_eq!(snap.version, 0);
    assert!(!snap.is_expired(&state));
    let old = snap.clone();
    snap.update(&mut state, Arc::new(6));
    assert_eq!(*snap.data, 6);
    assert_eq!(snap.version, 1);
    assert!(!snap.is_expired(&state));
    assert!(old.is_expired(&state));
    assert_eq!(*old.data, 5);
}

#[test]
fn version_saturates_at_the_top() {
    let mut v = Version(usize::MAX - 1);
    v.inc();
    assert_eq!(v.get(), usize::MAX);
    v.inc();
    assert_eq!(v.get(), usize::MAX);
    let mut w = Version(0);
    w.inc();
    assert_eq!(w.get(), 1);
}
