use psh::cache::{CachedHandle, SnapshotSource};
use psh::error::MetricError;
use std::sync::atomic::{AtomicU64, Ordering};
use std::sync::Arc;

struct Counting {
    calls: AtomicU64,
    fail_first: bool,
}

impl Counting {
    fn new(fail_first: bool) -> Arc<Counting> {
        Arc::new(Counting { calls: AtomicU64::new(0), fail_first })
    }
    fn calls(&self) -> u64 {
        self.calls.load(Ordering::SeqCst)
    }
}

impl SnapshotSource<Vec<u64>> for Counting {
    fn capture(&self) -> Result<Vec<u64>, MetricError> {
        let n = self.calls.fetch_add(1, Ordering::SeqCst) + 1;
        if self.fail_first && n == 1 {
            Err(MetricError::SourceUnavailable)
        } else {
            Ok(vec![n, 7])
        }
    }
}

#[test]
fn fresh_handle_computes_nothing() {
    let src = Counting::new(false);
    let _h: CachedHandle<Vec<u64>, Counting> = CachedHandle::new(src.clone());
    assert_eq!(src.calls(), 0);
}

#[test]
fn many_gets_invoke_source_once() {
    let src = Counting::new(false);
    let h: CachedHandle<Vec<u64>, Counting> = CachedHandle::new(src.clone());
    let first = h.get().unwrap();
    for _ in 0..10 {
        assert_eq!(h.get().unwrap(), first);
    }
    assert_eq!(*first, vec![1, 7]);
    assert_eq!(src.calls(), 1);
}

#[test]
fn shared_handles_share_one_computation() {
    let src = Counting::new(false);
    let h: CachedHandle<Vec<u64>, Counting> = CachedHandle::new(src.clone());
    let a = h.share();
    let b = a.share();
    let ra = a.get().unwrap();
    let rb = b.get().unwrap();
    let rh = h.get().unwrap();
    assert_eq!(ra, rb);
    assert_eq!(ra, rh);
    assert_eq!(src.calls(), 1);
}

#[test]
fn refresh_triggers_exactly_one_new_invocation() {
    let src = Counting::new(false);
    let h: CachedHandle<Vec<u64>, Counting> = CachedHandle::new(src.clone());
    let old = h.get().unwrap();
    h.refresh();
    assert_eq!(src.calls(), 1);
    let new = h.get().unwrap();
    assert_eq!(src.calls(), 2);
    assert_eq!(*new, vec![2, 7]);
    assert_eq!(h.get().unwrap(), new);
    assert_eq!(src.calls(), 2);
    // a value handed out before the refresh stays as it was
    assert_eq!(*old, vec![1, 7]);
}

#[test]
fn refresh_through_one_share_is_seen_by_all() {
    let src = Counting::new(false);
    let h: CachedHandle<Vec<u64>, Counting> = CachedHandle::new(src.clone());
    let other = h.share();
    h.get().unwrap();
    other.refresh();
    assert_eq!(*h.get().unwrap(), vec![2, 7]);
    assert_eq!(src.calls(), 2);
}

#[test]
fn failure_is_cached_until_refresh() {
    let src = Counting::new(true);
    let h: CachedHandle<Vec<u64>, Counting> = CachedHandle::new(src.clone());
    assert_eq!(h.get(), Err(MetricError::SourceUnavailable));
    assert_eq!(h.get(), Err(MetricError::SourceUnavailable));
    assert_eq!(src.calls(), 1);
    h.refresh();
    assert_eq!(*h.get().unwrap(), vec![2, 7]);
    assert_eq!(src.calls(), 2);
}

#[test]
fn refresh_before_any_get_is_harmless() {
    let src = Counting::new(false);
    let h: CachedHandle<Vec<u64>, Counting> = CachedHandle::new(src.clone());
    h.refresh();
    assert_eq!(*h.get().unwrap(), vec![1, 7]);
    assert_eq!(src.calls(), 1);
}
