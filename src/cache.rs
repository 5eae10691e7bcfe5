use vstd::prelude::*;
use vstd::rwlock::{RwLock, RwLockPredicate};
use std::sync::Arc;
use crate::error::MetricError;

verus! {

/// A fallible producer of the current record of one metric category.
/// Implementors read the OS; the cache never looks at how.
pub trait SnapshotSource<T> {
    /// Whether `r` is an outcome that this source may hand back from a capture.
    /// A source that states nothing more may hand back any outcome.
    open spec fn may_produce(&self, r: Result<T, MetricError>) -> bool {
        true
    }

    fn capture(&self) -> (r: Result<T, MetricError>)
        ensures
            self.may_produce(r),
    ;
}

/// The abstract state of one cache slot.
pub struct CacheView<T> {
    /// The cached outcome of the last computation, if any since the last refresh.
    pub outcome: Option<Result<T, MetricError>>,
    /// How many times the source has been invoked over the slot's life.
    pub invocations: nat,
    /// How many outcomes a refresh has thrown away.
    pub discarded: nat,
}

/// The state of a slot that nobody has read yet.
pub open spec fn fresh_view<T>() -> CacheView<T> {
    CacheView { outcome: None, invocations: 0, discarded: 0 }
}

/// Every source invocation left exactly one outcome: the current one or a discarded one.
pub open spec fn view_wf<T>(s: CacheView<T>) -> bool {
    s.invocations == s.discarded + if s.outcome is Some { 1nat } else { 0nat }
}

/// One `get` on state `s`, where `fresh` is what the source returns if it is invoked.
/// Yields the next state and the caller's result.
pub open spec fn get_step<T>(s: CacheView<T>, fresh: Result<T, MetricError>) -> (
    CacheView<T>,
    Result<T, MetricError>,
) {
    match s.outcome {
        Some(o) => (s, o),
        None => (
            CacheView { outcome: Some(fresh), invocations: s.invocations + 1, discarded: s.discarded },
            fresh,
        ),
    }
}

/// One `refresh` on state `s`: the cached outcome, if any, is dropped.
pub open spec fn refresh_step<T>(s: CacheView<T>) -> CacheView<T> {
    CacheView {
        outcome: None,
        invocations: s.invocations,
        discarded: s.discarded + if s.outcome is Some { 1nat } else { 0nat },
    }
}

/// A run of `get`s, one after another, from state `s`; caller `i` would see
/// `fresh[i]` from the source if it were the one to invoke it.
/// Yields the final state and each caller's result, in order.
pub open spec fn run_gets<T>(s: CacheView<T>, fresh: Seq<Result<T, MetricError>>) -> (
    CacheView<T>,
    Seq<Result<T, MetricError>>,
)
    decreases fresh.len(),
{
    if fresh.len() == 0 {
        (s, Seq::empty())
    } else {
        let (s1, r) = get_step(s, fresh[0]);
        let (s2, rs) = run_gets(s1, fresh.drop_first());
        (s2, seq![r].add(rs))
    }
}

/// Once a slot holds an outcome, further `get`s invoke nothing and all see that outcome.
pub proof fn lemma_ready_is_stable<T>(s: CacheView<T>, fresh: Seq<Result<T, MetricError>>)
    requires
        s.outcome is Some,
    ensures
        run_gets(s, fresh).0 == s,
        run_gets(s, fresh).1.len() == fresh.len(),
        forall|i: int| 0 <= i < fresh.len() ==> run_gets(s, fresh).1[i] == s.outcome.unwrap(),
    decreases fresh.len(),
{
    if fresh.len() > 0 {
        lemma_ready_is_stable(s, fresh.drop_first());
        let rs = run_gets(s, fresh.drop_first()).1;
        assert forall|i: int| 0 <= i < fresh.len() implies run_gets(s, fresh).1[i]
            == s.outcome.unwrap() by {
            if i > 0 {
                assert(run_gets(s, fresh).1[i] == rs[i - 1]);
            }
        }
    }
}

/// Single flight: any number N >= 1 of `get`s on a fresh slot, however the lock
/// orders them, invoke the source exactly once, and every caller receives the
/// outcome of that one invocation.
pub proof fn lemma_single_flight<T>(fresh: Seq<Result<T, MetricError>>)
    requires
        fresh.len() >= 1,
    ensures
        run_gets(fresh_view(), fresh).0.invocations == 1,
        run_gets(fresh_view(), fresh).1.len() == fresh.len(),
        forall|i: int|
            0 <= i < fresh.len() ==> run_gets(fresh_view(), fresh).1[i] == fresh[0],
{
    let s0 = fresh_view::<T>();
    let (s1, r) = get_step(s0, fresh[0]);
    lemma_ready_is_stable(s1, fresh.drop_first());
    let rs = run_gets(s1, fresh.drop_first()).1;
    assert forall|i: int| 0 <= i < fresh.len() implies run_gets(s0, fresh).1[i] == fresh[0] by {
        if i > 0 {
            assert(run_gets(s0, fresh).1[i] == rs[i - 1]);
        }
    }
}

/// After a refresh, the next `get` invokes the source exactly once more and
/// returns what that invocation produced; the earlier outcome is gone.
pub proof fn lemma_refresh_recomputes<T>(s: CacheView<T>, fresh: Result<T, MetricError>)
    ensures
        get_step(refresh_step(s), fresh).0.invocations == s.invocations + 1,
        get_step(refresh_step(s), fresh).0.outcome == Some(fresh),
        get_step(refresh_step(s), fresh).1 == fresh,
{
}

/// The contents of a cache slot. The counters are ghost: they exist for the proofs only.
pub struct CacheSlot<T> {
    outcome: Option<Result<Arc<T>, MetricError>>,
    invocations: Ghost<nat>,
    discarded: Ghost<nat>,
}

impl<T> View for CacheSlot<T> {
    type V = CacheView<T>;

    closed spec fn view(&self) -> CacheView<T> {
        CacheView {
            outcome: match self.outcome {
                Some(o) => Some(unshared(o)),
                None => None,
            },
            invocations: self.invocations@,
            discarded: self.discarded@,
        }
    }
}

/// The outcome behind a shared reference.
pub open spec fn unshared<T>(r: Result<Arc<T>, MetricError>) -> Result<T, MetricError> {
    match r {
        Ok(a) => Ok(*a),
        Err(e) => Err(e),
    }
}

/// Hands out a second reference to a cached outcome.
fn share_outcome<T>(o: &Result<Arc<T>, MetricError>) -> (r: Result<Arc<T>, MetricError>)
    ensures
        r == *o,
{
    match o {
        Ok(a) => Ok(Arc::clone(a)),
        Err(e) => Err(*e),
    }
}

impl<T> CacheSlot<T> {
    /// An empty slot.
    pub fn new() -> (r: CacheSlot<T>)
        ensures
            r@ == fresh_view::<T>(),
    {
        CacheSlot { outcome: None, invocations: Ghost(0), discarded: Ghost(0) }
    }

    /// Returns the cached outcome, or invokes `source` once, caches what it
    /// returned and returns that.
    pub fn get_or_compute<S: SnapshotSource<T>>(&mut self, source: &S) -> (r: Result<
        Arc<T>,
        MetricError,
    >)
        requires
            old(self)@.outcome matches Some(o) ==> source.may_produce(o),
        ensures
            get_step(old(self)@, unshared(r)) == (final(self)@, unshared(r)),
            source.may_produce(unshared(r)),
    {
        match &self.outcome {
            Some(o) => share_outcome(o),
            None => {
                let fresh = match source.capture() {
                    Ok(t) => Ok(Arc::new(t)),
                    Err(e) => Err(e),
                };
                self.outcome = Some(share_outcome(&fresh));
                self.invocations = Ghost(self.invocations@ + 1);
                fresh
            },
        }
    }

    /// Drops the cached outcome, if any.
    pub fn clear(&mut self)
        ensures
            final(self)@ == refresh_step(old(self)@),
    {
        if self.outcome.is_some() {
            self.discarded = Ghost(self.discarded@ + 1);
        }
        self.outcome = None;
    }
}

/// The lock invariant of a shared slot: every invocation is accounted for,
/// and a cached outcome is one that `source` may produce.
pub struct SlotInv<S> {
    pub source: S,
}

/// The lock invariant for a slot filled from `source`.
pub open spec fn slot_inv<S>(source: &Arc<S>) -> SlotInv<S> {
    SlotInv { source: **source }
}

impl<T, S: SnapshotSource<T>> RwLockPredicate<CacheSlot<T>> for SlotInv<S> {
    open spec fn inv(self, v: CacheSlot<T>) -> bool {
        &&& view_wf(v@)
        &&& v@.outcome matches Some(o) ==> self.source.may_produce(o)
    }
}

/// A lazily computed, single-flight cache of one source's outcome, shared by
/// all of its clones. The slot is guarded by a lock that a reader holds from
/// the moment it finds the slot empty until the outcome is stored, so readers
/// that arrive meanwhile wait and then see that outcome.
pub struct CachedHandle<T, S: SnapshotSource<T>> {
    slot: Arc<RwLock<CacheSlot<T>, SlotInv<S>>>,
    source: Arc<S>,
}

impl<T, S: SnapshotSource<T>> CachedHandle<T, S> {
    /// A handle with an empty slot, bound to `source`, which other handles may
    /// share. Nothing is computed yet.
    pub fn new(source: Arc<S>) -> (r: CachedHandle<T, S>)
        ensures
            *r.source() == *source,
            r.wf(),
    {
        let slot = RwLock::new(CacheSlot::new(), Ghost(slot_inv(&source)));
        CachedHandle { slot: Arc::new(slot), source }
    }

    /// The source this handle is bound to.
    pub closed spec fn source(&self) -> &S {
        &*self.source
    }

    /// The lock that guards the slot; every handle that shares the slot has the same one.
    pub closed spec fn cell(&self) -> RwLock<CacheSlot<T>, SlotInv<S>> {
        *self.slot
    }

    /// The slot's lock vouches for outcomes of this handle's own source.
    pub open spec fn wf(&self) -> bool {
        self.cell().pred().source == *self.source()
    }

    /// Whether two handles share one slot and one source.
    pub open spec fn shares_with(&self, other: &CachedHandle<T, S>) -> bool {
        self.cell() == other.cell() && *self.source() == *other.source()
    }

    /// The cached outcome, computing it first if the slot is empty. A failure is
    /// cached like a value and returned until the next `refresh`. Whether this
    /// call computed or found the outcome, it is one the source may produce.
    pub fn get(&self) -> (r: Result<Arc<T>, MetricError>)
        requires
            self.wf(),
        ensures
            self.source().may_produce(unshared(r)),
    {
        let (mut slot, guard) = self.slot.acquire_write();
        let r = slot.get_or_compute(&*self.source);
        guard.release_write(slot);
        r
    }

    /// Empties the slot, so that the next `get` invokes the source again.
    /// Outcomes already handed out stay valid.
    pub fn refresh(&self) {
        let (mut slot, guard) = self.slot.acquire_write();
        slot.clear();
        guard.release_write(slot);
    }

    /// A second owner of the same slot and source; nothing is computed.
    pub fn share(&self) -> (r: CachedHandle<T, S>)
        ensures
            r.shares_with(self),
            self.wf() ==> r.wf(),
    {
        CachedHandle { slot: Arc::clone(&self.slot), source: Arc::clone(&self.source) }
    }
}

} // verus!
