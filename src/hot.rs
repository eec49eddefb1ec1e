use crate::state::{Snapshot, SourceState};
use std::sync::Arc;
use vstd::prelude::*;
use vstd::rwlock::{RwLock, RwLockPredicate};

verus! {

/// The lock's predicate: the guarded state holds the latest value published
/// and counts the updates since construction, and its first value is `first`.
pub struct WellFormed<T: ?Sized> {
    pub first: Arc<T>,
}

impl<T: ?Sized> RwLockPredicate<SourceState<T>> for WellFormed<T> {
    open spec fn inv(self, v: SourceState<T>) -> bool {
        &&& v.wf()
        &&& v.published@[0] == self.first
    }
}

/// The shared cell behind a source: the (version, value) pair under one
/// reader-writer lock, so that a reader always sees a value together with
/// the version it was published at.
pub struct HotSourceInner<T: ?Sized> {
    slot: RwLock<SourceState<T>, WellFormed<T>>,
}

impl<T: ?Sized> HotSourceInner<T> {
    /// The value this cell was constructed with.
    pub closed spec fn first(self) -> Arc<T> {
        self.slot.pred().first
    }

    /// A shared cell at version zero holding `data`.
    pub fn new(data: Arc<T>) -> (r: Arc<Self>)
        ensures
            r.first() == data,
    {
        let state = SourceState::new(data);
        Arc::new(HotSourceInner { slot: RwLock::new(state, Ghost(WellFormed { first: data })) })
    }

    /// Replaces the value and advances the version by one, in one step under
    /// the write lock.
    pub fn update(&self, data: Arc<T>) {
        let (mut state, guard) = self.slot.acquire_write();
        state.update(data);
        guard.release_write(state);
    }

    /// A handle holding the value and the version that belong together at
    /// the moment the read lock is held.
    pub fn get(self: &Arc<Self>) -> (r: Hot<T>)
        ensures
            r.source() == *self,
            r.version() == 0 ==> r.data() == self.first(),
    {
        let guard = self.slot.acquire_read();
        let snap = guard.borrow().get();
        guard.release_read();
        Hot { snap, source: self.clone() }
    }
}

/// A source of hot data: cheap to clone, every clone refers to one cell.
pub struct HotSource<T: ?Sized>(pub Arc<HotSourceInner<T>>);

impl<T: ?Sized> HotSource<T> {
    /// A source at version zero holding `data`.
    pub fn new(data: Arc<T>) -> (r: Self)
        ensures
            r.0.first() == data,
    {
        HotSource(HotSourceInner::new(data))
    }

    /// Publishes `data` as the new value.
    pub fn update(&self, data: Arc<T>) {
        self.0.update(data)
    }

    /// A handle to the current value.
    pub fn get(&self) -> (r: Hot<T>)
        ensures
            r.source() == self.0,
            r.version() == 0 ==> r.data() == self.0.first(),
    {
        self.0.get()
    }
}

impl<T: ?Sized> Clone for HotSource<T> {
    fn clone(&self) -> (r: Self)
        ensures
            r.0 == self.0,
    {
        HotSource(self.0.clone())
    }
}

/// A handle to dynamically updated data: a cached snapshot, the version it
/// was captured at, and the source it came from.
///
/// Other threads may publish to the source between any two calls, so the
/// contracts below state what holds whatever they do; each step under the
/// lock is exactly the corresponding operation of `SourceState` and
/// `Snapshot`.
pub struct Hot<T: ?Sized> {
    snap: Snapshot<T>,
    source: Arc<HotSourceInner<T>>,
}

impl<T: ?Sized> Hot<T> {
    /// A handle at version zero holds the value its source was made with.
    #[verifier::type_invariant]
    spec fn inv(self) -> bool {
        self.snap.version == 0 ==> self.snap.data == self.source.first()
    }

    /// The version this handle's value was captured at.
    pub closed spec fn version(self) -> usize {
        self.snap.version
    }

    /// The cached value.
    pub closed spec fn data(self) -> Arc<T> {
        self.snap.data
    }

    /// The cell this handle reads from and publishes to.
    pub closed spec fn source(self) -> Arc<HotSourceInner<T>> {
        self.source
    }

    /// A handle to a fresh source that holds `data` at version zero.
    pub fn new(data: Arc<T>) -> (r: Self)
        ensures
            r.data() == data,
            r.version() == 0,
            r.source().first() == data,
    {
        let state = SourceState::new(data);
        let snap = state.get();
        let source = Arc::new(HotSourceInner { slot: RwLock::new(state, Ghost(WellFormed { first: data })) });
        Hot { snap, source }
    }

    /// Publishes `data` to the source and refreshes this handle to it. Both
    /// steps happen under one write lock, so the handle ends up holding
    /// `data` even while other writers are active.
    pub fn update(&mut self, data: Arc<T>)
        ensures
            final(self).data() == data,
            final(self).source() == old(self).source(),
    {
        let (mut state, guard) = self.source.slot.acquire_write();
        state.update(data);
        let snap = state.get();
        guard.release_write(state);
        self.snap = snap;
    }

    /// The cached value; it may be older than the source's current one.
    pub fn get(&self) -> (r: &T)
        ensures
            r == &*self.data(),
    {
        &self.snap.data
    }

    /// Whether the source has moved past the version of the cached value.
    pub fn is_expired(&self) -> (r: bool) {
        let guard = self.source.slot.acquire_read();
        let r = self.snap.is_expired(guard.borrow());
        guard.release_read();
        r
    }

    /// Refreshes the cached value and version from the source.
    pub fn sync(&mut self)
        ensures
            final(self).source() == old(self).source(),
            final(self).version() == 0 ==> final(self).data() == final(self).source().first(),
    {
        let guard = self.source.slot.acquire_read();
        let snap = guard.borrow().get();
        guard.release_read();
        self.snap = snap;
    }

    /// Refreshes the handle if the source has moved on, then returns the
    /// cached value. The check and the refresh happen under one read lock,
    /// so the call always returns, with the value that was current then.
    pub fn get_sync(&mut self) -> (r: &T)
        ensures
            final(self).source() == old(self).source(),
            r == &*final(self).data(),
            final(self).version() == 0 ==> final(self).data() == final(self).source().first(),
    {
        proof {
            use_type_invariant(&*self);
        }
        let guard = self.source.slot.acquire_read();
        let state = guard.borrow();
        if self.snap.is_expired(state) {
            self.snap = state.get();
        }
        guard.release_read();
        &self.snap.data
    }
}

impl<T: ?Sized> Clone for Hot<T> {
    fn clone(&self) -> (r: Self)
        ensures
            r == *self,
    {
        proof {
            use_type_invariant(self);
        }
        Hot { snap: self.snap.clone(), source: self.source.clone() }
    }
}

impl<T: ?Sized> std::ops::Deref for Hot<T> {
    type Target = T;

    fn deref(&self) -> (r: &T)
        ensures
            r == &*self.data(),
    {
        &self.snap.data
    }
}

impl<T: ?Sized> AsRef<T> for Hot<T> {
    fn as_ref(&self) -> (r: &T)
        ensures
            r == &*self.data(),
    {
        &self.snap.data
    }
}

impl<T: ?Sized> From<Hot<T>> for Arc<T> {
    fn from(val: Hot<T>) -> (r: Arc<T>) {
        val.snap.data
    }
}

impl<T: ?Sized> vstd::std_specs::convert::FromSpecImpl<Hot<T>> for Arc<T> {
    open spec fn obeys_from_spec() -> bool {
        true
    }

    open spec fn from_spec(val: Hot<T>) -> Arc<T> {
        val.data()
    }
}

} // verus!
