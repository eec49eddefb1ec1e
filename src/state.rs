use std::sync::Arc;
use vstd::prelude::*;

verus! {

/// A monotonic count of the replacements that a source has seen.
pub struct Version(pub usize);

/// The count that follows `v`; it stays at the top once the counter is full.
pub open spec fn next_version(v: usize) -> usize {
    if v < usize::MAX {
        (v + 1) as usize
    } else {
        v
    }
}

impl Version {
    /// Advances the count by one.
    pub fn inc(&mut self)
        ensures
            final(self).0 == next_version(old(self).0),
    {
        if self.0 < usize::MAX {
            self.0 = self.0 + 1;
        }
    }

    /// The current count.
    pub fn get(&self) -> (r: usize)
        ensures
            r == self.0,
    {
        self.0
    }
}

/// The authoritative (version, value) pair that a source guards.
///
/// `version` counts the replacements made since construction; `current` is
/// the value handed to the constructor or to the latest replacement.
/// `published` records every value published so far, the constructor's first.
pub struct SourceState<T: ?Sized> {
    pub version: Version,
    pub current: Arc<T>,
    pub published: Ghost<Seq<Arc<T>>>,
}

/// `n` as a version: the counter holds at its top value.
pub open spec fn clamped(n: int) -> usize {
    if n <= usize::MAX {
        n as usize
    } else {
        usize::MAX
    }
}

/// A value captured from a source together with the version it was
/// captured at.
pub struct Snapshot<T: ?Sized> {
    pub version: usize,
    pub data: Arc<T>,
}

/// The state that a source starts from.
pub open spec fn initial<T: ?Sized>(data: Arc<T>) -> SourceState<T> {
    SourceState { version: Version(0), current: data, published: Ghost(Seq::empty().push(data)) }
}

impl<T: ?Sized> SourceState<T> {
    /// The value held is the latest one published, and the version is the
    /// number of updates since construction.
    pub open spec fn wf(self) -> bool {
        &&& self.published@.len() >= 1
        &&& self.current == self.published@.last()
        &&& self.version.0 == clamped(self.published@.len() - 1)
    }

    /// The state after `data` replaces the current value.
    pub open spec fn updated(self, data: Arc<T>) -> SourceState<T> {
        SourceState {
            version: Version(next_version(self.version.0)),
            current: data,
            published: Ghost(self.published@.push(data)),
        }
    }

    /// The state after each value of `vals` has replaced the current one, in order.
    pub open spec fn updated_all(self, vals: Seq<Arc<T>>) -> SourceState<T>
        decreases vals.len(),
    {
        if vals.len() == 0 {
            self
        } else {
            self.updated_all(vals.drop_last()).updated(vals.last())
        }
    }

    /// The snapshot that a reader takes of this state.
    pub open spec fn snapshot(self) -> Snapshot<T> {
        Snapshot { version: self.version.0, data: self.current }
    }

    /// A state at version zero holding `data`.
    pub fn new(data: Arc<T>) -> (r: Self)
        ensures
            r == initial(data),
            r.wf(),
    {
        SourceState { version: Version(0), current: data, published: Ghost(Seq::empty().push(data)) }
    }

    /// Replaces the current value wholesale and advances the version by one.
    pub fn update(&mut self, data: Arc<T>)
        ensures
            *final(self) == old(self).updated(data),
            old(self).wf() ==> final(self).wf(),
    {
        self.version.inc();
        self.published = Ghost(self.published@.push(data));
        self.current = data;
    }

    /// Captures the current value together with the version it belongs to.
    pub fn get(&self) -> (r: Snapshot<T>)
        ensures
            r == self.snapshot(),
    {
        Snapshot { version: self.version.get(), data: self.current.clone() }
    }
}

impl<T: ?Sized> Snapshot<T> {
    /// Whether `s` has moved past the version this snapshot was taken at.
    pub open spec fn expired_in(self, s: SourceState<T>) -> bool {
        self.version < s.version.0
    }

    /// Whether `s` has moved past the version this snapshot was taken at.
    pub fn is_expired(&self, s: &SourceState<T>) -> (r: bool)
        ensures
            r == self.expired_in(*s),
    {
        self.version < s.version.get()
    }

    /// This snapshot after it is refreshed from `s`.
    pub open spec fn synced(self, s: SourceState<T>) -> Snapshot<T> {
        s.snapshot()
    }

    /// Replaces this snapshot by a fresh one of `s`.
    pub fn sync(&mut self, s: &SourceState<T>)
        ensures
            *final(self) == old(self).synced(*s),
    {
        *self = s.get();
    }

    /// Publishes `data` to `s`, then takes a fresh snapshot of the result.
    pub fn update(&mut self, s: &mut SourceState<T>, data: Arc<T>)
        ensures
            *final(s) == old(s).updated(data),
            *final(self) == final(s).snapshot(),
    {
        s.update(data);
        self.sync(s);
    }
}

impl<T: ?Sized> Clone for Snapshot<T> {
    fn clone(&self) -> (r: Self)
        ensures
            r == *self,
    {
        Snapshot { version: self.version, data: self.data.clone() }
    }
}

} // verus!
