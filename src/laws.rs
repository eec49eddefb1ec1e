use crate::state::{initial, Snapshot, SourceState};
use std::sync::Arc;
use vstd::prelude::*;

verus! {

/// A source made from `v0` hands out a snapshot that holds `v0` and is not
/// expired.
pub proof fn law_construction<T: ?Sized>(v0: Arc<T>)
    ensures
        initial(v0).snapshot().data == v0,
        !initial(v0).snapshot().expired_in(initial(v0)),
{
}

/// After one update, a snapshot taken earlier is expired; syncing it to the
/// updated state gives the new value and clears the expiry.
pub proof fn law_single_update<T: ?Sized>(s: SourceState<T>, h: Snapshot<T>, v1: Arc<T>)
    requires
        h.version <= s.version.0,
        s.version.0 < usize::MAX,
    ensures
        h.expired_in(s.updated(v1)),
        h.synced(s.updated(v1)).data == v1,
        !h.synced(s.updated(v1)).expired_in(s.updated(v1)),
{
}

proof fn lemma_updated_all_version<T: ?Sized>(s: SourceState<T>, vals: Seq<Arc<T>>)
    requires
        s.version.0 + vals.len() <= usize::MAX,
    ensures
        s.updated_all(vals).version.0 == s.version.0 + vals.len(),
    decreases vals.len(),
{
    if vals.len() > 0 {
        lemma_updated_all_version(s, vals.drop_last());
    }
}

/// A source that has seen `n` updates since construction is at version `n`:
/// no update is lost and none counts twice.
pub proof fn law_version_counts_updates<T: ?Sized>(v0: Arc<T>, vals: Seq<Arc<T>>)
    requires
        vals.len() <= usize::MAX,
    ensures
        initial(v0).updated_all(vals).version.0 == vals.len(),
{
    lemma_updated_all_version(initial(v0), vals);
}

/// Any run of updates keeps a well-formed state well-formed: it still holds
/// the latest value published and counts every update.
pub proof fn law_updates_keep_invariant<T: ?Sized>(s: SourceState<T>, vals: Seq<Arc<T>>)
    requires
        s.wf(),
    ensures
        s.updated_all(vals).wf(),
        s.updated_all(vals).published@ == s.published@ + vals,
    decreases vals.len(),
{
    if vals.len() > 0 {
        law_updates_keep_invariant(s, vals.drop_last());
        assert(s.published@ + vals == (s.published@ + vals.drop_last()).push(vals.last()));
    }
}

proof fn lemma_flatten_len<T: ?Sized>(per_writer: Seq<Seq<Arc<T>>>, k: nat)
    requires
        forall|i: int| 0 <= i < per_writer.len() ==> (#[trigger] per_writer[i]).len() == k,
    ensures
        per_writer.flatten().len() == per_writer.len() * k,
    decreases per_writer.len(),
{
    if per_writer.len() > 0 {
        let rest = per_writer.drop_first();
        assert forall|i: int| 0 <= i < rest.len() implies (#[trigger] rest[i]).len() == k by {
            assert(rest[i] == per_writer[i + 1]);
        }
        lemma_flatten_len(rest, k);
        assert(per_writer[0].len() == k);
        assert(per_writer.len() * k == k + rest.len() * k) by (nonlinear_arith)
            requires
                per_writer.len() == rest.len() + 1,
        ;
    }
}

/// Writers that each publish `k` values, whatever order the source's lock
/// puts the `writers * k` updates in, leave the source at version
/// `writers * k`.
pub proof fn law_concurrent_writes<T: ?Sized>(
    v0: Arc<T>,
    per_writer: Seq<Seq<Arc<T>>>,
    order: Seq<Arc<T>>,
    k: nat,
)
    requires
        forall|i: int| 0 <= i < per_writer.len() ==> (#[trigger] per_writer[i]).len() == k,
        order.to_multiset() == per_writer.flatten().to_multiset(),
        per_writer.len() * k <= usize::MAX,
    ensures
        initial(v0).updated_all(order).version.0 == per_writer.len() * k,
{
    broadcast use vstd::seq_lib::group_to_multiset_ensures;

    lemma_flatten_len(per_writer, k);
    assert(order.len() == order.to_multiset().len());
    assert(per_writer.flatten().len() == per_writer.flatten().to_multiset().len());
    law_version_counts_updates(v0, order);
}

/// A snapshot keeps its value through any number of later updates, while
/// the source moves on to the last value published and the snapshot becomes
/// expired.
pub proof fn law_snapshot_durable<T: ?Sized>(s: SourceState<T>, vals: Seq<Arc<T>>)
    requires
        vals.len() >= 1,
        s.version.0 + vals.len() <= usize::MAX,
    ensures
        s.snapshot().data == s.current,
        s.updated_all(vals).current == vals.last(),
        s.snapshot().expired_in(s.updated_all(vals)),
{
    lemma_updated_all_version(s, vals);
}

/// Syncing twice against an unchanged state leaves the snapshot as the first
/// sync made it, and not expired.
pub proof fn law_sync_idempotent<T: ?Sized>(h: Snapshot<T>, s: SourceState<T>)
    ensures
        ({
            let once = h.synced(s);
            let twice = once.synced(s);
            &&& twice == once
            &&& twice.data == once.data
            &&& !once.expired_in(s)
            &&& !twice.expired_in(s)
        }),
{
}

/// A snapshot that publishes `v2` and refreshes holds `v2` and is not
/// expired against the resulting state.
pub proof fn law_update_then_refresh<T: ?Sized>(s: SourceState<T>, v2: Arc<T>)
    ensures
        s.updated(v2).snapshot().data == v2,
        !s.updated(v2).snapshot().expired_in(s.updated(v2)),
{
}

} // verus!
