//! Hot-reloadable shared state: a source holds the current value and a
//! version counter; handles cache a snapshot, detect when it is stale and
//! refresh it on demand.

mod hot;
mod laws;
mod state;

pub use hot::{Hot, HotSource, HotSourceInner, WellFormed};
pub use laws::{
    law_concurrent_writes, law_construction, law_single_update, law_snapshot_durable,
    law_sync_idempotent, law_update_then_refresh, law_updates_keep_invariant,
    law_version_counts_updates,
};
pub use state::{clamped, initial, next_version, Snapshot, SourceState, Version};
