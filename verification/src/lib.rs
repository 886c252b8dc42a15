//! A key-value store split into one writing handle and one reading handle that
//! stay synchronized through an ordered, unbounded log of mutation records
//! instead of shared locking. The writer applies every mutation to its own
//! authoritative map and forwards a record of it; the reader lazily replays
//! pending records into a private replica before answering each query.

mod channel;
mod log;
mod store;

pub use log::Action;
pub use log::apply_action;
pub use log::lemma_clear_idempotent;
pub use log::lemma_remove_absent;
pub use log::lemma_replay_push;
pub use log::replay;
pub use store::ReadOnlyHashMap;
pub use store::StoreError;
pub use store::WritableHashMap;
pub use store::keyvalue;
pub use store::lemma_causal_replay;
pub use store::lemma_staleness_bound;
