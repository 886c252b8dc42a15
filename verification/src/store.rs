//! The two handles of the store. The write handle owns the authoritative map
//! and the producer end of the event channel; the read handle owns a private
//! replica and the consumer end. Each handle carries a ghost log of the
//! mutation records it has issued or applied, and its map is always exactly
//! the replay of that log — the laws relating the two sides follow from those
//! invariants.

use vstd::prelude::*;

use crate::channel::Polled;
use crate::channel::action_channel;
use crate::channel::poll_action;
use crate::channel::send_action;
use crate::log::Action;
use crate::log::lemma_replay_push;
use crate::log::replay;
use std::collections::HashMap;
use std::collections::hash_map::RandomState;
use std::hash::Hash;
use std::sync::mpsc::Receiver;
use std::sync::mpsc::Sender;

verus! {

broadcast use vstd::std_specs::hash::group_hash_axioms;

/// The one failure of the store: the other handle has been destroyed, so the
/// event channel can no longer propagate records. A mutation that reports it
/// has still taken effect on the writer's own map.
#[derive(Clone, Copy, Debug, PartialEq, Eq, Structural)]
pub enum StoreError {
    Disconnected,
}

/// The mutation-authoritative handle: it owns the source-of-truth map and
/// forwards every mutation as a record on the event channel.
#[verifier::reject_recursive_types(K)]
#[verifier::reject_recursive_types(V)]
pub struct WritableHashMap<K, V> {
    hashmap: HashMap<K, V>,
    tx: Sender<Action<K, V>>,
    issued: Ghost<Seq<Action<K, V>>>,
}

impl<K, V> View for WritableHashMap<K, V> {
    type V = Map<K, V>;

    closed spec fn view(&self) -> Map<K, V> {
        self.hashmap@
    }
}

impl<K: Eq + Hash + Clone, V: Clone> WritableHashMap<K, V> {
    /// Every mutation this handle has issued, in issuance order.
    pub closed spec fn issued(self) -> Seq<Action<K, V>> {
        self.issued@
    }

    /// The handle's invariant: its map is exactly the replay of the mutations
    /// it has issued, and its keys behave as hash-table keys.
    pub closed spec fn wf(self) -> bool {
        &&& vstd::std_specs::hash::obeys_key_model::<K>()
        &&& vstd::std_specs::hash::builds_valid_hashers::<RandomState>()
        &&& self.hashmap@ == replay(Map::<K, V>::empty(), self.issued@)
    }

    fn new(tx: Sender<Action<K, V>>) -> (w: Self)
        requires
            vstd::std_specs::hash::obeys_key_model::<K>(),
        ensures
            w.wf(),
            w@ == Map::<K, V>::empty(),
            w.issued() == Seq::<Action<K, V>>::empty(),
    {
        WritableHashMap { hashmap: HashMap::new(), tx, issued: Ghost(Seq::empty()) }
    }

    /// Inserts the pair into the authoritative map, then forwards the record.
    /// The local map is updated even when forwarding fails because the read
    /// handle is gone: the mutation is then committed locally, not propagated.
    /// On success the previous value for the key, if any, is returned.
    pub fn insert(&mut self, k: K, v: V) -> (r: Result<Option<V>, StoreError>)
        requires
            old(self).wf(),
        ensures
            final(self).wf(),
            final(self)@ == old(self)@.insert(k, v),
            final(self).issued() == old(self).issued().push(Action::Insert(k, v)),
            match r {
                Ok(prev) => prev == (if old(self)@.contains_key(k) {
                    Some(old(self)@[k])
                } else {
                    None::<V>
                }),
                Err(e) => e == StoreError::Disconnected,
            },
    {
        let k2 = k.clone();
        let v2 = v.clone();
        let ghost gk = k;
        let ghost gv = v;
        let ghost issued0 = self.issued@;
        let prev = self.hashmap.insert(k, v);
        self.issued = Ghost(issued0.push(Action::Insert(gk, gv)));
        proof {
            lemma_replay_push(Map::<K, V>::empty(), issued0, Action::Insert(gk, gv));
        }
        if send_action(&self.tx, Action::Insert(k2, v2)) {
            Ok(prev)
        } else {
            Err(StoreError::Disconnected)
        }
    }

    /// Removes the key from the authoritative map, then forwards the record.
    /// As with `insert`, the local removal stands even when forwarding fails.
    /// On success the removed value, if any, is returned.
    pub fn remove(&mut self, k: K) -> (r: Result<Option<V>, StoreError>)
        requires
            old(self).wf(),
        ensures
            final(self).wf(),
            final(self)@ == old(self)@.remove(k),
            final(self).issued() == old(self).issued().push(Action::Remove(k)),
            match r {
                Ok(prev) => prev == (if old(self)@.contains_key(k) {
                    Some(old(self)@[k])
                } else {
                    None::<V>
                }),
                Err(e) => e == StoreError::Disconnected,
            },
    {
        let ghost gk = k;
        let ghost issued0 = self.issued@;
        let prev = self.hashmap.remove(&k);
        self.issued = Ghost(issued0.push(Action::Remove(gk)));
        proof {
            lemma_replay_push(Map::<K, V>::empty(), issued0, Action::Remove(gk));
        }
        if send_action(&self.tx, Action::Remove(k)) {
            Ok(prev)
        } else {
            Err(StoreError::Disconnected)
        }
    }

    /// Empties the authoritative map, then forwards a `ClearAll` record; the
    /// record is forwarded even when the map was already empty. The local map
    /// is emptied even when forwarding fails.
    pub fn clear(&mut self) -> (r: Result<(), StoreError>)
        requires
            old(self).wf(),
        ensures
            final(self).wf(),
            final(self)@ == Map::<K, V>::empty(),
            final(self).issued() == old(self).issued().push(Action::ClearAll),
            r matches Err(e) ==> e == StoreError::Disconnected,
    {
        let ghost issued0 = self.issued@;
        self.hashmap.clear();
        self.issued = Ghost(issued0.push(Action::ClearAll));
        proof {
            lemma_replay_push(Map::<K, V>::empty(), issued0, Action::ClearAll);
        }
        if send_action(&self.tx, Action::ClearAll) {
            Ok(())
        } else {
            Err(StoreError::Disconnected)
        }
    }

    /// Reads the writer's own authoritative map; purely local, cannot fail.
    pub fn get(&self, k: &K) -> (r: Option<&V>)
        requires
            self.wf(),
        ensures
            match r {
                Some(v) => self@.contains_key(*k) && *v == self@[*k],
                None => !self@.contains_key(*k),
            },
    {
        self.hashmap.get(k)
    }

    /// Tests the writer's own authoritative map; purely local, cannot fail.
    pub fn contains_key(&self, k: &K) -> (r: bool)
        requires
            self.wf(),
        ensures
            r == self@.contains_key(*k),
    {
        self.hashmap.contains_key(k)
    }
}

/// The query-only handle: it owns a private replica map and, before answering
/// any query, drains every currently pending mutation record from the event
/// channel into it, in issuance order. Querying therefore needs exclusive
/// access to the handle.
#[verifier::reject_recursive_types(K)]
#[verifier::reject_recursive_types(V)]
pub struct ReadOnlyHashMap<K, V> {
    hashmap: HashMap<K, V>,
    rx: Receiver<Action<K, V>>,
    applied: Ghost<Seq<Action<K, V>>>,
}

impl<K, V> View for ReadOnlyHashMap<K, V> {
    type V = Map<K, V>;

    closed spec fn view(&self) -> Map<K, V> {
        self.hashmap@
    }
}

impl<K: Eq + Hash + Clone, V: Clone> ReadOnlyHashMap<K, V> {
    /// Every mutation record this handle has drained and applied, in the order
    /// it received them.
    pub closed spec fn applied(self) -> Seq<Action<K, V>> {
        self.applied@
    }

    /// The handle's invariant: the replica is exactly the replay of the
    /// records applied so far — a causal prefix of the writer's stream is
    /// never applied out of order and never skips a record.
    pub closed spec fn wf(self) -> bool {
        &&& vstd::std_specs::hash::obeys_key_model::<K>()
        &&& vstd::std_specs::hash::builds_valid_hashers::<RandomState>()
        &&& self.hashmap@ == replay(Map::<K, V>::empty(), self.applied@)
    }

    fn new(rx: Receiver<Action<K, V>>) -> (r: Self)
        requires
            vstd::std_specs::hash::obeys_key_model::<K>(),
        ensures
            r.wf(),
            r@ == Map::<K, V>::empty(),
            r.applied() == Seq::<Action<K, V>>::empty(),
    {
        ReadOnlyHashMap { hashmap: HashMap::new(), rx, applied: Ghost(Seq::empty()) }
    }

    /// Drains every currently available record and applies it to the replica,
    /// in order, stopping at the first "nothing pending". Fails with
    /// `Disconnected` when the write handle is gone and no record remains
    /// queued before the closure; records applied up to that point stay
    /// applied. The drain is bounded by `usize::MAX` records per call, more
    /// than any channel queue can hold in memory.
    fn process_changes(&mut self) -> (r: Result<(), StoreError>)
        requires
            old(self).wf(),
        ensures
            final(self).wf(),
            old(self).applied().is_prefix_of(final(self).applied()),
            r matches Err(e) ==> e == StoreError::Disconnected,
    {
        let ghost applied0 = self.applied@;
        let mut fuel: usize = usize::MAX;
        while fuel > 0
            invariant
                self.wf(),
                applied0 == old(self).applied(),
                applied0.is_prefix_of(self.applied@),
            decreases fuel,
        {
            fuel = fuel - 1;
            match poll_action(&self.rx) {
                Polled::Record(a) => {
                    let ghost rec = a;
                    let ghost pre = self.applied@;
                    match a {
                        Action::Insert(k, v) => {
                            self.hashmap.insert(k, v);
                        },
                        Action::Remove(k) => {
                            self.hashmap.remove(&k);
                        },
                        Action::ClearAll => {
                            self.hashmap.clear();
                        },
                    }
                    self.applied = Ghost(pre.push(rec));
                    proof {
                        lemma_replay_push(Map::<K, V>::empty(), pre, rec);
                        assert(pre.push(rec).take(applied0.len() as int) =~= pre.take(
                            applied0.len() as int,
                        ));
                    }
                },
                Polled::Empty => {
                    return Ok(());
                },
                Polled::Closed => {
                    return Err(StoreError::Disconnected);
                },
            }
        }
        Ok(())
    }

    /// Drains all pending records, then answers from the now-updated replica:
    /// a clone of the value the replica holds for the key, or `None`. The
    /// answer may lag the writer by whatever has not been sent yet, but never
    /// reflects a reordered or skipped record.
    pub fn get(&mut self, k: &K) -> (r: Result<Option<V>, StoreError>)
        requires
            old(self).wf(),
        ensures
            final(self).wf(),
            old(self).applied().is_prefix_of(final(self).applied()),
            match r {
                Ok(opt) => match opt {
                    Some(v) => final(self)@.contains_key(*k) && cloned(final(self)@[*k], v),
                    None => !final(self)@.contains_key(*k),
                },
                Err(e) => e == StoreError::Disconnected,
            },
    {
        match self.process_changes() {
            Ok(()) => match self.hashmap.get(k) {
                Some(v) => Ok(Some(v.clone())),
                None => Ok(None),
            },
            Err(e) => Err(e),
        }
    }

    /// Drains all pending records, then reports whether the replica holds the
    /// key.
    pub fn contains_key(&mut self, k: &K) -> (r: Result<bool, StoreError>)
        requires
            old(self).wf(),
        ensures
            final(self).wf(),
            old(self).applied().is_prefix_of(final(self).applied()),
            match r {
                Ok(b) => b == final(self)@.contains_key(*k),
                Err(e) => e == StoreError::Disconnected,
            },
    {
        match self.process_changes() {
            Ok(()) => Ok(self.hashmap.contains_key(k)),
            Err(e) => Err(e),
        }
    }
}

/// Constructs one event channel and the pair of handles bound to its two ends:
/// the only way to obtain either handle, so the two cannot be mismatched. Both
/// maps start empty. The key type must behave as a hash-table key: its `Eq`
/// and `Hash` must agree with structural equality.
pub fn keyvalue<K: Eq + Hash + Clone, V: Clone>() -> (r: (
    WritableHashMap<K, V>,
    ReadOnlyHashMap<K, V>,
))
    requires
        vstd::std_specs::hash::obeys_key_model::<K>(),
    ensures
        r.0.wf(),
        r.1.wf(),
        r.0@ == Map::<K, V>::empty(),
        r.1@ == Map::<K, V>::empty(),
        r.0.issued() == Seq::<Action<K, V>>::empty(),
        r.1.applied() == Seq::<Action<K, V>>::empty(),
{
    let (tx, rx) = action_channel::<K, V>();
    (WritableHashMap::new(tx), ReadOnlyHashMap::new(rx))
}

/// Causal replay: a reader that has applied exactly the sequence of mutations
/// the writer has issued holds, record for record, the writer's map — however
/// the drains interleaved with the sends.
pub proof fn lemma_causal_replay<K: Eq + Hash + Clone, V: Clone>(
    w: WritableHashMap<K, V>,
    r: ReadOnlyHashMap<K, V>,
)
    requires
        w.wf(),
        r.wf(),
        r.applied() == w.issued(),
    ensures
        r@ == w@,
{
}

/// Staleness bound: a reader that has applied only a prefix of the writer's
/// issued mutations holds exactly the replay of that prefix — never a strict
/// superset, never a reordering.
pub proof fn lemma_staleness_bound<K: Eq + Hash + Clone, V: Clone>(
    w: WritableHashMap<K, V>,
    r: ReadOnlyHashMap<K, V>,
    n: int,
)
    requires
        w.wf(),
        r.wf(),
        0 <= n <= w.issued().len(),
        r.applied() == w.issued().take(n),
    ensures
        r@ == replay(Map::<K, V>::empty(), w.issued().take(n)),
{
}

} // verus!
