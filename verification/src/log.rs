//! The mutation log: one `Action` describes one change to the store, and a map
//! is synchronized by replaying a sequence of actions in issuance order.

use vstd::prelude::*;

verus! {

/// One mutation record: insert-or-overwrite a key, remove a key, or clear
/// everything. Records are immutable once created; the write side issues them
/// and the read side replays them in order.
pub enum Action<K, V> {
    Insert(K, V),
    Remove(K),
    ClearAll,
}

/// The effect of one action on a map.
pub open spec fn apply_action<K, V>(m: Map<K, V>, a: Action<K, V>) -> Map<K, V> {
    match a {
        Action::Insert(k, v) => m.insert(k, v),
        Action::Remove(k) => m.remove(k),
        Action::ClearAll => Map::empty(),
    }
}

/// The map that results from applying every action of `s` to `m`, first to last.
pub open spec fn replay<K, V>(m: Map<K, V>, s: Seq<Action<K, V>>) -> Map<K, V>
    decreases s.len(),
{
    if s.len() == 0 {
        m
    } else {
        replay(apply_action(m, s[0]), s.drop_first())
    }
}

/// Replaying one more action is the same as applying it to the replayed map.
pub proof fn lemma_replay_push<K, V>(m: Map<K, V>, s: Seq<Action<K, V>>, a: Action<K, V>)
    ensures
        replay(m, s.push(a)) == apply_action(replay(m, s), a),
    decreases s.len(),
{
    reveal_with_fuel(replay, 2);
    if s.len() == 0 {
        assert(s.push(a)[0] == a);
        assert(s.push(a).drop_first() =~= Seq::<Action<K, V>>::empty());
    } else {
        assert(s.push(a)[0] == s[0]);
        assert(s.push(a).drop_first() =~= s.drop_first().push(a));
        lemma_replay_push(apply_action(m, s[0]), s.drop_first(), a);
    }
}

/// Clearing is idempotent: one `ClearAll` empties any map, so clearing an
/// already-empty map leaves it empty, and a second clear changes nothing.
pub proof fn lemma_clear_idempotent<K, V>(m: Map<K, V>)
    ensures
        apply_action(m, Action::<K, V>::ClearAll) == Map::<K, V>::empty(),
        apply_action(apply_action(m, Action::<K, V>::ClearAll), Action::<K, V>::ClearAll)
            == apply_action(m, Action::<K, V>::ClearAll),
{
}

/// Replaying the removal of an absent key leaves the map unchanged.
pub proof fn lemma_remove_absent<K, V>(m: Map<K, V>, k: K)
    requires
        !m.contains_key(k),
    ensures
        apply_action(m, Action::<K, V>::Remove(k)) == m,
{
    assert(m.remove(k) =~= m);
}

} // verus!
