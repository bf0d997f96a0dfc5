//! The flow table: connection tracking on top of connectionless UDP.

use vstd::prelude::*;

use crate::addr::SocketAddress;

verus! {

/// Seconds without traffic after which a flow is torn down. There is one
/// timeout for every flow, assured or not.
pub const CONNTRACK_TIMEOUT: u64 = 120;

/// Identifies a flow: a peer as seen on one listener. The same peer on
/// another listener is another flow.
#[derive(PartialEq, Eq, Hash, Copy, Clone, Debug, Structural)]
pub struct ConntrackKey {
    pub peer_addr: SocketAddress,
    pub listener_id: usize,
}

/// The traffic counters of one flow. They tell a flow that is in use both
/// ways from one that is not; nothing in the life of a flow hangs on them.
pub struct ConntrackValue {
    m_num_packets_in: i32,
    m_num_packets_out: i32,
}

/// One more than `n`, unless `n` is the largest count there is.
pub open spec fn count_up(n: int) -> int {
    if n < i32::MAX {
        n + 1
    } else {
        n
    }
}

/// Whether a flow with these counts has seen a datagram in each direction
/// and two in at least one.
pub open spec fn assured(packets_in: int, packets_out: int) -> bool {
    &&& packets_in >= 1
    &&& packets_out >= 1
    &&& (packets_in >= 2 || packets_out >= 2)
}

impl ConntrackValue {
    /// Datagrams received from the peer, saturating at `i32::MAX`.
    pub closed spec fn packets_in(&self) -> int {
        self.m_num_packets_in as int
    }

    /// Datagrams received from upstream, saturating at `i32::MAX`.
    pub closed spec fn packets_out(&self) -> int {
        self.m_num_packets_out as int
    }

    /// The counters of a flow that has carried nothing yet.
    pub fn new() -> (value: Self)
        ensures
            value.packets_in() == 0,
            value.packets_out() == 0,
    {
        Self { m_num_packets_in: 0, m_num_packets_out: 0 }
    }

    /// Counts a datagram from the peer.
    pub fn inc_packets_in(&mut self)
        ensures
            final(self).packets_in() == count_up(old(self).packets_in()),
            final(self).packets_out() == old(self).packets_out(),
    {
        if self.m_num_packets_in < i32::MAX {
            self.m_num_packets_in = self.m_num_packets_in + 1;
        }
    }

    /// Counts a datagram from upstream.
    pub fn inc_packets_out(&mut self)
        ensures
            final(self).packets_out() == count_up(old(self).packets_out()),
            final(self).packets_in() == old(self).packets_in(),
    {
        if self.m_num_packets_out < i32::MAX {
            self.m_num_packets_out = self.m_num_packets_out + 1;
        }
    }

    /// Datagrams received from the peer.
    pub fn num_packets_in(&self) -> (n: i32)
        ensures
            n == self.packets_in(),
    {
        self.m_num_packets_in
    }

    /// Datagrams received from upstream.
    pub fn num_packets_out(&self) -> (n: i32)
        ensures
            n == self.packets_out(),
    {
        self.m_num_packets_out
    }

    /// Whether the flow has carried traffic both ways: at least one datagram
    /// in each direction and at least two in one of them.
    pub fn is_assured(&self) -> (yes: bool)
        ensures
            yes == assured(self.packets_in(), self.packets_out()),
    {
        let a: i32 = self.m_num_packets_in;
        let b: i32 = self.m_num_packets_out;
        let min: i32 = if a <= b {
            a
        } else {
            b
        };
        let max: i32 = if a <= b {
            b
        } else {
            a
        };
        min >= 1 && max >= 2
    }
}

/// One entry of the flow table.
struct Slot<V> {
    key: ConntrackKey,
    value: V,
}

/// Whether no key stands in two slots.
spec fn distinct_keys<V>(slots: Seq<Slot<V>>) -> bool {
    forall|i: int, j: int|
        0 <= i < j < slots.len() ==> (#[trigger] slots[i]).key != (#[trigger] slots[j]).key
}

/// Whether some slot holds `key`.
spec fn has_key<V>(slots: Seq<Slot<V>>, key: ConntrackKey) -> bool {
    exists|i: int| 0 <= i < slots.len() && (#[trigger] slots[i]).key == key
}

/// A slot that holds `key`, where there is one.
spec fn slot_of<V>(slots: Seq<Slot<V>>, key: ConntrackKey) -> int {
    choose|i: int| 0 <= i < slots.len() && (#[trigger] slots[i]).key == key
}

/// The mapping that the slots spell.
spec fn slots_map<V>(slots: Seq<Slot<V>>) -> Map<ConntrackKey, V> {
    Map::new(
        |key: ConntrackKey| has_key(slots, key),
        |key: ConntrackKey| slots[slot_of(slots, key)].value,
    )
}

/// In slots with distinct keys, the slot at `i` is the one found for its
/// key.
proof fn lemma_slot_of<V>(slots: Seq<Slot<V>>, i: int)
    requires
        distinct_keys(slots),
        0 <= i < slots.len(),
    ensures
        has_key(slots, slots[i].key),
        slot_of(slots, slots[i].key) == i,
        slots_map(slots)[slots[i].key] == slots[i].value,
{
    let found = slot_of(slots, slots[i].key);
    assert(0 <= found < slots.len() && slots[found].key == slots[i].key);
}

/// A slot with a new key, put behind the others, inserts its entry.
proof fn lemma_push_slot<V>(slots: Seq<Slot<V>>, slot: Slot<V>)
    requires
        distinct_keys(slots),
        !has_key(slots, slot.key),
    ensures
        distinct_keys(slots.push(slot)),
        slots_map(slots.push(slot)) == slots_map(slots).insert(slot.key, slot.value),
{
    let after = slots.push(slot);
    assert forall|i: int, j: int| 0 <= i < j < after.len() implies (#[trigger] after[i]).key != (
    #[trigger] after[j]).key by {
        if j == slots.len() {
            assert(slots[i].key != slot.key);
        } else {
            assert(slots[i].key != slots[j].key);
        }
    }
    assert forall|k: ConntrackKey| has_key(after, k) <==> (k == slot.key || has_key(slots, k)) by {
        if has_key(after, k) {
            let i = slot_of(after, k);
            if i < slots.len() {
                assert(slots[i].key == k);
            }
        }
        if has_key(slots, k) {
            let i = slot_of(slots, k);
            assert(after[i].key == k);
        }
        if k == slot.key {
            assert(after[slots.len() as int].key == k);
        }
    }
    assert forall|k: ConntrackKey| has_key(slots, k) implies slots_map(after)[k] == slots_map(
        slots,
    )[k] by {
        let i = slot_of(slots, k);
        assert(after[i].key == k);
        lemma_slot_of(after, i);
    }
    lemma_slot_of(after, slots.len() as int);
    assert(slots_map(after) =~= slots_map(slots).insert(slot.key, slot.value));
}

/// Taking a slot out removes the entry of its key, and no other.
proof fn lemma_remove_slot<V>(slots: Seq<Slot<V>>, i: int)
    requires
        distinct_keys(slots),
        0 <= i < slots.len(),
    ensures
        distinct_keys(slots.remove(i)),
        slots_map(slots.remove(i)) == slots_map(slots).remove(slots[i].key),
{
    let after = slots.remove(i);
    let key = slots[i].key;
    assert forall|j: int| 0 <= j < after.len() implies (#[trigger] after[j]) == slots[if j < i {
        j
    } else {
        j + 1
    }] by {}
    assert forall|a: int, b: int| 0 <= a < b < after.len() implies (#[trigger] after[a]).key != (
    #[trigger] after[b]).key by {
        let a_before = if a < i {
            a
        } else {
            a + 1
        };
        let b_before = if b < i {
            b
        } else {
            b + 1
        };
        assert(slots[a_before].key != slots[b_before].key);
    }
    assert forall|k: ConntrackKey| has_key(after, k) <==> (k != key && has_key(slots, k)) by {
        if has_key(after, k) {
            let j = slot_of(after, k);
            let before = if j < i {
                j
            } else {
                j + 1
            };
            assert(slots[before].key == k);
            if before < i {
                assert(slots[before].key != slots[i].key);
            } else {
                assert(slots[i].key != slots[before].key);
            }
        }
        if k != key && has_key(slots, k) {
            let before = slot_of(slots, k);
            let j = if before < i {
                before
            } else {
                before - 1
            };
            assert(after[j].key == k);
        }
    }
    assert forall|k: ConntrackKey| has_key(after, k) implies slots_map(after)[k] == slots_map(
        slots,
    )[k] by {
        let j = slot_of(after, k);
        let before = if j < i {
            j
        } else {
            j + 1
        };
        assert(slots[before].key == k);
        lemma_slot_of(slots, before);
    }
    assert(slots_map(after) =~= slots_map(slots).remove(key));
}

/// The table after `get_or_create`: an occupied key keeps its entry, a
/// vacant one takes `value`.
pub open spec fn get_or_create_map<V>(
    table: Map<ConntrackKey, V>,
    key: ConntrackKey,
    value: V,
) -> Map<ConntrackKey, V> {
    if table.contains_key(key) {
        table
    } else {
        table.insert(key, value)
    }
}

/// The flow table: at most one entry for each flow key.
///
/// The table is meant to sit behind one exclusive lock, so that each of its
/// operations is atomic for all tasks that share it.
///
/// The entries are kept in a vector and found by comparing keys, at a cost
/// that grows with the number of flows. A hash map would find them faster,
/// but the verifier knows nothing of how a key of this kind hashes, and so
/// proves nothing of a hash map that is keyed by it.
pub struct ConnTrackMap<V> {
    slots: Vec<Slot<V>>,
}

impl<V> View for ConnTrackMap<V> {
    type V = Map<ConntrackKey, V>;

    closed spec fn view(&self) -> Map<ConntrackKey, V> {
        slots_map(self.slots@)
    }
}

impl<V> ConnTrackMap<V> {
    #[verifier::type_invariant]
    spec fn one_entry_per_key(&self) -> bool {
        distinct_keys(self.slots@)
    }

    /// An empty table.
    pub fn new() -> (table: Self)
        ensures
            table@ == Map::<ConntrackKey, V>::empty(),
    {
        let table = Self { slots: Vec::new() };
        assert(table@ =~= Map::<ConntrackKey, V>::empty());
        table
    }

    /// The slot that holds `key`, if one does.
    fn position(&self, key: &ConntrackKey) -> (found: Option<usize>)
        ensures
            match found {
                Some(i) => i < self.slots@.len() && self.slots@[i as int].key == *key,
                None => !has_key(self.slots@, *key),
            },
    {
        let mut i: usize = 0;
        while i < self.slots.len()
            invariant
                i <= self.slots@.len(),
                forall|j: int| 0 <= j < i ==> (#[trigger] self.slots@[j]).key != *key,
            decreases self.slots@.len() - i,
        {
            if self.slots[i].key == *key {
                return Some(i);
            }
            i = i + 1;
        }
        None
    }

    /// The entry of the flow `key`, if the table holds one.
    pub fn get(&self, key: &ConntrackKey) -> (found: Option<&V>)
        ensures
            found == (if self@.contains_key(*key) {
                Some(&self@[*key])
            } else {
                None
            }),
    {
        proof {
            use_type_invariant(self);
        }
        match self.position(key) {
            Some(i) => {
                proof {
                    lemma_slot_of(self.slots@, i as int);
                }
                Some(&self.slots[i].value)
            },
            None => None,
        }
    }

    /// Makes sure that the table holds an entry for the flow `key`, in one
    /// step: a vacant key takes `value`, an occupied one keeps the entry it
    /// has. Returns the entry that the table now holds, and whether it was
    /// created, that is, whether the caller owes the flow its reply task.
    pub fn get_or_create(&mut self, key: ConntrackKey, value: V) -> (entry: (&V, bool))
        ensures
            entry.1 == !old(self)@.contains_key(key),
            final(self)@ == get_or_create_map(old(self)@, key, value),
            *entry.0 == final(self)@[key],
    {
        proof {
            use_type_invariant(&*self);
        }
        match self.position(&key) {
            Some(i) => {
                proof {
                    lemma_slot_of(self.slots@, i as int);
                }
                (&self.slots[i].value, false)
            },
            None => {
                proof {
                    lemma_push_slot(self.slots@, Slot { key, value });
                }
                // The slots leave the table while they change.
                let mut slots: Vec<Slot<V>> = Vec::new();
                core::mem::swap(&mut self.slots, &mut slots);
                slots.push(Slot { key, value });
                core::mem::swap(&mut self.slots, &mut slots);
                let last: usize = self.slots.len() - 1;
                (&self.slots[last].value, true)
            },
        }
    }

    /// Takes the entry of the flow `key` out of the table, if it holds one,
    /// and returns it.
    pub fn remove(&mut self, key: &ConntrackKey) -> (removed: Option<V>)
        ensures
            final(self)@ == old(self)@.remove(*key),
            removed == (if old(self)@.contains_key(*key) {
                Some(old(self)@[*key])
            } else {
                None
            }),
    {
        proof {
            use_type_invariant(&*self);
        }
        match self.position(key) {
            Some(i) => {
                proof {
                    lemma_slot_of(self.slots@, i as int);
                    lemma_remove_slot(self.slots@, i as int);
                }
                // The slots leave the table while they change.
                let mut slots: Vec<Slot<V>> = Vec::new();
                core::mem::swap(&mut self.slots, &mut slots);
                let slot = slots.remove(i);
                core::mem::swap(&mut self.slots, &mut slots);
                Some(slot.value)
            },
            None => {
                assert(self@ =~= self@.remove(*key));
                None
            },
        }
    }
}

/// A call on the flow table, as a value to reason about runs of calls.
pub enum TableOp<V> {
    /// `get_or_create` of `key` with the entry `value` at hand.
    GetOrCreate { key: ConntrackKey, value: V },
    /// `remove` of `key`.
    Remove { key: ConntrackKey },
}

/// The table after the call `op`.
pub open spec fn apply_op<V>(table: Map<ConntrackKey, V>, op: TableOp<V>) -> Map<ConntrackKey, V> {
    match op {
        TableOp::GetOrCreate { key, value } => get_or_create_map(table, key, value),
        TableOp::Remove { key } => table.remove(key),
    }
}

/// Whether the call `op` on `table` creates the flow `key`, so that a reply
/// task is started for it.
pub open spec fn creates<V>(table: Map<ConntrackKey, V>, op: TableOp<V>, key: ConntrackKey) -> bool {
    op matches TableOp::GetOrCreate { key: k, .. } && k == key && !table.contains_key(key)
}

/// Whether the call `op` on `table` takes the flow `key` out, as its reply
/// task does when it ends.
pub open spec fn reaps<V>(table: Map<ConntrackKey, V>, op: TableOp<V>, key: ConntrackKey) -> bool {
    op matches TableOp::Remove { key: k } && k == key && table.contains_key(key)
}

/// The table after the calls `ops`, made one after the other.
pub open spec fn apply_ops<V>(table: Map<ConntrackKey, V>, ops: Seq<TableOp<V>>) -> Map<
    ConntrackKey,
    V,
>
    decreases ops.len(),
{
    if ops.len() == 0 {
        table
    } else {
        apply_ops(apply_op(table, ops.first()), ops.drop_first())
    }
}

/// How many of the calls `ops`, made one after the other on `table`, create
/// the flow `key`.
pub open spec fn creations<V>(table: Map<ConntrackKey, V>, ops: Seq<TableOp<V>>, key: ConntrackKey)
    -> nat
    decreases ops.len(),
{
    if ops.len() == 0 {
        0
    } else {
        let rest = creations(apply_op(table, ops.first()), ops.drop_first(), key);
        if creates(table, ops.first(), key) {
            rest + 1
        } else {
            rest
        }
    }
}

/// How many of the calls `ops`, made one after the other on `table`, take
/// the flow `key` out.
pub open spec fn reapings<V>(table: Map<ConntrackKey, V>, ops: Seq<TableOp<V>>, key: ConntrackKey)
    -> nat
    decreases ops.len(),
{
    if ops.len() == 0 {
        0
    } else {
        let rest = reapings(apply_op(table, ops.first()), ops.drop_first(), key);
        if reaps(table, ops.first(), key) {
            rest + 1
        } else {
            rest
        }
    }
}

/// Every entry has its reply task. Over any run of calls, the flows created
/// for a key and not yet taken out number one more, or one less, or as many
/// as before, as the key has come into the table, left it, or neither. From
/// an empty table on they number one while the key is in the table and none
/// while it is not. So a caller that starts a reply task for each creation,
/// and lets only that task remove the key, as it ends, has exactly one
/// running task for every key in the table.
pub proof fn lemma_one_live_flow_per_entry<V>(
    table: Map<ConntrackKey, V>,
    ops: Seq<TableOp<V>>,
    key: ConntrackKey,
)
    ensures
        creations(table, ops, key) - reapings(table, ops, key) == (if apply_ops(
            table,
            ops,
        ).contains_key(key) {
            1int
        } else {
            0int
        }) - (if table.contains_key(key) {
            1int
        } else {
            0int
        }),
        table == Map::<ConntrackKey, V>::empty() ==> creations(table, ops, key) - reapings(
            table,
            ops,
            key,
        ) == (if apply_ops(table, ops).contains_key(key) {
            1int
        } else {
            0int
        }),
    decreases ops.len(),
{
    if ops.len() > 0 {
        lemma_one_live_flow_per_entry(apply_op(table, ops.first()), ops.drop_first(), key);
    }
}

/// The calls `get_or_create(key, values[i])`, one for each value.
pub open spec fn get_or_create_calls<V>(key: ConntrackKey, values: Seq<V>) -> Seq<TableOp<V>> {
    Seq::new(values.len(), |i: int| TableOp::GetOrCreate { key, value: values[i] })
}

/// However many callers ask for the same vacant key, one after the other
/// as the lock lets them in, exactly one of them creates the flow, and all
/// of them find the entry of the first.
pub proof fn lemma_one_creation_per_key<V>(
    table: Map<ConntrackKey, V>,
    key: ConntrackKey,
    values: Seq<V>,
)
    requires
        values.len() > 0,
    ensures
        creations(table, get_or_create_calls(key, values), key) == (if table.contains_key(key) {
            0nat
        } else {
            1nat
        }),
        apply_ops(table, get_or_create_calls(key, values)) == get_or_create_map(
            table,
            key,
            values[0],
        ),
    decreases values.len(),
{
    let ops = get_or_create_calls(key, values);
    let rest = ops.drop_first();
    let next = apply_op(table, ops.first());
    assert(ops.first() == (TableOp::GetOrCreate { key, value: values[0] }));
    assert(next.contains_key(key));
    assert(rest =~= get_or_create_calls(key, values.drop_first()));
    if values.len() > 1 {
        lemma_one_creation_per_key(next, key, values.drop_first());
    } else {
        assert(creations(next, rest, key) == 0);
        assert(apply_ops(next, rest) == next);
    }
    assert(creations(table, ops, key) == creations(next, rest, key) + (if creates(
        table,
        ops.first(),
        key,
    ) {
        1nat
    } else {
        0nat
    }));
    assert(apply_ops(table, ops) == apply_ops(next, rest));
}

} // verus!
