//! The flows of a proxy as a whole: the table together with the reply loops
//! that its entries belong to.
//!
//! The table is shared and every reply loop runs in a task of its own, so
//! no value of the program holds them all. This is their description, made
//! of the same functions that the contracts of the table and of the reply
//! loop are stated with, and what holds of it at every moment.

use vstd::prelude::*;

use crate::conntrack::{get_or_create_map, ConntrackKey};

use super::{reply_next_state, FlowState, ReplyEvent};

verus! {

/// The flows at one moment.
pub struct Flows<V> {
    /// The flow table.
    pub table: Map<ConntrackKey, V>,
    /// The state of the reply loop of every flow whose reply task runs.
    pub loops: Map<ConntrackKey, FlowState>,
}

/// What can happen to the flows.
pub enum FlowStep<V> {
    /// An ingress loop asks the table for the flow `key`, with `value` at
    /// hand for its entry, and starts the reply task of the flow if the
    /// entry was created.
    Ingress { key: ConntrackKey, value: V },
    /// The reply loop of the flow `key` takes a turn on `event`.
    Reply { key: ConntrackKey, event: ReplyEvent },
    /// The reply task of the flow `key`, its loop over, removes the entry
    /// and ends.
    Reap { key: ConntrackKey },
}

/// The flows after `step`.
pub open spec fn flows_next<V>(flows: Flows<V>, step: FlowStep<V>) -> Flows<V> {
    match step {
        FlowStep::Ingress { key, value } => Flows {
            table: get_or_create_map(flows.table, key, value),
            loops: if flows.table.contains_key(key) {
                flows.loops
            } else {
                flows.loops.insert(key, FlowState::Fresh)
            },
        },
        FlowStep::Reply { key, event } => if flows.loops.contains_key(key) {
            Flows {
                table: flows.table,
                loops: flows.loops.insert(key, reply_next_state(flows.loops[key], event)),
            }
        } else {
            flows
        },
        FlowStep::Reap { key } => if flows.loops.contains_key(key) && flows.loops[key]
            == FlowState::Closed {
            Flows { table: flows.table.remove(key), loops: flows.loops.remove(key) }
        } else {
            flows
        },
    }
}

/// The flows after the steps `steps`, taken one after the other.
pub open spec fn flows_after<V>(flows: Flows<V>, steps: Seq<FlowStep<V>>) -> Flows<V>
    decreases steps.len(),
{
    if steps.len() == 0 {
        flows
    } else {
        flows_next(flows_after(flows, steps.drop_last()), steps.last())
    }
}

/// A proxy that has seen no datagram yet.
pub open spec fn no_flows<V>() -> Flows<V> {
    Flows { table: Map::empty(), loops: Map::empty() }
}

/// Whether the flows in the table are those whose reply task runs.
pub open spec fn every_entry_has_its_task<V>(flows: Flows<V>) -> bool {
    flows.table.dom() == flows.loops.dom()
}

/// Whether no reply task stands between the end of its loop and the removal
/// of its entry.
pub open spec fn no_loop_just_over<V>(flows: Flows<V>) -> bool {
    forall|key: ConntrackKey| #[trigger]
        flows.loops.contains_key(key) ==> flows.loops[key] != FlowState::Closed
}

/// No step parts an entry from its reply task.
pub proof fn lemma_step_keeps_tasks<V>(flows: Flows<V>, step: FlowStep<V>)
    requires
        every_entry_has_its_task(flows),
    ensures
        every_entry_has_its_task(flows_next(flows, step)),
{
    let next = flows_next(flows, step);
    assert(next.table.dom() =~= next.loops.dom());
}

/// At every moment, whatever has happened since the proxy started, every
/// flow in the table has a running reply task and every running reply task
/// has its flow in the table.
pub proof fn lemma_tasks_at_every_moment<V>(steps: Seq<FlowStep<V>>)
    ensures
        every_entry_has_its_task(flows_after(no_flows::<V>(), steps)),
    decreases steps.len(),
{
    if steps.len() == 0 {
        assert(no_flows::<V>().table.dom() =~= no_flows::<V>().loops.dom());
    } else {
        lemma_tasks_at_every_moment(steps.drop_last());
        lemma_step_keeps_tasks(flows_after(no_flows::<V>(), steps.drop_last()), steps.last());
    }
}

/// For every flow in the table there is a reply task whose loop has not
/// ended, at every moment at which no task stands between the end of its
/// loop and the removal of its entry.
pub proof fn lemma_entry_has_a_live_loop<V>(steps: Seq<FlowStep<V>>, key: ConntrackKey)
    requires
        flows_after(no_flows::<V>(), steps).table.contains_key(key),
        no_loop_just_over(flows_after(no_flows::<V>(), steps)),
    ensures
        flows_after(no_flows::<V>(), steps).loops.contains_key(key),
        flows_after(no_flows::<V>(), steps).loops[key] != FlowState::Closed,
{
    lemma_tasks_at_every_moment(steps);
    let flows = flows_after(no_flows::<V>(), steps);
    assert(flows.loops.dom().contains(key));
}

/// A flow that falls idle leaves the table: when the idle timer of its
/// reply loop runs out and the reply task then removes the entry, the table
/// is without the flow.
pub proof fn lemma_idle_flow_is_reaped<V>(flows: Flows<V>, key: ConntrackKey)
    requires
        every_entry_has_its_task(flows),
    ensures
        !flows_next(
            flows_next(flows, FlowStep::Reply { key, event: ReplyEvent::IdleTimeout }),
            FlowStep::Reap { key },
        ).table.contains_key(key),
{
    let timed_out = flows_next(flows, FlowStep::Reply { key, event: ReplyEvent::IdleTimeout });
    if !flows.loops.contains_key(key) {
        assert(!flows.table.dom().contains(key));
    }
}

/// A key that has left the table comes back as a fresh flow with the next
/// datagram of its peer.
pub proof fn lemma_reaped_flow_is_made_anew<V>(flows: Flows<V>, key: ConntrackKey, value: V)
    requires
        every_entry_has_its_task(flows),
        !flows.table.contains_key(key),
    ensures
        flows_next(flows, FlowStep::Ingress { key, value }).table.contains_key(key),
        flows_next(flows, FlowStep::Ingress { key, value }).table[key] == value,
        flows_next(flows, FlowStep::Ingress { key, value }).loops[key] == FlowState::Fresh,
{
}

} // verus!
