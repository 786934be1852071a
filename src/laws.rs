//! Properties of the registry over sequences of operations.
//!
//! The registry's operations are applied one at a time under one lock, so any
//! run of them, from however many callback threads, is some sequence of the
//! steps that `registry` states. The facts below hold of every such sequence.

use vstd::prelude::*;

use crate::device::{BluetoothDeviceInfo, RawDevice, record_of};
use crate::registry::{BluetoothEvent, DeviceRegistrations, RegistryView, change_event};

verus! {

/// One registry operation, as the registry's contracts state it.
pub enum RegistryOp<H> {
    Add { id: Seq<char>, raw: RawDevice<H>, regs: DeviceRegistrations },
    Update { raw: RawDevice<H> },
    Remove { id: Seq<char> },
    CompleteEnumeration,
}

/// The registry after one operation.
pub open spec fn step<H>(v: RegistryView<H>, op: RegistryOp<H>) -> RegistryView<H> {
    match op {
        RegistryOp::Add { id, raw, regs } => v.added(id, raw, regs),
        RegistryOp::Update { raw } => v.updated(raw),
        RegistryOp::Remove { id } => v.removed(id),
        RegistryOp::CompleteEnumeration => v.completed(),
    }
}

/// The event that one operation publishes.
pub open spec fn event_of<H>(v: RegistryView<H>, op: RegistryOp<H>) -> Option<BluetoothEvent> {
    match op {
        RegistryOp::CompleteEnumeration => Some(BluetoothEvent::BluetoothDevicesChanged()),
        _ => change_event(v.enumeration_completed),
    }
}

/// The registry after a sequence of operations, first to last.
pub open spec fn replay<H>(v: RegistryView<H>, ops: Seq<RegistryOp<H>>) -> RegistryView<H>
    decreases ops.len(),
{
    if ops.len() == 0 {
        v
    } else {
        step(replay(v, ops.drop_last()), ops.last())
    }
}

/// How many events a sequence of operations publishes.
pub open spec fn events<H>(v: RegistryView<H>, ops: Seq<RegistryOp<H>>) -> nat
    decreases ops.len(),
{
    if ops.len() == 0 {
        0
    } else {
        events(v, ops.drop_last()) + if event_of(replay(v, ops.drop_last()), ops.last()) is Some {
            1nat
        } else {
            0nat
        }
    }
}

/// Whether an operation concerns the device `id`.
pub open spec fn touches<H>(op: RegistryOp<H>, id: Seq<char>) -> bool {
    match op {
        RegistryOp::Add { id: i, .. } => i == id,
        RegistryOp::Update { raw } => raw.id@ == id,
        RegistryOp::Remove { id: i } => i == id,
        RegistryOp::CompleteEnumeration => false,
    }
}

/// The index of the last operation that concerns `id`, if any does.
pub open spec fn last_touch<H>(ops: Seq<RegistryOp<H>>, id: Seq<char>) -> Option<int>
    decreases ops.len(),
{
    if ops.len() == 0 {
        None
    } else if touches(ops.last(), id) {
        Some(ops.len() - 1)
    } else {
        last_touch(ops.drop_last(), id)
    }
}

/// The record that `id` should have after `ops`: the one that its last
/// operation stored, none if that operation removed it, and its record before
/// `ops` if no operation concerned it.
pub open spec fn known_after<H>(v: RegistryView<H>, ops: Seq<RegistryOp<H>>, id: Seq<char>) -> Option<
    BluetoothDeviceInfo<H>,
> {
    match last_touch(ops, id) {
        None => if v.known.contains_key(id) {
            Some(v.known[id])
        } else {
            None
        },
        Some(i) => match ops[i] {
            RegistryOp::Add { raw, .. } => Some(record_of(raw)),
            RegistryOp::Update { raw } => Some(record_of(raw)),
            _ => None,
        },
    }
}

/// Adding the same id twice leaves exactly one record under it, the one of
/// the second report, and the registry is as if only the second add had
/// happened.
pub proof fn lemma_add_twice_keeps_latest<H>(
    v: RegistryView<H>,
    id: Seq<char>,
    first: RawDevice<H>,
    first_regs: DeviceRegistrations,
    second: RawDevice<H>,
    second_regs: DeviceRegistrations,
)
    ensures
        v.added(id, first, first_regs).added(id, second, second_regs) == v.added(
            id,
            second,
            second_regs,
        ),
        v.added(id, first, first_regs).added(id, second, second_regs).known.dom() == v.known.dom().insert(
            id,
        ),
        v.added(id, first, first_regs).added(id, second, second_regs).known[id] == record_of(second),
        v.added(id, first, first_regs).added(id, second, second_regs).subscriptions[id] == second_regs,
{
    assert(v.known.insert(id, record_of(first)).insert(id, record_of(second)) =~= v.known.insert(
        id,
        record_of(second),
    ));
    assert(v.subscriptions.insert(id, first_regs).insert(id, second_regs) =~= v.subscriptions.insert(
        id,
        second_regs,
    ));
}

/// After a removal the id is in neither the device map nor the token map,
/// and every other id is as it was.
pub proof fn lemma_removal_clears_both<H>(v: RegistryView<H>, id: Seq<char>)
    ensures
        !v.removed(id).known.contains_key(id),
        !v.removed(id).subscriptions.contains_key(id),
        forall|other: Seq<char>|
            other != id ==> {
                &&& #[trigger] v.removed(id).known.contains_key(other) == v.known.contains_key(other)
                &&& v.removed(id).subscriptions.contains_key(other) == v.subscriptions.contains_key(
                    other,
                )
                &&& v.known.contains_key(other) ==> v.removed(id).known[other] == v.known[other]
            },
{
}

/// Before the initial enumeration completes no operation but its completion
/// publishes anything; that completion publishes one event; from then on
/// every operation publishes exactly one.
pub proof fn lemma_gated_events<H>(v: RegistryView<H>, ops: Seq<RegistryOp<H>>)
    ensures
        !v.enumeration_completed && (forall|i: int|
            0 <= i < ops.len() ==> !(#[trigger] ops[i] is CompleteEnumeration)) ==> {
            &&& events(v, ops) == 0
            &&& !replay(v, ops).enumeration_completed
        },
        v.enumeration_completed ==> {
            &&& events(v, ops) == ops.len()
            &&& replay(v, ops).enumeration_completed
        },
        event_of(v, RegistryOp::CompleteEnumeration) == Some(BluetoothEvent::BluetoothDevicesChanged()),
        step(v, RegistryOp::CompleteEnumeration).enumeration_completed,
    decreases ops.len(),
{
    if ops.len() > 0 {
        let prefix = ops.drop_last();
        assert forall|i: int| 0 <= i < prefix.len() implies prefix[i] == ops[i] by {}
        lemma_gated_events(v, prefix);
        if !v.enumeration_completed && (forall|i: int|
            0 <= i < ops.len() ==> !(#[trigger] ops[i] is CompleteEnumeration)) {
            assert(!(ops[ops.len() - 1] is CompleteEnumeration));
            assert forall|i: int| 0 <= i < prefix.len() implies !(
            #[trigger] prefix[i] is CompleteEnumeration) by {
                assert(prefix[i] == ops[i]);
            }
        }
    }
}

/// Operations applied one at a time leave under each id exactly the record
/// that its last operation stored: an id is known afterwards iff its last
/// operation added or updated it (or, untouched, it was known before), and
/// its record is never a mix of two reports.
pub proof fn lemma_linearized_operations<H>(
    v: RegistryView<H>,
    ops: Seq<RegistryOp<H>>,
    id: Seq<char>,
)
    ensures
        replay(v, ops).known.contains_key(id) <==> known_after(v, ops, id) is Some,
        known_after(v, ops, id) matches Some(r) ==> replay(v, ops).known[id] == r,
    decreases ops.len(),
{
    if ops.len() > 0 {
        let prefix = ops.drop_last();
        lemma_linearized_operations(v, prefix, id);
        if !touches(ops.last(), id) {
            match last_touch(prefix, id) {
                Some(i) => {
                    lemma_last_touch_bounds(prefix, id);
                    assert(prefix[i] == ops[i]);
                },
                None => {},
            }
        }
    }
}

/// The set of known ids after a sequence of operations is the set of ids
/// whose last operation left a record.
pub proof fn lemma_linearized_known_ids<H>(v: RegistryView<H>, ops: Seq<RegistryOp<H>>)
    ensures
        replay(v, ops).known.dom() == Set::new(|id: Seq<char>| known_after(v, ops, id) is Some),
{
    assert forall|id: Seq<char>| #[trigger]
        replay(v, ops).known.dom().contains(id) == (known_after(v, ops, id) is Some) by {
        lemma_linearized_operations(v, ops, id);
    }
    assert(replay(v, ops).known.dom() =~= Set::new(
        |id: Seq<char>| known_after(v, ops, id) is Some,
    ));
}

proof fn lemma_last_touch_bounds<H>(ops: Seq<RegistryOp<H>>, id: Seq<char>)
    ensures
        last_touch(ops, id) matches Some(i) ==> 0 <= i < ops.len() && touches(ops[i], id),
    decreases ops.len(),
{
    if ops.len() > 0 {
        lemma_last_touch_bounds(ops.drop_last(), id);
    }
}

} // verus!
