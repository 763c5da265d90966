//! Laws that relate several registry operations.

use crate::error::TimeoutKind;
use crate::model::ids::{Function, OperationId, SystemBytes};
use crate::model::runtime::TimerToken;
use crate::protocol::message::DataMessage;
use crate::session_core::transaction::allocator;
use crate::session_core::transaction::decision::{
    ControlKind, ControlTakeDecision, ExpiryDecision, FinishDecision, InboundDataDecision,
    OperationVisibility, ReserveError, Tombstone, TombstoneArrival, TombstoneCategory,
};
use crate::session_core::transaction::model;
use crate::session_core::transaction::model::RegistryView;
use crate::session_core::transaction::registry::TransactionRegistry;
use vstd::prelude::*;

verus! {

/// Every System Bytes value has at most one owner among the live operations and the
/// tombstones, and is occupied exactly when it has one; a timer belongs to at most
/// one live operation; and both stores stay within their bounds. This holds of every
/// registry that its own operations can reach, since each of them keeps it
/// well-formed.
pub proof fn law_system_bytes_have_one_owner(registry: TransactionRegistry, system_bytes: u32)
    requires
        registry.wf(),
    ensures
        forall|a: u64, b: u64|
            #[trigger] model::owns(registry@.live, a, system_bytes) && #[trigger] model::owns(
                registry@.live,
                b,
                system_bytes,
            ) ==> a == b,
        forall|i: int, j: int|
            #[trigger] model::buries(registry@.tombstones, i, system_bytes)
                && #[trigger] model::buries(registry@.tombstones, j, system_bytes) ==> i == j,
        forall|op: u64, i: int|
            !(#[trigger] model::owns(registry@.live, op, system_bytes)
                && #[trigger] model::buries(registry@.tombstones, i, system_bytes)),
        registry@.is_occupied(system_bytes) <==> {
            ||| exists|op: u64| model::owns(registry@.live, op, system_bytes)
            ||| exists|i: int| model::buries(registry@.tombstones, i, system_bytes)
        },
        forall|a: u64, b: u64|
            #![trigger registry@.live.contains_key(a), registry@.live.contains_key(b)]
            registry@.live.contains_key(a) && registry@.live.contains_key(b)
                && registry@.live[a].timer is Some && registry@.live[a].timer
                == registry@.live[b].timer ==> a == b,
        model::requests_of(registry@.live).len() <= registry@.request_capacity,
        registry@.tombstones.len() <= registry@.tombstone_capacity,
{
    registry.lemma_valid();
    assert forall|i: int, j: int|
        #[trigger] model::buries(registry@.tombstones, i, system_bytes) && #[trigger] model::buries(
            registry@.tombstones,
            j,
            system_bytes,
        ) implies i == j by {
        let first = registry@.tombstones[i];
        let second = registry@.tombstones[j];
        assert(first.system_bytes == second.system_bytes);
    }
    assert forall|op: u64, i: int| !(#[trigger] model::owns(registry@.live, op, system_bytes)
        && #[trigger] model::buries(registry@.tombstones, i, system_bytes)) by {
        if model::owns(registry@.live, op, system_bytes) && model::buries(
            registry@.tombstones,
            i,
            system_bytes,
        ) {
            let buried = registry@.tombstones[i];
            assert(registry@.live.contains_key(op));
            assert(buried.system_bytes == registry@.live[op].system_bytes);
        }
    }
}

/// Order of visibility: nothing written, possibly written, fully written.
pub open spec fn visibility_rank(visibility: OperationVisibility) -> int {
    match visibility {
        OperationVisibility::NotVisible => 0,
        OperationVisibility::MayBeVisible => 1,
        OperationVisibility::Committed => 2,
    }
}

/// The newest tombstone is always retained, at the end of a FIFO that never
/// exceeds its capacity; the others keep their order.
pub proof fn law_tombstone_fifo(tombstones: Seq<Tombstone>, tombstone: Tombstone, capacity: usize)
    requires
        0 < capacity,
        tombstones.len() <= capacity,
    ensures
        ({
            let after = model::push_bounded(tombstones, tombstone, capacity);
            &&& after.len() <= capacity
            &&& after.last() == tombstone
            &&& tombstones.len() < capacity ==> after.drop_last() == tombstones
            &&& tombstones.len() == capacity ==> after.drop_last() == tombstones.drop_first()
        }),
{
    let after = model::push_bounded(tombstones, tombstone, capacity);
    if tombstones.len() < capacity {
        assert(after.drop_last() =~= tombstones);
    } else {
        assert(after.drop_last() =~= tombstones.drop_first());
    }
}

/// A granted reservation never hands out zero or System Bytes that a live
/// operation or a tombstone still holds.
pub proof fn law_reservation_is_fresh(view: RegistryView, system_bytes: u32)
    requires
        view.valid(),
        view.first_free(system_bytes),
    ensures
        system_bytes != 0,
        forall|op: u64| #[trigger]
            view.live.contains_key(op) ==> view.live[op].system_bytes.value != system_bytes,
        forall|i: int|
            0 <= i < view.tombstones.len() ==> (#[trigger] view.tombstones[i]).system_bytes.value
                != system_bytes,
{
    assert forall|op: u64| #[trigger] view.live.contains_key(op) implies view.live[op].system_bytes.value
        != system_bytes by {
        if view.live[op].system_bytes.value == system_bytes {
            assert(model::owns(view.live, op, system_bytes));
        }
    }
    assert forall|i: int| 0 <= i < view.tombstones.len() implies (
    #[trigger] view.tombstones[i]).system_bytes.value != system_bytes by {
        if view.tombstones[i].system_bytes.value == system_bytes {
            assert(model::buries(view.tombstones, i, system_bytes));
        }
    }
}

/// The first free value is unique.
pub proof fn law_first_free_is_unique(view: RegistryView, a: u32, b: u32)
    requires
        view.first_free(a),
        view.first_free(b),
    ensures
        a == b,
{
    let x = choose|steps: int| #[trigger]
        view.first_free_at(steps) && a == allocator::candidate_after(view.cursor, steps);
    let y = choose|steps: int| #[trigger]
        view.first_free_at(steps) && b == allocator::candidate_after(view.cursor, steps);
    assert(view.first_free_at(x) && view.first_free_at(y));
    if x < y {
        assert(view.is_occupied(allocator::candidate_after(view.cursor, x)));
    } else if y < x {
        assert(view.is_occupied(allocator::candidate_after(view.cursor, y)));
    }
}

/// Reservations never report inconsistent occupancy.
pub proof fn law_occupancy_never_violated(
    view: RegistryView,
    operation_id: OperationId,
    function: Function,
)
    ensures
        view.request_rejection(operation_id, function) != Some(
            ReserveError::OccupancyInvariantViolation,
        ),
        view.one_way_rejection(operation_id) != Some(ReserveError::OccupancyInvariantViolation),
        view.control_rejection(operation_id) != Some(ReserveError::OccupancyInvariantViolation),
{
}

/// After a close every reservation is refused as closing.
pub proof fn law_close_fences_reservations(
    view: RegistryView,
    operation_id: OperationId,
    function: Function,
)
    requires
        view.closing,
    ensures
        view.request_rejection(operation_id, function) == Some(ReserveError::Closing),
        view.one_way_rejection(operation_id) == Some(ReserveError::Closing),
        view.control_rejection(operation_id) == Some(ReserveError::Closing),
{
}

/// Reporting visibility or a commit never lowers the visibility of a live
/// operation, and touches no other operation.
pub proof fn law_visibility_is_monotone(view: RegistryView, op: u64, other: u64, token: TimerToken)
    requires
        view.valid(),
        view.live.contains_key(other),
    ensures
        view.after_visible(op).live.contains_key(other),
        view.after_commit(op, token).live.contains_key(other),
        visibility_rank(view.live[other].visibility) <= visibility_rank(
            view.after_visible(op).live[other].visibility,
        ),
        visibility_rank(view.live[other].visibility) <= visibility_rank(
            view.after_commit(op, token).live[other].visibility,
        ),
        other != op ==> view.after_visible(op).live[other] == view.live[other],
        other != op ==> view.after_commit(op, token).live[other] == view.live[other],
{
}

/// A retired operation is found again in the tombstone it left.
proof fn lemma_retired_is_buried(view: RegistryView, op: u64, category: TombstoneCategory)
    requires
        view.valid(),
        view.live.contains_key(op),
    ensures
        ({
            let after = view.retired(op, category);
            let sb = view.live[op].system_bytes.value;
            &&& after.owner(sb) is None
            &&& after.buried(sb) == Some(model::tombstone_of(op, view.live[op], category))
            &&& !after.live.contains_key(op)
        }),
{
    let after = view.retired(op, category);
    let sb = view.live[op].system_bytes.value;
    let tombstone = model::tombstone_of(op, view.live[op], category);
    model::lemma_dropped_is_free(view, op);
    law_tombstone_fifo(view.tombstones, tombstone, view.tombstone_capacity);
    let last = after.tombstones.len() - 1;
    assert(after.tombstones[last] == tombstone);
    assert(model::buries(after.tombstones, last, sb));
    let i = choose|i: int| model::buries(after.tombstones, i, sb);
    assert(model::buries(after.tombstones, i, sb));
    if i != last {
        let j = if view.tombstones.len() == view.tombstone_capacity {
            i + 1
        } else {
            i
        };
        assert(after.tombstones[i] == view.tombstones[j]);
        assert(view.tombstones[j].system_bytes == view.live[op].system_bytes);
    }
    if exists|other: u64| model::owns(after.live, other, sb) {
        let other = choose|other: u64| model::owns(after.live, other, sb);
        assert(view.live.contains_key(other));
        assert(view.live[other].system_bytes == view.live[op].system_bytes);
    }
}

/// The owner of System Bytes is live with exactly these System Bytes.
proof fn lemma_owner_is_live(view: RegistryView, sb: u32)
    requires
        view.owner(sb) is Some,
    ensures
        view.live.contains_key(view.owner(sb)->0),
        view.live[view.owner(sb)->0].system_bytes.value == sb,
{
    let op = choose|op: u64| model::owns(view.live, op, sb);
    assert(model::owns(view.live, op, sb));
}

/// An exact response ends its request once: the same message arriving again is
/// a duplicate of the retained end and changes nothing.
pub proof fn law_response_consumes_once(view: RegistryView, message: DataMessage)
    requires
        view.valid(),
        view.inbound_decision(message) is MatchedSecondary
            || view.inbound_decision(message) is Aborted,
    ensures
        ({
            let after = view.after_inbound(message);
            let op = view.owner(message.header.system_bytes.value)->0;
            &&& after.inbound_decision(message) == (InboundDataDecision::Tombstoned {
                operation_id: OperationId { value: op },
                message,
                category: if view.inbound_decision(message) is MatchedSecondary {
                    TombstoneCategory::ResponseMatched
                } else {
                    TombstoneCategory::AbortReceived
                },
                arrival: TombstoneArrival::Duplicate,
            })
            &&& after.after_inbound(message) == after
        }),
{
    let sb = message.header.system_bytes.value;
    lemma_owner_is_live(view, sb);
    let op = view.owner(sb)->0;
    let category = if view.inbound_decision(message) is MatchedSecondary {
        TombstoneCategory::ResponseMatched
    } else {
        TombstoneCategory::AbortReceived
    };
    lemma_retired_is_buried(view, op, category);
}

/// A message that does not match changes nothing, so the exact response may
/// still arrive.
pub proof fn law_mismatch_changes_nothing(view: RegistryView, message: DataMessage)
    requires
        !(view.inbound_decision(message) is MatchedSecondary),
        !(view.inbound_decision(message) is Aborted),
    ensures
        view.after_inbound(message) == view,
{
}

/// When the response wins the race, the T3 that the request owned is stale.
pub proof fn law_response_before_t3(view: RegistryView, message: DataMessage, token: TimerToken)
    requires
        view.valid(),
        token.kind == TimeoutKind::T3,
        view.inbound_decision(message) is MatchedSecondary
            || view.inbound_decision(message) is Aborted,
        view.owns_timer(view.owner(message.header.system_bytes.value)->0, token),
    ensures
        view.after_inbound(message).expiry_decision(token, TimeoutKind::T3)
            == ExpiryDecision::Stale,
{
    let sb = message.header.system_bytes.value;
    lemma_owner_is_live(view, sb);
    let op = view.owner(sb)->0;
    let after = view.after_inbound(message);
    if exists|other: u64| after.owns_timer(other, token) {
        let other = choose|other: u64| after.owns_timer(other, token);
        assert(view.live.contains_key(other));
        assert(view.live[other].timer == view.live[op].timer);
    }
}

/// When T3 wins the race, the exact response is reported late and changes
/// nothing.
pub proof fn law_t3_before_response(view: RegistryView, message: DataMessage, token: TimerToken)
    requires
        view.valid(),
        token.kind == TimeoutKind::T3,
        view.inbound_decision(message) is MatchedSecondary
            || view.inbound_decision(message) is Aborted,
        view.owns_timer(view.owner(message.header.system_bytes.value)->0, token),
    ensures
        ({
            let op = view.owner(message.header.system_bytes.value)->0;
            let after = view.after_expiry(token, TimeoutKind::T3, TombstoneCategory::T3Expired);
            &&& view.expiry_decision(token, TimeoutKind::T3) is Expired
            &&& after.inbound_decision(message) == (InboundDataDecision::Tombstoned {
                operation_id: OperationId { value: op },
                message,
                category: TombstoneCategory::T3Expired,
                arrival: TombstoneArrival::Late,
            })
            &&& after.after_inbound(message) == after
        }),
{
    let sb = message.header.system_bytes.value;
    lemma_owner_is_live(view, sb);
    let op = view.owner(sb)->0;
    model::lemma_timer_owner(view, op, token);
    lemma_retired_is_buried(view, op, TombstoneCategory::T3Expired);
}

/// A timer expires once: a repeated expiry is stale and changes nothing.
pub proof fn law_timer_expires_once(
    view: RegistryView,
    token: TimerToken,
    kind: TimeoutKind,
    category: TombstoneCategory,
)
    requires
        view.valid(),
        view.expiry_decision(token, kind) is Expired,
    ensures
        ({
            let after = view.after_expiry(token, kind, category);
            &&& after.expiry_decision(token, kind) == ExpiryDecision::Stale
            &&& after.after_expiry(token, kind, category) == after
        }),
{
    let op = choose|op: u64| view.owns_timer(op, token);
    assert(view.owns_timer(op, token));
    model::lemma_timer_owner(view, op, token);
    let after = view.after_expiry(token, kind, category);
    if exists|other: u64| after.owns_timer(other, token) {
        let other = choose|other: u64| after.owns_timer(other, token);
        assert(view.live.contains_key(other));
        assert(view.live[other].timer == view.live[op].timer);
    }
}

/// A control response ends its transaction once: the same response arriving
/// again is a duplicate and changes nothing.
pub proof fn law_control_consumes_once(
    view: RegistryView,
    kind: ControlKind,
    system_bytes: SystemBytes,
)
    requires
        view.valid(),
        view.control_decision(kind, system_bytes) is Matched,
    ensures
        ({
            let after = view.after_control(kind, system_bytes);
            &&& after.control_decision(kind, system_bytes) == (ControlTakeDecision::Tombstoned {
                operation_id: OperationId { value: view.control_owner()->0 },
                category: TombstoneCategory::ControlResponseMatched,
                arrival: TombstoneArrival::Duplicate,
            })
            &&& after.after_control(kind, system_bytes) == after
        }),
{
    let op = choose|op: u64| view.holds_control(op);
    assert(view.holds_control(op));
    model::lemma_control_owner(view, op);
    lemma_retired_is_buried(view, op, TombstoneCategory::ControlResponseMatched);
    let after = view.after_control(kind, system_bytes);
    if exists|other: u64| after.holds_control(other) {
        let other = choose|other: u64| after.holds_control(other);
        assert(view.live.contains_key(other));
    }
}

/// When T6 wins the race, the control response is reported late and changes
/// nothing.
pub proof fn law_t6_before_control_response(
    view: RegistryView,
    kind: ControlKind,
    system_bytes: SystemBytes,
    token: TimerToken,
)
    requires
        view.valid(),
        token.kind == TimeoutKind::T6,
        view.control_decision(kind, system_bytes) is Matched,
        view.owns_timer(view.control_owner()->0, token),
    ensures
        ({
            let after = view.after_expiry(token, TimeoutKind::T6, TombstoneCategory::ControlExpired);
            &&& after.control_decision(kind, system_bytes) == (ControlTakeDecision::Tombstoned {
                operation_id: OperationId { value: view.control_owner()->0 },
                category: TombstoneCategory::ControlExpired,
                arrival: TombstoneArrival::Late,
            })
            &&& after.after_control(kind, system_bytes) == after
        }),
{
    let op = choose|op: u64| view.holds_control(op);
    assert(view.holds_control(op));
    model::lemma_control_owner(view, op);
    model::lemma_timer_owner(view, op, token);
    lemma_retired_is_buried(view, op, TombstoneCategory::ControlExpired);
    let after = view.after_expiry(token, TimeoutKind::T6, TombstoneCategory::ControlExpired);
    if exists|other: u64| after.holds_control(other) {
        let other = choose|other: u64| after.holds_control(other);
        assert(view.live.contains_key(other));
    }
}

/// A retained tombstone answers every later report on its operation as already
/// ended, and such reports change nothing.
pub proof fn law_finished_operation_stays_finished(view: RegistryView, op: u64, token: TimerToken)
    requires
        !view.live.contains_key(op),
    ensures
        view.after_visible(op) == view,
        view.after_commit(op, token) == view,
        view.after_not_written(op) == view,
        view.after_indeterminate(op) == view,
        view.after_one_way(op) == view,
        view.terminal_category(op) is Some ==> view.not_written_decision(op) == (
        FinishDecision::AlreadyTerminal { category: view.terminal_category(op)->0 }),
        view.terminal_category(op) is None ==> view.not_written_decision(op)
            == FinishDecision::UnknownOperation,
{
}

/// A frame that was never visible leaves no tombstone, so its System Bytes are
/// free again.
pub proof fn law_invisible_failure_frees_system_bytes(view: RegistryView, op: u64)
    requires
        view.valid(),
        view.live.contains_key(op),
        view.live[op].visibility == OperationVisibility::NotVisible,
    ensures
        !view.after_not_written(op).is_occupied(view.live[op].system_bytes.value),
        view.after_not_written(op).tombstones == view.tombstones,
{
    model::lemma_dropped_is_free(view, op);
}

} // verus!
