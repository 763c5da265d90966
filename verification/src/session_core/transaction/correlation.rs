//! What reservations, frames, timers and inbound messages owe each other, said in
//! terms of header fields and of the operations that are live or remembered.

use crate::error::TimeoutKind;
use crate::model::ids::{Function, OperationId, SessionId, Stream, SystemBytes};
use crate::model::runtime::TimerToken;
use crate::protocol::header::DataHeader;
use crate::protocol::message::DataMessage;
use crate::session_core::transaction::allocator;
use crate::session_core::transaction::decision::{
    CollisionSource, CommitDecision, ControlCollision, ControlKind, ControlTakeDecision,
    ExpiryDecision, FinishDecision, InboundDataDecision, LiveOperation, MarkVisibleDecision,
    OneWayKind, OperationClass, OperationVisibility, ReserveError, Tombstone, TombstoneArrival,
    TombstoneCategory, TombstoneSubject,
};
use crate::session_core::transaction::matcher;
use crate::session_core::transaction::matcher::{MatcherDecision, MismatchField, ResponseMatcher};
use crate::session_core::transaction::model;
use crate::session_core::transaction::model::RegistryView;
use vstd::prelude::*;

verus! {

/// A candidate that does not match is refused for its first field that differs, in
/// the order System Bytes, Session ID, stream, W-bit, and then the text of an F0 or
/// the function of anything else.
pub proof fn law_first_difference_is_named(
    contract: ResponseMatcher,
    candidate: DataHeader,
    text: bool,
)
    ensures
        ({
            let decision = matcher::match_response(contract, candidate, text);
            let system = candidate.system_bytes.value == contract.system_bytes.value;
            let session = candidate.session_id.value() == contract.session_id.value();
            let stream = candidate.stream.value() == contract.stream.value();
            let w = candidate.reply_expected;
            let f = candidate.function.value;
            let expected = contract.expected_function.value;
            let refused = |field: MismatchField| decision == MatcherDecision::Mismatch { field };
            &&& refused(MismatchField::SystemBytes) <==> !system
            &&& refused(MismatchField::SessionId) <==> system && !session
            &&& refused(MismatchField::Stream) <==> system && session && !stream
            &&& refused(MismatchField::ReplyExpected) <==> system && session && stream && w
            &&& refused(MismatchField::MessageText) <==> system && session && stream && !w && f == 0
                && text
            &&& refused(MismatchField::Function) <==> system && session && stream && !w && f != 0
                && f != expected
            &&& decision == MatcherDecision::Abort <==> system && session && stream && !w && f == 0
                && !text
            &&& decision == MatcherDecision::Secondary <==> system && session && stream && !w && f
                != 0 && f == expected
        }),
{
}

/// After a request with function F was reserved, an inbound Data message is the
/// answer of that request exactly when it echoes the System Bytes, the Session ID
/// and the stream, carries F+1 and does not itself ask for a reply; and it is the
/// abort of that request exactly when it echoes the same, carries F0 and no text.
pub proof fn law_request_is_answered_by_the_next_function(
    view: RegistryView,
    operation_id: OperationId,
    session_id: SessionId,
    stream: Stream,
    function: Function,
    system_bytes: SystemBytes,
    message: DataMessage,
)
    requires
        view.valid(),
        view.request_rejection(operation_id, function) is None,
        view.first_free(system_bytes.value),
    ensures
        ({
            let after = view.reserved(
                operation_id.value,
                model::fresh_request(system_bytes, session_id, stream, function),
            );
            let decision = after.inbound_decision(message);
            let header = message.header;
            let echoes = header.system_bytes.value == system_bytes.value
                && header.session_id.value() == session_id.value() && header.stream.value()
                == stream.value() && !header.reply_expected;
            &&& (decision matches InboundDataDecision::MatchedSecondary { operation_id: of, .. }
                && of == operation_id) <==> echoes && header.function.value == function.value + 1
            &&& (decision matches InboundDataDecision::Aborted { operation_id: of, .. } && of
                == operation_id) <==> echoes && header.function.value == 0 && message.body is None
            &&& echoes && header.function.value == function.value + 1 ==> decision
                == (InboundDataDecision::MatchedSecondary {
                operation_id,
                message,
                cancel_t3: None,
                visibility: OperationVisibility::NotVisible,
            })
        }),
{
    let live = model::fresh_request(system_bytes, session_id, stream, function);
    let after = view.reserved(operation_id.value, live);
    let sb = message.header.system_bytes.value;
    let reserved = system_bytes.value;
    lemma_free(view, reserved);
    assert(model::owns(after.live, operation_id.value, reserved));
    if exists|op: u64| model::owns(after.live, op, sb) {
        let op = choose|op: u64| model::owns(after.live, op, sb);
        assert(model::owns(after.live, op, sb));
        if sb == reserved && op != operation_id.value {
            assert(model::owns(view.live, op, reserved));
        }
        if sb != reserved {
            assert(op != operation_id.value);
        }
    }
    assert(function.value % 2 == 1 && function.value <= 253);
}

/// A free value is held by nobody.
proof fn lemma_free(view: RegistryView, system_bytes: u32)
    requires
        view.first_free(system_bytes),
    ensures
        !view.is_occupied(system_bytes),
{
    let steps = choose|steps: int| #[trigger]
        view.first_free_at(steps) && system_bytes == allocator::candidate_after(
            view.cursor,
            steps,
        );
    assert(view.first_free_at(steps));
}

/// A Data message is a primary of the peer exactly when its function is odd,
/// whatever its W-bit, its System Bytes and the operations of the registry are.
pub proof fn law_odd_functions_are_primaries(view: RegistryView, message: DataMessage)
    ensures
        view.inbound_decision(message) is PrimaryCandidate <==> message.header.function.value % 2
            == 1,
        message.header.function.value % 2 == 1 ==> view.inbound_decision(message) == (
        InboundDataDecision::PrimaryCandidate { message }) && view.after_inbound(message) == view,
{
}

/// Classification hands the message on unchanged.
pub proof fn law_classified_message_is_kept(view: RegistryView, message: DataMessage)
    ensures
        match view.inbound_decision(message) {
            InboundDataDecision::PrimaryCandidate { message: kept } => kept == message,
            InboundDataDecision::MatchedSecondary { message: kept, .. } => kept == message,
            InboundDataDecision::Aborted { message: kept, .. } => kept == message,
            InboundDataDecision::Tombstoned { message: kept, .. } => kept == message,
            InboundDataDecision::Mismatch { message: kept, .. } => kept == message,
            InboundDataDecision::OrphanSecondary { message: kept } => kept == message,
        },
{
    if let Some(tombstone) = view.buried(message.header.system_bytes.value) {
        let decision = model::buried_decision(tombstone, message);
    }
}

/// A message with an even function whose System Bytes a live operation holds is
/// about that operation: a request takes its Secondary or its abort, with the timer
/// and the visibility that it had, and everything else is a collision with it.
pub proof fn law_live_owner_decides(view: RegistryView, op: u64, message: DataMessage)
    requires
        view.valid(),
        view.live.contains_key(op),
        view.live[op].system_bytes.value == message.header.system_bytes.value,
        message.header.function.value % 2 == 0,
    ensures
        ({
            let live = view.live[op];
            let header = message.header;
            let decision = view.inbound_decision(message);
            let contract = live.matcher->0;
            let echoes = header.session_id.value() == contract.session_id.value()
                && header.stream.value() == contract.stream.value() && !header.reply_expected;
            match live.class {
                OperationClass::Request => {
                    &&& decision is MatchedSecondary <==> echoes && header.function.value != 0
                        && header.function.value == contract.expected_function.value
                    &&& decision is Aborted <==> echoes && header.function.value == 0
                        && message.body is None
                    &&& decision is MatchedSecondary ==> decision == (
                    InboundDataDecision::MatchedSecondary {
                        operation_id: OperationId { value: op },
                        message,
                        cancel_t3: live.timer,
                        visibility: live.visibility,
                    })
                    &&& decision is Aborted ==> decision == (InboundDataDecision::Aborted {
                        operation_id: OperationId { value: op },
                        message,
                        cancel_t3: live.timer,
                        visibility: live.visibility,
                    })
                    &&& decision is MatchedSecondary || decision is Aborted || (decision matches
                        InboundDataDecision::Mismatch { collision, .. } && collision is LiveRequest)
                },
                OperationClass::OneWay(kind) => decision == (InboundDataDecision::Mismatch {
                    message,
                    collision: CollisionSource::LiveOneWay { kind },
                }),
                OperationClass::Control(kind) => decision == (InboundDataDecision::Mismatch {
                    message,
                    collision: CollisionSource::LiveControl { kind },
                }),
            }
        }),
{
    model::lemma_owner(view, op);
    assert(model::live_ok(view.live[op]));
    law_first_difference_is_named(view.live[op].matcher->0, message.header, message.body is Some);
}

/// A message with an even function is an orphan exactly when neither a live
/// operation nor a tombstone holds its System Bytes; it then changes nothing.
pub proof fn law_orphans_belong_to_nobody(view: RegistryView, message: DataMessage)
    requires
        view.valid(),
    ensures
        view.inbound_decision(message) is OrphanSecondary <==> {
            &&& message.header.function.value % 2 == 0
            &&& forall|op: u64| #[trigger]
                view.live.contains_key(op) ==> view.live[op].system_bytes.value
                    != message.header.system_bytes.value
            &&& forall|i: int|
                0 <= i < view.tombstones.len() ==> (
                #[trigger] view.tombstones[i]).system_bytes.value
                    != message.header.system_bytes.value
        },
        view.inbound_decision(message) is OrphanSecondary ==> view.after_inbound(message) == view,
{
    let sb = message.header.system_bytes.value;
    if exists|op: u64| model::owns(view.live, op, sb) {
        let op = choose|op: u64| model::owns(view.live, op, sb);
        assert(view.live.contains_key(op));
    }
    if exists|i: int| model::buries(view.tombstones, i, sb) {
        let i = choose|i: int| model::buries(view.tombstones, i, sb);
        assert(view.tombstones[i].system_bytes.value == sb);
    }
    if view.inbound_decision(message) is OrphanSecondary {
        assert forall|op: u64| #[trigger] view.live.contains_key(op) implies view.live[op].system_bytes.value
            != sb by {
            if view.live[op].system_bytes.value == sb {
                assert(model::owns(view.live, op, sb));
            }
        }
        assert forall|i: int| 0 <= i < view.tombstones.len() implies (
        #[trigger] view.tombstones[i]).system_bytes.value != sb by {
            if view.tombstones[i].system_bytes.value == sb {
                assert(model::buries(view.tombstones, i, sb));
            }
        }
    }
}

/// A message with an even function whose System Bytes a tombstone holds is late or
/// a duplicate: a duplicate when it is again the answer, or again the abort, that
/// ended the request. What does not fit the remembered request is a collision.
pub proof fn law_tombstone_decides(view: RegistryView, i: int, message: DataMessage)
    requires
        view.valid(),
        0 <= i < view.tombstones.len(),
        view.tombstones[i].system_bytes.value == message.header.system_bytes.value,
        message.header.function.value % 2 == 0,
    ensures
        ({
            let tombstone = view.tombstones[i];
            let header = message.header;
            let decision = view.inbound_decision(message);
            match tombstone.subject {
                TombstoneSubject::Request(contract) => {
                    let echoes = header.system_bytes.value == contract.system_bytes.value
                        && header.session_id.value() == contract.session_id.value()
                        && header.stream.value() == contract.stream.value()
                        && !header.reply_expected;
                    let answer = echoes && header.function.value != 0 && header.function.value
                        == contract.expected_function.value;
                    let abort = echoes && header.function.value == 0 && message.body is None;
                    let again = (answer && tombstone.category == TombstoneCategory::ResponseMatched)
                        || (abort && tombstone.category == TombstoneCategory::AbortReceived);
                    if answer || abort {
                        decision == (InboundDataDecision::Tombstoned {
                            operation_id: tombstone.operation_id,
                            message,
                            category: tombstone.category,
                            arrival: if again {
                                TombstoneArrival::Duplicate
                            } else {
                                TombstoneArrival::Late
                            },
                        })
                    } else {
                        decision matches InboundDataDecision::Mismatch { collision, .. }
                            && collision matches CollisionSource::RequestTombstone {
                            category,
                            ..
                        } && category == tombstone.category
                    }
                },
                _ => decision == (InboundDataDecision::Mismatch {
                    message,
                    collision: CollisionSource::Tombstone { category: tombstone.category },
                }),
            }
        }),
        view.after_inbound(message) == view,
{
    let sb = message.header.system_bytes.value;
    model::lemma_buried(view, i);
    if exists|op: u64| model::owns(view.live, op, sb) {
        let op = choose|op: u64| model::owns(view.live, op, sb);
        assert(view.live.contains_key(op));
        assert(view.live[op].system_bytes == view.tombstones[i].system_bytes);
    }
}

/// An answer or an abort ends its request: it is no longer live, nothing else
/// changes among the live operations, and the newest tombstone remembers its
/// identity, its System Bytes, its response contract and how it ended.
pub proof fn law_answer_retires_its_request(view: RegistryView, op: u64, message: DataMessage)
    requires
        view.valid(),
        view.live.contains_key(op),
        view.live[op].system_bytes.value == message.header.system_bytes.value,
        view.inbound_decision(message) is MatchedSecondary || view.inbound_decision(
            message,
        ) is Aborted,
    ensures
        ({
            let after = view.after_inbound(message);
            &&& !after.live.contains_key(op)
            &&& forall|other: u64|
                other != op ==> (#[trigger] after.live.contains_key(other)
                    <==> view.live.contains_key(other))
            &&& forall|other: u64|
                other != op && view.live.contains_key(other) ==> #[trigger] after.live[other]
                    == view.live[other]
            &&& after.tombstones.last() == (Tombstone {
                operation_id: OperationId { value: op },
                system_bytes: view.live[op].system_bytes,
                subject: TombstoneSubject::Request(view.live[op].matcher->0),
                category: if view.inbound_decision(message) is MatchedSecondary {
                    TombstoneCategory::ResponseMatched
                } else {
                    TombstoneCategory::AbortReceived
                },
            })
            &&& after.cursor == view.cursor
            &&& after.closing == view.closing
        }),
{
    model::lemma_owner(view, op);
}

/// The value that a reservation gets is the nearest free one: going up from the
/// cursor and wrapping from the largest number to one, no free number comes before
/// it. Zero is never given out, and the next reservation looks behind it.
pub proof fn law_nearest_free_value_is_reserved(view: RegistryView, system_bytes: u32, other: u32)
    requires
        view.valid(),
        view.first_free(system_bytes),
    ensures
        system_bytes != 0,
        !view.is_occupied(system_bytes),
        other != 0 && !view.is_occupied(other) && other != system_bytes ==> if view.cursor
            <= system_bytes {
            other < view.cursor || other > system_bytes
        } else {
            system_bytes < other < view.cursor
        },
        allocator::spec_successor(system_bytes) == if system_bytes == 0xffff_ffff {
            1int
        } else {
            system_bytes + 1
        },
{
    let steps = choose|steps: int| #[trigger]
        view.first_free_at(steps) && system_bytes == allocator::candidate_after(
            view.cursor,
            steps,
        );
    assert(view.first_free_at(steps));
    let distance = if other >= view.cursor {
        other - view.cursor
    } else {
        other - view.cursor + 0xffff_ffff
    };
    if other != 0 {
        assert(allocator::candidate_after(view.cursor, distance) == other);
        if 0 <= distance < steps {
            assert(view.is_occupied(allocator::candidate_after(view.cursor, distance)));
        }
    }
}

/// A reserved request is live under its own identity with the System Bytes that it
/// got, not yet visible and without a timer; every other operation, the tombstones
/// and the bounds stay as they were.
pub proof fn law_reservation_adds_one_operation(
    view: RegistryView,
    op: u64,
    system_bytes: SystemBytes,
    session_id: SessionId,
    stream: Stream,
    function: Function,
    one_way: OneWayKind,
    control: ControlKind,
    other: u64,
)
    requires
        other != op,
    ensures
        ({
            let request = view.reserved(
                op,
                model::fresh_request(system_bytes, session_id, stream, function),
            );
            let single = view.reserved(
                op,
                model::fresh_unmatched(system_bytes, OperationClass::OneWay(one_way)),
            );
            let procedure = view.reserved(
                op,
                model::fresh_unmatched(system_bytes, OperationClass::Control(control)),
            );
            &&& request.live.contains_key(op) && request.live[op].class == OperationClass::Request
            &&& request.live[op].matcher is Some
            &&& single.live.contains_key(op) && single.live[op].class == OperationClass::OneWay(
                one_way,
            )
            &&& single.live[op].matcher is None
            &&& procedure.live.contains_key(op) && procedure.live[op].class
                == OperationClass::Control(control)
            &&& procedure.live[op].matcher is None
            &&& forall|after: RegistryView|
                #![trigger after.live]
                after == request || after == single || after == procedure ==> {
                    &&& after.live[op].system_bytes == system_bytes
                    &&& after.live[op].visibility == OperationVisibility::NotVisible
                    &&& after.live[op].timer is None
                    &&& after.live.contains_key(other) <==> view.live.contains_key(other)
                    &&& view.live.contains_key(other) ==> after.live[other] == view.live[other]
                    &&& after.tombstones == view.tombstones
                    &&& after.closing == view.closing
                    &&& after.request_capacity == view.request_capacity
                    &&& after.tombstone_capacity == view.tombstone_capacity
                    &&& system_bytes.value != 0xffff_ffff ==> after.cursor == system_bytes.value + 1
                    &&& system_bytes.value == 0xffff_ffff ==> after.cursor == 1
                }
        }),
{
}

/// A request is refused exactly for the first of these that holds: the generation
/// closes, the operation is live already, every request slot is taken, no System
/// Bytes are free, or no Secondary can answer the function. Functions that can be
/// answered are the odd ones up to 253.
pub proof fn law_request_refusals(
    view: RegistryView,
    operation_id: OperationId,
    function: Function,
)
    ensures
        ({
            let refusal = view.request_rejection(operation_id, function);
            let live = view.live.contains_key(operation_id.value);
            let full = model::requests_of(view.live).len() >= view.request_capacity;
            let exhausted = view.live.dom().len() + view.tombstones.len() >= 0xffff_ffff;
            let answerable = function.value % 2 == 1 && function.value <= 253;
            &&& refusal == Some(ReserveError::Closing) <==> view.closing
            &&& refusal == Some(ReserveError::DuplicateOperation { operation_id }) <==> !view.closing
                && live
            &&& refusal == Some(
                ReserveError::RequestCapacityExhausted { capacity: view.request_capacity },
            ) <==> !view.closing && !live && full
            &&& refusal == Some(ReserveError::SystemBytesExhausted) <==> !view.closing && !live
                && !full && exhausted
            &&& refusal == Some(ReserveError::InvalidPrimaryFunction { function })
                <==> !view.closing && !live && !full && !exhausted && !answerable
            &&& refusal is None <==> !view.closing && !live && !full && !exhausted && answerable
        }),
{
}

/// A one-way operation and a control transaction are refused exactly for the first
/// of these that holds: the generation closes, the operation is live already, the
/// one control slot is taken (control only), or no System Bytes are free.
pub proof fn law_other_refusals(view: RegistryView, operation_id: OperationId)
    requires
        view.valid(),
    ensures
        ({
            let one_way = view.one_way_rejection(operation_id);
            let control = view.control_rejection(operation_id);
            let live = view.live.contains_key(operation_id.value);
            let exhausted = view.live.dom().len() + view.tombstones.len() >= 0xffff_ffff;
            let busy = exists|op: u64| #[trigger]
                view.live.contains_key(op) && view.live[op].class is Control;
            &&& one_way == Some(ReserveError::Closing) <==> view.closing
            &&& one_way == Some(ReserveError::DuplicateOperation { operation_id }) <==> !view.closing
                && live
            &&& one_way == Some(ReserveError::SystemBytesExhausted) <==> !view.closing && !live
                && exhausted
            &&& one_way is None <==> !view.closing && !live && !exhausted
            &&& control == Some(ReserveError::Closing) <==> view.closing
            &&& control == Some(ReserveError::DuplicateOperation { operation_id }) <==> !view.closing
                && live
            &&& control matches Some(ReserveError::ControlSlotOccupied { pending }) ==> exists|
                op: u64,
            | #[trigger]
                view.live.contains_key(op) && view.live[op].class == OperationClass::Control(
                    pending,
                )
            &&& control is Some && control->0 is ControlSlotOccupied <==> !view.closing && !live
                && busy
            &&& control == Some(ReserveError::SystemBytesExhausted) <==> !view.closing && !live
                && !busy && exhausted
            &&& control is None <==> !view.closing && !live && !busy && !exhausted
        }),
{
    if exists|op: u64| #[trigger] view.live.contains_key(op) && view.live[op].class is Control {
        let op = choose|op: u64| #[trigger]
            view.live.contains_key(op) && view.live[op].class is Control;
        assert(view.holds_control(op));
    }
    if exists|op: u64| view.holds_control(op) {
        let op = choose|op: u64| view.holds_control(op);
        assert(view.live.contains_key(op) && view.live[op].class is Control);
        assert(view.live[op].class == OperationClass::Control(view.live[op].class->Control_0));
    }
}

/// The live requests are the live operations of that class.
pub proof fn law_live_requests_are_counted(view: RegistryView, op: u64)
    ensures
        model::requests_of(view.live).contains(op) <==> view.live.contains_key(op)
            && view.live[op].class == OperationClass::Request,
{
}

/// A frame that may have reached the peer is recorded once: only an operation of
/// which nothing was visible changes, and only in its visibility.
pub proof fn law_visibility_is_recorded(view: RegistryView, op: u64, other: u64)
    requires
        view.live.contains_key(op),
        other != op,
    ensures
        ({
            let live = view.live[op];
            let after = view.after_visible(op);
            let decision = view.visible_decision(op);
            &&& after.live[op] == (LiveOperation {
                visibility: if live.visibility == OperationVisibility::NotVisible {
                    OperationVisibility::MayBeVisible
                } else {
                    live.visibility
                },
                ..live
            })
            &&& decision == if live.visibility == OperationVisibility::NotVisible {
                MarkVisibleDecision::Marked { class: live.class }
            } else {
                MarkVisibleDecision::Unchanged { class: live.class, visibility: live.visibility }
            }
            &&& after.live.contains_key(other) <==> view.live.contains_key(other)
            &&& view.live.contains_key(other) ==> after.live[other] == view.live[other]
            &&& after.tombstones == view.tombstones
            &&& after.cursor == view.cursor
            &&& after.closing == view.closing
        }),
{
    assert(view.after_visible(op).live.dom() =~= view.live.dom());
}

/// A committed frame arms its response timer exactly when its operation awaits a
/// response, has no timer yet, and the token is a free one of the right kind: T3 for
/// a request, T6 for a control transaction. That token then expires that operation.
pub proof fn law_commit_arms_the_response_timer(view: RegistryView, op: u64, token: TimerToken)
    requires
        view.valid(),
        view.live.contains_key(op),
    ensures
        ({
            let live = view.live[op];
            let after = view.after_commit(op, token);
            let decision = view.commit_decision(op, token);
            let right = (live.class is Request && token.kind == TimeoutKind::T3) || (
            live.class is Control && token.kind == TimeoutKind::T6);
            let free = forall|other: u64| #[trigger]
                view.live.contains_key(other) ==> view.live[other].timer != Some(token);
            &&& decision is ArmTimer <==> right && live.timer is None && free
            &&& decision is ArmTimer ==> {
                &&& decision == (CommitDecision::ArmTimer {
                    operation_id: OperationId { value: op },
                    system_bytes: live.system_bytes,
                    class: live.class,
                    token,
                })
                &&& after.live.contains_key(op)
                &&& after.live[op] == (LiveOperation {
                    visibility: OperationVisibility::Committed,
                    timer: Some(token),
                    ..live
                })
                &&& after.tombstones == view.tombstones
                &&& after.expiry_decision(token, token.kind) == (ExpiryDecision::Expired {
                    operation_id: OperationId { value: op },
                    system_bytes: live.system_bytes,
                    class: live.class,
                    visibility: OperationVisibility::Committed,
                })
            }
            &&& decision !is ArmTimer ==> after == view
            &&& live.class is OneWay ==> decision == (CommitDecision::WrongOperationKind {
                actual: live.class,
            })
            &&& live.class !is OneWay && live.timer is Some ==> decision == (
            CommitDecision::AlreadyCommitted { token: live.timer->0 })
            &&& live.class is Request && live.timer is None && token.kind != TimeoutKind::T3
                ==> decision == (CommitDecision::WrongTimerKind {
                expected: TimeoutKind::T3,
                actual: token.kind,
            })
            &&& live.class is Control && live.timer is None && token.kind != TimeoutKind::T6
                ==> decision == (CommitDecision::WrongTimerKind {
                expected: TimeoutKind::T6,
                actual: token.kind,
            })
            &&& right && live.timer is None && !free ==> decision == (
            CommitDecision::TimerTokenInUse { token })
        }),
{
    let live = view.live[op];
    let after = view.after_commit(op, token);
    if exists|other: u64| view.owns_timer(other, token) {
        let other = choose|other: u64| view.owns_timer(other, token);
        assert(view.live.contains_key(other) && view.live[other].timer == Some(token));
    } else {
        assert forall|other: u64| #[trigger] view.live.contains_key(other) implies view.live[other].timer
            != Some(token) by {
            if view.live[other].timer == Some(token) {
                assert(view.owns_timer(other, token));
            }
        }
    }
    if view.commit_decision(op, token) is ArmTimer {
        assert(after.owns_timer(op, token));
        let owner = choose|owner: u64| after.owns_timer(owner, token);
        assert(after.owns_timer(owner, token));
        if owner != op {
            assert(view.owns_timer(owner, token));
        }
    }
}

/// An expiry concerns exactly the live operation that owns the token; it ends it,
/// and the newest tombstone says so. A token of another kind and one that nobody
/// owns change nothing.
pub proof fn law_expiry_ends_the_owner(
    view: RegistryView,
    op: u64,
    token: TimerToken,
    kind: TimeoutKind,
    category: TombstoneCategory,
)
    requires
        view.valid(),
    ensures
        ({
            let decision = view.expiry_decision(token, kind);
            let after = view.after_expiry(token, kind, category);
            &&& view.live.contains_key(op) && view.live[op].timer == Some(token) && token.kind
                == kind ==> {
                &&& decision == (ExpiryDecision::Expired {
                    operation_id: OperationId { value: op },
                    system_bytes: view.live[op].system_bytes,
                    class: view.live[op].class,
                    visibility: view.live[op].visibility,
                })
                &&& !after.live.contains_key(op)
                &&& after.tombstones.last().operation_id.value == op
                &&& after.tombstones.last().system_bytes == view.live[op].system_bytes
                &&& after.tombstones.last().category == category
            }
            &&& token.kind != kind ==> decision == (ExpiryDecision::WrongTimerKind {
                expected: kind,
                actual: token.kind,
            }) && after == view
            &&& token.kind == kind && (forall|other: u64| #[trigger]
                view.live.contains_key(other) ==> view.live[other].timer != Some(token))
                ==> decision == ExpiryDecision::Stale && after == view
        }),
{
    if view.live.contains_key(op) && view.live[op].timer == Some(token) {
        assert(view.owns_timer(op, token));
        model::lemma_timer_owner(view, op, token);
    }
    if exists|other: u64| view.owns_timer(other, token) {
        let other = choose|other: u64| view.owns_timer(other, token);
        assert(view.live.contains_key(other) && view.live[other].timer == Some(token));
    }
}

/// Every way to finish an operation reports its identity, its System Bytes, its
/// class and the timer to cancel, and takes it out of the live ones. A frame that
/// was not written leaves a tombstone only where it may have been visible; one of
/// unknown fate always does and counts as visible; a committed one-way frame always
/// does.
pub proof fn law_finish_reports_and_removes(view: RegistryView, op: u64)
    requires
        view.live.contains_key(op),
    ensures
        ({
            let live = view.live[op];
            let seen = live.visibility != OperationVisibility::NotVisible;
            let finished = |visibility: OperationVisibility, tombstone: Option<TombstoneCategory>|
                FinishDecision::Finished {
                    operation_id: OperationId { value: op },
                    system_bytes: live.system_bytes,
                    class: live.class,
                    visibility,
                    cancel_timer: live.timer,
                    tombstone,
                };
            &&& view.not_written_decision(op) == finished(
                live.visibility,
                if seen {
                    Some(TombstoneCategory::NotWrittenAfterVisibility)
                } else {
                    None
                },
            )
            &&& !view.after_not_written(op).live.contains_key(op)
            &&& !seen ==> view.after_not_written(op).tombstones == view.tombstones
            &&& seen ==> view.after_not_written(op).tombstones.last() == remembered(
                op,
                live,
                TombstoneCategory::NotWrittenAfterVisibility,
            )
            &&& view.indeterminate_decision(op) == finished(
                if seen {
                    live.visibility
                } else {
                    OperationVisibility::MayBeVisible
                },
                Some(TombstoneCategory::DeliveryIndeterminate),
            )
            &&& !view.after_indeterminate(op).live.contains_key(op)
            &&& view.after_indeterminate(op).tombstones.last() == remembered(
                op,
                live,
                TombstoneCategory::DeliveryIndeterminate,
            )
            &&& live.class is OneWay ==> {
                &&& view.one_way_decision(op) == finished(
                    OperationVisibility::Committed,
                    Some(TombstoneCategory::OneWayCommitted),
                )
                &&& !view.after_one_way(op).live.contains_key(op)
                &&& view.after_one_way(op).tombstones.last() == remembered(
                    op,
                    live,
                    TombstoneCategory::OneWayCommitted,
                )
            }
            &&& live.class !is OneWay ==> view.one_way_decision(op) == (
            FinishDecision::WrongOperationKind { actual: live.class }) && view.after_one_way(op)
                == view
        }),
{
}

/// What is remembered of an operation that ended.
pub open spec fn remembered(
    op: u64,
    live: LiveOperation,
    category: TombstoneCategory,
) -> Tombstone {
    Tombstone {
        operation_id: OperationId { value: op },
        system_bytes: live.system_bytes,
        subject: match live.class {
            OperationClass::Request => TombstoneSubject::Request(live.matcher->0),
            OperationClass::OneWay(kind) => TombstoneSubject::OneWay(kind),
            OperationClass::Control(kind) => TombstoneSubject::Control(kind),
        },
        category,
    }
}

/// Finishing touches no other live operation.
pub proof fn law_finish_spares_the_others(view: RegistryView, op: u64, other: u64)
    requires
        other != op,
        view.live.contains_key(other),
    ensures
        forall|after: RegistryView|
            #![trigger after.live]
            after == view.after_not_written(op) || after == view.after_indeterminate(op) || after
                == view.after_one_way(op) ==> {
                &&& after.live.contains_key(other)
                &&& after.live[other] == view.live[other]
                &&& after.cursor == view.cursor
                &&& after.closing == view.closing
            },
{
}

/// An operation that is not live is answered by the oldest tombstone that names it,
/// or is unknown when none does.
pub proof fn law_ended_operations_are_remembered(view: RegistryView, op: u64, token: TimerToken)
    requires
        !view.live.contains_key(op),
    ensures
        ({
            &&& match view.terminal_category(op) {
                Some(category) => exists|i: int| #[trigger]
                    names_first(view.tombstones, op, i) && view.tombstones[i].category == category,
                None => forall|i: int|
                    0 <= i < view.tombstones.len() ==> (
                    #[trigger] view.tombstones[i]).operation_id.value != op,
            }
            &&& match view.terminal_category(op) {
                Some(category) => {
                    &&& view.visible_decision(op) == (MarkVisibleDecision::AlreadyTerminal {
                        category,
                    })
                    &&& view.commit_decision(op, token) == (CommitDecision::AlreadyTerminal {
                        category,
                    })
                    &&& view.not_written_decision(op) == (FinishDecision::AlreadyTerminal {
                        category,
                    })
                    &&& view.indeterminate_decision(op) == (FinishDecision::AlreadyTerminal {
                        category,
                    })
                    &&& view.one_way_decision(op) == (FinishDecision::AlreadyTerminal { category })
                },
                None => {
                    &&& view.visible_decision(op) == MarkVisibleDecision::UnknownOperation
                    &&& view.commit_decision(op, token) == CommitDecision::UnknownOperation
                    &&& view.not_written_decision(op) == FinishDecision::UnknownOperation
                    &&& view.indeterminate_decision(op) == FinishDecision::UnknownOperation
                    &&& view.one_way_decision(op) == FinishDecision::UnknownOperation
                },
            }
        }),
{
    lemma_oldest(view.tombstones, op);
}

/// The tombstone at `i` names the operation, and none before it does.
pub open spec fn names_first(tombstones: Seq<Tombstone>, op: u64, i: int) -> bool {
    &&& 0 <= i < tombstones.len()
    &&& tombstones[i].operation_id.value == op
    &&& forall|j: int| 0 <= j < i ==> (#[trigger] tombstones[j]).operation_id.value != op
}

/// The oldest tombstone of an operation is the first one that names it.
proof fn lemma_oldest(tombstones: Seq<Tombstone>, op: u64)
    ensures
        match model::oldest_category(tombstones, op) {
            Some(category) => exists|i: int| #[trigger]
                names_first(tombstones, op, i) && tombstones[i].category == category,
            None => forall|i: int|
                0 <= i < tombstones.len() ==> (#[trigger] tombstones[i]).operation_id.value != op,
        },
    decreases tombstones.len(),
{
    if tombstones.len() > 0 {
        let rest = tombstones.drop_first();
        if tombstones[0].operation_id.value == op {
            assert(names_first(tombstones, op, 0));
        } else {
            lemma_oldest(rest, op);
            match model::oldest_category(rest, op) {
                Some(category) => {
                    let i = choose|i: int| #[trigger]
                        names_first(rest, op, i) && rest[i].category == category;
                    assert forall|j: int| 0 <= j < i + 1 implies (
                    #[trigger] tombstones[j]).operation_id.value != op by {
                        if j > 0 {
                            assert(rest[j - 1] == tombstones[j]);
                        }
                    }
                    assert(rest[i] == tombstones[i + 1]);
                    assert(names_first(tombstones, op, i + 1));
                },
                None => {
                    assert forall|j: int| 0 <= j < tombstones.len() implies (
                    #[trigger] tombstones[j]).operation_id.value != op by {
                        if j > 0 {
                            assert(rest[j - 1] == tombstones[j]);
                        }
                    }
                },
            }
        }
    }
}

/// A control response belongs to the live control transaction exactly when that one
/// is of its kind and has its System Bytes; it ends it, and the newest tombstone says
/// so. Otherwise a tombstone of those System Bytes decides, then the live transaction,
/// and without either nothing is awaited.
pub proof fn law_control_response_meets_its_request(
    view: RegistryView,
    kind: ControlKind,
    system_bytes: SystemBytes,
    op: u64,
)
    requires
        view.valid(),
    ensures
        ({
            let decision = view.control_decision(kind, system_bytes);
            let after = view.after_control(kind, system_bytes);
            &&& view.live.contains_key(op) && view.live[op].class == OperationClass::Control(kind)
                && view.live[op].system_bytes == system_bytes ==> {
                &&& decision == (ControlTakeDecision::Matched {
                    operation_id: OperationId { value: op },
                    system_bytes,
                    kind,
                    cancel_t6: view.live[op].timer,
                    visibility: view.live[op].visibility,
                })
                &&& !after.live.contains_key(op)
                &&& after.tombstones.last() == remembered(
                    op,
                    view.live[op],
                    TombstoneCategory::ControlResponseMatched,
                )
            }
            &&& decision is Matched ==> exists|owner: u64| #[trigger]
                view.live.contains_key(owner) && view.live[owner].class == OperationClass::Control(
                    kind,
                ) && view.live[owner].system_bytes == system_bytes
            &&& decision !is Matched ==> after == view
            &&& decision is NoPending <==> {
                &&& forall|other: u64| #[trigger]
                    view.live.contains_key(other) ==> view.live[other].class !is Control
                &&& forall|i: int|
                    0 <= i < view.tombstones.len() ==> (#[trigger] view.tombstones[i]).system_bytes
                        != system_bytes
            }
            &&& decision is Mismatch && decision->collision is Live <==> {
                &&& exists|owner: u64| #[trigger]
                    view.live.contains_key(owner) && view.live[owner].class is Control && !(
                    view.live[owner].class == OperationClass::Control(kind)
                        && view.live[owner].system_bytes == system_bytes)
                &&& forall|i: int|
                    0 <= i < view.tombstones.len() ==> (#[trigger] view.tombstones[i]).system_bytes
                        != system_bytes
            }
        }),
{
    let sb = system_bytes.value;
    if view.live.contains_key(op) && view.live[op].class is Control {
        assert(view.holds_control(op));
        model::lemma_control_owner(view, op);
    }
    if exists|owner: u64| view.holds_control(owner) {
        let owner = choose|owner: u64| view.holds_control(owner);
        assert(view.live.contains_key(owner));
        assert(view.holds_control(owner));
        model::lemma_control_owner(view, owner);
        assert forall|other: u64| #[trigger]
            view.live.contains_key(other) && view.live[other].class is Control implies other
            == owner by {
            assert(view.holds_control(other));
        }
        assert(view.control_owner() == Some(owner));
        if view.awaits_control(owner, kind, sb) {
            assert(view.live[owner].system_bytes == system_bytes);
            assert forall|i: int| 0 <= i < view.tombstones.len() implies (
            #[trigger] view.tombstones[i]).system_bytes != system_bytes by {}
        } else {
            assert(!(view.live[owner].class == OperationClass::Control(kind)
                && view.live[owner].system_bytes == system_bytes));
        }
    } else {
        assert forall|other: u64| #[trigger] view.live.contains_key(other) implies view.live[other].class !is Control by {
            if view.live[other].class is Control {
                assert(view.holds_control(other));
            }
        }
    }
    if exists|i: int| model::buries(view.tombstones, i, sb) {
        let i = choose|i: int| model::buries(view.tombstones, i, sb);
        assert(view.tombstones[i].system_bytes == system_bytes);
    } else {
        assert forall|i: int| 0 <= i < view.tombstones.len() implies (
        #[trigger] view.tombstones[i]).system_bytes != system_bytes by {
            if view.tombstones[i].system_bytes == system_bytes {
                assert(model::buries(view.tombstones, i, sb));
            }
        }
    }
}

/// A control response whose System Bytes a tombstone holds, while no live
/// transaction awaits it, is late or a duplicate of the response that ended that
/// transaction; for a transaction of another kind, or another operation, it is a
/// collision.
pub proof fn law_late_control_response(
    view: RegistryView,
    kind: ControlKind,
    system_bytes: SystemBytes,
    i: int,
)
    requires
        view.valid(),
        0 <= i < view.tombstones.len(),
        view.tombstones[i].system_bytes == system_bytes,
    ensures
        ({
            let tombstone = view.tombstones[i];
            let decision = view.control_decision(kind, system_bytes);
            match tombstone.subject {
                TombstoneSubject::Control(retained) => if retained == kind {
                    decision == (ControlTakeDecision::Tombstoned {
                        operation_id: tombstone.operation_id,
                        category: tombstone.category,
                        arrival: if tombstone.category
                            == TombstoneCategory::ControlResponseMatched {
                            TombstoneArrival::Duplicate
                        } else {
                            TombstoneArrival::Late
                        },
                    })
                } else {
                    decision == (ControlTakeDecision::Mismatch {
                        collision: ControlCollision::Tombstone {
                            kind: retained,
                            category: tombstone.category,
                        },
                    })
                },
                _ => decision == (ControlTakeDecision::Mismatch {
                    collision: ControlCollision::OtherTombstone { category: tombstone.category },
                }),
            }
        }),
{
    model::lemma_buried(view, i);
    if let Some(op) = view.control_owner() {
        let owner = choose|owner: u64| view.holds_control(owner);
        assert(view.holds_control(owner));
        if view.awaits_control(op, kind, system_bytes.value) {
            assert(view.live.contains_key(op));
            assert(view.live[op].system_bytes == view.tombstones[i].system_bytes);
        }
    }
}

/// A close reports every live operation as it stood, with a tombstone exactly where
/// the peer may have seen something of it.
pub proof fn law_close_reports_the_operation(op: u64, live: LiveOperation)
    ensures
        ({
            let record = model::close_record(op, live);
            &&& record.operation_id.value == op
            &&& record.system_bytes == live.system_bytes
            &&& record.class == live.class
            &&& record.cancel_timer == live.timer
            &&& record.visibility == live.visibility
            &&& record.tombstone == if live.visibility == OperationVisibility::NotVisible {
                None
            } else {
                Some(TombstoneCategory::ClosedAfterVisibility)
            }
        }),
{
}

/// A close goes through every live operation once, from the smallest identity to
/// the largest.
pub proof fn law_close_takes_all_in_order(live: Map<u64, LiveOperation>, ids: Seq<u64>, op: u64)
    requires
        model::lists_ascending(ids, live),
    ensures
        live.contains_key(op) <==> exists|i: int| 0 <= i < ids.len() && ids[i] == op,
        forall|i: int, j: int| 0 <= i < j < ids.len() ==> ids[i] < ids[j],
        ids.no_duplicates(),
{
    assert(live.contains_key(op) <==> ids.contains(op));
}

/// Identities of the operations of which the peer may have seen something.
pub open spec fn seen(live: Map<u64, LiveOperation>, ids: Seq<u64>) -> Seq<u64> {
    ids.filter(|op: u64| live[op].visibility != OperationVisibility::NotVisible)
}

/// A close remembers exactly the operations of which the peer may have seen
/// something, in order behind the older tombstones, as long as there is room.
pub proof fn law_close_remembers_what_was_seen(
    tombstones: Seq<Tombstone>,
    live: Map<u64, LiveOperation>,
    ids: Seq<u64>,
    capacity: usize,
)
    requires
        tombstones.len() + ids.len() <= capacity,
    ensures
        model::bury_all(tombstones, live, ids, capacity) == tombstones + seen(
            live,
            ids,
        ).map_values(
            |op: u64| remembered(op, live[op], TombstoneCategory::ClosedAfterVisibility),
        ),
        seen(live, ids).len() <= ids.len(),
    decreases ids.len(),
{
    let keep = |op: u64| live[op].visibility != OperationVisibility::NotVisible;
    let record = |op: u64| remembered(op, live[op], TombstoneCategory::ClosedAfterVisibility);
    reveal(Seq::filter);
    if ids.len() > 0 {
        let rest = ids.drop_last();
        let op = ids.last();
        law_close_remembers_what_was_seen(tombstones, live, rest, capacity);
        let before = tombstones + seen(live, rest).map_values(record);
        if keep(op) {
            assert(seen(live, ids) == seen(live, rest).push(op));
            assert(seen(live, rest).push(op).map_values(record) =~= seen(live, rest).map_values(
                record,
            ).push(record(op)));
            assert(tombstones + seen(live, ids).map_values(record) =~= before.push(record(op)));
        } else {
            assert(seen(live, ids) == seen(live, rest));
        }
    } else {
        assert(seen(live, ids) =~= Seq::<u64>::empty());
        assert(tombstones + seen(live, ids).map_values(record) =~= tombstones);
    }
}

} // verus!
