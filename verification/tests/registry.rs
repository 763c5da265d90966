//! Capacity, operation classes, response and timer races, write outcomes, FIFO
//! terminal memory and closing of the transaction registry.

use hsms::error::TimeoutKind;
use hsms::model::ids::{
    ConnectionGeneration, Function, OperationId, SessionId, Stream, SystemBytes, TimerId,
};
use hsms::model::runtime::TimerToken;
use hsms::protocol::header::DataHeader;
use hsms::protocol::message::DataMessage;
use hsms::secs2::SecsItem;
use hsms::session_core::transaction::decision::{
    CollisionSource, CommitDecision, ControlCollision, ControlKind, ControlTakeDecision,
    ExpiryDecision, FinishDecision, InboundDataDecision, OneWayKind,
    OperationClass, OperationVisibility, PeerRejectFinishDecision, PrematureDataMatch,
    RegistryBuildError, ReserveError, ReservedRequest, TombstoneArrival, TombstoneCategory,
};
use hsms::session_core::transaction::matcher::MismatchField;
use hsms::session_core::transaction::registry::TransactionRegistry;

/// Creates a registry for generation seven with the supplied independent bounds.
fn registry(request_capacity: usize, tombstone_capacity: usize) -> TransactionRegistry {
    TransactionRegistry::new(
        ConnectionGeneration::new(7),
        request_capacity,
        tombstone_capacity,
    )
    .expect("non-zero registry capacities")
}

/// Returns the shared valid Data Session ID used by response tests.
fn session() -> SessionId {
    SessionId::new(3).expect("data session")
}

/// Returns the shared valid SECS stream used by response tests.
fn stream() -> Stream {
    Stream::new(5).expect("stream")
}

/// Reserves a valid S5F1 request for `operation`.
fn reserve_request(registry: &mut TransactionRegistry, operation: u64) -> ReservedRequest {
    registry
        .reserve_request(
            OperationId::new(operation),
            session(),
            stream(),
            Function::new(1),
        )
        .expect("request reservation")
}

/// Builds a semantic Data message from explicit header fields and no body.
fn data_message(
    system_bytes: SystemBytes,
    session_id: u16,
    stream_value: u8,
    function: u8,
    reply_expected: bool,
) -> DataMessage {
    data_message_with_body(
        system_bytes,
        session_id,
        stream_value,
        function,
        reply_expected,
        None,
    )
}

/// Builds a semantic Data message from explicit header fields and optional body.
fn data_message_with_body(
    system_bytes: SystemBytes,
    session_id: u16,
    stream_value: u8,
    function: u8,
    reply_expected: bool,
    body: Option<SecsItem>,
) -> DataMessage {
    DataMessage::new(
        DataHeader::new(
            SessionId::new(session_id).expect("data session"),
            Stream::new(stream_value).expect("stream"),
            Function::new(function),
            reply_expected,
            system_bytes,
        ),
        body,
    )
}

/// Builds an exact S5F2 response for a reserved S5F1 request.
fn exact_response(reserved: ReservedRequest) -> DataMessage {
    data_message(reserved.system_bytes(), 3, 5, 2, false)
}

/// Builds an exact S5F0 abort for a reserved S5F1 request.
fn exact_abort(reserved: ReservedRequest) -> DataMessage {
    data_message(reserved.system_bytes(), 3, 5, 0, false)
}

/// Creates a unique T3 token from a test-local numeric identity.
fn t3(id: u64) -> TimerToken {
    TimerToken::new(TimerId::new(id), TimeoutKind::T3)
}

/// Creates a unique T6 token from a test-local numeric identity.
fn t6(id: u64) -> TimerToken {
    TimerToken::new(TimerId::new(id), TimeoutKind::T6)
}

/// Asserts that every live operation is counted in exactly one class and that no
/// timer outlives its operation.
fn assert_index_invariants(registry: &TransactionRegistry) {
    let expected_operations =
        registry.request_len() + registry.one_way_len() + usize::from(registry.has_control());
    assert_eq!(registry.live_len(), expected_operations);
    if registry.request_len() == 0 && !registry.has_control() {
        assert!(!registry.has_timers());
    }
}

/// Confirms both bounded capacities reject zero independently.
#[test]
fn construction_rejects_zero_capacities() {
    assert!(matches!(
        TransactionRegistry::new(ConnectionGeneration::new(1), 0, 1),
        Err(RegistryBuildError::ZeroRequestCapacity)
    ));
    assert!(matches!(
        TransactionRegistry::new(ConnectionGeneration::new(1), 1, 0),
        Err(RegistryBuildError::ZeroTombstoneCapacity)
    ));
}

/// Confirms invalid function and full-capacity failures do not advance allocation.
#[test]
fn request_reservation_failures_are_atomic() {
    let mut registry = registry(1, 4);

    assert_eq!(
        registry.reserve_request(OperationId::new(1), session(), stream(), Function::new(2),),
        Err(ReserveError::InvalidPrimaryFunction {
            function: Function::new(2),
        })
    );
    assert_eq!(registry.next_candidate().get(), 1);

    let first = reserve_request(&mut registry, 1);
    assert_eq!(first.system_bytes().get(), 1);
    assert_eq!(
        registry.reserve_request(OperationId::new(2), session(), stream(), Function::new(3),),
        Err(ReserveError::RequestCapacityExhausted { capacity: 1 })
    );
    assert_eq!(registry.next_candidate().get(), 2);

    let one_way = registry
        .reserve_one_way(OperationId::new(3), OneWayKind::Data)
        .expect("capacity failure did not consume System Bytes");
    assert_eq!(one_way.system_bytes().get(), 2);
    assert_index_invariants(&registry);
}

/// Confirms the allocator skips every live class and retained tombstones.
#[test]
fn allocation_skips_request_one_way_control_and_tombstone_owners() {
    let mut registry = registry(2, 4);
    let request = reserve_request(&mut registry, 1);
    let live_one_way = registry
        .reserve_one_way(OperationId::new(2), OneWayKind::Data)
        .expect("one-way");
    let control = registry
        .reserve_control(OperationId::new(3), ControlKind::Select)
        .expect("control");
    let completed_one_way = registry
        .reserve_one_way(OperationId::new(4), OneWayKind::Separate)
        .expect("second one-way");
    assert!(matches!(
        registry.finish_one_way(completed_one_way.operation_id()),
        FinishDecision::Finished { .. }
    ));

    registry.resume_at(SystemBytes::new(1));
    let reserved = registry
        .reserve_one_way(OperationId::new(5), OneWayKind::Data)
        .expect("candidate after four occupied values");

    assert_eq!(request.system_bytes().get(), 1);
    assert_eq!(live_one_way.system_bytes().get(), 2);
    assert_eq!(control.system_bytes().get(), 3);
    assert_eq!(completed_one_way.system_bytes().get(), 4);
    assert_eq!(reserved.system_bytes().get(), 5);
    assert_index_invariants(&registry);
}

/// Confirms full W=1 Data capacity does not block one-way or control reservations.
#[test]
fn full_data_capacity_does_not_block_one_way_or_control() {
    let mut registry = registry(1, 4);
    reserve_request(&mut registry, 1);

    let one_way = registry
        .reserve_one_way(OperationId::new(2), OneWayKind::Data)
        .expect("one-way has no request-capacity cost");
    let control = registry
        .reserve_control(OperationId::new(3), ControlKind::Linktest)
        .expect("control has its own slot");

    assert_eq!(registry.request_len(), 1);
    assert_eq!(registry.one_way_len(), 1);
    assert!(registry.has_control());
    assert_eq!(one_way.system_bytes().get(), 2);
    assert_eq!(control.system_bytes().get(), 3);
    assert_index_invariants(&registry);
}

/// Confirms a second control reservation fails atomically at the single slot.
#[test]
fn control_slot_failure_does_not_advance_allocator() {
    let mut registry = registry(1, 4);
    registry
        .reserve_control(OperationId::new(1), ControlKind::Select)
        .expect("first control");
    let next = registry.next_candidate();

    assert_eq!(
        registry.reserve_control(OperationId::new(2), ControlKind::Deselect),
        Err(ReserveError::ControlSlotOccupied {
            pending: ControlKind::Select,
        })
    );
    assert_eq!(registry.next_candidate(), next);
    assert_index_invariants(&registry);
}

/// Confirms an exact response can terminate before commit and suppress later T3.
#[test]
fn fast_response_is_terminal_before_write_commit() {
    let mut registry = registry(1, 4);
    let request = reserve_request(&mut registry, 1);

    let decision = registry.classify_inbound(exact_response(request));
    assert!(matches!(
        decision,
        InboundDataDecision::MatchedSecondary {
            operation_id,
            cancel_t3: None,
            visibility: OperationVisibility::NotVisible,
            ..
        } if operation_id == request.operation_id()
    ));
    assert_eq!(
        registry.mark_committed(request.operation_id(), t3(1)),
        CommitDecision::AlreadyTerminal {
            category: TombstoneCategory::ResponseMatched,
        }
    );
    assert!(!registry.has_timers());
    assert_eq!(registry.request_len(), 0);
    assert_index_invariants(&registry);
}

/// Confirms a response winning after commit cancels T3 and makes expiry stale.
#[test]
fn response_wins_serialized_t3_race() {
    let mut registry = registry(1, 4);
    let request = reserve_request(&mut registry, 1);
    let token = t3(1);
    assert!(matches!(
        registry.mark_committed(request.operation_id(), token),
        CommitDecision::ArmTimer { .. }
    ));

    assert!(matches!(
        registry.classify_inbound(exact_response(request)),
        InboundDataDecision::MatchedSecondary {
            cancel_t3: Some(cancel),
            visibility: OperationVisibility::Committed,
            ..
        } if cancel == token
    ));
    assert_eq!(registry.expire_t3(token), ExpiryDecision::Stale);
    assert!(matches!(
        registry.classify_inbound(exact_response(request)),
        InboundDataDecision::Tombstoned {
            category: TombstoneCategory::ResponseMatched,
            arrival: TombstoneArrival::Duplicate,
            ..
        }
    ));
    assert_index_invariants(&registry);
}

/// Confirms exact T3 expiry winning first makes the later response late.
#[test]
fn t3_expiry_wins_serialized_response_race() {
    let mut registry = registry(1, 4);
    let request = reserve_request(&mut registry, 1);
    let token = t3(1);
    registry.mark_committed(request.operation_id(), token);

    assert!(matches!(
        registry.expire_t3(token),
        ExpiryDecision::Expired {
            operation_id,
            visibility: OperationVisibility::Committed,
            ..
        } if operation_id == request.operation_id()
    ));
    assert_eq!(registry.expire_t3(token), ExpiryDecision::Stale);
    assert!(matches!(
        registry.classify_inbound(exact_response(request)),
        InboundDataDecision::Tombstoned {
            category: TombstoneCategory::T3Expired,
            arrival: TombstoneArrival::Late,
            ..
        }
    ));
    assert_index_invariants(&registry);
}

/// Confirms stale and wrong-kind timer tokens never mutate a live request.
#[test]
fn only_exact_t3_token_can_expire_request() {
    let mut registry = registry(1, 4);
    let request = reserve_request(&mut registry, 1);
    let exact = t3(1);
    registry.mark_committed(request.operation_id(), exact);

    assert_eq!(registry.expire_t3(t3(2)), ExpiryDecision::Stale);
    assert_eq!(
        registry.expire_t3(t6(1)),
        ExpiryDecision::WrongTimerKind {
            expected: TimeoutKind::T3,
            actual: TimeoutKind::T6,
        }
    );
    assert_eq!(registry.request_len(), 1);
    assert!(matches!(
        registry.classify_inbound(exact_response(request)),
        InboundDataDecision::MatchedSecondary { .. }
    ));
    assert_index_invariants(&registry);
}

/// Confirms a same-System-Bytes mismatch preserves the live request for a later match.
#[test]
fn mismatched_secondary_does_not_consume_request() {
    let mut registry = registry(1, 4);
    let request = reserve_request(&mut registry, 1);
    let wrong_stream = data_message(request.system_bytes(), 3, 6, 2, false);

    assert!(matches!(
        registry.classify_inbound(wrong_stream),
        InboundDataDecision::Mismatch {
            collision: CollisionSource::LiveRequest {
                field: MismatchField::Stream,
            },
            ..
        }
    ));
    assert_eq!(registry.request_len(), 1);
    assert!(matches!(
        registry.classify_inbound(exact_response(request)),
        InboundDataDecision::MatchedSecondary { .. }
    ));
    assert_index_invariants(&registry);
}

/// Confirms exact F0 aborts while a mismatched F0 leaves the request live.
#[test]
fn f0_requires_same_transaction_fields() {
    let mut registry = registry(1, 4);
    let request = reserve_request(&mut registry, 1);

    assert!(matches!(
        registry.classify_inbound(data_message(request.system_bytes(), 4, 5, 0, false,)),
        InboundDataDecision::Mismatch {
            collision: CollisionSource::LiveRequest {
                field: MismatchField::SessionId,
            },
            ..
        }
    ));
    assert_eq!(registry.request_len(), 1);
    assert!(matches!(
        registry.classify_inbound(exact_abort(request)),
        InboundDataDecision::Aborted {
            operation_id,
            ..
        } if operation_id == request.operation_id()
    ));
    assert_index_invariants(&registry);
}

/// Confirms live F0 with W=true preserves an armed T3 until an exact abort.
#[test]
fn live_f0_with_w_bit_does_not_consume_request() {
    let mut registry = registry(1, 4);
    let request = reserve_request(&mut registry, 1);
    let exact_token = t3(1);
    assert_eq!(
        registry.mark_committed(request.operation_id(), exact_token),
        CommitDecision::ArmTimer {
            operation_id: request.operation_id(),
            system_bytes: request.system_bytes(),
            class: OperationClass::Request,
            token: exact_token,
        }
    );

    assert!(matches!(
        registry.classify_inbound(data_message(request.system_bytes(), 3, 5, 0, true,)),
        InboundDataDecision::Mismatch {
            collision: CollisionSource::LiveRequest {
                field: MismatchField::ReplyExpected,
            },
            ..
        }
    ));
    assert_eq!(registry.request_len(), 1);
    assert_index_invariants(&registry);
    assert!(matches!(
        registry.classify_inbound(exact_abort(request)),
        InboundDataDecision::Aborted {
            operation_id,
            cancel_t3: Some(cancel),
            visibility: OperationVisibility::Committed,
            ..
        } if operation_id == request.operation_id() && cancel == exact_token
    ));
    assert_eq!(registry.expire_t3(exact_token), ExpiryDecision::Stale);
    assert_index_invariants(&registry);
}

/// Confirms live F0 with Message Text preserves an armed T3 until an exact abort.
#[test]
fn live_f0_with_message_text_does_not_consume_request() {
    let mut registry = registry(1, 4);
    let request = reserve_request(&mut registry, 1);
    let exact_token = t3(1);
    assert_eq!(
        registry.mark_committed(request.operation_id(), exact_token),
        CommitDecision::ArmTimer {
            operation_id: request.operation_id(),
            system_bytes: request.system_bytes(),
            class: OperationClass::Request,
            token: exact_token,
        }
    );
    let f0_with_body = data_message_with_body(
        request.system_bytes(),
        3,
        5,
        0,
        false,
        Some(SecsItem::new(vec![0xa5, 1, 1])),
    );

    assert!(matches!(
        registry.classify_inbound(f0_with_body),
        InboundDataDecision::Mismatch {
            collision: CollisionSource::LiveRequest {
                field: MismatchField::MessageText,
            },
            ..
        }
    ));
    assert_eq!(registry.request_len(), 1);
    assert_index_invariants(&registry);
    assert!(matches!(
        registry.classify_inbound(exact_abort(request)),
        InboundDataDecision::Aborted {
            operation_id,
            cancel_t3: Some(cancel),
            visibility: OperationVisibility::Committed,
            ..
        } if operation_id == request.operation_id() && cancel == exact_token
    ));
    assert_eq!(registry.expire_t3(exact_token), ExpiryDecision::Stale);
    assert_index_invariants(&registry);
}

/// Confirms odd Data is Primary-candidate and orphan even/F0 is never Primary.
#[test]
fn inbound_function_parity_controls_primary_candidacy() {
    let mut registry = registry(1, 4);
    let request = reserve_request(&mut registry, 1);

    assert!(matches!(
        registry.classify_inbound(data_message(request.system_bytes(), 3, 5, 3, true,)),
        InboundDataDecision::PrimaryCandidate { .. }
    ));
    assert_eq!(registry.request_len(), 1);
    assert!(matches!(
        registry.classify_inbound(data_message(SystemBytes::new(999), 3, 5, 2, false,)),
        InboundDataDecision::OrphanSecondary { .. }
    ));
    assert!(matches!(
        registry.classify_inbound(data_message(SystemBytes::new(998), 3, 5, 0, false,)),
        InboundDataDecision::OrphanSecondary { .. }
    ));
    assert_index_invariants(&registry);
}

/// Confirms write outcomes create tombstones exactly when visibility requires them.
#[test]
fn write_outcomes_apply_visibility_tombstone_rules() {
    let mut registry = registry(4, 8);
    let invisible = reserve_request(&mut registry, 1);
    assert!(matches!(
        registry.finish_not_written(invisible.operation_id()),
        FinishDecision::Finished {
            visibility: OperationVisibility::NotVisible,
            tombstone: None,
            ..
        }
    ));
    assert!(!registry.holds_tombstone(invisible.system_bytes()));

    let visible = reserve_request(&mut registry, 2);
    registry.mark_visible(visible.operation_id());
    assert!(matches!(
        registry.finish_not_written(visible.operation_id()),
        FinishDecision::Finished {
            visibility: OperationVisibility::MayBeVisible,
            tombstone: Some(TombstoneCategory::NotWrittenAfterVisibility),
            ..
        }
    ));

    let indeterminate = reserve_request(&mut registry, 3);
    assert!(matches!(
        registry.finish_indeterminate(indeterminate.operation_id()),
        FinishDecision::Finished {
            visibility: OperationVisibility::MayBeVisible,
            tombstone: Some(TombstoneCategory::DeliveryIndeterminate),
            ..
        }
    ));

    let one_way = registry
        .reserve_one_way(OperationId::new(4), OneWayKind::Data)
        .expect("one-way");
    assert!(matches!(
        registry.finish_one_way(one_way.operation_id()),
        FinishDecision::Finished {
            visibility: OperationVisibility::Committed,
            tombstone: Some(TombstoneCategory::OneWayCommitted),
            ..
        }
    ));
    assert_index_invariants(&registry);
}

/// Confirms exact tombstones classify duplicate versus late response forms.
#[test]
fn request_tombstone_matching_is_exact_and_structured() {
    let mut registry = registry(1, 4);
    let request = reserve_request(&mut registry, 1);
    registry.classify_inbound(exact_abort(request));

    assert!(matches!(
        registry.classify_inbound(exact_abort(request)),
        InboundDataDecision::Tombstoned {
            category: TombstoneCategory::AbortReceived,
            arrival: TombstoneArrival::Duplicate,
            ..
        }
    ));
    assert!(matches!(
        registry.classify_inbound(exact_response(request)),
        InboundDataDecision::Tombstoned {
            category: TombstoneCategory::AbortReceived,
            arrival: TombstoneArrival::Late,
            ..
        }
    ));
    assert!(matches!(
        registry.classify_inbound(data_message(request.system_bytes(), 3, 6, 2, false,)),
        InboundDataDecision::Mismatch {
            collision: CollisionSource::RequestTombstone {
                category: TombstoneCategory::AbortReceived,
                field: MismatchField::Stream,
            },
            ..
        }
    ));
    assert_index_invariants(&registry);
}

/// Confirms request tombstones reject F0/W=true instead of reporting duplicate or late.
#[test]
fn request_tombstone_rejects_f0_with_w_bit() {
    let mut registry = registry(1, 4);
    let request = reserve_request(&mut registry, 1);
    registry.classify_inbound(exact_abort(request));

    assert!(matches!(
        registry.classify_inbound(data_message(request.system_bytes(), 3, 5, 0, true,)),
        InboundDataDecision::Mismatch {
            collision: CollisionSource::RequestTombstone {
                category: TombstoneCategory::AbortReceived,
                field: MismatchField::ReplyExpected,
            },
            ..
        }
    ));
    assert_eq!(registry.tombstone_len(), 1);
    assert!(matches!(
        registry.classify_inbound(exact_abort(request)),
        InboundDataDecision::Tombstoned {
            category: TombstoneCategory::AbortReceived,
            arrival: TombstoneArrival::Duplicate,
            ..
        }
    ));
    assert_index_invariants(&registry);
}

/// Confirms request tombstones reject body-bearing F0 without losing the tombstone.
#[test]
fn request_tombstone_rejects_f0_with_message_text() {
    let mut registry = registry(1, 4);
    let request = reserve_request(&mut registry, 1);
    registry.classify_inbound(exact_abort(request));
    let f0_with_body = data_message_with_body(
        request.system_bytes(),
        3,
        5,
        0,
        false,
        Some(SecsItem::new(vec![0x01, 0])),
    );

    assert!(matches!(
        registry.classify_inbound(f0_with_body),
        InboundDataDecision::Mismatch {
            collision: CollisionSource::RequestTombstone {
                category: TombstoneCategory::AbortReceived,
                field: MismatchField::MessageText,
            },
            ..
        }
    ));
    assert_eq!(registry.tombstone_len(), 1);
    assert!(matches!(
        registry.classify_inbound(exact_abort(request)),
        InboundDataDecision::Tombstoned {
            category: TombstoneCategory::AbortReceived,
            arrival: TombstoneArrival::Duplicate,
            ..
        }
    ));
    assert_index_invariants(&registry);
}

/// Confirms tombstone capacity evicts the oldest exact identity in FIFO order.
#[test]
fn tombstone_eviction_is_fifo() {
    let mut registry = registry(1, 2);
    let first = reserve_request(&mut registry, 1);
    registry.classify_inbound(exact_response(first));
    let second = reserve_request(&mut registry, 2);
    registry.classify_inbound(exact_response(second));
    let third = reserve_request(&mut registry, 3);
    registry.classify_inbound(exact_response(third));

    assert_eq!(registry.tombstone_len(), 2);
    assert!(!registry.holds_tombstone(first.system_bytes()));
    assert!(registry.holds_tombstone(second.system_bytes()));
    assert!(registry.holds_tombstone(third.system_bytes()));
    assert!(matches!(
        registry.classify_inbound(exact_response(first)),
        InboundDataDecision::OrphanSecondary { .. }
    ));
    assert!(matches!(
        registry.classify_inbound(exact_response(second)),
        InboundDataDecision::Tombstoned { .. }
    ));
    assert_index_invariants(&registry);
}

/// Confirms control response consumption requires both typed kind and System Bytes.
#[test]
fn control_take_matches_kind_and_system_bytes() {
    let mut registry = registry(1, 4);
    let control = registry
        .reserve_control(OperationId::new(1), ControlKind::Select)
        .expect("control");

    assert!(matches!(
        registry.take_control(ControlKind::Deselect, control.system_bytes()),
        ControlTakeDecision::Mismatch {
            collision: ControlCollision::Live {
                kind: ControlKind::Select,
                ..
            },
        }
    ));
    assert!(matches!(
        registry.take_control(ControlKind::Select, SystemBytes::new(999)),
        ControlTakeDecision::Mismatch {
            collision: ControlCollision::Live { .. },
        }
    ));
    assert!(registry.has_control());
    assert!(matches!(
        registry.take_control(ControlKind::Select, control.system_bytes()),
        ControlTakeDecision::Matched {
            operation_id,
            cancel_t6: None,
            ..
        } if operation_id == control.operation_id()
    ));
    assert!(matches!(
        registry.take_control(ControlKind::Select, control.system_bytes()),
        ControlTakeDecision::Tombstoned {
            category: TombstoneCategory::ControlResponseMatched,
            arrival: TombstoneArrival::Duplicate,
            ..
        }
    ));
    assert_index_invariants(&registry);
}

/// Confirms exact committed control expiry wins and later response is late.
#[test]
fn control_expiry_requires_exact_t6() {
    let mut registry = registry(1, 4);
    let control = registry
        .reserve_control(OperationId::new(1), ControlKind::Linktest)
        .expect("control");
    let token = t6(1);
    assert!(matches!(
        registry.mark_committed(control.operation_id(), token),
        CommitDecision::ArmTimer {
            class: OperationClass::Control(ControlKind::Linktest),
            ..
        }
    ));

    assert_eq!(registry.expire_control(t6(2)), ExpiryDecision::Stale);
    assert!(matches!(
        registry.expire_control(token),
        ExpiryDecision::Expired {
            class: OperationClass::Control(ControlKind::Linktest),
            ..
        }
    ));
    assert_eq!(registry.expire_control(token), ExpiryDecision::Stale);
    assert!(matches!(
        registry.take_control(ControlKind::Linktest, control.system_bytes()),
        ControlTakeDecision::Tombstoned {
            category: TombstoneCategory::ControlExpired,
            arrival: TombstoneArrival::Late,
            ..
        }
    ));
    assert_index_invariants(&registry);
}

/// Confirms one exact timer token cannot be attached to two live requests.
#[test]
fn timer_token_ownership_is_unique_and_atomic() {
    let mut registry = registry(2, 4);
    let first = reserve_request(&mut registry, 1);
    let second = reserve_request(&mut registry, 2);
    let shared = t3(1);
    registry.mark_committed(first.operation_id(), shared);

    assert_eq!(
        registry.mark_committed(second.operation_id(), shared),
        CommitDecision::TimerTokenInUse { token: shared }
    );
    assert!(matches!(
        registry.mark_committed(second.operation_id(), t3(2)),
        CommitDecision::ArmTimer { .. }
    ));
    assert_index_invariants(&registry);
}

/// Confirms the first close drains all classes and later close calls are inert.
#[test]
fn begin_close_is_fenced_structured_and_idempotent() {
    let mut registry = registry(2, 8);
    let request = reserve_request(&mut registry, 1);
    let request_timer = t3(1);
    registry.mark_committed(request.operation_id(), request_timer);
    let invisible = registry
        .reserve_one_way(OperationId::new(2), OneWayKind::Data)
        .expect("one-way");
    let control = registry
        .reserve_control(OperationId::new(3), ControlKind::Deselect)
        .expect("control");
    registry.mark_visible(control.operation_id());

    let close = registry.begin_close();

    assert!(close.began_close());
    assert_eq!(close.operations().len(), 3);
    assert_eq!(
        close
            .operations()
            .iter()
            .map(|entry| entry.operation_id().get())
            .collect::<Vec<_>>(),
        vec![1, 2, 3]
    );
    assert_eq!(close.operations()[0].cancel_timer(), Some(request_timer));
    assert_eq!(
        close.operations()[0].tombstone(),
        Some(TombstoneCategory::ClosedAfterVisibility)
    );
    assert_eq!(
        close.operations()[1].visibility(),
        OperationVisibility::NotVisible
    );
    assert_eq!(close.operations()[1].tombstone(), None);
    assert_eq!(
        close.operations()[2].tombstone(),
        Some(TombstoneCategory::ClosedAfterVisibility)
    );
    assert_eq!(registry.request_len(), 0);
    assert_eq!(registry.one_way_len(), 0);
    assert!(!registry.has_control());
    assert!(!registry.has_timers());
    assert!(matches!(
        registry.classify_inbound(exact_response(request)),
        InboundDataDecision::Tombstoned {
            category: TombstoneCategory::ClosedAfterVisibility,
            arrival: TombstoneArrival::Late,
            ..
        }
    ));
    assert!(matches!(
        registry.take_control(ControlKind::Deselect, control.system_bytes()),
        ControlTakeDecision::Tombstoned {
            category: TombstoneCategory::ClosedAfterVisibility,
            ..
        }
    ));
    assert!(!registry.begin_close().began_close());
    assert!(registry.begin_close().operations().is_empty());
    assert!(registry.is_closing());
    assert_eq!(close.into_operations().len(), 3);
    assert_eq!(
        registry.reserve_one_way(OperationId::new(4), OneWayKind::Separate),
        Err(ReserveError::Closing)
    );
    assert!(!registry.holds_tombstone(invisible.system_bytes()));
    assert_index_invariants(&registry);
}

/// Confirms a mixed mutation sequence preserves every index invariant.
#[test]
fn mixed_operations_preserve_index_invariants() {
    let mut registry = registry(3, 3);
    let first = reserve_request(&mut registry, 1);
    let second = reserve_request(&mut registry, 2);
    let one_way = registry
        .reserve_one_way(OperationId::new(3), OneWayKind::Separate)
        .expect("one-way");
    let control = registry
        .reserve_control(OperationId::new(4), ControlKind::Select)
        .expect("control");
    assert_index_invariants(&registry);

    registry.mark_committed(first.operation_id(), t3(1));
    registry.mark_visible(second.operation_id());
    registry.mark_committed(control.operation_id(), t6(1));
    assert_index_invariants(&registry);

    registry.classify_inbound(exact_response(first));
    registry.finish_indeterminate(second.operation_id());
    registry.finish_one_way(one_way.operation_id());
    registry.take_control(ControlKind::Select, control.system_bytes());
    assert_index_invariants(&registry);
    assert_eq!(registry.tombstone_len(), 3);
}

/// System Bytes are occupied while a live operation or a tombstone holds them, and
/// only then.
#[test]
fn occupancy_follows_ownership() {
    let mut registry = registry(3, 1);
    let first = reserve_request(&mut registry, 1);
    let control = registry
        .reserve_control(OperationId::new(2), ControlKind::Select)
        .expect("control");
    let one_way = registry
        .reserve_one_way(OperationId::new(3), OneWayKind::Separate)
        .expect("one-way");
    for held in [
        first.system_bytes(),
        control.system_bytes(),
        one_way.system_bytes(),
    ] {
        assert!(registry.is_system_bytes_occupied(held));
    }
    assert!(!registry.is_system_bytes_occupied(SystemBytes::new(0)));

    registry.mark_visible(first.operation_id());
    registry.finish_indeterminate(first.operation_id());
    assert!(registry.is_system_bytes_occupied(first.system_bytes()));
    assert_eq!(registry.tombstone_len(), 1);

    registry.mark_committed(control.operation_id(), t6(1));
    registry.take_control(ControlKind::Select, control.system_bytes());
    assert_eq!(registry.tombstone_len(), 1);
    assert!(!registry.is_system_bytes_occupied(first.system_bytes()));
    assert!(registry.is_system_bytes_occupied(control.system_bytes()));
}

/// The registry's decisions can be named from outside the registry.
#[test]
fn registry_decision_reexports_are_sibling_reachable() {
    assert!(matches!(
        PrematureDataMatch::Secondary,
        PrematureDataMatch::Secondary
    ));
    assert!(matches!(
        PeerRejectFinishDecision::AlreadyTerminal {
            category: TombstoneCategory::PeerRejected,
        },
        PeerRejectFinishDecision::AlreadyTerminal {
            category: TombstoneCategory::PeerRejected,
        }
    ));
}
