//! Mathematical model of the transaction registry: live operations by identity
//! and a bounded FIFO of tombstones, with the transition of every operation.

use crate::error::TimeoutKind;
use crate::model::ids::{Function, OperationId, SessionId, Stream, SystemBytes};
use crate::model::runtime::TimerToken;
use crate::protocol::message::DataMessage;
use crate::session_core::transaction::allocator;
use crate::session_core::transaction::decision::{
    CloseOperation, CollisionSource, CommitDecision, ControlCollision, ControlKind,
    ControlTakeDecision, ExpiryDecision, FinishDecision, InboundDataDecision, LiveOperation,
    MarkVisibleDecision, OperationClass, OperationVisibility, ReserveError, Tombstone,
    TombstoneArrival, TombstoneCategory, TombstoneSubject,
};
use crate::session_core::transaction::matcher;
use crate::session_core::transaction::matcher::MatcherDecision;
use vstd::prelude::*;

verus! {

/// Abstract registry state.
pub struct RegistryView {
    /// First System Bytes candidate of the next reservation.
    pub cursor: u32,
    /// Maximum number of live requests.
    pub request_capacity: usize,
    /// Maximum number of tombstones.
    pub tombstone_capacity: usize,
    /// Generation close has fenced reservations.
    pub closing: bool,
    /// Live operations by raw operation number.
    pub live: Map<u64, LiveOperation>,
    /// Tombstones, oldest first.
    pub tombstones: Seq<Tombstone>,
}

/// `op` is live with these System Bytes.
pub open spec fn owns(live: Map<u64, LiveOperation>, op: u64, system_bytes: u32) -> bool {
    live.contains_key(op) && live[op].system_bytes.value == system_bytes
}

/// Tombstone number `i` holds these System Bytes.
pub open spec fn buries(tombstones: Seq<Tombstone>, i: int, system_bytes: u32) -> bool {
    0 <= i < tombstones.len() && tombstones[i].system_bytes.value == system_bytes
}

/// Live requests among the live operations.
pub open spec fn requests_of(live: Map<u64, LiveOperation>) -> Set<u64> {
    live.dom().filter(|op: u64| live[op].class == OperationClass::Request)
}

/// Appends a tombstone, dropping the oldest one when the FIFO is full.
pub open spec fn push_bounded(
    tombstones: Seq<Tombstone>,
    tombstone: Tombstone,
    capacity: usize,
) -> Seq<Tombstone> {
    if tombstones.len() == capacity {
        tombstones.drop_first().push(tombstone)
    } else {
        tombstones.push(tombstone)
    }
}

/// What the tombstone of a live operation keeps recognizing.
pub open spec fn subject_of(live: LiveOperation) -> TombstoneSubject {
    match live.class {
        OperationClass::Request => TombstoneSubject::Request(live.matcher->0),
        OperationClass::OneWay(kind) => TombstoneSubject::OneWay(kind),
        OperationClass::Control(kind) => TombstoneSubject::Control(kind),
    }
}

/// Tombstone left by `op`.
pub open spec fn tombstone_of(
    op: u64,
    live: LiveOperation,
    category: TombstoneCategory,
) -> Tombstone {
    Tombstone {
        operation_id: OperationId { value: op },
        system_bytes: live.system_bytes,
        subject: subject_of(live),
        category,
    }
}

/// Response timer that a live operation of this class arms.
pub open spec fn timer_kind_of(class: OperationClass) -> Option<TimeoutKind> {
    match class {
        OperationClass::Request => Some(TimeoutKind::T3),
        OperationClass::Control(_) => Some(TimeoutKind::T6),
        OperationClass::OneWay(_) => None,
    }
}

/// Fields of a live operation agree with its class and visibility.
pub open spec fn live_ok(live: LiveOperation) -> bool {
    &&& live.system_bytes.value != 0
    &&& live.class == OperationClass::Request <==> live.matcher is Some
    &&& live.matcher is Some ==> live.matcher->0.system_bytes == live.system_bytes
    &&& live.timer is Some ==> {
        &&& timer_kind_of(live.class) == Some(live.timer->0.kind)
        &&& live.visibility == OperationVisibility::Committed
    }
    &&& live.timer is None ==> live.visibility != OperationVisibility::Committed
}

impl RegistryView {
    /// Invariant of every reachable registry.
    pub open spec fn valid(self) -> bool {
        &&& self.cursor != 0
        &&& self.request_capacity > 0
        &&& self.tombstone_capacity > 0
        &&& self.live.dom().finite()
        &&& requests_of(self.live).len() <= self.request_capacity
        &&& self.tombstones.len() <= self.tombstone_capacity
        &&& self.closing ==> self.live.dom() =~= Set::empty()
        &&& forall|op: u64| #[trigger] self.live.contains_key(op) ==> live_ok(self.live[op])
        &&& forall|a: u64, b: u64|
            #![trigger self.live.contains_key(a), self.live.contains_key(b)]
            self.live.contains_key(a) && self.live.contains_key(b) && a != b ==> {
                &&& self.live[a].system_bytes != self.live[b].system_bytes
                &&& self.live[a].timer is Some ==> self.live[a].timer != self.live[b].timer
                &&& !(self.live[a].class is Control && self.live[b].class is Control)
            }
        &&& forall|i: int|
            0 <= i < self.tombstones.len() ==> (#[trigger] self.tombstones[i]).system_bytes.value
                != 0
        &&& forall|i: int, j: int|
            #![trigger self.tombstones[i], self.tombstones[j]]
            0 <= i < j < self.tombstones.len() ==> self.tombstones[i].system_bytes
                != self.tombstones[j].system_bytes
        &&& forall|op: u64, i: int|
            #![trigger self.live.contains_key(op), self.tombstones[i]]
            self.live.contains_key(op) && 0 <= i < self.tombstones.len()
                ==> self.live[op].system_bytes != self.tombstones[i].system_bytes
    }

    /// System Bytes held by a live operation or a tombstone.
    pub open spec fn is_occupied(self, system_bytes: u32) -> bool {
        ||| exists|op: u64| owns(self.live, op, system_bytes)
        ||| exists|i: int| buries(self.tombstones, i, system_bytes)
    }

    /// Number of occupied System Bytes values.
    pub open spec fn occupied_count(self) -> nat {
        self.live.dom().len() + self.tombstones.len()
    }

    /// The candidate `steps` moves after the cursor is the first free one.
    pub open spec fn first_free_at(self, steps: int) -> bool {
        &&& 0 <= steps < allocator::SYSTEM_BYTES_SPACE
        &&& !self.is_occupied(allocator::candidate_after(self.cursor, steps))
        &&& forall|earlier: int|
            0 <= earlier < steps ==> self.is_occupied(
                #[trigger] allocator::candidate_after(self.cursor, earlier),
            )
    }

    /// `system_bytes` is the first free value at or after the cursor.
    pub open spec fn first_free(self, system_bytes: u32) -> bool {
        exists|steps: int|
            #[trigger] self.first_free_at(steps) && system_bytes == allocator::candidate_after(
                self.cursor,
                steps,
            )
    }

    /// Live operation that holds these System Bytes.
    pub open spec fn owner(self, system_bytes: u32) -> Option<u64> {
        if exists|op: u64| owns(self.live, op, system_bytes) {
            Some(choose|op: u64| owns(self.live, op, system_bytes))
        } else {
            None
        }
    }

    /// Tombstone that holds these System Bytes.
    pub open spec fn buried(self, system_bytes: u32) -> Option<Tombstone> {
        if exists|i: int| buries(self.tombstones, i, system_bytes) {
            Some(self.tombstones[choose|i: int| buries(self.tombstones, i, system_bytes)])
        } else {
            None
        }
    }

    /// Category of the oldest retained tombstone of `op`.
    pub open spec fn terminal_category(self, op: u64) -> Option<TombstoneCategory> {
        oldest_category(self.tombstones, op)
    }

    /// State after reserving `live` for `op`.
    pub open spec fn reserved(self, op: u64, live: LiveOperation) -> RegistryView {
        RegistryView {
            cursor: allocator::spec_successor(live.system_bytes.value),
            live: self.live.insert(op, live),
            ..self
        }
    }

    /// State after replacing the record of a live operation.
    pub open spec fn updated(self, op: u64, live: LiveOperation) -> RegistryView {
        RegistryView { live: self.live.insert(op, live), ..self }
    }

    /// State after `op` ended without a tombstone.
    pub open spec fn dropped(self, op: u64) -> RegistryView {
        RegistryView { live: self.live.remove(op), ..self }
    }

    /// State after `op` ended in `live` and left a tombstone.
    pub open spec fn buried_as(
        self,
        op: u64,
        live: LiveOperation,
        category: TombstoneCategory,
    ) -> RegistryView {
        RegistryView {
            live: self.live.remove(op),
            tombstones: push_bounded(
                self.tombstones,
                tombstone_of(op, live, category),
                self.tombstone_capacity,
            ),
            ..self
        }
    }

    /// State after `op` ended as it stood and left a tombstone.
    pub open spec fn retired(self, op: u64, category: TombstoneCategory) -> RegistryView {
        self.buried_as(op, self.live[op], category)
    }

    /// Rejection common to every reservation.
    pub open spec fn fence(self, operation_id: OperationId) -> Option<ReserveError> {
        if self.closing {
            Some(ReserveError::Closing)
        } else if self.live.contains_key(operation_id.value) {
            Some(ReserveError::DuplicateOperation { operation_id })
        } else {
            None
        }
    }

    /// Why a request reservation is refused.
    pub open spec fn request_rejection(
        self,
        operation_id: OperationId,
        function: Function,
    ) -> Option<ReserveError> {
        if self.fence(operation_id) is Some {
            self.fence(operation_id)
        } else if requests_of(self.live).len() >= self.request_capacity {
            Some(ReserveError::RequestCapacityExhausted { capacity: self.request_capacity })
        } else if self.occupied_count() >= allocator::SYSTEM_BYTES_SPACE {
            Some(ReserveError::SystemBytesExhausted)
        } else if !matcher::valid_request_function(function) {
            Some(ReserveError::InvalidPrimaryFunction { function })
        } else {
            None
        }
    }

    /// Why a one-way reservation is refused.
    pub open spec fn one_way_rejection(self, operation_id: OperationId) -> Option<ReserveError> {
        if self.fence(operation_id) is Some {
            self.fence(operation_id)
        } else if self.occupied_count() >= allocator::SYSTEM_BYTES_SPACE {
            Some(ReserveError::SystemBytesExhausted)
        } else {
            None
        }
    }

    /// `op` is the live control transaction.
    pub open spec fn holds_control(self, op: u64) -> bool {
        self.live.contains_key(op) && self.live[op].class is Control
    }

    /// The live control transaction.
    pub open spec fn control_owner(self) -> Option<u64> {
        if exists|op: u64| self.holds_control(op) {
            Some(choose|op: u64| self.holds_control(op))
        } else {
            None
        }
    }

    /// Why a control reservation is refused.
    pub open spec fn control_rejection(self, operation_id: OperationId) -> Option<ReserveError> {
        if self.fence(operation_id) is Some {
            self.fence(operation_id)
        } else if self.control_owner() is Some {
            Some(
                ReserveError::ControlSlotOccupied {
                    pending: self.live[self.control_owner()->0].class->Control_0,
                },
            )
        } else if self.occupied_count() >= allocator::SYSTEM_BYTES_SPACE {
            Some(ReserveError::SystemBytesExhausted)
        } else {
            None
        }
    }

    /// Decision for a frame that may have become visible.
    pub open spec fn visible_decision(self, op: u64) -> MarkVisibleDecision {
        if self.live.contains_key(op) {
            let live = self.live[op];
            if live.visibility == OperationVisibility::NotVisible {
                MarkVisibleDecision::Marked { class: live.class }
            } else {
                MarkVisibleDecision::Unchanged { class: live.class, visibility: live.visibility }
            }
        } else {
            match self.terminal_category(op) {
                Some(category) => MarkVisibleDecision::AlreadyTerminal { category },
                None => MarkVisibleDecision::UnknownOperation,
            }
        }
    }

    /// State after a frame may have become visible.
    pub open spec fn after_visible(self, op: u64) -> RegistryView {
        if self.visible_decision(op) is Marked {
            self.updated(
                op,
                LiveOperation { visibility: OperationVisibility::MayBeVisible, ..self.live[op] },
            )
        } else {
            self
        }
    }

    /// `op` is live and owns `token`.
    pub open spec fn owns_timer(self, op: u64, token: TimerToken) -> bool {
        self.live.contains_key(op) && self.live[op].timer == Some(token)
    }

    /// Live operation that owns `token`.
    pub open spec fn timer_owner(self, token: TimerToken) -> Option<u64> {
        if exists|op: u64| self.owns_timer(op, token) {
            Some(choose|op: u64| self.owns_timer(op, token))
        } else {
            None
        }
    }

    /// Decision for a committed request or control frame.
    pub open spec fn commit_decision(self, op: u64, token: TimerToken) -> CommitDecision {
        if self.live.contains_key(op) {
            let live = self.live[op];
            match timer_kind_of(live.class) {
                None => CommitDecision::WrongOperationKind { actual: live.class },
                Some(expected) => match live.timer {
                    Some(existing) => CommitDecision::AlreadyCommitted { token: existing },
                    None => if token.kind != expected {
                        CommitDecision::WrongTimerKind { expected, actual: token.kind }
                    } else if self.timer_owner(token) is Some {
                        CommitDecision::TimerTokenInUse { token }
                    } else {
                        CommitDecision::ArmTimer {
                            operation_id: OperationId { value: op },
                            system_bytes: live.system_bytes,
                            class: live.class,
                            token,
                        }
                    },
                },
            }
        } else {
            match self.terminal_category(op) {
                Some(category) => CommitDecision::AlreadyTerminal { category },
                None => CommitDecision::UnknownOperation,
            }
        }
    }

    /// State after a committed request or control frame.
    pub open spec fn after_commit(self, op: u64, token: TimerToken) -> RegistryView {
        if self.commit_decision(op, token) is ArmTimer {
            self.updated(
                op,
                LiveOperation {
                    visibility: OperationVisibility::Committed,
                    timer: Some(token),
                    ..self.live[op]
                },
            )
        } else {
            self
        }
    }

    /// Decision for finishing an operation that is not live.
    pub open spec fn absent_decision(self, op: u64) -> FinishDecision {
        match self.terminal_category(op) {
            Some(category) => FinishDecision::AlreadyTerminal { category },
            None => FinishDecision::UnknownOperation,
        }
    }

    /// Decision for a frame that was not written.
    pub open spec fn not_written_decision(self, op: u64) -> FinishDecision {
        if self.live.contains_key(op) {
            finished(
                op,
                self.live[op],
                if self.live[op].visibility.leaves_tombstone() {
                    Some(TombstoneCategory::NotWrittenAfterVisibility)
                } else {
                    None
                },
            )
        } else {
            self.absent_decision(op)
        }
    }

    /// State after a frame that was not written.
    pub open spec fn after_not_written(self, op: u64) -> RegistryView {
        if !self.live.contains_key(op) {
            self
        } else if self.live[op].visibility.leaves_tombstone() {
            self.retired(op, TombstoneCategory::NotWrittenAfterVisibility)
        } else {
            self.dropped(op)
        }
    }

    /// Record of a live operation whose delivery became indeterminate.
    pub open spec fn indeterminate(self, op: u64) -> LiveOperation {
        let live = self.live[op];
        LiveOperation {
            visibility: if live.visibility == OperationVisibility::NotVisible {
                OperationVisibility::MayBeVisible
            } else {
                live.visibility
            },
            ..live
        }
    }

    /// Decision for a frame of indeterminate delivery.
    pub open spec fn indeterminate_decision(self, op: u64) -> FinishDecision {
        if self.live.contains_key(op) {
            finished(op, self.indeterminate(op), Some(TombstoneCategory::DeliveryIndeterminate))
        } else {
            self.absent_decision(op)
        }
    }

    /// State after a frame of indeterminate delivery.
    pub open spec fn after_indeterminate(self, op: u64) -> RegistryView {
        if self.live.contains_key(op) {
            self.buried_as(op, self.indeterminate(op), TombstoneCategory::DeliveryIndeterminate)
        } else {
            self
        }
    }

    /// Record of a committed one-way operation.
    pub open spec fn committed_one_way(self, op: u64) -> LiveOperation {
        LiveOperation { visibility: OperationVisibility::Committed, ..self.live[op] }
    }

    /// Decision for a committed one-way frame.
    pub open spec fn one_way_decision(self, op: u64) -> FinishDecision {
        if !self.live.contains_key(op) {
            self.absent_decision(op)
        } else if self.live[op].class is OneWay {
            finished(op, self.committed_one_way(op), Some(TombstoneCategory::OneWayCommitted))
        } else {
            FinishDecision::WrongOperationKind { actual: self.live[op].class }
        }
    }

    /// State after a committed one-way frame.
    pub open spec fn after_one_way(self, op: u64) -> RegistryView {
        if self.one_way_decision(op) is Finished {
            self.buried_as(op, self.committed_one_way(op), TombstoneCategory::OneWayCommitted)
        } else {
            self
        }
    }

    /// Classification of an inbound Data message.
    pub open spec fn inbound_decision(self, message: DataMessage) -> InboundDataDecision {
        let header = message.header;
        let text = message.body is Some;
        if header.function.value % 2 == 1 {
            InboundDataDecision::PrimaryCandidate { message }
        } else {
            match self.owner(header.system_bytes.value) {
                Some(op) => {
                    let live = self.live[op];
                    match live.class {
                        OperationClass::Request => match matcher::match_response(
                            live.matcher->0,
                            header,
                            text,
                        ) {
                            MatcherDecision::Secondary => InboundDataDecision::MatchedSecondary {
                                operation_id: OperationId { value: op },
                                message,
                                cancel_t3: live.timer,
                                visibility: live.visibility,
                            },
                            MatcherDecision::Abort => InboundDataDecision::Aborted {
                                operation_id: OperationId { value: op },
                                message,
                                cancel_t3: live.timer,
                                visibility: live.visibility,
                            },
                            MatcherDecision::Mismatch { field } => InboundDataDecision::Mismatch {
                                message,
                                collision: CollisionSource::LiveRequest { field },
                            },
                        },
                        OperationClass::OneWay(kind) => InboundDataDecision::Mismatch {
                            message,
                            collision: CollisionSource::LiveOneWay { kind },
                        },
                        OperationClass::Control(kind) => InboundDataDecision::Mismatch {
                            message,
                            collision: CollisionSource::LiveControl { kind },
                        },
                    }
                },
                None => match self.buried(header.system_bytes.value) {
                    Some(tombstone) => buried_decision(tombstone, message),
                    None => InboundDataDecision::OrphanSecondary { message },
                },
            }
        }
    }

    /// State after classifying an inbound Data message.
    pub open spec fn after_inbound(self, message: DataMessage) -> RegistryView {
        match self.inbound_decision(message) {
            InboundDataDecision::MatchedSecondary { operation_id, .. } => self.retired(
                operation_id.value,
                TombstoneCategory::ResponseMatched,
            ),
            InboundDataDecision::Aborted { operation_id, .. } => self.retired(
                operation_id.value,
                TombstoneCategory::AbortReceived,
            ),
            _ => self,
        }
    }

    /// `op` is the live control transaction of this kind and System Bytes.
    pub open spec fn awaits_control(self, op: u64, kind: ControlKind, system_bytes: u32) -> bool {
        owns(self.live, op, system_bytes) && self.live[op].class == OperationClass::Control(kind)
    }

    /// Classification of a control response.
    pub open spec fn control_decision(
        self,
        kind: ControlKind,
        system_bytes: SystemBytes,
    ) -> ControlTakeDecision {
        match self.control_owner() {
            Some(op) if self.awaits_control(op, kind, system_bytes.value) => {
                ControlTakeDecision::Matched {
                    operation_id: OperationId { value: op },
                    system_bytes,
                    kind,
                    cancel_t6: self.live[op].timer,
                    visibility: self.live[op].visibility,
                }
            },
            _ => match self.buried(system_bytes.value) {
                Some(tombstone) => buried_control_decision(tombstone, kind),
                None => match self.control_owner() {
                    Some(op) => ControlTakeDecision::Mismatch {
                        collision: ControlCollision::Live {
                            kind: self.live[op].class->Control_0,
                            system_bytes: self.live[op].system_bytes,
                        },
                    },
                    None => ControlTakeDecision::NoPending,
                },
            },
        }
    }

    /// State after classifying a control response.
    pub open spec fn after_control(
        self,
        kind: ControlKind,
        system_bytes: SystemBytes,
    ) -> RegistryView {
        match self.control_decision(kind, system_bytes) {
            ControlTakeDecision::Matched { operation_id, .. } => self.retired(
                operation_id.value,
                TombstoneCategory::ControlResponseMatched,
            ),
            _ => self,
        }
    }

    /// Decision for the expiry of a timer with role `expected`.
    pub open spec fn expiry_decision(
        self,
        token: TimerToken,
        expected: TimeoutKind,
    ) -> ExpiryDecision {
        if token.kind != expected {
            ExpiryDecision::WrongTimerKind { expected, actual: token.kind }
        } else {
            match self.timer_owner(token) {
                Some(op) => ExpiryDecision::Expired {
                    operation_id: OperationId { value: op },
                    system_bytes: self.live[op].system_bytes,
                    class: self.live[op].class,
                    visibility: self.live[op].visibility,
                },
                None => ExpiryDecision::Stale,
            }
        }
    }

    /// State after a timer expiry.
    pub open spec fn after_expiry(
        self,
        token: TimerToken,
        expected: TimeoutKind,
        category: TombstoneCategory,
    ) -> RegistryView {
        match self.expiry_decision(token, expected) {
            ExpiryDecision::Expired { operation_id, .. } => self.retired(
                operation_id.value,
                category,
            ),
            _ => self,
        }
    }
}

/// Category of the oldest tombstone of `op` in FIFO order.
pub open spec fn oldest_category(tombstones: Seq<Tombstone>, op: u64) -> Option<TombstoneCategory>
    decreases tombstones.len(),
{
    if tombstones.len() == 0 {
        None
    } else if tombstones[0].operation_id.value == op {
        Some(tombstones[0].category)
    } else {
        oldest_category(tombstones.drop_first(), op)
    }
}

/// Decision for an operation that ended in `live`.
pub open spec fn finished(
    op: u64,
    live: LiveOperation,
    tombstone: Option<TombstoneCategory>,
) -> FinishDecision {
    FinishDecision::Finished {
        operation_id: OperationId { value: op },
        system_bytes: live.system_bytes,
        class: live.class,
        visibility: live.visibility,
        cancel_timer: live.timer,
        tombstone,
    }
}

/// Relation of a matching Data message to the end of its request.
pub open spec fn data_arrival(
    category: TombstoneCategory,
    matched: MatcherDecision,
) -> TombstoneArrival {
    if (category == TombstoneCategory::ResponseMatched && matched == MatcherDecision::Secondary)
        || (category == TombstoneCategory::AbortReceived && matched == MatcherDecision::Abort) {
        TombstoneArrival::Duplicate
    } else {
        TombstoneArrival::Late
    }
}

/// Classification of a Data message whose System Bytes are buried.
pub open spec fn buried_decision(tombstone: Tombstone, message: DataMessage) -> InboundDataDecision {
    match tombstone.subject {
        TombstoneSubject::Request(matcher) => {
            let matched = matcher::match_response(matcher, message.header, message.body is Some);
            match matched {
                MatcherDecision::Mismatch { field } => InboundDataDecision::Mismatch {
                    message,
                    collision: CollisionSource::RequestTombstone {
                        category: tombstone.category,
                        field,
                    },
                },
                _ => InboundDataDecision::Tombstoned {
                    operation_id: tombstone.operation_id,
                    message,
                    category: tombstone.category,
                    arrival: data_arrival(tombstone.category, matched),
                },
            }
        },
        _ => InboundDataDecision::Mismatch {
            message,
            collision: CollisionSource::Tombstone { category: tombstone.category },
        },
    }
}

/// Classification of a control response whose System Bytes are buried.
pub open spec fn buried_control_decision(
    tombstone: Tombstone,
    kind: ControlKind,
) -> ControlTakeDecision {
    match tombstone.subject {
        TombstoneSubject::Control(retained) => if retained == kind {
            ControlTakeDecision::Tombstoned {
                operation_id: tombstone.operation_id,
                category: tombstone.category,
                arrival: if tombstone.category == TombstoneCategory::ControlResponseMatched {
                    TombstoneArrival::Duplicate
                } else {
                    TombstoneArrival::Late
                },
            }
        } else {
            ControlTakeDecision::Mismatch {
                collision: ControlCollision::Tombstone {
                    kind: retained,
                    category: tombstone.category,
                },
            }
        },
        _ => ControlTakeDecision::Mismatch {
            collision: ControlCollision::OtherTombstone { category: tombstone.category },
        },
    }
}

/// Close record of a live operation.
pub open spec fn close_record(op: u64, live: LiveOperation) -> CloseOperation {
    CloseOperation {
        operation_id: OperationId { value: op },
        system_bytes: live.system_bytes,
        class: live.class,
        cancel_timer: live.timer,
        visibility: live.visibility,
        tombstone: if live.visibility.leaves_tombstone() {
            Some(TombstoneCategory::ClosedAfterVisibility)
        } else {
            None
        },
    }
}

/// Tombstones after closing the operations `ids` in order.
pub open spec fn bury_all(
    tombstones: Seq<Tombstone>,
    live: Map<u64, LiveOperation>,
    ids: Seq<u64>,
    capacity: usize,
) -> Seq<Tombstone>
    decreases ids.len(),
{
    if ids.len() == 0 {
        tombstones
    } else {
        let before = bury_all(tombstones, live, ids.drop_last(), capacity);
        let op = ids.last();
        if live[op].visibility.leaves_tombstone() {
            push_bounded(
                before,
                tombstone_of(op, live[op], TombstoneCategory::ClosedAfterVisibility),
                capacity,
            )
        } else {
            before
        }
    }
}

/// `ids` lists the live operations once each, in ascending order.
pub open spec fn lists_ascending(ids: Seq<u64>, live: Map<u64, LiveOperation>) -> bool {
    &&& forall|i: int, j: int| 0 <= i < j < ids.len() ==> ids[i] < ids[j]
    &&& forall|op: u64| live.contains_key(op) <==> ids.contains(op)
}

/// Record of a fresh request reservation.
pub open spec fn fresh_request(
    system_bytes: SystemBytes,
    session_id: SessionId,
    stream: Stream,
    function: Function,
) -> LiveOperation {
    LiveOperation {
        system_bytes,
        class: OperationClass::Request,
        visibility: OperationVisibility::NotVisible,
        timer: None,
        matcher: Some(matcher::compiled(system_bytes, session_id, stream, function)),
    }
}

/// Record of a fresh reservation without a response contract.
pub open spec fn fresh_unmatched(
    system_bytes: SystemBytes,
    class: OperationClass,
) -> LiveOperation {
    LiveOperation {
        system_bytes,
        class,
        visibility: OperationVisibility::NotVisible,
        timer: None,
        matcher: None,
    }
}

/// System Bytes name at most one live operation.
pub proof fn lemma_owner(view: RegistryView, op: u64)
    requires
        view.valid(),
        view.live.contains_key(op),
    ensures
        view.owner(view.live[op].system_bytes.value) == Some(op),
{
    let sb = view.live[op].system_bytes.value;
    assert(owns(view.live, op, sb));
    let other = choose|other: u64| owns(view.live, other, sb);
    assert(owns(view.live, other, sb));
    assert(view.live[other].system_bytes == view.live[op].system_bytes);
}

/// System Bytes name at most one tombstone.
pub proof fn lemma_buried(view: RegistryView, i: int)
    requires
        view.valid(),
        0 <= i < view.tombstones.len(),
    ensures
        view.buried(view.tombstones[i].system_bytes.value) == Some(view.tombstones[i]),
{
    let sb = view.tombstones[i].system_bytes.value;
    assert(buries(view.tombstones, i, sb));
    let other = choose|other: int| buries(view.tombstones, other, sb);
    assert(buries(view.tombstones, other, sb));
    assert(view.tombstones[other].system_bytes == view.tombstones[i].system_bytes);
}

/// A timer has at most one live owner.
pub proof fn lemma_timer_owner(view: RegistryView, op: u64, token: TimerToken)
    requires
        view.valid(),
        view.owns_timer(op, token),
    ensures
        view.timer_owner(token) == Some(op),
{
    let other = choose|other: u64| view.owns_timer(other, token);
    assert(view.owns_timer(other, token));
}

/// At most one control transaction is live.
pub proof fn lemma_control_owner(view: RegistryView, op: u64)
    requires
        view.valid(),
        view.holds_control(op),
    ensures
        view.control_owner() == Some(op),
{
    let other = choose|other: u64| view.holds_control(other);
    assert(view.holds_control(other));
}

/// The System Bytes of a removed operation are free.
pub proof fn lemma_dropped_is_free(view: RegistryView, op: u64)
    requires
        view.valid(),
        view.live.contains_key(op),
    ensures
        !view.dropped(op).is_occupied(view.live[op].system_bytes.value),
{
    let sb = view.live[op].system_bytes.value;
    let after = view.dropped(op);
    if exists|other: u64| owns(after.live, other, sb) {
        let other = choose|other: u64| owns(after.live, other, sb);
        assert(view.live.contains_key(other));
        assert(view.live[other].system_bytes == view.live[op].system_bytes);
    }
    if exists|i: int| buries(after.tombstones, i, sb) {
        let i = choose|i: int| buries(after.tombstones, i, sb);
        assert(view.tombstones[i].system_bytes == view.live[op].system_bytes);
    }
}

} // verus!
