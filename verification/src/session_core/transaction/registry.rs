//! Owns the live operations of one generation, their System Bytes, response
//! timers and tombstones.

use crate::error::TimeoutKind;
use crate::model::ids::{
    ConnectionGeneration, Function, OperationId, SessionId, Stream, SystemBytes, TimerId,
};
use crate::model::runtime::TimerToken;
use crate::protocol::message::DataMessage;
use crate::session_core::transaction::allocator;
use crate::session_core::transaction::allocator::{AllocationError, SystemBytesAllocator};
use crate::session_core::transaction::decision::{
    CloseDecision, CloseOperation, CollisionSource, CommitDecision, ControlCollision, ControlKind,
    ControlTakeDecision, ExpiryDecision, FinishDecision, InboundDataDecision, LiveOperation,
    MarkVisibleDecision, OneWayKind, OperationClass, OperationVisibility, RegistryBuildError,
    ReserveError, ReservedControl, ReservedOneWay, ReservedRequest, Tombstone, TombstoneArrival,
    TombstoneCategory, TombstoneSubject,
};
use crate::session_core::transaction::matcher::{
    MatcherBuildError, MatcherDecision, ResponseMatcher,
};
use crate::session_core::transaction::model;
use crate::session_core::transaction::model::RegistryView;
use std::collections::{HashMap, VecDeque};
use vstd::prelude::*;

verus! {

broadcast use vstd::std_specs::hash::group_hash_axioms;

/// Live request, found by its System Bytes.
#[derive(Clone, Copy, Debug)]
struct RequestEntry {
    operation_id: OperationId,
    matcher: ResponseMatcher,
    visibility: OperationVisibility,
    timer: Option<TimerToken>,
}

/// Live one-way operation, found by its System Bytes.
#[derive(Clone, Copy, Debug)]
struct OneWayEntry {
    operation_id: OperationId,
    kind: OneWayKind,
    visibility: OperationVisibility,
}

/// The live control transaction.
#[derive(Clone, Copy, Debug)]
struct ControlEntry {
    operation_id: OperationId,
    system_bytes: SystemBytes,
    kind: ControlKind,
    visibility: OperationVisibility,
    timer: Option<TimerToken>,
}

/// Store that holds a live operation.
#[derive(Clone, Copy, Debug, PartialEq, Eq, Structural)]
enum OperationLocator {
    Request(SystemBytes),
    OneWay(SystemBytes, OneWayKind),
    Control(SystemBytes, ControlKind),
}

/// Request that owns an armed T3.
#[derive(Clone, Copy, Debug, PartialEq, Eq, Structural)]
struct TimerOwner {
    operation_id: OperationId,
    system_bytes: SystemBytes,
}

/// Single-owner transaction registry of one TCP generation.
#[derive(Debug)]
pub struct TransactionRegistry {
    generation: ConnectionGeneration,
    allocator: SystemBytesAllocator,
    request_capacity: usize,
    tombstone_capacity: usize,
    closing: bool,
    requests: HashMap<u32, RequestEntry>,
    one_way: HashMap<u32, OneWayEntry>,
    control: Option<ControlEntry>,
    operations: HashMap<u64, OperationLocator>,
    timers: HashMap<u64, TimerOwner>,
    tombstone_order: VecDeque<u32>,
    tombstones: HashMap<u32, Tombstone>,
}

impl View for TransactionRegistry {
    type V = RegistryView;

    closed spec fn view(&self) -> RegistryView {
        RegistryView {
            cursor: self.allocator.cursor(),
            request_capacity: self.request_capacity,
            tombstone_capacity: self.tombstone_capacity,
            closing: self.closing,
            live: Map::new(
                |op: u64| self.operations@.contains_key(op),
                |op: u64| self.live_at(self.operations@[op]),
            ),
            tombstones: Seq::new(
                self.tombstone_order@.len(),
                |i: int| self.tombstones@[self.tombstone_order@[i]],
            ),
        }
    }
}

impl TransactionRegistry {
    /// Generation that owns the registry.
    pub closed spec fn spec_generation(self) -> ConnectionGeneration {
        self.generation
    }

    spec fn live_at(&self, locator: OperationLocator) -> LiveOperation {
        match locator {
            OperationLocator::Request(system_bytes) => {
                let entry = self.requests@[system_bytes.value];
                LiveOperation {
                    system_bytes,
                    class: OperationClass::Request,
                    visibility: entry.visibility,
                    timer: entry.timer,
                    matcher: Some(entry.matcher),
                }
            },
            OperationLocator::OneWay(system_bytes, kind) => LiveOperation {
                system_bytes,
                class: OperationClass::OneWay(kind),
                visibility: self.one_way@[system_bytes.value].visibility,
                timer: None,
                matcher: None,
            },
            OperationLocator::Control(system_bytes, kind) => LiveOperation {
                system_bytes,
                class: OperationClass::Control(kind),
                visibility: self.control->0.visibility,
                timer: self.control->0.timer,
                matcher: None,
            },
        }
    }

    spec fn control_holds(&self, sb: u32) -> bool {
        self.control is Some && self.control->0.system_bytes.value == sb
    }

    spec fn operations_located(&self) -> bool {
        forall|op: u64| #[trigger]
            self.operations@.contains_key(op) ==> match self.operations@[op] {
                OperationLocator::Request(sb) => {
                    &&& self.requests@.contains_key(sb.value)
                    &&& self.requests@[sb.value].operation_id.value == op
                },
                OperationLocator::OneWay(sb, kind) => {
                    &&& self.one_way@.contains_key(sb.value)
                    &&& self.one_way@[sb.value].operation_id.value == op
                    &&& self.one_way@[sb.value].kind == kind
                },
                OperationLocator::Control(sb, kind) => {
                    &&& self.control is Some
                    &&& self.control->0.operation_id.value == op
                    &&& self.control->0.system_bytes == sb
                    &&& self.control->0.kind == kind
                },
            }
    }

    spec fn requests_indexed(&self) -> bool {
        forall|sb: u32| #[trigger]
            self.requests@.contains_key(sb) ==> {
                let entry = self.requests@[sb];
                &&& sb != 0
                &&& self.operations@.contains_key(entry.operation_id.value)
                &&& self.operations@[entry.operation_id.value] == OperationLocator::Request(
                    SystemBytes { value: sb },
                )
                &&& entry.matcher.system_bytes.value == sb
                &&& !self.one_way@.contains_key(sb)
                &&& !self.control_holds(sb)
                &&& !self.tombstones@.contains_key(sb)
                &&& entry.timer is Some ==> {
                    &&& entry.timer->0.kind == TimeoutKind::T3
                    &&& entry.visibility == OperationVisibility::Committed
                    &&& self.timers@.contains_key(entry.timer->0.id.value)
                    &&& self.timers@[entry.timer->0.id.value] == (TimerOwner {
                        operation_id: entry.operation_id,
                        system_bytes: SystemBytes { value: sb },
                    })
                }
                &&& entry.timer is None ==> entry.visibility != OperationVisibility::Committed
            }
    }

    spec fn one_way_indexed(&self) -> bool {
        forall|sb: u32| #[trigger]
            self.one_way@.contains_key(sb) ==> {
                let entry = self.one_way@[sb];
                &&& sb != 0
                &&& self.operations@.contains_key(entry.operation_id.value)
                &&& self.operations@[entry.operation_id.value] == OperationLocator::OneWay(
                    SystemBytes { value: sb },
                    entry.kind,
                )
                &&& !self.control_holds(sb)
                &&& !self.tombstones@.contains_key(sb)
                &&& entry.visibility != OperationVisibility::Committed
            }
    }

    spec fn control_indexed(&self) -> bool {
        self.control is Some ==> {
            let entry = self.control->0;
            &&& entry.system_bytes.value != 0
            &&& self.operations@.contains_key(entry.operation_id.value)
            &&& self.operations@[entry.operation_id.value] == OperationLocator::Control(
                entry.system_bytes,
                entry.kind,
            )
            &&& !self.tombstones@.contains_key(entry.system_bytes.value)
            &&& entry.timer is Some ==> {
                &&& entry.timer->0.kind == TimeoutKind::T6
                &&& entry.visibility == OperationVisibility::Committed
            }
            &&& entry.timer is None ==> entry.visibility != OperationVisibility::Committed
        }
    }

    spec fn timers_indexed(&self) -> bool {
        forall|id: u64| #[trigger]
            self.timers@.contains_key(id) ==> {
                let owner = self.timers@[id];
                &&& self.requests@.contains_key(owner.system_bytes.value)
                &&& self.requests@[owner.system_bytes.value].operation_id == owner.operation_id
                &&& self.requests@[owner.system_bytes.value].timer == Some(
                    TimerToken { id: TimerId { value: id }, kind: TimeoutKind::T3 },
                )
            }
    }

    spec fn tombstones_indexed(&self) -> bool {
        &&& self.tombstone_order@.no_duplicates()
        &&& self.tombstone_order@.len() <= self.tombstone_capacity
        &&& forall|sb: u32| #[trigger]
            self.tombstones@.contains_key(sb) <==> self.tombstone_order@.contains(sb)
        &&& forall|sb: u32| #[trigger]
            self.tombstones@.contains_key(sb) ==> {
                &&& sb != 0
                &&& self.tombstones@[sb].system_bytes.value == sb
            }
    }

    spec fn counted(&self) -> bool {
        &&& self.requests@.len() <= self.request_capacity
        &&& model::requests_of(self@.live).len() == self.requests@.len()
        &&& self.operations@.len() == self.requests@.len() + self.one_way@.len() + (
        if self.control is Some {
            1nat
        } else {
            0nat
        })
    }

    /// Every store agrees with every index.
    pub closed spec fn wf(&self) -> bool {
        &&& self.allocator.cursor() != 0
        &&& self.request_capacity > 0
        &&& self.tombstone_capacity > 0
        &&& self.closing ==> self.operations@.dom() =~= Set::empty()
        &&& self.operations_located()
        &&& self.requests_indexed()
        &&& self.one_way_indexed()
        &&& self.control_indexed()
        &&& self.timers_indexed()
        &&& self.tombstones_indexed()
        &&& self.counted()
    }

    /// The stores represent a valid abstract state.
    pub proof fn lemma_valid(&self)
        requires
            self.wf(),
        ensures
            self@.valid(),
    {
        let view = self@;
        assert(view.live.dom() =~= self.operations@.dom());
        assert forall|a: u64, b: u64|
            view.live.contains_key(a) && view.live.contains_key(b) && a
                != b implies #[trigger] view.live[a].system_bytes
            != #[trigger] view.live[b].system_bytes by {
            assert(self.operations@.contains_key(a) && self.operations@.contains_key(b));
        }
        assert forall|a: u64, b: u64|
            #![trigger view.live.contains_key(a), view.live.contains_key(b)]
            view.live.contains_key(a) && view.live.contains_key(b) && a != b
                && view.live[a].timer is Some implies view.live[a].timer != view.live[b].timer by {
            assert(self.operations@.contains_key(a) && self.operations@.contains_key(b));
            if view.live[a].timer == view.live[b].timer {
                let id = view.live[a].timer->0.id.value;
                match (self.operations@[a], self.operations@[b]) {
                    (OperationLocator::Request(x), OperationLocator::Request(y)) => {
                        assert(self.requests@.contains_key(x.value));
                        assert(self.requests@.contains_key(y.value));
                        assert(self.timers@.contains_key(id));
                    },
                    _ => {},
                }
            }
        }
        assert forall|i: int| 0 <= i < view.tombstones.len() implies {
            &&& self.tombstones@.contains_key(self.tombstone_order@[i])
            &&& (#[trigger] view.tombstones[i]).system_bytes.value == self.tombstone_order@[i]
            &&& view.tombstones[i].system_bytes.value != 0
        } by {
            assert(self.tombstone_order@.contains(self.tombstone_order@[i]));
        }
        assert forall|i: int, j: int|
            #![trigger view.tombstones[i], view.tombstones[j]]
            0 <= i < j < view.tombstones.len() implies view.tombstones[i].system_bytes
            != view.tombstones[j].system_bytes by {
            assert(self.tombstone_order@[i] != self.tombstone_order@[j]);
        }
    }

    /// Occupancy of the model is occupancy of the stores.
    proof fn lemma_occupied(&self, sb: u32)
        requires
            self.wf(),
        ensures
            self@.is_occupied(sb) <==> {
                ||| self.requests@.contains_key(sb)
                ||| self.one_way@.contains_key(sb)
                ||| self.control_holds(sb)
                ||| self.tombstones@.contains_key(sb)
            },
    {
        let view = self@;
        if self.requests@.contains_key(sb) {
            assert(model::owns(view.live, self.requests@[sb].operation_id.value, sb));
        }
        if self.one_way@.contains_key(sb) {
            assert(model::owns(view.live, self.one_way@[sb].operation_id.value, sb));
        }
        if self.control_holds(sb) {
            assert(model::owns(view.live, self.control->0.operation_id.value, sb));
        }
        if self.tombstones@.contains_key(sb) {
            assert(self.tombstone_order@.contains(sb));
            let i = choose|i: int|
                0 <= i < self.tombstone_order@.len() && self.tombstone_order@[i] == sb;
            assert(view.tombstones[i] == self.tombstones@[sb]);
            assert(model::buries(view.tombstones, i, sb));
        }
        if exists|op: u64| model::owns(view.live, op, sb) {
            let op = choose|op: u64| model::owns(view.live, op, sb);
            assert(self.operations@.contains_key(op));
        }
        if exists|i: int| model::buries(view.tombstones, i, sb) {
            let i = choose|i: int| model::buries(view.tombstones, i, sb);
            assert(self.tombstone_order@.contains(self.tombstone_order@[i]));
            assert(self.tombstones@.contains_key(self.tombstone_order@[i]));
            assert(view.tombstones[i] == self.tombstones@[self.tombstone_order@[i]]);
        }
    }

    /// Occupied System Bytes as a set of the counted size.
    proof fn lemma_occupancy(&self) -> (occupied: Set<u32>)
        requires
            self.wf(),
        ensures
            occupied.finite(),
            occupied.len() == self@.occupied_count(),
            forall|sb: u32| #[trigger] occupied.contains(sb) <==> self@.is_occupied(sb),
    {
        let requests = self.requests@.dom();
        let one_way = self.one_way@.dom();
        let control = if self.control is Some {
            set![self.control->0.system_bytes.value]
        } else {
            Set::<u32>::empty()
        };
        let buried = self.tombstone_order@.to_set();
        self.tombstone_order@.unique_seq_to_set();
        vstd::set_lib::lemma_set_disjoint_lens(requests, one_way);
        vstd::set_lib::lemma_set_disjoint_lens(requests + one_way, control);
        assert forall|sb: u32| buried.contains(sb) implies self.tombstones@.contains_key(sb) by {
            assert(self.tombstone_order@.contains(sb));
        }
        vstd::set_lib::lemma_set_disjoint_lens(requests + one_way + control, buried);
        let occupied = requests + one_way + control + buried;
        assert(self@.live.dom() =~= self.operations@.dom());
        assert forall|sb: u32| #[trigger] occupied.contains(sb) <==> self@.is_occupied(sb) by {
            self.lemma_occupied(sb);
            assert(buried.contains(sb) <==> self.tombstones@.contains_key(sb));
        }
        occupied
    }

    /// Creates an empty registry.
    pub fn new(
        generation: ConnectionGeneration,
        request_capacity: usize,
        tombstone_capacity: usize,
    ) -> (r: Result<Self, RegistryBuildError>)
        ensures
            request_capacity == 0 <==> r == Err::<Self, _>(RegistryBuildError::ZeroRequestCapacity),
            request_capacity != 0 && tombstone_capacity == 0 <==> r == Err::<Self, _>(
                RegistryBuildError::ZeroTombstoneCapacity,
            ),
            r is Ok ==> {
                &&& r->Ok_0.wf()
                &&& r->Ok_0.spec_generation() == generation
                &&& r->Ok_0@ == (RegistryView {
                    cursor: 1,
                    request_capacity,
                    tombstone_capacity,
                    closing: false,
                    live: Map::empty(),
                    tombstones: Seq::empty(),
                })
            },
    {
        if request_capacity == 0 {
            return Err(RegistryBuildError::ZeroRequestCapacity);
        }
        if tombstone_capacity == 0 {
            return Err(RegistryBuildError::ZeroTombstoneCapacity);
        }
        let registry = TransactionRegistry {
            generation,
            allocator: SystemBytesAllocator::new(),
            request_capacity,
            tombstone_capacity,
            closing: false,
            requests: HashMap::new(),
            one_way: HashMap::new(),
            control: None,
            operations: HashMap::new(),
            timers: HashMap::new(),
            tombstone_order: VecDeque::new(),
            tombstones: HashMap::new(),
        };
        proof {
            assert(registry@.live =~= Map::empty());
            assert(registry@.tombstones =~= Seq::empty());
            assert(model::requests_of(registry@.live) =~= Set::empty());
        }
        Ok(registry)
    }

    /// Returns the owning generation.
    pub fn generation(&self) -> (r: ConnectionGeneration)
        ensures
            r == self.spec_generation(),
    {
        self.generation
    }

    /// Returns whether generation close has fenced reservations.
    pub fn is_closing(&self) -> (r: bool)
        ensures
            r == self@.closing,
    {
        self.closing
    }

    /// Returns the number of live requests.
    pub fn request_len(&self) -> (r: usize)
        requires
            self.wf(),
        ensures
            r == model::requests_of(self@.live).len(),
    {
        self.requests.len()
    }

    /// Returns the number of live one-way operations.
    pub fn one_way_len(&self) -> (r: usize)
        requires
            self.wf(),
        ensures
            r == self@.live.dom().len() - model::requests_of(self@.live).len() - (
            if self@.control_owner() is Some {
                1int
            } else {
                0int
            }),
    {
        proof {
            assert(self@.live.dom() =~= self.operations@.dom());
            self.lemma_control();
        }
        self.one_way.len()
    }

    /// Returns whether a control transaction is live.
    pub fn has_control(&self) -> (r: bool)
        requires
            self.wf(),
        ensures
            r == self@.control_owner() is Some,
    {
        proof {
            self.lemma_control();
        }
        self.control.is_some()
    }

    /// Returns the number of retained tombstones.
    pub fn tombstone_len(&self) -> (r: usize)
        ensures
            r == self@.tombstones.len(),
    {
        self.tombstone_order.len()
    }

    /// Returns the number of live operations of every class.
    pub fn live_len(&self) -> (r: usize)
        requires
            self.wf(),
        ensures
            r == self@.live.dom().len(),
    {
        assert(self@.live.dom() =~= self.operations@.dom());
        self.operations.len()
    }

    /// Returns whether a finished operation is remembered under `system_bytes`.
    pub fn holds_tombstone(&self, system_bytes: SystemBytes) -> (r: bool)
        requires
            self.wf(),
        ensures
            r <==> exists|i: int|
                0 <= i < self@.tombstones.len() && (#[trigger] self@.tombstones[i]).system_bytes
                    == system_bytes,
    {
        let held = self.tombstones.contains_key(&system_bytes.value);
        proof {
            if held {
                let sb = system_bytes.value;
                let i = choose|i: int|
                    0 <= i < self.tombstone_order@.len() && self.tombstone_order@[i] == sb;
                assert(self@.tombstones[i].system_bytes == system_bytes);
            } else {
                assert forall|i: int| 0 <= i < self@.tombstones.len() implies (
                #[trigger] self@.tombstones[i]).system_bytes != system_bytes by {
                    assert(self.tombstones@.contains_key(self.tombstone_order@[i]));
                }
            }
        }
        held
    }

    /// Continues allocation at `next`.
    pub fn resume_at(&mut self, next: SystemBytes)
        requires
            old(self).wf(),
            next.value != 0,
        ensures
            final(self).wf(),
            final(self).spec_generation() == old(self).spec_generation(),
            final(self)@ == (RegistryView { cursor: next.value, ..old(self)@ }),
    {
        let ghost before = *self;
        self.allocator = SystemBytesAllocator::with_next(next.get());
        proof {
            assert forall|locator: OperationLocator| #[trigger]
                self.live_at(locator) == before.live_at(locator) by {}
            assert(self@.live =~= before@.live);
            assert(self@.tombstones =~= before@.tombstones);
        }
    }

    /// Returns the first System Bytes candidate of the next reservation.
    pub fn next_candidate(&self) -> (r: SystemBytes)
        ensures
            r.value == self@.cursor,
    {
        self.allocator.next_candidate()
    }

    /// Returns whether any live operation owns an armed timer.
    pub fn has_timers(&self) -> (r: bool)
        requires
            self.wf(),
        ensures
            r <==> exists|op: u64| #[trigger]
                self@.live.contains_key(op) && self@.live[op].timer is Some,
    {
        proof {
            self.lemma_timers();
        }
        let control_timer = match self.control {
            Some(entry) => entry.timer.is_some(),
            None => false,
        };
        control_timer || self.timers.len() != 0
    }

    /// The control slot is the live control transaction of the model.
    proof fn lemma_control(&self)
        requires
            self.wf(),
        ensures
            self.control is Some <==> self@.control_owner() is Some,
            self.control is Some ==> {
                &&& self@.control_owner() == Some(self.control->0.operation_id.value)
                &&& self@.holds_control(self.control->0.operation_id.value)
            },
    {
        self.lemma_valid();
        if self.control is Some {
            let op = self.control->0.operation_id.value;
            assert(self.operations@.contains_key(op));
            assert(self@.holds_control(op));
            model::lemma_control_owner(self@, op);
        }
        if exists|op: u64| self@.holds_control(op) {
            let op = choose|op: u64| self@.holds_control(op);
            assert(self.operations@.contains_key(op));
        }
    }

    /// The T3 index and the control slot know every armed timer.
    proof fn lemma_timers(&self)
        requires
            self.wf(),
        ensures
            self.timers@.len() == 0 && (self.control is Some ==> self.control->0.timer is None)
                <==> forall|op: u64| #[trigger]
                self@.live.contains_key(op) ==> self@.live[op].timer is None,
    {
        if self.timers@.len() == 0 {
            assert(self.timers@.dom() =~= Set::empty());
            assert forall|sb: u32| #[trigger]
                self.requests@.contains_key(sb) implies self.requests@[sb].timer is None by {
                if self.requests@[sb].timer is Some {
                    assert(self.timers@.dom().contains(self.requests@[sb].timer->0.id.value));
                }
            }
        } else {
            let id = self.timers@.dom().choose();
            assert(self.timers@.contains_key(id));
            let op = self.timers@[id].operation_id.value;
            assert(self@.live.contains_key(op));
        }
        if self.control is Some {
            assert(self@.live.contains_key(self.control->0.operation_id.value));
        }
    }

    /// Fences a reservation during close and for a live operation.
    fn ensure_reservation_allowed(&self, operation_id: OperationId) -> (r: Option<ReserveError>)
        ensures
            r == self@.fence(operation_id),
    {
        if self.closing {
            return Some(ReserveError::Closing);
        }
        if self.operations.contains_key(&operation_id.value) {
            return Some(ReserveError::DuplicateOperation { operation_id });
        }
        None
    }

    /// Returns whether any live operation or tombstone holds `system_bytes`.
    pub fn is_system_bytes_occupied(&self, system_bytes: SystemBytes) -> (r: bool)
        requires
            self.wf(),
        ensures
            r == self@.is_occupied(system_bytes.value),
    {
        proof {
            self.lemma_occupied(system_bytes.value);
        }
        let held_by_control = match self.control {
            Some(entry) => entry.system_bytes.value == system_bytes.value,
            None => false,
        };
        self.requests.contains_key(&system_bytes.value) || self.one_way.contains_key(
            &system_bytes.value,
        ) || held_by_control || self.tombstones.contains_key(&system_bytes.value)
    }

    /// Finds the first free System Bytes at or after the cursor.
    fn find_available_system_bytes(&self) -> (r: Result<SystemBytes, ReserveError>)
        requires
            self.wf(),
        ensures
            self@.occupied_count() >= allocator::SYSTEM_BYTES_SPACE ==> r == Err::<SystemBytes, _>(
                ReserveError::SystemBytesExhausted,
            ),
            self@.occupied_count() < allocator::SYSTEM_BYTES_SPACE ==> r is Ok && self@.first_free(
                r->Ok_0.value,
            ) && !self@.is_occupied(r->Ok_0.value) && r->Ok_0.value != 0,
    {
        let control: usize = if self.control.is_some() {
            1
        } else {
            0
        };
        let occupied_count: usize = self.requests.len().saturating_add(
            self.one_way.len(),
        ).saturating_add(control).saturating_add(self.tombstone_order.len());
        proof {
            assert(self@.live.dom() =~= self.operations@.dom());
            assert(usize::MAX >= 0xFFFF_FFFF);
            assert(occupied_count == if self@.occupied_count() <= usize::MAX {
                self@.occupied_count()
            } else {
                usize::MAX as nat
            });
        }
        let is_occupied = |candidate: SystemBytes| -> (occupied: bool)
            ensures
                occupied == self@.is_occupied(candidate.value),
            { self.is_system_bytes_occupied(candidate) };
        match self.allocator.find_available(occupied_count as u64, is_occupied) {
            Ok(system_bytes) => {
                proof {
                    let cursor = self@.cursor;
                    let steps = choose|steps: int|
                        {
                            &&& 0 <= steps <= occupied_count
                            &&& system_bytes.value == #[trigger] allocator::candidate_after(
                                cursor,
                                steps,
                            )
                            &&& call_ensures(is_occupied, (system_bytes,), false)
                            &&& forall|earlier: int|
                                0 <= earlier < steps ==> call_ensures(
                                    is_occupied,
                                    (SystemBytes {
                                        value: #[trigger] allocator::candidate_after(
                                            cursor,
                                            earlier,
                                        ),
                                    },),
                                    true,
                                )
                        };
                    assert(self@.first_free_at(steps));
                }
                Ok(system_bytes)
            },
            Err(AllocationError::Exhausted) => Err(ReserveError::SystemBytesExhausted),
            Err(AllocationError::InconsistentOccupancy) => {
                proof {
                    let occupied = self.lemma_occupancy();
                    assert forall|steps: int| 0 <= steps <= occupied_count implies occupied.contains(
                        #[trigger] allocator::candidate_after(self@.cursor, steps),
                    ) by {
                        let candidate = SystemBytes {
                            value: allocator::candidate_after(self@.cursor, steps),
                        };
                        assert(call_ensures(is_occupied, (candidate,), true));
                    }
                    allocator::law_discovery_bound(
                        self@.cursor,
                        occupied,
                        occupied_count as nat,
                    );
                }
                Err(ReserveError::OccupancyInvariantViolation)
            },
        }
    }

    /// Reserves System Bytes and a response contract for one W=1 request.
    ///
    /// A refused reservation leaves the registry unchanged.
    pub fn reserve_request(
        &mut self,
        operation_id: OperationId,
        session_id: SessionId,
        stream: Stream,
        function: Function,
    ) -> (r: Result<ReservedRequest, ReserveError>)
        requires
            old(self).wf(),
        ensures
            final(self).wf(),
            final(self).spec_generation() == old(self).spec_generation(),
            match old(self)@.request_rejection(operation_id, function) {
                Some(error) => r == Err::<ReservedRequest, _>(error) && final(self)@ == old(self)@,
                None => {
                    &&& r is Ok
                    &&& r->Ok_0.operation_id == operation_id
                    &&& old(self)@.first_free(r->Ok_0.system_bytes.value)
                    &&& final(self)@ == old(self)@.reserved(
                        operation_id.value,
                        model::fresh_request(r->Ok_0.system_bytes, session_id, stream, function),
                    )
                },
            },
    {
        if let Some(error) = self.ensure_reservation_allowed(operation_id) {
            return Err(error);
        }
        if self.requests.len() >= self.request_capacity {
            return Err(
                ReserveError::RequestCapacityExhausted { capacity: self.request_capacity },
            );
        }
        let system_bytes = match self.find_available_system_bytes() {
            Ok(system_bytes) => system_bytes,
            Err(error) => {
                return Err(error);
            },
        };
        let matcher = match ResponseMatcher::compile(system_bytes, session_id, stream, function) {
            Ok(matcher) => matcher,
            Err(MatcherBuildError::InvalidPrimaryFunction { function: rejected }) => {
                return Err(ReserveError::InvalidPrimaryFunction { function: rejected });
            },
        };
        let ghost before = *self;
        let entry = RequestEntry {
            operation_id,
            matcher,
            visibility: OperationVisibility::NotVisible,
            timer: None,
        };
        proof {
            self.lemma_occupied(system_bytes.value);
        }
        self.requests.insert(system_bytes.value, entry);
        self.operations.insert(operation_id.value, OperationLocator::Request(system_bytes));
        self.allocator.commit(system_bytes);
        proof {
            let live = model::fresh_request(system_bytes, session_id, stream, function);
            let expected = before@.reserved(operation_id.value, live);
            assert forall|op: u64| #[trigger] expected.live.contains_key(op) implies self@.live[op]
                == expected.live[op] by {
                assert(op == operation_id.value || before.operations@.contains_key(op));
            }
            assert(self@.live =~= expected.live);
            assert(self@.tombstones =~= expected.tombstones);
            assert(model::requests_of(self@.live) =~= model::requests_of(before@.live).insert(
                operation_id.value,
            ));
            assert(before@.live.dom() =~= before.operations@.dom());
        }
        Ok(ReservedRequest { operation_id, system_bytes })
    }

    /// Reserves System Bytes for an operation that awaits no response.
    ///
    /// A refused reservation leaves the registry unchanged.
    pub fn reserve_one_way(&mut self, operation_id: OperationId, kind: OneWayKind) -> (r: Result<
        ReservedOneWay,
        ReserveError,
    >)
        requires
            old(self).wf(),
        ensures
            final(self).wf(),
            final(self).spec_generation() == old(self).spec_generation(),
            match old(self)@.one_way_rejection(operation_id) {
                Some(error) => r == Err::<ReservedOneWay, _>(error) && final(self)@ == old(self)@,
                None => {
                    &&& r is Ok
                    &&& r->Ok_0.operation_id == operation_id
                    &&& r->Ok_0.kind == kind
                    &&& old(self)@.first_free(r->Ok_0.system_bytes.value)
                    &&& final(self)@ == old(self)@.reserved(
                        operation_id.value,
                        model::fresh_unmatched(r->Ok_0.system_bytes, OperationClass::OneWay(kind)),
                    )
                },
            },
    {
        if let Some(error) = self.ensure_reservation_allowed(operation_id) {
            return Err(error);
        }
        let system_bytes = match self.find_available_system_bytes() {
            Ok(system_bytes) => system_bytes,
            Err(error) => {
                return Err(error);
            },
        };
        let ghost before = *self;
        proof {
            self.lemma_occupied(system_bytes.value);
        }
        self.one_way.insert(
            system_bytes.value,
            OneWayEntry { operation_id, kind, visibility: OperationVisibility::NotVisible },
        );
        self.operations.insert(operation_id.value, OperationLocator::OneWay(system_bytes, kind));
        self.allocator.commit(system_bytes);
        proof {
            let live = model::fresh_unmatched(system_bytes, OperationClass::OneWay(kind));
            let expected = before@.reserved(operation_id.value, live);
            assert forall|op: u64| #[trigger] expected.live.contains_key(op) implies self@.live[op]
                == expected.live[op] by {
                assert(op == operation_id.value || before.operations@.contains_key(op));
            }
            assert(self@.live =~= expected.live);
            assert(self@.tombstones =~= expected.tombstones);
            assert(model::requests_of(self@.live) =~= model::requests_of(before@.live));
        }
        Ok(ReservedOneWay { operation_id, system_bytes, kind })
    }

    /// Reserves System Bytes and the single control slot.
    ///
    /// A refused reservation leaves the registry unchanged.
    pub fn reserve_control(&mut self, operation_id: OperationId, kind: ControlKind) -> (r: Result<
        ReservedControl,
        ReserveError,
    >)
        requires
            old(self).wf(),
        ensures
            final(self).wf(),
            final(self).spec_generation() == old(self).spec_generation(),
            match old(self)@.control_rejection(operation_id) {
                Some(error) => r == Err::<ReservedControl, _>(error) && final(self)@ == old(self)@,
                None => {
                    &&& r is Ok
                    &&& r->Ok_0.operation_id == operation_id
                    &&& r->Ok_0.kind == kind
                    &&& old(self)@.first_free(r->Ok_0.system_bytes.value)
                    &&& final(self)@ == old(self)@.reserved(
                        operation_id.value,
                        model::fresh_unmatched(r->Ok_0.system_bytes, OperationClass::Control(kind)),
                    )
                },
            },
    {
        if let Some(error) = self.ensure_reservation_allowed(operation_id) {
            return Err(error);
        }
        proof {
            self.lemma_control();
        }
        if let Some(pending) = self.control {
            return Err(ReserveError::ControlSlotOccupied { pending: pending.kind });
        }
        let system_bytes = match self.find_available_system_bytes() {
            Ok(system_bytes) => system_bytes,
            Err(error) => {
                return Err(error);
            },
        };
        let ghost before = *self;
        proof {
            self.lemma_occupied(system_bytes.value);
        }
        self.control = Some(
            ControlEntry {
                operation_id,
                system_bytes,
                kind,
                visibility: OperationVisibility::NotVisible,
                timer: None,
            },
        );
        self.operations.insert(operation_id.value, OperationLocator::Control(system_bytes, kind));
        self.allocator.commit(system_bytes);
        proof {
            let live = model::fresh_unmatched(system_bytes, OperationClass::Control(kind));
            let expected = before@.reserved(operation_id.value, live);
            assert forall|op: u64| #[trigger] expected.live.contains_key(op) implies self@.live[op]
                == expected.live[op] by {
                assert(op == operation_id.value || before.operations@.contains_key(op));
            }
            assert(self@.live =~= expected.live);
            assert(self@.tombstones =~= expected.tombstones);
            assert(model::requests_of(self@.live) =~= model::requests_of(before@.live));
        }
        Ok(ReservedControl { operation_id, system_bytes, kind })
    }

    /// Finds the store and the record of a live operation.
    fn live_operation(&self, operation_id: OperationId) -> (r: Option<
        (OperationLocator, LiveOperation),
    >)
        requires
            self.wf(),
        ensures
            r is Some <==> self@.live.contains_key(operation_id.value),
            r is Some ==> {
                &&& self.operations@.contains_key(operation_id.value)
                &&& r == Some(
                    (self.operations@[operation_id.value], self@.live[operation_id.value]),
                )
            },
    {
        let locator = match self.operations.get(&operation_id.value) {
            Some(locator) => *locator,
            None => {
                return None;
            },
        };
        assert(self.operations@.contains_key(operation_id.value));
        match locator {
            OperationLocator::Request(system_bytes) => {
                match self.requests.get(&system_bytes.value) {
                    Some(entry) => Some(
                        (
                            locator,
                            LiveOperation {
                                system_bytes,
                                class: OperationClass::Request,
                                visibility: entry.visibility,
                                timer: entry.timer,
                                matcher: Some(entry.matcher),
                            },
                        ),
                    ),
                    None => None,
                }
            },
            OperationLocator::OneWay(system_bytes, kind) => {
                match self.one_way.get(&system_bytes.value) {
                    Some(entry) => Some(
                        (
                            locator,
                            LiveOperation {
                                system_bytes,
                                class: OperationClass::OneWay(kind),
                                visibility: entry.visibility,
                                timer: None,
                                matcher: None,
                            },
                        ),
                    ),
                    None => None,
                }
            },
            OperationLocator::Control(system_bytes, kind) => {
                match self.control {
                    Some(entry) => Some(
                        (
                            locator,
                            LiveOperation {
                                system_bytes,
                                class: OperationClass::Control(kind),
                                visibility: entry.visibility,
                                timer: entry.timer,
                                matcher: None,
                            },
                        ),
                    ),
                    None => None,
                }
            },
        }
    }

    /// Finds the category of the oldest retained tombstone of an operation.
    fn terminal_category_for_operation(&self, operation_id: OperationId) -> (r: Option<
        TombstoneCategory,
    >)
        requires
            self.wf(),
        ensures
            r == self@.terminal_category(operation_id.value),
    {
        let ghost all = self@.tombstones;
        assert(all.skip(0) =~= all);
        let mut i: usize = 0;
        while i < self.tombstone_order.len()
            invariant
                self.wf(),
                i <= self.tombstone_order@.len(),
                all == self@.tombstones,
                all.len() == self.tombstone_order@.len(),
                model::oldest_category(all, operation_id.value) == model::oldest_category(
                    all.skip(i as int),
                    operation_id.value,
                ),
            decreases self.tombstone_order@.len() - i,
        {
            let system_bytes: u32 = self.tombstone_order[i];
            proof {
                assert(self.tombstone_order@.contains(self.tombstone_order@[i as int]));
                assert(self.tombstones@.contains_key(system_bytes));
                assert(all[i as int] == self.tombstones@[system_bytes]);
                assert(all.skip(i as int)[0] == all[i as int]);
                assert(all.skip(i as int).drop_first() =~= all.skip(i + 1));
            }
            if let Some(tombstone) = self.tombstones.get(&system_bytes) {
                if tombstone.operation_id.value == operation_id.value {
                    return Some(tombstone.category);
                }
            }
            i = i + 1;
        }
        None
    }

    /// Records that the frame of a live operation may have become visible.
    pub fn mark_visible(&mut self, operation_id: OperationId) -> (r: MarkVisibleDecision)
        requires
            old(self).wf(),
        ensures
            final(self).wf(),
            final(self).spec_generation() == old(self).spec_generation(),
            r == old(self)@.visible_decision(operation_id.value),
            final(self)@ == old(self)@.after_visible(operation_id.value),
    {
        let (locator, live) = match self.live_operation(operation_id) {
            Some(found) => found,
            None => {
                return match self.terminal_category_for_operation(operation_id) {
                    Some(category) => MarkVisibleDecision::AlreadyTerminal { category },
                    None => MarkVisibleDecision::UnknownOperation,
                };
            },
        };
        if live.visibility != OperationVisibility::NotVisible {
            return MarkVisibleDecision::Unchanged {
                class: live.class,
                visibility: live.visibility,
            };
        }
        self.set_progress(operation_id, locator, OperationVisibility::MayBeVisible, None);
        MarkVisibleDecision::Marked { class: live.class }
    }

    /// Records visibility and timer of a live operation that owns no timer yet.
    fn set_progress(
        &mut self,
        operation_id: OperationId,
        locator: OperationLocator,
        visibility: OperationVisibility,
        timer: Option<TimerToken>,
    )
        requires
            old(self).wf(),
            old(self).operations@.contains_key(operation_id.value),
            locator == old(self).operations@[operation_id.value],
            old(self)@.live[operation_id.value].timer is None,
            timer is None <==> visibility != OperationVisibility::Committed,
            timer is Some ==> {
                &&& model::timer_kind_of(old(self)@.live[operation_id.value].class) == Some(
                    timer->0.kind,
                )
                &&& timer->0.kind == TimeoutKind::T3 ==> !old(self).timers@.contains_key(
                    timer->0.id.value,
                )
            },
        ensures
            final(self).wf(),
            final(self).spec_generation() == old(self).spec_generation(),
            final(self)@ == old(self)@.updated(
                operation_id.value,
                LiveOperation { visibility, timer, ..old(self)@.live[operation_id.value] },
            ),
    {
        let ghost before = *self;
        match locator {
            OperationLocator::Request(system_bytes) => {
                if let Some(found) = self.requests.get(&system_bytes.value) {
                    let entry = *found;
                    self.requests.insert(
                        system_bytes.value,
                        RequestEntry {
                            operation_id: entry.operation_id,
                            matcher: entry.matcher,
                            visibility,
                            timer,
                        },
                    );
                    if let Some(token) = timer {
                        self.timers.insert(
                            token.id.value,
                            TimerOwner { operation_id, system_bytes },
                        );
                    }
                }
                assert(self.requests@.dom() =~= before.requests@.dom());
            },
            OperationLocator::OneWay(system_bytes, _) => {
                if let Some(found) = self.one_way.get(&system_bytes.value) {
                    let entry = *found;
                    self.one_way.insert(
                        system_bytes.value,
                        OneWayEntry {
                            operation_id: entry.operation_id,
                            kind: entry.kind,
                            visibility,
                        },
                    );
                }
                assert(self.one_way@.dom() =~= before.one_way@.dom());
            },
            OperationLocator::Control(_, _) => {
                if let Some(entry) = self.control {
                    self.control = Some(
                        ControlEntry {
                            operation_id: entry.operation_id,
                            system_bytes: entry.system_bytes,
                            kind: entry.kind,
                            visibility,
                            timer,
                        },
                    );
                }
            },
        }
        proof {
            let live = LiveOperation { visibility, timer, ..before@.live[operation_id.value] };
            let expected = before@.updated(operation_id.value, live);
            assert forall|op: u64| #[trigger] expected.live.contains_key(op) implies self@.live[op]
                == expected.live[op] by {
                assert(before.operations@.contains_key(op));
            }
            assert(self@.live =~= expected.live);
            assert(self@.tombstones =~= expected.tombstones);
            assert(model::requests_of(self@.live) =~= model::requests_of(before@.live));
        }
    }

    /// A T3 token is indexed exactly when a live operation owns it.
    proof fn lemma_t3(&self, token: TimerToken)
        requires
            self.wf(),
            token.kind == TimeoutKind::T3,
        ensures
            self.timers@.contains_key(token.id.value) <==> self@.timer_owner(token) is Some,
            self.timers@.contains_key(token.id.value) ==> self@.owns_timer(
                self.timers@[token.id.value].operation_id.value,
                token,
            ) && self@.timer_owner(token) == Some(
                self.timers@[token.id.value].operation_id.value,
            ),
    {
        self.lemma_valid();
        if self.timers@.contains_key(token.id.value) {
            let owner = self.timers@[token.id.value];
            assert(self.requests@.contains_key(owner.system_bytes.value));
            assert(self.operations@.contains_key(owner.operation_id.value));
            assert(self@.owns_timer(owner.operation_id.value, token));
            model::lemma_timer_owner(self@, owner.operation_id.value, token);
        }
        if exists|op: u64| self@.owns_timer(op, token) {
            let op = choose|op: u64| self@.owns_timer(op, token);
            assert(self.operations@.contains_key(op));
        }
    }

    /// A T6 token has an owner exactly when the control slot owns it.
    proof fn lemma_t6(&self, token: TimerToken)
        requires
            self.wf(),
            token.kind == TimeoutKind::T6,
        ensures
            self@.timer_owner(token) is Some <==> self.control is Some && self.control->0.timer
                == Some(token),
            self@.timer_owner(token) is Some ==> self@.timer_owner(token) == Some(
                self.control->0.operation_id.value,
            ) && self@.owns_timer(self.control->0.operation_id.value, token),
    {
        self.lemma_valid();
        if self.control is Some && self.control->0.timer == Some(token) {
            let op = self.control->0.operation_id.value;
            assert(self.operations@.contains_key(op));
            assert(self@.owns_timer(op, token));
            model::lemma_timer_owner(self@, op, token);
        }
        if exists|op: u64| self@.owns_timer(op, token) {
            let op = choose|op: u64| self@.owns_timer(op, token);
            assert(self.operations@.contains_key(op));
            model::lemma_timer_owner(self@, op, token);
        }
    }

    /// Records a committed request or control frame and its response timer.
    pub fn mark_committed(&mut self, operation_id: OperationId, token: TimerToken) -> (r:
        CommitDecision)
        requires
            old(self).wf(),
        ensures
            final(self).wf(),
            final(self).spec_generation() == old(self).spec_generation(),
            r == old(self)@.commit_decision(operation_id.value, token),
            final(self)@ == old(self)@.after_commit(operation_id.value, token),
    {
        let (locator, live) = match self.live_operation(operation_id) {
            Some(found) => found,
            None => {
                return match self.terminal_category_for_operation(operation_id) {
                    Some(category) => CommitDecision::AlreadyTerminal { category },
                    None => CommitDecision::UnknownOperation,
                };
            },
        };
        let expected = match locator {
            OperationLocator::Request(_) => TimeoutKind::T3,
            OperationLocator::Control(_, _) => TimeoutKind::T6,
            OperationLocator::OneWay(_, _) => {
                return CommitDecision::WrongOperationKind { actual: live.class };
            },
        };
        if let Some(existing) = live.timer {
            return CommitDecision::AlreadyCommitted { token: existing };
        }
        if token.kind() != expected {
            return CommitDecision::WrongTimerKind { expected, actual: token.kind() };
        }
        proof {
            if token.kind == TimeoutKind::T3 {
                self.lemma_t3(token);
            } else {
                self.lemma_t6(token);
            }
        }
        if expected == TimeoutKind::T3 && self.timers.contains_key(&token.id.value) {
            return CommitDecision::TimerTokenInUse { token };
        }
        self.set_progress(operation_id, locator, OperationVisibility::Committed, Some(token));
        CommitDecision::ArmTimer {
            operation_id,
            system_bytes: live.system_bytes,
            class: live.class,
            token,
        }
    }

    /// Removes a live operation from its store and every index.
    fn remove_live_operation(&mut self, operation_id: OperationId) -> (r: Option<LiveOperation>)
        requires
            old(self).wf(),
        ensures
            final(self).wf(),
            final(self).spec_generation() == old(self).spec_generation(),
            r is Some <==> old(self)@.live.contains_key(operation_id.value),
            r is Some ==> r->0 == old(self)@.live[operation_id.value] && final(self)@ == old(
                self,
            )@.dropped(operation_id.value),
            r is None ==> final(self)@ == old(self)@,
    {
        let ghost before = *self;
        let (locator, live) = match self.live_operation(operation_id) {
            Some(found) => found,
            None => {
                return None;
            },
        };
        self.operations.remove(&operation_id.value);
        match locator {
            OperationLocator::Request(system_bytes) => {
                self.requests.remove(&system_bytes.value);
                if let Some(token) = live.timer {
                    self.timers.remove(&token.id.value);
                }
            },
            OperationLocator::OneWay(system_bytes, _) => {
                self.one_way.remove(&system_bytes.value);
            },
            OperationLocator::Control(_, _) => {
                self.control = None;
            },
        }
        proof {
            let expected = before@.dropped(operation_id.value);
            assert forall|op: u64| #[trigger] expected.live.contains_key(op) implies self@.live[op]
                == expected.live[op] by {
                assert(before.operations@.contains_key(op));
                assert(before.operations@.contains_key(operation_id.value));
            }
            assert(self@.live =~= expected.live);
            assert(self@.tombstones =~= expected.tombstones);
            assert(model::requests_of(self@.live) =~= model::requests_of(before@.live).remove(
                operation_id.value,
            ));
            assert(before@.live.dom() =~= before.operations@.dom());
            assert(self.timers_indexed()) by {
                assert forall|id: u64| #[trigger] self.timers@.contains_key(id) implies {
                    let owner = self.timers@[id];
                    &&& self.requests@.contains_key(owner.system_bytes.value)
                    &&& self.requests@[owner.system_bytes.value].operation_id == owner.operation_id
                    &&& self.requests@[owner.system_bytes.value].timer == Some(
                        TimerToken { id: TimerId { value: id }, kind: TimeoutKind::T3 },
                    )
                } by {
                    assert(before.timers@.contains_key(id));
                }
            }
        }
        Some(live)
    }

    /// Appends the tombstone of an ended operation, dropping the oldest one when
    /// the FIFO is full.
    fn insert_tombstone(
        &mut self,
        operation_id: OperationId,
        live: LiveOperation,
        category: TombstoneCategory,
    )
        requires
            old(self).wf(),
            !old(self)@.is_occupied(live.system_bytes.value),
            live.system_bytes.value != 0,
            live.class == OperationClass::Request ==> live.matcher is Some,
        ensures
            final(self).wf(),
            final(self).spec_generation() == old(self).spec_generation(),
            final(self)@ == (RegistryView {
                tombstones: model::push_bounded(
                    old(self)@.tombstones,
                    model::tombstone_of(operation_id.value, live, category),
                    old(self)@.tombstone_capacity,
                ),
                ..old(self)@
            }),
    {
        let ghost before = *self;
        proof {
            self.lemma_occupied(live.system_bytes.value);
        }
        let subject = match live.class {
            OperationClass::Request => match live.matcher {
                Some(matcher) => TombstoneSubject::Request(matcher),
                None => {
                    return;
                },
            },
            OperationClass::OneWay(kind) => TombstoneSubject::OneWay(kind),
            OperationClass::Control(kind) => TombstoneSubject::Control(kind),
        };
        if self.tombstone_order.len() == self.tombstone_capacity {
            if let Some(evicted) = self.tombstone_order.pop_front() {
                self.tombstones.remove(&evicted);
            }
            proof {
                assert(before.tombstone_order@.contains(before.tombstone_order@[0]));
                assert(self.tombstone_order@ =~= before.tombstone_order@.drop_first());
                assert forall|sb: u32| #[trigger]
                    self.tombstones@.contains_key(sb) <==> self.tombstone_order@.contains(sb) by {
                    if self.tombstone_order@.contains(sb) {
                        let i = choose|i: int|
                            0 <= i < self.tombstone_order@.len() && self.tombstone_order@[i] == sb;
                        assert(before.tombstone_order@[i + 1] == sb);
                        assert(before.tombstone_order@.contains(sb));
                    }
                    if self.tombstones@.contains_key(sb) {
                        assert(before.tombstones@.contains_key(sb));
                        let i = choose|i: int|
                            0 <= i < before.tombstone_order@.len() && before.tombstone_order@[i]
                                == sb;
                        assert(i != 0);
                        assert(self.tombstone_order@[i - 1] == sb);
                    }
                }
            }
        }
        let ghost middle = *self;
        self.tombstone_order.push_back(live.system_bytes.value);
        self.tombstones.insert(
            live.system_bytes.value,
            Tombstone { operation_id, system_bytes: live.system_bytes, subject, category },
        );
        proof {
            let order = self.tombstone_order@;
            assert(order =~= middle.tombstone_order@.push(live.system_bytes.value));
            assert forall|sb: u32| #[trigger]
                self.tombstones@.contains_key(sb) <==> order.contains(sb) by {
                if order.contains(sb) {
                    let i = choose|i: int| 0 <= i < order.len() && order[i] == sb;
                    if i < middle.tombstone_order@.len() {
                        assert(middle.tombstone_order@[i] == sb);
                        assert(middle.tombstone_order@.contains(sb));
                        assert(middle.tombstones@.contains_key(sb));
                    }
                }
                if self.tombstones@.contains_key(sb) {
                    if sb == live.system_bytes.value {
                        assert(order[order.len() - 1] == sb);
                    } else {
                        assert(middle.tombstones@.contains_key(sb));
                        let i = choose|i: int|
                            0 <= i < middle.tombstone_order@.len() && middle.tombstone_order@[i]
                                == sb;
                        assert(order[i] == sb);
                    }
                }
            }
            assert(!middle.tombstones@.contains_key(live.system_bytes.value));
            assert(!middle.tombstone_order@.contains(live.system_bytes.value));
            let expected = model::push_bounded(
                before@.tombstones,
                model::tombstone_of(operation_id.value, live, category),
                before@.tombstone_capacity,
            );
            assert forall|i: int| 0 <= i < before.tombstone_order@.len() implies {
                &&& before.tombstones@.contains_key(before.tombstone_order@[i])
                &&& before@.tombstones[i] == before.tombstones@[before.tombstone_order@[i]]
            } by {
                assert(before.tombstone_order@.contains(before.tombstone_order@[i]));
            }
            assert(self@.tombstones.len() == expected.len());
            assert forall|i: int| 0 <= i < expected.len() implies self@.tombstones[i]
                == expected[i] by {
                if i < middle.tombstone_order@.len() {
                    assert(middle.tombstone_order@.contains(middle.tombstone_order@[i]));
                    assert(order[i] == middle.tombstone_order@[i]);
                    assert(order[i] != live.system_bytes.value);
                }
            }
            assert(self@.tombstones =~= expected);
            assert(self@.live =~= before@.live);
        }
    }

    /// Ends a live operation and leaves its tombstone as `live` describes it.
    fn bury(
        &mut self,
        operation_id: OperationId,
        live: LiveOperation,
        category: TombstoneCategory,
    )
        requires
            old(self).wf(),
            old(self)@.live.contains_key(operation_id.value),
            live == (LiveOperation {
                visibility: live.visibility,
                ..old(self)@.live[operation_id.value]
            }),
        ensures
            final(self).wf(),
            final(self).spec_generation() == old(self).spec_generation(),
            final(self)@ == old(self)@.buried_as(operation_id.value, live, category),
    {
        proof {
            self.lemma_valid();
            model::lemma_dropped_is_free(self@, operation_id.value);
        }
        self.remove_live_operation(operation_id);
        self.insert_tombstone(operation_id, live, category);
    }

    /// Decision for finishing an operation that is not live.
    fn finished_absent_decision(&self, operation_id: OperationId) -> (r: FinishDecision)
        requires
            self.wf(),
        ensures
            r == self@.absent_decision(operation_id.value),
    {
        match self.terminal_category_for_operation(operation_id) {
            Some(category) => FinishDecision::AlreadyTerminal { category },
            None => FinishDecision::UnknownOperation,
        }
    }

    /// Decision for an operation that ended in `live`.
    fn finish_decision(
        operation_id: OperationId,
        live: LiveOperation,
        tombstone: Option<TombstoneCategory>,
    ) -> (r: FinishDecision)
        ensures
            r == model::finished(operation_id.value, live, tombstone),
    {
        FinishDecision::Finished {
            operation_id,
            system_bytes: live.system_bytes,
            class: live.class,
            visibility: live.visibility,
            cancel_timer: live.timer,
            tombstone,
        }
    }

    /// Ends an operation whose frame was not written. A tombstone remains only
    /// when the frame may have been visible.
    pub fn finish_not_written(&mut self, operation_id: OperationId) -> (r: FinishDecision)
        requires
            old(self).wf(),
        ensures
            final(self).wf(),
            final(self).spec_generation() == old(self).spec_generation(),
            r == old(self)@.not_written_decision(operation_id.value),
            final(self)@ == old(self)@.after_not_written(operation_id.value),
    {
        let live = match self.live_operation(operation_id) {
            Some((_, live)) => live,
            None => {
                return self.finished_absent_decision(operation_id);
            },
        };
        if live.visibility.needs_tombstone() {
            let category = TombstoneCategory::NotWrittenAfterVisibility;
            self.bury(operation_id, live, category);
            Self::finish_decision(operation_id, live, Some(category))
        } else {
            self.remove_live_operation(operation_id);
            Self::finish_decision(operation_id, live, None)
        }
    }

    /// Ends an operation whose delivery is unknown; its frame may be visible.
    pub fn finish_indeterminate(&mut self, operation_id: OperationId) -> (r: FinishDecision)
        requires
            old(self).wf(),
        ensures
            final(self).wf(),
            final(self).spec_generation() == old(self).spec_generation(),
            r == old(self)@.indeterminate_decision(operation_id.value),
            final(self)@ == old(self)@.after_indeterminate(operation_id.value),
    {
        let mut live = match self.live_operation(operation_id) {
            Some((_, live)) => live,
            None => {
                return self.finished_absent_decision(operation_id);
            },
        };
        if live.visibility == OperationVisibility::NotVisible {
            live.visibility = OperationVisibility::MayBeVisible;
        }
        let category = TombstoneCategory::DeliveryIndeterminate;
        self.bury(operation_id, live, category);
        Self::finish_decision(operation_id, live, Some(category))
    }

    /// Ends a one-way operation whose frame was committed.
    pub fn finish_one_way(&mut self, operation_id: OperationId) -> (r: FinishDecision)
        requires
            old(self).wf(),
        ensures
            final(self).wf(),
            final(self).spec_generation() == old(self).spec_generation(),
            r == old(self)@.one_way_decision(operation_id.value),
            final(self)@ == old(self)@.after_one_way(operation_id.value),
    {
        let mut live = match self.live_operation(operation_id) {
            Some((_, live)) => live,
            None => {
                return self.finished_absent_decision(operation_id);
            },
        };
        if !matches!(live.class, OperationClass::OneWay(_)) {
            return FinishDecision::WrongOperationKind { actual: live.class };
        }
        live.visibility = OperationVisibility::Committed;
        let category = TombstoneCategory::OneWayCommitted;
        self.bury(operation_id, live, category);
        Self::finish_decision(operation_id, live, Some(category))
    }

    /// A stored request is the live owner of its System Bytes.
    proof fn lemma_request_owner(&self, sb: u32)
        requires
            self.wf(),
            self.requests@.contains_key(sb),
        ensures
            self@.live.contains_key(self.requests@[sb].operation_id.value),
            self@.owner(sb) == Some(self.requests@[sb].operation_id.value),
            self@.live[self.requests@[sb].operation_id.value] == (LiveOperation {
                system_bytes: SystemBytes { value: sb },
                class: OperationClass::Request,
                visibility: self.requests@[sb].visibility,
                timer: self.requests@[sb].timer,
                matcher: Some(self.requests@[sb].matcher),
            }),
    {
        self.lemma_valid();
        let op = self.requests@[sb].operation_id.value;
        assert(self.operations@.contains_key(op));
        model::lemma_owner(self@, op);
    }

    /// A stored one-way operation is the live owner of its System Bytes.
    proof fn lemma_one_way_owner(&self, sb: u32)
        requires
            self.wf(),
            self.one_way@.contains_key(sb),
        ensures
            self@.live.contains_key(self.one_way@[sb].operation_id.value),
            self@.owner(sb) == Some(self.one_way@[sb].operation_id.value),
            self@.live[self.one_way@[sb].operation_id.value].class == OperationClass::OneWay(
                self.one_way@[sb].kind,
            ),
    {
        self.lemma_valid();
        let op = self.one_way@[sb].operation_id.value;
        assert(self.operations@.contains_key(op));
        model::lemma_owner(self@, op);
    }

    /// The control entry is the live owner of its System Bytes.
    proof fn lemma_control_entry(&self)
        requires
            self.wf(),
            self.control is Some,
        ensures
            self@.live.contains_key(self.control->0.operation_id.value),
            self@.owner(self.control->0.system_bytes.value) == Some(
                self.control->0.operation_id.value,
            ),
            self@.control_owner() == Some(self.control->0.operation_id.value),
            self@.live[self.control->0.operation_id.value] == (LiveOperation {
                system_bytes: self.control->0.system_bytes,
                class: OperationClass::Control(self.control->0.kind),
                visibility: self.control->0.visibility,
                timer: self.control->0.timer,
                matcher: None,
            }),
    {
        self.lemma_valid();
        self.lemma_control();
        let op = self.control->0.operation_id.value;
        assert(self.operations@.contains_key(op));
        model::lemma_owner(self@, op);
    }

    /// System Bytes outside every live store have no live owner.
    proof fn lemma_no_owner(&self, sb: u32)
        requires
            self.wf(),
            !self.requests@.contains_key(sb),
            !self.one_way@.contains_key(sb),
            !self.control_holds(sb),
        ensures
            self@.owner(sb) is None,
    {
        if exists|op: u64| model::owns(self@.live, op, sb) {
            let op = choose|op: u64| model::owns(self@.live, op, sb);
            assert(self.operations@.contains_key(op));
        }
    }

    /// The tombstone index agrees with the FIFO of the model.
    proof fn lemma_tombstone(&self, sb: u32)
        requires
            self.wf(),
        ensures
            self@.buried(sb) is Some <==> self.tombstones@.contains_key(sb),
            self.tombstones@.contains_key(sb) ==> self@.buried(sb) == Some(self.tombstones@[sb]),
    {
        self.lemma_valid();
        if self.tombstones@.contains_key(sb) {
            assert(self.tombstone_order@.contains(sb));
            let i = choose|i: int|
                0 <= i < self.tombstone_order@.len() && self.tombstone_order@[i] == sb;
            assert(self@.tombstones[i] == self.tombstones@[sb]);
            model::lemma_buried(self@, i);
        }
        if exists|i: int| model::buries(self@.tombstones, i, sb) {
            let i = choose|i: int| model::buries(self@.tombstones, i, sb);
            assert(self.tombstone_order@.contains(self.tombstone_order@[i]));
            assert(self.tombstones@.contains_key(self.tombstone_order@[i]));
            assert(self@.tombstones[i] == self.tombstones@[self.tombstone_order@[i]]);
        }
    }

    /// Relates a matching Data message to the end of its request.
    fn data_tombstone_arrival(category: TombstoneCategory, matched: MatcherDecision) -> (r:
        TombstoneArrival)
        ensures
            r == model::data_arrival(category, matched),
    {
        match (category, matched) {
            (TombstoneCategory::ResponseMatched, MatcherDecision::Secondary) => {
                TombstoneArrival::Duplicate
            },
            (TombstoneCategory::AbortReceived, MatcherDecision::Abort) => {
                TombstoneArrival::Duplicate
            },
            _ => TombstoneArrival::Late,
        }
    }

    /// Classifies a Data message whose System Bytes are buried.
    fn buried_decision(tombstone: Tombstone, message: DataMessage) -> (r: InboundDataDecision)
        ensures
            r == model::buried_decision(tombstone, message),
    {
        match tombstone.subject {
            TombstoneSubject::Request(matcher) => {
                let matched = matcher.classify(message.header(), message.body().is_some());
                match matched {
                    MatcherDecision::Secondary | MatcherDecision::Abort => {
                        InboundDataDecision::Tombstoned {
                            operation_id: tombstone.operation_id,
                            message,
                            category: tombstone.category,
                            arrival: Self::data_tombstone_arrival(tombstone.category, matched),
                        }
                    },
                    MatcherDecision::Mismatch { field } => InboundDataDecision::Mismatch {
                        message,
                        collision: CollisionSource::RequestTombstone {
                            category: tombstone.category,
                            field,
                        },
                    },
                }
            },
            _ => InboundDataDecision::Mismatch {
                message,
                collision: CollisionSource::Tombstone { category: tombstone.category },
            },
        }
    }

    /// Classifies one inbound Data message; an exact response or abort ends its
    /// request, everything else leaves the registry unchanged.
    pub fn classify_inbound(&mut self, message: DataMessage) -> (r: InboundDataDecision)
        requires
            old(self).wf(),
        ensures
            final(self).wf(),
            final(self).spec_generation() == old(self).spec_generation(),
            r == old(self)@.inbound_decision(message),
            final(self)@ == old(self)@.after_inbound(message),
    {
        let header = message.header();
        let has_message_text = message.body().is_some();
        if header.function().get() % 2 == 1 {
            return InboundDataDecision::PrimaryCandidate { message };
        }
        let system_bytes = header.system_bytes();
        if let Some(found) = self.requests.get(&system_bytes.value) {
            let request = *found;
            proof {
                self.lemma_request_owner(system_bytes.value);
            }
            let live = LiveOperation {
                system_bytes,
                class: OperationClass::Request,
                visibility: request.visibility,
                timer: request.timer,
                matcher: Some(request.matcher),
            };
            return match request.matcher.classify(header, has_message_text) {
                MatcherDecision::Secondary => {
                    self.bury(request.operation_id, live, TombstoneCategory::ResponseMatched);
                    InboundDataDecision::MatchedSecondary {
                        operation_id: request.operation_id,
                        message,
                        cancel_t3: request.timer,
                        visibility: request.visibility,
                    }
                },
                MatcherDecision::Abort => {
                    self.bury(request.operation_id, live, TombstoneCategory::AbortReceived);
                    InboundDataDecision::Aborted {
                        operation_id: request.operation_id,
                        message,
                        cancel_t3: request.timer,
                        visibility: request.visibility,
                    }
                },
                MatcherDecision::Mismatch { field } => InboundDataDecision::Mismatch {
                    message,
                    collision: CollisionSource::LiveRequest { field },
                },
            };
        }
        proof {
            self.lemma_tombstone(system_bytes.value);
        }
        if let Some(found) = self.tombstones.get(&system_bytes.value) {
            let tombstone = *found;
            proof {
                if self.one_way@.contains_key(system_bytes.value) {
                    self.lemma_one_way_owner(system_bytes.value);
                }
                self.lemma_no_owner(system_bytes.value);
            }
            return Self::buried_decision(tombstone, message);
        }
        if let Some(one_way) = self.one_way.get(&system_bytes.value) {
            proof {
                self.lemma_one_way_owner(system_bytes.value);
            }
            return InboundDataDecision::Mismatch {
                message,
                collision: CollisionSource::LiveOneWay { kind: one_way.kind },
            };
        }
        if let Some(control) = self.control {
            proof {
                self.lemma_control_entry();
            }
            if control.system_bytes.value == system_bytes.value {
                return InboundDataDecision::Mismatch {
                    message,
                    collision: CollisionSource::LiveControl { kind: control.kind },
                };
            }
        }
        proof {
            self.lemma_no_owner(system_bytes.value);
        }
        InboundDataDecision::OrphanSecondary { message }
    }

    /// Classifies one control response; the response of the live transaction
    /// ends it, everything else leaves the registry unchanged.
    pub fn take_control(&mut self, kind: ControlKind, system_bytes: SystemBytes) -> (r:
        ControlTakeDecision)
        requires
            old(self).wf(),
        ensures
            final(self).wf(),
            final(self).spec_generation() == old(self).spec_generation(),
            r == old(self)@.control_decision(kind, system_bytes),
            final(self)@ == old(self)@.after_control(kind, system_bytes),
    {
        proof {
            self.lemma_control();
            self.lemma_tombstone(system_bytes.value);
            if self.control is Some {
                self.lemma_control_entry();
            }
        }
        if let Some(control) = self.control {
            if control.kind == kind && control.system_bytes.value == system_bytes.value {
                let live = LiveOperation {
                    system_bytes: control.system_bytes,
                    class: OperationClass::Control(control.kind),
                    visibility: control.visibility,
                    timer: control.timer,
                    matcher: None,
                };
                self.bury(
                    control.operation_id,
                    live,
                    TombstoneCategory::ControlResponseMatched,
                );
                return ControlTakeDecision::Matched {
                    operation_id: control.operation_id,
                    system_bytes,
                    kind,
                    cancel_t6: control.timer,
                    visibility: control.visibility,
                };
            }
        }
        if let Some(tombstone) = self.tombstones.get(&system_bytes.value) {
            return match tombstone.subject {
                TombstoneSubject::Control(retained_kind) => if retained_kind == kind {
                    ControlTakeDecision::Tombstoned {
                        operation_id: tombstone.operation_id,
                        category: tombstone.category,
                        arrival: if tombstone.category
                            == TombstoneCategory::ControlResponseMatched {
                            TombstoneArrival::Duplicate
                        } else {
                            TombstoneArrival::Late
                        },
                    }
                } else {
                    ControlTakeDecision::Mismatch {
                        collision: ControlCollision::Tombstone {
                            kind: retained_kind,
                            category: tombstone.category,
                        },
                    }
                },
                TombstoneSubject::Request(_) | TombstoneSubject::OneWay(_) => {
                    ControlTakeDecision::Mismatch {
                        collision: ControlCollision::OtherTombstone {
                            category: tombstone.category,
                        },
                    }
                },
            };
        }
        if let Some(control) = self.control {
            return ControlTakeDecision::Mismatch {
                collision: ControlCollision::Live {
                    kind: control.kind,
                    system_bytes: control.system_bytes,
                },
            };
        }
        ControlTakeDecision::NoPending
    }

    /// Ends the request that owns an expired T3.
    pub fn expire_t3(&mut self, token: TimerToken) -> (r: ExpiryDecision)
        requires
            old(self).wf(),
        ensures
            final(self).wf(),
            final(self).spec_generation() == old(self).spec_generation(),
            r == old(self)@.expiry_decision(token, TimeoutKind::T3),
            final(self)@ == old(self)@.after_expiry(
                token,
                TimeoutKind::T3,
                TombstoneCategory::T3Expired,
            ),
    {
        if token.kind() != TimeoutKind::T3 {
            return ExpiryDecision::WrongTimerKind {
                expected: TimeoutKind::T3,
                actual: token.kind(),
            };
        }
        proof {
            self.lemma_t3(token);
        }
        let owner = match self.timers.get(&token.id.value) {
            Some(owner) => *owner,
            None => {
                return ExpiryDecision::Stale;
            },
        };
        match self.live_operation(owner.operation_id) {
            Some((_, live)) => {
                self.bury(owner.operation_id, live, TombstoneCategory::T3Expired);
                ExpiryDecision::Expired {
                    operation_id: owner.operation_id,
                    system_bytes: live.system_bytes,
                    class: live.class,
                    visibility: live.visibility,
                }
            },
            None => ExpiryDecision::Stale,
        }
    }

    /// Ends the control transaction that owns an expired T6.
    pub fn expire_control(&mut self, token: TimerToken) -> (r: ExpiryDecision)
        requires
            old(self).wf(),
        ensures
            final(self).wf(),
            final(self).spec_generation() == old(self).spec_generation(),
            r == old(self)@.expiry_decision(token, TimeoutKind::T6),
            final(self)@ == old(self)@.after_expiry(
                token,
                TimeoutKind::T6,
                TombstoneCategory::ControlExpired,
            ),
    {
        if token.kind() != TimeoutKind::T6 {
            return ExpiryDecision::WrongTimerKind {
                expected: TimeoutKind::T6,
                actual: token.kind(),
            };
        }
        proof {
            self.lemma_t6(token);
        }
        let control = match self.control {
            Some(control) => control,
            None => {
                return ExpiryDecision::Stale;
            },
        };
        let owns_token = match control.timer {
            Some(owned) => owned == token,
            None => false,
        };
        if !owns_token {
            return ExpiryDecision::Stale;
        }
        proof {
            self.lemma_control_entry();
        }
        let live = LiveOperation {
            system_bytes: control.system_bytes,
            class: OperationClass::Control(control.kind),
            visibility: control.visibility,
            timer: control.timer,
            matcher: None,
        };
        self.bury(control.operation_id, live, TombstoneCategory::ControlExpired);
        ExpiryDecision::Expired {
            operation_id: control.operation_id,
            system_bytes: control.system_bytes,
            class: OperationClass::Control(control.kind),
            visibility: control.visibility,
        }
    }

    /// Lists the live operations in ascending order.
    fn sorted_operations(&self) -> (ids: Vec<u64>)
        ensures
            model::lists_ascending(ids@, self@.live),
    {
        let mut ids: Vec<u64> = Vec::new();
        let keys = self.operations.keys();
        let ghost all = vstd::std_specs::iter::IteratorSpec::remaining(&keys);
        for key in iter: keys
            invariant
                forall|i: int, j: int| 0 <= i < j < ids@.len() ==> ids@[i] < ids@[j],
                forall|op: u64| #[trigger]
                    ids@.contains(op) <==> exists|k: int|
                        0 <= k < iter.index() && *iter.seq()[k] == op,
                iter.seq() == all,
                all.no_duplicates(),
                all.unref().to_set() == self.operations@.dom(),
        {
            let op: u64 = *key;
            let mut position: usize = 0;
            while position < ids.len() && ids[position] < op
                invariant
                    position <= ids@.len(),
                    forall|i: int| 0 <= i < position ==> ids@[i] < op,
                decreases ids@.len() - position,
            {
                position = position + 1;
            }
            let ghost before = ids@;
            proof {
                let index = iter.index();
                assert(op == *iter.seq()[index]);
                if position < before.len() && before[position as int] == op {
                    assert(before.contains(op));
                    let k = choose|k: int| 0 <= k < index && *iter.seq()[k] == op;
                    assert(iter.seq()[k] == iter.seq()[index]);
                }
            }
            ids.insert(position, op);
            proof {
                assert(ids@ =~= before.insert(position as int, op));
                let index = iter.index();
                assert forall|x: u64| #[trigger] ids@.contains(x) <==> exists|k: int|
                    0 <= k < index + 1 && *iter.seq()[k] == x by {
                    if ids@.contains(x) {
                        let i = choose|i: int| 0 <= i < ids@.len() && ids@[i] == x;
                        if i == position {
                            assert(*iter.seq()[index] == x);
                        } else {
                            let j = if i < position {
                                i
                            } else {
                                i - 1
                            };
                            assert(before[j] == x);
                            assert(before.contains(x));
                            let k = choose|k: int| 0 <= k < index && *iter.seq()[k] == x;
                            assert(0 <= k < index + 1 && *iter.seq()[k] == x);
                        }
                    }
                    if exists|k: int| 0 <= k < index + 1 && *iter.seq()[k] == x {
                        let k = choose|k: int| 0 <= k < index + 1 && *iter.seq()[k] == x;
                        if k == index {
                            assert(ids@[position as int] == x);
                        } else {
                            assert(0 <= k < index && *iter.seq()[k] == x);
                            assert(before.contains(x));
                            let i = choose|i: int| 0 <= i < before.len() && before[i] == x;
                            if i < position {
                                assert(ids@[i] == x);
                            } else {
                                assert(ids@[i + 1] == x);
                            }
                        }
                    }
                }
            }
        }
        proof {
            assert forall|op: u64| self@.live.contains_key(op) <==> ids@.contains(op) by {
                if self.operations@.contains_key(op) {
                    assert(all.unref().to_set().contains(op));
                    let k = choose|k: int| 0 <= k < all.unref().len() && all.unref()[k] == op;
                    assert(*all[k] == op);
                }
                if ids@.contains(op) {
                    let k = choose|k: int| 0 <= k < all.len() && *all[k] == op;
                    assert(all.unref()[k] == op);
                    assert(all.unref().to_set().contains(op));
                }
            }
        }
        ids
    }

    /// Fences reservations and ends every live operation in ascending order. A
    /// repeated request changes nothing.
    pub fn begin_close(&mut self) -> (r: CloseDecision)
        requires
            old(self).wf(),
        ensures
            final(self).wf(),
            final(self).spec_generation() == old(self).spec_generation(),
            r.began_close == !old(self)@.closing,
            old(self)@.closing ==> r.operations@.len() == 0 && final(self)@ == old(self)@,
            !old(self)@.closing ==> exists|ids: Seq<u64>|
                {
                    &&& #[trigger] model::lists_ascending(ids, old(self)@.live)
                    &&& r.operations@ == ids.map_values(
                        |op: u64| model::close_record(op, old(self)@.live[op]),
                    )
                    &&& final(self)@ == (RegistryView {
                        closing: true,
                        live: Map::empty(),
                        tombstones: model::bury_all(
                            old(self)@.tombstones,
                            old(self)@.live,
                            ids,
                            old(self)@.tombstone_capacity,
                        ),
                        ..old(self)@
                    })
                },
    {
        if self.closing {
            return CloseDecision { began_close: false, operations: Vec::new() };
        }
        let ghost start = *self;
        let ids = self.sorted_operations();
        let mut operations: Vec<CloseOperation> = Vec::new();
        let mut i: usize = 0;
        proof {
            assert(ids@.take(0) =~= Seq::empty());
            assert forall|op: u64| #[trigger] self@.live.contains_key(op) implies exists|k: int|
                0 <= k < ids@.len() && ids@[k] == op by {
                assert(ids@.contains(op));
            }
        }
        while i < ids.len()
            invariant
                self.wf(),
                start.wf(),
                i <= ids@.len(),
                model::lists_ascending(ids@, start@.live),
                self.generation == start.generation,
                self@.closing == false,
                self@.cursor == start@.cursor,
                self@.request_capacity == start@.request_capacity,
                self@.tombstone_capacity == start@.tombstone_capacity,
                forall|op: u64| #[trigger]
                    self@.live.contains_key(op) <==> start@.live.contains_key(op) && exists|k: int|
                        i <= k < ids@.len() && ids@[k] == op,
                forall|op: u64| #[trigger]
                    self@.live.contains_key(op) ==> self@.live[op] == start@.live[op],
                self@.tombstones == model::bury_all(
                    start@.tombstones,
                    start@.live,
                    ids@.take(i as int),
                    start@.tombstone_capacity,
                ),
                operations@.len() == i,
                forall|k: int|
                    0 <= k < i ==> #[trigger] operations@[k] == model::close_record(
                        ids@[k],
                        start@.live[ids@[k]],
                    ),
            decreases ids@.len() - i,
        {
            let op: u64 = ids[i];
            let operation_id = OperationId { value: op };
            let ghost before = *self;
            proof {
                assert(ids@.contains(op));
                assert(start@.live.contains_key(op));
                assert(self@.live.contains_key(op));
                assert(ids@.take(i + 1).drop_last() =~= ids@.take(i as int));
                assert(ids@.take(i + 1).last() == op);
            }
            if let Some((_, live)) = self.live_operation(operation_id) {
                let tombstone = if live.visibility.needs_tombstone() {
                    self.bury(operation_id, live, TombstoneCategory::ClosedAfterVisibility);
                    Some(TombstoneCategory::ClosedAfterVisibility)
                } else {
                    self.remove_live_operation(operation_id);
                    None
                };
                operations.push(
                    CloseOperation {
                        operation_id,
                        system_bytes: live.system_bytes,
                        class: live.class,
                        cancel_timer: live.timer,
                        visibility: live.visibility,
                        tombstone,
                    },
                );
            }
            proof {
                assert(self@.live =~= before@.live.remove(op));
                assert forall|x: u64| #[trigger]
                    self@.live.contains_key(x) <==> start@.live.contains_key(x) && exists|k: int|
                        i + 1 <= k < ids@.len() && ids@[k] == x by {
                    if self@.live.contains_key(x) {
                        assert(before@.live.contains_key(x));
                        let k = choose|k: int| i <= k < ids@.len() && ids@[k] == x;
                        assert(k != i);
                        assert(i + 1 <= k < ids@.len() && ids@[k] == x);
                    }
                    if start@.live.contains_key(x) && exists|k: int|
                        i + 1 <= k < ids@.len() && ids@[k] == x {
                        let k = choose|k: int| i + 1 <= k < ids@.len() && ids@[k] == x;
                        assert(i <= k < ids@.len() && ids@[k] == x);
                        assert(before@.live.contains_key(x));
                        assert(x != op);
                    }
                }
            }
            i = i + 1;
        }
        let ghost drained = *self;
        self.closing = true;
        proof {
            assert(ids@.take(ids@.len() as int) =~= ids@);
            assert(self@.live =~= drained@.live);
            assert(self@.tombstones =~= drained@.tombstones);
            assert(self@.live =~= Map::empty()) by {
                assert forall|op: u64| !self@.live.contains_key(op) by {
                    if drained@.live.contains_key(op) {
                        let k = choose|k: int| i <= k < ids@.len() && ids@[k] == op;
                    }
                }
            }
            assert(self.operations@.dom() =~= self@.live.dom());
            assert(operations@ =~= ids@.map_values(
                |op: u64| model::close_record(op, start@.live[op]),
            ));
        }
        CloseDecision { began_close: true, operations }
    }
}

} // verus!
