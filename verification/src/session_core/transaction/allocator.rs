//! Provides the non-zero, wrapping System Bytes cursor used by the transaction
//! registry. Candidate discovery is deliberately non-mutating so the registry
//! can commit allocation only after every reservation precondition succeeds.

use crate::model::ids::SystemBytes;
use vstd::prelude::*;

verus! {

/// Number of locally allocatable, non-zero System Bytes values.
pub const SYSTEM_BYTES_SPACE: u64 = 0xFFFF_FFFF;

/// Failure to find an unoccupied System Bytes candidate.
#[derive(Clone, Copy, Debug, PartialEq, Eq, Structural)]
pub enum AllocationError {
    /// Every value in the non-zero System Bytes domain is occupied.
    Exhausted,
    /// The supplied occupancy count disagreed with the occupancy predicate.
    InconsistentOccupancy,
}

/// Candidate reached from `next` after `steps` moves in the cycle 1..=u32::MAX,
/// for fewer steps than the cycle is long.
pub open spec fn candidate_after(next: u32, steps: int) -> u32 {
    if next + steps <= u32::MAX {
        (next + steps) as u32
    } else {
        (next + steps - u32::MAX) as u32
    }
}

/// Next value in the cycle 1..=u32::MAX.
pub open spec fn spec_successor(value: u32) -> u32 {
    if value == u32::MAX {
        1
    } else {
        (value + 1) as u32
    }
}

/// Non-zero System Bytes cursor whose mutation is separated from discovery.
#[derive(Clone, Copy, Debug)]
pub struct SystemBytesAllocator {
    /// First candidate considered by the next successful reservation.
    next: u32,
}

impl SystemBytesAllocator {
    /// First candidate considered by the next successful reservation.
    pub closed spec fn cursor(self) -> u32 {
        self.next
    }

    #[verifier::type_invariant]
    spec fn non_zero(self) -> bool {
        self.next != 0
    }

    /// Creates an allocator whose first candidate is System Bytes value one.
    pub fn new() -> (r: Self)
        ensures
            r.cursor() == 1,
    {
        SystemBytesAllocator { next: 1 }
    }

    /// Creates an allocator whose first candidate is `next`.
    pub fn with_next(next: u32) -> (r: Self)
        requires
            next != 0,
        ensures
            r.cursor() == next,
    {
        SystemBytesAllocator { next }
    }

    /// Returns the current candidate without modifying the allocator.
    pub fn next_candidate(self) -> (r: SystemBytes)
        ensures
            r.value == self.cursor(),
            r.value != 0,
    {
        proof {
            use_type_invariant(&self);
        }
        SystemBytes::new(self.next)
    }

    /// Finds an available value without advancing the allocator.
    ///
    /// `occupied_count` is the number of distinct occupied non-zero values and
    /// `is_occupied` tests each candidate. The method examines at most one more
    /// value than the reported occupancy count, which is sufficient by the
    /// pigeonhole principle and avoids scanning the complete `u32` domain in
    /// normal bounded configurations.
    pub fn find_available<F: Fn(SystemBytes) -> bool>(
        &self,
        occupied_count: u64,
        is_occupied: F,
    ) -> (r: Result<SystemBytes, AllocationError>)
        requires
            forall|candidate: SystemBytes| call_requires(is_occupied, (candidate,)),
        ensures
            self.cursor() != 0,
            r == Err::<SystemBytes, _>(AllocationError::Exhausted) <==> occupied_count
                >= SYSTEM_BYTES_SPACE,
            r is Ok ==> exists|steps: int|
                {
                    &&& 0 <= steps <= occupied_count
                    &&& r->Ok_0.value == #[trigger] candidate_after(self.cursor(), steps)
                    &&& call_ensures(is_occupied, (r->Ok_0,), false)
                    &&& forall|earlier: int|
                        0 <= earlier < steps ==> call_ensures(
                            is_occupied,
                            (SystemBytes { value: #[trigger] candidate_after(self.cursor(), earlier) },),
                            true,
                        )
                },
            r == Err::<SystemBytes, _>(AllocationError::InconsistentOccupancy) ==> forall|
                steps: int,
            |
                0 <= steps <= occupied_count ==> call_ensures(
                    is_occupied,
                    (SystemBytes { value: #[trigger] candidate_after(self.cursor(), steps) },),
                    true,
                ),
    {
        proof {
            use_type_invariant(self);
        }
        if occupied_count >= SYSTEM_BYTES_SPACE {
            return Err(AllocationError::Exhausted);
        }
        let mut candidate: u32 = self.next;
        let mut examined: u64 = 0;
        while examined <= occupied_count
            invariant
                self.next != 0,
                occupied_count < SYSTEM_BYTES_SPACE,
                examined <= occupied_count + 1,
                examined <= occupied_count ==> candidate == candidate_after(
                    self.next,
                    examined as int,
                ),
                candidate != 0,
                forall|c: SystemBytes| call_requires(is_occupied, (c,)),
                forall|earlier: int|
                    0 <= earlier < examined ==> call_ensures(
                        is_occupied,
                        (SystemBytes { value: #[trigger] candidate_after(self.next, earlier) },),
                        true,
                    ),
            decreases occupied_count + 1 - examined,
        {
            let system_bytes = SystemBytes::new(candidate);
            if !is_occupied(system_bytes) {
                return Ok(system_bytes);
            }
            candidate = successor(candidate);
            examined = examined + 1;
        }
        Err(AllocationError::InconsistentOccupancy)
    }

    /// Commits `reserved` and advances the next cursor to its wrapping successor.
    pub fn commit(&mut self, reserved: SystemBytes)
        ensures
            final(self).cursor() == spec_successor(reserved.value),
    {
        self.next = successor(reserved.get());
    }
}

/// Returns the next non-zero System Bytes value, wrapping `u32::MAX` to one.
pub fn successor(value: u32) -> (r: u32)
    ensures
        r == spec_successor(value),
        r != 0,
{
    if value == u32::MAX {
        1
    } else {
        value + 1
    }
}

/// Distinct step counts below the cycle length reach distinct non-zero
/// candidates.
pub proof fn law_candidates_are_distinct(next: u32, first: int, second: int)
    requires
        next != 0,
        0 <= first < second < SYSTEM_BYTES_SPACE,
    ensures
        candidate_after(next, first) != candidate_after(next, second),
        candidate_after(next, first) != 0,
        candidate_after(next, second) != 0,
{
}

/// Pigeonhole bound of candidate discovery: when `occupied` holds every one of
/// the first `count + 1` candidates, it holds more than `count` values.
pub proof fn law_discovery_bound(next: u32, occupied: Set<u32>, count: nat)
    requires
        next != 0,
        count < SYSTEM_BYTES_SPACE,
        occupied.finite(),
        forall|steps: int|
            0 <= steps <= count ==> occupied.contains(#[trigger] candidate_after(next, steps)),
    ensures
        occupied.len() > count,
    decreases count,
{
    let last = candidate_after(next, count as int);
    assert(occupied.contains(last));
    if count == 0 {
        if occupied.len() == 0 {
            assert(occupied =~= Set::empty());
        }
    } else {
        let rest = occupied.remove(last);
        assert forall|steps: int| 0 <= steps <= count - 1 implies rest.contains(
            #[trigger] candidate_after(next, steps),
        ) by {
            law_candidates_are_distinct(next, steps, count as int);
        }
        law_discovery_bound(next, rest, (count - 1) as nat);
    }
}

} // verus!
