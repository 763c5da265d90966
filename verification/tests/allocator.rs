//! System Bytes allocation: initial cursor, wrap, collision skipping, exhaustion.

use hsms::session_core::transaction::allocator::{
    AllocationError, SystemBytesAllocator, SYSTEM_BYTES_SPACE,
};

/// Confirms the allocator starts at the first non-zero System Bytes value.
#[test]
fn initial_candidate_is_one() {
    let allocator = SystemBytesAllocator::new();

    assert_eq!(
        allocator
            .find_available(0, |_| false)
            .expect("one is free")
            .get(),
        1
    );
    assert_eq!(allocator.next_candidate().get(), 1);
}

/// Confirms a committed maximum value wraps the cursor back to one.
#[test]
fn maximum_value_wraps_to_one() {
    let mut allocator = SystemBytesAllocator::with_next(u32::MAX);
    let reserved = allocator
        .find_available(0, |_| false)
        .expect("maximum is free");

    allocator.commit(reserved);

    assert_eq!(reserved.get(), u32::MAX);
    assert_eq!(allocator.next_candidate().get(), 1);
}

/// Confirms candidate discovery skips consecutive occupied values.
#[test]
fn occupied_candidates_are_skipped() {
    let allocator = SystemBytesAllocator::with_next(7);

    let reserved = allocator
        .find_available(2, |candidate| matches!(candidate.get(), 7 | 8))
        .expect("nine is free");

    assert_eq!(reserved.get(), 9);
}

/// Confirms failed discovery leaves the cursor unchanged for a later retry.
#[test]
fn failed_discovery_does_not_advance_cursor() {
    let allocator = SystemBytesAllocator::with_next(23);

    assert_eq!(
        allocator.find_available(0, |_| true),
        Err(AllocationError::InconsistentOccupancy)
    );
    assert_eq!(allocator.next_candidate().get(), 23);
}

/// Confirms a complete logical occupancy reports exhaustion immediately.
#[test]
fn complete_domain_reports_exhaustion_without_scanning() {
    let allocator = SystemBytesAllocator::new();

    assert_eq!(
        allocator.find_available(SYSTEM_BYTES_SPACE, |_| false),
        Err(AllocationError::Exhausted)
    );
    assert_eq!(allocator.next_candidate().get(), 1);
}
