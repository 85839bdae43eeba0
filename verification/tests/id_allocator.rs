use irq_core::id_allocator::ExhaustedError;
use irq_core::id_allocator::IdAllocator;
use irq_core::id_allocator::InvalidIdError;

#[test]
fn new_allocator_is_empty() {
    let a = IdAllocator::new(3);
    assert_eq!(a.capacity(), 3);
    assert!(!a.is_allocated(0));
    assert!(!a.is_allocated(1));
    assert!(!a.is_allocated(2));
}

#[test]
fn allocate_returns_smallest_free_id() {
    let mut a = IdAllocator::new(3);
    assert_eq!(a.allocate(), Ok(0));
    assert_eq!(a.allocate(), Ok(1));
    assert_eq!(a.allocate(), Ok(2));
    assert!(a.is_allocated(0));
    assert!(a.is_allocated(1));
    assert!(a.is_allocated(2));
}

#[test]
fn allocate_on_full_allocator_fails_exhausted() {
    let mut a = IdAllocator::new(2);
    assert_eq!(a.allocate(), Ok(0));
    assert_eq!(a.allocate(), Ok(1));
    assert_eq!(a.allocate(), Err(ExhaustedError));
}

#[test]
fn released_id_is_reused() {
    let mut a = IdAllocator::new(2);
    assert_eq!(a.allocate(), Ok(0));
    assert_eq!(a.allocate(), Ok(1));
    assert_eq!(a.release(0), Ok(()));
    assert!(!a.is_allocated(0));
    assert_eq!(a.allocate(), Ok(0));
}

#[test]
fn release_of_free_id_fails_invalid() {
    let mut a = IdAllocator::new(2);
    assert_eq!(a.release(0), Err(InvalidIdError));
    assert_eq!(a.allocate(), Ok(0));
    assert_eq!(a.release(0), Ok(()));
    // A double free is a reported error, not silently ignored.
    assert_eq!(a.release(0), Err(InvalidIdError));
}

#[test]
fn release_out_of_range_fails_invalid() {
    let mut a = IdAllocator::new(2);
    assert_eq!(a.release(2), Err(InvalidIdError));
    assert_eq!(a.release(usize::MAX), Err(InvalidIdError));
}

#[test]
fn full_allocator_released_serves_all_ids_again() {
    let n = 8;
    let mut a = IdAllocator::new(n);
    for i in 0..n {
        assert_eq!(a.allocate(), Ok(i));
    }
    assert_eq!(a.allocate(), Err(ExhaustedError));
    for i in 0..n {
        assert_eq!(a.release(i), Ok(()));
    }
    for i in 0..n {
        assert_eq!(a.allocate(), Ok(i));
    }
    assert_eq!(a.allocate(), Err(ExhaustedError));
}

#[test]
fn zero_capacity_allocator_is_always_exhausted() {
    let mut a = IdAllocator::new(0);
    assert_eq!(a.capacity(), 0);
    assert_eq!(a.allocate(), Err(ExhaustedError));
}
