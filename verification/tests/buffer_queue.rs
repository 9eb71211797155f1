use vios_client::buffer_queue::BufferView;
use vios_client::buffer_queue::IoBufferQueue;
use vios_client::errors::Error;

#[test]
fn allocate_walks_forward_then_wraps() {
    let mut q = IoBufferQueue::new(100);
    assert_eq!(q.allocate_buffer(40), Ok(0));
    assert_eq!(q.allocate_buffer(40), Ok(40));
    // Only 20 bytes remain at the tail: the next request wraps to offset 0.
    assert_eq!(q.allocate_buffer(40), Ok(0));
    assert_eq!(q.allocate_buffer(60), Ok(40));
}

#[test]
fn allocate_exact_tail_fit_does_not_wrap() {
    let mut q = IoBufferQueue::new(100);
    assert_eq!(q.allocate_buffer(60), Ok(0));
    assert_eq!(q.allocate_buffer(40), Ok(60));
    // The ring is exactly full; a whole-capacity request starts over.
    assert_eq!(q.allocate_buffer(100), Ok(0));
}

#[test]
fn allocate_oversize_always_fails() {
    let mut q = IoBufferQueue::new(100);
    assert_eq!(q.allocate_buffer(101), Err(Error::OutOfSpace));
    // Move the cursor around; an oversize request fails from anywhere.
    assert_eq!(q.allocate_buffer(30), Ok(0));
    assert_eq!(q.allocate_buffer(101), Err(Error::OutOfSpace));
    assert_eq!(q.allocate_buffer(70), Ok(30));
    assert_eq!(q.allocate_buffer(usize::MAX.min(u32::MAX as usize)), Err(Error::OutOfSpace));
    // A failed allocation leaves the cursor alone: the ring is still full.
    assert_eq!(q.allocate_buffer(0), Ok(100));
}

#[test]
fn allocate_on_empty_region() {
    let mut q = IoBufferQueue::new(0);
    assert_eq!(q.allocate_buffer(0), Ok(0));
    assert_eq!(q.allocate_buffer(1), Err(Error::OutOfSpace));
}

#[test]
fn allocate_back_to_back_may_overlap() {
    // The allocator does not track outstanding ranges: two transfers issued
    // without awaiting the first may share bytes. This is documented
    // behavior, relied on to stay exactly as it is.
    let mut q = IoBufferQueue::new(100);
    assert_eq!(q.allocate_buffer(60), Ok(0));
    assert_eq!(q.allocate_buffer(60), Ok(0));
}

#[test]
fn buffer_at_checks_bounds() {
    let q = IoBufferQueue::new(100);
    assert_eq!(q.buffer_at(0, 100), Ok(BufferView { offset: 0, len: 100 }));
    assert_eq!(q.buffer_at(40, 60), Ok(BufferView { offset: 40, len: 60 }));
    assert_eq!(q.buffer_at(40, 61), Err(Error::VolatileMemoryError));
    assert_eq!(q.buffer_at(101, 0), Err(Error::VolatileMemoryError));
    assert_eq!(q.buffer_at(100, 0), Ok(BufferView { offset: 100, len: 0 }));
}
