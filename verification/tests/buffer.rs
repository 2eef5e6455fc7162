use triangle_batch::buffer::{Buffer, BufferUsage};

#[test]
fn new_buffer_has_the_given_capacity() {
    let buffer = Buffer::new(24, 10_000, BufferUsage::Vertex);
    assert_eq!(buffer.size(), 10_000);
    assert_eq!(buffer.stride(), 24);
    assert_eq!(buffer.usage(), BufferUsage::Vertex);
    assert_eq!(buffer.byte_size(), 240_000);
}

#[test]
fn expand_grows_to_exactly_the_request() {
    let mut buffer = Buffer::new(24, 10_000, BufferUsage::Vertex);
    assert!(buffer.expand(10_001));
    assert_eq!(buffer.size(), 10_001);
    assert_eq!(buffer.byte_size(), 240_024);
    assert!(!buffer.expand(10_001));
    assert_eq!(buffer.size(), 10_001);
}

#[test]
fn expand_keeps_a_buffer_that_is_large_enough() {
    let mut buffer = Buffer::new(4, 10_000, BufferUsage::Index);
    assert!(!buffer.expand(10_000));
    assert!(!buffer.expand(0));
    assert!(!buffer.expand(9_999));
    assert_eq!(buffer.size(), 10_000);
    assert_eq!(buffer.usage(), BufferUsage::Index);
    assert_eq!(buffer.stride(), 4);
}

#[test]
fn capacity_is_the_largest_request_so_far() {
    let mut buffer = Buffer::new(256, 50, BufferUsage::Uniform);
    let requests: [usize; 7] = [10, 51, 51, 40, 200, 199, 1000];
    let mut largest: usize = 50;
    for request in requests {
        let before = buffer.size();
        let changed = buffer.expand(request);
        largest = largest.max(request);
        assert_eq!(changed, before < request);
        assert_eq!(buffer.size(), before.max(request));
        assert_eq!(buffer.size(), largest);
        assert!(buffer.size() >= before);
    }
    assert_eq!(buffer.byte_size(), 256_000);
}

#[test]
fn empty_buffer_takes_no_bytes() {
    let mut buffer = Buffer::new(24, 0, BufferUsage::Vertex);
    assert_eq!(buffer.byte_size(), 0);
    assert!(buffer.expand(1));
    assert_eq!(buffer.byte_size(), 24);
}
