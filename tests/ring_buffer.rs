use calculus_link::ring_buffer::{RingBuffer, Status};

#[test]
fn new_buffer_is_empty() {
    let mut buffer: RingBuffer<u8, 4> = RingBuffer::new();
    assert_eq!(buffer.size(), 0);
    assert_eq!(buffer.pop_front(), None);
}

#[test]
fn pops_in_push_order() {
    let mut buffer: RingBuffer<u32, 4> = RingBuffer::new();
    assert_eq!(buffer.push_back(10), Status::Success);
    assert_eq!(buffer.push_back(20), Status::Success);
    assert_eq!(buffer.size(), 2);
    assert_eq!(buffer.pop_front(), Some(10));
    assert_eq!(buffer.push_back(30), Status::Success);
    assert_eq!(buffer.pop_front(), Some(20));
    assert_eq!(buffer.pop_front(), Some(30));
    assert_eq!(buffer.pop_front(), None);
    assert_eq!(buffer.size(), 0);
}

#[test]
fn holds_one_less_than_slots() {
    let mut buffer: RingBuffer<u8, 4> = RingBuffer::new();
    assert_eq!(buffer.push_back(1), Status::Success);
    assert_eq!(buffer.push_back(2), Status::Success);
    assert_eq!(buffer.push_back(3), Status::Success);
    assert_eq!(buffer.size(), 3);
    assert_eq!(buffer.push_back(4), Status::BufferFull);
    assert_eq!(buffer.size(), 3);
    assert_eq!(buffer.pop_front(), Some(1));
    assert_eq!(buffer.pop_front(), Some(2));
    assert_eq!(buffer.pop_front(), Some(3));
    assert_eq!(buffer.pop_front(), None);
}

#[test]
fn size_counts_pushes_minus_pops_across_wrap_around() {
    let mut buffer: RingBuffer<usize, 8> = RingBuffer::new();
    let mut pushed = 0usize;
    let mut popped = 0usize;
    for round in 0..50usize {
        for k in 0..(round % 7) {
            if buffer.push_back(round * 10 + k) == Status::Success {
                pushed += 1;
            }
        }
        for _ in 0..(round % 5) {
            if buffer.pop_front().is_some() {
                popped += 1;
            }
        }
        assert_eq!(buffer.size(), pushed - popped);
    }
}

#[test]
fn fifo_order_over_many_wraps() {
    let mut buffer: RingBuffer<u32, 3> = RingBuffer::new();
    let mut expected = 0u32;
    for value in 0..100u32 {
        assert_eq!(buffer.push_back(value), Status::Success);
        if value % 2 == 1 {
            assert_eq!(buffer.pop_front(), Some(expected));
            expected += 1;
            assert_eq!(buffer.pop_front(), Some(expected));
            expected += 1;
        }
    }
    assert_eq!(buffer.size(), 0);
}
