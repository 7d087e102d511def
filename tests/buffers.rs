use nusb::transfer::{RequestBuffer, ResponseBuffer};

#[test]
fn request_fill_stops_at_capacity() {
    let mut b = RequestBuffer::allocate(5);
    assert_eq!(b.len(), 0);
    assert_eq!(b.fill(&[1, 2, 3]), 3);
    assert_eq!(b.fill(&[4, 5, 6, 7]), 2);
    assert_eq!(b.fill(&[8]), 0);
    assert_eq!(b.len(), 5);
    assert_eq!(b.capacity(), 5);
    assert_eq!(b.into_vec(), vec![1, 2, 3, 4, 5]);
}

#[test]
fn request_consume_front() {
    let mut b = RequestBuffer::from_vec(vec![1, 2, 3, 4]);
    assert_eq!(b.capacity(), 4);
    assert_eq!(b.consume(3), vec![1, 2, 3]);
    assert_eq!(b.len(), 1);
    assert_eq!(b.fill(&[9, 9, 9]), 3);
    assert_eq!(b.consume(10), vec![4, 9, 9, 9]);
    assert_eq!(b.len(), 0);
    b.fill(&[5]);
    b.clear();
    assert_eq!(b.len(), 0);
    assert_eq!(b.capacity(), 4);
}

#[test]
fn response_fill_and_reuse() {
    let mut b = ResponseBuffer::allocate(4);
    assert_eq!(b.capacity(), 4);
    assert_eq!(b.actual_length(), 0);
    b.fill(&[7, 8]);
    assert_eq!(b.actual_length(), 2);
    let b = b.reuse();
    assert_eq!(b.actual_length(), 0);
    assert_eq!(b.capacity(), 4);
    let mut b = b;
    b.fill(&[1, 2, 3, 4, 5, 6]);
    assert_eq!(b.actual_length(), 4);
    assert_eq!(b.into_vec(), vec![1, 2, 3, 4]);
}

#[test]
fn response_from_vec_clamps_count() {
    let b = ResponseBuffer::from_vec(vec![1, 2, 3], 10);
    assert_eq!(b.actual_length(), 3);
    let b = ResponseBuffer::from_vec(vec![1, 2, 3], 1);
    assert_eq!(b.into_vec(), vec![1]);
    let empty = ResponseBuffer::allocate(0);
    assert_eq!(empty.into_vec(), Vec::<u8>::new());
}
