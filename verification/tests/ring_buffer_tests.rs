use mqtt_subscriber::ring_buffer::RingBuffer;

#[test]
fn new_buffer_is_empty() {
    let buffer: RingBuffer<u32> = RingBuffer::new(3);
    assert_eq!(buffer.len(), 0);
    assert!(buffer.is_empty());
    assert_eq!(buffer.get(0), None);
    assert!(buffer.iter().is_empty());
}

#[test]
fn buffer_grows_until_capacity() {
    let mut buffer: RingBuffer<u32> = RingBuffer::new(3);
    buffer.push(10);
    buffer.push(20);
    assert_eq!(buffer.len(), 2);
    assert_eq!(buffer.get(0), Some(&10));
    assert_eq!(buffer.get(1), Some(&20));
    assert_eq!(buffer.get(2), None);
    buffer.push(30);
    assert_eq!(buffer.len(), 3);
    assert_eq!(buffer.iter(), vec![&10, &20, &30]);
}

#[test]
fn buffer_overwrites_oldest_first() {
    let mut buffer: RingBuffer<u32> = RingBuffer::new(3);
    for value in 1..=3 {
        buffer.push(value);
    }
    buffer.push(4);
    assert_eq!(buffer.len(), 3);
    assert_eq!(buffer.iter(), vec![&2, &3, &4]);
    buffer.push(5);
    assert_eq!(buffer.iter(), vec![&3, &4, &5]);
    assert_eq!(buffer.get(0), Some(&3));
    assert_eq!(buffer.get(2), Some(&5));
    assert_eq!(buffer.get(3), None);
}

#[test]
fn buffer_wraps_many_times() {
    let mut buffer: RingBuffer<usize> = RingBuffer::new(5);
    for value in 0..23 {
        buffer.push(value);
        let expected_len = if value + 1 < 5 { value + 1 } else { 5 };
        assert_eq!(buffer.len(), expected_len);
        let items = buffer.iter();
        for (index, item) in items.iter().enumerate() {
            assert_eq!(**item, value + 1 - expected_len + index);
        }
    }
}

#[test]
fn buffer_of_capacity_one_keeps_latest() {
    let mut buffer: RingBuffer<String> = RingBuffer::new(1);
    buffer.push("a".to_string());
    buffer.push("b".to_string());
    assert_eq!(buffer.len(), 1);
    assert_eq!(buffer.get(0), Some(&"b".to_string()));
    assert_eq!(buffer.get(1), None);
}

#[test]
fn get_far_out_of_range_is_none() {
    let mut buffer: RingBuffer<u8> = RingBuffer::new(2);
    buffer.push(1);
    buffer.push(2);
    buffer.push(3);
    assert_eq!(buffer.get(usize::MAX), None);
}
