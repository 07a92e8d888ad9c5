use net_utils::net::utils::WriteBuffer;

#[test]
fn new_buffer_is_empty() {
    let buffer = WriteBuffer::new(4);
    assert_eq!(0, buffer.buffered());
    assert!(buffer.is_empty());
    assert!(!buffer.is_full());
    assert_eq!(4, buffer.available());
    assert_eq!(&[] as &[u8], buffer.as_bytes());
}

#[test]
fn zero_capacity_buffer_is_full_and_empty() {
    let mut buffer = WriteBuffer::new(0);
    assert!(buffer.is_full());
    assert!(buffer.is_empty());
    assert_eq!(0, buffer.available());
    assert_eq!(3, buffer.write(&[7, 8, 9]));
    assert_eq!(&[7u8, 8, 9], buffer.as_bytes());
}

#[test]
fn append_up_to_and_past_the_soft_limit() {
    let mut buffer = WriteBuffer::new(4);

    assert_eq!(3, buffer.write(&[1, 2, 3]));
    assert_eq!(3, buffer.buffered());
    assert!(!buffer.is_full());
    assert_eq!(1, buffer.available());

    assert_eq!(2, buffer.write(&[4, 5]));
    assert_eq!(5, buffer.buffered());
    assert!(buffer.is_full());
    assert_eq!(0, buffer.available());
    assert_eq!(&[1u8, 2, 3, 4, 5], buffer.as_bytes());
}

#[test]
fn discard_advances_the_window() {
    let mut buffer = WriteBuffer::new(4);
    buffer.write(&[1, 2, 3]);
    buffer.write(&[4, 5]);

    buffer.drop(2);
    assert_eq!(3, buffer.buffered());
    assert_eq!(&[3u8, 4, 5], buffer.as_bytes());
}

#[test]
fn compaction_keeps_the_window() {
    let mut buffer = WriteBuffer::new(4);
    buffer.write(&[1, 2, 3]);
    buffer.write(&[4, 5]);
    buffer.drop(2);

    // the storage holds 8 bytes by now and the window starts at 2: six more
    // bytes fit only after the window has moved to the start
    assert_eq!(5, buffer.write(&[6, 7, 8, 9, 10]));
    assert_eq!(&[3u8, 4, 5, 6, 7, 8, 9, 10], buffer.as_bytes());
    assert_eq!(8, buffer.buffered());

    buffer.drop(7);
    assert_eq!(&[10u8], buffer.as_bytes());
    assert_eq!(4, buffer.write(&[11, 12, 13, 14]));
    assert_eq!(&[10u8, 11, 12, 13, 14], buffer.as_bytes());
}

#[test]
fn compaction_without_growth() {
    let mut buffer = WriteBuffer::new(4);
    buffer.write(&[1, 2, 3, 4]);
    buffer.drop(3);
    assert_eq!(&[4u8], buffer.as_bytes());
    // 1 + 3 bytes fit into the 4 bytes of storage, but not behind offset 3
    assert_eq!(3, buffer.write(&[5, 6, 7]));
    assert_eq!(&[4u8, 5, 6, 7], buffer.as_bytes());
    assert!(buffer.is_full());
}

#[test]
fn discard_more_than_buffered_clears() {
    let mut buffer = WriteBuffer::new(4);
    buffer.write(&[1, 2, 3]);
    assert_eq!(3, buffer.buffered());

    buffer.drop(1000);
    assert_eq!(0, buffer.buffered());
    assert!(buffer.is_empty());
    assert_eq!(&[] as &[u8], buffer.as_bytes());
}

#[test]
fn discarded_bytes_never_come_back() {
    let mut buffer = WriteBuffer::new(4);
    buffer.write(&[1, 2, 3, 4]);
    buffer.drop(4);
    buffer.write(&[9]);
    assert_eq!(&[9u8], buffer.as_bytes());
    buffer.drop(1);
    buffer.write(&[10, 11, 12, 13, 14, 15]);
    assert_eq!(&[10u8, 11, 12, 13, 14, 15], buffer.as_bytes());
}

#[test]
fn clear_twice_is_clear_once() {
    let mut once = WriteBuffer::new(4);
    once.write(&[1, 2, 3]);
    once.clear();

    let mut twice = WriteBuffer::new(4);
    twice.write(&[1, 2, 3]);
    twice.clear();
    twice.clear();

    assert_eq!(once.buffered(), twice.buffered());
    assert_eq!(once.as_bytes(), twice.as_bytes());
    assert_eq!(once.available(), twice.available());
    assert!(twice.is_empty());

    once.write(&[4, 5]);
    twice.write(&[4, 5]);
    assert_eq!(once.as_bytes(), twice.as_bytes());
    assert_eq!(&[4u8, 5], twice.as_bytes());
}

#[test]
fn appends_concatenate() {
    let mut buffer = WriteBuffer::new(2);
    let mut expected: Vec<u8> = Vec::new();
    let mut next: u8 = 0;
    for len in 0..20usize {
        let mut chunk: Vec<u8> = Vec::new();
        for _ in 0..len {
            chunk.push(next);
            next = next.wrapping_add(1);
        }
        assert_eq!(len, buffer.write(&chunk));
        expected.extend_from_slice(&chunk);
        assert_eq!(expected.as_slice(), buffer.as_bytes());
        assert_eq!(expected.len(), buffer.buffered());
    }
}

#[test]
fn buffered_counts_appends_minus_discards() {
    let mut buffer = WriteBuffer::new(8);
    let mut expected: Vec<u8> = Vec::new();
    let mut next: u8 = 0;
    for round in 0..50usize {
        let len = (round * 7) % 11;
        let mut chunk: Vec<u8> = Vec::new();
        for _ in 0..len {
            chunk.push(next);
            next = next.wrapping_add(1);
        }
        buffer.write(&chunk);
        expected.extend_from_slice(&chunk);

        let count = (round * 5) % 13;
        buffer.drop(count);
        let dropped = if count > expected.len() { expected.len() } else { count };
        expected.drain(0..dropped);

        if round % 17 == 16 {
            buffer.clear();
            expected.clear();
        }

        assert_eq!(expected.len(), buffer.buffered());
        assert_eq!(expected.as_slice(), buffer.as_bytes());
        assert_eq!(expected.is_empty(), buffer.is_empty());
        assert_eq!(expected.len() >= 8, buffer.is_full());
        let room = if expected.len() >= 8 { 0 } else { 8 - expected.len() };
        assert_eq!(room, buffer.available());
    }
}

#[test]
fn empty_append_changes_nothing() {
    let mut buffer = WriteBuffer::new(4);
    buffer.write(&[1, 2]);
    assert_eq!(0, buffer.write(&[]));
    assert_eq!(&[1u8, 2], buffer.as_bytes());
}

#[test]
fn flush_changes_nothing() {
    let mut buffer = WriteBuffer::new(4);
    buffer.write(&[1, 2, 3]);
    buffer.flush();
    assert_eq!(3, buffer.buffered());
    assert_eq!(&[1u8, 2, 3], buffer.as_bytes());
}
