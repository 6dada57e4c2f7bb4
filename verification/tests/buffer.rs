use folo::buffer::PinnedBuffer;
use folo::buffer::MAX_IO_LEN;

#[test]
fn new_buffer_is_zeroed_and_fully_active() {
    let buffer = PinnedBuffer::new(64);
    assert_eq!(buffer.capacity(), 64);
    assert_eq!(buffer.len(), 64);
    assert_eq!(buffer.as_slice(), &[0u8; 64][..]);
}

#[test]
fn buffer_of_no_bytes() {
    let buffer = PinnedBuffer::new(0);
    assert_eq!(buffer.capacity(), 0);
    assert_eq!(buffer.len(), 0);
    assert!(buffer.as_slice().is_empty());
}

#[test]
fn buffer_from_bytes_keeps_them() {
    let buffer = PinnedBuffer::from_vec(vec![1, 2, 3, 4]);
    assert_eq!(buffer.capacity(), 4);
    assert_eq!(buffer.len(), 4);
    assert_eq!(buffer.as_slice(), &[1, 2, 3, 4][..]);
}

#[test]
fn set_len_changes_the_active_prefix_only() {
    let mut buffer = PinnedBuffer::from_vec(vec![1, 2, 3, 4]);
    buffer.set_len(2);
    assert_eq!(buffer.len(), 2);
    assert_eq!(buffer.capacity(), 4);
    assert_eq!(buffer.as_slice(), &[1, 2][..]);

    buffer.set_len(0);
    assert!(buffer.as_slice().is_empty());

    buffer.set_len(4);
    assert_eq!(buffer.as_slice(), &[1, 2, 3, 4][..]);
}

#[test]
fn write_replaces_one_byte() {
    let mut buffer = PinnedBuffer::new(3);
    buffer.write(1, 0xab);
    assert_eq!(buffer.as_slice(), &[0, 0xab, 0][..]);
    assert_eq!(buffer.len(), 3);
}

#[test]
fn bytes_do_not_move_with_the_buffer() {
    let buffer = PinnedBuffer::from_vec(vec![5; 16]);
    let before = buffer.as_slice().as_ptr();
    let moved = Box::new(buffer);
    assert_eq!(moved.as_slice().as_ptr(), before);
}

#[test]
fn io_limit_is_the_largest_32_bit_count() {
    assert_eq!(MAX_IO_LEN, 4_294_967_295);
    assert_eq!(MAX_IO_LEN, u32::MAX as usize);
}

#[test]
fn mutable_view_covers_the_active_prefix_only() {
    let mut buffer = PinnedBuffer::from_vec(vec![1, 2, 3, 4]);
    buffer.set_len(2);
    {
        let active = buffer.as_mut_slice();
        assert_eq!(active, &mut [1, 2][..]);
        active[0] = 7;
        active[1] = 8;
    }
    assert_eq!(buffer.len(), 2);
    assert_eq!(buffer.capacity(), 4);
    buffer.set_len(4);
    assert_eq!(buffer.as_slice(), &[7, 8, 3, 4][..]);
}

#[test]
fn mutable_view_of_an_empty_prefix_is_empty() {
    let mut buffer = PinnedBuffer::from_vec(vec![1, 2]);
    buffer.set_len(0);
    assert!(buffer.as_mut_slice().is_empty());
    assert_eq!(buffer.capacity(), 2);
}

#[test]
fn mutable_view_is_the_memory_of_the_buffer() {
    let mut buffer = PinnedBuffer::new(8);
    let shared = format!("{:p}", buffer.as_slice().as_ptr());
    let exclusive = format!("{:p}", buffer.as_mut_slice().as_ptr());
    assert_eq!(shared, exclusive);
}
