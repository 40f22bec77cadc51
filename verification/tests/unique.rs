use membuf::MemBuf;
use membuf::UniqueBuf;

#[test]
fn test_unique_new_and_allocate() {
    let buffer: UniqueBuf<usize> = UniqueBuf::new();
    assert_eq!(buffer.capacity(), 0);

    let buffer: UniqueBuf<usize> = UniqueBuf::allocate(128);
    assert_eq!(buffer.capacity(), 128);

    let buffer: UniqueBuf<usize> = UniqueBuf::allocate(0);
    assert_eq!(buffer.capacity(), 0);
    // Storage is released automatically when the handles go out of scope.
}

#[test]
fn test_unique_reallocate() {
    let mut buffer: UniqueBuf<usize> = UniqueBuf::allocate(128);
    assert_eq!(buffer.capacity(), 128);

    buffer.reallocate(1024);
    assert_eq!(buffer.capacity(), 1024);
}

#[test]
fn test_unique_write_read_across_reallocate() {
    let mut buffer: UniqueBuf<u32> = UniqueBuf::allocate(8);
    buffer.write(0, 8);
    buffer.write(1, 4);
    buffer.write(5, 3);
    buffer.write(7, 6);

    let _other: UniqueBuf<u32> = UniqueBuf::allocate(128);
    buffer.reallocate(32);

    assert_eq!(buffer.read(0), Some(&8));
    assert_eq!(buffer.read(1), Some(&4));
    assert_eq!(buffer.read(5), Some(&3));
    assert_eq!(buffer.read(7), Some(&6));
    assert_eq!(buffer.read(2), None);
    assert_eq!(buffer.read(31), None);
}

#[test]
fn test_unique_from_raw() {
    let buffer = UniqueBuf::from_raw(MemBuf::<u8>::allocate(256));
    assert_eq!(buffer.capacity(), 256);

    let mut inner: MemBuf<u8> = MemBuf::allocate(2);
    inner.write(1, 42);
    let owned = UniqueBuf::from_raw(inner);
    assert_eq!(owned.read(1), Some(&42));
    assert_eq!(owned.read(0), None);
}

#[test]
fn test_unique_drop_in_scope() {
    // A handle with nonzero capacity frees its region exactly once, at the
    // end of its scope; a capacity-0 handle has nothing to free.
    {
        let buffer: UniqueBuf<u64> = UniqueBuf::allocate(64);
        assert_eq!(buffer.capacity(), 64);
    }
    {
        let buffer: UniqueBuf<u64> = UniqueBuf::new();
        assert_eq!(buffer.capacity(), 0);
    }
}
