use pbft::size::{max, option_max_size, seq_max_size, uint_max_size, SerializedMaxSize, SerializedSize};

#[test]
fn uint_sizes() {
    assert_eq!(uint_max_size(0), 1);
    assert_eq!(uint_max_size(1), 1);
    assert_eq!(uint_max_size(127), 1);
    assert_eq!(uint_max_size(128), 2);
    assert_eq!(uint_max_size(16383), 2);
    assert_eq!(uint_max_size(16384), 3);
    assert_eq!(uint_max_size(u16::MAX as u64), 3);
    assert_eq!(uint_max_size(u32::MAX as u64), 5);
    assert_eq!(uint_max_size(u64::MAX), 10);
}

#[test]
fn option_and_seq_sizes() {
    assert_eq!(option_max_size(0), 1);
    assert_eq!(option_max_size(32), 33);
    assert_eq!(seq_max_size(32, 0), 1);
    assert_eq!(seq_max_size(32, 10), 321);
    assert_eq!(seq_max_size(4, 200), 802);
}

#[test]
fn max_of_sizes() {
    assert_eq!(max(3, 5), 5);
    assert_eq!(max(5, 3), 5);
    assert_eq!(max(4, 4), 4);
}

#[test]
fn size_constants() {
    assert_eq!(<u8 as SerializedSize>::SIZE, 1);
    assert_eq!(<bool as SerializedMaxSize>::MAX_SIZE, 1);
    assert_eq!(<u16 as SerializedMaxSize>::MAX_SIZE, 3);
    assert_eq!(<u32 as SerializedMaxSize>::MAX_SIZE, 5);
    assert_eq!(<u64 as SerializedMaxSize>::MAX_SIZE, 10);
    assert_eq!(<Option<u16> as SerializedMaxSize>::MAX_SIZE, 4);
    assert_eq!(<std::ops::Range<u32> as SerializedMaxSize>::MAX_SIZE, 10);
    assert_eq!(<[u8; 32] as SerializedMaxSize>::MAX_SIZE, 32);
    assert_eq!(<u32 as SerializedMaxSize>::MAX_SIZE, uint_max_size(u32::MAX as u64));
}
