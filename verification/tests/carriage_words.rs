use flipbook::carriage::{Carriage, U64PointerPacker, MAX_PACKED_TIMESTAMP};

#[test]
fn pointer_pack_round_trip() {
    let cases: [(usize, u64); 5] = [
        (0, 0),
        (2, 1),
        (0xff, MAX_PACKED_TIMESTAMP),
        (1, 123_456_789),
        (2, MAX_PACKED_TIMESTAMP - 1),
    ];
    for (index, timestamp) in cases {
        let packed = U64PointerPacker::new(index, timestamp).pack();
        let back = U64PointerPacker::unpack(packed);
        assert_eq!(back.index(), index);
        assert_eq!(back.timestamp(), timestamp);
    }
}

#[test]
fn pointer_pack_layout() {
    // Index in the low byte, timestamp shifted above it.
    assert_eq!(U64PointerPacker::new(0x2a, 0).pack(), 0x2a);
    assert_eq!(U64PointerPacker::new(0, 1).pack(), 0x100);
    assert_eq!(U64PointerPacker::new(0x07, 0x0123_4567_89ab).pack(), 0x01_2345_6789_ab07);
}

#[test]
fn packed_words_rank_by_timestamp_then_index() {
    let newer = U64PointerPacker::new(0, 5).pack();
    let older = U64PointerPacker::new(0xff, 4).pack();
    // A larger timestamp outranks any index difference.
    assert!(older < newer);

    // For equal timestamps, the index decides.
    let low = U64PointerPacker::new(1, 7).pack();
    let high = U64PointerPacker::new(2, 7).pack();
    assert!(low < high);

    // Equal pointers pack equal.
    assert_eq!(
        U64PointerPacker::new(1, 7).pack(),
        U64PointerPacker::new(1, 7).pack()
    );
}

#[test]
fn carriage_starts_with_distinct_roles() {
    let c = Carriage::new([10u32, 20u32, 30u32], 0);
    assert_eq!(U64PointerPacker::unpack(c.producer).index(), 0);
    assert_eq!(U64PointerPacker::unpack(c.consumer).index(), 1);
    assert_eq!(U64PointerPacker::unpack(c.limbo).index(), 2);
    assert_eq!(U64PointerPacker::unpack(c.producer).timestamp(), 0);
    assert_eq!(c.storage, [10, 20, 30]);
}
