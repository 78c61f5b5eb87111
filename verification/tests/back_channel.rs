use flipbook::dataset::{AliveRange, BackChannel};

fn record(hs: u32, he: u32, ps: u32, pe: u32) -> BackChannel {
    BackChannel {
        herbivores: AliveRange { start: hs, end: he },
        predators: AliveRange { start: ps, end: pe },
    }
}

#[test]
fn back_channel_layout_is_four_le_words() {
    let mut buf = Vec::new();
    let n = record(1, 3, 0, 1).bytes(&mut buf);
    assert_eq!(n, 16);
    assert_eq!(
        buf,
        vec![1, 0, 0, 0, 3, 0, 0, 0, 0, 0, 0, 0, 1, 0, 0, 0]
    );
}

#[test]
fn back_channel_encode_appends_after_existing_bytes() {
    let mut buf = vec![0xaa, 0xbb];
    let n = record(0, 0, 0, 0).bytes(&mut buf);
    assert_eq!(n, 16);
    assert_eq!(buf.len(), 18);
    assert_eq!(&buf[..2], &[0xaa, 0xbb]);
    assert_eq!(&buf[2..], &[0u8; 16]);
}

#[test]
fn back_channel_round_trip() {
    let cases = [
        record(0, 0, 0, 0),
        record(1, 3, 0, 1),
        record(5, 5, 7, 9),
        record(0, u32::MAX, u32::MAX, u32::MAX),
    ];
    for c in cases {
        let mut buf = Vec::new();
        c.bytes(&mut buf);
        assert_eq!(BackChannel::from_bytes(&buf), c);
        assert_eq!(BackChannel::try_from_bytes(&buf), Some(c));
    }
}

#[test]
fn back_channel_decode_big_values() {
    let bytes = [
        0x78, 0x56, 0x34, 0x12, 0x78, 0x56, 0x34, 0x12, 0x01, 0x00, 0x00, 0x80, 0x02, 0x00,
        0x00, 0x80,
    ];
    let c = BackChannel::from_bytes(&bytes);
    assert_eq!(c.herbivores.start, 0x1234_5678);
    assert_eq!(c.herbivores.end, 0x1234_5678);
    assert_eq!(c.predators.start, 0x8000_0001);
    assert_eq!(c.predators.end, 0x8000_0002);
}

#[test]
fn back_channel_rejects_short_buffer() {
    assert_eq!(BackChannel::try_from_bytes(&[]), None);
    assert_eq!(BackChannel::try_from_bytes(&[0u8; 15]), None);
}

#[test]
fn back_channel_rejects_inverted_herbivore_range() {
    // herbivores 2..1
    let bytes = [2, 0, 0, 0, 1, 0, 0, 0, 0, 0, 0, 0, 0, 0, 0, 0];
    assert_eq!(BackChannel::try_from_bytes(&bytes), None);
}

#[test]
fn back_channel_rejects_inverted_predator_range() {
    // predators 9..3
    let bytes = [0, 0, 0, 0, 1, 0, 0, 0, 9, 0, 0, 0, 3, 0, 0, 0];
    assert_eq!(BackChannel::try_from_bytes(&bytes), None);
}

#[test]
fn back_channel_decode_ignores_trailing_bytes() {
    let mut buf = Vec::new();
    record(1, 2, 3, 4).bytes(&mut buf);
    buf.extend_from_slice(&[0xff; 8]);
    assert_eq!(BackChannel::from_bytes(&buf), record(1, 2, 3, 4));
}

#[test]
fn write_helpers_append() {
    let mut buf = Vec::new();
    assert_eq!(flipbook::dataset::write_u32(&mut buf, 0xdead_beef), 4);
    assert_eq!(buf, vec![0xef, 0xbe, 0xad, 0xde]);
    assert_eq!(flipbook::dataset::write_pad(&mut buf, 3), 3);
    assert_eq!(buf, vec![0xef, 0xbe, 0xad, 0xde, 0, 0, 0]);
}
