use flipbook::dataset::{AliveRange, BackChannel};
use flipbook::flipbook::{channel, ChannelConfig, Flipbook, RangeError};

fn config() -> ChannelConfig {
    ChannelConfig {
        plane_width: 2,
        plane_height: 2,
        herbivore_individuals: 1,
        herbivore_budget: 4,
        predator_individuals: 1,
        predator_budget: 2,
    }
}

fn book() -> Flipbook {
    channel(config(), vec![7, 7, 7, 7], vec![9, 9])
}

fn ranges(hs: u32, he: u32, ps: u32, pe: u32) -> BackChannel {
    BackChannel {
        herbivores: AliveRange { start: hs, end: he },
        predators: AliveRange { start: ps, end: pe },
    }
}

#[test]
fn fresh_channel_serves_initial_payload() {
    let mut b = book();
    let s = b.snapshot();
    assert_eq!(s.slot, 2);
    assert_eq!(s.time, 0);
    assert_eq!(b.snapshot_herbivores(), &vec![7, 7, 7, 7]);
    assert_eq!(b.snapshot_predators(), &vec![9, 9]);
    assert_eq!(b.snapshot_plane().len(), 2 * 2 * 16);
    assert!(b.snapshot_plane().iter().all(|&x| x == 0));
    assert_eq!(b.snapshot_alive_ranges(), ranges(0, 1, 0, 1));
}

#[test]
fn budgets_and_plane_shape_are_reported() {
    let b = book();
    assert_eq!(b.herbivore_budget(), 4);
    assert_eq!(b.predator_budget(), 2);
    assert_eq!(b.plane_width(), 2);
    assert_eq!(b.plane_height(), 2);
}

#[test]
fn idempotent_re_snapshot() {
    // Two snapshots with no completed frame in between yield the identical
    // payload and the identical timestamp.
    let mut b = book();
    let s1 = b.snapshot();
    let h1 = b.snapshot_herbivores().clone();
    let s2 = b.snapshot();
    let h2 = b.snapshot_herbivores().clone();
    assert_eq!(s1.time, s2.time);
    assert_eq!(s1.slot, s2.slot);
    assert_eq!(h1, h2);

    // The same holds after a completed frame was observed once.
    b.begin_frame();
    b.write_herbivores(&[1, 1, 1, 1]);
    b.end_frame();
    let s3 = b.snapshot();
    let h3 = b.snapshot_herbivores().clone();
    let s4 = b.snapshot();
    let h4 = b.snapshot_herbivores().clone();
    assert_eq!(s3.time, s4.time);
    assert_eq!(h3, vec![1, 1, 1, 1]);
    assert_eq!(h3, h4);
}

#[test]
fn snapshot_timestamps_never_decrease() {
    let mut b = book();
    let mut last = b.snapshot().time;
    for _ in 0..5 {
        let t = b.snapshot().time;
        assert!(t >= last);
        last = t;
    }
    b.begin_frame();
    b.end_frame();
    for _ in 0..5 {
        let t = b.snapshot().time;
        assert!(t >= last);
        last = t;
    }
}

#[test]
fn completed_frame_becomes_visible() {
    let mut b = book();
    let before = b.snapshot();
    b.begin_frame();
    b.write_herbivores(&[3, 1, 4, 1]);
    b.end_frame();
    let after = b.snapshot();
    assert!(after.time > before.time);
    assert_eq!(b.snapshot_herbivores(), &vec![3, 1, 4, 1]);
}

#[test]
fn open_frame_is_never_observed() {
    // A snapshot taken while a frame is still being written sees the data
    // of the last completed frame, in every field.
    let mut b = book();
    b.begin_frame();
    b.write_herbivores(&[1, 1, 1, 1]);
    b.write_predators(&[1, 1]);
    b.write_plane(&[1; 2 * 2 * 16]);
    b.end_frame();

    b.begin_frame();
    b.write_herbivores(&[2, 2, 2, 2]);
    b.write_predators(&[2, 2]);
    let s = b.snapshot();
    assert_eq!(b.snapshot_herbivores(), &vec![1, 1, 1, 1]);
    assert_eq!(b.snapshot_predators(), &vec![1, 1]);
    assert!(b.snapshot_plane().iter().all(|&x| x == 1));
    b.write_plane(&[2; 2 * 2 * 16]);
    b.end_frame();

    // Only now does the second frame's data appear, all fields together.
    let s2 = b.snapshot();
    assert!(s2.time > s.time);
    assert_eq!(b.snapshot_herbivores(), &vec![2, 2, 2, 2]);
    assert_eq!(b.snapshot_predators(), &vec![2, 2]);
    assert!(b.snapshot_plane().iter().all(|&x| x == 2));
}

#[test]
fn three_frames_snapshot_sees_last_marker() {
    // Three consecutive frame cycles writing markers 1, 2, 3 with no
    // snapshot in between: the snapshot afterwards observes marker 3.
    let mut b = book();
    for marker in 1..=3u8 {
        b.begin_frame();
        b.write_herbivores(&[marker; 4]);
        b.write_predators(&[marker; 2]);
        b.write_plane(&[marker; 2 * 2 * 16]);
        b.end_frame();
    }
    b.snapshot();
    assert_eq!(b.snapshot_herbivores(), &vec![3, 3, 3, 3]);
    assert_eq!(b.snapshot_predators(), &vec![3, 3]);
    assert!(b.snapshot_plane().iter().all(|&x| x == 3));
}

#[test]
fn set_alive_ranges_round_trip_through_snapshot() {
    // Budget of 4 herbivores; the written ranges come back exactly, first
    // from the frame, then from a snapshot taken after the frame completed.
    let mut b = book();
    b.begin_frame();
    let r = b.set_alive_ranges(ranges(1, 3, 0, 1));
    assert_eq!(r, Ok(()));
    assert_eq!(b.alive_ranges(), ranges(1, 3, 0, 1));
    b.end_frame();
    b.snapshot();
    assert_eq!(b.snapshot_alive_ranges(), ranges(1, 3, 0, 1));
    // A further snapshot with no new frame sees the same ranges.
    b.snapshot();
    assert_eq!(b.snapshot_alive_ranges(), ranges(1, 3, 0, 1));
}

#[test]
fn set_alive_ranges_validates_bounds() {
    let mut b = book();
    b.begin_frame();
    // One past the herbivore budget fails.
    assert_eq!(
        b.set_alive_ranges(ranges(0, 5, 0, 1)),
        Err(RangeError::BeyondBudget)
    );
    // One past the predator budget fails.
    assert_eq!(
        b.set_alive_ranges(ranges(0, 4, 0, 3)),
        Err(RangeError::BeyondBudget)
    );
    // Lower bound above upper bound fails.
    assert_eq!(
        b.set_alive_ranges(ranges(3, 1, 0, 0)),
        Err(RangeError::InvertedRange)
    );
    // An inverted range is reported as inverted even when it also leaves
    // the budget.
    assert_eq!(
        b.set_alive_ranges(ranges(9, 6, 0, 0)),
        Err(RangeError::InvertedRange)
    );
    // A failed call leaves the record untouched.
    assert_eq!(b.alive_ranges(), ranges(0, 1, 0, 1));
    // Bounds exactly at the budgets succeed.
    assert_eq!(b.set_alive_ranges(ranges(0, 4, 0, 2)), Ok(()));
    assert_eq!(b.alive_ranges(), ranges(0, 4, 0, 2));
}

#[test]
fn frame_reads_its_own_slot() {
    let mut b = book();
    b.begin_frame();
    b.set_alive_ranges(ranges(2, 3, 1, 2)).unwrap();
    // The consumer has not seen the open frame's record.
    assert_eq!(b.snapshot_alive_ranges(), ranges(0, 1, 0, 1));
    // The frame sees what it wrote.
    assert_eq!(b.alive_ranges(), ranges(2, 3, 1, 2));
    b.end_frame();
}

#[test]
fn frame_payload_read_modify_write() {
    let mut b = book();
    b.begin_frame();
    assert_eq!(b.frame_predators(), &vec![9, 9]);
    assert_eq!(b.frame_plane().len(), 2 * 2 * 16);
    let mut payload = b.frame_herbivores().clone();
    for x in payload.iter_mut() {
        *x += 1;
    }
    b.write_herbivores(&payload);
    assert_eq!(b.frame_herbivores(), &vec![8, 8, 8, 8]);
    b.end_frame();
    b.snapshot();
    assert_eq!(b.snapshot_herbivores(), &vec![8, 8, 8, 8]);
}

#[test]
fn bundle_copy_moves_payload_between_slots() {
    let mut b = book();
    b.begin_frame();
    b.write_herbivores(&[5, 5, 5, 5]);
    b.end_frame();
    // The producer slot (0) now holds the marker; copy it into slot 2 and
    // observe it through the consumer-side readers.
    b.bundle_copy(0, 2);
    assert_eq!(b.snapshot_herbivores(), &vec![5, 5, 5, 5]);
}
