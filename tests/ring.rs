use audio_player::ring::{SampleRing, CAPTURE_CAPACITY};

#[test]
fn overflow_keeps_last_pushed_in_order() {
    let mut r: SampleRing<i32> = SampleRing::new(4);
    for x in 1..=5 {
        r.push(x);
    }
    assert_eq!(r.len(), 4);
    assert_eq!(r.snapshot(4), vec![2, 3, 4, 5]);
}

#[test]
fn fewer_pushes_than_capacity_keeps_all() {
    let mut r: SampleRing<i32> = SampleRing::new(8);
    for x in [7, 8, 9] {
        r.push(x);
    }
    assert_eq!(r.len(), 3);
    assert_eq!(r.snapshot(8), vec![7, 8, 9]);
}

#[test]
fn many_wraps_keep_newest_window() {
    let mut r: SampleRing<u32> = SampleRing::new(5);
    for x in 0..103u32 {
        r.push(x);
    }
    assert_eq!(r.capacity(), 5);
    assert_eq!(r.snapshot(5), vec![98, 99, 100, 101, 102]);
    assert_eq!(r.snapshot(2), vec![101, 102]);
}

#[test]
fn snapshot_bounded_by_count_and_length() {
    let mut r: SampleRing<i32> = SampleRing::new(4);
    assert!(r.snapshot(3).is_empty());
    r.push(1);
    r.push(2);
    assert_eq!(r.snapshot(10), vec![1, 2]);
    assert_eq!(r.snapshot(1), vec![2]);
    assert!(r.snapshot(0).is_empty());
}

#[test]
fn clear_forgets_samples() {
    let mut r: SampleRing<f32> = SampleRing::new(3);
    r.push(0.5);
    r.push(-0.25);
    r.clear();
    assert_eq!(r.len(), 0);
    assert!(r.snapshot(3).is_empty());
    r.push(1.0);
    assert_eq!(r.snapshot(3), vec![1.0]);
}

#[test]
fn capacity_one_holds_latest() {
    let mut r: SampleRing<i32> = SampleRing::new(1);
    r.push(3);
    r.push(4);
    assert_eq!(r.snapshot(5), vec![4]);
}

#[test]
fn capture_ring_keeps_newest_at_capacity() {
    let mut r: SampleRing<f32> = SampleRing::new(CAPTURE_CAPACITY);
    for i in 0..10_000 {
        r.push(i as f32);
    }
    assert_eq!(r.len(), 8192);
    assert_eq!(r.snapshot(1), vec![9_999.0]);
}
