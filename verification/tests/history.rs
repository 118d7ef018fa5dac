use gas_cache::history::{HistoryBuffer, CAPACITY, SENTINEL};

fn zeros_after(front: &[u16]) -> Vec<u16> {
    let mut expected: Vec<u16> = front.to_vec();
    while expected.len() < 50 {
        expected.push(0);
    }
    expected
}

#[test]
fn capacity_and_sentinel_values() {
    assert_eq!(CAPACITY, 50);
    assert_eq!(SENTINEL, 0);
}

#[test]
fn new_history_holds_fifty_zeros() {
    let h = HistoryBuffer::new();
    assert_eq!(h.len(), 50);
    assert_eq!(h.snapshot(), vec![0u16; 50]);
}

#[test]
fn length_stays_fifty_after_every_push() {
    let mut h = HistoryBuffer::new();
    for i in 0..200u16 {
        h.push_front(i);
        assert_eq!(h.len(), 50);
        assert_eq!(h.snapshot().len(), 50);
    }
}

#[test]
fn pushes_come_out_newest_first() {
    let mut h = HistoryBuffer::new();
    h.push_front(11);
    h.push_front(22);
    h.push_front(33);
    assert_eq!(h.snapshot(), zeros_after(&[33, 22, 11]));
}

#[test]
fn forty_nine_pushes_leave_one_original_entry() {
    let mut h = HistoryBuffer::new();
    for i in 1..=49u16 {
        h.push_front(i);
    }
    let snap = h.snapshot();
    for k in 0..49usize {
        assert_eq!(snap[k], 49 - k as u16);
    }
    assert_eq!(snap[49], 0);
}

#[test]
fn fifty_pushes_replace_every_sentinel() {
    let mut h = HistoryBuffer::new();
    for i in 1..=50u16 {
        h.push_front(i);
    }
    let snap = h.snapshot();
    assert_eq!(snap[0], 50);
    assert_eq!(snap[49], 1);
    assert!(!snap.contains(&0));
}

#[test]
fn fifty_one_pushes_evict_the_first() {
    let mut h = HistoryBuffer::new();
    for i in 1..=51u16 {
        h.push_front(i);
    }
    let snap = h.snapshot();
    assert_eq!(snap.len(), 50);
    assert!(!snap.contains(&1));
    assert_eq!(snap[0], 51);
    assert_eq!(snap[49], 2);
}

#[test]
fn repeated_value_survives_eviction_of_its_first_copy() {
    let mut h = HistoryBuffer::new();
    for _ in 0..51 {
        h.push_front(9);
    }
    assert_eq!(h.snapshot(), vec![9u16; 50]);
}

#[test]
fn snapshot_is_a_copy() {
    let mut h = HistoryBuffer::new();
    h.push_front(5);
    let mut first = h.snapshot();
    first[0] = 99;
    first.push(1);
    assert_eq!(h.snapshot(), zeros_after(&[5]));
    assert_eq!(h.len(), 50);
}

#[test]
fn largest_reading_is_kept_as_it_is() {
    let mut h = HistoryBuffer::new();
    h.push_front(u16::MAX);
    assert_eq!(h.snapshot()[0], 65535);
}
