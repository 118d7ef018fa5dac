use gas_cache::cache::{CurrentCache, Lookup};
use gas_cache::fetch::{outcome, FetchError};
use gas_cache::history::HistoryBuffer;
use gas_cache::refresher::{tick, POLL_INTERVAL_SECS, REFRESH_PERIOD_MINS};
use gas_cache::response::respond;

fn zeros_after(front: &[u16]) -> Vec<u16> {
    let mut expected: Vec<u16> = front.to_vec();
    while expected.len() < 50 {
        expected.push(0);
    }
    expected
}

#[test]
fn refresher_periods() {
    assert_eq!(REFRESH_PERIOD_MINS, 5);
    assert_eq!(POLL_INTERVAL_SECS, 60);
}

#[test]
fn successful_tick_records_the_reading() {
    let mut h = HistoryBuffer::new();
    assert!(tick(&mut h, Ok(42)));
    assert_eq!(h.snapshot(), zeros_after(&[42]));
}

#[test]
fn failed_tick_is_skipped() {
    let mut h = HistoryBuffer::new();
    assert!(tick(&mut h, Ok(42)));
    assert!(!tick(&mut h, Err(FetchError::Network)));
    assert!(!tick(&mut h, Err(FetchError::Decode)));
    assert_eq!(h.snapshot(), zeros_after(&[42]));
    assert_eq!(h.len(), 50);
}

#[test]
fn no_response_without_a_current_reading() {
    let mut h = HistoryBuffer::new();
    h.push_front(3);
    assert!(respond(None, &h).is_none());
}

#[test]
fn response_carries_reading_and_whole_history() {
    let mut h = HistoryBuffer::new();
    h.push_front(3);
    let r = respond(Some(8), &h).unwrap();
    assert_eq!(r.average, 8);
    assert_eq!(r.recent, zeros_after(&[3]));
    assert_eq!(h.snapshot(), zeros_after(&[3]));
}

#[test]
fn two_ticks_then_a_request() {
    let mut history = HistoryBuffer::new();
    let mut cache = CurrentCache::new();
    assert_eq!(history.snapshot(), vec![0u16; 50]);

    assert!(tick(&mut history, outcome(true, Some(42))));
    assert_eq!(history.snapshot(), zeros_after(&[42]));

    assert!(tick(&mut history, outcome(true, Some(37))));
    assert_eq!(history.snapshot(), zeros_after(&[37, 42]));

    assert_eq!(cache.request(600), Lookup::Fetch);
    let current = cache.complete(outcome(true, Some(37)), 600);
    let r = respond(current, &history).unwrap();
    assert_eq!(r.average, 37);
    assert_eq!(r.recent.len(), 50);
    assert_eq!(r.recent, zeros_after(&[37, 42]));

    let again = match cache.request(630) {
        Lookup::Hit(v) => Some(v),
        _ => None,
    };
    let r = respond(again, &history).unwrap();
    assert_eq!(r.average, 37);
    assert_eq!(r.recent, zeros_after(&[37, 42]));
}

#[test]
fn unreachable_upstream_on_first_request() {
    let mut history = HistoryBuffer::new();
    let mut cache = CurrentCache::new();
    assert_eq!(cache.request(0), Lookup::Fetch);
    let current = cache.complete(outcome(false, None), 1);
    assert_eq!(current, None);
    assert!(respond(current, &history).is_none());
    assert!(!tick(&mut history, outcome(false, None)));
    assert_eq!(history.snapshot(), vec![0u16; 50]);
}
