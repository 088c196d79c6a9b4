use rpaca::market_data::v2::backoff::{
    backoff_ms, count_failure, BASE_DELAY_MS, MAX_DELAY_MS, MAX_DOUBLINGS,
};

#[test]
fn the_first_eight_waits() {
    let delays: Vec<u64> = (0..8).map(backoff_ms).collect();
    assert_eq!(delays, vec![250, 500, 1000, 2000, 4000, 8000, 16000, 16000]);
}

#[test]
fn the_wait_never_shrinks_and_is_capped() {
    let mut last = 0;
    for attempt in 0..100u32 {
        let ms = backoff_ms(attempt);
        assert!(ms >= last);
        assert!(ms >= BASE_DELAY_MS && ms <= MAX_DELAY_MS);
        last = ms;
    }
    assert_eq!(backoff_ms(MAX_DOUBLINGS), 16000);
    assert_eq!(backoff_ms(u32::MAX), 16000);
}

#[test]
fn the_failure_count_stops_at_the_largest_number() {
    assert_eq!(count_failure(0), 1);
    assert_eq!(count_failure(41), 42);
    assert_eq!(count_failure(u32::MAX - 1), u32::MAX);
    assert_eq!(count_failure(u32::MAX), u32::MAX);
}
