use lore::pool::{default_max_threads, max_threads, pool_stats, Pool, PoolStats};

fn capped<J>(threads: usize) -> Pool<J> {
    Pool::new(Some(&threads.to_string()), None).0
}

#[test]
fn the_cap_is_twice_the_cores_up_to_sixteen() {
    assert_eq!(default_max_threads(Some(1)), 2);
    assert_eq!(default_max_threads(Some(4)), 8);
    assert_eq!(default_max_threads(Some(7)), 14);
    assert_eq!(default_max_threads(Some(8)), 16);
    assert_eq!(default_max_threads(Some(64)), 16);
    assert_eq!(default_max_threads(Some(usize::MAX)), 16);
    assert_eq!(default_max_threads(None), 4);
}

#[test]
fn an_override_is_taken_when_it_is_usable() {
    assert_eq!(max_threads(None, Some(4)), (8, false));
    assert_eq!(max_threads(Some("1"), Some(4)), (1, false));
    assert_eq!(max_threads(Some("128"), Some(4)), (128, false));
    assert_eq!(max_threads(Some("+012"), Some(4)), (12, false));
}

#[test]
fn an_unusable_override_is_reported_and_the_formula_stands() {
    for value in ["0", "129", "", "+", "-1", "twelve", "1 2", "12\u{FFFD}"] {
        assert_eq!(max_threads(Some(value), Some(4)), (8, true), "{value}");
    }
    assert_eq!(max_threads(Some("99999999999999999999999999"), Some(2)), (4, true));
}

#[test]
fn a_pool_has_the_cap_of_its_override_or_of_its_machine() {
    let cases = [
        (None, Some(4), 8, false),
        (None, None, 4, false),
        (Some("128"), Some(4), 128, false),
        (Some("0"), Some(1), 2, true),
        (Some("18446744073709551615"), Some(64), 16, true),
        (Some("many"), Some(4), 8, true),
    ];
    for (value, cores, cap, reported) in cases {
        let (pool, unusable): (Pool<u8>, bool) = Pool::new(value, cores);
        assert_eq!(pool_stats(&pool).max_threads, cap);
        assert_eq!(unusable, reported);
    }
}

#[test]
fn a_new_pool_has_done_nothing() {
    let pool: Pool<u32> = capped(16);
    assert_eq!(
        pool_stats(&pool),
        PoolStats {
            queued: 0,
            executing: 0,
            threads: 0,
            max_threads: 16,
            threads_high_water: 0,
            queue_high_water: 0,
        }
    );
}

#[test]
fn jobs_are_taken_in_the_order_of_submission() {
    let mut pool = capped(1);
    assert!(pool.submit("first"));
    assert!(!pool.submit("second"));
    assert_eq!(pool.take(), Some("first"));
    assert_eq!(pool.take(), None);
    assert!(pool.finish());
    assert_eq!(pool.take(), Some("second"));
    assert!(pool.finish());
    assert_eq!(pool.take(), None);
}

#[test]
fn a_submission_spawns_only_without_an_idle_thread_and_below_the_cap() {
    let mut pool = capped(2);
    assert!(pool.submit(1));
    assert_eq!(pool.take(), Some(1));
    assert!(pool.finish());
    assert!(pool.park());

    // The parked thread is idle.
    assert!(!pool.submit(2));
    assert!(!pool.wake(false));
    assert_eq!(pool.take(), Some(2));

    // The one thread is busy, and another may be spawned; but no third.
    assert!(pool.submit(3));
    assert!(!pool.submit(4));
    assert_eq!(pool_stats(&pool).threads, 2);
    assert_eq!(pool_stats(&pool).max_threads, 2);
}

#[test]
fn a_snapshot_counts_and_keeps_the_high_water_marks() {
    let mut pool = capped(2);
    assert!(pool.submit('a'));
    assert!(pool.submit('b'));
    assert!(!pool.submit('c'));
    assert_eq!(pool.take(), Some('a'));
    assert_eq!(
        pool_stats(&pool),
        PoolStats {
            queued: 2,
            executing: 1,
            threads: 2,
            max_threads: 2,
            threads_high_water: 2,
            queue_high_water: 3,
        }
    );
    assert_eq!(pool.take(), Some('b'));
    assert!(pool.finish());
    assert_eq!(pool.take(), Some('c'));
    assert!(pool.finish());
    assert!(pool.finish());
    assert!(pool.park());
    assert!(pool.park());
    assert!(pool.wake(true));
    assert!(pool.wake(true));
    assert_eq!(
        pool_stats(&pool),
        PoolStats {
            queued: 0,
            executing: 0,
            threads: 0,
            max_threads: 2,
            threads_high_water: 2,
            queue_high_water: 3,
        }
    );
}

#[test]
fn nothing_happens_without_a_thread() {
    let mut pool: Pool<u8> = capped(1);
    assert!(!pool.finish());
    assert!(!pool.park());
    assert!(!pool.wake(true));
    assert_eq!(pool.take(), None);
    assert_eq!(pool_stats(&pool).threads, 0);
}

#[test]
fn a_thread_exits_only_from_a_wait_that_timed_out_over_an_empty_queue() {
    let mut pool: Pool<u8> = capped(1);
    assert!(pool.submit(1));
    assert_eq!(pool.take(), Some(1));
    assert!(pool.finish());
    assert!(pool.park());
    assert!(!pool.wake(false));
    assert!(pool.park());
    assert!(!pool.submit(2));
    // The only thread is idle, so nobody takes the job yet; but it does not exit
    // either, though its wait timed out.
    assert_eq!(pool.take(), None);
    assert!(!pool.wake(true));
    assert_eq!(pool_stats(&pool).threads, 1);
    assert_eq!(pool.take(), Some(2));
    assert!(pool.finish());
    assert!(pool.park());
    assert!(pool.wake(true));
    assert_eq!(pool_stats(&pool).threads, 0);
}
