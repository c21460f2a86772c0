use zbr::db::{
    begin_acquire, cleanup_cutoff_now, decide_acquire, finish_acquire, remaining, remaining_now, window_start,
    window_start_now, Acquire,
};

#[test]
fn remaining_counts_down_to_zero() {
    assert_eq!(remaining(Some(110), 100), 10);
    assert_eq!(remaining(Some(100), 100), 0);
    assert_eq!(remaining(Some(50), 100), 0);
    assert_eq!(remaining(None, 100), 0);
    assert_eq!(remaining_now(None), Some(0));
}

#[test]
fn acquire_is_refused_while_active() {
    assert!(matches!(decide_acquire(Some(130), 100, 60), Acquire::Active { remaining: 30 }));
    assert!(matches!(decide_acquire(Some(100), 100, 60), Acquire::Acquired { expires_at: 160 }));
    assert!(matches!(decide_acquire(None, 100, 60), Acquire::Acquired { expires_at: 160 }));
}

#[test]
fn acquired_cooldown_reads_back_its_duration() {
    let first = decide_acquire(None, 1_000, 45);
    let expires = match first {
        Acquire::Acquired { expires_at } => expires_at,
        _ => panic!("refused"),
    };
    assert_eq!(remaining(Some(expires), 1_000), 45);
    assert!(matches!(decide_acquire(Some(expires), 1_000, 45), Acquire::Active { remaining: 45 }));
    assert!(matches!(decide_acquire(Some(expires), 1_045, 45), Acquire::Acquired { expires_at: 1_090 }));
}

#[test]
fn clock_reading_acquire() {
    let clock = begin_acquire(30).unwrap();
    assert_eq!(clock.expires_at, clock.now + 30);
    assert!(matches!(finish_acquire(&clock, None), Some(Acquire::Acquired { expires_at }) if expires_at == clock.expires_at));
    assert!(matches!(finish_acquire(&clock, Some(clock.now + 7)), Some(Acquire::Active { remaining: 7 })));
    assert_eq!(window_start(1_000, 60), 940);
}

#[test]
fn clock_windows_fit_for_ordinary_lengths() {
    let cutoff = cleanup_cutoff_now().unwrap();
    let start = window_start_now(0).unwrap();
    assert!(cutoff <= start - 3600 + 5 && cutoff >= start - 3600 - 5);
    assert!(start > 1_600_000_000);
    assert!(begin_acquire(-5).is_some());
}
