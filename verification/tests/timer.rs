use speaking_turns::timespan::Timespan;

#[test]
fn new_timer_is_stopped_at_zero() {
    let t = Timespan::new();
    assert!(!t.is_running());
    assert_eq!(t.elapsed_at(0), 0);
    assert_eq!(t.elapsed_at(u64::MAX), 0);
    assert_eq!(t.elapsed(), 0);
}

#[test]
fn reset_then_elapsed_is_zero() {
    let mut t = Timespan::new();
    t.start_or_stop_at(5);
    t.start_or_stop_at(50);
    t.start_or_stop_at(60);
    t.reset();
    assert_eq!(t, Timespan::new());
    assert_eq!(t.elapsed_at(1_000), 0);
    assert_eq!(t.elapsed(), 0);
    t.reset();
    assert_eq!(t, Timespan::new());
}

#[test]
fn running_timer_counts_from_its_start() {
    let mut t = Timespan::new();
    t.start_or_stop_at(100);
    assert!(t.is_running());
    assert_eq!(t.elapsed_at(100), 0);
    assert_eq!(t.elapsed_at(250), 150);
    t.start_or_stop_at(250);
    assert!(!t.is_running());
    assert_eq!(t.elapsed_at(9_999), 150);
    t.start_or_stop_at(1_000);
    assert_eq!(t.elapsed_at(1_030), 180);
}

#[test]
fn toggle_twice_from_stopped_keeps_elapsed() {
    let mut t = Timespan { running: false, elapsed: 700, started_at: 0 };
    t.start_or_stop_at(40);
    t.start_or_stop_at(40);
    assert!(!t.is_running());
    assert_eq!(t.elapsed, 700);
    t.start_or_stop_at(50);
    t.start_or_stop_at(53);
    assert!(!t.is_running());
    assert_eq!(t.elapsed, 703);
}

#[test]
fn toggle_twice_by_the_wall_clock() {
    let mut t = Timespan { running: false, elapsed: 700, started_at: 0 };
    t.start_or_stop();
    assert!(t.is_running());
    t.start_or_stop();
    assert!(!t.is_running());
    let shown = t.elapsed();
    assert!(shown >= 700);
    assert!(shown - 700 < 10_000_000_000);
    assert_eq!(t.elapsed(), shown);
}

#[test]
fn wall_clock_timer_advances() {
    let mut t = Timespan::new();
    t.start_or_stop();
    assert!(t.started_at > 1_000_000_000_000_000_000);
    let first = t.elapsed();
    let mut spin: u64 = 0;
    for i in 0..2_000_000u64 {
        spin = spin.wrapping_add(i ^ first);
    }
    assert!(spin != 1);
    let second = t.elapsed();
    assert!(second >= first);
    t.stop();
    assert!(!t.is_running());
    assert!(t.elapsed >= second);
}

#[test]
fn stop_is_idempotent() {
    let mut t = Timespan::new();
    t.start_or_stop_at(10);
    t.stop_at(30);
    let once = t;
    t.stop_at(90);
    assert_eq!(t, once);
    assert_eq!(t.elapsed, 20);
    t.stop();
    assert_eq!(t, once);
}

#[test]
fn clock_going_backwards_counts_nothing() {
    let mut t = Timespan::new();
    t.start_or_stop_at(100);
    assert_eq!(t.elapsed_at(40), 0);
    t.stop_at(40);
    assert_eq!(t.elapsed, 0);
}

#[test]
fn elapsed_is_capped() {
    let t = Timespan { running: true, elapsed: u64::MAX - 5, started_at: 0 };
    assert_eq!(t.elapsed_at(3), u64::MAX - 2);
    assert_eq!(t.elapsed_at(5), u64::MAX);
    assert_eq!(t.elapsed_at(1_000), u64::MAX);
}

#[test]
fn elapsed_never_goes_down() {
    let mut t = Timespan::new();
    let mut last = 0u64;
    let mut now = 0u64;
    for step in 0..20u64 {
        now += step * 7;
        if step % 3 == 0 {
            t.start_or_stop_at(now);
        }
        let shown = t.elapsed_at(now);
        assert!(shown >= last);
        last = shown;
    }
}
