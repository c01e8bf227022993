use telemetry_node::watchdog::STALL_LIMIT;
use telemetry_node::watchdog::Watchdog;

#[test]
fn faults_exactly_at_the_stall_limit() {
    let mut wd = Watchdog::new();
    // The marker moves once, then stalls.
    assert!(!wd.check(7));
    for i in 1..STALL_LIMIT {
        assert!(!wd.check(7), "faulted early at window {}", i);
    }
    // The fifteenth consecutive unchanged window faults.
    assert!(wd.check(7));
}

#[test]
fn one_change_inside_the_window_postpones_the_fault() {
    let mut wd = Watchdog::new();
    assert!(!wd.check(7));
    for _ in 1..STALL_LIMIT - 1 {
        assert!(!wd.check(7));
    }
    // One strict change on the window's last check resets the count.
    assert!(!wd.check(8));
    for _ in 1..STALL_LIMIT {
        assert!(!wd.check(8));
    }
    assert!(wd.check(8));
}

#[test]
fn cycling_markers_count_as_progress() {
    // The marker keeps returning to the same two values; every check sees a
    // strict change, so the watchdog never faults.
    let mut wd = Watchdog::new();
    for i in 0..40u32 {
        let marker = if i % 2 == 0 { 5 } else { 7 };
        assert!(!wd.check(marker));
    }
}

#[test]
fn marker_stuck_at_initial_zero_faults() {
    // The progress marker starts at zero; a task that never writes it stalls
    // the watchdog from the very first window.
    let mut wd = Watchdog::new();
    for _ in 0..STALL_LIMIT - 1 {
        assert!(!wd.check(0));
    }
    assert!(wd.check(0));
}

#[test]
fn fault_repeats_while_the_stall_lasts() {
    let mut wd = Watchdog::new();
    // The first check sees a change from the initial zero; fifteen unchanged
    // checks follow.
    for _ in 0..STALL_LIMIT {
        assert!(!wd.check(3));
    }
    assert!(wd.check(3));
    assert!(wd.check(3));
    assert!(!wd.check(4));
}
