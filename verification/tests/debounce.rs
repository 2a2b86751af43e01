use launch_control::debounce::{should_fire, DebounceLedger};
use launch_control::filter::DeviceInfo;

fn info() -> DeviceInfo {
    DeviceInfo { vid: 0x3384, pid: 0x0001 }
}

#[test]
fn burst_yields_single_acceptance() {
    let mut ledger = DebounceLedger::new();
    let d = info();
    let window = 300;
    let mut accepted = 0;
    // A burst at t, t+50, t+100, ..., t+250: epsilon below the window.
    for k in 0..6u64 {
        if should_fire(&mut ledger, &d, 1000 + 50 * k, window) {
            accepted += 1;
        }
    }
    assert_eq!(accepted, 1);
    // A further notification at t + window + epsilon is accepted again.
    assert!(should_fire(&mut ledger, &d, 1000 + window + 50, window));
}

#[test]
fn window_boundary_reaccepts() {
    let mut ledger = DebounceLedger::new();
    let d = info();
    assert!(should_fire(&mut ledger, &d, 0, 300));
    assert!(!should_fire(&mut ledger, &d, 299, 300));
    assert!(should_fire(&mut ledger, &d, 300, 300));
}

#[test]
fn suppression_does_not_reset_window() {
    let mut ledger = DebounceLedger::new();
    let d = info();
    assert!(should_fire(&mut ledger, &d, 0, 300));
    // Suppressed notifications leave the stored time at 0 ...
    assert!(!should_fire(&mut ledger, &d, 200, 300));
    assert_eq!(ledger.last_accepted(d.key_of()), Some(0));
    // ... so the window still closes at 300, not at 500.
    assert!(should_fire(&mut ledger, &d, 320, 300));
    assert_eq!(ledger.last_accepted(d.key_of()), Some(320));
}

#[test]
fn first_notification_always_accepted() {
    let mut ledger = DebounceLedger::new();
    let d = info();
    assert_eq!(ledger.last_accepted(d.key_of()), None);
    assert!(should_fire(&mut ledger, &d, 7, u64::MAX));
    assert_eq!(ledger.last_accepted(d.key_of()), Some(7));
}

#[test]
fn distinct_identities_are_debounced_independently() {
    let mut ledger = DebounceLedger::new();
    let a = DeviceInfo { vid: 0x3384, pid: 0x0001 };
    let b = DeviceInfo { vid: 0x3384, pid: 0x0002 };
    assert!(should_fire(&mut ledger, &a, 0, 300));
    // A different identity inside a's window is still accepted.
    assert!(should_fire(&mut ledger, &b, 100, 300));
    assert!(!should_fire(&mut ledger, &a, 100, 300));
    assert!(!should_fire(&mut ledger, &b, 200, 300));
}

#[test]
fn earlier_clock_reading_is_suppressed() {
    let mut ledger = DebounceLedger::new();
    let d = info();
    assert!(should_fire(&mut ledger, &d, 1000, 300));
    // A reading before the stored time counts as zero elapsed.
    assert!(!should_fire(&mut ledger, &d, 900, 300));
    assert_eq!(ledger.last_accepted(d.key_of()), Some(1000));
}
