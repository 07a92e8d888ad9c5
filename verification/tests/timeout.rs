use net_utils::net::utils::Timeout;

#[test]
fn new_timeout_never_expires() {
    let timeout = Timeout::new();
    assert!(timeout.check());
    assert!(timeout.check_at(0));
    assert!(timeout.check_at(u64::MAX));
}

#[test]
fn set_at_arms_an_expiry_at_now_plus_delay() {
    let mut timeout = Timeout::new();
    timeout.set_at(1_000, 2);
    assert!(timeout.check_at(1_000));
    assert!(timeout.check_at(2_001_000));
    assert!(!timeout.check_at(2_001_001));
    assert!(timeout.check_at(0));
}

#[test]
fn zero_delay_expires_right_after_now() {
    let mut timeout = Timeout::new();
    timeout.set_at(5, 0);
    assert!(timeout.check_at(5));
    assert!(!timeout.check_at(6));
}

#[test]
fn a_deadline_beyond_the_clock_never_expires() {
    let mut timeout = Timeout::new();
    timeout.set_at(u64::MAX - 10, 1);
    assert!(timeout.check_at(u64::MAX));

    timeout.set_at(0, u64::MAX);
    assert!(timeout.check_at(u64::MAX));
    assert!(timeout.check());
}

#[test]
fn clear_resets_the_timeout() {
    let mut timeout = Timeout::new();
    timeout.set_at(0, 0);
    assert!(!timeout.check_at(1));
    timeout.clear();
    assert!(timeout.check_at(1));
    assert!(timeout.check());
}

#[test]
fn calls_chain() {
    let mut timeout = Timeout::new();
    assert!(timeout.set_at(10, 1).check_at(1_000_010));
    assert!(!timeout.set_at(10, 1).check_at(1_000_011));
    assert!(timeout.clear().check_at(1_000_011));
    assert!(timeout.set(60_000).check());
}

#[test]
fn set_reads_the_clock() {
    let mut timeout = Timeout::new();
    timeout.set(3_600_000);
    assert!(timeout.check());
    // a clock that stood at zero would leave the deadline at one hour
    assert!(timeout.check_at(3_600_000_000_000));
    assert!(!timeout.check_at(u64::MAX));
}

#[test]
fn a_short_timeout_expires() {
    let mut timeout = Timeout::new();
    timeout.set(0);
    let mut spins: u64 = 0;
    while timeout.check() && spins < 1_000_000_000 {
        spins += 1;
    }
    assert!(!timeout.check());
}
