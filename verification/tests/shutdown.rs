use process_monitor::shutdown::ShutdownFlag;

#[test]
fn fresh_flag_permits_continuation() {
    let f = ShutdownFlag::new();
    assert!(f.should_continue());
}

#[test]
fn request_stops_continuation() {
    let mut f = ShutdownFlag::new();
    f.request_shutdown();
    assert!(!f.should_continue());
}

#[test]
fn request_is_idempotent() {
    let mut once = ShutdownFlag::new();
    once.request_shutdown();

    let mut twice = ShutdownFlag::new();
    twice.request_shutdown();
    twice.request_shutdown();

    assert_eq!(once.should_continue(), twice.should_continue());
    assert!(!twice.should_continue());
}
