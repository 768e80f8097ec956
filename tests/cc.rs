use congestion::cc::{
    lookup_cc_algorithm, new_congestion_control, Algorithm, CongestionControl, INITIAL_WINDOW,
    MINIMUM_WINDOW,
};

#[test]
fn new_cc() {
    let cc = new_congestion_control(Algorithm::Reno);

    assert!(cc.cwnd() > 0);
    assert_eq!(cc.bytes_in_flight(), 0);
    assert_eq!(cc.ssthresh(), std::usize::MAX);
}

#[test]
fn lookup_cc_algo() {
    let algo = lookup_cc_algorithm("reno");

    assert_eq!(algo, Algorithm::Reno);

    let algo = lookup_cc_algorithm("???");

    assert_eq!(algo, Algorithm::Reno);
}

#[test]
fn lookup_unknown_name_falls_back_to_default() {
    assert_eq!(lookup_cc_algorithm("does-not-exist"), lookup_cc_algorithm("reno"));
    assert_eq!(lookup_cc_algorithm(""), Algorithm::Reno);
}

#[test]
fn new_cc_starts_at_initial_window_without_recovery() {
    let cc = new_congestion_control(Algorithm::Reno);

    assert_eq!(cc.cwnd(), INITIAL_WINDOW);
    assert_eq!(cc.cwnd(), 14520);
    assert_eq!(cc.congestion_recovery_start_time(), None);
    assert!(!cc.is_app_limited());
}

#[test]
fn collapse_sets_minimum_window_from_any_state() {
    let mut cc = new_congestion_control(Algorithm::Reno);
    cc.on_packet_sent_cc(3000, "test_id");
    cc.collapse_cwnd();
    assert_eq!(cc.cwnd(), MINIMUM_WINDOW);
    assert_eq!(cc.cwnd(), 2904);
    assert_eq!(cc.bytes_in_flight(), 3000);
    assert_eq!(cc.ssthresh(), usize::MAX);

    cc.set_cwnd(1_000_000);
    cc.congestion_event(5, 5, "test_id");
    cc.collapse_cwnd();
    assert_eq!(cc.cwnd(), 2904);
    assert_eq!(cc.ssthresh(), 500_000);
    assert_eq!(cc.congestion_recovery_start_time(), Some(5));
}

#[test]
fn in_recovery_boundary_is_inclusive() {
    let mut cc = new_congestion_control(Algorithm::Reno);
    assert!(!cc.in_congestion_recovery(0));
    cc.congestion_event(10, 20, "test_id");
    assert!(cc.in_congestion_recovery(19));
    assert!(cc.in_congestion_recovery(20));
    assert!(!cc.in_congestion_recovery(21));
}

#[test]
fn setters_change_only_their_field() {
    let mut cc = new_congestion_control(Algorithm::Reno);
    cc.set_bytes_in_flight(777);
    assert_eq!(cc.bytes_in_flight(), 777);
    assert_eq!(cc.cwnd(), 14520);
    cc.set_cwnd(9000);
    assert_eq!(cc.cwnd(), 9000);
    assert_eq!(cc.bytes_in_flight(), 777);
    assert_eq!(cc.ssthresh(), usize::MAX);
}

#[test]
fn describe_lists_window_threshold_and_flight() {
    let mut cc = new_congestion_control(Algorithm::Reno);
    assert_eq!(
        cc.describe(),
        "cwnd=14520 ssthresh=18446744073709551615 bytes_in_flight=0"
    );
    cc.on_packet_sent_cc(20000, "test_id");
    cc.congestion_event(1, 1, "test_id");
    assert_eq!(cc.describe(), "cwnd=7260 ssthresh=7260 bytes_in_flight=20000");
}
