use ipc_runtime::bench::{
    analyze_latencies, follower_step, validate_iterations, LatencyTopic, LeaderProgress, Params,
    SettingsTopic, MAX_ITERATIONS,
};
use ipc_runtime::header::Header;
use ipc_runtime::port_identifiers::UniquePublisherId;

#[test]
fn latency_report_matches_hand_computed_values() {
    let latencies: Vec<u64> = vec![500, 15000, 120000, 2000000, 800, 15000];
    let report = analyze_latencies(&latencies);
    assert_eq!(report.total_transmissions, 6);
    assert_eq!(report.total_time, 500 + 15000 + 120000 + 2000000 + 800 + 15000);
    assert_eq!(report.min_latency, 500);
    assert_eq!(report.max_latency, 2000000);
    assert_eq!(report.max_latency_index, 3);
    assert_eq!(report.over_10us, 4);
    assert_eq!(report.over_100us, 2);
    assert_eq!(report.over_1000us, 1);
}

#[test]
fn latency_report_of_nothing_keeps_the_initial_bounds() {
    let latencies: Vec<u64> = Vec::new();
    let report = analyze_latencies(&latencies);
    assert_eq!(report.total_transmissions, 0);
    assert_eq!(report.total_time, 0);
    assert_eq!(report.min_latency, 1000000000);
    assert_eq!(report.max_latency, 0);
    assert_eq!(report.max_latency_index, 0);
}

#[test]
fn leader_progress_burns_warmup_then_records() {
    let mut p = LeaderProgress::start(2, 3);
    for _ in 0..3 {
        assert!(!p.finished);
        let before = p.recorded;
        p = p.step(2);
        assert_eq!(p.recorded, before);
    }
    assert_eq!(p.warmup, 0);
    p = p.step(2);
    assert_eq!(p.recorded, 1);
    assert!(!p.finished);
    p = p.step(2);
    assert_eq!(p.recorded, 2);
    assert!(p.finished);
    assert_eq!(p.remaining, 0);
}

#[test]
fn follower_relays_until_the_last_measured_ping() {
    assert_eq!(follower_step(0, true, false), (0, false));
    assert_eq!(follower_step(0, true, true), (0, false));
    assert_eq!(follower_step(0, false, false), (1, false));
    assert_eq!(follower_step(1, false, true), (2, true));
}

#[test]
fn default_latency_topic_has_every_slot_zeroed() {
    let topic = LatencyTopic::default();
    assert_eq!(topic.used_size, 0);
    assert_eq!(topic.latencies.len(), MAX_ITERATIONS);
    assert_eq!(topic.latencies[0], 0);
    assert_eq!(topic.latencies[MAX_ITERATIONS / 2], 0);
    assert_eq!(topic.latencies[MAX_ITERATIONS - 1], 0);
}

#[test]
fn iteration_counts_are_bounded() {
    assert!(validate_iterations(0));
    assert!(validate_iterations(MAX_ITERATIONS));
    assert!(!validate_iterations(MAX_ITERATIONS + 1));
}

#[test]
fn bench_topics_carry_their_fields() {
    let params = Params { leader: false, follower: false, iterations: 10 };
    assert_eq!(params.iterations, 10);
    let settings = SettingsTopic { iterations: 42 };
    assert_eq!(settings.iterations, 42);
    let header = Header::new(UniquePublisherId::new(7));
    assert_eq!(header.publisher_id(), UniquePublisherId::new(7));
}
