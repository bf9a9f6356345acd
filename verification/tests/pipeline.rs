use imu_pipeline::config::{ConfigError, ConsumerArgs, LogLevel, PublisherArgs};
use imu_pipeline::consumer::{Consumer, LenAction};
use imu_pipeline::emulator::{move_toward_target_int, timestamp_ms, EmulatorCore, IntStep};
use imu_pipeline::publisher::{
    after_connection, after_send_attempt, ConnectionEnd, Publisher, RunDecision, SendVerdict,
};

#[test]
fn int_step_snaps_when_in_reach() {
    assert_eq!(move_toward_target_int(100, 150, 100), IntStep::Reached(150));
    assert_eq!(move_toward_target_int(150, 100, 100), IntStep::Reached(100));
    assert_eq!(move_toward_target_int(5, 5, 0), IntStep::Reached(5));
}

#[test]
fn int_step_is_bounded() {
    assert_eq!(move_toward_target_int(100, 300, 50), IntStep::Advanced(150));
    assert_eq!(move_toward_target_int(100, 0, 50), IntStep::Advanced(50));
    assert_eq!(move_toward_target_int(0, -2000, 500), IntStep::Advanced(-500));
}

#[test]
fn timestamps_truncate_at_the_32_bit_wrap() {
    assert_eq!(timestamp_ms(1234), 1234);
    assert_eq!(timestamp_ms((1u64 << 32) + 5), 5);
    assert_eq!(timestamp_ms(u32::MAX as u64), u32::MAX);
}

#[test]
fn fresh_core_retargets_at_once() {
    let core = EmulatorCore::new();
    assert_eq!(core.next_target_change_ms, 0);
    assert_eq!(core.gyro_target, (0, 0, 0));
    assert!(core.retarget_due(0));
}

#[test]
fn retarget_draws_within_the_documented_ranges() {
    let mut core = EmulatorCore::new();
    for _ in 0..50 {
        core.apply_retarget(5000);
        let (x, y, z) = core.gyro_target;
        assert!((-2000..2000).contains(&x));
        assert!((-2000..2000).contains(&y));
        assert!((-2000..2000).contains(&z));
        assert!(core.next_target_change_ms >= 6000);
        assert!(core.next_target_change_ms < 8000);
        assert!(!core.retarget_due(5000));
        assert!(core.retarget_due(8000));
    }
}

#[test]
fn sensor_cadence_envelope() {
    let mut core = EmulatorCore::new();
    for _ in 0..20 {
        // No time has passed: never due when the jitter floor is 1 ms.
        assert!(!core.sensor_due(1000, 1000, 1, 2));
        // Enough time has certainly passed: always due.
        assert!(core.sensor_due(1010, 1000, 1, 2));
        assert!(core.sensor_due(1003, 1000, 1, 3));
        // The clock reading behind the stamp counts as no elapsed time.
        assert!(!core.sensor_due(900, 1000, 1, 2));
    }
}

#[test]
fn equal_seeds_draw_equal_streams() {
    let mut a = EmulatorCore::from_seed(42);
    let mut b = EmulatorCore::from_seed(42);
    for step in 0..10u64 {
        a.apply_retarget(step * 1000);
        b.apply_retarget(step * 1000);
        assert_eq!(a.gyro_target, b.gyro_target);
        assert_eq!(a.next_target_change_ms, b.next_target_change_ms);
        assert_eq!(
            a.sensor_due(step * 1000 + 7, 0, 1, 5),
            b.sensor_due(step * 1000 + 7, 0, 1, 5)
        );
    }
}

#[test]
fn gyro_step_follows_the_target() {
    let mut core = EmulatorCore::new();
    core.apply_retarget(0);
    let (sx, sy, sz) = core.gyro_step((0, 0, 0));
    for (step, target) in [
        (sx, core.gyro_target.0),
        (sy, core.gyro_target.1),
        (sz, core.gyro_target.2),
    ] {
        match step {
            IntStep::Reached(v) => {
                assert_eq!(v, target);
                assert!(target.abs() <= 500);
            }
            IntStep::Advanced(v) => {
                assert_eq!(v.abs(), 500);
                assert!(v.signum() == target.signum());
            }
        }
    }
}

#[test]
fn publisher_new_holds_its_configuration() {
    let p = Publisher::new("/tmp/imu-test.sock".to_owned(), 500);
    assert_eq!(p.socket_path, "/tmp/imu-test.sock");
    assert_eq!(p.frequency_hz, 500);
    assert_eq!(p.emulator.next_target_change_ms, 0);
}

#[test]
fn publish_period_is_exact() {
    assert_eq!(Publisher::new(String::new(), 500).period_us(), 2000);
    assert_eq!(Publisher::new(String::new(), 1).period_us(), 1_000_000);
    assert_eq!(Publisher::new(String::new(), 1000).period_us(), 1000);
    assert_eq!(Publisher::new(String::new(), 3).period_us(), 333_333);
}

#[test]
fn five_consecutive_failures_break_the_connection() {
    let mut errors = 0u32;
    for expected_run in 1..=4u32 {
        let (run, verdict) = after_send_attempt(errors, false);
        assert_eq!(run, expected_run);
        assert_eq!(verdict, SendVerdict::BackoffRetry);
        errors = run;
    }
    let (run, verdict) = after_send_attempt(errors, false);
    assert_eq!(run, 5);
    assert_eq!(verdict, SendVerdict::AbortConnection);
}

#[test]
fn a_successful_send_resets_the_run() {
    let (run, verdict) = after_send_attempt(4, true);
    assert_eq!(run, 0);
    assert_eq!(verdict, SendVerdict::Proceed);
}

#[test]
fn broken_connection_reaccepts_instead_of_terminating() {
    assert_eq!(
        after_connection(ConnectionEnd::Broken),
        RunDecision::AcceptNext
    );
    assert_eq!(after_connection(ConnectionEnd::Finished), RunDecision::Stop);
    assert_eq!(after_connection(ConnectionEnd::Failed), RunDecision::Fail);
}

#[test]
fn consumer_new_holds_its_configuration() {
    let c = Consumer::new("/tmp/imu-test.sock".to_owned(), 1000);
    assert_eq!(c.socket_path, "/tmp/imu-test.sock");
    assert_eq!(c.timeout_ms, 1000);
    assert_eq!(c.motion.state.last_gyro_timestamp, 0);
    assert_eq!(c.motion.state.orientation.w, 1.0f32.to_bits());
}

#[test]
fn length_prefix_decisions() {
    assert_eq!(Consumer::on_length_prefix(0), LenAction::SkipZero);
    assert_eq!(Consumer::on_length_prefix(7), LenAction::ReadPayload(7));
    assert_eq!(
        Consumer::on_length_prefix(u32::MAX),
        LenAction::ReadPayload(u32::MAX)
    );
}

#[test]
fn consumer_args_defaults() {
    let a = ConsumerArgs::parse(None, None, None).unwrap();
    assert_eq!(a.socket_path, "/tmp/imu-ipc.sock");
    assert_eq!(a.log_level, LogLevel::Info);
    assert_eq!(a.timeout, 1000);
}

#[test]
fn consumer_args_explicit_values() {
    let a = ConsumerArgs::parse(
        Some("/tmp/other.sock".to_owned()),
        Some(LogLevel::Debug),
        Some(60_000),
    )
    .unwrap();
    assert_eq!(a.socket_path, "/tmp/other.sock");
    assert_eq!(a.log_level, LogLevel::Debug);
    assert_eq!(a.timeout, 60_000);
    assert_eq!(
        ConsumerArgs::parse(None, None, Some(1)).unwrap().timeout,
        1
    );
}

#[test]
fn consumer_args_rejects_bad_timeout() {
    assert!(matches!(
        ConsumerArgs::parse(None, None, Some(0)),
        Err(ConfigError::TimeoutOutOfRange)
    ));
    assert!(matches!(
        ConsumerArgs::parse(None, None, Some(60_001)),
        Err(ConfigError::TimeoutOutOfRange)
    ));
}

#[test]
fn publisher_args_defaults() {
    let a = PublisherArgs::parse(None, None, None).unwrap();
    assert_eq!(a.socket_path, "/tmp/imu-ipc.sock");
    assert_eq!(a.log_level, LogLevel::Info);
    assert_eq!(a.frequency, 500);
}

#[test]
fn publisher_args_rejects_bad_frequency() {
    assert!(matches!(
        PublisherArgs::parse(None, None, Some(0)),
        Err(ConfigError::FrequencyOutOfRange)
    ));
    assert!(matches!(
        PublisherArgs::parse(None, None, Some(1001)),
        Err(ConfigError::FrequencyOutOfRange)
    ));
    assert_eq!(
        PublisherArgs::parse(None, None, Some(1000)).unwrap().frequency,
        1000
    );
}
