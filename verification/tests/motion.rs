use imu_pipeline::motion::{
    accel_in_gravity_band, deadzone, deadzone_vec3, gyro_axis_usable, rotation_angle_negligible,
    MotionProcessor, MotionState, OrientationPlan, QuatBits, Vec3Bits,
};

#[test]
fn test_default_motion_state() {
    let state = MotionState::default();
    assert_eq!(state.position.x, 0.0f32.to_bits());
    assert_eq!(state.position.y, 0.0f32.to_bits());
    assert_eq!(state.position.z, 0.0f32.to_bits());
    assert_eq!(state.velocity.x, 0.0f32.to_bits());
    assert_eq!(state.velocity.y, 0.0f32.to_bits());
    assert_eq!(state.velocity.z, 0.0f32.to_bits());
    assert_eq!(state.orientation.w, 1.0f32.to_bits());
    assert_eq!(state.orientation.x, 0.0f32.to_bits());
    assert_eq!(state.orientation.y, 0.0f32.to_bits());
    assert_eq!(state.orientation.z, 0.0f32.to_bits());
    assert_eq!(state.last_acc_timestamp, 0);
    assert_eq!(state.last_gyro_timestamp, 0);
}

#[test]
fn fresh_processor_configuration() {
    let p = MotionProcessor::new();
    assert_eq!(p.gyro_weight, 0.98f32.to_bits());
    assert_eq!(p.acc_weight, 0.02f32.to_bits());
    assert_eq!(p.velocity_decay, 0.98f32.to_bits());
    assert_eq!(p.acc_bias.x, 0);
    assert_eq!(p.gyro_bias.x, 0);
    assert!(!p.disable_complementary_filter);
}

#[test]
fn first_sample_seeds_with_minimum_delta() {
    let mut p = MotionProcessor::new();
    // An unseeded channel gets the fixed 1 ms (0.001 s) delta, however
    // large the first timestamp is.
    assert_eq!(p.gyro_gate(123_456), Some(1));
    assert_eq!(p.state.last_gyro_timestamp, 123_456);
    assert_eq!(p.accel_gate(123_456), Some(1));
    assert_eq!(p.state.last_acc_timestamp, 123_456);
}

#[test]
fn steady_cadence_passes_the_gate() {
    let mut p = MotionProcessor::new();
    p.gyro_gate(1000);
    assert_eq!(p.gyro_gate(1010), Some(10));
    assert_eq!(p.gyro_gate(1110), Some(100));
}

#[test]
fn stale_gyro_changes_only_the_timestamp() {
    let mut p = MotionProcessor::new();
    p.gyro_gate(1000);
    let before = p;
    // 150 ms exceeds the 100 ms bound: no update is handed out and only
    // the stored gyro timestamp moves.
    assert_eq!(p.gyro_gate(1150), None);
    assert_eq!(p.state.last_gyro_timestamp, 1150);
    assert_eq!(p.state.orientation, before.state.orientation);
    assert_eq!(p.state.velocity, before.state.velocity);
    assert_eq!(p.state.position, before.state.position);
    assert_eq!(p.state.last_acc_timestamp, before.state.last_acc_timestamp);
}

#[test]
fn stale_accel_changes_only_the_timestamp() {
    let mut p = MotionProcessor::new();
    p.accel_gate(1000);
    let before = p;
    assert_eq!(p.accel_gate(2000), None);
    assert_eq!(p.state.last_acc_timestamp, 2000);
    assert_eq!(p.state.orientation, before.state.orientation);
    assert_eq!(p.state.velocity, before.state.velocity);
    assert_eq!(p.state.position, before.state.position);
    assert_eq!(p.state.last_gyro_timestamp, before.state.last_gyro_timestamp);
}

#[test]
fn backwards_timestamp_saturates_to_zero_delta() {
    let mut p = MotionProcessor::new();
    p.gyro_gate(u32::MAX - 10);
    // The 32-bit clock wrapped: the subtraction saturates to zero instead
    // of producing a huge delta, so the update is not rejected as stale.
    assert_eq!(p.gyro_gate(5), Some(0));
    assert_eq!(p.state.last_gyro_timestamp, 5);
}

#[test]
fn boundary_delta_is_not_stale() {
    let mut p = MotionProcessor::new();
    p.gyro_gate(1000);
    // Exactly 100 ms is still on time.
    assert_eq!(p.gyro_gate(1100), Some(100));
    p.gyro_gate(2000);
    p.gyro_gate(2000);
    // 101 ms is stale.
    assert_eq!(p.gyro_gate(2101), None);
}

#[test]
fn deadzone_matches_the_real_comparison() {
    for a in [
        0.0f32, -0.0, 0.005, -0.005, 0.009999, 0.01, -0.01, 0.02, -0.02, 1.0, -9.81,
        f32::NAN, f32::INFINITY, f32::NEG_INFINITY,
    ] {
        let expected = if a.abs() < 0.01 { 0.0f32 } else { a };
        assert_eq!(
            deadzone(a.to_bits()),
            expected.to_bits(),
            "dead-zone disagrees at {a}"
        );
    }
}

#[test]
fn gravity_band_matches_the_real_comparison() {
    for m in [
        0.0f32, 900.0, 949.999, 950.0, 950.001, 1000.0, 1049.999, 1050.0, 1100.0,
        f32::NAN, f32::INFINITY,
    ] {
        // The band is the closed interval [950, 1050] milli-g.
        let expected = m >= 950.0 && m <= 1050.0;
        assert_eq!(
            accel_in_gravity_band(m.to_bits()),
            expected,
            "gravity band disagrees at {m}"
        );
    }
}

#[test]
fn angle_thresholds_match_the_real_comparison() {
    for a in [0.0f32, 1e-9, 9.9e-7, 1e-6, 1.1e-6, 0.01, f32::NAN] {
        assert_eq!(
            rotation_angle_negligible(a.to_bits()),
            a < 1e-6,
            "negligible-angle test disagrees at {a}"
        );
        assert_eq!(
            gyro_axis_usable(a.to_bits()),
            a > 1e-6,
            "axis-usable test disagrees at {a}"
        );
    }
}

#[test]
fn commits_touch_only_their_fields() {
    let mut p = MotionProcessor::new();
    p.gyro_gate(10);
    let q = QuatBits {
        w: 0.5f32.to_bits(),
        x: 0.5f32.to_bits(),
        y: 0.5f32.to_bits(),
        z: 0.5f32.to_bits(),
    };
    p.set_orientation(q);
    assert_eq!(p.state.orientation, q);
    assert_eq!(p.state.velocity.x, 0);
    let v = Vec3Bits { x: 1.0f32.to_bits(), y: 0, z: 0 };
    let pos = Vec3Bits { x: 2.0f32.to_bits(), y: 0, z: 0 };
    p.set_velocity_position(v, pos);
    assert_eq!(p.state.velocity, v);
    assert_eq!(p.state.position, pos);
    assert_eq!(p.state.orientation, q);
    assert_eq!(p.state.last_gyro_timestamp, 10);
}

#[test]
fn orientation_plan_skips_negligible_angles() {
    let p = MotionProcessor::new();
    let plan = p.orientation_plan(
        1e-9f32.to_bits(),
        0.5f32.to_bits(),
        1000.0f32.to_bits(),
    );
    assert_eq!(plan, OrientationPlan::Skip);
}

#[test]
fn orientation_plan_picks_axis_and_correction() {
    let mut p = MotionProcessor::new();
    // A healthy rate and an in-band accelerometer: normalize the axis and
    // blend in the correction.
    assert_eq!(
        p.orientation_plan(0.01f32.to_bits(), 0.5f32.to_bits(), 1000.0f32.to_bits()),
        OrientationPlan::Integrate { fallback_axis: false, apply_correction: true }
    );
    // A degenerate rate vector falls back to the fixed axis.
    assert_eq!(
        p.orientation_plan(0.01f32.to_bits(), 1e-9f32.to_bits(), 1000.0f32.to_bits()),
        OrientationPlan::Integrate { fallback_axis: true, apply_correction: true }
    );
    // Out of the gravity band: no correction.
    assert_eq!(
        p.orientation_plan(0.01f32.to_bits(), 0.5f32.to_bits(), 1500.0f32.to_bits()),
        OrientationPlan::Integrate { fallback_axis: false, apply_correction: false }
    );
    // Correction disabled outright.
    p.disable_complementary_filter = true;
    assert_eq!(
        p.orientation_plan(0.01f32.to_bits(), 0.5f32.to_bits(), 1000.0f32.to_bits()),
        OrientationPlan::Integrate { fallback_axis: false, apply_correction: false }
    );
}

#[test]
fn vector_deadzone_filters_each_component() {
    let v = Vec3Bits {
        x: 0.005f32.to_bits(),
        y: (-0.5f32).to_bits(),
        z: (-0.001f32).to_bits(),
    };
    let r = deadzone_vec3(v);
    assert_eq!(r.x, 0.0f32.to_bits());
    assert_eq!(r.y, (-0.5f32).to_bits());
    assert_eq!(r.z, 0.0f32.to_bits());
}
