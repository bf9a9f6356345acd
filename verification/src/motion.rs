//! Motion estimation over the sample stream: orientation, velocity and
//! position.
//!
//! The estimator advances two independent timing channels, gyroscope and
//! accelerometer, each with wraparound-safe millisecond deltas, a fixed
//! first-sample delta and a staleness bound.  This module owns the estimator
//! state, the timing gates, and the threshold decisions, all on binary32 bit
//! patterns; the real-valued quaternion and vector arithmetic between a
//! gate and its commit is carried out by the caller that drives the
//! estimator, since floating point stays outside this crate.

use vstd::prelude::*;

verus! {

/// A rotation quaternion as four binary32 bit patterns, scalar first.
#[derive(Clone, Copy, Debug, PartialEq, Eq, Structural)]
pub struct QuatBits {
    pub w: u32,
    pub x: u32,
    pub y: u32,
    pub z: u32,
}

/// A three-vector as binary32 bit patterns.
#[derive(Clone, Copy, Debug, PartialEq, Eq, Structural)]
pub struct Vec3Bits {
    pub x: u32,
    pub y: u32,
    pub z: u32,
}

/// The bit pattern of binary32 `1.0`.
pub const ONE_BITS: u32 = 0x3F80_0000;

/// The bit pattern of binary32 `0.98`: the complementary filter's gyroscope
/// weight and the velocity decay factor.
pub const WEIGHT_098_BITS: u32 = 0x3F7A_E148;

/// The bit pattern of binary32 `0.02`: the complementary filter's
/// accelerometer weight.
pub const WEIGHT_002_BITS: u32 = 0x3CA3_D70A;

/// The identity rotation: `w == 1.0`, vector part zero.
pub open spec fn identity_quat() -> QuatBits {
    QuatBits { w: ONE_BITS, x: 0, y: 0, z: 0 }
}

/// The zero vector.
pub open spec fn zero_vec3() -> Vec3Bits {
    Vec3Bits { x: 0, y: 0, z: 0 }
}

/// Orientation, velocity and position, with the last seen timestamp of each
/// timing channel.
#[derive(Clone, Copy, Debug, PartialEq, Eq, Structural)]
pub struct MotionState {
    /// Unit-quaternion orientation estimate, binary32 bits.
    pub orientation: QuatBits,
    /// Velocity estimate in m/s, binary32 bits.
    pub velocity: Vec3Bits,
    /// Position estimate in m, binary32 bits.
    pub position: Vec3Bits,
    /// Last seen accelerometer timestamp, milliseconds; zero means unseeded.
    pub last_acc_timestamp: u32,
    /// Last seen gyroscope timestamp, milliseconds; zero means unseeded.
    pub last_gyro_timestamp: u32,
}

impl Default for MotionState {
    /// A fresh state: identity orientation, everything else zero.
    fn default() -> (r: MotionState)
        ensures
            r == initial_motion_state(),
    {
        MotionState {
            orientation: QuatBits { w: ONE_BITS, x: 0, y: 0, z: 0 },
            velocity: Vec3Bits { x: 0, y: 0, z: 0 },
            position: Vec3Bits { x: 0, y: 0, z: 0 },
            last_acc_timestamp: 0,
            last_gyro_timestamp: 0,
        }
    }
}

/// The state a fresh estimator starts from.
pub open spec fn initial_motion_state() -> MotionState {
    MotionState {
        orientation: identity_quat(),
        velocity: zero_vec3(),
        position: zero_vec3(),
        last_acc_timestamp: 0,
        last_gyro_timestamp: 0,
    }
}

/// A channel's delta in milliseconds: one millisecond for the first sample
/// (the fixed 0.001 s minimum delta), otherwise the wraparound-safe
/// difference of the stored and incoming timestamps, saturating to zero when
/// the incoming timestamp runs behind.
pub open spec fn delta_ms_spec(last: u32, now: u32) -> u32 {
    if last == 0 {
        1
    } else if now >= last {
        (now - last) as u32
    } else {
        0
    }
}

/// A seeded channel whose delta exceeds 100 ms (0.1 s) is stale: its reading
/// is treated as discontinuous and its update withheld.
pub open spec fn stale_spec(last: u32, now: u32) -> bool {
    last != 0 && delta_ms_spec(last, now) > 100
}

/// Compute a channel's delta in milliseconds.
pub fn channel_delta_ms(last: u32, now: u32) -> (r: u32)
    ensures
        r == delta_ms_spec(last, now),
{
    if last == 0 {
        1
    } else {
        now.saturating_sub(last)
    }
}

/// The estimator: its state and its fixed filter configuration.  The weight
/// and bias fields hold binary32 bit patterns.
#[derive(Clone, Copy, Debug, PartialEq, Eq, Structural)]
pub struct MotionProcessor {
    /// The running estimate.
    pub state: MotionState,
    /// Accelerometer bias, milli-g, subtracted from each reading.
    pub acc_bias: Vec3Bits,
    /// Gyroscope bias, milli-degrees per second, subtracted from each reading.
    pub gyro_bias: Vec3Bits,
    /// Complementary-filter weight of the gyroscope prediction (0.98).
    pub gyro_weight: u32,
    /// Complementary-filter weight of the accelerometer correction (0.02).
    pub acc_weight: u32,
    /// Velocity decay applied every update (0.98).
    pub velocity_decay: u32,
    /// When set, the gravity-alignment correction is skipped entirely.
    pub disable_complementary_filter: bool,
}

/// The configuration a fresh estimator starts with: initial state, zero
/// biases, the fixed 0.98/0.02 filter weights, 0.98 velocity decay, and the
/// gravity-alignment correction enabled.
pub open spec fn initial_processor() -> MotionProcessor {
    MotionProcessor {
        state: initial_motion_state(),
        acc_bias: zero_vec3(),
        gyro_bias: zero_vec3(),
        gyro_weight: WEIGHT_098_BITS,
        acc_weight: WEIGHT_002_BITS,
        velocity_decay: WEIGHT_098_BITS,
        disable_complementary_filter: false,
    }
}

/// What the gyro-channel gate does: always store the incoming timestamp;
/// withhold the update (`None`) exactly when the channel is stale, otherwise
/// hand out the delta to integrate over.
pub open spec fn gyro_gate_spec(p: MotionProcessor, ts: u32) -> (MotionProcessor, Option<u32>) {
    let stored = MotionProcessor {
        state: MotionState { last_gyro_timestamp: ts, ..p.state },
        ..p
    };
    if stale_spec(p.state.last_gyro_timestamp, ts) {
        (stored, None)
    } else {
        (stored, Some(delta_ms_spec(p.state.last_gyro_timestamp, ts)))
    }
}

/// The accelerometer-channel twin of `gyro_gate_spec`.
pub open spec fn accel_gate_spec(p: MotionProcessor, ts: u32) -> (MotionProcessor, Option<u32>) {
    let stored = MotionProcessor {
        state: MotionState { last_acc_timestamp: ts, ..p.state },
        ..p
    };
    if stale_spec(p.state.last_acc_timestamp, ts) {
        (stored, None)
    } else {
        (stored, Some(delta_ms_spec(p.state.last_acc_timestamp, ts)))
    }
}

impl MotionProcessor {
    /// A fresh estimator: initial state, zero biases, the fixed 0.98/0.02
    /// filter weights, 0.98 velocity decay, correction enabled.
    pub fn new() -> (r: MotionProcessor)
        ensures
            r == initial_processor(),
    {
        MotionProcessor {
            state: MotionState::default(),
            acc_bias: Vec3Bits { x: 0, y: 0, z: 0 },
            gyro_bias: Vec3Bits { x: 0, y: 0, z: 0 },
            gyro_weight: WEIGHT_098_BITS,
            acc_weight: WEIGHT_002_BITS,
            velocity_decay: WEIGHT_098_BITS,
            disable_complementary_filter: false,
        }
    }

    /// Open the gyro channel for one sample: store its timestamp, and hand
    /// out the delta to integrate over unless the channel is stale.
    pub fn gyro_gate(&mut self, timestamp_gyro: u32) -> (r: Option<u32>)
        ensures
            *final(self) == gyro_gate_spec(*old(self), timestamp_gyro).0,
            r == gyro_gate_spec(*old(self), timestamp_gyro).1,
    {
        let last = self.state.last_gyro_timestamp;
        let dt_ms = channel_delta_ms(last, timestamp_gyro);
        self.state.last_gyro_timestamp = timestamp_gyro;
        if last != 0 && dt_ms > 100 {
            None
        } else {
            Some(dt_ms)
        }
    }

    /// Open the accelerometer channel for one sample, as `gyro_gate` does
    /// for the gyroscope.
    pub fn accel_gate(&mut self, timestamp_acc: u32) -> (r: Option<u32>)
        ensures
            *final(self) == accel_gate_spec(*old(self), timestamp_acc).0,
            r == accel_gate_spec(*old(self), timestamp_acc).1,
    {
        let last = self.state.last_acc_timestamp;
        let dt_ms = channel_delta_ms(last, timestamp_acc);
        self.state.last_acc_timestamp = timestamp_acc;
        if last != 0 && dt_ms > 100 {
            None
        } else {
            Some(dt_ms)
        }
    }

    /// Commit a new orientation computed for a non-stale gyro sample;
    /// nothing else changes.
    pub fn set_orientation(&mut self, q: QuatBits)
        ensures
            *final(self) == (MotionProcessor {
                state: MotionState { orientation: q, ..old(self).state },
                ..*old(self)
            }),
    {
        self.state.orientation = q;
    }

    /// Commit the integrated velocity and position for a non-stale
    /// accelerometer sample; nothing else changes.
    pub fn set_velocity_position(&mut self, velocity: Vec3Bits, position: Vec3Bits)
        ensures
            *final(self) == (MotionProcessor {
                state: MotionState { velocity, position, ..old(self).state },
                ..*old(self)
            }),
    {
        self.state.velocity = velocity;
        self.state.position = position;
    }
}

/// A stale gyroscope reading leaves the estimator untouched except for the
/// stored gyro timestamp, and no orientation update is handed out.
pub proof fn lemma_stale_gyro_only_timestamp(p: MotionProcessor, ts: u32)
    requires
        stale_spec(p.state.last_gyro_timestamp, ts),
    ensures
        gyro_gate_spec(p, ts).1 is None,
        gyro_gate_spec(p, ts).0 == (MotionProcessor {
            state: MotionState { last_gyro_timestamp: ts, ..p.state },
            ..p
        }),
{
}

/// A stale accelerometer reading leaves the estimator untouched except for
/// the stored accelerometer timestamp, and no velocity or position update
/// is handed out.
pub proof fn lemma_stale_accel_only_timestamp(p: MotionProcessor, ts: u32)
    requires
        stale_spec(p.state.last_acc_timestamp, ts),
    ensures
        accel_gate_spec(p, ts).1 is None,
        accel_gate_spec(p, ts).0 == (MotionProcessor {
            state: MotionState { last_acc_timestamp: ts, ..p.state },
            ..p
        }),
{
}

/// Dead-zone of a world-frame acceleration component: force the component
/// to zero when its magnitude is below 0.01 m/s².  On bit patterns this is
/// an integer test: `0x3C23_D70A` is binary32 `0.01`, and clearing the sign
/// bit compares the magnitude, exactly as the real-valued comparison does
/// for every non-NaN component (a NaN pattern is never below the threshold
/// and passes through, as it does in the real-valued form).
pub open spec fn deadzone_spec(bits: u32) -> u32 {
    if (bits & 0x7FFF_FFFF) < 0x3C23_D70A {
        0
    } else {
        bits
    }
}

/// Apply the dead-zone to one component.
pub fn deadzone(bits: u32) -> (r: u32)
    ensures
        r == deadzone_spec(bits),
{
    if (bits & 0x7FFF_FFFF) < 0x3C23_D70A {
        0
    } else {
        bits
    }
}

/// Whether a bias-corrected accelerometer magnitude lies within the gravity
/// band [950, 1050] milli-g, endpoints included, making it usable as a
/// gravity reference.  A Euclidean norm is a non-negative binary32 value,
/// and on those the integer order of bit patterns is the real order: the
/// bounds are the bit patterns of `950.0` and `1050.0`, both exactly
/// representable, and a NaN norm falls outside the band.
pub open spec fn gravity_band_spec(norm_bits: u32) -> bool {
    0x446D_8000 <= norm_bits && norm_bits <= 0x4483_4000
}

/// Test the gravity band on a norm's bit pattern.
pub fn accel_in_gravity_band(norm_bits: u32) -> (r: bool)
    ensures
        r == gravity_band_spec(norm_bits),
{
    0x446D_8000 <= norm_bits && norm_bits <= 0x4483_4000
}

/// Whether a rotation angle in radians is too small to integrate: below
/// `1e-6`, whose bit pattern is `0x3586_37BD`.  The angle is a product of a
/// norm and a non-negative delta, so it is a non-negative binary32 value,
/// where the integer order of bit patterns is the real order; a NaN angle
/// is never negligible.
pub open spec fn negligible_angle_spec(angle_bits: u32) -> bool {
    angle_bits < 0x3586_37BD
}

/// Test whether a rotation angle is negligible.
pub fn rotation_angle_negligible(angle_bits: u32) -> (r: bool)
    ensures
        r == negligible_angle_spec(angle_bits),
{
    angle_bits < 0x3586_37BD
}

/// Whether the angular-rate vector's norm is large enough to normalize into
/// a rotation axis: strictly above `1e-6`.  When it is not (a tiny or NaN
/// norm), the fixed x axis stands in.  The upper bound `0x7F80_0000` is the
/// bit pattern of infinity; anything above it is a NaN, which the
/// real-valued comparison also refuses.
pub open spec fn axis_usable_spec(norm_bits: u32) -> bool {
    0x3586_37BD < norm_bits <= 0x7F80_0000
}

/// Test whether the angular-rate norm yields a usable axis.
pub fn gyro_axis_usable(norm_bits: u32) -> (r: bool)
    ensures
        r == axis_usable_spec(norm_bits),
{
    0x3586_37BD < norm_bits && norm_bits <= 0x7F80_0000
}

/// How one orientation update proceeds, once the timing gate has passed.
#[derive(Clone, Copy, Debug, PartialEq, Eq, Structural)]
pub enum OrientationPlan {
    /// The rotation this step is numerically insignificant: leave the
    /// orientation untouched.
    Skip,
    /// Integrate the rotation.  `fallback_axis` picks the fixed x axis over
    /// normalizing a degenerate rate vector; `apply_correction` blends in
    /// the gravity-alignment correction.
    Integrate { fallback_axis: bool, apply_correction: bool },
}

/// The complete branching of one orientation update, decided on the
/// magnitudes the caller computed: skip a negligible angle; otherwise pick
/// the axis, and apply the gravity correction exactly when the filter is
/// enabled and the accelerometer magnitude lies in the gravity band.
pub open spec fn orientation_plan_spec(
    filter_disabled: bool,
    angle_bits: u32,
    rate_norm_bits: u32,
    acc_norm_bits: u32,
) -> OrientationPlan {
    if negligible_angle_spec(angle_bits) {
        OrientationPlan::Skip
    } else {
        OrientationPlan::Integrate {
            fallback_axis: !axis_usable_spec(rate_norm_bits),
            apply_correction: !filter_disabled && gravity_band_spec(acc_norm_bits),
        }
    }
}

impl MotionProcessor {
    /// Decide one orientation update from the rotation angle, the
    /// angular-rate norm and the bias-corrected accelerometer norm, all as
    /// binary32 bit patterns.
    pub fn orientation_plan(
        &self,
        angle_bits: u32,
        rate_norm_bits: u32,
        acc_norm_bits: u32,
    ) -> (r: OrientationPlan)
        ensures
            r == orientation_plan_spec(
                self.disable_complementary_filter,
                angle_bits,
                rate_norm_bits,
                acc_norm_bits,
            ),
    {
        if rotation_angle_negligible(angle_bits) {
            OrientationPlan::Skip
        } else {
            OrientationPlan::Integrate {
                fallback_axis: !gyro_axis_usable(rate_norm_bits),
                apply_correction: !self.disable_complementary_filter && accel_in_gravity_band(
                    acc_norm_bits,
                ),
            }
        }
    }
}

/// Apply the dead-zone to every component of a world-frame acceleration.
pub fn deadzone_vec3(v: Vec3Bits) -> (r: Vec3Bits)
    ensures
        r.x == deadzone_spec(v.x),
        r.y == deadzone_spec(v.y),
        r.z == deadzone_spec(v.z),
{
    Vec3Bits { x: deadzone(v.x), y: deadzone(v.y), z: deadzone(v.z) }
}

} // verus!
