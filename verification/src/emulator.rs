//! The synthetic sample source's verified core: retarget deadlines, the
//! per-channel update cadence, timestamping, and the bounded integer
//! approach toward a target.
//!
//! The emulator produces a continuous, noisy, target-seeking stream.  Each
//! channel group shares one randomly drawn target and one retarget deadline;
//! each channel updates on its own jittered cadence.  The real-valued
//! smoothing and Gaussian noise of the accelerometer and magnetometer
//! channels are floating point and live with the caller that drives this
//! core; the decisions and the gyroscope's integer stepping are here.

use vstd::prelude::*;
use crate::rng::random_range_i32;
use crate::rng::random_range_u64;
use crate::rng::random_seed;
use crate::rng::rng_from_seed;

verus! {

/// Largest change of one gyroscope axis in one update, milli-degrees per
/// second.
pub const GYRO_MAX_CHANGE: i32 = 500;

/// One bounded step of an integer channel toward its target.
#[derive(Clone, Copy, Debug, PartialEq, Eq, Structural)]
pub enum IntStep {
    /// The target was within reach and is adopted exactly.
    Reached(i32),
    /// The value moved by the full step; the caller blends it with the
    /// previous value (weight 0.7 against 0.3) before storing it.
    Advanced(i32),
}

/// The bounded step: snap to the target when it is within `max_change`,
/// otherwise move by `max_change` toward it.
pub open spec fn int_step_spec(current: i32, target: i32, max_change: i32) -> IntStep {
    let diff = target - current;
    if -max_change <= diff <= max_change {
        IntStep::Reached(target)
    } else if diff > 0 {
        IntStep::Advanced((current + max_change) as i32)
    } else {
        IntStep::Advanced((current - max_change) as i32)
    }
}

/// Move an integer channel one bounded step toward its target.
pub fn move_toward_target_int(current: i32, target: i32, max_change: i32) -> (r: IntStep)
    requires
        max_change >= 0,
        i32::MIN < target - current <= i32::MAX,
        i32::MIN <= current + max_change <= i32::MAX,
        i32::MIN <= current - max_change <= i32::MAX,
    ensures
        r == int_step_spec(current, target, max_change),
{
    let diff = target - current;
    if -max_change <= diff && diff <= max_change {
        IntStep::Reached(target)
    } else if diff > 0 {
        IntStep::Advanced(current + max_change)
    } else {
        IntStep::Advanced(current - max_change)
    }
}

/// Elapsed wall-clock milliseconds since a channel's last timestamp,
/// saturating to zero when the clock reads behind the stamp.
pub open spec fn elapsed_ms_spec(now_ms: u64, last_timestamp: u32) -> u64 {
    if now_ms >= last_timestamp {
        (now_ms - last_timestamp) as u64
    } else {
        0
    }
}

/// A channel's timestamp: the wall clock in milliseconds, truncated to 32
/// bits; the wraparound at 2^32 is by design and left uncorrected.
pub fn timestamp_ms(now_ms: u64) -> (r: u32)
    ensures
        r == now_ms as u32,
{
    #[verifier::truncate] (now_ms as u32)
}

/// The emulator's stateful core: the generator, the shared retarget
/// deadline, and the gyroscope target.
pub struct EmulatorCore {
    /// The generator every draw goes through, owned by this core and fixed
    /// at construction.
    pub rng: rand::rngs::StdRng,
    /// Wall-clock millisecond deadline after which all targets are redrawn.
    pub next_target_change_ms: u64,
    /// The gyroscope target vector, milli-degrees per second.
    pub gyro_target: (i32, i32, i32),
}

impl EmulatorCore {
    /// A fresh core with a generator seeded from entropy: targets at rest
    /// and a deadline in the past, so the first sample redraws every target.
    pub fn new() -> (r: EmulatorCore)
        ensures
            r.next_target_change_ms == 0,
            r.gyro_target == (0i32, 0i32, 0i32),
    {
        EmulatorCore::from_seed(random_seed())
    }

    /// A fresh core whose generator is seeded deterministically: two cores
    /// built from the same seed draw the same stream.
    pub fn from_seed(seed: u64) -> (r: EmulatorCore)
        ensures
            r.next_target_change_ms == 0,
            r.gyro_target == (0i32, 0i32, 0i32),
    {
        EmulatorCore { rng: rng_from_seed(seed), next_target_change_ms: 0, gyro_target: (0, 0, 0) }
    }

    /// Whether the wall clock has passed the retarget deadline.
    pub fn retarget_due(&self, now_ms: u64) -> (r: bool)
        ensures
            r == (now_ms >= self.next_target_change_ms),
    {
        now_ms >= self.next_target_change_ms
    }

    /// Redraw the gyroscope target, each axis uniform in [-2000, 2000)
    /// milli-degrees per second, and draw the next retarget deadline
    /// uniformly from 1000 to 3000 ms ahead.  The caller redraws the
    /// accelerometer and magnetometer targets at the same moment.
    pub fn apply_retarget(&mut self, now_ms: u64)
        requires
            now_ms + 3000 <= u64::MAX,
        ensures
            -2000 <= final(self).gyro_target.0 < 2000,
            -2000 <= final(self).gyro_target.1 < 2000,
            -2000 <= final(self).gyro_target.2 < 2000,
            now_ms + 1000 <= final(self).next_target_change_ms < now_ms + 3000,
    {
        let x = random_range_i32(&mut self.rng, -2000, 2000);
        let y = random_range_i32(&mut self.rng, -2000, 2000);
        let z = random_range_i32(&mut self.rng, -2000, 2000);
        self.gyro_target = (x, y, z);
        let delay = random_range_u64(&mut self.rng, 1000, 3000);
        self.next_target_change_ms = now_ms + delay;
    }

    /// Whether a channel is due for an update: the time elapsed since its
    /// own last timestamp must reach a jitter threshold drawn fresh from
    /// `[jitter_lo, jitter_hi)` milliseconds.  The draw makes the channels'
    /// cadences stochastically independent; a channel is certainly due once
    /// the elapsed time reaches `jitter_hi - 1`, and certainly not before
    /// `jitter_lo`.
    pub fn sensor_due(
        &mut self,
        now_ms: u64,
        last_timestamp: u32,
        jitter_lo: u64,
        jitter_hi: u64,
    ) -> (r: bool)
        requires
            jitter_lo < jitter_hi,
        ensures
            final(self).next_target_change_ms == old(self).next_target_change_ms,
            final(self).gyro_target == old(self).gyro_target,
            elapsed_ms_spec(now_ms, last_timestamp) >= jitter_hi - 1 ==> r,
            elapsed_ms_spec(now_ms, last_timestamp) < jitter_lo ==> !r,
    {
        let elapsed = now_ms.saturating_sub(last_timestamp as u64);
        let jitter = random_range_u64(&mut self.rng, jitter_lo, jitter_hi);
        elapsed >= jitter
    }

    /// One bounded step of each gyroscope axis toward the current target.
    /// The caller blends each `Advanced` axis and adds the channel's noise.
    pub fn gyro_step(&self, current: (i32, i32, i32)) -> (r: (IntStep, IntStep, IntStep))
        requires
            -0x7000_0000 <= current.0 <= 0x7000_0000,
            -0x7000_0000 <= current.1 <= 0x7000_0000,
            -0x7000_0000 <= current.2 <= 0x7000_0000,
            -2000 <= self.gyro_target.0 <= 2000,
            -2000 <= self.gyro_target.1 <= 2000,
            -2000 <= self.gyro_target.2 <= 2000,
        ensures
            r.0 == int_step_spec(current.0, self.gyro_target.0, GYRO_MAX_CHANGE),
            r.1 == int_step_spec(current.1, self.gyro_target.1, GYRO_MAX_CHANGE),
            r.2 == int_step_spec(current.2, self.gyro_target.2, GYRO_MAX_CHANGE),
    {
        let x = move_toward_target_int(current.0, self.gyro_target.0, GYRO_MAX_CHANGE);
        let y = move_toward_target_int(current.1, self.gyro_target.1, GYRO_MAX_CHANGE);
        let z = move_toward_target_int(current.2, self.gyro_target.2, GYRO_MAX_CHANGE);
        (x, y, z)
    }
}

} // verus!
