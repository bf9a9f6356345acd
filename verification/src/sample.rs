//! The sensor sample record that flows through the pipeline.
//!
//! One sample carries three sensor channels, each with its own millisecond
//! timestamp: accelerometer (milli-g), gyroscope (milli-degrees per second)
//! and magnetometer (milli-gauss).  The accelerometer and magnetometer axes
//! are real-valued on the wire; this crate carries them as IEEE 754 binary32
//! bit patterns, which keeps every field a plain integer and makes the codec
//! round-trip exact, bit for bit.

use vstd::prelude::*;

verus! {

/// One inertial-measurement sample.
///
/// `x_acc`..`z_acc` and `x_mag`..`z_mag` hold IEEE 754 binary32 bit patterns
/// (the wire representation of the real-valued axes); the gyroscope axes are
/// signed integers; the three timestamps are unsigned 32-bit milliseconds and
/// wrap at 2^32.
#[derive(Clone, Copy, Debug, PartialEq, Eq, Structural)]
pub struct ImuData {
    /// Accelerometer x axis, binary32 bits, milli-g.
    pub x_acc: u32,
    /// Accelerometer y axis, binary32 bits, milli-g.
    pub y_acc: u32,
    /// Accelerometer z axis, binary32 bits, milli-g.
    pub z_acc: u32,
    /// Accelerometer timestamp, milliseconds.
    pub timestamp_acc: u32,
    /// Gyroscope x axis, milli-degrees per second.
    pub x_gyro: i32,
    /// Gyroscope y axis, milli-degrees per second.
    pub y_gyro: i32,
    /// Gyroscope z axis, milli-degrees per second.
    pub z_gyro: i32,
    /// Gyroscope timestamp, milliseconds.
    pub timestamp_gyro: u32,
    /// Magnetometer x axis, binary32 bits, milli-gauss.
    pub x_mag: u32,
    /// Magnetometer y axis, binary32 bits, milli-gauss.
    pub y_mag: u32,
    /// Magnetometer z axis, binary32 bits, milli-gauss.
    pub z_mag: u32,
    /// Magnetometer timestamp, milliseconds.
    pub timestamp_mag: u32,
}

/// The all-zero sample: every axis zero, every timestamp zero.
pub open spec fn zero_sample() -> ImuData {
    ImuData {
        x_acc: 0,
        y_acc: 0,
        z_acc: 0,
        timestamp_acc: 0,
        x_gyro: 0,
        y_gyro: 0,
        z_gyro: 0,
        timestamp_gyro: 0,
        x_mag: 0,
        y_mag: 0,
        z_mag: 0,
        timestamp_mag: 0,
    }
}

impl Default for ImuData {
    /// A fresh sample starts at rest: all fields zero.
    fn default() -> (r: ImuData)
        ensures
            r == zero_sample(),
    {
        ImuData {
            x_acc: 0,
            y_acc: 0,
            z_acc: 0,
            timestamp_acc: 0,
            x_gyro: 0,
            y_gyro: 0,
            z_gyro: 0,
            timestamp_gyro: 0,
            x_mag: 0,
            y_mag: 0,
            z_mag: 0,
            timestamp_mag: 0,
        }
    }
}

} // verus!
