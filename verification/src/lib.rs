//! A verified core for a two-process inertial-measurement telemetry
//! pipeline: a synthetic sensor emulator, a binary sample codec, a
//! length-prefixed framed transport that survives disconnects and malformed
//! payloads without losing alignment, and a motion estimator that fuses the
//! sample stream into orientation, velocity and position.

pub mod codec;
pub mod config;
pub mod consumer;
pub mod emulator;
pub mod framing;
pub mod motion;
pub mod publisher;
pub mod rng;
pub mod sample;
