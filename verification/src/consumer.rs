//! The read side's verified core: its configuration, its estimator, and the
//! frame-by-frame decisions of the receive loop.
//!
//! The loop reads a 4-byte length prefix, skips a zero length without
//! consuming payload, reads exactly the prefixed number of payload bytes
//! otherwise, decodes, and hands each decoded sample to the estimator in
//! order.  A clean end of stream at a prefix boundary is normal
//! termination; an end of stream inside a payload is a truncated frame.
//! The connect attempt is bounded by the configured timeout and is not
//! retried here.

use vstd::prelude::*;
use crate::motion::MotionProcessor;
use crate::motion::initial_processor;

verus! {

/// The read side: where to connect, how long to wait, and the estimator
/// that consumes the stream.
pub struct Consumer {
    /// Filesystem path of the endpoint to connect to.
    pub socket_path: String,
    /// Connect timeout in milliseconds; the configuration surface keeps it
    /// in [1, 60000].
    pub timeout_ms: u32,
    /// The estimator fed by this connection, one per consumer.
    pub motion: MotionProcessor,
}

/// What the receive loop does with a length prefix.
#[derive(Clone, Copy, Debug, PartialEq, Eq, Structural)]
pub enum LenAction {
    /// A zero length: skip it and read the next prefix, no payload bytes.
    SkipZero,
    /// Read exactly this many payload bytes.
    ReadPayload(u32),
}

impl Consumer {
    /// A fresh consumer with its own estimator.
    pub fn new(socket_path: String, timeout: u32) -> (r: Consumer)
        ensures
            r.socket_path@ == socket_path@,
            r.timeout_ms == timeout,
            r.motion == initial_processor(),
    {
        Consumer { socket_path, timeout_ms: timeout, motion: MotionProcessor::new() }
    }

    /// Decide what a length prefix asks for.
    pub fn on_length_prefix(len: u32) -> (r: LenAction)
        ensures
            len == 0 ==> r == LenAction::SkipZero,
            len != 0 ==> r == LenAction::ReadPayload(len),
    {
        if len == 0 {
            LenAction::SkipZero
        } else {
            LenAction::ReadPayload(len)
        }
    }
}

} // verus!
