//! The write side's verified core: its configuration, the pacing period,
//! the send-failure policy, and the decision that keeps a persistent
//! publisher accepting new consumers after a broken connection.
//!
//! The publisher binds one listening endpoint and serves one connection at
//! a time; the socket I/O itself is carried out by the caller that drives
//! these decisions.

use vstd::prelude::*;
use crate::emulator::EmulatorCore;

verus! {

/// Largest run of consecutive send failures tolerated on one connection;
/// reaching it breaks the connection.
pub const MAX_CONSECUTIVE_ERRORS: u32 = 5;

/// Fixed backoff in milliseconds after a failed send, and before accepting
/// again after a connection ends.
pub const BACKOFF_MS: u64 = 100;

/// The write side: its configuration and its sample source.
pub struct Publisher {
    /// Filesystem path of the listening endpoint.
    pub socket_path: String,
    /// Publishing frequency in Hz; the configuration surface keeps it in
    /// [1, 1000].
    pub frequency_hz: u32,
    /// The synthetic sample source's core.
    pub emulator: EmulatorCore,
}

impl Publisher {
    /// Configuration and a fresh emulator core for one publishing process.
    pub fn new(socket_path: String, frequency_hz: u32) -> (r: Publisher)
        ensures
            r.socket_path@ == socket_path@,
            r.frequency_hz == frequency_hz,
            r.emulator.next_target_change_ms == 0,
            r.emulator.gyro_target == (0i32, 0i32, 0i32),
    {
        Publisher { socket_path, frequency_hz, emulator: EmulatorCore::new() }
    }

    /// Microsecond period of the publish loop: one million over the
    /// frequency, rounded down.
    pub fn period_us(&self) -> (r: u64)
        requires
            1 <= self.frequency_hz <= 1000,
        ensures
            r == 1_000_000u64 / self.frequency_hz as u64,
    {
        1_000_000u64 / (self.frequency_hz as u64)
    }
}

/// What the send loop does after one send attempt.
#[derive(Clone, Copy, Debug, PartialEq, Eq, Structural)]
pub enum SendVerdict {
    /// The send worked; the failure run is over.
    Proceed,
    /// A transient failure: back off briefly and keep the connection.
    BackoffRetry,
    /// Too many consecutive failures: the connection is broken.
    AbortConnection,
}

/// Advance the run of consecutive failures by one outcome: success clears
/// the run; a failure lengthens it, and the connection breaks once the run
/// reaches the bound.
pub open spec fn send_verdict_spec(consecutive_errors: u32, succeeded: bool) -> (u32, SendVerdict) {
    if succeeded {
        (0u32, SendVerdict::Proceed)
    } else if consecutive_errors + 1 >= MAX_CONSECUTIVE_ERRORS {
        ((consecutive_errors + 1) as u32, SendVerdict::AbortConnection)
    } else {
        ((consecutive_errors + 1) as u32, SendVerdict::BackoffRetry)
    }
}

/// Advance the failure-run counter after one send attempt.
pub fn after_send_attempt(consecutive_errors: u32, succeeded: bool) -> (r: (u32, SendVerdict))
    requires
        consecutive_errors < MAX_CONSECUTIVE_ERRORS,
    ensures
        r == send_verdict_spec(consecutive_errors, succeeded),
{
    if succeeded {
        (0, SendVerdict::Proceed)
    } else {
        let run = consecutive_errors + 1;
        if run >= MAX_CONSECUTIVE_ERRORS {
            (run, SendVerdict::AbortConnection)
        } else {
            (run, SendVerdict::BackoffRetry)
        }
    }
}

/// How one connection's publish loop ended.
#[derive(Clone, Copy, Debug, PartialEq, Eq, Structural)]
pub enum ConnectionEnd {
    /// The loop finished of its own accord.
    Finished,
    /// The connection broke after too many consecutive send failures.
    Broken,
    /// Some other error ended the loop.
    Failed,
}

/// What the outer loop does next.
#[derive(Clone, Copy, Debug, PartialEq, Eq, Structural)]
pub enum RunDecision {
    /// Stop publishing for good.
    Stop,
    /// Go back to accepting the next consumer.
    AcceptNext,
    /// Propagate the error and end the process.
    Fail,
}

/// The outer loop's decision for each way a connection can end: a broken
/// connection means a new consumer is awaited, not termination.
pub open spec fn run_decision_spec(end: ConnectionEnd) -> RunDecision {
    match end {
        ConnectionEnd::Finished => RunDecision::Stop,
        ConnectionEnd::Broken => RunDecision::AcceptNext,
        ConnectionEnd::Failed => RunDecision::Fail,
    }
}

/// Decide what the outer loop does after a connection ends.
pub fn after_connection(end: ConnectionEnd) -> (r: RunDecision)
    ensures
        r == run_decision_spec(end),
{
    match end {
        ConnectionEnd::Finished => RunDecision::Stop,
        ConnectionEnd::Broken => RunDecision::AcceptNext,
        ConnectionEnd::Failed => RunDecision::Fail,
    }
}

/// Reconnection law: the fifth consecutive send failure breaks the
/// connection, and a broken connection sends the write side back to
/// accepting a new consumer, never into termination.
pub proof fn lemma_broken_connection_reaccepts()
    ensures
        send_verdict_spec((MAX_CONSECUTIVE_ERRORS - 1) as u32, false).1
            == SendVerdict::AbortConnection,
        forall|e: u32|
            e + 1 < MAX_CONSECUTIVE_ERRORS ==> send_verdict_spec(e, false).1
                == SendVerdict::BackoffRetry,
        run_decision_spec(ConnectionEnd::Broken) == RunDecision::AcceptNext,
{
}

} // verus!
