//! The configuration surface of both processes: log level, socket path,
//! publish frequency and connect timeout, with their defaults and the
//! documented ranges.

use vstd::prelude::*;

verus! {

/// How loudly to log.
#[derive(Clone, Copy, Debug, PartialEq, Eq, Structural)]
pub enum LogLevel {
    Debug,
    Info,
    Warning,
    Error,
    Trace,
}

/// A configuration value outside its documented range.
#[derive(Clone, Copy, Debug, PartialEq, Eq, Structural)]
pub enum ConfigError {
    /// The connect timeout must lie in [1, 60000] milliseconds.
    TimeoutOutOfRange,
    /// The publish frequency must lie in [1, 1000] Hz.
    FrequencyOutOfRange,
}

/// The default socket path both sides agree on.
pub open spec fn default_socket_path() -> Seq<char> {
    "/tmp/imu-ipc.sock"@
}

/// A connect timeout the read side accepts: 1 to 60000 ms.
pub open spec fn timeout_valid(t: u32) -> bool {
    1 <= t <= 60000
}

/// A publish frequency the write side accepts: 1 to 1000 Hz.
pub open spec fn frequency_valid(f: u32) -> bool {
    1 <= f <= 1000
}

/// The read side's configuration.
#[derive(Clone, Debug)]
pub struct ConsumerArgs {
    /// Where to connect.
    pub socket_path: String,
    /// How loudly to log.
    pub log_level: LogLevel,
    /// Connect timeout, milliseconds, in [1, 60000].
    pub timeout: u32,
}

impl ConsumerArgs {
    /// Resolve the command-line values: the defaults stand in for what was
    /// not given, and a given timeout outside [1, 60000] ms is rejected.
    pub fn parse(
        socket_path: Option<String>,
        log_level: Option<LogLevel>,
        timeout: Option<u32>,
    ) -> (r: Result<ConsumerArgs, ConfigError>)
        ensures
            match r {
                Ok(a) => {
                    &&& a.socket_path@ == (match socket_path {
                        Some(s) => s@,
                        None => default_socket_path(),
                    })
                    &&& a.log_level == (match log_level {
                        Some(l) => l,
                        None => LogLevel::Info,
                    })
                    &&& a.timeout == (match timeout {
                        Some(t) => t,
                        None => 1000u32,
                    })
                    &&& timeout_valid(a.timeout)
                },
                Err(e) => {
                    &&& e == ConfigError::TimeoutOutOfRange
                    &&& (match timeout {
                        Some(t) => !timeout_valid(t),
                        None => false,
                    })
                },
            },
    {
        let t = match timeout {
            Some(t) => t,
            None => 1000,
        };
        if t < 1 || t > 60000 {
            return Err(ConfigError::TimeoutOutOfRange);
        }
        let path = match socket_path {
            Some(s) => s,
            None => "/tmp/imu-ipc.sock".to_owned(),
        };
        let level = match log_level {
            Some(l) => l,
            None => LogLevel::Info,
        };
        Ok(ConsumerArgs { socket_path: path, log_level: level, timeout: t })
    }
}

/// The write side's configuration.
#[derive(Clone, Debug)]
pub struct PublisherArgs {
    /// Where to listen.
    pub socket_path: String,
    /// How loudly to log.
    pub log_level: LogLevel,
    /// Publish frequency, Hz, in [1, 1000].
    pub frequency: u32,
}

impl PublisherArgs {
    /// Resolve the command-line values: the defaults stand in for what was
    /// not given, and a given frequency outside [1, 1000] Hz is rejected.
    pub fn parse(
        socket_path: Option<String>,
        log_level: Option<LogLevel>,
        frequency: Option<u32>,
    ) -> (r: Result<PublisherArgs, ConfigError>)
        ensures
            match r {
                Ok(a) => {
                    &&& a.socket_path@ == (match socket_path {
                        Some(s) => s@,
                        None => default_socket_path(),
                    })
                    &&& a.log_level == (match log_level {
                        Some(l) => l,
                        None => LogLevel::Info,
                    })
                    &&& a.frequency == (match frequency {
                        Some(f) => f,
                        None => 500u32,
                    })
                    &&& frequency_valid(a.frequency)
                },
                Err(e) => {
                    &&& e == ConfigError::FrequencyOutOfRange
                    &&& (match frequency {
                        Some(f) => !frequency_valid(f),
                        None => false,
                    })
                },
            },
    {
        let f = match frequency {
            Some(f) => f,
            None => 500,
        };
        if f < 1 || f > 1000 {
            return Err(ConfigError::FrequencyOutOfRange);
        }
        let path = match socket_path {
            Some(s) => s,
            None => "/tmp/imu-ipc.sock".to_owned(),
        };
        let level = match log_level {
            Some(l) => l,
            None => LogLevel::Info,
        };
        Ok(PublisherArgs { socket_path: path, log_level: level, frequency: f })
    }
}

} // verus!
