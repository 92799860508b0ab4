//! Start-up configuration. Durations are whole nanoseconds.

use vstd::prelude::*;
use vstd::string::{StrSliceExecFns, StringSliceAdditionalSpecFns};

verus! {

/// Nanoseconds in a second.
pub const NANOS_PER_SECOND: u64 = 1_000_000_000;

/// The inactivity timeout where none is given: thirty seconds.
pub const DEFAULT_INACTIVITY_TIMEOUT: u64 = 30_000_000_000;

/// The settle timeout where none is given: five seconds.
pub const DEFAULT_SETTLE_TIMEOUT: u64 = 5_000_000_000;

/// The scripts directory where none is given, as the bytes of its path.
pub open spec fn default_directory() -> Seq<u8> {
    "/etc/netlink-dispatcher/scripts.d".spec_bytes()
}

/// What the process is started with. It never changes afterwards.
#[derive(Clone, Debug, PartialEq, Eq)]
pub struct Configuration {
    /// Idle time after which an activated process exits.
    pub inactivity_timeout: u64,
    /// The debounce window before the scripts are run.
    pub settle_timeout: u64,
    /// The directory handed to the script-running facility, as the bytes
    /// of its path: a path need not be text.
    pub scripts_directory: Vec<u8>,
}

/// The nanoseconds in `seconds` whole seconds and `nanos` more.
pub open spec fn nanoseconds(seconds: u64, nanos: u32) -> nat {
    (seconds * NANOS_PER_SECOND + nanos) as nat
}

/// A duration of `seconds` whole seconds and `nanos` nanoseconds as one
/// number of nanoseconds, or `None` if and only if that number is beyond
/// the range of `u64`.
pub fn to_nanoseconds(seconds: u64, nanos: u32) -> (total: Option<u64>)
    ensures
        total is Some <==> nanoseconds(seconds, nanos) <= u64::MAX,
        total matches Some(t) ==> t == nanoseconds(seconds, nanos),
{
    if seconds > u64::MAX / NANOS_PER_SECOND {
        assert(nanoseconds(seconds, nanos) > u64::MAX) by (nonlinear_arith)
            requires
                seconds > u64::MAX / NANOS_PER_SECOND,
                nanoseconds(seconds, nanos) == seconds * 1_000_000_000 + nanos,
        ;
        return None;
    }
    assert(seconds * NANOS_PER_SECOND <= u64::MAX) by (nonlinear_arith)
        requires
            seconds <= u64::MAX / NANOS_PER_SECOND,
    ;
    let whole: u64 = seconds * NANOS_PER_SECOND;
    let part: u64 = nanos as u64;
    if part > u64::MAX - whole {
        None
    } else {
        Some(whole + part)
    }
}

impl Configuration {
    /// The configuration that the given options lead to: each option that
    /// is given stands, each that is not takes its default.
    pub fn resolve(
        inactivity_timeout: Option<u64>,
        settle_timeout: Option<u64>,
        scripts_directory: Option<Vec<u8>>,
    ) -> (configuration: Configuration)
        ensures
            configuration.inactivity_timeout == (match inactivity_timeout {
                Some(t) => t,
                None => DEFAULT_INACTIVITY_TIMEOUT,
            }),
            configuration.settle_timeout == (match settle_timeout {
                Some(t) => t,
                None => DEFAULT_SETTLE_TIMEOUT,
            }),
            configuration.scripts_directory@ == (match scripts_directory {
                Some(d) => d@,
                None => default_directory(),
            }),
    {
        Configuration {
            inactivity_timeout: match inactivity_timeout {
                Some(t) => t,
                None => DEFAULT_INACTIVITY_TIMEOUT,
            },
            settle_timeout: match settle_timeout {
                Some(t) => t,
                None => DEFAULT_SETTLE_TIMEOUT,
            },
            scripts_directory: match scripts_directory {
                Some(d) => d,
                None => "/etc/netlink-dispatcher/scripts.d".as_bytes_vec(),
            },
        }
    }
}

impl Default for Configuration {
    /// Thirty seconds of inactivity, five seconds to settle, and the
    /// system's scripts directory.
    fn default() -> (configuration: Configuration)
        ensures
            configuration.inactivity_timeout == DEFAULT_INACTIVITY_TIMEOUT,
            configuration.settle_timeout == DEFAULT_SETTLE_TIMEOUT,
            configuration.scripts_directory@ == default_directory(),
    {
        Configuration::resolve(None, None, None)
    }
}

} // verus!
