//! Data model for the supervisor: process specifications as handed over by
//! the manifest loader, and the poll-interval and restart-policy defaults.

use vstd::prelude::*;

verus! {

/// One environment-variable override for a supervised process. The value may
/// hold shell-style references to ambient environment variables; those are
/// resolved before the process is spawned.
pub struct EnvVar {
    pub key: String,
    pub value: String,
}

/// Declarative description of one process to supervise: executable path,
/// optional display name, arguments, environment overrides, restart policy
/// and stdout redirection target.
pub struct ProcessSpec {
    pub name: Option<String>,
    pub path: String,
    pub args: Vec<String>,
    pub env: Vec<EnvVar>,
    pub restart: Option<bool>,
    pub stdout: Option<String>,
}

/// The validated manifest handed to the supervisor: the poll interval in
/// whole seconds (if given) and the process specs in manifest order.
pub struct SupervisorConfig {
    pub interval: Option<u64>,
    pub apps: Vec<ProcessSpec>,
}

/// Poll interval used when the manifest gives none, in milliseconds.
pub const DEFAULT_INTERVAL_MS: u64 = 5000;

/// The poll interval in milliseconds: the manifest value is whole seconds,
/// converted to milliseconds; absent, the default applies.
pub open spec fn interval_ms_of(interval: Option<u64>) -> int {
    match interval {
        Some(secs) => secs * 1000,
        None => DEFAULT_INTERVAL_MS as int,
    }
}

/// Converts the manifest's poll interval (whole seconds, optional) to
/// milliseconds, applying the default where none is given.
pub fn interval_to_millis(interval: &Option<u64>) -> (r: u64)
    requires
        (*interval) matches Some(secs) ==> secs * 1000 <= u64::MAX,
    ensures
        r == interval_ms_of(*interval),
{
    match interval {
        Some(secs) => *secs * 1000,
        None => DEFAULT_INTERVAL_MS,
    }
}

/// The restart policy of a spec: the flag's value where set, true by default.
pub open spec fn restart_enabled_of(restart: Option<bool>) -> bool {
    match restart {
        Some(b) => b,
        None => true,
    }
}

/// Whether a process with this restart flag is re-spawned after a failure;
/// an absent flag defaults to re-spawning.
pub fn restart_enabled(restart: &Option<bool>) -> (r: bool)
    ensures
        r == restart_enabled_of(*restart),
{
    match restart {
        Some(b) => *b,
        None => true,
    }
}

} // verus!
