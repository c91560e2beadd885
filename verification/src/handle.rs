//! The per-process handle: one supervised process's launch plan, restart
//! policy and current live state, together with the lifecycle state machine
//! the supervisor drives every cycle.
//!
//! Each cycle a running handle is polled; the tagged outcome decides the
//! transition: still running keeps the live reference, a clean exit clears
//! it for good, a failed exit or a signal kill clears it and asks for exactly
//! one re-spawn when the spec's restart flag allows it.

use vstd::prelude::*;
use crate::config::{restart_enabled, restart_enabled_of};
use crate::launch::LaunchPlan;

verus! {

/// The tagged result of one non-blocking liveness check of a live process.
#[derive(Clone, Copy, Debug)]
pub enum PollOutcome {
    /// The process has not terminated.
    Running,
    /// The process exited with status code 0.
    ExitedClean,
    /// The process exited with a non-zero status code.
    ExitedWithError { code: i32 },
    /// The process was terminated by a signal (the signal number, where the
    /// OS reports one).
    KilledBySignal { signal: Option<i32> },
}

/// The tagged outcome of one detected termination, by OS conventions:
/// status code 0 is a clean exit, any other code an error exit, and no code
/// at all a signal kill, with the signal number where the OS reports one.
pub open spec fn exit_outcome(code: Option<i32>, signal: Option<i32>) -> PollOutcome {
    match code {
        Some(c) => if c == 0 {
            PollOutcome::ExitedClean
        } else {
            PollOutcome::ExitedWithError { code: c }
        },
        None => PollOutcome::KilledBySignal { signal },
    }
}

/// Interprets a terminated process's status code and signal as a tagged
/// outcome, so that the restart policy works on the tag and never on raw
/// numbers.
pub fn classify_exit(code: Option<i32>, signal: Option<i32>) -> (r: PollOutcome)
    ensures
        r == exit_outcome(code, signal),
{
    match code {
        Some(c) => {
            if c == 0 {
                PollOutcome::ExitedClean
            } else {
                PollOutcome::ExitedWithError { code: c }
            }
        },
        None => PollOutcome::KilledBySignal { signal },
    }
}

/// Whether an outcome counts as a failure that the restart policy applies
/// to: a non-zero exit or a signal kill, never a clean exit and never a
/// still-running process.
pub open spec fn needs_restart(outcome: PollOutcome) -> bool {
    match outcome {
        PollOutcome::ExitedWithError { .. } => true,
        PollOutcome::KilledBySignal { .. } => true,
        PollOutcome::Running => false,
        PollOutcome::ExitedClean => false,
    }
}

/// The restart decision for one polled handle: re-spawn exactly when the
/// outcome is a failure and the spec's restart flag (default true) allows it.
pub open spec fn respawn_decision(outcome: PollOutcome, restart: Option<bool>) -> bool {
    needs_restart(outcome) && restart_enabled_of(restart)
}

/// Decides whether a process with the given poll outcome and restart flag
/// is re-spawned.
pub fn decide_respawn(outcome: PollOutcome, restart: &Option<bool>) -> (r: bool)
    ensures
        r == respawn_decision(outcome, *restart),
{
    let failed = match outcome {
        PollOutcome::ExitedWithError { .. } => true,
        PollOutcome::KilledBySignal { .. } => true,
        PollOutcome::Running => false,
        PollOutcome::ExitedClean => false,
    };
    failed && restart_enabled(restart)
}

/// Law: a failure outcome (non-zero exit or signal kill) leads to a re-spawn
/// exactly when the restart flag allows it; with restart off the handle
/// stays cleared.
pub proof fn failure_respawns_iff_flag(outcome: PollOutcome, restart: Option<bool>)
    requires
        needs_restart(outcome),
    ensures
        respawn_decision(outcome, restart) == restart_enabled_of(restart),
{
}

/// Law: a clean exit never leads to a re-spawn, whatever the restart flag.
pub proof fn clean_exit_never_respawns(restart: Option<bool>)
    ensures
        !respawn_decision(PollOutcome::ExitedClean, restart),
{
}

/// The runtime unit owning one spec's current state: the launch plan used
/// for the first spawn and every re-spawn, the spec's restart flag, and the
/// live OS process reference, present only while the process is known to be
/// running. Holding the reference as an `Option` makes the invariant that at
/// most one live process reference exists per handle structural: there is no
/// second slot to put one in, and recording a spawn demands the slot empty.
pub struct ProcessHandle {
    pub plan: LaunchPlan,
    pub restart: Option<bool>,
    pub live: Option<u64>,
}

impl ProcessHandle {
    /// Whether the handle currently holds a live process reference.
    pub open spec fn is_running(self) -> bool {
        self.live is Some
    }

    /// Whether two handle states describe the same process: same launch plan
    /// and same restart policy. Every lifecycle transition preserves this.
    pub open spec fn same_launch(self, other: ProcessHandle) -> bool {
        self.plan == other.plan && self.restart == other.restart
    }

    /// A handle for a process just spawned from `plan` with the given pid.
    pub fn new(plan: LaunchPlan, restart: Option<bool>, pid: u64) -> (h: ProcessHandle)
        ensures
            h.plan == plan,
            h.restart == restart,
            h.live == Some(pid),
    {
        ProcessHandle { plan, restart, live: Some(pid) }
    }

    /// The pid of the live process, where one is known to be running.
    pub fn pid(&self) -> (r: Option<u64>)
        ensures
            r == self.live,
    {
        self.live
    }

    /// Whether the handle currently holds a live process reference.
    pub fn is_live(&self) -> (r: bool)
        ensures
            r == self.is_running(),
    {
        self.live.is_some()
    }

    /// Applies one poll outcome to a running handle: still running keeps the
    /// live reference, any exit clears it, and the result says whether the
    /// restart policy asks for exactly one re-spawn before the next poll.
    pub fn apply_poll(&mut self, outcome: PollOutcome) -> (respawn: bool)
        requires
            old(self).is_running(),
        ensures
            final(self).same_launch(*old(self)),
            outcome is Running ==> final(self).live == old(self).live,
            !(outcome is Running) ==> !final(self).is_running(),
            respawn == respawn_decision(outcome, old(self).restart),
    {
        match outcome {
            PollOutcome::Running => false,
            _ => {
                self.live = None;
                decide_respawn(outcome, &self.restart)
            },
        }
    }

    /// Records the one re-spawn the restart policy asked for. Demanding the
    /// live slot empty rules out a double spawn: no second live reference
    /// can ever be recorded over a first.
    pub fn record_spawn(&mut self, pid: u64)
        requires
            !old(self).is_running(),
        ensures
            final(self).same_launch(*old(self)),
            final(self).live == Some(pid),
    {
        self.live = Some(pid);
    }

    /// Takes the live process reference for termination, clearing the
    /// handle. On an already-dead handle this is a no-op that leaves the
    /// handle exactly as it was and reports nothing to kill; it is never an
    /// error.
    pub fn take_for_terminate(&mut self) -> (pid: Option<u64>)
        ensures
            pid == old(self).live,
            final(self).same_launch(*old(self)),
            !final(self).is_running(),
            !old(self).is_running() ==> *final(self) == *old(self),
    {
        let pid = self.live;
        self.live = None;
        pid
    }
}

} // verus!
