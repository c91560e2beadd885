//! The supervisor: the ordered collection of process handles, the poll
//! interval, and the process-wide stop state. It owns the per-cycle
//! poll/restart decisions and the coordinated shutdown that terminates
//! every still-running process.
//!
//! The caller drives it: at the top of each cycle it either observes the
//! shutdown request and calls [`Supervisor::shutdown`], or sleeps for
//! [`Supervisor::interval_ms`] and then, for every handle in manifest order,
//! feeds the poll outcome to [`Supervisor::poll_handle`] and records the
//! pid of the one re-spawn asked for with [`Supervisor::record_spawn`].

use vstd::prelude::*;
use crate::config::interval_ms_of;
use crate::handle::{respawn_decision, PollOutcome, ProcessHandle};

verus! {

/// The pids of the running handles of `hs`, in manifest order: exactly what
/// a coordinated shutdown has to terminate.
pub open spec fn live_pids(hs: Seq<ProcessHandle>) -> Seq<u64>
    decreases hs.len(),
{
    if hs.len() == 0 {
        Seq::empty()
    } else {
        match hs.last().live {
            Some(pid) => live_pids(hs.drop_last()).push(pid),
            None => live_pids(hs.drop_last()),
        }
    }
}

/// Extending the handle sequence by one element extends its live pids by
/// that element's pid, where it has one.
proof fn lemma_live_pids_take_step(hs: Seq<ProcessHandle>, i: int)
    requires
        0 <= i < hs.len(),
    ensures
        live_pids(hs.take(i + 1)) == match hs[i].live {
            Some(pid) => live_pids(hs.take(i)).push(pid),
            None => live_pids(hs.take(i)),
        },
{
    assert(hs.take(i + 1).drop_last() =~= hs.take(i));
    assert(hs.take(i + 1).last() == hs[i]);
}

/// Law: coordinated shutdown reaches every running handle. The pid of every
/// handle that holds a live process reference stands in the kill list that
/// `live_pids` describes.
pub proof fn lemma_live_pids_complete(hs: Seq<ProcessHandle>, i: int, pid: u64)
    requires
        0 <= i < hs.len(),
        hs[i].live == Some(pid),
    ensures
        live_pids(hs).contains(pid),
    decreases hs.len(),
{
    if i == hs.len() - 1 {
        let rest = live_pids(hs.drop_last());
        assert(live_pids(hs) == rest.push(pid));
        assert(live_pids(hs)[rest.len() as int] == pid);
    } else {
        lemma_live_pids_complete(hs.drop_last(), i, pid);
        let rest = live_pids(hs.drop_last());
        let k = choose|k: int| 0 <= k < rest.len() && rest[k] == pid;
        match hs.last().live {
            Some(q) => {
                assert(live_pids(hs) == rest.push(q));
                assert(live_pids(hs)[k] == pid);
            },
            None => {
                assert(live_pids(hs) == rest);
            },
        }
    }
}

/// The whole supervision run: the handles in manifest order (stable for the
/// run), the poll interval in milliseconds, and whether shutdown has been
/// observed. Once `stopped` is set no handle may transition to running
/// again: the operations that make a handle live demand `!stopped`.
pub struct Supervisor {
    pub handles: Vec<ProcessHandle>,
    pub interval_ms: u64,
    pub stopped: bool,
}

impl Supervisor {
    /// A supervisor over freshly spawned handles, polling at the manifest's
    /// interval (whole seconds, default applied where absent), with shutdown
    /// not yet observed.
    pub fn new(handles: Vec<ProcessHandle>, interval: &Option<u64>) -> (s: Supervisor)
        requires
            (*interval) matches Some(secs) ==> secs * 1000 <= u64::MAX,
        ensures
            s.handles == handles,
            s.interval_ms == interval_ms_of(*interval),
            !s.stopped,
    {
        let interval_ms = crate::config::interval_to_millis(interval);
        Supervisor { handles, interval_ms, stopped: false }
    }

    /// How many handles the supervisor owns: one per manifest spec.
    pub fn num_handles(&self) -> (r: usize)
        ensures
            r == self.handles@.len(),
    {
        self.handles.len()
    }

    /// Whether shutdown has been observed; from then on the run is over and
    /// nothing is spawned or polled any more.
    pub fn is_stopped(&self) -> (r: bool)
        ensures
            r == self.stopped,
    {
        self.stopped
    }

    /// Applies one poll outcome to the handle at `i` (see
    /// [`ProcessHandle::apply_poll`]): an exit clears the live reference and
    /// the result asks for exactly one re-spawn when the restart policy says
    /// so. Every other handle is untouched.
    pub fn poll_handle(&mut self, i: usize, outcome: PollOutcome) -> (respawn: bool)
        requires
            !old(self).stopped,
            i < old(self).handles@.len(),
            old(self).handles@[i as int].is_running(),
        ensures
            final(self).stopped == old(self).stopped,
            final(self).interval_ms == old(self).interval_ms,
            final(self).handles@.len() == old(self).handles@.len(),
            forall|j: int|
                0 <= j < old(self).handles@.len() && j != i ==> final(self).handles@[j] == old(
                    self,
                ).handles@[j],
            final(self).handles@[i as int].same_launch(old(self).handles@[i as int]),
            outcome is Running ==> final(self).handles@[i as int].live == old(
                self,
            ).handles@[i as int].live,
            !(outcome is Running) ==> !final(self).handles@[i as int].is_running(),
            respawn == respawn_decision(outcome, old(self).handles@[i as int].restart),
    {
        let h = &mut self.handles[i];
        h.apply_poll(outcome)
    }

    /// Records the pid of the one re-spawn that the restart policy asked for
    /// on the handle at `i`. Demands that shutdown has not been observed (no
    /// handle becomes running after that) and that the handle is cleared (no
    /// double spawn).
    pub fn record_spawn(&mut self, i: usize, pid: u64)
        requires
            !old(self).stopped,
            i < old(self).handles@.len(),
            !old(self).handles@[i as int].is_running(),
        ensures
            final(self).stopped == old(self).stopped,
            final(self).interval_ms == old(self).interval_ms,
            final(self).handles@.len() == old(self).handles@.len(),
            forall|j: int|
                0 <= j < old(self).handles@.len() && j != i ==> final(self).handles@[j] == old(
                    self,
                ).handles@[j],
            final(self).handles@[i as int].same_launch(old(self).handles@[i as int]),
            final(self).handles@[i as int].live == Some(pid),
    {
        let h = &mut self.handles[i];
        h.record_spawn(pid);
    }

    /// Coordinated shutdown: marks the run stopped and clears every handle,
    /// returning the pids of exactly the handles that were running, in
    /// manifest order — the processes the caller has to terminate. Handles
    /// that were already dead are untouched, and no handle is running
    /// afterwards.
    pub fn shutdown(&mut self) -> (pids: Vec<u64>)
        ensures
            final(self).stopped,
            final(self).interval_ms == old(self).interval_ms,
            final(self).handles@.len() == old(self).handles@.len(),
            forall|j: int|
                0 <= j < old(self).handles@.len() ==> (#[trigger] final(self).handles@[j])
                    .same_launch(old(self).handles@[j]) && !final(self).handles@[j].is_running(),
            pids@ == live_pids(old(self).handles@),
    {
        self.stopped = true;
        let mut pids: Vec<u64> = Vec::new();
        let n = self.handles.len();
        let mut i: usize = 0;
        while i < n
            invariant
                i <= n,
                n == self.handles@.len(),
                self.handles@.len() == old(self).handles@.len(),
                self.stopped,
                self.interval_ms == old(self).interval_ms,
                forall|j: int|
                    0 <= j < i ==> (#[trigger] self.handles@[j]).same_launch(
                        old(self).handles@[j],
                    ) && !self.handles@[j].is_running(),
                forall|j: int| i <= j < n ==> self.handles@[j] == old(self).handles@[j],
                pids@ == live_pids(old(self).handles@.take(i as int)),
            decreases n - i,
        {
            proof {
                lemma_live_pids_take_step(old(self).handles@, i as int);
            }
            let h = &mut self.handles[i];
            let taken = h.take_for_terminate();
            match taken {
                Some(pid) => pids.push(pid),
                None => {},
            }
            i += 1;
        }
        proof {
            assert(old(self).handles@.take(n as int) =~= old(self).handles@);
        }
        pids
    }
}

} // verus!
