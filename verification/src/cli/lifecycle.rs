//! Start and stop decisions for the sync process.
//!
//! The application serialises complete start and stop transactions, spawns
//! and stops the process, and asks this model what to do at each step. Two
//! counters keep stale work from acting: the start epoch, which every stop
//! request advances so that a start decided before it is no longer carried
//! out, and the process generation, which tells the output of the current
//! process from that of one already replaced.

use crate::state::SyncState;
use vstd::prelude::*;

verus! {

/// The right to start the sync process, obtained when a start is requested.
/// It stays current until the next stop request.
#[derive(Debug, Clone, Copy, PartialEq, Eq, Structural)]
pub struct SyncStartPermit {
    epoch: u64,
}

impl SyncStartPermit {
    pub closed spec fn epoch_spec(&self) -> u64 {
        self.epoch
    }
}

/// Abstract state of the sync process lifecycle.
pub struct LifecycleView {
    /// The user wants the process to run.
    pub desired_running: bool,
    /// Advanced by every stop request.
    pub start_epoch: u64,
    /// Number of the most recently launched process (0 before the first).
    pub last_generation: u64,
    /// Number of the process whose output may update the application (0: none).
    pub active_generation: u64,
    /// The launched process has not exited yet.
    pub running: bool,
    /// A launched process has not been stopped or joined yet.
    pub has_process: bool,
}

/// Start and stop bookkeeping of the sync process.
#[derive(Debug)]
pub struct SyncLifecycle {
    desired_running: bool,
    start_epoch: u64,
    last_generation: u64,
    active_generation: u64,
    running: bool,
    has_process: bool,
}

impl View for SyncLifecycle {
    type V = LifecycleView;

    closed spec fn view(&self) -> LifecycleView {
        LifecycleView {
            desired_running: self.desired_running,
            start_epoch: self.start_epoch,
            last_generation: self.last_generation,
            active_generation: self.active_generation,
            running: self.running,
            has_process: self.has_process,
        }
    }
}

/// Whether `permit` is current in `l`: a start is still wanted and no stop
/// was requested since the permit was issued.
pub open spec fn permit_current(l: LifecycleView, permit: SyncStartPermit) -> bool {
    l.desired_running && l.start_epoch == permit.epoch_spec()
}

/// The epoch after a stop request.
pub open spec fn next_epoch(e: u64) -> u64 {
    if e == u64::MAX {
        0
    } else {
        (e + 1) as u64
    }
}

/// The generation number of the next launch: one more than the last, never 0.
pub open spec fn next_generation(g: u64) -> u64 {
    if g == u64::MAX {
        1
    } else {
        (g + 1) as u64
    }
}

/// Whether the output of process `generation` may update the application.
pub open spec fn generation_active(l: LifecycleView, generation: u64) -> bool {
    generation != 0 && l.active_generation == generation
}

/// The lifecycle after a start request.
pub open spec fn after_start_request(l: LifecycleView) -> LifecycleView {
    LifecycleView { desired_running: true, ..l }
}

/// The lifecycle after a stop request.
pub open spec fn after_stop_request(l: LifecycleView) -> LifecycleView {
    LifecycleView { desired_running: false, start_epoch: next_epoch(l.start_epoch), ..l }
}

/// The lifecycle after the current process, if any, was stopped and joined.
pub open spec fn after_stop(l: LifecycleView) -> LifecycleView {
    LifecycleView { active_generation: 0, running: false, has_process: false, ..l }
}

/// The lifecycle after a new process was launched.
pub open spec fn after_launch(l: LifecycleView) -> LifecycleView {
    let g = next_generation(l.last_generation);
    LifecycleView {
        last_generation: g,
        active_generation: g,
        running: true,
        has_process: true,
        ..l
    }
}

/// What a process exit does to the lifecycle: the process no longer runs,
/// and an unexpected exit of the active process deactivates it.
pub open spec fn after_exit(l: LifecycleView, generation: u64, intentional: bool) -> LifecycleView {
    LifecycleView {
        running: false,
        active_generation: if !intentional && l.active_generation == generation {
            0
        } else {
            l.active_generation
        },
        ..l
    }
}

/// The sync state to publish after a process exit, given the state the
/// application shows once the process's output has been handled: an
/// unexpected exit of the active process is an error, unless the output had
/// already shown that the machine is offline. Intentional stops and exits
/// of replaced processes change nothing.
pub open spec fn exit_state(
    l: LifecycleView,
    generation: u64,
    intentional: bool,
    current: SyncState,
) -> Option<SyncState> {
    if intentional || l.active_generation != generation || current == SyncState::Offline {
        None
    } else {
        Some(SyncState::Error)
    }
}

impl SyncLifecycle {
    /// No process, no start wanted.
    pub fn new() -> (r: Self)
        ensures
            r@ == (LifecycleView {
                desired_running: false,
                start_epoch: 0,
                last_generation: 0,
                active_generation: 0,
                running: false,
                has_process: false,
            }),
    {
        SyncLifecycle {
            desired_running: false,
            start_epoch: 0,
            last_generation: 0,
            active_generation: 0,
            running: false,
            has_process: false,
        }
    }

    /// Record an explicit start or resume request and return the permit
    /// carried through the start transaction.
    pub fn request_sync_start(&mut self) -> (permit: SyncStartPermit)
        ensures
            final(self)@ == after_start_request(old(self)@),
            permit.epoch_spec() == old(self)@.start_epoch,
            permit_current(final(self)@, permit),
    {
        self.desired_running = true;
        SyncStartPermit { epoch: self.start_epoch }
    }

    /// A permit for an automatic retry, which must not override a pause or a
    /// logout: none unless a start is wanted.
    pub fn retry_sync_permit(&self) -> (r: Option<SyncStartPermit>)
        ensures
            self@.desired_running ==> (r matches Some(p) && p.epoch_spec() == self@.start_epoch),
            !self@.desired_running ==> r is None,
    {
        if self.desired_running {
            Some(SyncStartPermit { epoch: self.start_epoch })
        } else {
            None
        }
    }

    /// Whether a start carrying `permit` may still go ahead.
    pub fn permit_is_current(&self, permit: SyncStartPermit) -> (r: bool)
        ensures
            r == permit_current(self@, permit),
    {
        self.desired_running && self.start_epoch == permit.epoch
    }

    /// Record a stop request (pause, logout, quit) before the stop
    /// transaction begins: every permit issued so far becomes stale.
    pub fn request_stop(&mut self)
        ensures
            final(self)@ == after_stop_request(old(self)@),
    {
        self.desired_running = false;
        self.start_epoch = self.start_epoch.wrapping_add(1);
    }

    /// Record that the current process is being stopped: its output no
    /// longer counts. Returns whether there was a process to stop and join.
    pub fn stop_current(&mut self) -> (had_process: bool)
        ensures
            final(self)@ == after_stop(old(self)@),
            had_process == old(self)@.has_process,
    {
        let had = self.has_process;
        self.active_generation = 0;
        self.running = false;
        self.has_process = false;
        had
    }

    /// Record the launch of a new process; returns its generation number.
    pub fn launched(&mut self) -> (generation: u64)
        ensures
            final(self)@ == after_launch(old(self)@),
            generation == final(self)@.active_generation,
            generation != 0,
    {
        let next = self.last_generation.wrapping_add(1);
        let generation = if next == 0 {
            1
        } else {
            next
        };
        self.last_generation = generation;
        self.active_generation = generation;
        self.running = true;
        self.has_process = true;
        generation
    }

    /// Whether the output of process `generation` may update the application.
    pub fn is_active(&self, generation: u64) -> (r: bool)
        ensures
            r == generation_active(self@, generation),
    {
        generation != 0 && self.active_generation == generation
    }

    /// Whether the launched process is still running.
    pub fn is_running(&self) -> (r: bool)
        ensures
            r == self@.running,
    {
        self.running
    }

    /// The direct child process has been waited for (it exited or was
    /// terminated): nothing runs any more, even while its output is still
    /// being drained.
    pub fn child_reaped(&mut self)
        ensures
            final(self)@ == (LifecycleView { running: false, ..old(self)@ }),
    {
        self.running = false;
    }

    /// Record the exit of process `generation` (stopped on request when
    /// `intentional`), once its output has been handled; `current` is the
    /// sync state shown at that point. Returns the sync state to publish.
    pub fn process_exited(&mut self, generation: u64, intentional: bool, current: SyncState) -> (r:
        Option<SyncState>)
        ensures
            r == exit_state(old(self)@, generation, intentional, current),
            final(self)@ == after_exit(old(self)@, generation, intentional),
    {
        self.running = false;
        if intentional || self.active_generation != generation {
            return None;
        }
        self.active_generation = 0;
        if current == SyncState::Offline {
            None
        } else {
            Some(SyncState::Error)
        }
    }
}

/// A stop request makes every permit issued before it stale, and a later
/// start request does not revive them: the start carrying such a permit is
/// not carried out.
pub proof fn lemma_stop_invalidates_earlier_permits(l: LifecycleView, permit: SyncStartPermit)
    requires
        permit.epoch_spec() == l.start_epoch,
    ensures
        !permit_current(after_stop_request(l), permit),
        !permit_current(after_start_request(after_stop_request(l)), permit),
{
}

/// A start request does not invalidate a permit issued before it: an
/// explicit start and a retry decided earlier are both allowed to proceed.
pub proof fn lemma_start_request_keeps_permits(l: LifecycleView, permit: SyncStartPermit)
    requires
        permit_current(l, permit),
    ensures
        permit_current(after_start_request(l), permit),
{
}

/// After a launch only the new process's output counts: exactly the new
/// generation is active, and it differs from the previous launch's.
pub proof fn lemma_launch_deactivates_older_generations(l: LifecycleView, g: u64)
    ensures
        generation_active(after_launch(l), g) <==> g == next_generation(l.last_generation),
        next_generation(l.last_generation) != l.last_generation,
{
}

/// After a stop no process's output counts, and nothing runs.
pub proof fn lemma_stop_deactivates_all(l: LifecycleView)
    ensures
        forall|g: u64| !generation_active(after_stop(l), g),
        !after_stop(l).running,
        !after_stop(l).has_process,
{
}

/// The exit of a replaced or deliberately stopped process never changes the
/// published sync state, nor which process is active.
pub proof fn lemma_stale_exit_is_ignored(
    l: LifecycleView,
    generation: u64,
    intentional: bool,
    current: SyncState,
)
    requires
        intentional || l.active_generation != generation,
    ensures
        exit_state(l, generation, intentional, current) is None,
        after_exit(l, generation, intentional).active_generation == l.active_generation,
{
}

} // verus!
