//! The process supervisor: ownership of the single companion-process handle.
//!
//! The host application spawns the companion server once, on a background
//! task, and must terminate it when the host shuts down. The supervisor
//! models the process-wide handle slot and its state machine
//! (`NotStarted -> Starting -> Running -> Stopped`); the host performs the
//! actual spawn and kill and feeds the outcomes in as plain values (the
//! spawned process's identifier, or nothing on failure). The transition
//! functions here are verified to keep the slot's invariant: a handle is
//! stored exactly while the service is running, and the shutdown path takes
//! it at most once.

use crate::layout::ResolvedLayout;
use vstd::prelude::*;
use vstd::string::StringExecFns;

verus! {

/// The lifecycle states of the companion service within one application
/// run. A failed spawn returns to `NotStarted` (no handle exists to clean
/// up); there is no transition out of `Stopped` and no restart.
#[derive(Clone, Copy, PartialEq, Eq, Structural, Debug)]
pub enum ServiceState {
    NotStarted,
    Starting,
    Running,
    Stopped,
}

/// The single handle slot and its lifecycle state. At most one process
/// handle (identified by the spawned process's id) exists at a time, and it
/// is present exactly while the service is `Running`.
pub struct Supervisor {
    state: ServiceState,
    handle: Option<u32>,
}

/// Everything the host needs to spawn the companion process: a fixed
/// interpreter name to be looked up on the standard search path, the entry
/// script as the sole argument, and the working directory.
pub struct SpawnPlan {
    pub program: String,
    pub arg: String,
    pub current_dir: String,
}

/// The state after the spawn outcome is recorded: `Running` on success,
/// back to `NotStarted` on failure.
pub open spec fn state_after_start(spawned: Option<u32>) -> ServiceState {
    if spawned is Some {
        ServiceState::Running
    } else {
        ServiceState::NotStarted
    }
}

/// The slot contents after the spawn outcome is recorded: exactly the
/// handle of a successful spawn, nothing on failure.
pub open spec fn handle_after_start(spawned: Option<u32>) -> Option<u32> {
    spawned
}

/// The termination signal the shutdown path must send: one signal to the
/// stored handle if there is one, none otherwise.
pub open spec fn signal_of_stop(stored: Option<u32>) -> Option<u32> {
    stored
}

/// The state after shutdown ran: `Stopped` if a handle was taken and
/// signaled, unchanged (a silent no-op) if the slot was already empty.
pub open spec fn state_after_stop(st: ServiceState, stored: Option<u32>) -> ServiceState {
    if stored is Some {
        ServiceState::Stopped
    } else {
        st
    }
}

/// The slot contents after shutdown ran: empty, permanently.
pub open spec fn handle_after_stop(stored: Option<u32>) -> Option<u32> {
    None
}

impl Supervisor {
    /// The lifecycle state of the slot.
    pub closed spec fn state(&self) -> ServiceState {
        self.state
    }

    /// The stored process handle, if one is owned.
    pub closed spec fn handle(&self) -> Option<u32> {
        self.handle
    }

    /// The slot invariant: a handle is stored exactly while the service is
    /// running.
    pub open spec fn wf(&self) -> bool {
        self.handle() is Some <==> self.state() == ServiceState::Running
    }

    /// A fresh supervisor: empty slot, service not started.
    pub fn new() -> (s: Supervisor)
        ensures
            s.wf(),
            s.state() == ServiceState::NotStarted,
            s.handle() is None,
    {
        Supervisor { state: ServiceState::NotStarted, handle: None }
    }

    /// Records that the one start request of this run was issued; the
    /// spawn itself happens outside and its outcome is fed to
    /// [`Supervisor::finish_start`].
    pub fn begin_start(&mut self)
        requires
            old(self).wf(),
            old(self).state() == ServiceState::NotStarted,
        ensures
            final(self).wf(),
            final(self).state() == ServiceState::Starting,
            final(self).handle() is None,
    {
        self.state = ServiceState::Starting;
    }

    /// Records the outcome of the spawn: the new process's handle, or
    /// nothing if the spawn failed (interpreter missing, entry script
    /// missing, permission denied). Failure is non-fatal: the slot simply
    /// stays empty and the host keeps running without the service.
    pub fn finish_start(&mut self, spawned: Option<u32>)
        requires
            old(self).wf(),
            old(self).state() == ServiceState::Starting,
        ensures
            final(self).wf(),
            final(self).state() == state_after_start(spawned),
            final(self).handle() == handle_after_start(spawned),
    {
        match spawned {
            Some(pid) => {
                self.handle = Some(pid);
                self.state = ServiceState::Running;
            },
            None => {
                self.state = ServiceState::NotStarted;
            },
        }
    }

    /// Takes the stored handle, if any, out of the slot and returns it so
    /// the host can send exactly one termination signal; the slot becomes
    /// empty permanently. With an empty slot this is a silent no-op: safe
    /// to call whether or not the service ever started, and safe to call
    /// again after a previous stop.
    pub fn stop_service(&mut self) -> (r: Option<u32>)
        requires
            old(self).wf(),
        ensures
            final(self).wf(),
            r == signal_of_stop(old(self).handle()),
            final(self).state() == state_after_stop(old(self).state(), old(self).handle()),
            final(self).handle() == handle_after_stop(old(self).handle()),
            old(self).handle() is None ==> *final(self) == *old(self),
    {
        match self.handle {
            Some(pid) => {
                self.handle = None;
                self.state = ServiceState::Stopped;
                Some(pid)
            },
            None => None,
        }
    }

    /// The current lifecycle state, for the host's diagnostics.
    pub fn current_state(&self) -> (r: ServiceState)
        ensures
            r == self.state(),
    {
        self.state
    }

    /// The stored handle, if any, without taking it.
    pub fn stored_handle(&self) -> (r: Option<u32>)
        ensures
            r == self.handle(),
    {
        self.handle
    }
}

/// How the companion process is to be spawned: the fixed interpreter name
/// `node`, resolved via the standard executable search path, with the
/// resolved entry script as its sole argument and the resolved working
/// directory as its current directory.
pub fn spawn_plan(layout: &ResolvedLayout) -> (r: SpawnPlan)
    ensures
        r.program@ == "node"@,
        r.arg@ == layout.server_entry@,
        r.current_dir@ == layout.work_dir@,
{
    SpawnPlan {
        program: "node".to_owned(),
        arg: layout.server_entry.clone(),
        current_dir: layout.work_dir.clone(),
    }
}

/// One start request settles the state machine in exactly one of
/// `Running` (handle stored) or `NotStarted` (slot empty); the slot is
/// never left partially initialized: it holds the spawned handle exactly
/// when the state is `Running`.
pub proof fn lemma_start_settles(spawned: Option<u32>)
    ensures
        state_after_start(spawned) == ServiceState::Running || state_after_start(spawned)
            == ServiceState::NotStarted,
        handle_after_start(spawned) is Some <==> state_after_start(spawned)
            == ServiceState::Running,
        handle_after_start(spawned) == spawned,
{
}

/// Shutdown is safe in every slot state: with an empty slot it signals
/// nothing and changes nothing; with a stored handle it sends exactly one
/// signal, to that handle, and empties the slot.
pub proof fn lemma_stop_safe(st: ServiceState, stored: Option<u32>)
    ensures
        handle_after_stop(stored) is None,
        stored is None ==> signal_of_stop(stored) is None && state_after_stop(st, stored) == st,
        stored matches Some(pid) ==> signal_of_stop(stored) == Some(pid) && state_after_stop(
            st,
            stored,
        ) == ServiceState::Stopped,
{
}

/// A second shutdown right after a first is a no-op: the first leaves the
/// slot empty, so the second signals nothing and leaves state and slot as
/// the first did.
pub proof fn lemma_stop_twice(st: ServiceState, stored: Option<u32>)
    ensures
        ({
            let st1 = state_after_stop(st, stored);
            let stored1 = handle_after_stop(stored);
            &&& signal_of_stop(stored1) is None
            &&& state_after_stop(st1, stored1) == st1
            &&& handle_after_stop(stored1) == stored1
        }),
{
}

} // verus!
