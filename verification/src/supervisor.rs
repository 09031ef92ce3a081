//! The supervisor's state machine.
//!
//! One supervisor owns at most one live backend child.  The host drives a
//! start attempt step by step — it allocates a port, spawns the child and
//! polls its health endpoint — and records each outcome here; every
//! transition is verified against the lifecycle invariant.

use vstd::prelude::*;

verus! {

/// Where the supervisor stands in its lifecycle.
///
/// A start attempt moves `Idle` to `Starting` and then to `Ready` on success
/// or `Failed` on a fatal step.  A failed attempt may be followed by a fresh
/// one.  `Stopped` is terminal: it is reached by an explicit stop (or the
/// owner's teardown) from any state that has ever started.
#[derive(Clone, Copy, Debug, PartialEq, Eq, Structural)]
pub enum Phase {
    Idle,
    Starting,
    Ready,
    Failed,
    Stopped,
}

/// Supervisor state for one backend child process.
///
/// `port` is the last allocated port, `0` while nothing has ever been
/// allocated.  `child_pid` stands for the live child handle the host owns:
/// `Some(pid)` exactly while a spawned child has neither been killed nor
/// handed back for killing.
pub struct BackendProcess {
    pub phase: Phase,
    pub port: u16,
    pub child_pid: Option<u32>,
}

impl BackendProcess {
    /// Lifecycle invariant: a fresh supervisor has no port and no child; a
    /// live child exists only while starting or ready, and only once a port
    /// was told to it; a failed or stopped supervisor has already given its
    /// child up for killing.
    pub open spec fn wf(self) -> bool {
        &&& self.phase == Phase::Idle ==> self.port == 0 && self.child_pid.is_none()
        &&& self.child_pid.is_some() ==> self.phase == Phase::Starting || self.phase
            == Phase::Ready
        &&& (self.phase == Phase::Starting || self.phase == Phase::Ready) ==> self.port != 0
    }

    /// A start attempt is admitted from `Idle` and, for a fresh try after a
    /// fatal step, from `Failed`.
    pub open spec fn may_start(self) -> bool {
        self.phase == Phase::Idle || self.phase == Phase::Failed
    }

    /// A fresh supervisor: nothing allocated, nothing spawned.
    pub fn new() -> (s: Self)
        ensures
            s.phase == Phase::Idle,
            s.port == 0,
            s.child_pid.is_none(),
            s.wf(),
    {
        BackendProcess { phase: Phase::Idle, port: 0, child_pid: None }
    }

    /// The last allocated port; `0` means no start has ever allocated one.
    /// The value says nothing about whether the child is still alive.
    pub fn current_port(&self) -> (p: u16)
        ensures
            p == self.port,
    {
        self.port
    }

    /// Whether a start attempt is admitted from the current phase.
    pub fn can_start(&self) -> (b: bool)
        ensures
            b == self.may_start(),
    {
        match self.phase {
            Phase::Idle => true,
            Phase::Failed => true,
            _ => false,
        }
    }

    /// Record the port the allocator returned and enter `Starting`.
    pub fn begin_start(&mut self, port: u16)
        requires
            old(self).wf(),
            old(self).may_start(),
            port != 0,
        ensures
            final(self).phase == Phase::Starting,
            final(self).port == port,
            final(self).child_pid.is_none(),
            final(self).wf(),
    {
        self.phase = Phase::Starting;
        self.port = port;
        self.child_pid = None;
    }

    /// Record the child the host spawned with the allocated port.
    pub fn record_spawn(&mut self, pid: u32)
        requires
            old(self).wf(),
            old(self).phase == Phase::Starting,
            old(self).child_pid.is_none(),
        ensures
            final(self).phase == Phase::Starting,
            final(self).port == old(self).port,
            final(self).child_pid == Some(pid),
            final(self).wf(),
    {
        self.child_pid = Some(pid);
    }

    /// The health poll succeeded: the start attempt is complete and the
    /// allocated port is handed to the host.
    pub fn mark_ready(&mut self) -> (p: u16)
        requires
            old(self).wf(),
            old(self).phase == Phase::Starting,
        ensures
            final(self).phase == Phase::Ready,
            final(self).port == old(self).port,
            final(self).child_pid == old(self).child_pid,
            final(self).wf(),
            p == old(self).port,
            p != 0,
    {
        self.phase = Phase::Ready;
        self.port
    }

    /// A fatal step aborted the start attempt.  Whatever child was already
    /// spawned is handed back so the host can kill it before reporting the
    /// failure: a failed start never leaks a live child.
    pub fn abort_start(&mut self) -> (victim: Option<u32>)
        requires
            old(self).wf(),
            old(self).phase == Phase::Starting,
        ensures
            final(self).phase == Phase::Failed,
            final(self).port == old(self).port,
            final(self).child_pid.is_none(),
            final(self).wf(),
            victim == old(self).child_pid,
    {
        let victim = self.child_pid;
        self.child_pid = None;
        self.phase = Phase::Failed;
        victim
    }

    /// Attach to a backend that is already running outside the supervisor on
    /// a known port.  This is the same start-shaped contract as a spawned
    /// start, with no child to own: stopping later has nothing to kill.
    pub fn attach_external(&mut self, port: u16)
        requires
            old(self).wf(),
            old(self).may_start(),
            port != 0,
        ensures
            final(self).phase == Phase::Ready,
            final(self).port == port,
            final(self).child_pid.is_none(),
            final(self).wf(),
    {
        self.phase = Phase::Ready;
        self.port = port;
        self.child_pid = None;
    }

    /// What a stop does to the state, and which child it hands back for
    /// killing.  Stopping never errors: on a supervisor that never started it
    /// does nothing, anywhere else it clears the child handle (if one is
    /// still held) and makes the terminal phase; the port is kept for
    /// reading.  A second stop finds no handle and hands back nothing.
    pub open spec fn stop_transition(self) -> (BackendProcess, Option<u32>) {
        (
            BackendProcess {
                phase: if self.phase == Phase::Idle {
                    Phase::Idle
                } else {
                    Phase::Stopped
                },
                port: self.port,
                child_pid: None,
            },
            self.child_pid,
        )
    }

    /// Stop the supervisor: clear the child handle and hand it back so the
    /// host can kill the process.
    pub fn stop(&mut self) -> (victim: Option<u32>)
        requires
            old(self).wf(),
        ensures
            (*final(self), victim) == old(self).stop_transition(),
            final(self).wf(),
            final(self).child_pid.is_none(),
            final(self).port == old(self).port,
    {
        let victim = self.child_pid;
        self.child_pid = None;
        if !matches!(self.phase, Phase::Idle) {
            self.phase = Phase::Stopped;
        }
        victim
    }
}

/// Stopping is idempotent: the first stop already leaves no live child
/// handle, and a second stop changes nothing and hands back no child.
pub proof fn lemma_stop_idempotent(s: BackendProcess)
    requires
        s.wf(),
    ensures
        s.stop_transition().0.child_pid.is_none(),
        s.stop_transition().0.stop_transition().0 == s.stop_transition().0,
        s.stop_transition().0.stop_transition().1.is_none(),
{
}

/// The allocated port survives a stop: once the supervisor is ready the port
/// is non-zero, and stopping — however often — keeps it readable unchanged.
pub proof fn lemma_port_stable_after_stop(s: BackendProcess)
    requires
        s.wf(),
        s.phase == Phase::Ready,
    ensures
        s.port != 0,
        s.stop_transition().0.port == s.port,
        s.stop_transition().0.stop_transition().0.port == s.port,
{
}

} // verus!
