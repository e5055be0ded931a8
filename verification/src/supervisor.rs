//! Supervision of the backend process: who may terminate it, and how.
//!
//! The supervisor moves through `NotStarted`, `Running`, `Terminating` and
//! `Terminated`, in that order. The handle of the live process is held only
//! while `Running`, so it can be taken for termination at most once.

use vstd::prelude::*;

verus! {

/// The signals of the termination protocol.
#[derive(Clone, Copy, PartialEq, Eq, Debug, Structural)]
pub enum Signal {
    /// Asks the receivers to shut down in an orderly way.
    Terminate,
    /// Ends the receivers at once.
    Kill,
}

/// One operation of a termination, to be performed by the caller.
#[derive(Clone, Copy, PartialEq, Eq, Debug, Structural)]
pub enum TerminationStep {
    /// Send `signal` to every process of the group `group`.
    SignalGroup { group: i32, signal: Signal },
    /// Let `millis` milliseconds pass.
    Wait { millis: u64 },
    /// End the spawned process itself.
    KillProcess,
    /// Block until the spawned process has been reaped.
    Reap,
}

/// Where the supervisor stands.
#[derive(Clone, Copy, PartialEq, Eq, Debug, Structural)]
pub enum Phase {
    NotStarted,
    Running,
    Terminating,
    Terminated,
}

/// The supervisor of one backend process whose handle has type `P`.
#[derive(PartialEq, Eq, Debug)]
pub enum Supervisor<P> {
    /// No process has been launched yet.
    NotStarted,
    /// The process runs; its handle is held here.
    Running(P),
    /// The handle has been taken by the one caller that terminates the
    /// process.
    Terminating,
    /// The process has been reaped.
    Terminated,
}

/// The time between the graceful and the forceful signal, in milliseconds.
pub const GRACE_PERIOD_MILLIS: u64 = 500;

/// The process id `pid` as the signed number under which the operating
/// system is asked for the process group: the same bits read as `i32`.
pub open spec fn signed_pid(pid: u32) -> int {
    if pid <= i32::MAX {
        pid as int
    } else {
        pid - 0x1_0000_0000
    }
}

/// The operations that end the backend, given what the lookup of its process
/// group returned. A positive `group` is a resolved group: it is signalled
/// gracefully, given the grace period, and then signalled forcefully. Any
/// other value means that no group could be resolved, and only the spawned
/// process is ended. Either way the process is reaped last.
pub open spec fn plan(group: i32) -> Seq<TerminationStep> {
    if group > 0 {
        seq![
            TerminationStep::SignalGroup { group, signal: Signal::Terminate },
            TerminationStep::Wait { millis: GRACE_PERIOD_MILLIS },
            TerminationStep::SignalGroup { group, signal: Signal::Kill },
            TerminationStep::Reap,
        ]
    } else {
        seq![TerminationStep::KillProcess, TerminationStep::Reap]
    }
}

/// The order of the phases.
pub open spec fn rank(phase: Phase) -> nat {
    match phase {
        Phase::NotStarted => 0,
        Phase::Running => 1,
        Phase::Terminating => 2,
        Phase::Terminated => 3,
    }
}

/// The number under which the process group of `pid` is looked up.
pub fn process_group_query(pid: u32) -> (id: i32)
    ensures
        id == signed_pid(pid),
{
    if pid <= 0x7fff_ffff {
        pid as i32
    } else {
        let low: u32 = pid - 0x8000_0000;
        (low as i32) + i32::MIN
    }
}

/// The operations that end the backend, in the order in which they are to be
/// performed, given the process group that the lookup returned.
pub fn termination_plan(group: i32) -> (steps: Vec<TerminationStep>)
    ensures
        steps@ == plan(group),
{
    let mut steps: Vec<TerminationStep> = Vec::new();
    if group > 0 {
        steps.push(TerminationStep::SignalGroup { group, signal: Signal::Terminate });
        steps.push(TerminationStep::Wait { millis: GRACE_PERIOD_MILLIS });
        steps.push(TerminationStep::SignalGroup { group, signal: Signal::Kill });
    } else {
        steps.push(TerminationStep::KillProcess);
    }
    steps.push(TerminationStep::Reap);
    steps
}

impl<P> Supervisor<P> {
    /// Where the supervisor stands.
    pub open spec fn spec_phase(&self) -> Phase {
        match self {
            Supervisor::NotStarted => Phase::NotStarted,
            Supervisor::Running(_) => Phase::Running,
            Supervisor::Terminating => Phase::Terminating,
            Supervisor::Terminated => Phase::Terminated,
        }
    }

    /// The supervisor after a launch has handed over `process`, and what is
    /// handed back: the process is accepted only before any other was.
    pub open spec fn after_start(self, process: P) -> (Supervisor<P>, Result<(), P>) {
        match self {
            Supervisor::NotStarted => (Supervisor::Running(process), Ok(())),
            _ => (self, Err(process)),
        }
    }

    /// The supervisor after a request to terminate, and the handle that the
    /// request obtains: that of the running process, if there is one.
    pub open spec fn after_take(self) -> (Supervisor<P>, Option<P>) {
        match self {
            Supervisor::Running(process) => (Supervisor::Terminating, Some(process)),
            _ => (self, None),
        }
    }

    /// The supervisor after the process under termination has been reaped.
    pub open spec fn after_reap(self) -> Supervisor<P> {
        match self {
            Supervisor::Terminating => Supervisor::Terminated,
            _ => self,
        }
    }

    /// A supervisor that has not been given a process yet.
    pub fn new() -> (supervisor: Supervisor<P>)
        ensures
            supervisor == Supervisor::<P>::NotStarted,
    {
        Supervisor::NotStarted
    }

    /// Where the supervisor stands.
    #[verifier::when_used_as_spec(spec_phase)]
    pub fn phase(&self) -> (phase: Phase)
        ensures
            phase == self.spec_phase(),
    {
        match self {
            Supervisor::NotStarted => Phase::NotStarted,
            Supervisor::Running(_) => Phase::Running,
            Supervisor::Terminating => Phase::Terminating,
            Supervisor::Terminated => Phase::Terminated,
        }
    }

    /// Hands the freshly launched `process` to the supervisor. A supervisor
    /// that was already given one keeps its state and returns `process`.
    pub fn start(&mut self, process: P) -> (refused: Result<(), P>)
        ensures
            (*final(self), refused) == old(self).after_start(process),
    {
        match self {
            Supervisor::NotStarted => {
                *self = Supervisor::Running(process);
                Ok(())
            },
            _ => Err(process),
        }
    }

    /// Takes the running process for termination. Only the first request
    /// after a start obtains the handle; every other one obtains nothing and
    /// leaves the supervisor as it was.
    pub fn take_for_termination(&mut self) -> (taken: Option<P>)
        ensures
            (*final(self), taken) == old(self).after_take(),
    {
        let mut previous = Supervisor::Terminating;
        std::mem::swap(self, &mut previous);
        match previous {
            Supervisor::Running(process) => Some(process),
            other => {
                *self = other;
                None
            },
        }
    }

    /// Records that the process under termination has been reaped.
    pub fn mark_reaped(&mut self)
        ensures
            *final(self) == old(self).after_reap(),
    {
        match self {
            Supervisor::Terminating => {
                *self = Supervisor::Terminated;
            },
            _ => {},
        }
    }
}

/// A termination never signals anything but the group that was resolved,
/// and never a group whose id is not positive.
pub proof fn lemma_plan_signals_only_resolved_group(group: i32, i: int)
    requires
        0 <= i < plan(group).len(),
    ensures
        plan(group)[i] matches TerminationStep::SignalGroup { group: g, .. } ==> g == group && g > 0,
{
}

/// A termination of a resolved group is graceful first and forceful second,
/// with exactly the grace period in between.
pub proof fn lemma_plan_graceful_then_forceful(group: i32)
    requires
        group > 0,
    ensures
        plan(group).len() == 4,
        plan(group)[0] == (TerminationStep::SignalGroup { group, signal: Signal::Terminate }),
        plan(group)[1] == (TerminationStep::Wait { millis: 500 }),
        plan(group)[2] == (TerminationStep::SignalGroup { group, signal: Signal::Kill }),
{
}

/// Every termination ends by reaping the process, and reaps it once.
pub proof fn lemma_plan_reaps_last(group: i32)
    ensures
        plan(group).len() > 0,
        plan(group).last() == TerminationStep::Reap,
        forall|i: int|
            0 <= i < plan(group).len() - 1 ==> #[trigger] plan(group)[i] != TerminationStep::Reap,
{
}

/// Of any two requests to terminate, the second obtains nothing and changes
/// nothing; the first obtains the process exactly if one was running.
pub proof fn lemma_termination_claimed_once<P>(supervisor: Supervisor<P>)
    ensures
        supervisor.after_take().1 is Some <==> supervisor.spec_phase() == Phase::Running,
        supervisor.after_take().0.after_take() == (supervisor.after_take().0, None::<P>),
{
}

/// No operation moves the supervisor back to an earlier phase.
pub proof fn lemma_phases_only_advance<P>(supervisor: Supervisor<P>, process: P)
    ensures
        rank(supervisor.spec_phase()) <= rank(supervisor.after_start(process).0.spec_phase()),
        rank(supervisor.spec_phase()) <= rank(supervisor.after_take().0.spec_phase()),
        rank(supervisor.spec_phase()) <= rank(supervisor.after_reap().spec_phase()),
{
}

/// Once terminated, the supervisor stays terminated and hands out nothing.
pub proof fn lemma_terminated_is_final<P>(supervisor: Supervisor<P>, process: P)
    requires
        supervisor.spec_phase() == Phase::Terminated,
    ensures
        supervisor.after_start(process) == (supervisor, Err::<(), P>(process)),
        supervisor.after_take() == (supervisor, None::<P>),
        supervisor.after_reap() == supervisor,
{
}

} // verus!
