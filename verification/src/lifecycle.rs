//! The application's lifecycle: what startup does with the result of the
//! launch, which tasks it starts, and which events shut the backend down.

use vstd::prelude::*;
use vstd::string::*;
use crate::launcher::LaunchError;
use crate::state::AppState;
use crate::streamer::Feed;
use crate::supervisor::Supervisor;
use crate::text::append;

verus! {

/// How startup goes on after the launch of the backend.
#[derive(Debug)]
pub enum Startup<C, P> {
    /// There is no backend: tell the user `diagnostic` and exit with
    /// `exit_code`.
    Abort { diagnostic: String, exit_code: i32 },
    /// The backend runs: share the state and start the feeds.
    Ready(AppState<C, P>),
}

/// An event in the life of the application.
#[derive(Clone, Copy, PartialEq, Eq, Debug, Structural)]
pub enum LifecycleEvent {
    /// The user asked to close the window.
    CloseRequested,
    /// The host asked the application to terminate.
    TerminationSignal,
    /// The shared state is being discarded.
    StateDropped,
    /// Anything else.
    Other,
}

/// The exit code of an application that could not start its backend.
pub const STARTUP_FAILURE_EXIT_CODE: i32 = 1;

/// The diagnostic for a launch failure whose own message is `reason`.
pub open spec fn startup_diagnostic(reason: Seq<char>) -> Seq<char> {
    "Ошибка запуска бэкенда: "@ + reason
}

/// The feeds that are republished from startup on, one task each.
pub open spec fn startup_feeds() -> Seq<Feed> {
    seq![Feed::AvailableJvmProcesses, Feed::GraphQueues]
}

/// Whether `event` asks for the backend to be shut down.
pub open spec fn shuts_down(event: LifecycleEvent) -> bool {
    event != LifecycleEvent::Other
}

/// Decides how startup goes on. A failed launch is fatal: the application
/// reports it and exits. A launched process is put under supervision in a
/// fresh state, which has no client yet.
pub fn startup<C, P>(launched: Result<P, LaunchError>) -> (next: Startup<C, P>)
    ensures
        match launched {
            Ok(process) => next matches Startup::Ready(state) && state.client() is None
                && state.backend() == Supervisor::Running(process),
            Err(error) => next matches Startup::Abort { diagnostic, exit_code } && diagnostic@
                == startup_diagnostic(error.text()) && exit_code == STARTUP_FAILURE_EXIT_CODE,
        },
{
    match launched {
        Ok(process) => {
            let mut state = AppState::new();
            let _ = state.backend_started(process);
            Startup::Ready(state)
        },
        Err(error) => {
            let reason = error.message();
            Startup::Abort {
                diagnostic: append("Ошибка запуска бэкенда: ", reason.as_str()),
                exit_code: STARTUP_FAILURE_EXIT_CODE,
            }
        },
    }
}

/// The feeds whose tasks are started at startup.
pub fn feeds_at_startup() -> (feeds: Vec<Feed>)
    ensures
        feeds@ == startup_feeds(),
{
    let mut feeds: Vec<Feed> = Vec::new();
    feeds.push(Feed::AvailableJvmProcesses);
    feeds.push(Feed::GraphQueues);
    feeds
}

/// The supervisor after `event`, and the process that the event obtains for
/// termination.
pub open spec fn after_event<P>(backend: Supervisor<P>, event: LifecycleEvent) -> (
    Supervisor<P>,
    Option<P>,
) {
    if shuts_down(event) {
        backend.after_take()
    } else {
        (backend, None)
    }
}

/// Answers a lifecycle event. An event that shuts the backend down takes the
/// process for termination, as [`AppState::kill_backend`] does; any other
/// event changes nothing and obtains nothing.
pub fn on_lifecycle_event<C, P>(state: &mut AppState<C, P>, event: LifecycleEvent) -> (process:
    Option<P>)
    ensures
        (final(state).backend(), process) == after_event(old(state).backend(), event),
        final(state).client() == old(state).client(),
{
    match event {
        LifecycleEvent::CloseRequested => state.kill_backend(),
        LifecycleEvent::TerminationSignal => state.kill_backend(),
        LifecycleEvent::StateDropped => state.kill_backend(),
        LifecycleEvent::Other => None,
    }
}

/// Of any two events, at most one obtains the process, and none does after
/// an event that shuts the backend down: a window that closes while a signal
/// arrives starts one termination, not two.
pub proof fn lemma_shutdown_triggers_terminate_once<P>(
    backend: Supervisor<P>,
    first: LifecycleEvent,
    second: LifecycleEvent,
)
    ensures
        ({
            let (then, earlier) = after_event(backend, first);
            let (_, later) = after_event(then, second);
            &&& !(earlier is Some && later is Some)
            &&& shuts_down(first) ==> later is None
        }),
{
}

/// Each feed has exactly one task.
pub proof fn lemma_one_task_per_feed(feed: Feed)
    ensures
        exists|i: int| 0 <= i < startup_feeds().len() && startup_feeds()[i] == feed,
        forall|i: int, j: int|
            0 <= i < startup_feeds().len() && 0 <= j < startup_feeds().len() && startup_feeds()[i]
                == startup_feeds()[j] ==> i == j,
{
    match feed {
        Feed::AvailableJvmProcesses => {
            assert(startup_feeds()[0] == feed);
        },
        Feed::GraphQueues => {
            assert(startup_feeds()[1] == feed);
        },
    }
}

} // verus!
