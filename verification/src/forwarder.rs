//! Forwarding a command of the UI to the backend.
//!
//! A command is one unary call: the request goes to the backend as the UI
//! gave it, and the UI is given the backend's response, or an error with the
//! message of the failure that the backend reported. The application makes
//! the call on the shared client and reports its outcome as a
//! [`CommandEvent`]; the command's function answers with the next
//! [`CommandStep`].

use vstd::prelude::*;
use crate::error::{BackendStatus, Empty, Error, ErrorKind};

verus! {

/// The unary calls of the backend that the UI can invoke.
#[derive(Clone, Copy, PartialEq, Eq, Debug, Structural)]
pub enum Command {
    /// Asks which metrics apply.
    GetApplicableMetrics,
    /// Makes an item visible.
    SetVisible,
    /// Makes an item invisible.
    SetInvisible,
    /// Sets the list of processes to follow.
    SetFollowingPids,
}

/// What happened to a command: the UI invoked it with a request, or the
/// backend answered the call.
#[derive(PartialEq, Eq, Debug)]
pub enum CommandEvent<Q, R> {
    Invoked(Q),
    Answered(Result<R, BackendStatus>),
}

/// What is to be done for a command next.
#[derive(PartialEq, Eq, Debug)]
pub enum CommandStep<Q, T> {
    /// Make the call `command` on the shared client, with `request`.
    Call { command: Command, request: Q },
    /// Return the result to the UI.
    Finished(Result<T, Error>),
}

/// What the caller of a command that returns the backend's response is
/// given: the response as it was sent, or the reported failure.
pub open spec fn forwarded<R>(outcome: Result<R, BackendStatus>) -> Result<R, Error> {
    match outcome {
        Ok(response) => Ok(response),
        Err(status) => Err(Error::GrpcStatus(status.message)),
    }
}

/// What the caller of a command that only acknowledges is given: nothing
/// once the backend has accepted the request, or the reported failure.
pub open spec fn acknowledged<R>(outcome: Result<R, BackendStatus>) -> Result<(), Error> {
    match outcome {
        Ok(_) => Ok(()),
        Err(status) => Err(Error::GrpcStatus(status.message)),
    }
}

/// The event of a call that the backend answered with the failure `status`.
pub open spec fn refused<Q, R>(status: BackendStatus) -> CommandEvent<Q, R> {
    CommandEvent::Answered(Err(status))
}

/// The step that follows `event` in a command that returns the backend's
/// response.
pub open spec fn forwarding_step<Q, R>(command: Command, event: CommandEvent<Q, R>) -> CommandStep<
    Q,
    R,
> {
    match event {
        CommandEvent::Invoked(request) => CommandStep::Call { command, request },
        CommandEvent::Answered(outcome) => CommandStep::Finished(forwarded(outcome)),
    }
}

/// The step that follows `event` in a command that only acknowledges.
pub open spec fn acknowledging_step<Q, R>(command: Command, event: CommandEvent<Q, R>) -> CommandStep<
    Q,
    (),
> {
    match event {
        CommandEvent::Invoked(request) => CommandStep::Call { command, request },
        CommandEvent::Answered(outcome) => CommandStep::Finished(acknowledged(outcome)),
    }
}

fn forwarding<Q, R>(command: Command, event: CommandEvent<Q, R>) -> (step: CommandStep<Q, R>)
    ensures
        step == forwarding_step(command, event),
{
    match event {
        CommandEvent::Invoked(request) => CommandStep::Call { command, request },
        CommandEvent::Answered(Ok(response)) => CommandStep::Finished(Ok(response)),
        CommandEvent::Answered(Err(status)) => CommandStep::Finished(Err(Error::from_status(status))),
    }
}

fn acknowledging<Q, R>(command: Command, event: CommandEvent<Q, R>) -> (step: CommandStep<Q, ()>)
    ensures
        step == acknowledging_step(command, event),
{
    match event {
        CommandEvent::Invoked(request) => CommandStep::Call { command, request },
        CommandEvent::Answered(Ok(_)) => CommandStep::Finished(Ok(())),
        CommandEvent::Answered(Err(status)) => CommandStep::Finished(Err(Error::from_status(status))),
    }
}

/// The query for the metrics that apply. It has nothing to ask with: the
/// call is made with the empty request, and the caller is given the backend's
/// response.
pub fn get_applicable_metrics<R>(event: CommandEvent<Empty, R>) -> (step: CommandStep<Empty, R>)
    ensures
        step == forwarding_step(Command::GetApplicableMetrics, event),
{
    forwarding(Command::GetApplicableMetrics, event)
}

/// The request to make an item visible.
pub fn set_visible<Q, R>(event: CommandEvent<Q, R>) -> (step: CommandStep<Q, ()>)
    ensures
        step == acknowledging_step(Command::SetVisible, event),
{
    acknowledging(Command::SetVisible, event)
}

/// The request to make an item invisible.
pub fn set_invisible<Q, R>(event: CommandEvent<Q, R>) -> (step: CommandStep<Q, ()>)
    ensures
        step == acknowledging_step(Command::SetInvisible, event),
{
    acknowledging(Command::SetInvisible, event)
}

/// The request to follow a list of processes.
pub fn set_following_pids<Q, R>(event: CommandEvent<Q, R>) -> (step: CommandStep<Q, ()>)
    ensures
        step == acknowledging_step(Command::SetFollowingPids, event),
{
    acknowledging(Command::SetFollowingPids, event)
}

/// An invoked command makes its own call, with the request as the UI gave
/// it; the query for the metrics, which is given none, calls with the empty
/// request.
pub proof fn lemma_request_forwarded_unchanged<Q, R>(command: Command, request: Q)
    ensures
        forwarding_step(command, CommandEvent::<Q, R>::Invoked(request)) == (CommandStep::<
            Q,
            R,
        >::Call { command, request }),
        acknowledging_step(command, CommandEvent::<Q, R>::Invoked(request)) == (CommandStep::<
            Q,
            (),
        >::Call { command, request }),
        forwarding_step(Command::GetApplicableMetrics, CommandEvent::<Empty, R>::Invoked(Empty))
            == (CommandStep::<Empty, R>::Call {
            command: Command::GetApplicableMetrics,
            request: Empty,
        }),
{
}

/// A response that the backend sent reaches the caller as it was sent.
pub proof fn lemma_response_unmodified<Q, R>(command: Command, response: R)
    ensures
        forwarding_step(command, CommandEvent::<Q, R>::Answered(Ok(response))) == CommandStep::<
            Q,
            R,
        >::Finished(Ok(response)),
{
}

/// A failure that the backend reported with some message reaches the caller
/// as an error of kind `GrpcStatus` whose text is that message, whether or
/// not the command returns a response.
pub proof fn lemma_failure_carries_backend_message<Q, R>(command: Command, status: BackendStatus)
    ensures
        forwarding_step(command, refused::<Q, R>(status)) matches CommandStep::Finished(Err(error))
            && error.spec_kind() == ErrorKind::GrpcStatus && error.text() == status.message@,
        acknowledging_step(command, refused::<Q, R>(status)) matches CommandStep::Finished(
            Err(error),
        ) && error.spec_kind() == ErrorKind::GrpcStatus && error.text() == status.message@,
{
}

/// A command fails only if the backend reported a failure.
pub proof fn lemma_accepted_request_succeeds<Q, R>(command: Command, outcome: Result<R, BackendStatus>)
    ensures
        forwarding_step(command, CommandEvent::<Q, R>::Answered(outcome)) matches CommandStep::Finished(
            reply,
        ) && (reply is Ok <==> outcome is Ok),
        acknowledging_step(command, CommandEvent::<Q, R>::Answered(outcome)) matches CommandStep::Finished(
            reply,
        ) && (reply is Ok <==> outcome is Ok),
{
}

} // verus!
