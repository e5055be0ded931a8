//! Republishing a streamed feed of the backend on the UI's event bus.
//!
//! A feed is opened once and then read message by message; each message is
//! published under the feed's topic before the next is read. The task ends
//! when the backend closes the stream, when opening or reading fails, or when
//! the event bus refuses a message, and it does not subscribe again. The
//! application performs each operation and reports its outcome as a
//! [`FeedEvent`]; [`feed_step`] answers with the next operation. The open
//! stream travels with the events and the steps: it is handed out with each
//! operation that needs it and comes back with the outcome, so a read is
//! asked for only on a stream that was opened, and the stream is let go when
//! the task ends.

use vstd::prelude::*;
use vstd::string::*;
use crate::error::{BackendStatus, Empty, Error, ErrorKind};
use crate::text::append;

verus! {

/// The feeds that the backend streams.
#[derive(Clone, Copy, PartialEq, Eq, Debug, Structural)]
pub enum Feed {
    /// Updates of the list of JVM processes that can be observed, streamed by
    /// the backend's `listen_jvm_process_list` call.
    AvailableJvmProcesses,
    /// Updates of the state of the graph queues, streamed by the backend's
    /// `listen_graph_queues` call.
    GraphQueues,
}

/// The outcome of the operation that the task asked for last. `S` is the type
/// of an open stream and `M` the type of its messages.
#[derive(PartialEq, Eq, Debug)]
pub enum FeedEvent<S, M> {
    /// The task has been started.
    Started,
    /// The streaming call was opened, or the backend refused it.
    Opened(Result<S, BackendStatus>),
    /// A read on `stream` returned the next message, the end of the stream,
    /// or a failure.
    Read { stream: S, outcome: Result<Option<M>, BackendStatus> },
    /// The message was put on the event bus, or the bus refused it for the
    /// given reason.
    Published { stream: S, accepted: Result<(), String> },
}

/// The operation that the task asks for next.
#[derive(PartialEq, Eq, Debug)]
pub enum FeedStep<S, M> {
    /// Open the streaming call of `feed` on the shared client, with
    /// `request`, which is the empty one.
    Open { feed: Feed, request: Empty },
    /// Read the next message of `stream`.
    Read { stream: S },
    /// Publish `message` under the topic of `feed`, and report whether the
    /// event bus accepted it.
    Publish { feed: Feed, message: M, stream: S },
    /// End the task with the given result.
    Finished(Result<(), Error>),
}

impl Feed {
    /// The topic under which the feed's messages are published.
    pub open spec fn topic_text(self) -> Seq<char> {
        match self {
            Feed::AvailableJvmProcesses => "available-jvm-processes-updated"@,
            Feed::GraphQueues => "graph-queues-updated"@,
        }
    }

    /// The name under which the feed's task appears in the log.
    pub open spec fn task_text(self) -> Seq<char> {
        match self {
            Feed::AvailableJvmProcesses => "listen_available_jvm_processes_updated"@,
            Feed::GraphQueues => "listen_graph_queues"@,
        }
    }

    /// The topic under which the feed's messages are published.
    pub fn topic(self) -> (topic: &'static str)
        ensures
            topic@ == self.topic_text(),
    {
        match self {
            Feed::AvailableJvmProcesses => "available-jvm-processes-updated",
            Feed::GraphQueues => "graph-queues-updated",
        }
    }

    /// The name under which the feed's task appears in the log.
    pub fn task_name(self) -> (name: &'static str)
        ensures
            name@ == self.task_text(),
    {
        match self {
            Feed::AvailableJvmProcesses => "listen_available_jvm_processes_updated",
            Feed::GraphQueues => "listen_graph_queues",
        }
    }
}

/// The line that is logged when the task of `feed` ends with `error`.
pub open spec fn failure_report_text(feed: Feed, error: Error) -> Seq<char> {
    "Error in "@ + feed.task_text() + ": "@ + error.text()
}

/// The operation that follows `event` in the task of `feed`.
pub open spec fn next_step<S, M>(feed: Feed, event: FeedEvent<S, M>) -> FeedStep<S, M> {
    match event {
        FeedEvent::Started => FeedStep::Open { feed, request: Empty },
        FeedEvent::Opened(Ok(stream)) => FeedStep::Read { stream },
        FeedEvent::Opened(Err(status)) => FeedStep::Finished(Err(Error::GrpcStatus(status.message))),
        FeedEvent::Read { stream, outcome: Ok(Some(message)) } => FeedStep::Publish {
            feed,
            message,
            stream,
        },
        FeedEvent::Read { outcome: Ok(None), .. } => FeedStep::Finished(Ok(())),
        FeedEvent::Read { outcome: Err(status), .. } => FeedStep::Finished(
            Err(Error::GrpcStatus(status.message)),
        ),
        FeedEvent::Published { stream, accepted: Ok(_) } => FeedStep::Read { stream },
        FeedEvent::Published { accepted: Err(reason), .. } => FeedStep::Finished(
            Err(Error::Io(reason)),
        ),
    }
}

/// The messages that the backend delivered in a run of events, in the order
/// of their arrival.
pub open spec fn delivered<S, M>(events: Seq<FeedEvent<S, M>>) -> Seq<M>
    decreases events.len(),
{
    if events.len() == 0 {
        Seq::empty()
    } else {
        let earlier = delivered(events.drop_last());
        match events.last() {
            FeedEvent::Read { outcome: Ok(Some(message)), .. } => earlier.push(message),
            _ => earlier,
        }
    }
}

/// The messages that the task of `feed` asks to publish in answer to a run of
/// events, in the order in which it asks.
pub open spec fn republished<S, M>(feed: Feed, events: Seq<FeedEvent<S, M>>) -> Seq<M>
    decreases events.len(),
{
    if events.len() == 0 {
        Seq::empty()
    } else {
        let earlier = republished(feed, events.drop_last());
        match next_step(feed, events.last()) {
            FeedStep::Publish { message, .. } => earlier.push(message),
            _ => earlier,
        }
    }
}

/// Whether `event` reports the outcome of the operation that `step` asks
/// for, and hands back the stream that the step handed out.
pub open spec fn answers<S, M>(step: FeedStep<S, M>, event: FeedEvent<S, M>) -> bool {
    match step {
        FeedStep::Open { .. } => event is Opened,
        FeedStep::Read { stream } => event matches FeedEvent::Read { stream: same, .. } && same
            == stream,
        FeedStep::Publish { stream, .. } => event matches FeedEvent::Published {
            stream: same,
            ..
        } && same == stream,
        FeedStep::Finished(_) => false,
    }
}

/// The events of a task whose call the backend accepts with `stream` and on
/// whose stream it has sent `messages` so far, each of them accepted by the
/// event bus in its turn.
pub open spec fn session<S, M>(stream: S, messages: Seq<M>) -> Seq<FeedEvent<S, M>>
    decreases messages.len(),
{
    if messages.len() == 0 {
        seq![FeedEvent::Started, FeedEvent::Opened(Ok(stream))]
    } else {
        session(stream, messages.drop_last()) + seq![
            FeedEvent::Read { stream, outcome: Ok(Some(messages.last())) },
            FeedEvent::Published { stream, accepted: Ok(()) },
        ]
    }
}

/// The event with which a stream ends: the backend closes it, or a read
/// fails with a status.
pub open spec fn closing<S, M>(stream: S, end: Result<(), BackendStatus>) -> FeedEvent<S, M> {
    match end {
        Ok(_) => FeedEvent::Read { stream, outcome: Ok(None) },
        Err(status) => FeedEvent::Read { stream, outcome: Err(status) },
    }
}

/// Answers `event` with the next operation of the task of `feed`.
pub fn feed_step<S, M>(feed: Feed, event: FeedEvent<S, M>) -> (step: FeedStep<S, M>)
    ensures
        step == next_step(feed, event),
{
    match event {
        FeedEvent::Started => FeedStep::Open { feed, request: Empty },
        FeedEvent::Opened(Ok(stream)) => FeedStep::Read { stream },
        FeedEvent::Opened(Err(status)) => FeedStep::Finished(Err(Error::from_status(status))),
        FeedEvent::Read { stream, outcome: Ok(Some(message)) } => FeedStep::Publish {
            feed,
            message,
            stream,
        },
        FeedEvent::Read { stream: _, outcome: Ok(None) } => FeedStep::Finished(Ok(())),
        FeedEvent::Read { stream: _, outcome: Err(status) } => FeedStep::Finished(
            Err(Error::from_status(status)),
        ),
        FeedEvent::Published { stream, accepted: Ok(_) } => FeedStep::Read { stream },
        FeedEvent::Published { stream: _, accepted: Err(reason) } => FeedStep::Finished(
            Err(Error::Io(reason)),
        ),
    }
}

/// The line that is logged when the task of `feed` ends with `error`. The
/// failure ends that task only; nothing restarts it.
pub fn failure_report(feed: Feed, error: &Error) -> (line: String)
    ensures
        line@ == failure_report_text(feed, *error),
{
    let mut line = append("Error in ", feed.task_name());
    line.append(": ");
    let message = error.message();
    line.append(message.as_str());
    line
}

/// The task that republishes the updates of the list of observable JVM
/// processes.
pub fn listen_available_jvm_processes_updated<S, M>(event: FeedEvent<S, M>) -> (step: FeedStep<
    S,
    M,
>)
    ensures
        step == next_step(Feed::AvailableJvmProcesses, event),
{
    feed_step(Feed::AvailableJvmProcesses, event)
}

/// The task that republishes the updates of the graph queues.
pub fn listen_graph_queues<S, M>(event: FeedEvent<S, M>) -> (step: FeedStep<S, M>)
    ensures
        step == next_step(Feed::GraphQueues, event),
{
    feed_step(Feed::GraphQueues, event)
}

/// Whatever the run of events, the messages that the task asks to publish are
/// the messages that the backend delivered, in the same order: none is lost,
/// none is published twice, none overtakes another.
pub proof fn lemma_republished_in_order<S, M>(feed: Feed, events: Seq<FeedEvent<S, M>>)
    ensures
        republished(feed, events) == delivered(events),
    decreases events.len(),
{
    if events.len() > 0 {
        lemma_republished_in_order(feed, events.drop_last());
    }
}

/// A message that arrives is delivered after all that arrived before it;
/// no other event delivers anything.
pub proof fn lemma_delivered_push<S, M>(events: Seq<FeedEvent<S, M>>, event: FeedEvent<S, M>)
    ensures
        delivered(events.push(event)) == (match event {
            FeedEvent::Read { outcome: Ok(Some(message)), .. } => delivered(events).push(message),
            _ => delivered(events),
        }),
{
    assert(events.push(event).drop_last() =~= events);
}

/// A session is the start, the opening, and a read and a publication for
/// each message.
pub proof fn lemma_session_unfolds<S, M>(stream: S, messages: Seq<M>)
    ensures
        session(stream, messages).len() == 2 * messages.len() + 2,
        messages.len() == 0 ==> session(stream, messages) == Seq::<FeedEvent<S, M>>::empty().push(
            FeedEvent::Started,
        ).push(FeedEvent::Opened(Ok(stream))),
        messages.len() > 0 ==> session(stream, messages) == session(
            stream,
            messages.drop_last(),
        ).push(FeedEvent::Read { stream, outcome: Ok(Some(messages.last())) }).push(
            FeedEvent::Published { stream, accepted: Ok(()) },
        ),
    decreases messages.len(),
{
    if messages.len() == 0 {
        assert(session(stream, messages) =~= Seq::<FeedEvent<S, M>>::empty().push(
            FeedEvent::Started,
        ).push(FeedEvent::Opened(Ok(stream))));
    } else {
        lemma_session_unfolds(stream, messages.drop_last());
        assert(session(stream, messages) =~= session(stream, messages.drop_last()).push(
            FeedEvent::Read { stream, outcome: Ok(Some(messages.last())) },
        ).push(FeedEvent::Published { stream, accepted: Ok(()) }));
    }
}

/// What a session has delivered are the messages that the backend sent.
pub proof fn lemma_session_delivers<S, M>(stream: S, messages: Seq<M>)
    ensures
        delivered(session(stream, messages)) == messages,
    decreases messages.len(),
{
    lemma_session_unfolds(stream, messages);
    if messages.len() == 0 {
        let started = Seq::<FeedEvent<S, M>>::empty().push(FeedEvent::Started);
        lemma_delivered_push(Seq::<FeedEvent<S, M>>::empty(), FeedEvent::Started);
        lemma_delivered_push(started, FeedEvent::Opened(Ok(stream)));
        assert(delivered(session(stream, messages)) =~= messages);
    } else {
        let earlier = session(stream, messages.drop_last());
        let read = FeedEvent::Read { stream, outcome: Ok(Some(messages.last())) };
        lemma_session_delivers(stream, messages.drop_last());
        lemma_delivered_push(earlier, read);
        lemma_delivered_push(earlier.push(read), FeedEvent::Published { stream, accepted: Ok(()) });
        assert(messages.drop_last().push(messages.last()) =~= messages);
    }
}

/// After a session the task asks to read on, on the stream that was opened.
pub proof fn lemma_session_reads_on<S, M>(feed: Feed, stream: S, messages: Seq<M>)
    ensures
        session(stream, messages).len() > 0,
        next_step(feed, session(stream, messages).last()) == (FeedStep::<S, M>::Read { stream }),
{
    lemma_session_unfolds(stream, messages);
}

/// In a session every event answers the operation that the task asked for
/// before it.
pub proof fn lemma_session_is_answered<S, M>(feed: Feed, stream: S, messages: Seq<M>, i: int)
    requires
        0 < i < session(stream, messages).len(),
    ensures
        answers(
            next_step(feed, session(stream, messages)[i - 1]),
            session(stream, messages)[i],
        ),
    decreases messages.len(),
{
    lemma_session_unfolds(stream, messages);
    if messages.len() > 0 {
        let earlier = session(stream, messages.drop_last());
        lemma_session_unfolds(stream, messages.drop_last());
        if i < earlier.len() {
            lemma_session_is_answered(feed, stream, messages.drop_last(), i);
        } else if i == earlier.len() {
            lemma_session_reads_on(feed, stream, messages.drop_last());
        }
    }
}

/// In a session, however long, the task asks to publish exactly the messages
/// that the backend sent, in their order.
pub proof fn lemma_session_republishes_every_message<S, M>(feed: Feed, stream: S, messages: Seq<M>)
    ensures
        republished(feed, session(stream, messages)) == messages,
{
    lemma_republished_in_order(feed, session(stream, messages));
    lemma_session_delivers(stream, messages);
}

/// When the backend closes the stream after a session, the task ends
/// successfully; when a read fails, it ends with the backend's message.
/// Either way nothing more is published.
pub proof fn lemma_session_end<S, M>(
    feed: Feed,
    stream: S,
    messages: Seq<M>,
    end: Result<(), BackendStatus>,
)
    ensures
        answers(
            next_step(feed, session(stream, messages).last()),
            closing::<S, M>(stream, end),
        ),
        next_step(feed, closing::<S, M>(stream, end)) == FeedStep::<S, M>::Finished(
            match end {
                Ok(_) => Ok(()),
                Err(status) => Err(Error::GrpcStatus(status.message)),
            },
        ),
        republished(feed, session(stream, messages).push(closing(stream, end))) == messages,
{
    lemma_session_reads_on(feed, stream, messages);
    lemma_republished_in_order(feed, session(stream, messages).push(closing(stream, end)));
    lemma_delivered_push(session(stream, messages), closing(stream, end));
    lemma_session_delivers(stream, messages);
}

/// Every message is published under the topic of the feed that delivered it,
/// and it is the message that the read returned.
pub proof fn lemma_published_under_own_topic<S, M>(feed: Feed, event: FeedEvent<S, M>)
    ensures
        next_step(feed, event) matches FeedStep::Publish { feed: under, message, stream } ==> under
            == feed && event == (FeedEvent::Read { stream, outcome: Ok(Some(message)) }),
{
}

/// The streaming call is opened when the task starts, and at no other time:
/// neither the end of the stream nor a failure makes the task subscribe again.
pub proof fn lemma_opened_only_at_start<S, M>(feed: Feed, event: FeedEvent<S, M>)
    ensures
        next_step(feed, event) is Open <==> event is Started,
{
}

/// A read is asked for only on a stream that the backend opened or that a
/// publication handed back, and on that very stream.
pub proof fn lemma_read_only_on_open_stream<S, M>(feed: Feed, event: FeedEvent<S, M>)
    ensures
        next_step(feed, event) matches FeedStep::Read { stream } ==> ((event matches FeedEvent::Opened(
            Ok(opened),
        ) && opened == stream) || (event matches FeedEvent::Published {
            stream: same,
            accepted: Ok(_),
        } && same == stream)),
{
}

/// The task ends exactly when the stream ends, when opening or reading
/// fails, or when the event bus refuses a message. The end of the stream is a
/// success. A failure of the backend is reported as an error of kind
/// `GrpcStatus` with the backend's message, and a refused publication as an
/// error of kind `Io` with the reason that the bus gave.
pub proof fn lemma_task_end<S, M>(feed: Feed, event: FeedEvent<S, M>)
    ensures
        next_step(feed, event) is Finished <==> (event matches FeedEvent::Opened(Err(_))
            || event matches FeedEvent::Read { outcome: Ok(None), .. }
            || event matches FeedEvent::Read { outcome: Err(_), .. }
            || event matches FeedEvent::Published { accepted: Err(_), .. }),
        event matches FeedEvent::Read { outcome: Ok(None), .. } ==> next_step(feed, event)
            == FeedStep::<S, M>::Finished(Ok(())),
        event matches FeedEvent::Read { outcome: Err(status), .. } ==> next_step(feed, event)
            == FeedStep::<S, M>::Finished(Err(Error::GrpcStatus(status.message))),
        event matches FeedEvent::Opened(Err(status)) ==> next_step(feed, event) == FeedStep::<
            S,
            M,
        >::Finished(Err(Error::GrpcStatus(status.message))),
        event matches FeedEvent::Published { accepted: Err(reason), .. } ==> next_step(feed, event)
            == FeedStep::<S, M>::Finished(Err(Error::Io(reason))),
{
}

/// A task that ends in failure ends with an error of one of the kinds that
/// the UI knows; a refused publication ends it with the kind `Io` and the
/// reason as the text.
pub proof fn lemma_failure_is_structured<S, M>(feed: Feed, event: FeedEvent<S, M>)
    ensures
        next_step(feed, event) matches FeedStep::Finished(Err(error)) ==> (error.spec_kind()
            == ErrorKind::GrpcStatus || error.spec_kind() == ErrorKind::Io),
        event matches FeedEvent::Published { accepted: Err(reason), .. } ==> (next_step(
            feed,
            event,
        ) matches FeedStep::Finished(Err(error)) && error.spec_kind() == ErrorKind::Io
            && error.text() == reason@),
{
}

} // verus!
