//! The state that every UI-invoked operation shares: the one RPC client and
//! the supervisor of the backend process.
//!
//! The state is a plain value. The application keeps it behind a guard and
//! lets one caller at a time operate on it, so what is proved here of a
//! sequence of operations holds of concurrent callers in the order in which
//! the guard admitted them.

use vstd::prelude::*;
use crate::supervisor::{Phase, Supervisor};

verus! {

/// The client slot and the result of one request for the client, given the
/// slot before the request and the outcome `attempt` of the creation that is
/// made if, and only if, the slot is empty.
pub open spec fn served<C, E>(slot: Option<C>, attempt: Result<C, E>) -> (Option<C>, Result<C, E>) {
    match slot {
        Some(client) => (slot, Ok(client)),
        None => match attempt {
            Ok(client) => (Some(client), Ok(client)),
            Err(error) => (None, Err(error)),
        },
    }
}

/// The slot after a series of requests and what each of them is given, where
/// `attempts[i]` is the outcome that a creation would have at request `i`.
pub open spec fn served_all<C, E>(slot: Option<C>, attempts: Seq<Result<C, E>>) -> (
    Option<C>,
    Seq<Result<C, E>>,
)
    decreases attempts.len(),
{
    if attempts.len() == 0 {
        (slot, Seq::empty())
    } else {
        let (next, first) = served(slot, attempts[0]);
        let (last, rest) = served_all(next, attempts.drop_first());
        (last, seq![first] + rest)
    }
}

/// Whether a request that finds the slot as given runs the creation. It does
/// exactly when the slot is empty; otherwise the creation is handed back to
/// the caller unused.
pub open spec fn creates<C>(slot: Option<C>) -> bool {
    slot is None
}

/// How many of a series of requests run the creation.
pub open spec fn creations<C, E>(slot: Option<C>, attempts: Seq<Result<C, E>>) -> nat
    decreases attempts.len(),
{
    if attempts.len() == 0 {
        0
    } else {
        let run: nat = if creates(slot) { 1 } else { 0 };
        run + creations(served(slot, attempts[0]).0, attempts.drop_first())
    }
}

/// A borrowed result as the value it refers to.
pub open spec fn owned<C, E>(result: Result<&C, E>) -> Result<C, E> {
    match result {
        Ok(client) => Ok(*client),
        Err(error) => Err(error),
    }
}

/// The aggregate of the shared client, of type `C`, and the supervisor of the
/// backend process, whose handle has type `P`.
#[derive(Debug)]
pub struct AppState<C, P> {
    client: Option<C>,
    backend_process: Supervisor<P>,
}

impl<C, P> AppState<C, P> {
    /// The client, once it has been created.
    pub closed spec fn client(&self) -> Option<C> {
        self.client
    }

    /// The supervisor of the backend process.
    pub closed spec fn backend(&self) -> Supervisor<P> {
        self.backend_process
    }

    /// A state without a client and without a backend process.
    pub fn new() -> (state: AppState<C, P>)
        ensures
            state.client() is None,
            state.backend() == Supervisor::<P>::NotStarted,
    {
        AppState { client: None, backend_process: Supervisor::NotStarted }
    }

    /// Whether the client has been created.
    pub fn has_client(&self) -> (present: bool)
        ensures
            present == self.client() is Some,
    {
        self.client.is_some()
    }

    /// The phase of the backend's supervisor.
    pub fn phase(&self) -> (phase: Phase)
        ensures
            phase == self.backend().spec_phase(),
    {
        self.backend_process.phase()
    }

    /// The shared client. On a request that finds no client, `create` is run:
    /// the client it makes is kept and returned, and a failure leaves the
    /// slot empty and is returned. On a request that finds a client, that
    /// client is returned and `create` is handed back unused, so nothing new
    /// is built.
    ///
    /// Where a creation is made, what is returned is its outcome; the first
    /// clause then says what [`served`] makes of the slot and that outcome.
    pub fn get_client<E, F: FnOnce() -> Result<C, E>>(&mut self, create: F) -> (answer: (
        Result<&C, E>,
        Option<F>,
    ))
        requires
            call_requires(create, ()),
        ensures
            (final(self).client(), owned(answer.0)) == served(old(self).client(), owned(answer.0)),
            creates(old(self).client()) ==> answer.1 is None && call_ensures(
                create,
                (),
                owned(answer.0),
            ),
            !creates(old(self).client()) ==> answer.1 == Some(create),
            final(self).backend() == old(self).backend(),
    {
        if self.client.is_some() {
            return (Ok(self.client.as_ref().unwrap()), Some(create));
        }
        match create() {
            Ok(fresh) => {
                self.client = Some(fresh);
                (Ok(self.client.as_ref().unwrap()), None)
            },
            Err(error) => (Err(error), None),
        }
    }

    /// Records the process that a launch produced. If a process was recorded
    /// before, nothing changes and `process` is handed back.
    pub fn backend_started(&mut self, process: P) -> (refused: Result<(), P>)
        ensures
            (final(self).backend(), refused) == old(self).backend().after_start(process),
            final(self).client() == old(self).client(),
    {
        self.backend_process.start(process)
    }

    /// Takes the backend process for termination. The handle is returned to
    /// the one caller that finds the backend running; that caller ends the
    /// process as [`crate::supervisor::termination_plan`] says. Any other
    /// caller is given nothing.
    pub fn kill_backend(&mut self) -> (process: Option<P>)
        ensures
            (final(self).backend(), process) == old(self).backend().after_take(),
            final(self).client() == old(self).client(),
    {
        self.backend_process.take_for_termination()
    }

    /// Records that the process taken by [`AppState::kill_backend`] has been
    /// reaped.
    pub fn backend_reaped(&mut self)
        ensures
            final(self).backend() == old(self).backend().after_reap(),
            final(self).client() == old(self).client(),
    {
        self.backend_process.mark_reaped()
    }
}

/// While a client is held, every request is given that client, the slot keeps
/// it, and no creation is run.
pub proof fn lemma_held_client_is_shared<C, E>(client: C, attempts: Seq<Result<C, E>>)
    ensures
        served_all(Some(client), attempts).0 == Some(client),
        served_all(Some(client), attempts).1.len() == attempts.len(),
        forall|i: int|
            0 <= i < attempts.len() ==> #[trigger] served_all(Some(client), attempts).1[i] == Ok::<
                C,
                E,
            >(client),
        creations(Some(client), attempts) == 0,
    decreases attempts.len(),
{
    if attempts.len() > 0 {
        lemma_held_client_is_shared(client, attempts.drop_first());
    }
}

/// Initialize once: when any number of first-time callers ask for the client
/// and the creation succeeds, exactly one creation is run, and every caller
/// is given the client that it produced.
pub proof fn lemma_client_initialized_once<C, E>(client: C, attempts: Seq<Result<C, E>>)
    requires
        attempts.len() > 0,
        attempts[0] == Ok::<C, E>(client),
    ensures
        creations(None::<C>, attempts) == 1,
        served_all(None::<C>, attempts).0 == Some(client),
        served_all(None::<C>, attempts).1.len() == attempts.len(),
        forall|i: int|
            0 <= i < attempts.len() ==> #[trigger] served_all(None::<C>, attempts).1[i] == Ok::<
                C,
                E,
            >(client),
{
    lemma_held_client_is_shared(client, attempts.drop_first());
}

/// However the creations turn out, at most one client is ever kept: the
/// requests that are given a client are all given the same one.
pub proof fn lemma_one_client_ever<C, E>(slot: Option<C>, attempts: Seq<Result<C, E>>, i: int, j: int)
    requires
        0 <= i < attempts.len(),
        0 <= j < attempts.len(),
        served_all(slot, attempts).1[i] is Ok,
        served_all(slot, attempts).1[j] is Ok,
    ensures
        served_all(slot, attempts).1[i] == served_all(slot, attempts).1[j],
    decreases attempts.len(),
{
    let (next, first) = served(slot, attempts[0]);
    let rest = attempts.drop_first();
    match next {
        Some(client) => {
            lemma_held_client_is_shared(client, rest);
        },
        None => {
            lemma_served_all_len(next, rest);
            if i > 0 && j > 0 {
                lemma_one_client_ever(next, rest, i - 1, j - 1);
            }
        },
    }
}

/// Every request is answered.
pub proof fn lemma_served_all_len<C, E>(slot: Option<C>, attempts: Seq<Result<C, E>>)
    ensures
        served_all(slot, attempts).1.len() == attempts.len(),
    decreases attempts.len(),
{
    if attempts.len() > 0 {
        lemma_served_all_len(served(slot, attempts[0]).0, attempts.drop_first());
    }
}

} // verus!
