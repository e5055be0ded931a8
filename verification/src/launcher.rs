//! Launching the backend: the located runtime is run against the bundled
//! archive, in a process group of its own.
//!
//! A launch locates the runtime, asks the host for its resource directory,
//! tests that the archive exists there, and only then spawns the process.
//! The application performs each operation and reports its outcome as a
//! [`LaunchEvent`]; [`start_backend`] answers with the next [`LaunchStep`].

use vstd::prelude::*;
use vstd::string::*;
use crate::text::{append, debug_quoted, debug_text, join, join_path};

verus! {

/// The command that starts the backend.
#[derive(PartialEq, Eq, Debug)]
pub struct LaunchPlan {
    /// The program to run.
    pub program: String,
    /// Its arguments, in order.
    pub args: Vec<String>,
    /// Whether the child is to be made the leader of a new process group
    /// before it executes the program, so that it and its descendants can
    /// later be signalled as a unit.
    pub own_process_group: bool,
}

/// Why a launch failed.
#[derive(PartialEq, Eq, Debug)]
pub enum LaunchError {
    /// No runtime was found; holds the locator's message.
    JavaNotFound(String),
    /// The host could not name its resource directory; holds its reason.
    ResourceDirUnavailable(String),
    /// The archive is missing; holds the path at which it was expected.
    ResourceMissing(String),
    /// The process could not be created; holds the reason.
    SpawnFailed(String),
}

/// The outcome of the operation that the launch asked for last. `P` is the
/// type of the handle of a spawned process.
#[derive(PartialEq, Eq, Debug)]
pub enum LaunchEvent<P> {
    /// The launch has been started.
    Started,
    /// The search for the runtime has ended: the path under which it is
    /// invoked, or the locator's message.
    Located(Result<String, String>),
    /// The host named its resource directory, or gave its reason for having
    /// none.
    ResourceDirResolved { java: String, dir: Result<String, String> },
    /// The archive `jar` was tested for existence.
    ResourceChecked { java: String, jar: String, exists: bool },
    /// The process was spawned, or could not be created for the given reason.
    Spawned(Result<P, String>),
}

/// What the caller is to do next, or how the launch has ended.
#[derive(PartialEq, Eq, Debug)]
pub enum LaunchStep<P> {
    /// Search for the runtime and report the result.
    Locate,
    /// Ask the host for the directory of the bundled resources.
    ResolveResourceDir { java: String },
    /// Test whether the archive `jar` exists on disk.
    CheckResource { java: String, jar: String },
    /// Spawn the process that the plan describes.
    Spawn(LaunchPlan),
    /// The backend runs as the contained process.
    Launched(P),
    /// The launch has failed.
    Failed(LaunchError),
}

/// A [`LaunchPlan`] with its texts as sequences of characters.
pub struct LaunchPlanView {
    pub program: Seq<char>,
    pub args: Seq<Seq<char>>,
    pub own_process_group: bool,
}

/// A [`LaunchError`] with its text as a sequence of characters.
pub enum LaunchErrorView {
    JavaNotFound(Seq<char>),
    ResourceDirUnavailable(Seq<char>),
    ResourceMissing(Seq<char>),
    SpawnFailed(Seq<char>),
}

/// A [`LaunchStep`] with its texts as sequences of characters.
pub enum LaunchStepView<P> {
    Locate,
    ResolveResourceDir { java: Seq<char> },
    CheckResource { java: Seq<char>, jar: Seq<char> },
    Spawn(LaunchPlanView),
    Launched(P),
    Failed(LaunchErrorView),
}

impl View for LaunchPlan {
    type V = LaunchPlanView;

    open spec fn view(&self) -> LaunchPlanView {
        LaunchPlanView {
            program: self.program@,
            args: self.args.deep_view(),
            own_process_group: self.own_process_group,
        }
    }
}

impl View for LaunchError {
    type V = LaunchErrorView;

    open spec fn view(&self) -> LaunchErrorView {
        match self {
            LaunchError::JavaNotFound(text) => LaunchErrorView::JavaNotFound(text@),
            LaunchError::ResourceDirUnavailable(text) => LaunchErrorView::ResourceDirUnavailable(
                text@,
            ),
            LaunchError::ResourceMissing(path) => LaunchErrorView::ResourceMissing(path@),
            LaunchError::SpawnFailed(text) => LaunchErrorView::SpawnFailed(text@),
        }
    }
}

impl<P> View for LaunchStep<P> {
    type V = LaunchStepView<P>;

    open spec fn view(&self) -> LaunchStepView<P> {
        match self {
            LaunchStep::Locate => LaunchStepView::Locate,
            LaunchStep::ResolveResourceDir { java } => LaunchStepView::ResolveResourceDir {
                java: java@,
            },
            LaunchStep::CheckResource { java, jar } => LaunchStepView::CheckResource {
                java: java@,
                jar: jar@,
            },
            LaunchStep::Spawn(plan) => LaunchStepView::Spawn(plan@),
            LaunchStep::Launched(process) => LaunchStepView::Launched(*process),
            LaunchStep::Failed(error) => LaunchStepView::Failed(error@),
        }
    }
}

/// The archive below the resource directory `dir`.
pub open spec fn archive(dir: Seq<char>) -> Seq<char> {
    join_path(dir, "jvm-ram-cost.jar"@)
}

/// The command `java -jar jar`, run in a process group of its own.
pub open spec fn command(java: Seq<char>, jar: Seq<char>) -> LaunchPlanView {
    LaunchPlanView { program: java, args: seq!["-jar"@, jar], own_process_group: true }
}

/// A result with its texts as sequences of characters.
pub open spec fn texts(result: Result<String, String>) -> Result<Seq<char>, Seq<char>> {
    match result {
        Ok(text) => Ok(text@),
        Err(text) => Err(text@),
    }
}

/// The step after the search for the runtime.
pub open spec fn after_locate<P>(found: Result<Seq<char>, Seq<char>>) -> LaunchStepView<P> {
    match found {
        Ok(java) => LaunchStepView::ResolveResourceDir { java },
        Err(message) => LaunchStepView::Failed(LaunchErrorView::JavaNotFound(message)),
    }
}

/// The step after the host was asked for its resource directory.
pub open spec fn after_resource_dir<P>(java: Seq<char>, dir: Result<Seq<char>, Seq<char>>) -> LaunchStepView<
    P,
> {
    match dir {
        Ok(dir) => LaunchStepView::CheckResource { java, jar: archive(dir) },
        Err(reason) => LaunchStepView::Failed(LaunchErrorView::ResourceDirUnavailable(reason)),
    }
}

/// The step after the archive was tested for existence.
pub open spec fn after_resource_check<P>(java: Seq<char>, jar: Seq<char>, exists: bool) -> LaunchStepView<
    P,
> {
    if exists {
        LaunchStepView::Spawn(command(java, jar))
    } else {
        LaunchStepView::Failed(LaunchErrorView::ResourceMissing(jar))
    }
}

/// The step after the spawn: the launch ends with the new process, or with
/// the reason for which it could not be created.
pub open spec fn after_spawn<P>(outcome: Result<P, String>) -> LaunchStepView<P> {
    match outcome {
        Ok(process) => LaunchStepView::Launched(process),
        Err(reason) => LaunchStepView::Failed(LaunchErrorView::SpawnFailed(reason@)),
    }
}

/// The step that follows `event`.
pub open spec fn next_step<P>(event: LaunchEvent<P>) -> LaunchStepView<P> {
    match event {
        LaunchEvent::Started => LaunchStepView::Locate,
        LaunchEvent::Located(found) => after_locate(texts(found)),
        LaunchEvent::ResourceDirResolved { java, dir } => after_resource_dir(java@, texts(dir)),
        LaunchEvent::ResourceChecked { java, jar, exists } => after_resource_check(
            java@,
            jar@,
            exists,
        ),
        LaunchEvent::Spawned(outcome) => after_spawn(outcome),
    }
}

/// Where a launch ends when each step is answered from the given facts about
/// the host: the result of the search, the resource directory, whether the
/// archive exists, and how the spawn turns out.
pub open spec fn launch<P>(
    found: Result<Seq<char>, Seq<char>>,
    dir: Result<Seq<char>, Seq<char>>,
    exists: bool,
    spawn: Result<P, String>,
) -> LaunchStepView<P> {
    match after_locate::<P>(found) {
        LaunchStepView::ResolveResourceDir { java } => match after_resource_dir::<P>(java, dir) {
            LaunchStepView::CheckResource { java, jar } => match after_resource_check::<P>(
                java,
                jar,
                exists,
            ) {
                LaunchStepView::Spawn(_) => after_spawn(spawn),
                step => step,
            },
            step => step,
        },
        step => step,
    }
}

/// Whether `step` ends the launch.
pub open spec fn is_final<P>(step: LaunchStepView<P>) -> bool {
    step is Launched || step is Failed
}

/// Whether `event` reports the outcome of the operation that `step` asks
/// for, and hands back what the step handed out.
pub open spec fn answers<P>(step: LaunchStepView<P>, event: LaunchEvent<P>) -> bool {
    match step {
        LaunchStepView::Locate => event is Located,
        LaunchStepView::ResolveResourceDir { java } => event matches LaunchEvent::ResourceDirResolved {
            java: same,
            ..
        } && same@ == java,
        LaunchStepView::CheckResource { java, jar } => event matches LaunchEvent::ResourceChecked {
            java: same,
            jar: checked,
            ..
        } && same@ == java && checked@ == jar,
        LaunchStepView::Spawn(_) => event is Spawned,
        LaunchStepView::Launched(_) => false,
        LaunchStepView::Failed(_) => false,
    }
}

/// The diagnostic message of a failed launch, where `quoted` is the quoted
/// form of the path of a missing archive.
pub open spec fn diagnostic(error: LaunchErrorView, quoted: Seq<char>) -> Seq<char> {
    match error {
        LaunchErrorView::JavaNotFound(message) => message,
        LaunchErrorView::ResourceDirUnavailable(reason) => "Не удалось получить путь к ресурсам: "@
            + reason,
        LaunchErrorView::ResourceMissing(_) => "JAR файл не найден: "@ + quoted,
        LaunchErrorView::SpawnFailed(reason) => "Не удалось запустить бэкенд: "@ + reason,
    }
}

/// The path that a failure names, if it names one.
pub open spec fn named_path(error: LaunchErrorView) -> Seq<char> {
    match error {
        LaunchErrorView::ResourceMissing(path) => path,
        _ => Seq::empty(),
    }
}

impl LaunchError {
    /// The diagnostic message of the failure. A missing archive is named by
    /// its path as `Debug` formatting quotes it.
    pub open spec fn text(&self) -> Seq<char> {
        diagnostic(self@, debug_text(named_path(self@)))
    }

    /// The diagnostic message of the failure, given the quoted form of the
    /// path that it names.
    pub fn message_with(&self, quoted: &str) -> (message: String)
        ensures
            message@ == diagnostic(self@, quoted@),
    {
        match self {
            LaunchError::JavaNotFound(message) => message.clone(),
            LaunchError::ResourceDirUnavailable(reason) => append(
                "Не удалось получить путь к ресурсам: ",
                reason.as_str(),
            ),
            LaunchError::ResourceMissing(_) => append("JAR файл не найден: ", quoted),
            LaunchError::SpawnFailed(reason) => append(
                "Не удалось запустить бэкенд: ",
                reason.as_str(),
            ),
        }
    }

    /// The diagnostic message of the failure.
    pub fn message(&self) -> (message: String)
        ensures
            message@ == self.text(),
    {
        match self {
            LaunchError::ResourceMissing(path) => {
                let quoted = debug_quoted(path.as_str());
                self.message_with(quoted.as_str())
            },
            _ => self.message_with(""),
        }
    }
}

/// Answers `event` with the next step of the launch.
pub fn start_backend<P>(event: LaunchEvent<P>) -> (step: LaunchStep<P>)
    ensures
        step@ == next_step(event),
{
    match event {
        LaunchEvent::Started => LaunchStep::Locate,
        LaunchEvent::Located(Ok(java)) => LaunchStep::ResolveResourceDir { java },
        LaunchEvent::Located(Err(message)) => LaunchStep::Failed(LaunchError::JavaNotFound(message)),
        LaunchEvent::ResourceDirResolved { java, dir: Ok(dir) } => {
            let jar = join(dir.as_str(), "jvm-ram-cost.jar");
            LaunchStep::CheckResource { java, jar }
        },
        LaunchEvent::ResourceDirResolved { java: _, dir: Err(reason) } => LaunchStep::Failed(
            LaunchError::ResourceDirUnavailable(reason),
        ),
        LaunchEvent::ResourceChecked { java, jar, exists } => {
            if exists {
                let mut args: Vec<String> = Vec::new();
                args.push("-jar".to_owned());
                args.push(jar);
                assert(args.deep_view() =~= seq!["-jar"@, jar@]);
                LaunchStep::Spawn(LaunchPlan { program: java, args, own_process_group: true })
            } else {
                LaunchStep::Failed(LaunchError::ResourceMissing(jar))
            }
        },
        LaunchEvent::Spawned(Ok(process)) => LaunchStep::Launched(process),
        LaunchEvent::Spawned(Err(reason)) => LaunchStep::Failed(LaunchError::SpawnFailed(reason)),
    }
}

/// The backend is launched exactly when the runtime was found, the resource
/// directory is known, the archive exists in it and the spawn succeeds; the
/// process is then the one that the spawn produced.
pub proof fn lemma_launched_only_with_everything<P>(
    found: Result<Seq<char>, Seq<char>>,
    dir: Result<Seq<char>, Seq<char>>,
    exists: bool,
    spawn: Result<P, String>,
)
    ensures
        launch(found, dir, exists, spawn) is Launched <==> found is Ok && dir is Ok && exists
            && spawn is Ok,
        launch(found, dir, exists, spawn) is Launched ==> launch(found, dir, exists, spawn)
            == LaunchStepView::Launched(spawn->Ok_0),
        !(launch(found, dir, exists, spawn) is Launched) ==> launch(found, dir, exists, spawn)
            is Failed,
{
}

/// A launch in which every operation is answered by its own outcome ends
/// after at most four operations, and it ends where [`launch`] says for the
/// facts that the outcomes reported.
pub proof fn lemma_answered_launch_ends<P>(
    first: LaunchEvent<P>,
    second: LaunchEvent<P>,
    third: LaunchEvent<P>,
    fourth: LaunchEvent<P>,
)
    requires
        answers(next_step(LaunchEvent::<P>::Started), first),
        is_final(next_step(first)) || answers(next_step(first), second),
        is_final(next_step(first)) || is_final(next_step(second)) || answers(
            next_step(second),
            third,
        ),
        is_final(next_step(first)) || is_final(next_step(second)) || is_final(next_step(third))
            || answers(next_step(third), fourth),
    ensures
        ({
            let last = if is_final(next_step(first)) {
                next_step(first)
            } else if is_final(next_step(second)) {
                next_step(second)
            } else if is_final(next_step(third)) {
                next_step(third)
            } else {
                next_step(fourth)
            };
            &&& is_final(last)
            &&& last == launch(
                texts(first->Located_0),
                texts(second->ResourceDirResolved_dir),
                third->ResourceChecked_exists,
                fourth->Spawned_0,
            )
        }),
{
}

/// A process is spawned only after the archive was found to exist, and the
/// command is then the runtime with `-jar` and the archive, in a process
/// group of its own.
pub proof fn lemma_spawn_only_with_archive<P>(event: LaunchEvent<P>)
    ensures
        next_step(event) is Spawn <==> (event matches LaunchEvent::ResourceChecked { exists, .. }
            && exists),
        event matches LaunchEvent::ResourceChecked { java, jar, exists } ==> (exists ==> next_step(
            event,
        ) == LaunchStepView::<P>::Spawn(command(java@, jar@))),
{
}

/// A launch that fails does so for the first thing that went wrong: no
/// runtime, then no resource directory, then no archive, then no process.
pub proof fn lemma_first_failure_reported<P>(
    found: Result<Seq<char>, Seq<char>>,
    dir: Result<Seq<char>, Seq<char>>,
    exists: bool,
    spawn: Result<P, String>,
)
    ensures
        found matches Err(message) ==> launch(found, dir, exists, spawn) == LaunchStepView::<
            P,
        >::Failed(LaunchErrorView::JavaNotFound(message)),
        found is Ok && dir is Err ==> launch(found, dir, exists, spawn) == LaunchStepView::<
            P,
        >::Failed(LaunchErrorView::ResourceDirUnavailable(dir->Err_0)),
        found is Ok && dir is Ok && !exists ==> launch(found, dir, exists, spawn)
            == LaunchStepView::<P>::Failed(LaunchErrorView::ResourceMissing(archive(dir->Ok_0))),
        found is Ok && dir is Ok && exists && spawn is Err ==> launch(found, dir, exists, spawn)
            == LaunchStepView::<P>::Failed(LaunchErrorView::SpawnFailed(spawn->Err_0@)),
{
}

} // verus!
