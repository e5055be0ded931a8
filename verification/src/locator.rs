//! Finding a Java runtime on the host.
//!
//! Two strategies are tried in order. The first asks whether the program
//! `java` can be run from the host's search path, by running it with
//! `-version`. Only if that fails, the second reads the variable `JAVA_HOME`
//! and tests whether `bin/java` exists below the directory it names. The
//! application performs each operation and reports its outcome as a
//! [`LocateEvent`]; [`find_java`] answers with the next [`LocateStep`].

use vstd::prelude::*;
use vstd::string::*;
use crate::text::{join, join_path, mentions};

verus! {

/// The outcome of the operation that the search asked for last.
#[derive(PartialEq, Eq, Debug)]
pub enum LocateEvent {
    /// The search has been started.
    Started,
    /// The version query has ended: `None` if the program could not be run,
    /// and otherwise whether it exited successfully.
    VersionQueryFinished(Option<bool>),
    /// The variable was read: its value, if it has one.
    VariableRead(Option<String>),
    /// `path` was tested for existence.
    ExistsChecked { path: String, exists: bool },
}

/// What the caller is to do next, or how the search has ended.
#[derive(PartialEq, Eq, Debug)]
pub enum LocateStep {
    /// Run `program` with the single argument `argument`, and report whether
    /// it could be run and whether it exited successfully.
    RunVersionQuery { program: String, argument: String },
    /// Read the environment variable `name`.
    ReadVariable { name: String },
    /// Test whether `path` exists on disk.
    CheckExists { path: String },
    /// The runtime is invoked as the contained path.
    Found(String),
    /// No runtime was found; the contained text tells the user what to do.
    NotFound(String),
}

/// A [`LocateStep`] with its texts as sequences of characters.
pub enum LocateStepView {
    RunVersionQuery { program: Seq<char>, argument: Seq<char> },
    ReadVariable { name: Seq<char> },
    CheckExists { path: Seq<char> },
    Found(Seq<char>),
    NotFound(Seq<char>),
}

impl View for LocateStep {
    type V = LocateStepView;

    open spec fn view(&self) -> LocateStepView {
        match self {
            LocateStep::RunVersionQuery { program, argument } => LocateStepView::RunVersionQuery {
                program: program@,
                argument: argument@,
            },
            LocateStep::ReadVariable { name } => LocateStepView::ReadVariable { name: name@ },
            LocateStep::CheckExists { path } => LocateStepView::CheckExists { path: path@ },
            LocateStep::Found(path) => LocateStepView::Found(path@),
            LocateStep::NotFound(message) => LocateStepView::NotFound(message@),
        }
    }
}

/// The message of a search that found nothing. It says what was tried, that
/// the command `java` cannot be run from the search path and that
/// `JAVA_HOME` does not lead to a runtime, and then names both ways out.
pub open spec fn guidance() -> Seq<char> {
    "Java не найдена: команда java не запускается из PATH, а JAVA_HOME не указывает на каталог с bin/java. Установите Java или задайте JAVA_HOME"@
}

/// The runtime below the installation root `home`.
pub open spec fn candidate(home: Seq<char>) -> Seq<char> {
    join_path(home, "bin/java"@)
}

/// The first step of a search.
pub open spec fn first_step() -> LocateStepView {
    LocateStepView::RunVersionQuery { program: "java"@, argument: "-version"@ }
}

/// The step after the version query: `outcome` is `None` if the program
/// could not be run, and otherwise tells whether it exited successfully.
pub open spec fn after_version_query(outcome: Option<bool>) -> LocateStepView {
    if outcome == Some(true) {
        LocateStepView::Found("java"@)
    } else {
        LocateStepView::ReadVariable { name: "JAVA_HOME"@ }
    }
}

/// The step after the variable was read: `home` is its value, if it has one.
pub open spec fn after_variable(home: Option<Seq<char>>) -> LocateStepView {
    match home {
        Some(root) => LocateStepView::CheckExists { path: candidate(root) },
        None => LocateStepView::NotFound(guidance()),
    }
}

/// The step after `path` was tested for existence.
pub open spec fn after_exists_check(path: Seq<char>, exists: bool) -> LocateStepView {
    if exists {
        LocateStepView::Found(path)
    } else {
        LocateStepView::NotFound(guidance())
    }
}

/// The step that follows `event`.
pub open spec fn next_step(event: LocateEvent) -> LocateStepView {
    match event {
        LocateEvent::Started => first_step(),
        LocateEvent::VersionQueryFinished(outcome) => after_version_query(outcome),
        LocateEvent::VariableRead(home) => after_variable(home.deep_view()),
        LocateEvent::ExistsChecked { path, exists } => after_exists_check(path@, exists),
    }
}

/// Where a search ends when each step is answered from the given facts about
/// the host: the outcome of the version query, the value of the variable and
/// whether the candidate below it exists.
pub open spec fn search(outcome: Option<bool>, home: Option<Seq<char>>, exists: bool) -> LocateStepView {
    match after_version_query(outcome) {
        LocateStepView::ReadVariable { .. } => match after_variable(home) {
            LocateStepView::CheckExists { path } => after_exists_check(path, exists),
            step => step,
        },
        step => step,
    }
}

/// Whether `step` ends the search.
pub open spec fn is_final(step: LocateStepView) -> bool {
    step is Found || step is NotFound
}

/// Whether `event` reports the outcome of the operation that `step` asks
/// for.
pub open spec fn answers(step: LocateStepView, event: LocateEvent) -> bool {
    match step {
        LocateStepView::RunVersionQuery { .. } => event is VersionQueryFinished,
        LocateStepView::ReadVariable { .. } => event is VariableRead,
        LocateStepView::CheckExists { path } => event matches LocateEvent::ExistsChecked {
            path: checked,
            ..
        } && checked@ == path,
        LocateStepView::Found(_) => false,
        LocateStepView::NotFound(_) => false,
    }
}

/// Answers `event` with the next step of the search for the runtime.
pub fn find_java(event: LocateEvent) -> (step: LocateStep)
    ensures
        step@ == next_step(event),
{
    match event {
        LocateEvent::Started => LocateStep::RunVersionQuery {
            program: "java".to_owned(),
            argument: "-version".to_owned(),
        },
        LocateEvent::VersionQueryFinished(Some(true)) => LocateStep::Found("java".to_owned()),
        LocateEvent::VersionQueryFinished(_) => LocateStep::ReadVariable {
            name: "JAVA_HOME".to_owned(),
        },
        LocateEvent::VariableRead(Some(root)) => LocateStep::CheckExists {
            path: join(root.as_str(), "bin/java"),
        },
        LocateEvent::VariableRead(None) => LocateStep::NotFound(not_found_message()),
        LocateEvent::ExistsChecked { path, exists } => {
            if exists {
                LocateStep::Found(path)
            } else {
                LocateStep::NotFound(not_found_message())
            }
        },
    }
}

/// The message of a search that found nothing.
pub fn not_found_message() -> (message: String)
    ensures
        message@ == guidance(),
{
    "Java не найдена: команда java не запускается из PATH, а JAVA_HOME не указывает на каталог с bin/java. Установите Java или задайте JAVA_HOME".to_owned()
}

/// A search ends, and it ends with the first strategy that succeeds: with
/// `java` if the version query succeeded, else with the candidate below the
/// variable's value if that exists, else without a runtime.
pub proof fn lemma_search_outcome(outcome: Option<bool>, home: Option<Seq<char>>, exists: bool)
    ensures
        search(outcome, home, exists) == (if outcome == Some(true) {
            LocateStepView::Found("java"@)
        } else if home is Some && exists {
            LocateStepView::Found(candidate(home->0))
        } else {
            LocateStepView::NotFound(guidance())
        }),
{
}

/// A search in which every operation is answered by its own outcome ends
/// after at most three operations, and it ends where [`search`] says for the
/// facts that the outcomes reported.
pub proof fn lemma_answered_search_ends(first: LocateEvent, second: LocateEvent, third: LocateEvent)
    requires
        answers(first_step(), first),
        is_final(next_step(first)) || answers(next_step(first), second),
        is_final(next_step(first)) || is_final(next_step(second)) || answers(
            next_step(second),
            third,
        ),
    ensures
        ({
            let last = if is_final(next_step(first)) {
                next_step(first)
            } else if is_final(next_step(second)) {
                next_step(second)
            } else {
                next_step(third)
            };
            &&& is_final(last)
            &&& last == search(
                first->VersionQueryFinished_0,
                second->VariableRead_0.deep_view(),
                third->ExistsChecked_exists,
            )
        }),
{
}

/// When neither strategy succeeds, the search fails with the message that
/// names both.
pub proof fn lemma_not_found_when_both_strategies_fail(
    outcome: Option<bool>,
    home: Option<Seq<char>>,
    exists: bool,
)
    requires
        outcome != Some(true),
        home is None || !exists,
    ensures
        search(outcome, home, exists) == LocateStepView::NotFound(guidance()),
{
}

/// The message of a failed search identifies both strategies: it names the
/// program that the first one runs and the search path on which that program
/// is looked up, and it names the variable that the second one reads.
pub proof fn lemma_guidance_names_both_strategies()
    ensures
        first_step() matches LocateStepView::RunVersionQuery { program, .. } && mentions(
            guidance(),
            program,
        ),
        mentions(guidance(), "PATH"@),
        after_version_query(None) matches LocateStepView::ReadVariable { name } && mentions(
            guidance(),
            name,
        ),
{
    reveal_strlit(
        "Java не найдена: команда java не запускается из PATH, а JAVA_HOME не указывает на каталог с bin/java. Установите Java или задайте JAVA_HOME",
    );
    reveal_strlit("java");
    reveal_strlit("PATH");
    reveal_strlit("JAVA_HOME");
    assert(guidance().subrange(25, 25 + "java"@.len() as int) =~= "java"@);
    assert(guidance().subrange(48, 48 + "PATH"@.len() as int) =~= "PATH"@);
    assert(guidance().subrange(56, 56 + "JAVA_HOME"@.len() as int) =~= "JAVA_HOME"@);
}

/// The variable is consulted only after the version query has failed.
pub proof fn lemma_variable_read_only_after_failed_query(event: LocateEvent)
    ensures
        next_step(event) is ReadVariable <==> (event matches LocateEvent::VersionQueryFinished(
            outcome,
        ) && outcome != Some(true)),
{
}

} // verus!
