use vstd::prelude::*;

use crate::answer::{is_yes, means_yes};
use crate::commit::{plan_commit, CommitPlan};

verus! {

/// Where a run of the tool stands.
#[derive(Clone, Copy, Debug, PartialEq, Eq, Structural)]
pub enum Phase {
    /// Waiting to learn whether the version-control client is installed.
    CheckingGit,
    /// Waiting to learn whether the working directory is a repository.
    CheckingRepository,
    /// Waiting for the answer to the initialisation question.
    AwaitingAnswer,
    /// Waiting for the repository to be created.
    Initializing,
    /// Waiting for the status listing taken after staging every change.
    CheckingChanges,
    /// Nothing more to do.
    Finished,
}

/// What the program around the library reports back after an action.
#[derive(Debug)]
pub enum Event {
    /// Whether the client answered its version probe.
    GitProbed(bool),
    /// Whether the working directory holds repository metadata.
    RepositoryProbed(bool),
    /// The line typed at the initialisation question.
    Answered(String),
    /// The repository was created (each of its steps is best effort).
    Initialized,
    /// The status listing after staging, with the user name and timestamp
    /// that name the commit.
    ChangesListed { status: Vec<u8>, user: String, timestamp: String },
}

/// What the program around the library does next.
#[derive(Debug)]
pub enum Action {
    /// Probe the client's version.
    ProbeGit,
    /// Report that the client is missing, then wait for Enter and stop.
    ReportMissingGit,
    /// Look for repository metadata in the working directory.
    ProbeRepository,
    /// Ask whether to create a repository.
    AskInit,
    /// Report that initialisation was declined, then wait for Enter and stop.
    ReportCancelled,
    /// Create the repository: init, ignore file, log directory, staging and
    /// an empty first commit.
    InitRepository,
    /// Stage every change, then list the status.
    StageAndList,
    /// Report that nothing changed, then wait for Enter and stop.
    ReportNoChanges,
    /// Commit, write the log file, report success, then wait for Enter and
    /// stop.
    Commit(CommitPlan),
    /// The event does not belong to this phase: nothing to do.
    Nothing,
}

/// The phase and action a run starts with.
pub fn start() -> (r: (Phase, Action))
    ensures
        r.0 == Phase::CheckingGit,
        r.1 is ProbeGit,
{
    (Phase::CheckingGit, Action::ProbeGit)
}

/// Whether `(next, action)` is the step the tool takes from `phase` on
/// `event`.
pub open spec fn is_step(phase: Phase, event: Event, next: Phase, action: Action) -> bool {
    match (phase, event) {
        (Phase::CheckingGit, Event::GitProbed(installed)) => if installed {
            next == Phase::CheckingRepository && action is ProbeRepository
        } else {
            next == Phase::Finished && action is ReportMissingGit
        },
        (Phase::CheckingRepository, Event::RepositoryProbed(present)) => if present {
            next == Phase::CheckingChanges && action is StageAndList
        } else {
            next == Phase::AwaitingAnswer && action is AskInit
        },
        (Phase::AwaitingAnswer, Event::Answered(answer)) => if means_yes(answer@) {
            next == Phase::Initializing && action is InitRepository
        } else {
            next == Phase::Finished && action is ReportCancelled
        },
        (Phase::Initializing, Event::Initialized) => next == Phase::CheckingChanges
            && action is StageAndList,
        (Phase::CheckingChanges, Event::ChangesListed { status, user, timestamp }) => if status@.len()
            == 0 {
            next == Phase::Finished && action is ReportNoChanges
        } else {
            &&& next == Phase::Finished
            &&& action matches Action::Commit(plan) && plan.is_plan_for(user@, timestamp@)
        },
        _ => next == phase && action is Nothing,
    }
}

/// The tool's decision on `event` in `phase`: the next phase and the action
/// to perform.
pub fn step(phase: Phase, event: Event) -> (r: (Phase, Action))
    ensures
        is_step(phase, event, r.0, r.1),
{
    match (phase, event) {
        (Phase::CheckingGit, Event::GitProbed(installed)) => if installed {
            (Phase::CheckingRepository, Action::ProbeRepository)
        } else {
            (Phase::Finished, Action::ReportMissingGit)
        },
        (Phase::CheckingRepository, Event::RepositoryProbed(present)) => if present {
            (Phase::CheckingChanges, Action::StageAndList)
        } else {
            (Phase::AwaitingAnswer, Action::AskInit)
        },
        (Phase::AwaitingAnswer, Event::Answered(answer)) => if is_yes(answer.as_str()) {
            (Phase::Initializing, Action::InitRepository)
        } else {
            (Phase::Finished, Action::ReportCancelled)
        },
        (Phase::Initializing, Event::Initialized) => (Phase::CheckingChanges, Action::StageAndList),
        (Phase::CheckingChanges, Event::ChangesListed { status, user, timestamp }) => {
            match plan_commit(status.as_slice(), user.as_str(), timestamp.as_str()) {
                Some(plan) => (Phase::Finished, Action::Commit(plan)),
                None => (Phase::Finished, Action::ReportNoChanges),
            }
        },
        (p, _) => (p, Action::Nothing),
    }
}

/// Once a run is finished, no event leads to any further action: no
/// repository is created, nothing is committed and no file is written.
pub proof fn finished_run_stays_idle(event: Event, next: Phase, action: Action)
    requires
        is_step(Phase::Finished, event, next, action),
    ensures
        next == Phase::Finished,
        action is Nothing,
{
}

/// Declining the initialisation question (an answer that does not start
/// with `y` once trimmed and lower-cased) finishes the run with a report and
/// no repository creation.
pub proof fn declining_never_initializes(answer: String, next: Phase, action: Action)
    requires
        !means_yes(answer@),
        is_step(Phase::AwaitingAnswer, Event::Answered(answer), next, action),
    ensures
        next == Phase::Finished,
        action is ReportCancelled,
{
}

/// An empty status listing finishes the run with a notice: no commit is
/// made and no log file is written.
pub proof fn no_changes_no_commit(
    status: Vec<u8>,
    user: String,
    timestamp: String,
    next: Phase,
    action: Action,
)
    requires
        status@.len() == 0,
        is_step(
            Phase::CheckingChanges,
            Event::ChangesListed { status, user, timestamp },
            next,
            action,
        ),
    ensures
        next == Phase::Finished,
        action is ReportNoChanges,
{
}

/// A non-empty status listing gives exactly one commit, named by the user
/// and the timestamp, with one log file at `log/<timestamp>.log`; the run is
/// then finished, so no second commit follows.
pub proof fn changes_commit_once(
    status: Vec<u8>,
    user: String,
    timestamp: String,
    next: Phase,
    action: Action,
)
    requires
        status@.len() > 0,
        is_step(
            Phase::CheckingChanges,
            Event::ChangesListed { status, user, timestamp },
            next,
            action,
        ),
    ensures
        next == Phase::Finished,
        action matches Action::Commit(plan) && plan.is_plan_for(user@, timestamp@),
{
}

} // verus!
