use vstd::prelude::*;

use crate::run::{
    escalated, Command, CommandView, Transaction, TransactionCommandStatus, TransactionCommandView,
};
use crate::conf::SuCommandView;

verus! {

/// The model of an error in running a command.
pub struct ErrorView {
    pub message: Seq<char>,
    pub kind: ErrorKind,
}

/// An error in running a command.
#[derive(Clone, Debug, PartialEq, Eq)]
pub struct Error {
    pub message: String,
    pub kind: ErrorKind,
}

impl View for Error {
    type V = ErrorView;

    open spec fn view(&self) -> ErrorView {
        ErrorView { message: self.message@, kind: self.kind }
    }
}

impl Default for Error {
    fn default() -> (r: Error)
        ensures
            r@ == (ErrorView { message: Seq::empty(), kind: ErrorKind::Unknown }),
    {
        Error { message: String::new(), kind: ErrorKind::Unknown }
    }
}

impl Error {
    /// A copy of the error.
    pub fn duplicate(&self) -> (r: Error)
        ensures
            r@ == self@,
    {
        Error { message: self.message.clone(), kind: self.kind }
    }
}

/// What went wrong in running a command.
#[derive(Clone, Copy, Debug, PartialEq, Eq, Structural)]
pub enum ErrorKind {
    CommandNotFound,
    RootlessReadOnly,
    Unknown,
    FailedSpawn,
    ChildExit,
    DirtyExit,
    UTF8,
    IO,
}

/// The name by which an error kind is shown.
pub open spec fn kind_name(kind: ErrorKind) -> Seq<char> {
    match kind {
        ErrorKind::CommandNotFound => "CommandNotFound"@,
        ErrorKind::RootlessReadOnly => "RootlessReadOnly"@,
        ErrorKind::Unknown => "Unknown"@,
        ErrorKind::FailedSpawn => "FailedSpawn"@,
        ErrorKind::ChildExit => "ChildExit"@,
        ErrorKind::DirtyExit => "DirtyExit"@,
        ErrorKind::UTF8 => "UTF8"@,
        ErrorKind::IO => "IO"@,
    }
}

impl ErrorKind {
    /// The name by which the kind is shown.
    pub fn name(&self) -> (r: &'static str)
        ensures
            r@ == kind_name(*self),
    {
        match self {
            ErrorKind::CommandNotFound => "CommandNotFound",
            ErrorKind::RootlessReadOnly => "RootlessReadOnly",
            ErrorKind::Unknown => "Unknown",
            ErrorKind::FailedSpawn => "FailedSpawn",
            ErrorKind::ChildExit => "ChildExit",
            ErrorKind::DirtyExit => "DirtyExit",
            ErrorKind::UTF8 => "UTF8",
            ErrorKind::IO => "IO",
        }
    }
}

impl Default for ErrorKind {
    fn default() -> (r: ErrorKind)
        ensures
            r == ErrorKind::Unknown,
    {
        ErrorKind::Unknown
    }
}

/// The model of where committing a transaction stands.
pub enum CommitStepView {
    Run(nat),
    RollBack(nat, ErrorView),
    Finished(Result<(), ErrorView>),
}

/// Where committing a transaction stands: the command at an index is to be
/// run; the command at an index failed with an error and is to be undone; or
/// the commit is over, with its result.
#[derive(Debug)]
pub enum CommitStep {
    Run(usize),
    RollBack(usize, Error),
    Finished(Result<(), Error>),
}

impl View for CommitStep {
    type V = CommitStepView;

    open spec fn view(&self) -> CommitStepView {
        match self {
            CommitStep::Run(i) => CommitStepView::Run(*i as nat),
            CommitStep::RollBack(i, e) => CommitStepView::RollBack(*i as nat, e@),
            CommitStep::Finished(r) => CommitStepView::Finished(
                match r {
                    Ok(()) => Ok(()),
                    Err(e) => Err(e@),
                },
            ),
        }
    }
}

/// Whether a step can come next for a transaction of `len` commands.
pub open spec fn step_fits(step: CommitStepView, len: nat) -> bool {
    match step {
        CommitStepView::Run(i) => i < len,
        CommitStepView::RollBack(i, _) => i < len,
        CommitStepView::Finished(_) => true,
    }
}

/// Where committing a transaction of `len` commands starts.
pub open spec fn commit_begins(len: nat) -> CommitStepView {
    if len == 0 {
        CommitStepView::Finished(Ok(()))
    } else {
        CommitStepView::Run(0)
    }
}

/// The first step of committing a transaction.
pub fn commit_start(transaction: &Transaction) -> (r: CommitStep)
    ensures
        r@ == commit_begins(transaction@.len()),
{
    if transaction.len() == 0 {
        CommitStep::Finished(Ok(()))
    } else {
        CommitStep::Run(0)
    }
}

/// The command at `i` with a new status and, where there is one, an error
/// recorded.
pub open spec fn marked(
    c: TransactionCommandView,
    status: TransactionCommandStatus,
    error: Option<ErrorView>,
) -> TransactionCommandView {
    TransactionCommandView {
        status,
        errors: match error {
            Some(e) => Some(c.errors.unwrap_or(Seq::empty()).push(e)),
            None => c.errors,
        },
        ..c
    }
}

/// What the outcome of a step does to the commands and where the commit goes
/// next: a command that ran is a success and the next one runs (the commit
/// succeeds after the last); a command that failed awaits its rollback, with
/// the error recorded; a rollback that ran leaves the command rolled back and
/// ends the commit with the command's error; a rollback that failed leaves it
/// failed, with that error recorded, and ends the commit with it.
pub open spec fn commit_next(
    commands: Seq<TransactionCommandView>,
    step: CommitStepView,
    outcome: Result<(), ErrorView>,
) -> (Seq<TransactionCommandView>, CommitStepView) {
    match step {
        CommitStepView::Run(i) => match outcome {
            Ok(()) => (
                commands.update(i as int, marked(commands[i as int], TransactionCommandStatus::Success, None)),
                if i + 1 < commands.len() {
                    CommitStepView::Run(i + 1)
                } else {
                    CommitStepView::Finished(Ok(()))
                },
            ),
            Err(e) => (
                commands.update(
                    i as int,
                    marked(commands[i as int], TransactionCommandStatus::PendingRollback, Some(e)),
                ),
                CommitStepView::RollBack(i, e),
            ),
        },
        CommitStepView::RollBack(i, run_error) => match outcome {
            Ok(()) => (
                commands.update(i as int, marked(commands[i as int], TransactionCommandStatus::Rolledback, None)),
                CommitStepView::Finished(Err(run_error)),
            ),
            Err(e) => (
                commands.update(
                    i as int,
                    marked(commands[i as int], TransactionCommandStatus::FailedRollback, Some(e)),
                ),
                CommitStepView::Finished(Err(e)),
            ),
        },
        CommitStepView::Finished(r) => (commands, step),
    }
}

/// The view of the outcome of running a command.
pub open spec fn outcome_view(outcome: Result<(), Error>) -> Result<(), ErrorView> {
    match outcome {
        Ok(()) => Ok(()),
        Err(e) => Err(e@),
    }
}

/// Takes the outcome of the command that `step` ran (the command to run, or
/// the rollback) into the transaction and gives the next step.
pub fn commit_advance(transaction: &mut Transaction, step: CommitStep, outcome: Result<(), Error>) -> (r: CommitStep)
    requires
        step_fits(step@, old(transaction)@.len()),
    ensures
        (final(transaction)@, r@) == commit_next(old(transaction)@, step@, outcome_view(outcome)),
        step_fits(r@, final(transaction)@.len()),
{
    match step {
        CommitStep::Run(i) => match outcome {
            Ok(()) => {
                transaction.set_status(i, TransactionCommandStatus::Success);
                if i < transaction.len() - 1 {
                    CommitStep::Run(i + 1)
                } else {
                    CommitStep::Finished(Ok(()))
                }
            },
            Err(e) => {
                transaction.set_status(i, TransactionCommandStatus::PendingRollback);
                transaction.push_error(i, &e);
                CommitStep::RollBack(i, e)
            },
        },
        CommitStep::RollBack(i, run_error) => match outcome {
            Ok(()) => {
                transaction.set_status(i, TransactionCommandStatus::Rolledback);
                CommitStep::Finished(Err(run_error))
            },
            Err(e) => {
                transaction.set_status(i, TransactionCommandStatus::FailedRollback);
                transaction.push_error(i, &e);
                CommitStep::Finished(Err(e))
            },
        },
        CommitStep::Finished(r) => CommitStep::Finished(r),
    }
}

/// Commands that only read may not run through the su command.
pub open spec fn rootless_check(command: crate::run::CommandView) -> Result<(), ErrorView> {
    if command.escalated {
        Err(ErrorView { message: "Read function is strictly rootless"@, kind: ErrorKind::RootlessReadOnly })
    } else {
        Ok(())
    }
}

/// Refuses to read the output of a command that runs through the su command.
pub fn check_rootless(command: &Command) -> (r: Result<(), Error>)
    ensures
        outcome_view(r) == rootless_check(command@),
{
    if command.escalated() {
        Err(
            Error {
                message: "Read function is strictly rootless".to_owned(),
                kind: ErrorKind::RootlessReadOnly,
            },
        )
    } else {
        Ok(())
    }
}

/// A command escalated through a su command is marked escalated, so its
/// output cannot be read.
pub proof fn lemma_escalated_not_readable(command: CommandView, su: SuCommandView)
    requires
        escalated(command, su) is Ok,
    ensures
        (escalated(command, su)->Ok_0).escalated,
        rootless_check(escalated(command, su)->Ok_0) is Err,
{
}

/// Whether the commands before `i` all ran.
pub open spec fn succeeded_before(commands: Seq<TransactionCommandView>, i: int) -> bool {
    forall|j: int| 0 <= j < i ==> (#[trigger] commands[j]).status == TransactionCommandStatus::Success
}

/// Whether the commands after `i` are as they were.
pub open spec fn untouched_from(
    initial: Seq<TransactionCommandView>,
    commands: Seq<TransactionCommandView>,
    i: int,
) -> bool {
    forall|j: int| i <= j < commands.len() ==> #[trigger] commands[j] == initial[j]
}

/// Where committing `initial` stands when the commands are `commands` and
/// the next step is `step`: the commands before the one the step names ran;
/// that one and those after it are as they were, or, while awaiting its
/// rollback, it carries the error of its run; a commit that succeeded ran
/// every command; a commit that failed ran the commands before one, rolled
/// that one back or failed to, ended with the last error it recorded, and
/// left the rest as they were.
pub open spec fn commit_consistent(
    initial: Seq<TransactionCommandView>,
    commands: Seq<TransactionCommandView>,
    step: CommitStepView,
) -> bool {
    &&& commands.len() == initial.len()
    &&& match step {
        CommitStepView::Run(i) => i < commands.len() && succeeded_before(commands, i as int)
            && untouched_from(initial, commands, i as int),
        CommitStepView::RollBack(i, e) => {
            &&& i < commands.len()
            &&& succeeded_before(commands, i as int)
            &&& untouched_from(initial, commands, i as int + 1)
            &&& commands[i as int] == marked(
                initial[i as int],
                TransactionCommandStatus::PendingRollback,
                Some(e),
            )
        },
        CommitStepView::Finished(Ok(())) => succeeded_before(commands, commands.len() as int),
        CommitStepView::Finished(Err(e)) => exists|i: int|
            0 <= i < commands.len() && succeeded_before(commands, i) && untouched_from(
                initial,
                commands,
                i + 1,
            ) && ((#[trigger] commands[i]).status == TransactionCommandStatus::Rolledback
                || commands[i].status == TransactionCommandStatus::FailedRollback)
                && commands[i].errors is Some && commands[i].errors->0.len() > 0
                && commands[i].errors->0.last() == e,
    }
}

/// Committing starts consistently.
pub proof fn lemma_commit_begins(initial: Seq<TransactionCommandView>)
    ensures
        commit_consistent(initial, initial, commit_begins(initial.len())),
{
}

/// Every step keeps the commit consistent, whatever the outcome of the
/// command it ran.
pub proof fn lemma_commit_next(
    initial: Seq<TransactionCommandView>,
    commands: Seq<TransactionCommandView>,
    step: CommitStepView,
    outcome: Result<(), ErrorView>,
)
    requires
        commit_consistent(initial, commands, step),
    ensures
        commit_consistent(
            initial,
            commit_next(commands, step, outcome).0,
            commit_next(commands, step, outcome).1,
        ),
{
    let next = commit_next(commands, step, outcome);
    match step {
        CommitStepView::Run(i) => {
            match outcome {
                Ok(()) => {
                    assert(succeeded_before(next.0, i as int + 1));
                },
                Err(e) => {},
            }
        },
        CommitStepView::RollBack(i, e) => {
            let c = next.0[i as int];
            assert(c.errors is Some && c.errors->0.len() > 0);
            match outcome {
                Ok(()) => {
                    assert(c.errors->0.last() == e);
                },
                Err(f) => {
                    assert(c.errors->0.last() == f);
                },
            }
            assert(succeeded_before(next.0, i as int));
            assert(untouched_from(initial, next.0, i as int + 1));
        },
        CommitStepView::Finished(_) => {},
    }
}

} // verus!
