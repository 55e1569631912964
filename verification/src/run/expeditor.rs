use vstd::prelude::*;

use crate::os::debian::{operation_word, Operation};
use crate::os::pkg::{self, hauled, package_views, Package, PackageView, Packager, Packages};
use crate::run::{all_done, executor, Task, TaskKind, TaskView};
use crate::state::{order_views, State, StateView};
use crate::text::strings;

verus! {

/// The tasks of orders that are not done yet, order after order.
pub open spec fn pending(orders: Seq<Seq<TaskView>>) -> Seq<TaskView>
    decreases orders.len(),
{
    if orders.len() == 0 {
        Seq::empty()
    } else {
        pending(orders.drop_last()) + undone(orders.last())
    }
}

/// The tasks that are not done yet, in order.
pub open spec fn undone(tasks: Seq<TaskView>) -> Seq<TaskView>
    decreases tasks.len(),
{
    if tasks.len() == 0 {
        Seq::empty()
    } else if tasks.last().done {
        undone(tasks.drop_last())
    } else {
        undone(tasks.drop_last()).push(tasks.last())
    }
}

/// The tasks that fulfilling the state's orders works through, in turn.
pub fn pending_tasks(state: &State) -> (r: Vec<Task>)
    ensures
        r@.map_values(|t: Task| t@) == pending(state@.orders),
{
    let orders = state.orders();
    let ghost ov = order_views(orders@);
    let mut r: Vec<Task> = Vec::new();
    let mut i: usize = 0;
    while i < orders.len()
        invariant
            i <= orders.len(),
            ov == order_views(orders@),
            ov == state@.orders,
            r@.map_values(|t: Task| t@) == pending(ov.take(i as int)),
        decreases orders.len() - i,
    {
        assert(ov.take(i + 1).drop_last() == ov.take(i as int));
        let tasks = orders[i].tasks();
        let ghost tv = tasks@.map_values(|t: Task| t@);
        assert(tv == ov[i as int]);
        let ghost base = r@.map_values(|t: Task| t@);
        let mut j: usize = 0;
        while j < tasks.len()
            invariant
                j <= tasks.len(),
                tv == tasks@.map_values(|t: Task| t@),
                r@.map_values(|t: Task| t@) == base + undone(tv.take(j as int)),
            decreases tasks.len() - j,
        {
            assert(tv.take(j + 1).drop_last() == tv.take(j as int));
            assert(tv[j as int] == tasks@[j as int]@);
            if !tasks[j].done() {
                let t = tasks[j].duplicate();
                let ghost before = r@;
                r.push(t);
                assert(r@.map_values(|t: Task| t@) =~= before.map_values(|t: Task| t@).push(t@));
            }
            j += 1;
        }
        assert(tv.take(tasks.len() as int) == tv);
        i += 1;
    }
    assert(ov.take(orders.len() as int) == ov);
    r
}

/// The model of what fulfilling a task takes.
pub enum StepView {
    PrintVersion,
    Print(Seq<char>),
    ListAutomatic,
    ListManual,
    Report(Seq<char>, ErrorView),
    Nothing,
}

/// What fulfilling a task takes: printing the version, printing a text,
/// listing the automatically or manually installed packages, printing a
/// notice and failing with an error, or nothing more.
#[derive(Debug)]
pub enum Step {
    PrintVersion,
    Print(String),
    ListAutomatic,
    ListManual,
    Report(String, Error),
    Nothing,
}

impl View for Step {
    type V = StepView;

    open spec fn view(&self) -> StepView {
        match self {
            Step::PrintVersion => StepView::PrintVersion,
            Step::Print(s) => StepView::Print(s@),
            Step::ListAutomatic => StepView::ListAutomatic,
            Step::ListManual => StepView::ListManual,
            Step::Report(s, e) => StepView::Report(s@, e@),
            Step::Nothing => StepView::Nothing,
        }
    }
}

/// The packages that the words of a task name, their manual installation unknown.
pub open spec fn requested(parameters: Seq<Seq<char>>) -> Seq<PackageView> {
    parameters.map_values(|n: Seq<char>| PackageView { name: n, manual: None })
}

/// What installing or uninstalling the packages of a task takes: the error
/// of the package manager, a notice that there is nothing to do where apt is
/// given no package, or nothing more.
pub open spec fn haul_step(state: StateView, parameters: Seq<Seq<char>>, operation: Operation) -> Result<
    StepView,
    ErrorView,
> {
    match hauled(state.os.packager, operation, requested(parameters), state.configuration) {
        Err(e) => Err(from_packaging(e)),
        Ok(_) => if parameters.len() == 0 && state.os.packager is Apt {
            Ok(StepView::Print("Package selection is empty: Nothing to "@ + operation_word(operation)))
        } else {
            Ok(StepView::Nothing)
        },
    }
}

/// The notice printed and the error returned where the installed packages
/// could not be listed.
pub open spec fn listing_failure(error: pkg::ErrorView, manual: bool) -> (Seq<char>, ErrorView) {
    (
        if manual {
            "Error gathering manually-installed packages: "@
        } else {
            "Error gathering automatically-installed packages: "@
        } + pkg::error_debug(error),
        from_packaging(error),
    )
}

/// What listing installed packages takes: reading them where the package
/// manager is apt, failing where it is not known.
pub open spec fn listing_step(packager: Packager, manual: bool) -> StepView {
    match packager {
        Packager::Apt(_) => if manual {
            StepView::ListManual
        } else {
            StepView::ListAutomatic
        },
        Packager::Unknown => {
            let failure = listing_failure(
                pkg::unknown_packager_error(
                    if manual {
                        "list manually-installed packages"@
                    } else {
                        "list automatically-installed packages"@
                    },
                ),
                manual,
            );
            StepView::Report(failure.0, failure.1)
        },
    }
}

/// What fulfilling a task takes, by its kind.
pub open spec fn planned(state: StateView, task: TaskView) -> Result<StepView, ErrorView> {
    match task.kind {
        TaskKind::Version => Ok(StepView::PrintVersion),
        TaskKind::Help => Ok(StepView::Print("<long help>"@)),
        TaskKind::PackageInstall => haul_step(state, task.parameters, Operation::Install),
        TaskKind::PackageUninstall => haul_step(state, task.parameters, Operation::Uninstall),
        TaskKind::PackageListAuto => Ok(listing_step(state.os.packager, false)),
        TaskKind::PackageListManual => Ok(listing_step(state.os.packager, true)),
        TaskKind::Unrecognized => Ok(
            StepView::Print("Unrecognized command: "@ + task.argument + "\n<short help>"@),
        ),
    }
}

/// The packages that the words of a task name.
fn packages_of(parameters: &Vec<String>) -> (r: Vec<Package>)
    ensures
        package_views(r@) == requested(strings(parameters@)),
{
    let mut r: Vec<Package> = Vec::new();
    let mut i: usize = 0;
    while i < parameters.len()
        invariant
            i <= parameters.len(),
            package_views(r@) =~= requested(strings(parameters@)).take(i as int),
        decreases parameters.len() - i,
    {
        let p = Package::named(parameters[i].clone());
        let ghost before = r@;
        r.push(p);
        assert(package_views(r@) =~= package_views(before).push(p@));
        i += 1;
    }
    assert(requested(strings(parameters@)).take(parameters.len() as int) =~= requested(
        strings(parameters@),
    ));
    r
}

/// The notice and the error where the installed packages could not be listed.
pub fn report_listing_failure(error: pkg::Error, manual: bool) -> (r: (String, Error))
    ensures
        (r.0@, r.1@) == listing_failure(error@, manual),
{
    let mut notice = if manual {
        "Error gathering manually-installed packages: ".to_owned()
    } else {
        "Error gathering automatically-installed packages: ".to_owned()
    };
    let shown = error.debug();
    notice.append(shown.as_str());
    (notice, Error::from_packaging_error(error))
}

/// What installing or uninstalling the packages of a task takes.
fn plan_haul(state: &State, parameters: &Vec<String>, operation: Operation) -> (r: Result<Step, Error>)
    ensures
        match r {
            Ok(s) => haul_step(state@, strings(parameters@), operation) == Ok::<StepView, ErrorView>(s@),
            Err(e) => haul_step(state@, strings(parameters@), operation) == Err::<StepView, ErrorView>(e@),
        },
{
    let packages = packages_of(parameters);
    let packager = state.os().packager();
    let config = state.configuration();
    let result = match operation {
        Operation::Install => packager.install(packages.as_slice(), &config),
        Operation::Uninstall => packager.uninstall(packages.as_slice(), &config),
    };
    match result {
        Err(e) => Err(Error::from_packaging_error(e)),
        Ok(_) => {
            let is_apt = match packager {
                Packager::Apt(_) => true,
                Packager::Unknown => false,
            };
            if parameters.len() == 0 && is_apt {
                let mut notice = "Package selection is empty: Nothing to ".to_owned();
                notice.append(operation.word());
                Ok(Step::Print(notice))
            } else {
                Ok(Step::Nothing)
            }
        },
    }
}

/// What listing installed packages takes.
fn plan_listing(packager: Packager, manual: bool) -> (r: Step)
    ensures
        r@ == listing_step(packager, manual),
{
    match packager {
        Packager::Apt(_) => if manual {
            Step::ListManual
        } else {
            Step::ListAutomatic
        },
        Packager::Unknown => {
            let action = if manual {
                "list manually-installed packages"
            } else {
                "list automatically-installed packages"
            };
            let error = match pkg::Error::unknown_packager::<()>(action) {
                Err(e) => e,
                Ok(_) => vstd::pervasive::unreached(),
            };
            let (notice, e) = report_listing_failure(error, manual);
            Step::Report(notice, e)
        },
    }
}

/// What fulfilling a task takes.
pub fn plan_task(state: &State, task: &Task) -> (r: Result<Step, Error>)
    ensures
        match r {
            Ok(s) => planned(state@, task@) == Ok::<StepView, ErrorView>(s@),
            Err(e) => planned(state@, task@) == Err::<StepView, ErrorView>(e@),
        },
{
    match task.kind() {
        TaskKind::Version => Ok(Step::PrintVersion),
        TaskKind::Help => Ok(Step::Print("<long help>".to_owned())),
        TaskKind::PackageInstall => plan_haul(state, task.parameters(), Operation::Install),
        TaskKind::PackageUninstall => plan_haul(state, task.parameters(), Operation::Uninstall),
        TaskKind::PackageListAuto => Ok(plan_listing(state.os().packager(), false)),
        TaskKind::PackageListManual => Ok(plan_listing(state.os().packager(), true)),
        TaskKind::Unrecognized => {
            let mut text = "Unrecognized command: ".to_owned();
            text.append(task.argument());
            text.append("\n<short help>");
            Ok(Step::Print(text))
        },
    }
}

/// The model of an error in fulfilling an order.
pub struct ErrorView {
    pub message: Seq<char>,
    pub kind: ErrorKind,
}

/// An error in fulfilling an order.
#[derive(Debug)]
pub struct Error {
    pub message: String,
    pub kind: ErrorKind,
}

impl View for Error {
    type V = ErrorView;

    open spec fn view(&self) -> ErrorView {
        ErrorView { message: self.message@, kind: self.kind }
    }
}

/// The error that an error in running a command becomes.
pub open spec fn from_executor(e: executor::ErrorView) -> ErrorView {
    ErrorView {
        message: pkg::relabelled(executor::kind_name(e.kind), e.message),
        kind: ErrorKind::ExecutorError,
    }
}

/// The error that a packaging error becomes.
pub open spec fn from_packaging(e: pkg::ErrorView) -> ErrorView {
    ErrorView {
        message: pkg::relabelled(pkg::kind_name(e.kind), e.message),
        kind: ErrorKind::PackagingError,
    }
}

impl Error {
    /// The error that an error in running a command becomes.
    pub fn from_executor_error(e: executor::Error) -> (r: Error)
        ensures
            r@ == from_executor(e@),
    {
        let mut message = e.kind.name().to_owned();
        message.append(": ");
        message.append(e.message.as_str());
        Error { message, kind: ErrorKind::ExecutorError }
    }

    /// The error that a packaging error becomes.
    pub fn from_packaging_error(e: pkg::Error) -> (r: Error)
        ensures
            r@ == from_packaging(e@),
    {
        let mut message = e.kind.name().to_owned();
        message.append(": ");
        message.append(e.message.as_str());
        Error { message, kind: ErrorKind::PackagingError }
    }
}

/// What went wrong in fulfilling an order.
#[derive(Debug, Clone, Copy, PartialEq, Eq, Structural)]
pub enum ErrorKind {
    ExecutorError,
    PackagingError,
    PackagerUnknown,
    OsUnknown,
}

/// The tasks that fulfilling works through are the ones not yet done.
pub proof fn lemma_undone_not_done(tasks: Seq<TaskView>, t: TaskView)
    requires
        undone(tasks).contains(t),
    ensures
        !t.done,
        tasks.contains(t),
    decreases tasks.len(),
{
    let rest = undone(tasks.drop_last());
    if tasks.len() > 0 {
        if rest.contains(t) {
            lemma_undone_not_done(tasks.drop_last(), t);
            let i = choose|i: int| 0 <= i < tasks.drop_last().len() && tasks.drop_last()[i] == t;
            assert(tasks[i] == t);
        } else {
            assert(t == tasks.last());
        }
    }
}

/// Every task that is not done is among the tasks still to do, which keep
/// their order.
pub proof fn lemma_undone_complete(tasks: Seq<TaskView>, j: int)
    requires
        0 <= j < tasks.len(),
        !tasks[j].done,
    ensures
        undone(tasks).contains(tasks[j]),
    decreases tasks.len(),
{
    let rest = tasks.drop_last();
    if j == tasks.len() - 1 {
        assert(undone(tasks) == undone(rest).push(tasks[j]));
        assert(undone(tasks)[undone(rest).len() as int] == tasks[j]);
    } else {
        assert(tasks[j] == rest[j]);
        lemma_undone_complete(rest, j);
        let k = choose|k: int| 0 <= k < undone(rest).len() && undone(rest)[k] == tasks[j];
        if tasks.last().done {
            assert(undone(tasks) == undone(rest));
        } else {
            assert(undone(tasks) == undone(rest).push(tasks.last()));
            assert(undone(tasks)[k] == tasks[j]);
        }
    }
}

/// Fulfilling works through every task that is not done, in every order of
/// the run: a task of any order that is not done is pending.
pub proof fn lemma_pending_complete(orders: Seq<Seq<TaskView>>, i: int, j: int)
    requires
        0 <= i < orders.len(),
        0 <= j < orders[i].len(),
        !orders[i][j].done,
    ensures
        pending(orders).contains(orders[i][j]),
    decreases orders.len(),
{
    let rest = orders.drop_last();
    let t = orders[i][j];
    if i == orders.len() - 1 {
        lemma_undone_complete(orders.last(), j);
        let k = choose|k: int| 0 <= k < undone(orders.last()).len() && undone(orders.last())[k] == t;
        assert(pending(orders)[pending(rest).len() + k] == t);
    } else {
        assert(orders[i] == rest[i]);
        lemma_pending_complete(rest, i, j);
        let k = choose|k: int| 0 <= k < pending(rest).len() && pending(rest)[k] == t;
        assert(pending(orders)[k] == t);
    }
}

/// Only tasks that are not done are pending, and each comes from an order of
/// the run.
pub proof fn lemma_pending_sound(orders: Seq<Seq<TaskView>>, t: TaskView)
    requires
        pending(orders).contains(t),
    ensures
        !t.done,
        exists|i: int| 0 <= i < orders.len() && #[trigger] orders[i].contains(t),
    decreases orders.len(),
{
    let rest = orders.drop_last();
    let k = choose|k: int| 0 <= k < pending(orders).len() && pending(orders)[k] == t;
    if k < pending(rest).len() {
        assert(pending(rest)[k] == t);
        lemma_pending_sound(rest, t);
        let i = choose|i: int| 0 <= i < rest.len() && #[trigger] rest[i].contains(t);
        assert(orders[i] == rest[i]);
    } else {
        let last = orders.last();
        assert(undone(last)[k - pending(rest).len()] == t);
        lemma_undone_not_done(last, t);
        assert(orders[orders.len() - 1].contains(t));
    }
}

/// A run of one order works through exactly that order's tasks that are not
/// done, in their order: their number is the number of tasks not done, and
/// each one, in turn, is the next task that is not done.
pub proof fn lemma_pending_one_order(tasks: Seq<TaskView>)
    ensures
        pending(seq![tasks]) == undone(tasks),
        undone(tasks).len() == tasks.filter(|t: TaskView| !t.done).len(),
        undone(tasks) == tasks.filter(|t: TaskView| !t.done),
{
    let one = seq![tasks];
    assert(one.drop_last() =~= Seq::<Seq<TaskView>>::empty());
    assert(one.last() == tasks);
    assert(pending(one.drop_last()) == Seq::<TaskView>::empty());
    assert(pending(one) == pending(one.drop_last()) + undone(tasks));
    assert(Seq::<TaskView>::empty() + undone(tasks) =~= undone(tasks));
    lemma_undone_is_filter(tasks);
}

/// The tasks still to do are the tasks filtered to those not done.
proof fn lemma_undone_is_filter(tasks: Seq<TaskView>)
    ensures
        undone(tasks) == tasks.filter(|t: TaskView| !t.done),
    decreases tasks.len(),
{
    reveal(Seq::filter);
    if tasks.len() > 0 {
        lemma_undone_is_filter(tasks.drop_last());
    }
}

/// An order whose tasks are all done adds no work.
pub proof fn lemma_finished_order_skipped(tasks: Seq<TaskView>)
    requires
        all_done(tasks),
    ensures
        undone(tasks) == Seq::<TaskView>::empty(),
    decreases tasks.len(),
{
    if tasks.len() > 0 {
        assert(tasks.last().done);
        assert(all_done(tasks.drop_last())) by {
            assert forall|i: int| 0 <= i < tasks.drop_last().len() implies #[trigger] tasks.drop_last()[i].done by {
                assert(tasks[i].done);
            }
        }
        lemma_finished_order_skipped(tasks.drop_last());
    }
}

} // verus!
