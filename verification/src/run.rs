use vstd::prelude::*;

use crate::conf::{Configuration, SuCommandView};
use crate::text::{
    chars_of, copy_strings, join, join_strings, owned_strings, remove_char, same_chars, strings,
    strs, without_char,
};

pub mod executor;
pub mod expeditor;
pub mod teller;

verus! {

/// An order: the tasks that one invocation asks for.
#[derive(Debug, Clone, PartialEq, Eq)]
pub struct Order {
    tasks: Vec<Task>,
}

impl View for Order {
    type V = Seq<TaskView>;

    closed spec fn view(&self) -> Seq<TaskView> {
        self.tasks@.map_values(|t: Task| t@)
    }
}

/// Whether every task of an order is done (an order without tasks is).
pub open spec fn all_done(tasks: Seq<TaskView>) -> bool {
    forall|i: int| 0 <= i < tasks.len() ==> #[trigger] tasks[i].done
}

impl Default for Order {
    fn default() -> (r: Order)
        ensures
            r@ == Seq::<TaskView>::empty(),
    {
        let r = Order { tasks: Vec::new() };
        assert(r@ =~= Seq::<TaskView>::empty());
        r
    }
}

impl Order {
    /// An order holding the given tasks.
    pub fn from_tasks(tasks: Vec<Task>) -> (r: Order)
        ensures
            r@ == tasks@.map_values(|t: Task| t@),
    {
        Order { tasks }
    }

    /// Whether every task is done.
    pub fn finished(&self) -> (r: bool)
        ensures
            r == all_done(self@),
    {
        let mut i: usize = 0;
        while i < self.tasks.len()
            invariant
                i <= self.tasks.len(),
                forall|j: int| 0 <= j < i ==> #[trigger] self@[j].done,
            decreases self.tasks.len() - i,
        {
            if !self.tasks[i].done {
                assert(!self@[i as int].done);
                return false;
            }
            i += 1;
        }
        true
    }

    /// A copy of the order.
    pub fn duplicate(&self) -> (r: Order)
        ensures
            r@ == self@,
    {
        let mut tasks: Vec<Task> = Vec::new();
        let mut i: usize = 0;
        while i < self.tasks.len()
            invariant
                i <= self.tasks.len(),
                tasks@.map_values(|t: Task| t@) =~= self@.take(i as int),
            decreases self.tasks.len() - i,
        {
            let t = self.tasks[i].duplicate();
            let ghost before = tasks@;
            tasks.push(t);
            assert(tasks@.map_values(|t: Task| t@) =~= before.map_values(|t: Task| t@).push(t@));
            i += 1;
        }
        assert(self@.take(self.tasks.len() as int) =~= self@);
        Order { tasks }
    }

    /// The tasks of the order.
    pub fn tasks(&self) -> (r: &Vec<Task>)
        ensures
            r@.map_values(|t: Task| t@) == self@,
    {
        &self.tasks
    }
}

/// The model of a task.
pub struct TaskView {
    pub kind: TaskKind,
    pub done: bool,
    pub argument: Seq<char>,
    pub parameters: Seq<Seq<char>>,
}

/// One thing that an order asks for.
#[derive(Debug, Clone, PartialEq, Eq)]
pub struct Task {
    kind: TaskKind,
    done: bool,
    argument: String,
    parameters: Vec<String>,
}

impl View for Task {
    type V = TaskView;

    closed spec fn view(&self) -> TaskView {
        TaskView {
            kind: self.kind,
            done: self.done,
            argument: self.argument@,
            parameters: strings(self.parameters@),
        }
    }
}

impl Default for Task {
    fn default() -> (r: Task)
        ensures
            r@ == (TaskView {
                kind: TaskKind::Unrecognized,
                done: false,
                argument: Seq::empty(),
                parameters: Seq::empty(),
            }),
    {
        let r = Task {
            kind: TaskKind::Unrecognized,
            done: false,
            argument: String::new(),
            parameters: Vec::new(),
        };
        assert(r@.parameters =~= Seq::<Seq<char>>::empty());
        r
    }
}

impl Task {
    /// A task of the given kind, not yet done.
    pub fn new(kind: TaskKind, argument: &str, parameters: Vec<String>) -> (r: Task)
        ensures
            r@ == (TaskView {
                kind,
                done: false,
                argument: argument@,
                parameters: strings(parameters@),
            }),
    {
        Task { kind, done: false, argument: argument.to_owned(), parameters }
    }

    /// The word that named the task.
    pub fn argument(&self) -> (r: &str)
        ensures
            r@ == self@.argument,
    {
        self.argument.as_str()
    }

    /// The words that followed it.
    pub fn parameters(&self) -> (r: &Vec<String>)
        ensures
            strings(r@) == self@.parameters,
    {
        &self.parameters
    }

    /// Whether the task is done.
    pub fn done(&self) -> (r: bool)
        ensures
            r == self@.done,
    {
        self.done
    }

    /// The kind of the task.
    pub fn kind(&self) -> (r: &TaskKind)
        ensures
            *r == self@.kind,
    {
        &self.kind
    }

    /// A copy of the task.
    pub fn duplicate(&self) -> (r: Task)
        ensures
            r@ == self@,
    {
        Task {
            kind: self.kind,
            done: self.done,
            argument: self.argument.clone(),
            parameters: copy_strings(&self.parameters),
        }
    }
}

/// What a task asks for.
#[derive(Debug, Clone, Copy, PartialEq, Eq, Structural)]
pub enum TaskKind {
    Version,
    Help,
    PackageInstall,
    PackageUninstall,
    PackageListAuto,
    PackageListManual,
    Unrecognized,
}

impl Default for TaskKind {
    fn default() -> (r: TaskKind)
        ensures
            r == TaskKind::Unrecognized,
    {
        TaskKind::Unrecognized
    }
}

/// The model of a command line.
pub struct CommandView {
    pub base: Seq<char>,
    pub args: Seq<Seq<char>>,
    pub escalated: bool,
}

/// A command line: a program and its arguments.
#[derive(Default, Debug, Clone, PartialEq, Eq)]
pub struct Command {
    pub base: String,
    pub args: Vec<String>,
    escalated: bool,
}

impl View for Command {
    type V = CommandView;

    closed spec fn view(&self) -> CommandView {
        CommandView { base: self.base@, args: strings(self.args@), escalated: self.escalated }
    }
}

/// Whether an argument is the marker that the wrapped command replaces
/// (`{%command%}`, spaces aside).
pub open spec fn is_marker(arg: Seq<char>) -> bool {
    without_char(arg, ' ') == "{%command%}"@
}

/// The number of arguments before the first marker.
pub open spec fn marker_position(args: Seq<Seq<char>>) -> nat
    decreases args.len(),
{
    if args.len() == 0 {
        0
    } else if is_marker(args[0]) {
        0
    } else {
        1 + marker_position(args.drop_first())
    }
}

/// A command line written out as one string: the program, a space, and the
/// arguments separated by spaces.
pub open spec fn flattened(command: CommandView) -> Seq<char> {
    command.base + " "@ + join(command.args, " "@)
}

/// The message of the error that a su command without a marker gives.
pub open spec fn no_marker_message() -> Seq<char> {
    "Could not replace command marker in su command from configuration"@
}

/// What escalating `command` through `su` gives: the su command whose
/// first marker is replaced by the whole command line where `su` wraps, or
/// whose arguments are followed by the program and its arguments where it
/// does not.
pub open spec fn escalated(command: CommandView, su: SuCommandView) -> Result<
    CommandView,
    ErrorView,
> {
    let args = su.command.args;
    if su.wraps {
        let i = marker_position(args);
        if i == args.len() {
            Err(ErrorView { message: no_marker_message(), kind: ErrorKind::BadSuCommandConfig })
        } else {
            Ok(
                CommandView {
                    base: su.command.base,
                    args: args.update(i as int, flattened(command)),
                    escalated: true,
                },
            )
        }
    } else {
        Ok(
            CommandView {
                base: su.command.base,
                args: args.push(command.base) + command.args,
                escalated: true,
            },
        )
    }
}

/// Whether `arg` is the marker.
fn marker_at(arg: &String) -> (r: bool)
    ensures
        r == is_marker(arg@),
{
    let chars = chars_of(arg.as_str());
    let squeezed = remove_char(&chars, ' ');
    let marker = chars_of("{%command%}");
    same_chars(&squeezed, &marker)
}

impl Command {
    /// The command run through the configured su command.
    pub fn escalate(&self, config: &Configuration) -> (r: Result<Command, Error>)
        ensures
            match r {
                Ok(c) => escalated(self@, config.su_command@) == Ok::<CommandView, ErrorView>(c@),
                Err(e) => escalated(self@, config.su_command@) == Err::<CommandView, ErrorView>(
                    e@,
                ),
            },
    {
        let su = config.su_command.command();
        let mut args = copy_strings(&su.args);
        let ghost su_args = strings(su.args@);
        if config.su_command.wraps() {
            let mut line = self.base.clone();
            line.append(" ");
            let rest = join_strings(&self.args, " ");
            line.append(rest.as_str());
            let mut i: usize = 0;
            assert(su_args.skip(0) == su_args);
            while i < args.len() && !marker_at(&args[i])
                invariant
                    i <= args.len(),
                    strings(args@) == su_args,
                    marker_position(su_args) == i + marker_position(su_args.skip(i as int)),
                decreases args.len() - i,
            {
                assert(su_args.skip(i as int).drop_first() == su_args.skip(i + 1));
                assert(su_args.skip(i as int)[0] == su_args[i as int]);
                i += 1;
            }
            if i == args.len() {
                assert(su_args.skip(i as int).len() == 0);
                return Err(
                    Error {
                        message: "Could not replace command marker in su command from configuration".to_owned(),
                        kind: ErrorKind::BadSuCommandConfig,
                    },
                );
            }
            assert(su_args.skip(i as int)[0] == su_args[i as int]);
            let ghost before = args@;
            args.set(i, line);
            assert(strings(args@) =~= su_args.update(i as int, flattened(self@)));
            let r = Command { base: su.base.clone(), args, escalated: true };
            assert(r@.args == su_args.update(i as int, flattened(self@)));
            assert(marker_position(su_args) == i);
            assert(r@ == escalated(self@, config.su_command@)->Ok_0);
            Ok(r)
        } else {
            let ghost before = args@;
            args.push(self.base.clone());
            assert(strings(args@) =~= su_args.push(self@.base));
            let mut j: usize = 0;
            while j < self.args.len()
                invariant
                    j <= self.args.len(),
                    strings(args@) =~= su_args.push(self@.base) + strings(self.args@).take(
                        j as int,
                    ),
                decreases self.args.len() - j,
            {
                let a = self.args[j].clone();
                let ghost mid = args@;
                args.push(a);
                assert(strings(args@) =~= strings(mid).push(a@));
                assert(strings(self.args@).take(j + 1) =~= strings(self.args@).take(j as int).push(
                    a@,
                ));
                j += 1;
            }
            assert(strings(self.args@).take(self.args.len() as int) =~= strings(self.args@));
            let r = Command { base: su.base.clone(), args, escalated: true };
            assert(r@ == escalated(self@, config.su_command@)->Ok_0);
            Ok(r)
        }
    }

    /// A command line that runs `base` with `args`, not escalated.
    pub fn new(base: &str, args: &[&str]) -> (r: Command)
        ensures
            r@ == (CommandView { base: base@, args: strs(args@), escalated: false }),
    {
        Command { base: base.to_owned(), args: owned_strings(args), escalated: false }
    }

    /// A command line that runs `base` with `args`, not escalated.
    pub fn from_parts(base: String, args: Vec<String>) -> (r: Command)
        ensures
            r@ == (CommandView { base: base@, args: strings(args@), escalated: false }),
    {
        Command { base, args, escalated: false }
    }

    /// Whether the command runs through the su command.
    pub fn escalated(&self) -> (r: bool)
        ensures
            r == self@.escalated,
    {
        self.escalated
    }

    /// A copy of the command.
    pub fn duplicate(&self) -> (r: Command)
        ensures
            r@ == self@,
    {
        Command {
            base: self.base.clone(),
            args: copy_strings(&self.args),
            escalated: self.escalated,
        }
    }
}

/// A transaction: commands to run in turn, each with the command that undoes it.
#[must_use]
#[derive(Clone, Debug, PartialEq, Eq)]
pub struct Transaction {
    commands: Vec<TransactionCommand>,
}

impl View for Transaction {
    type V = Seq<TransactionCommandView>;

    closed spec fn view(&self) -> Seq<TransactionCommandView> {
        self.commands@.map_values(|c: TransactionCommand| c@)
    }
}

impl Default for Transaction {
    fn default() -> (r: Transaction)
        ensures
            r@ == Seq::<TransactionCommandView>::empty(),
    {
        let r = Transaction { commands: Vec::new() };
        assert(r@ =~= Seq::<TransactionCommandView>::empty());
        r
    }
}

impl Transaction {
    /// A transaction of one command.
    pub fn single(command: &TransactionCommand) -> (r: Transaction)
        ensures
            r@ == seq![command@],
    {
        let mut commands: Vec<TransactionCommand> = Vec::new();
        commands.push(command.duplicate());
        let r = Transaction { commands };
        assert(r@ =~= seq![command@]);
        r
    }

    /// The number of commands.
    pub fn len(&self) -> (r: usize)
        ensures
            r == self@.len(),
    {
        self.commands.len()
    }

    /// The command at `index`.
    pub fn command(&self, index: usize) -> (r: &TransactionCommand)
        requires
            index < self@.len(),
        ensures
            r@ == self@[index as int],
    {
        &self.commands[index]
    }

    /// Sets the status of the command at `index`.
    pub fn set_status(&mut self, index: usize, status: TransactionCommandStatus)
        requires
            index < old(self)@.len(),
        ensures
            final(self)@ == old(self)@.update(
                index as int,
                TransactionCommandView { status, ..old(self)@[index as int] },
            ),
    {
        let mut c = self.commands[index].duplicate();
        c.status = status;
        self.commands.set(index, c);
        assert(self@ =~= old(self)@.update(
            index as int,
            TransactionCommandView { status, ..old(self)@[index as int] },
        ));
    }

    /// Records `error` on the command at `index`.
    pub fn push_error(&mut self, index: usize, error: &executor::Error)
        requires
            index < old(self)@.len(),
        ensures
            final(self)@ == old(self)@.update(
                index as int,
                TransactionCommandView {
                    errors: Some(old(self)@[index as int].errors.unwrap_or(Seq::empty()).push(error@)),
                    ..old(self)@[index as int]
                },
            ),
    {
        let mut c = self.commands[index].duplicate();
        c.push_error(error);
        self.commands.set(index, c);
        assert(self@ =~= old(self)@.update(
            index as int,
            TransactionCommandView {
                errors: Some(old(self)@[index as int].errors.unwrap_or(Seq::empty()).push(error@)),
                ..old(self)@[index as int]
            },
        ));
    }
}

/// The model of a command of a transaction.
pub struct TransactionCommandView {
    pub run: CommandView,
    pub rollback: CommandView,
    pub status: TransactionCommandStatus,
    pub errors: Option<Seq<executor::ErrorView>>,
}

/// A command of a transaction, with the command that undoes it.
#[derive(Clone, Default, Debug, PartialEq, Eq)]
pub struct TransactionCommand {
    run: Command,
    rollback: Command,
    status: TransactionCommandStatus,
    errors: Option<Vec<executor::Error>>,
}

/// The views of a sequence of executor errors.
pub open spec fn error_views(v: Seq<executor::Error>) -> Seq<executor::ErrorView> {
    v.map_values(|e: executor::Error| e@)
}

impl View for TransactionCommand {
    type V = TransactionCommandView;

    closed spec fn view(&self) -> TransactionCommandView {
        TransactionCommandView {
            run: self.run@,
            rollback: self.rollback@,
            status: self.status,
            errors: match self.errors {
                Some(v) => Some(error_views(v@)),
                None => None,
            },
        }
    }
}

impl TransactionCommand {
    /// A pending command with no errors yet.
    pub fn new(run: Command, rollback: Command) -> (r: TransactionCommand)
        ensures
            r@ == (TransactionCommandView {
                run: run@,
                rollback: rollback@,
                status: TransactionCommandStatus::Pending,
                errors: None,
            }),
    {
        TransactionCommand { run, rollback, status: TransactionCommandStatus::Pending, errors: None }
    }

    /// Records an error that running or undoing the command gave.
    pub fn push_error(&mut self, error: &executor::Error)
        ensures
            final(self)@ == (TransactionCommandView {
                errors: Some(old(self)@.errors.unwrap_or(Seq::empty()).push(error@)),
                ..old(self)@
            }),
    {
        let e = error.duplicate();
        match self.errors.take() {
            Some(mut v) => {
                let ghost before = v@;
                v.push(e);
                assert(error_views(v@) =~= error_views(before).push(error@));
                self.errors = Some(v);
            },
            None => {
                let mut v: Vec<executor::Error> = Vec::new();
                v.push(e);
                assert(error_views(v@) =~= Seq::<executor::ErrorView>::empty().push(error@));
                self.errors = Some(v);
            },
        }
    }

    /// The command to run.
    pub fn run(&self) -> (r: &Command)
        ensures
            r@ == self@.run,
    {
        &self.run
    }

    /// The command that undoes it.
    pub fn rollback(&self) -> (r: &Command)
        ensures
            r@ == self@.rollback,
    {
        &self.rollback
    }

    /// Where the command stands.
    pub fn status(&self) -> (r: TransactionCommandStatus)
        ensures
            r == self@.status,
    {
        self.status
    }

    /// A copy of the command.
    pub fn duplicate(&self) -> (r: TransactionCommand)
        ensures
            r@ == self@,
    {
        let errors = match &self.errors {
            Some(v) => {
                let mut w: Vec<executor::Error> = Vec::new();
                let mut i: usize = 0;
                while i < v.len()
                    invariant
                        i <= v.len(),
                        error_views(w@) =~= error_views(v@).take(i as int),
                    decreases v.len() - i,
                {
                    let e = v[i].duplicate();
                    let ghost before = w@;
                    w.push(e);
                    assert(error_views(w@) =~= error_views(before).push(e@));
                    i += 1;
                }
                assert(error_views(v@).take(v.len() as int) =~= error_views(v@));
                Some(w)
            },
            None => None,
        };
        TransactionCommand {
            run: self.run.duplicate(),
            rollback: self.rollback.duplicate(),
            status: self.status,
            errors,
        }
    }
}

/// Where a command of a transaction stands.
#[derive(Clone, Copy, Debug, PartialEq, Eq, Structural)]
pub enum TransactionCommandStatus {
    Pending,
    Success,
    PendingRollback,
    Rolledback,
    FailedRollback,
}

impl Default for TransactionCommandStatus {
    fn default() -> (r: TransactionCommandStatus)
        ensures
            r == TransactionCommandStatus::Pending,
    {
        TransactionCommandStatus::Pending
    }
}

/// The model of an error of escalation.
pub struct ErrorView {
    pub message: Seq<char>,
    pub kind: ErrorKind,
}

/// An error of escalation.
#[derive(Debug, Clone, PartialEq, Eq)]
pub struct Error {
    pub message: String,
    pub kind: ErrorKind,
}

impl View for Error {
    type V = ErrorView;

    open spec fn view(&self) -> ErrorView {
        ErrorView { message: self.message@, kind: self.kind }
    }
}

/// What went wrong in an escalation.
#[derive(Debug, Clone, Copy, PartialEq, Eq, Structural)]
pub enum ErrorKind {
    BadSuCommandConfig,
}

/// The name by which an error kind is shown.
pub open spec fn kind_name(kind: ErrorKind) -> Seq<char> {
    match kind {
        ErrorKind::BadSuCommandConfig => "BadSuCommandConfig"@,
    }
}

impl ErrorKind {
    /// The name by which the kind is shown.
    pub fn name(&self) -> (r: &'static str)
        ensures
            r@ == kind_name(*self),
    {
        match self {
            ErrorKind::BadSuCommandConfig => "BadSuCommandConfig",
        }
    }
}

} // verus!
