use vstd::prelude::*;

use crate::lite::conf::{Configuration, ConfigurationView};
use crate::text::{chars_of, copy_strings, join, join_strings, same_chars, strings};

verus! {

/// The model of an order.
pub type OrderView = Seq<TaskView>;

/// An order: the tasks that one invocation asks for.
#[derive(Default, Debug)]
pub struct Order<'o> {
    tasks: Vec<Task<'o>>,
}

impl<'o> View for Order<'o> {
    type V = Seq<TaskView>;

    closed spec fn view(&self) -> Seq<TaskView> {
        self.tasks@.map_values(|t: Task<'o>| t@)
    }
}

/// Whether every task of an order is done (an order without tasks is).
pub open spec fn all_done(tasks: Seq<TaskView>) -> bool {
    forall|i: int| 0 <= i < tasks.len() ==> #[trigger] tasks[i].done
}

/// Whether a task of the given kind is done once its work is carried out;
/// `report` is what that work reported, for the kinds whose work can fail:
/// the version, help and echo always are, an unrecognized command never is,
/// a package task is where it names packages, and showing the system or the
/// user is where the work succeeded.
pub open spec fn completion(kind: TaskKind, parameters: Seq<Seq<char>>, report: bool) -> bool {
    match kind {
        TaskKind::Version => true,
        TaskKind::Help => true,
        TaskKind::Echo => true,
        TaskKind::Unrecognized => false,
        TaskKind::Package => parameters.len() > 0,
        TaskKind::OsInfo => report,
        TaskKind::User => report,
    }
}

/// The tasks after filling: each task that was not done is completed with
/// the report of its work.
pub open spec fn filled(tasks: Seq<TaskView>, reports: Seq<bool>) -> Seq<TaskView> {
    Seq::new(
        tasks.len(),
        |i: int|
            if tasks[i].done {
                tasks[i]
            } else {
                TaskView { done: completion(tasks[i].kind, tasks[i].parameters, reports[i]), ..tasks[i] }
            },
    )
}

impl<'o> Order<'o> {
    /// An order holding the given tasks.
    pub fn from_tasks(tasks: Vec<Task<'o>>) -> (r: Order<'o>)
        ensures
            r@ == tasks@.map_values(|t: Task<'o>| t@),
    {
        Order { tasks }
    }

    /// The number of tasks.
    pub fn len(&self) -> (r: usize)
        ensures
            r == self@.len(),
    {
        self.tasks.len()
    }

    /// The task at `index`.
    pub fn task(&self, index: usize) -> (r: &Task<'o>)
        requires
            index < self@.len(),
        ensures
            r@ == self@[index as int],
    {
        &self.tasks[index]
    }

    /// Completes every task that is not done, with the reports of the work
    /// that each one took (one report for each task, in order; the reports
    /// of tasks that were done are not read).
    pub fn fill(&mut self, reports: &[bool])
        requires
            reports@.len() == old(self)@.len(),
        ensures
            final(self)@ == filled(old(self)@, reports@),
    {
        let ghost start = self@;
        let mut i: usize = 0;
        while i < self.tasks.len()
            invariant
                i <= self.tasks.len(),
                reports@.len() == self.tasks.len(),
                start.len() == self.tasks.len(),
                forall|j: int| 0 <= j < i ==> #[trigger] self@[j] == filled(start, reports@)[j],
                forall|j: int| i <= j < self.tasks.len() ==> #[trigger] self@[j] == start[j],
            decreases self.tasks.len() - i,
        {
            let ghost before = self@;
            assert(before[i as int] == start[i as int]);
            if !self.tasks[i].done {
                let mut t = self.tasks[i].duplicate();
                t.complete(reports[i]);
                assert(t@ == filled(start, reports@)[i as int]);
                self.tasks.set(i, t);
                assert(self@ =~= before.update(i as int, t@));
            } else {
                assert(before[i as int] == filled(start, reports@)[i as int]);
            }
            i += 1;
        }
        assert(self@ =~= filled(start, reports@));
    }

    /// Whether every task is done.
    pub fn finished(&self) -> (r: bool)
        ensures
            r == all_done(self@),
    {
        let mut i: usize = 0;
        while i < self.tasks.len()
            invariant
                i <= self.tasks.len(),
                forall|j: int| 0 <= j < i ==> #[trigger] self@[j].done,
            decreases self.tasks.len() - i,
        {
            if !self.tasks[i].done {
                assert(!self@[i as int].done);
                return false;
            }
            i += 1;
        }
        true
    }
}

/// The model of a task.
pub struct TaskView {
    pub kind: TaskKind,
    pub done: bool,
    pub argument: Seq<char>,
    pub parameters: Seq<Seq<char>>,
    pub configuration: ConfigurationView,
}

/// One thing that an order asks for, with the configuration it runs under.
#[derive(Debug, Clone)]
pub struct Task<'t> {
    kind: TaskKind,
    done: bool,
    argument: String,
    parameters: Vec<String>,
    configuration: &'t Configuration,
}

impl<'t> View for Task<'t> {
    type V = TaskView;

    closed spec fn view(&self) -> TaskView {
        TaskView {
            kind: self.kind,
            done: self.done,
            argument: self.argument@,
            parameters: strings(self.parameters@),
            configuration: self.configuration@,
        }
    }
}

/// The model of the work that a task takes.
pub enum ActionView {
    PrintVersion,
    PrintHelp,
    PrintInfo,
    PrintUser,
    Echo(Option<Seq<char>>),
    Unrecognized(Seq<char>),
    NothingToInstall,
    Package { install: CommandView, remove: CommandView, summary: Seq<char> },
}

/// The work that a task takes: printing the version, the help, the system
/// or the user; printing a text (or nothing, for an echo of no words);
/// telling that there is nothing to install; or running the command that
/// installs packages through the su command, then the one that removes them
/// through it, then printing a summary.
#[derive(Debug)]
pub enum Action {
    PrintVersion,
    PrintHelp,
    PrintInfo,
    PrintUser,
    Echo(Option<String>),
    Unrecognized(String),
    NothingToInstall,
    Package { install: Command, remove: Command, summary: String },
}

impl View for Action {
    type V = ActionView;

    open spec fn view(&self) -> ActionView {
        match self {
            Action::PrintVersion => ActionView::PrintVersion,
            Action::PrintHelp => ActionView::PrintHelp,
            Action::PrintInfo => ActionView::PrintInfo,
            Action::PrintUser => ActionView::PrintUser,
            Action::Echo(t) => ActionView::Echo(
                match t {
                    Some(s) => Some(s@),
                    None => None,
                },
            ),
            Action::Unrecognized(s) => ActionView::Unrecognized(s@),
            Action::NothingToInstall => ActionView::NothingToInstall,
            Action::Package { install, remove, summary } => ActionView::Package {
                install: install@,
                remove: remove@,
                summary: summary@,
            },
        }
    }
}

/// The command that installs the packages: the su command's program, its
/// arguments, `apt install`, and the packages.
pub open spec fn install_command(su: CommandView, packages: Seq<Seq<char>>) -> CommandView {
    CommandView { base: su.base, args: su.args + seq!["apt"@, "install"@] + packages }
}

/// The command that removes them again, also through the su command: the su
/// command's program, its arguments, `apt remove`, and the packages.
pub open spec fn remove_command(su: CommandView, packages: Seq<Seq<char>>) -> CommandView {
    CommandView { base: su.base, args: su.args + seq!["apt"@, "remove"@] + packages }
}

/// A command line as it is logged: the program, a space, and the arguments
/// separated by spaces.
pub open spec fn command_line(command: CommandView) -> Seq<char> {
    command.base + " "@ + join(command.args, " "@)
}

/// The summary printed after installing and removing packages: `Done:`, then
/// the two commands that ran, one per line.
pub open spec fn package_summary(su: CommandView, packages: Seq<Seq<char>>) -> Seq<char> {
    "Done:\n"@ + command_line(install_command(su, packages)) + "\n"@ + command_line(
        remove_command(su, packages),
    )
}

/// The work that a task of the given model takes.
pub open spec fn action_of(task: TaskView) -> ActionView {
    match task.kind {
        TaskKind::Version => ActionView::PrintVersion,
        TaskKind::Help => ActionView::PrintHelp,
        TaskKind::OsInfo => ActionView::PrintInfo,
        TaskKind::User => ActionView::PrintUser,
        TaskKind::Echo => ActionView::Echo(
            if task.parameters.len() == 0 {
                None
            } else {
                Some(join(task.parameters, " "@))
            },
        ),
        TaskKind::Unrecognized => ActionView::Unrecognized(
            "Unrecognized command: "@ + task.argument + "\n<short help>"@,
        ),
        TaskKind::Package => if task.parameters.len() == 0 {
            ActionView::NothingToInstall
        } else {
            ActionView::Package {
                install: install_command(task.configuration.su_command, task.parameters),
                remove: remove_command(task.configuration.su_command, task.parameters),
                summary: package_summary(task.configuration.su_command, task.parameters),
            }
        },
    }
}

impl<'t> Task<'t> {
    /// A task of the given kind, not yet done.
    pub fn new(
        kind: TaskKind,
        argument: &str,
        parameters: Vec<String>,
        configuration: &'t Configuration,
    ) -> (r: Task<'t>)
        ensures
            r@ == (TaskView {
                kind,
                done: false,
                argument: argument@,
                parameters: strings(parameters@),
                configuration: configuration@,
            }),
    {
        Task { kind, done: false, argument: argument.to_owned(), parameters, configuration }
    }

    /// Records that the work of the task was carried out and reported `report`.
    pub fn complete(&mut self, report: bool)
        ensures
            final(self)@ == (TaskView {
                done: completion(old(self)@.kind, old(self)@.parameters, report),
                ..old(self)@
            }),
    {
        self.done = match self.kind {
            TaskKind::Version => true,
            TaskKind::Help => true,
            TaskKind::Echo => true,
            TaskKind::Unrecognized => false,
            TaskKind::Package => self.parameters.len() > 0,
            TaskKind::OsInfo => report,
            TaskKind::User => report,
        };
    }

    /// The work that the task takes.
    pub fn action(&self) -> (r: Action)
        ensures
            r@ == action_of(self@),
    {
        match self.kind {
            TaskKind::Version => Action::PrintVersion,
            TaskKind::Help => Action::PrintHelp,
            TaskKind::OsInfo => Action::PrintInfo,
            TaskKind::User => Action::PrintUser,
            TaskKind::Echo => {
                if self.parameters.len() == 0 {
                    Action::Echo(None)
                } else {
                    Action::Echo(Some(join_strings(&self.parameters, " ")))
                }
            },
            TaskKind::Unrecognized => {
                let mut text = "Unrecognized command: ".to_owned();
                text.append(self.argument.as_str());
                text.append("\n<short help>");
                Action::Unrecognized(text)
            },
            TaskKind::Package => {
                if self.parameters.len() == 0 {
                    return Action::NothingToInstall;
                }
                let su = &self.configuration.su_command;
                let ghost pv = strings(self.parameters@);
                let mut install_args = copy_strings(&su.args);
                install_args.push("apt".to_owned());
                install_args.push("install".to_owned());
                let mut remove_args = copy_strings(&su.args);
                remove_args.push("apt".to_owned());
                remove_args.push("remove".to_owned());
                let ghost install_start = strings(install_args@);
                let ghost remove_start = strings(remove_args@);
                assert(install_start =~= strings(su.args@) + seq!["apt"@, "install"@]);
                assert(remove_start =~= strings(su.args@) + seq!["apt"@, "remove"@]);
                let mut i: usize = 0;
                while i < self.parameters.len()
                    invariant
                        i <= self.parameters.len(),
                        pv == strings(self.parameters@),
                        strings(install_args@) =~= install_start + pv.take(i as int),
                        strings(remove_args@) =~= remove_start + pv.take(i as int),
                    decreases self.parameters.len() - i,
                {
                    let a = self.parameters[i].clone();
                    let b = self.parameters[i].clone();
                    let ghost ib = install_args@;
                    let ghost rb = remove_args@;
                    install_args.push(a);
                    remove_args.push(b);
                    assert(strings(install_args@) =~= strings(ib).push(a@));
                    assert(strings(remove_args@) =~= strings(rb).push(b@));
                    assert(pv.take(i + 1) =~= pv.take(i as int).push(pv[i as int]));
                    i += 1;
                }
                assert(pv.take(self.parameters.len() as int) =~= pv);
                let mut summary = "Done:\n".to_owned();
                summary.append(su.base.as_str());
                summary.append(" ");
                let joined_install = join_strings(&install_args, " ");
                summary.append(joined_install.as_str());
                summary.append("\n");
                summary.append(su.base.as_str());
                summary.append(" ");
                let joined_remove = join_strings(&remove_args, " ");
                summary.append(joined_remove.as_str());
                assert(strings(install_args@) == install_command(su@, pv).args);
                assert(strings(remove_args@) == remove_command(su@, pv).args);
                assert(summary@ =~= package_summary(su@, pv));
                Action::Package {
                    install: Command { base: su.base.clone(), args: install_args },
                    remove: Command { base: su.base.clone(), args: remove_args },
                    summary,
                }
            },
        }
    }

    /// The word that named the task.
    pub fn argument(&self) -> (r: &str)
        ensures
            r@ == self@.argument,
    {
        self.argument.as_str()
    }

    /// The words that followed it.
    pub fn parameters(&self) -> (r: &Vec<String>)
        ensures
            strings(r@) == self@.parameters,
    {
        &self.parameters
    }

    /// Whether the task is done.
    pub fn done(&self) -> (r: bool)
        ensures
            r == self@.done,
    {
        self.done
    }

    /// The kind of the task.
    pub fn kind(&self) -> (r: TaskKind)
        ensures
            r == self@.kind,
    {
        self.kind
    }

    /// A copy of the task.
    pub fn duplicate(&self) -> (r: Task<'t>)
        ensures
            r@ == self@,
    {
        Task {
            kind: self.kind,
            done: self.done,
            argument: self.argument.clone(),
            parameters: copy_strings(&self.parameters),
            configuration: self.configuration,
        }
    }
}

/// What a task asks for.
#[derive(Debug, Clone, Copy, PartialEq, Eq, Structural)]
pub enum TaskKind {
    Version,
    Help,
    OsInfo,
    Package,
    User,
    Echo,
    Unrecognized,
}

/// The model of a command line.
pub struct CommandView {
    pub base: Seq<char>,
    pub args: Seq<Seq<char>>,
}

/// A command line: a program and its arguments.
#[derive(Debug, Clone)]
pub struct Command {
    pub base: String,
    pub args: Vec<String>,
}

impl View for Command {
    type V = CommandView;

    open spec fn view(&self) -> CommandView {
        CommandView { base: self.base@, args: strings(self.args@) }
    }
}

/// The word that names the command and the words after it, from the
/// arguments of the program; `first_is_executable` tells whether the first
/// argument is the path of the program itself, which is then skipped.
pub open spec fn command_words(arguments: Seq<Seq<char>>, first_is_executable: bool) -> Option<
    (Seq<char>, Seq<Seq<char>>),
> {
    if arguments.len() == 0 {
        None
    } else if first_is_executable {
        if arguments.len() < 2 {
            None
        } else {
            Some((arguments[1], arguments.skip(2)))
        }
    } else {
        Some((arguments[0], arguments.skip(1)))
    }
}

/// The kind of task that a command word asks for.
pub open spec fn task_kind(word: Seq<char>) -> TaskKind {
    if word == "version"@ || word == "-v"@ || word == "--version"@ {
        TaskKind::Version
    } else if word == "help"@ || word == "-h"@ || word == "--help"@ {
        TaskKind::Help
    } else if word == "os"@ {
        TaskKind::OsInfo
    } else if word == "pkg"@ {
        TaskKind::Package
    } else if word == "user"@ {
        TaskKind::User
    } else if word == "echo"@ {
        TaskKind::Echo
    } else {
        TaskKind::Unrecognized
    }
}

/// The order that the arguments of the program give: no task where there is
/// no command word, else one task of the kind the word names, not yet done.
pub open spec fn ordered(
    arguments: Seq<Seq<char>>,
    first_is_executable: bool,
    configuration: ConfigurationView,
) -> Seq<TaskView> {
    match command_words(arguments, first_is_executable) {
        None => Seq::empty(),
        Some((word, parameters)) => seq![
            TaskView {
                kind: task_kind(word),
                done: false,
                argument: word,
                parameters,
                configuration,
            },
        ],
    }
}

/// Whether a string equals a literal.
fn is_word(s: &String, literal: &str) -> (r: bool)
    ensures
        r == (s@ == literal@),
{
    let a = chars_of(s.as_str());
    let b = chars_of(literal);
    same_chars(&a, &b)
}

/// The kind of task that a command word asks for.
pub fn kind_of(word: &String) -> (r: TaskKind)
    ensures
        r == task_kind(word@),
{
    if is_word(word, "version") || is_word(word, "-v") || is_word(word, "--version") {
        TaskKind::Version
    } else if is_word(word, "help") || is_word(word, "-h") || is_word(word, "--help") {
        TaskKind::Help
    } else if is_word(word, "os") {
        TaskKind::OsInfo
    } else if is_word(word, "pkg") {
        TaskKind::Package
    } else if is_word(word, "user") {
        TaskKind::User
    } else if is_word(word, "echo") {
        TaskKind::Echo
    } else {
        TaskKind::Unrecognized
    }
}

/// The order that the arguments of the program give, under `configuration`.
pub fn parse<'c>(
    arguments: &Vec<String>,
    first_is_executable: bool,
    configuration: &'c Configuration,
) -> (r: Order<'c>)
    ensures
        r@ == ordered(strings(arguments@), first_is_executable, configuration@),
{
    let ghost av = strings(arguments@);
    let start: usize = if first_is_executable {
        1
    } else {
        0
    };
    if arguments.len() <= start {
        let r = Order { tasks: Vec::new() };
        assert(r@ =~= Seq::<TaskView>::empty());
        return r;
    }
    let argument = &arguments[start];
    let mut parameters: Vec<String> = Vec::new();
    let mut i: usize = start + 1;
    while i < arguments.len()
        invariant
            start + 1 <= i <= arguments.len(),
            av == strings(arguments@),
            strings(parameters@) == av.subrange(start + 1, i as int),
        decreases arguments.len() - i,
    {
        let p = arguments[i].clone();
        let ghost before = parameters@;
        parameters.push(p);
        assert(strings(parameters@) =~= strings(before).push(p@));
        assert(av.subrange(start + 1, i + 1) =~= av.subrange(start + 1, i as int).push(av[i as int]));
        i += 1;
    }
    assert(av.subrange(start + 1, arguments.len() as int) =~= av.skip(start + 1));
    assert(av[start as int] == argument@);
    let kind = kind_of(argument);
    let task = Task::new(kind, argument.as_str(), parameters, configuration);
    let mut tasks: Vec<Task<'c>> = Vec::new();
    tasks.push(task);
    let r = Order { tasks };
    assert(r@ =~= ordered(av, first_is_executable, configuration@));
    r
}

/// An invocation without a command word gives an order without tasks,
/// which is finished: nothing is printed and the program succeeds.
pub proof fn lemma_no_command_finishes(
    arguments: Seq<Seq<char>>,
    first_is_executable: bool,
    configuration: ConfigurationView,
    reports: Seq<bool>,
)
    requires
        command_words(arguments, first_is_executable) is None,
    ensures
        ordered(arguments, first_is_executable, configuration).len() == 0,
        all_done(filled(ordered(arguments, first_is_executable, configuration), reports)),
{
}

/// `echo` prints its words separated by spaces (nothing for no words) and
/// its order is finished once filled, whatever the reports.
pub proof fn lemma_echo(
    arguments: Seq<Seq<char>>,
    first_is_executable: bool,
    configuration: ConfigurationView,
    reports: Seq<bool>,
)
    requires
        command_words(arguments, first_is_executable) matches Some((word, _)) && word == "echo"@,
        reports.len() == 1,
    ensures
        ({
            let order = ordered(arguments, first_is_executable, configuration);
            let parameters = (command_words(arguments, first_is_executable)->0).1;
            &&& action_of(order[0]) == ActionView::Echo(
                if parameters.len() == 0 {
                    None
                } else {
                    Some(join(parameters, " "@))
                },
            )
            &&& all_done(filled(order, reports))
        }),
{
    let order = ordered(arguments, first_is_executable, configuration);
    assert(order[0].kind == TaskKind::Echo) by {
        reveal_strlit("echo");
        reveal_strlit("version");
        reveal_strlit("-v");
        reveal_strlit("--version");
        reveal_strlit("help");
        reveal_strlit("-h");
        reveal_strlit("--help");
        reveal_strlit("os");
        reveal_strlit("pkg");
        reveal_strlit("user");
        assert("echo"@.len() == 4 && "version"@.len() == 7 && "-v"@.len() == 2);
        assert("--version"@.len() == 9 && "-h"@.len() == 2 && "--help"@.len() == 6);
        assert("os"@.len() == 2 && "pkg"@.len() == 3);
        assert("echo"@[0] != "help"@[0] && "echo"@[0] != "user"@[0]);
    }
    assert(filled(order, reports)[0].done);
}

/// Whether the program succeeds, by the command word and its words: an order
/// is finished once filled exactly when the word asks for the version or the
/// help (`version`, `-v`, `--version`, `help`, `-h`, `--help`) or is `echo`,
/// or is `pkg` with packages named, or is `os` or `user` and its work
/// reported success; every other word leaves it unfinished.
pub proof fn lemma_finished_by_word(
    arguments: Seq<Seq<char>>,
    first_is_executable: bool,
    configuration: ConfigurationView,
    reports: Seq<bool>,
)
    requires
        command_words(arguments, first_is_executable) is Some,
        reports.len() == 1,
    ensures
        ({
            let word = (command_words(arguments, first_is_executable)->0).0;
            let parameters = (command_words(arguments, first_is_executable)->0).1;
            all_done(filled(ordered(arguments, first_is_executable, configuration), reports)) == (
            word == "version"@ || word == "-v"@ || word == "--version"@ || word == "help"@ || word
                == "-h"@ || word == "--help"@ || word == "echo"@ || (word == "pkg"@
                && parameters.len() > 0) || ((word == "os"@ || word == "user"@) && reports[0]))
        }),
{
    let word = (command_words(arguments, first_is_executable)->0).0;
    let parameters = (command_words(arguments, first_is_executable)->0).1;
    let order = ordered(arguments, first_is_executable, configuration);
    let f = filled(order, reports);
    assert(f.len() == 1);
    assert(all_done(f) == f[0].done) by {
        if f[0].done {
            assert forall|i: int| 0 <= i < f.len() implies #[trigger] f[i].done by {
                assert(i == 0);
            }
        }
    }
    assert(f[0].done == completion(task_kind(word), parameters, reports[0]));
    reveal_strlit("echo");
    reveal_strlit("version");
    reveal_strlit("-v");
    reveal_strlit("--version");
    reveal_strlit("help");
    reveal_strlit("-h");
    reveal_strlit("--help");
    reveal_strlit("os");
    reveal_strlit("pkg");
    reveal_strlit("user");
    assert("echo"@.len() == 4 && "version"@.len() == 7 && "-v"@.len() == 2);
    assert("--version"@.len() == 9 && "-h"@.len() == 2 && "--help"@.len() == 6);
    assert("os"@.len() == 2 && "pkg"@.len() == 3 && "help"@.len() == 4 && "user"@.len() == 4);
    assert("-v"@[1] != "-h"@[1] && "-v"@[0] != "os"@[0] && "-h"@[0] != "os"@[0]);
    assert("echo"@[0] != "help"@[0] && "echo"@[0] != "user"@[0] && "help"@[0] != "user"@[0]);
}

/// An unrecognized command word prints `Unrecognized command: ` with the
/// word, a newline and the short help, and its order stays unfinished (the
/// program fails), whatever the reports.
pub proof fn lemma_unrecognized(
    arguments: Seq<Seq<char>>,
    first_is_executable: bool,
    configuration: ConfigurationView,
    reports: Seq<bool>,
)
    requires
        command_words(arguments, first_is_executable) matches Some((word, _)) && task_kind(word)
            == TaskKind::Unrecognized,
        reports.len() == 1,
    ensures
        ({
            let order = ordered(arguments, first_is_executable, configuration);
            let word = (command_words(arguments, first_is_executable)->0).0;
            &&& action_of(order[0]) == ActionView::Unrecognized(
                "Unrecognized command: "@ + word + "\n<short help>"@,
            )
            &&& !all_done(filled(order, reports))
        }),
{
    let order = ordered(arguments, first_is_executable, configuration);
    assert(!filled(order, reports)[0].done);
}

/// A package task that names packages installs them and then removes them,
/// both through the configured su command, and logs `Done:` followed by the
/// two commands, one per line.
pub proof fn lemma_package_through_su(task: TaskView)
    requires
        task.kind == TaskKind::Package,
        task.parameters.len() > 0,
    ensures
        action_of(task) matches ActionView::Package { install, remove, summary } && {
            let su = task.configuration.su_command;
            &&& install.base == su.base
            &&& install.args == su.args + seq!["apt"@, "install"@] + task.parameters
            &&& remove.base == su.base
            &&& remove.args == su.args + seq!["apt"@, "remove"@] + task.parameters
            &&& summary == "Done:\n"@ + command_line(install) + "\n"@ + command_line(remove)
        },
{
}

/// A package task that names no package runs no command and stays
/// unfinished.
pub proof fn lemma_package_without_packages(task: TaskView, report: bool)
    requires
        task.kind == TaskKind::Package,
        task.parameters.len() == 0,
    ensures
        action_of(task) == ActionView::NothingToInstall,
        !completion(task.kind, task.parameters, report),
{
}

/// Filling leaves done tasks as they were and changes nothing but whether
/// a task is done.
pub proof fn lemma_fill_keeps_tasks(tasks: Seq<TaskView>, reports: Seq<bool>, i: int)
    requires
        0 <= i < tasks.len(),
    ensures
        tasks[i].done ==> filled(tasks, reports)[i] == tasks[i],
        filled(tasks, reports)[i].kind == tasks[i].kind,
        filled(tasks, reports)[i].argument == tasks[i].argument,
        filled(tasks, reports)[i].parameters == tasks[i].parameters,
{
}

} // verus!
