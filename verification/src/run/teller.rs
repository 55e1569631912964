use vstd::prelude::*;

use crate::run::{Order, Task, TaskKind, TaskView};
use crate::text::{chars_of, same_chars, strings};

verus! {

/// The word that names the command and the words after it, from the
/// arguments of the program; `first_is_executable` tells whether the first
/// argument is the path of the program itself, which is then skipped.
pub open spec fn command_words(arguments: Seq<Seq<char>>, first_is_executable: bool) -> Option<
    (Seq<char>, Seq<Seq<char>>),
> {
    if arguments.len() == 0 {
        None
    } else if first_is_executable {
        if arguments.len() < 2 {
            None
        } else {
            Some((arguments[1], arguments.skip(2)))
        }
    } else {
        Some((arguments[0], arguments.skip(1)))
    }
}

/// The kind of task that a command word asks for.
pub open spec fn task_kind(word: Seq<char>) -> TaskKind {
    if word == "version"@ || word == "-v"@ || word == "--version"@ {
        TaskKind::Version
    } else if word == "help"@ || word == "-h"@ || word == "--help"@ {
        TaskKind::Help
    } else if word == "install"@ {
        TaskKind::PackageInstall
    } else if word == "uninstall"@ {
        TaskKind::PackageUninstall
    } else if word == "auto"@ {
        TaskKind::PackageListAuto
    } else if word == "manual"@ {
        TaskKind::PackageListManual
    } else {
        TaskKind::Unrecognized
    }
}

/// The order that the arguments of the program give: no task where there is
/// no command word, else one task of the kind the word names, not yet done.
pub open spec fn ordered(arguments: Seq<Seq<char>>, first_is_executable: bool) -> Seq<TaskView> {
    match command_words(arguments, first_is_executable) {
        None => Seq::empty(),
        Some((word, parameters)) => seq![
            TaskView { kind: task_kind(word), done: false, argument: word, parameters },
        ],
    }
}

/// Whether a string equals a literal.
fn is_word(s: &String, literal: &str) -> (r: bool)
    ensures
        r == (s@ == literal@),
{
    let a = chars_of(s.as_str());
    let b = chars_of(literal);
    same_chars(&a, &b)
}

/// The kind of task that a command word asks for.
pub fn kind_of(word: &String) -> (r: TaskKind)
    ensures
        r == task_kind(word@),
{
    if is_word(word, "version") || is_word(word, "-v") || is_word(word, "--version") {
        TaskKind::Version
    } else if is_word(word, "help") || is_word(word, "-h") || is_word(word, "--help") {
        TaskKind::Help
    } else if is_word(word, "install") {
        TaskKind::PackageInstall
    } else if is_word(word, "uninstall") {
        TaskKind::PackageUninstall
    } else if is_word(word, "auto") {
        TaskKind::PackageListAuto
    } else if is_word(word, "manual") {
        TaskKind::PackageListManual
    } else {
        TaskKind::Unrecognized
    }
}

/// The order that the arguments of the program give.
pub fn parse(arguments: &Vec<String>, first_is_executable: bool) -> (r: Order)
    ensures
        r@ == ordered(strings(arguments@), first_is_executable),
{
    let ghost av = strings(arguments@);
    let start: usize = if first_is_executable {
        1
    } else {
        0
    };
    if arguments.len() <= start {
        return Order::default();
    }
    let argument = &arguments[start];
    let mut parameters: Vec<String> = Vec::new();
    let mut i: usize = start + 1;
    while i < arguments.len()
        invariant
            start + 1 <= i <= arguments.len(),
            av == strings(arguments@),
            strings(parameters@) == av.subrange(start + 1, i as int),
        decreases arguments.len() - i,
    {
        let p = arguments[i].clone();
        let ghost before = parameters@;
        parameters.push(p);
        assert(strings(parameters@) =~= strings(before).push(p@));
        assert(av.subrange(start + 1, i + 1) =~= av.subrange(start + 1, i as int).push(av[i as int]));
        i += 1;
    }
    assert(av.subrange(start + 1, arguments.len() as int) =~= av.skip(start + 1));
    assert(av[start as int] == argument@);
    let kind = kind_of(argument);
    let task = Task::new(kind, argument.as_str(), parameters);
    let mut tasks: Vec<Task> = Vec::new();
    tasks.push(task);
    let r = Order::from_tasks(tasks);
    assert(r@ =~= ordered(av, first_is_executable));
    r
}

} // verus!
