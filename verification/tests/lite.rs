use tori::conf::BaseProbe;
use tori::lite::conf::{candidate, configure, Configuration};
use tori::lite::run::{kind_of, parse, Action, Command, Order, Task, TaskKind};

fn words(v: &[&str]) -> Vec<String> {
    v.iter().map(|s| s.to_string()).collect()
}

#[test]
fn lite_kinds_of_words() {
    let cases = [
        ("version", TaskKind::Version),
        ("-v", TaskKind::Version),
        ("--version", TaskKind::Version),
        ("help", TaskKind::Help),
        ("-h", TaskKind::Help),
        ("--help", TaskKind::Help),
        ("os", TaskKind::OsInfo),
        ("pkg", TaskKind::Package),
        ("user", TaskKind::User),
        ("echo", TaskKind::Echo),
        ("Version", TaskKind::Unrecognized),
        ("", TaskKind::Unrecognized),
    ];
    for (word, kind) in cases {
        assert_eq!(kind_of(&word.to_string()), kind);
    }
}

#[test]
fn lite_parse_skips_the_executable() {
    let configuration = Configuration::default();
    let order = parse(&words(&["/bin/tori", "echo", "x", "y"]), true, &configuration);
    assert_eq!(order.len(), 1);
    let task = order.task(0);
    assert_eq!(task.kind(), TaskKind::Echo);
    assert_eq!(task.argument(), "echo");
    assert_eq!(task.parameters(), &words(&["x", "y"]));
    assert!(!task.done());

    let order = parse(&words(&["pkg", "vim"]), false, &configuration);
    assert_eq!(order.task(0).kind(), TaskKind::Package);
    assert_eq!(order.task(0).parameters(), &words(&["vim"]));
}

#[test]
fn lite_no_input_is_finished() {
    let configuration = Configuration::default();
    let mut order = parse(&words(&["/bin/tori"]), true, &configuration);
    assert_eq!(order.len(), 0);
    order.fill(&[]);
    assert!(order.finished());
    assert!(parse(&words(&[]), false, &configuration).finished());
    assert!(Order::default().finished());
}

#[test]
fn lite_echo_prints_its_words() {
    let configuration = Configuration::default();
    let task = Task::new(TaskKind::Echo, "echo", words(&["x", "y", "z"]), &configuration);
    assert!(matches!(task.action(), Action::Echo(Some(s)) if s == "x y z"));
    let task = Task::new(TaskKind::Echo, "echo", words(&[]), &configuration);
    assert!(matches!(task.action(), Action::Echo(None)));
    let mut order = Order::from_tasks(vec![task]);
    order.fill(&[false]);
    assert!(order.finished());
}

#[test]
fn lite_unrecognized_is_never_done() {
    let configuration = Configuration::default();
    let task = Task::new(TaskKind::Unrecognized, "frob", words(&["a"]), &configuration);
    assert!(matches!(task.action(), Action::Unrecognized(s) if s == "Unrecognized command: frob\n<short help>"));
    let mut order = Order::from_tasks(vec![task]);
    order.fill(&[true]);
    assert!(!order.finished());
    assert!(!order.task(0).done());
}

#[test]
fn lite_simple_actions() {
    let configuration = Configuration::default();
    let action = |kind| Task::new(kind, "w", words(&[]), &configuration).action();
    assert!(matches!(action(TaskKind::Version), Action::PrintVersion));
    assert!(matches!(action(TaskKind::Help), Action::PrintHelp));
    assert!(matches!(action(TaskKind::OsInfo), Action::PrintInfo));
    assert!(matches!(action(TaskKind::User), Action::PrintUser));
    assert!(matches!(action(TaskKind::Package), Action::NothingToInstall));
}

#[test]
fn lite_reports_decide_os_and_user() {
    let configuration = Configuration::default();
    let tasks = vec![
        Task::new(TaskKind::OsInfo, "os", words(&[]), &configuration),
        Task::new(TaskKind::User, "user", words(&[]), &configuration),
        Task::new(TaskKind::Package, "pkg", words(&[]), &configuration),
        Task::new(TaskKind::Package, "pkg", words(&["vim"]), &configuration),
        Task::new(TaskKind::Version, "version", words(&[]), &configuration),
    ];
    let mut order = Order::from_tasks(tasks);
    order.fill(&[true, false, true, false, false]);
    let done: Vec<bool> = (0..order.len()).map(|i| order.task(i).done()).collect();
    assert_eq!(done, vec![true, false, false, true, true]);
    assert!(!order.finished());
}

#[test]
fn lite_package_action_uses_the_su_command() {
    let configuration = Configuration::default();
    let task = Task::new(TaskKind::Package, "pkg", words(&["vim", "git"]), &configuration);
    match task.action() {
        Action::Package { install, remove, summary } => {
            assert_eq!(install.base, "su");
            assert_eq!(install.args, words(&["-c", "{% command %}", "apt", "install", "vim", "git"]));
            assert_eq!(remove.base, "su");
            assert_eq!(remove.args, words(&["-c", "{% command %}", "apt", "remove", "vim", "git"]));
            assert_eq!(
                summary,
                "Done:\nsu -c {% command %} apt install vim git\nsu -c {% command %} apt remove vim git"
            );
        }
        other => panic!("unexpected {other:?}"),
    }
}

#[test]
fn lite_candidate_reads_the_last_setting() {
    let c = candidate("su_command = doas\nsu_command =  sudo  -u root \n").unwrap();
    assert_eq!(c.base, "sudo");
    assert_eq!(c.args, words(&["-u", "root"]));
    assert!(candidate("other = x\n").is_none());
    assert!(candidate("su_command =   \n").is_none());
    let c = candidate("su_command = a = doas -n").unwrap();
    assert_eq!(c.base, "doas");
    assert_eq!(c.args, words(&["-n"]));
    let c = candidate("su_command").unwrap();
    assert_eq!(c.base, "su_command");
    assert!(c.args.is_empty());
}

fn executable_file() -> BaseProbe {
    BaseProbe::File { mode: 0o755, path: Some("/usr/bin/doas".to_string()) }
}

#[test]
fn lite_configure_needs_an_executable_program() {
    let c = Command { base: "doas".to_string(), args: words(&["-n"]) };
    let configuration = configure(Some(c.clone()), &executable_file());
    assert_eq!(configuration.su_command.base, "doas");
    assert_eq!(configuration.su_command.args, words(&["-n"]));
    let configuration = configure(Some(c.clone()), &BaseProbe::NotAFile);
    assert_eq!(configuration.su_command.base, "su");
    assert_eq!(configuration.su_command.args, words(&["-c", "{% command %}"]));
    let not_executable = BaseProbe::File { mode: 0o644, path: Some("/usr/bin/doas".to_string()) };
    let configuration = configure(Some(c), &not_executable);
    assert_eq!(configuration.su_command.base, "su");
    let configuration = configure(None, &executable_file());
    assert_eq!(configuration.su_command.base, "su");
}

#[test]
fn lite_package_action_removes_through_the_configured_su_command() {
    let configuration = configure(Some(Command { base: "doas".to_string(), args: words(&[]) }), &executable_file());
    let task = Task::new(TaskKind::Package, "pkg", words(&["vim"]), &configuration);
    match task.action() {
        Action::Package { install, remove, summary } => {
            assert_eq!(install.base, "doas");
            assert_eq!(install.args, words(&["apt", "install", "vim"]));
            assert_eq!(remove.base, "doas");
            assert_eq!(remove.args, words(&["apt", "remove", "vim"]));
            assert_eq!(summary, "Done:\ndoas apt install vim\ndoas apt remove vim");
        }
        other => panic!("unexpected {other:?}"),
    }
}
