use tori::run::TaskKind::{
    Help, PackageInstall, PackageListAuto, PackageListManual, PackageUninstall, Unrecognized,
    Version,
};
use tori::conf::{parse, raw_from_contents, BaseProbe, Configuration};
use tori::run::executor::{
    check_rootless, commit_advance, commit_start, CommitStep, Error as ExecError,
    ErrorKind as ExecKind,
};
use tori::run::teller::parse as parse_arguments;
use tori::run::{Command, ErrorKind, Transaction, TransactionCommand, TransactionCommandStatus};

fn words(v: &[&str]) -> Vec<String> {
    v.iter().map(|s| s.to_string()).collect()
}

fn configured(contents: &str, path: &str) -> Configuration {
    let raw = raw_from_contents(contents);
    parse(&raw, BaseProbe::File { mode: 0o755, path: Some(path.to_string()) }).0
}

#[test]
fn escalate_wrapping_replaces_the_marker() {
    let config = Configuration::default();
    let command = Command::new("apt", &["install", "vim", "git"]);
    let escalated = command.escalate(&config).unwrap();
    assert_eq!(escalated.base, "su");
    assert_eq!(escalated.args, vec!["-c", "apt install vim git"]);
    assert!(escalated.escalated());
}

#[test]
fn escalate_wrapping_without_arguments_keeps_the_space() {
    let config = Configuration::default();
    let escalated = Command::new("whoami", &[]).escalate(&config).unwrap();
    assert_eq!(escalated.args, vec!["-c", "whoami "]);
}

#[test]
fn escalate_marker_ignores_spaces_and_takes_the_first() {
    let config = configured(
        "su_command = doas {%command%} { % com mand % }\nsu_command_wraps = true",
        "/usr/bin/doas",
    );
    let escalated = Command::new("ls", &["-l"]).escalate(&config).unwrap();
    assert_eq!(escalated.base, "/usr/bin/doas");
    assert_eq!(escalated.args, vec!["ls -l", "{", "%", "com", "mand", "%", "}"]);
}

#[test]
fn escalate_without_marker_fails() {
    let config = configured("su_command = doas -n\nsu_command_wraps = true", "/usr/bin/doas");
    let error = Command::new("ls", &[]).escalate(&config).unwrap_err();
    assert_eq!(error.kind, ErrorKind::BadSuCommandConfig);
    assert_eq!(
        error.message,
        "Could not replace command marker in su command from configuration"
    );
}

#[test]
fn escalate_not_wrapping_appends() {
    let config = configured("su_command = sudo -u root", "/usr/bin/sudo");
    let escalated = Command::new("apt", &["remove", "vim"]).escalate(&config).unwrap();
    assert_eq!(escalated.base, "/usr/bin/sudo");
    assert_eq!(escalated.args, vec!["-u", "root", "apt", "remove", "vim"]);
    assert!(escalated.escalated());
}

#[test]
fn new_command_is_not_escalated() {
    let command = Command::new("uname", &["--operating-system"]);
    assert_eq!(command.base, "uname");
    assert_eq!(command.args, vec!["--operating-system"]);
    assert!(!command.escalated());
    assert!(check_rootless(&command).is_ok());
}

#[test]
fn escalated_commands_cannot_be_read() {
    let escalated = Command::new("cat", &["/etc/shadow"]).escalate(&Configuration::default()).unwrap();
    let error = check_rootless(&escalated).unwrap_err();
    assert_eq!(error.kind, ExecKind::RootlessReadOnly);
    assert_eq!(error.message, "Read function is strictly rootless");
}

fn transaction_of(n: usize) -> Transaction {
    let mut t = Transaction::single(&TransactionCommand::new(
        Command::new("run", &["0"]),
        Command::new("undo", &["0"]),
    ));
    if n == 0 {
        t = Transaction::default();
    }
    t
}

fn failure(message: &str) -> Result<(), ExecError> {
    Err(ExecError { message: message.to_string(), kind: ExecKind::DirtyExit })
}

#[test]
fn commit_of_nothing_succeeds_at_once() {
    let t = transaction_of(0);
    assert!(matches!(commit_start(&t), CommitStep::Finished(Ok(()))));
}

#[test]
fn commit_success() {
    let mut t = transaction_of(1);
    let step = commit_start(&t);
    assert!(matches!(step, CommitStep::Run(0)));
    let step = commit_advance(&mut t, step, Ok(()));
    assert!(matches!(step, CommitStep::Finished(Ok(()))));
    assert_eq!(t.command(0).status(), TransactionCommandStatus::Success);
}

#[test]
fn commit_failure_rolls_back() {
    let mut t = transaction_of(1);
    let step = commit_start(&t);
    let step = commit_advance(&mut t, step, failure("run failed"));
    assert!(matches!(&step, CommitStep::RollBack(0, e) if e.message == "run failed"));
    assert_eq!(t.command(0).status(), TransactionCommandStatus::PendingRollback);
    let step = commit_advance(&mut t, step, Ok(()));
    match step {
        CommitStep::Finished(Err(e)) => assert_eq!(e.message, "run failed"),
        other => panic!("unexpected step {other:?}"),
    }
    assert_eq!(t.command(0).status(), TransactionCommandStatus::Rolledback);
}

#[test]
fn commit_failed_rollback_ends_with_its_error() {
    let mut t = transaction_of(1);
    let step = commit_start(&t);
    let step = commit_advance(&mut t, step, failure("run failed"));
    let step = commit_advance(&mut t, step, failure("undo failed"));
    match step {
        CommitStep::Finished(Err(e)) => assert_eq!(e.message, "undo failed"),
        other => panic!("unexpected step {other:?}"),
    }
    assert_eq!(t.command(0).status(), TransactionCommandStatus::FailedRollback);
}

#[test]
fn push_error_collects_errors() {
    let mut c = TransactionCommand::new(Command::new("a", &[]), Command::new("b", &[]));
    let e1 = ExecError { message: "one".to_string(), kind: ExecKind::FailedSpawn };
    let e2 = ExecError { message: "two".to_string(), kind: ExecKind::ChildExit };
    c.push_error(&e1);
    c.push_error(&e2);
    let mut t = Transaction::single(&c);
    t.push_error(0, &e1);
    assert_eq!(t.command(0).run().base, "a");
    assert_eq!(t.command(0).rollback().base, "b");
    assert_eq!(t.command(0).status(), TransactionCommandStatus::Pending);
}

#[test]
fn teller_kinds() {

    let cases = [
        ("version", Version),
        ("-v", Version),
        ("--version", Version),
        ("help", Help),
        ("-h", Help),
        ("--help", Help),
        ("install", PackageInstall),
        ("uninstall", PackageUninstall),
        ("auto", PackageListAuto),
        ("manual", PackageListManual),
        ("frobnicate", Unrecognized),
    ];
    for (word, kind) in cases {
        let order = parse_arguments(&words(&["/usr/bin/tori", word, "x", "y"]), true);
        let tasks = order.tasks();
        assert_eq!(tasks.len(), 1);
        assert_eq!(*tasks[0].kind(), kind);
        assert_eq!(tasks[0].argument(), word);
        assert_eq!(tasks[0].parameters(), &words(&["x", "y"]));
        assert!(!tasks[0].done());
        assert!(!order.finished());
    }
}

#[test]
fn teller_without_command_gives_a_finished_order() {
    assert!(parse_arguments(&words(&[]), false).finished());
    assert!(parse_arguments(&words(&["/usr/bin/tori"]), true).finished());
    assert!(parse_arguments(&words(&[]), false).tasks().is_empty());
    let order = parse_arguments(&words(&["install", "vim"]), false);
    assert_eq!(order.tasks()[0].argument(), "install");
    assert_eq!(order.tasks()[0].parameters(), &words(&["vim"]));
}
