use tori::conf::Configuration;
use tori::os::debian::debian;
use tori::os::pkg::{Error as PkgError, ErrorKind as PkgKind, Packager};
use tori::os::{Kind, OperatingSystem};
use tori::run::executor::{Error as ExecError, ErrorKind as ExecKind};
use tori::run::expeditor::{
    pending_tasks, plan_task, report_listing_failure, Error, ErrorKind, Step,
};
use tori::run::{Order, Task, TaskKind};
use tori::state::{detect_os, setup, strip_quotes_of, State};

fn chars(s: &str) -> Vec<char> {
    s.chars().collect()
}

fn words(v: &[&str]) -> Vec<String> {
    v.iter().map(|s| s.to_string()).collect()
}

fn state_on(os: &OperatingSystem, tasks: Vec<Task>) -> State {
    State::new(&Configuration::default(), os, &[Order::from_tasks(tasks)])
}

#[test]
fn strip_quotes_cases() {
    assert_eq!(strip_quotes_of(&chars("\"Debian GNU/Linux\"")), chars("Debian GNU/Linux"));
    assert_eq!(strip_quotes_of(&chars("Debian")), chars("Debian"));
    assert_eq!(strip_quotes_of(&chars("\"abc")), chars("\"abc"));
    assert_eq!(strip_quotes_of(&chars("abc\"")), chars("abc"));
    assert_eq!(strip_quotes_of(&chars("\"")), chars("\""));
    assert_eq!(strip_quotes_of(&chars("\"\"")), chars(""));
    assert_eq!(strip_quotes_of(&chars("")), chars(""));
}

#[test]
fn os_release_names_debian() {
    let quoted = "PRETTY_NAME=\"Debian GNU/Linux 12 (bookworm)\"\nNAME=\"Debian GNU/Linux\"\nID=debian\n";
    assert_eq!(detect_os(Some(quoted), None).kind(), Kind::Debian);
    assert_eq!(detect_os(Some("NAME=Debian GNU/Linux"), None).kind(), Kind::Debian);
    assert_eq!(detect_os(Some(quoted), None), debian());
}

#[test]
fn os_release_takes_the_last_name() {
    let contents = "NAME=\"Debian GNU/Linux\"\nNAME=\"Fedora Linux\"\n";
    assert_eq!(detect_os(Some(contents), None).kind(), Kind::Unknown);
    let contents = "NAME=\"Fedora Linux\"\nNAME=\"Debian GNU/Linux\"\n";
    assert_eq!(detect_os(Some(contents), None).kind(), Kind::Debian);
}

#[test]
fn os_release_wins_over_uname() {
    let os = detect_os(Some("ID=arch\n"), Some("Debian GNU/Linux"));
    assert_eq!(os.kind(), Kind::Unknown);
    assert_eq!(os.packager(), Packager::Unknown);
}

#[test]
fn uname_is_read_without_os_release() {
    assert_eq!(detect_os(None, Some("Debian GNU/Linux")).kind(), Kind::Debian);
    assert_eq!(detect_os(None, Some("GNU/Linux")).kind(), Kind::Unknown);
    assert_eq!(detect_os(None, None), OperatingSystem::unknown());
    assert_eq!(OperatingSystem::default().kind(), Kind::Unknown);
}

#[test]
fn setup_keeps_configuration_and_orders() {
    let order = Order::from_tasks(vec![Task::new(TaskKind::Version, "version", words(&[]))]);
    let state = setup(&Configuration::default(), &[order.clone()], None, Some("Debian GNU/Linux"));
    assert_eq!(state.os().kind(), Kind::Debian);
    assert_eq!(state.configuration(), Configuration::default());
    assert_eq!(state.orders(), vec![order]);
}

#[test]
fn pending_tasks_go_order_after_order() {
    let first = Order::from_tasks(vec![
        Task::new(TaskKind::Version, "version", words(&[])),
        Task::new(TaskKind::Help, "help", words(&[])),
    ]);
    let second = Order::from_tasks(vec![Task::new(TaskKind::PackageInstall, "install", words(&["vim"]))]);
    let state = State::new(&Configuration::default(), &debian(), &[first, second, Order::default()]);
    let kinds: Vec<TaskKind> = pending_tasks(&state).iter().map(|t| *t.kind()).collect();
    assert_eq!(kinds, vec![TaskKind::Version, TaskKind::Help, TaskKind::PackageInstall]);
}

fn plan(os: &OperatingSystem, kind: TaskKind, argument: &str, parameters: &[&str]) -> Result<Step, Error> {
    let task = Task::new(kind, argument, words(parameters));
    let state = state_on(os, vec![task.clone()]);
    plan_task(&state, &task)
}

#[test]
fn plan_version_help_and_unrecognized() {
    let os = debian();
    assert!(matches!(plan(&os, TaskKind::Version, "-v", &[]), Ok(Step::PrintVersion)));
    assert!(matches!(plan(&os, TaskKind::Help, "help", &[]), Ok(Step::Print(s)) if s == "<long help>"));
    match plan(&os, TaskKind::Unrecognized, "frob", &["x"]) {
        Ok(Step::Print(s)) => assert_eq!(s, "Unrecognized command: frob\n<short help>"),
        other => panic!("unexpected {other:?}"),
    }
}

#[test]
fn plan_install_with_apt() {
    let os = debian();
    assert!(matches!(plan(&os, TaskKind::PackageInstall, "install", &["vim"]), Ok(Step::Nothing)));
    match plan(&os, TaskKind::PackageInstall, "install", &[]) {
        Ok(Step::Print(s)) => assert_eq!(s, "Package selection is empty: Nothing to install"),
        other => panic!("unexpected {other:?}"),
    }
    match plan(&os, TaskKind::PackageUninstall, "uninstall", &[]) {
        Ok(Step::Print(s)) => assert_eq!(s, "Package selection is empty: Nothing to remove"),
        other => panic!("unexpected {other:?}"),
    }
}

#[test]
fn plan_install_without_packager_fails() {
    let os = OperatingSystem::unknown();
    let error = plan(&os, TaskKind::PackageInstall, "install", &["vim"]).unwrap_err();
    assert_eq!(error.kind, ErrorKind::PackagingError);
    assert_eq!(
        error.message,
        "UnknownPackager: Can't install [Package { name: \"vim\", manual: None }] because package manager is unknown"
    );
    let error = plan(&os, TaskKind::PackageUninstall, "uninstall", &[]).unwrap_err();
    assert_eq!(
        error.message,
        "UnknownPackager: Can't uninstall [] because package manager is unknown"
    );
}

#[test]
fn plan_listing() {
    let os = debian();
    assert!(matches!(plan(&os, TaskKind::PackageListAuto, "auto", &[]), Ok(Step::ListAutomatic)));
    assert!(matches!(plan(&os, TaskKind::PackageListManual, "manual", &[]), Ok(Step::ListManual)));
    match plan(&OperatingSystem::unknown(), TaskKind::PackageListManual, "manual", &[]) {
        Ok(Step::Report(notice, error)) => {
            assert_eq!(
                notice,
                "Error gathering manually-installed packages: Error { message: \"Can't list manually-installed packages because package manager is unknown\", kind: UnknownPackager }"
            );
            assert_eq!(error.kind, ErrorKind::PackagingError);
            assert_eq!(
                error.message,
                "UnknownPackager: Can't list manually-installed packages because package manager is unknown"
            );
        }
        other => panic!("unexpected {other:?}"),
    }
    match plan(&OperatingSystem::unknown(), TaskKind::PackageListAuto, "auto", &[]) {
        Ok(Step::Report(notice, _)) => assert!(notice.starts_with(
            "Error gathering automatically-installed packages: Error { message: \"Can't list automatically-installed packages"
        )),
        other => panic!("unexpected {other:?}"),
    }
}

#[test]
fn listing_failures_and_error_conversions() {
    let (notice, error) = report_listing_failure(PkgError::new("disk", PkgKind::IO), false);
    assert_eq!(
        notice,
        "Error gathering automatically-installed packages: Error { message: \"disk\", kind: IO }"
    );
    assert_eq!(error.message, "IO: disk");
    let error = Error::from_executor_error(ExecError { message: "boom".to_string(), kind: ExecKind::FailedSpawn });
    assert_eq!(error.kind, ErrorKind::ExecutorError);
    assert_eq!(error.message, "FailedSpawn: boom");
}
