use std::cmp::Ordering;
use tori::conf::Configuration;
use tori::os::debian::{debian, Apt, Operation};
use tori::os::pkg::{
    debug_packages, sort_packages, Error, ErrorKind, Package, Packager, PackagerVariant, Packages,
};
use tori::run::executor::{Error as ExecError, ErrorKind as ExecKind};
use tori::run::{Command, Error as RunError, ErrorKind as RunKind, TransactionCommandStatus};

fn package(name: &str) -> Package {
    Package::named(name.to_string())
}

#[test]
fn unknown_packager_cannot_install() {
    let packages = vec![package("vim"), Package::new_with_manual("git", true)];
    let error = Packager::Unknown.install(&packages, &Configuration::default()).unwrap_err();
    assert_eq!(error.kind, ErrorKind::UnknownPackager);
    assert_eq!(
        error.message,
        "Can't install [Package { name: \"vim\", manual: None }, Package { name: \"git\", manual: Some(true) }] because package manager is unknown"
    );
}

#[test]
fn unknown_packager_cannot_uninstall() {
    let packages = vec![package("a\"b")];
    let error = Packager::Unknown.uninstall(&packages, &Configuration::default()).unwrap_err();
    assert_eq!(error.kind, ErrorKind::UnknownPackager);
    assert_eq!(
        error.message,
        "Can't uninstall [Package { name: \"a\\\"b\", manual: None }] because package manager is unknown"
    );
    let error = Packager::Unknown.uninstall(&[], &Configuration::default()).unwrap_err();
    assert_eq!(error.message, "Can't uninstall [] because package manager is unknown");
}

#[test]
fn debug_packages_matches_the_derived_debug() {
    let packages = vec![package("vim"), Package::new_with_manual("git", false)];
    assert_eq!(debug_packages(&packages), format!("{:?}", packages));
    assert_eq!(debug_packages(&[]), "[]");
}

#[test]
fn packages_are_equal_by_name() {
    assert_eq!(package("vim"), Package::new_with_manual("vim", true));
    assert_ne!(package("vim"), package("git"));
    assert_eq!(package("vim").to_string(), "vim");
    assert_eq!(package("vim").name(), "vim");
    assert_eq!(*package("vim").manual(), None);
    assert_eq!(*Package::new_with_manual("vim", false).manual(), Some(false));
    assert_eq!(Package::default().name(), "");
}

#[test]
fn sort_packages_orders_by_name() {
    let sorted = sort_packages(vec![package("b"), package("a"), package("c"), package("B")]);
    let names: Vec<&str> = sorted.iter().map(|p| p.name()).collect();
    assert_eq!(names, vec!["B", "a", "b", "c"]);
}

#[test]
fn errors_are_relabelled() {
    let error = Error::from_run_error(RunError {
        message: "no marker".to_string(),
        kind: RunKind::BadSuCommandConfig,
    });
    assert_eq!(error.kind, ErrorKind::RunError);
    assert_eq!(error.message, "BadSuCommandConfig: no marker");

    let error = Error::from_executor_error(ExecError {
        message: "exit 1".to_string(),
        kind: ExecKind::DirtyExit,
    });
    assert_eq!(error.kind, ErrorKind::ExecutorError);
    assert_eq!(error.message, "DirtyExit: exit 1");
}

#[test]
fn error_debug_matches_the_derived_debug() {
    let error = Error::new("bad \"thing\"", ErrorKind::MetadataFileRead);
    assert_eq!(error.debug(), format!("{:?}", error));
    let wrapped: Result<(), Error> = Error::wrapped("gone", ErrorKind::NotFound);
    assert_eq!(wrapped.unwrap_err().message, "gone");
    let unknown: Result<(), Error> = Error::unknown_packager("list manually-installed packages");
    assert_eq!(
        unknown.unwrap_err().message,
        "Can't list manually-installed packages because package manager is unknown"
    );
    assert_eq!(ErrorKind::IO.name(), "IO");
}

#[test]
fn variants() {
    assert_eq!(*Packager::Unknown.variant(), PackagerVariant::Unknown);
    assert_eq!(*debian().packager().variant(), PackagerVariant::Apt);
    assert_eq!(*Apt::apt().variant(), PackagerVariant::Apt);
    assert_eq!(*Apt::default().variant(), PackagerVariant::Unknown);
    assert_eq!(Packager::default(), Packager::Unknown);
}

#[test]
fn apt_haul_of_nothing_is_empty() {
    let t = Apt::haul(&Operation::Install, &[], &Configuration::default()).unwrap();
    assert_eq!(t.len(), 0);
}

#[test]
fn apt_install_escalates_and_rolls_back_with_remove() {
    let packages = vec![package("vim"), package("git")];
    let t = debian().packager().install(&packages, &Configuration::default()).unwrap();
    assert_eq!(t.len(), 1);
    let c = t.command(0);
    assert_eq!(c.status(), TransactionCommandStatus::Pending);
    assert_eq!(c.run().base, "su");
    assert_eq!(c.run().args, vec!["-c", "apt install vim git"]);
    assert!(c.run().escalated());
    assert_eq!(c.rollback().base, "su");
    assert_eq!(c.rollback().args, vec!["-c", "apt remove vim git"]);
}

#[test]
fn apt_uninstall_rolls_back_with_install() {
    let packages = vec![package("vim")];
    let t = Apt::apt().uninstall(&packages, &Configuration::default()).unwrap();
    let c = t.command(0);
    assert_eq!(c.run().args, vec!["-c", "apt remove vim"]);
    assert_eq!(c.rollback().args, vec!["-c", "apt install vim"]);
    assert_eq!(Operation::Install.word(), "install");
    assert_eq!(Operation::Uninstall.word(), "remove");
    assert_eq!(Operation::Install.undoing(), Operation::Uninstall);
    assert_eq!(Operation::Uninstall.undoing(), Operation::Install);
}

#[test]
fn apt_haul_fails_without_marker() {
    let raw = tori::conf::raw_from_contents("su_command = doas -n\nsu_command_wraps = true");
    let probe = tori::conf::BaseProbe::File { mode: 0o755, path: Some("/usr/bin/doas".to_string()) };
    let (config, _) = tori::conf::parse(&raw, probe);
    let error = Apt::haul(&Operation::Install, &[package("vim")], &config).unwrap_err();
    assert_eq!(error.kind, ErrorKind::RunError);
    assert_eq!(
        error.message,
        "BadSuCommandConfig: Could not replace command marker in su command from configuration"
    );
    let plain = Command::new("apt", &["install", "vim"]);
    assert!(!plain.escalated());
}

#[test]
fn packages_are_ordered_by_name() {
    assert!(package("apple") < Package::new_with_manual("banana", false));
    assert!(package("app") < package("apple"));
    assert!(package("Zed") < package("apple"));
    assert_eq!(package("vim").partial_cmp(&Package::new_with_manual("vim", true)), Some(Ordering::Equal));
    assert_eq!(package("b").partial_cmp(&package("a")), Some(Ordering::Greater));
    assert!(package("b") >= package("b"));
}
