use proptest::test_runner::TestRunner;
use tori::conf::{
    parse, parse_su_command, raw_from_contents, split_su_command, BaseProbe, Configuration,
    Error, ErrorKind, MergeStrategy, Raw, SuCommand,
};

fn executable_probe(path: &str) -> BaseProbe {
    BaseProbe::File { mode: 0o755, path: Some(path.to_string()) }
}

#[test]
fn prefer_system() {
    let raw = raw_from_contents("merge_strategy = prefer system\n");
    let (configuration, notices) = parse(&raw, BaseProbe::NotAFile);
    assert!(matches!(configuration.merge_strategy, MergeStrategy::PreferSystem));
    assert!(notices.is_empty());
}

#[test]
fn prefer_configuration_and_unknown_strategies() {
    let raw = raw_from_contents("merge_strategy=prefer configuration");
    let (configuration, _) = parse(&raw, BaseProbe::NotAFile);
    assert_eq!(configuration.merge_strategy, MergeStrategy::PreferConfig);

    let raw = raw_from_contents("merge_strategy = sometimes");
    let (configuration, notices) = parse(&raw, BaseProbe::NotAFile);
    assert_eq!(configuration.merge_strategy, MergeStrategy::Interactive);
    assert_eq!(notices, vec!["Unrecognized merge strategy: sometimes".to_string()]);
}

#[test]
fn raw_settings_take_the_last_line_and_trim() {
    let raw = raw_from_contents(
        "su_command = doas\n  su_command\t=  sudo -u root \nnot a setting\nsu_command_wraps=false=x\n",
    );
    assert_eq!(raw.su_command.as_deref(), Some("sudo -u root"));
    assert_eq!(raw.su_command_wraps.as_deref(), Some("false=x"));
    assert_eq!(raw.merge_strategy, None);
}

#[test]
fn default_configuration_is_su_wrapping() {
    let configuration = Configuration::default();
    assert_eq!(configuration.su_command.command().base, "su");
    assert_eq!(configuration.su_command.command().args, vec!["-c", "{% command %}"]);
    assert!(configuration.su_command.wraps());
    assert_eq!(configuration.merge_strategy, MergeStrategy::Interactive);
    assert_eq!(configuration.su_command, SuCommand::default());
}

#[test]
fn su_command_from_the_file_is_used_when_it_resolves() {
    let raw = raw_from_contents("su_command = doas  -n\nsu_command_wraps = true\n");
    let (configuration, notices) = parse(&raw, executable_probe("/usr/bin/doas"));
    assert_eq!(configuration.su_command.command().base, "/usr/bin/doas");
    assert_eq!(configuration.su_command.command().args, vec!["-n"]);
    assert!(configuration.su_command.wraps());
    assert!(!configuration.su_command.command().escalated());
    assert!(notices.is_empty());
}

#[test]
fn wraps_only_when_set_to_true() {
    let raw = raw_from_contents("su_command = doas\nsu_command_wraps = yes\n");
    let (configuration, _) = parse(&raw, executable_probe("/usr/bin/doas"));
    assert!(!configuration.su_command.wraps());
}

#[test]
fn su_command_wraps_is_read_without_su_command() {
    let raw = raw_from_contents("su_command_wraps = false");
    let (configuration, _) = parse(&raw, BaseProbe::NotAFile);
    assert!(!configuration.su_command.wraps());
    assert_eq!(configuration.su_command.command().base, "su");
    assert_eq!(configuration.su_command.command().args, vec!["-c", "{% command %}"]);
    for value in ["true", "", "anything"] {
        let raw = raw_from_contents(&format!("su_command_wraps = {value}"));
        let (configuration, _) = parse(&raw, BaseProbe::NotAFile);
        assert_eq!(configuration.su_command, SuCommand::default());
        assert!(configuration.su_command.wraps());
    }
}

#[test]
fn su_command_wrap_is_read_from_config() {
    let mut runner = TestRunner::default();
    runner
        .run(&"(false|true|[a-z ]{0,12})", |value| {
            let raw = raw_from_contents(&format!("su_command_wraps = {value}"));
            let (configuration, _) = parse(&raw, BaseProbe::NotAFile);
            let default = Configuration::default();
            if value == "false" {
                assert!(!configuration.su_command.wraps());
            } else if configuration.su_command == default.su_command {
                assert!(configuration.su_command.wraps());
            } else {
                assert!(value == "true");
            }
            Ok(())
        })
        .unwrap();
}

#[test]
fn wraps_false_with_a_failed_su_command_keeps_the_default() {
    let raw = raw_from_contents("su_command = doas\nsu_command_wraps = false");
    let (configuration, notices) = parse(&raw, BaseProbe::NotAFile);
    assert_eq!(configuration.su_command, SuCommand::default());
    assert!(configuration.su_command.wraps());
    assert_eq!(notices.len(), 1);
}

#[test]
fn wraps_false_with_a_built_su_command() {
    let raw = raw_from_contents("su_command = doas\nsu_command_wraps = false");
    let (configuration, notices) = parse(&raw, executable_probe("/usr/bin/doas"));
    assert_eq!(configuration.su_command.command().base, "/usr/bin/doas");
    assert!(!configuration.su_command.wraps());
    assert!(notices.is_empty());
}

#[test]
fn configuration_parses() {
    let mut runner = TestRunner::default();
    let settings = (
        proptest::option::of("[a-z]{1,6}( -[a-z])?"),
        proptest::option::of("(true|[a-z]{0,4})"),
        proptest::option::of("(prefer system|prefer configuration|[a-z ]{0,8})"),
        proptest::bool::ANY,
    );
    runner
        .run(&settings, |(su_command, su_command_wraps, merge_strategy, resolves)| {
            let raw = Raw {
                su_command: su_command.clone(),
                su_command_wraps: su_command_wraps.clone(),
                merge_strategy: merge_strategy.clone(),
            };
            let probe = if resolves { executable_probe("/usr/bin/found") } else { BaseProbe::NotAFile };
            let (parsed, _) = parse(&raw, probe);
            let default = Configuration::default();
            match &su_command {
                Some(_) if resolves => {
                    assert_eq!(parsed.su_command.command().base, "/usr/bin/found");
                    assert_eq!(parsed.su_command.wraps(), su_command_wraps.as_deref() == Some("true"));
                }
                _ => assert_eq!(parsed.su_command, default.su_command),
            }
            match merge_strategy.as_deref() {
                Some("prefer system") => assert_eq!(parsed.merge_strategy, MergeStrategy::PreferSystem),
                Some("prefer configuration") => {
                    assert_eq!(parsed.merge_strategy, MergeStrategy::PreferConfig)
                }
                _ => assert_eq!(parsed.merge_strategy, MergeStrategy::Interactive),
            }
            Ok(())
        })
        .unwrap();
}

#[test]
fn failed_su_command_keeps_the_default_and_tells_why() {
    let raw = raw_from_contents("su_command = doas");
    let (configuration, notices) = parse(&raw, BaseProbe::NotAFile);
    assert_eq!(configuration.su_command, SuCommand::default());
    assert_eq!(
        notices,
        vec![
            "Failed parsing su_comand configuration value: Metadata unreadable: su_command path does not point to a file or its metadata is unreadable"
                .to_string()
        ]
    );
}

#[test]
fn split_su_command_words() {
    let (base, args) = split_su_command("  sudo   -u  root ").unwrap();
    assert_eq!(base, "sudo");
    assert_eq!(args, vec!["-u", "root"]);
    assert!(split_su_command("   ").is_none());
    assert!(split_su_command("").is_none());
}

#[test]
fn parse_su_command_errors_in_order() {
    let empty = parse_su_command("  ", true, executable_probe("/bin/su")).unwrap_err();
    assert_eq!(empty.kind, ErrorKind::MalformedConfigLine);
    assert_eq!(empty.message, "Configuration line is empty");

    let unresolved = parse_su_command(
        "doas",
        true,
        BaseProbe::Unresolved(Error::new("doas not found", ErrorKind::CommandNotInPath)),
    )
    .unwrap_err();
    assert_eq!(unresolved.kind, ErrorKind::CommandNotInPath);
    assert_eq!(unresolved.message, "doas not found");

    let not_file = parse_su_command("doas", true, BaseProbe::NotAFile).unwrap_err();
    assert_eq!(not_file.kind, ErrorKind::MetadataUnreadable);

    let not_executable = parse_su_command(
        "doas",
        true,
        BaseProbe::File { mode: 0o644, path: Some("/usr/bin/doas".to_string()) },
    )
    .unwrap_err();
    assert_eq!(not_executable.kind, ErrorKind::WrongPermissions);
    assert_eq!(not_executable.message, "su_command path does not point to an executable file");

    let not_utf8 =
        parse_su_command("doas", true, BaseProbe::File { mode: 0o100, path: None }).unwrap_err();
    assert_eq!(not_utf8.kind, ErrorKind::UTF8);

    let ok = parse_su_command("doas -s", false, executable_probe("/usr/bin/doas")).unwrap();
    assert_eq!(ok.command().base, "/usr/bin/doas");
    assert_eq!(ok.command().args, vec!["-s"]);
    assert!(!ok.wraps());
}

#[test]
fn error_descriptions() {
    let cases = [
        (ErrorKind::CommandNotInPath, "Command not in PATH"),
        (ErrorKind::VarError, "Environment variable error"),
        (ErrorKind::MalformedConfigLine, "Malformed configuration line"),
        (ErrorKind::MetadataUnreadable, "Metadata unreadable"),
        (ErrorKind::WrongPermissions, "Wrong permissions"),
        (ErrorKind::UTF8, "Invalid characters could not be decoded (expected UTF-8)"),
        (ErrorKind::IO, "Input/Output error"),
    ];
    for (kind, text) in cases {
        assert_eq!(kind.describe(), text);
        assert_eq!(Error::new("m", kind).describe(), format!("{text}: m"));
    }
}

#[test]
fn configuration_parses_merge_strategy_property() {
    let mut runner = TestRunner::default();
    runner
        .run(&"[a-z ]{0,24}", |value| {
            let raw = Raw { su_command: None, su_command_wraps: None, merge_strategy: Some(value.clone()) };
            let (configuration, _) = parse(&raw, BaseProbe::NotAFile);
            let expected = if value == "prefer system" {
                MergeStrategy::PreferSystem
            } else if value == "prefer configuration" {
                MergeStrategy::PreferConfig
            } else {
                MergeStrategy::Interactive
            };
            assert_eq!(configuration.merge_strategy, expected);
            assert_eq!(configuration.su_command, SuCommand::default());
            Ok(())
        })
        .unwrap();
}
