use tori::os::debian::Apt;
use proptest::test_runner::TestRunner;
use tori::os::pkg::Package;

fn package(name: &str) -> Package {
    Package::named(name.to_string())
}

#[test]
fn determine_manual_given_empty_auto_set() {
    let raw_all = "avocado install ok installed\n\
        turnip install ok installed\n\
        carrot install ok installed\n\
        sunflower install ok installed\n\
        pumpkin install ok installed\n\
        squash install ok installed";

    let auto_set: Vec<String> = Vec::new();

    let manual = Apt::determine_manual(raw_all, &auto_set);
    assert_eq!(
        manual,
        vec![
            package("avocado"),
            package("carrot"),
            package("pumpkin"),
            package("squash"),
            package("sunflower"),
            package("turnip"),
        ]
    );
}

#[test]
fn determine_manual_given_nonempty_auto_set() {
    let raw_all = "avocado install ok installed\n\
        turnip install ok installed\n\
        carrot install ok installed\n\
        sunflower install ok installed\n\
        pumpkin install ok installed\n\
        squash install ok installed";

    let mut auto_set: Vec<String> = Vec::new();
    auto_set.push("sunflower".to_string());
    auto_set.push("turnip".to_string());

    let manual = Apt::determine_manual(raw_all, &auto_set);
    assert_eq!(
        manual,
        vec![
            package("avocado"),
            package("carrot"),
            package("pumpkin"),
            package("squash"),
        ]
    );
}

#[test]
fn determine_manual_given_empty_raw_input() {
    let raw_all = "";

    let mut auto_set: Vec<String> = Vec::new();
    auto_set.push("sunflower".to_string());
    auto_set.push("turnip".to_string());

    let manual = Apt::determine_manual(raw_all, &auto_set);
    assert!(manual.is_empty());
}

#[test]
fn determine_manual_marks_packages_manual_and_skips_other_states() {
    let raw_all = "zsh install ok installed\r\n\
        vim deinstall ok config-files\n\
        broken\n\
        curl install ok installed\n";
    let manual = Apt::determine_manual(raw_all, &Vec::new());
    let names: Vec<&str> = manual.iter().map(|p| p.name()).collect();
    assert_eq!(names, vec!["curl", "zsh"]);
    assert!(manual.iter().all(|p| *p.manual() == Some(true)));
}

#[test]
fn determine_manual_sorts_by_scalar_value() {
    let raw_all = "b install ok installed\nB install ok installed\nab install ok installed\na install ok installed";
    let manual = Apt::determine_manual(raw_all, &Vec::new());
    let names: Vec<&str> = manual.iter().map(|p| p.name()).collect();
    assert_eq!(names, vec!["B", "a", "ab", "b"]);
}

#[test]
fn determine_auto_reads_auto_installed_records() {
    let states = "Package: libfoo\n\
        Architecture: amd64\n\
        Auto-Installed: 1\n\
        \n\
        Package: editor\n\
        Architecture: amd64\n\
        Auto-Installed: 0\n\
        \n\
        Package: libbar\n\
        Architecture: amd64\n\
        Auto-Installed: 1\n";
    let auto = Apt::determine_auto(states);
    let names: Vec<&str> = auto.iter().map(|p| p.name()).collect();
    assert_eq!(names, vec!["libbar", "libfoo"]);
    assert!(auto.iter().all(|p| *p.manual() == Some(false)));
}

#[test]
fn determine_auto_ignores_malformed_records_and_remainders() {
    let states = "Package: one\nArchitecture: amd64\nAuto-Installed: 1\n\
        Name: two\nArchitecture: amd64\nAuto-Installed: 1\n\
        Package: three\nArchitecture: amd64\nAutoInstalled: 1\n\
        Package:\nArchitecture: amd64\nAuto-Installed: 1\n\
        Package: four\nArchitecture: amd64\n";
    let auto = Apt::determine_auto(states);
    let names: Vec<&str> = auto.iter().map(|p| p.name()).collect();
    assert_eq!(names, vec!["one"]);
}

#[test]
fn determine_auto_takes_the_word_after_the_first_space() {
    let states = "Package: a b\nArchitecture: all\nAuto-Installed: 1 extra\n";
    let auto = Apt::determine_auto(states);
    let names: Vec<&str> = auto.iter().map(|p| p.name()).collect();
    assert_eq!(names, vec!["a"]);
}

#[test]
fn determine_manual_property_all_installed_without_auto_set() {
    let mut runner = TestRunner::default();
    runner
        .run(
            &(
                "[a-zA-Z0-9-_]{1,24}",
                "[a-zA-Z0-9-_]{1,24}",
                "[a-zA-Z0-9-_]{1,24}",
            ),
            |(a, b, c)| {
                let raw_all = format!(
                    "{a} install ok installed\n{b} install ok installed\n{c} install ok installed"
                );
                let manual = Apt::determine_manual(&raw_all, &Vec::new());
                let mut actual: Vec<String> =
                    manual.iter().map(|p| p.name().to_string()).collect();
                actual.sort();
                let mut expected = vec![a, b, c];
                expected.sort();
                assert_eq!(actual, expected);
                Ok(())
            },
        )
        .unwrap();
}

#[test]
fn determine_manual_property_auto_set_excluded() {
    let mut runner = TestRunner::default();
    runner
        .run(
            &(
                "[a-z]{1,8}\\p{Cyrillic}{1,8}",
                "[a-z]{1,8}\\p{Greek}{1,8}",
            ),
            |(a, b)| {
                let raw_all = format!("{a} install ok installed\n{b} install ok installed");
                let manual = Apt::determine_manual(&raw_all, &vec![a.clone()]);
                let actual: Vec<String> = manual.iter().map(|p| p.name().to_string()).collect();
                assert_eq!(actual, vec![b]);
                Ok(())
            },
        )
        .unwrap();
}
