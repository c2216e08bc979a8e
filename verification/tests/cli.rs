use pomock::cli::{help_text, read_recovery_choice, CliCommand, CliError, RecoveryChoice};
use pomock::persistence::workspace_name::validate_workspace_name;

fn arguments(values: &[&str]) -> Vec<Option<String>> {
    values.iter().map(|value| Some(value.to_string())).collect()
}

#[test]
fn workspace_argument_accepts_separate_and_equals_forms() {
    for flag in ["-w", "--workspace"] {
        assert_eq!(
            CliCommand::parse(arguments(&[flag, "client-one"])).unwrap(),
            CliCommand::Run {
                workspace: Some("client-one".to_owned())
            }
        );
    }
    assert_eq!(
        CliCommand::parse(arguments(&["--workspace=personal.2026"])).unwrap(),
        CliCommand::Run {
            workspace: Some("personal.2026".to_owned())
        }
    );
    assert_eq!(
        CliCommand::parse(Vec::new()).unwrap(),
        CliCommand::Run { workspace: None }
    );
}

#[test]
fn workspace_argument_rejects_missing_unsafe_and_duplicate_names() {
    for flag in ["-w", "--workspace"] {
        assert_eq!(
            CliCommand::parse(arguments(&[flag])).unwrap_err(),
            CliError::MissingWorkspaceName
        );
    }
    for name in [
        "",
        ".",
        "..",
        "../shared",
        "/tmp/workspace",
        "nested\\workspace",
        "two words",
        "café",
    ] {
        let expected = validate_workspace_name(name).unwrap_err();
        let joined = format!("--workspace={name}");
        for args in [
            arguments(&["-w", name]),
            arguments(&["--workspace", name]),
            arguments(&[joined.as_str()]),
        ] {
            let error = CliCommand::parse(args).unwrap_err();
            assert!(matches!(error, CliError::InvalidWorkspaceName(_)));
            assert_eq!(error.message(), expected.message());
        }
    }
    assert_eq!(
        CliCommand::parse(arguments(&["--workspace=one", "-w", "two"])).unwrap_err(),
        CliError::DuplicateWorkspace
    );
}

#[test]
fn help_and_version_win_and_other_arguments_are_rejected() {
    assert_eq!(CliCommand::parse(arguments(&["-h", "--bogus"])).unwrap(), CliCommand::Help);
    assert_eq!(CliCommand::parse(arguments(&["--version"])).unwrap(), CliCommand::Version);
    assert_eq!(
        CliCommand::parse(arguments(&["--bogus"])).unwrap_err().message(),
        "unexpected argument \"--bogus\"; run `pomock --help` for usage"
    );
    assert_eq!(
        CliCommand::parse(vec![None]).unwrap_err(),
        CliError::NonUnicodeArgument
    );
    assert!(help_text().contains("-w, --workspace NAME"));
}

#[test]
fn recovery_answers_ignore_case_and_surrounding_space() {
    assert_eq!(read_recovery_choice(" D\n"), RecoveryChoice::Delete);
    assert_eq!(read_recovery_choice("delete"), RecoveryChoice::Delete);
    assert_eq!(read_recovery_choice("QUIT\n"), RecoveryChoice::Quit);
    assert_eq!(read_recovery_choice("q"), RecoveryChoice::Quit);
    assert_eq!(read_recovery_choice("maybe"), RecoveryChoice::Ask);
    assert_eq!(read_recovery_choice(""), RecoveryChoice::Ask);
}
