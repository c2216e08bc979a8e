use pomock::config::ConfigValidationError;
use pomock::persistence::workspace_name::validate_workspace_name;
use pomock::persistence::{task_state_from_file, ConfigError, ConfigStore, TaskPersistenceError, TaskStore};

#[test]
fn storage_constructors_reject_invalid_workspace_names() {
    for name in [
        "",
        ".",
        "..",
        "../shared",
        "nested/workspace",
        "/tmp/workspace",
        "nested\\workspace",
        "C:\\workspace",
        "two words",
        "café",
        "bad\0name",
    ] {
        let validation = validate_workspace_name(name).unwrap_err();
        let config = ConfigStore::user_in_workspace(Some(name)).unwrap_err();
        let tasks = TaskStore::user_in_workspace(Some(name)).unwrap_err();
        assert!(
            matches!(config, ConfigError::InvalidWorkspaceName(_)),
            "{name:?}"
        );
        assert!(
            matches!(tasks, TaskPersistenceError::InvalidWorkspaceName(_)),
            "{name:?}"
        );
        assert_eq!(config.message(), validation.message());
        assert_eq!(tasks.message(), validation.message());
    }
}

#[test]
fn valid_workspace_names_stay_under_the_application_directories() {
    let dirs = directories::ProjectDirs::from("", "", "pomock").unwrap();
    for name in [
        "main",
        "client-one",
        "personal.2026",
        "Client_42",
        ".hidden",
        "...",
        "-",
        "_",
    ] {
        validate_workspace_name(name).unwrap();
        assert_eq!(
            ConfigStore::user_in_workspace(Some(name)).unwrap().path(),
            dirs.config_dir().join(name).join("config.toml").as_os_str().as_encoded_bytes()
        );
        assert_eq!(
            TaskStore::user_in_workspace(Some(name)).unwrap().path(),
            dirs.data_local_dir().join(name).join("tasks.toml").as_os_str().as_encoded_bytes()
        );
    }
}

#[test]
fn named_workspace_uses_a_child_of_the_default_data_directory() {
    let default_store = TaskStore::user().unwrap();
    let named_store = TaskStore::user_in_workspace(Some("client-one")).unwrap();

    assert_eq!(
        named_store.path(),
        std::path::Path::new(std::str::from_utf8(default_store.path()).unwrap())
            .parent()
            .unwrap()
            .join("client-one")
            .join("tasks.toml")
            .as_os_str()
            .as_encoded_bytes()
    );
}

#[test]
fn the_default_configuration_lives_in_the_main_workspace() {
    let store = ConfigStore::in_directory(b"/config/pomock", None).unwrap();
    assert_eq!(store.path(), b"/config/pomock/main/config.toml");
    let store = TaskStore::in_directory(b"/data/pomock/", Some("client-one")).unwrap();
    assert_eq!(store.path(), b"/data/pomock/client-one/tasks.toml");
}

#[test]
fn workspace_name_messages_quote_the_rejected_name() {
    assert_eq!(
        validate_workspace_name("two words").unwrap_err().message(),
        "invalid workspace name \"two words\"; use letters, numbers, '.', '-', or '_'"
    );
}

#[test]
fn task_files_must_have_the_supported_version_and_no_blank_descriptions() {
    let state = task_state_from_file("/t.toml", 1, vec!["a".to_string()], vec!["b".to_string()]).unwrap();
    assert_eq!(state.todo(), ["a"]);
    assert_eq!(state.done(), ["b"]);

    let error = task_state_from_file("/t.toml", 2, Vec::new(), Vec::new()).unwrap_err();
    assert_eq!(
        error.message(),
        "unsupported task data version 2 in /t.toml; expected version 1"
    );

    let error = task_state_from_file(
        "/t.toml",
        1,
        vec!["ok".to_string(), "  ".to_string()],
        vec![" ".to_string()],
    )
    .unwrap_err();
    assert_eq!(
        error.message(),
        "invalid todo task 2 in /t.toml: description must not be blank"
    );

    let error = task_state_from_file("/t.toml", 1, vec!["ok".to_string()], vec!["".to_string()]).unwrap_err();
    assert_eq!(
        error.message(),
        "invalid done task 1 in /t.toml: description must not be blank"
    );
}

#[test]
fn persistence_failures_name_the_file_and_the_reason() {
    assert_eq!(
        TaskPersistenceError::WorkspaceAlreadyOpen { path: "/data/main/tasks.toml".to_string() }.message(),
        "workspace at /data/main is already open in another pomock process"
    );
    assert_eq!(
        TaskPersistenceError::Write { path: "/t.toml".to_string(), source: "disk full".to_string() }.message(),
        "could not write tasks to /t.toml: disk full"
    );
    assert_eq!(
        ConfigError::Validation {
            path: "/c.toml".to_string(),
            source: ConfigValidationError::ZeroLongBreakInterval,
        }
        .message(),
        "invalid configuration in /c.toml: long_break_interval must be greater than zero"
    );
    assert_eq!(
        ConfigError::DirectoryUnavailable.message(),
        "could not determine the user configuration directory"
    );
}

#[test]
fn default_and_named_workspaces_use_sibling_config_directories() {
    let dirs = directories::ProjectDirs::from("", "", "pomock").unwrap();
    let main = ConfigStore::user().unwrap();
    assert_eq!(main, ConfigStore::user_in_workspace(Some("main")).unwrap());
    assert_eq!(main.path(), dirs.config_dir().join("main/config.toml").as_os_str().as_encoded_bytes());
    for name in ["client-one", "config.toml"] {
        assert_eq!(
            ConfigStore::user_in_workspace(Some(name)).unwrap().path(),
            dirs.config_dir().join(name).join("config.toml").as_os_str().as_encoded_bytes()
        );
    }
}
