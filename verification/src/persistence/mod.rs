//! Where durable task and configuration files live, what a task file must hold, and the
//! messages of persistence failures.
pub mod tasks;
pub mod workspace_name;

use vstd::prelude::*;

use crate::config::sound::{join_bytes, join_os};
use crate::text::{decimal, owned, push_decimal, push_str};
use workspace_name::{validate_workspace_name, valid_workspace_name, WorkspaceNameError};

pub use tasks::{task_state_from_file, TASK_FILE_VERSION};

verus! {

/// The parent of a path as `Path::parent` computes it, taken by text.
pub uninterp spec fn path_parent(path: Seq<char>) -> Option<Seq<char>>;

/// Calls `Path::parent` on the path text; the result is the parent as text, `None` at a root
/// or for an empty path.
#[verifier::external_body]
fn parent_of(path: &str) -> (p: Option<String>)
    ensures
        match p {
            Some(s) => path_parent(path@) == Some(s@),
            None => path_parent(path@) is None,
        },
{
    std::path::Path::new(path).parent().map(|p| p.to_string_lossy().into_owned())
}

/// Calls `directories::ProjectDirs::from` for this application and takes its local data
/// directory in the operating system's bytes; `None` when no home directory is known.
/// Nothing is stated of the directory, which depends on the environment.
#[verifier::external_body]
fn data_local_directory() -> Option<Vec<u8>> {
    directories::ProjectDirs::from("", "", "pomock").map(|dirs| dirs.data_local_dir().as_os_str().as_encoded_bytes().to_vec())
}

/// Calls `directories::ProjectDirs::from` for this application and takes its configuration
/// directory in the operating system's bytes; `None` when no home directory is known.
/// Nothing is stated of the directory, which depends on the environment.
#[verifier::external_body]
fn config_directory() -> Option<Vec<u8>> {
    directories::ProjectDirs::from("", "", "pomock").map(|dirs| dirs.config_dir().as_os_str().as_encoded_bytes().to_vec())
}

/// Why task data could not be located, read, checked or written; paths are carried as they
/// are displayed, and the texts of underlying failures as they were reported.
#[derive(Debug, Clone, PartialEq, Eq)]
pub enum TaskPersistenceError {
    DirectoryUnavailable,
    InvalidWorkspaceName(WorkspaceNameError),
    Read { path: String, source: String },
    Parse { path: String, source: String },
    /// A blank description at a one-based `position` of a list.
    Validation { path: String, list: &'static str, position: usize },
    UnsupportedVersion { path: String, found: u32 },
    CreateDirectory { path: String, source: String },
    ReadDirectory { path: String, source: String },
    OpenLock { path: String, source: String },
    Lock { path: String, source: String },
    WorkspaceAlreadyOpen { path: String },
    Backup { path: String, source: String },
    Serialize(String),
    Write { path: String, source: String },
}

/// The message of a task persistence failure.
pub open spec fn task_error_text(e: TaskPersistenceError) -> Seq<char> {
    match e {
        TaskPersistenceError::DirectoryUnavailable => "could not determine the user application data directory"@,
        TaskPersistenceError::InvalidWorkspaceName(n) => n.text(),
        TaskPersistenceError::Read { path, source } => "could not read tasks from "@ + path@ + ": "@ + source@,
        TaskPersistenceError::Parse { path, source } => "could not parse tasks in "@ + path@ + ": "@ + source@,
        TaskPersistenceError::Validation { path, list, position } => "invalid "@ + list@ + " task "@
            + decimal(position as nat) + " in "@ + path@ + ": description must not be blank"@,
        TaskPersistenceError::UnsupportedVersion { path, found } => "unsupported task data version "@
            + decimal(found as nat) + " in "@ + path@ + "; expected version "@ + decimal(TASK_FILE_VERSION as nat),
        TaskPersistenceError::CreateDirectory { path, source } => "could not create task data directory "@ + path@
            + ": "@ + source@,
        TaskPersistenceError::ReadDirectory { path, source } => "could not inspect workspace instances in "@
            + path@ + ": "@ + source@,
        TaskPersistenceError::OpenLock { path, source } => "could not open workspace instance lock "@ + path@
            + ": "@ + source@,
        TaskPersistenceError::Lock { path, source } => "could not lock workspace instance file "@ + path@ + ": "@
            + source@,
        TaskPersistenceError::WorkspaceAlreadyOpen { path } => "workspace at "@ + match path_parent(path@) {
            Some(p) => p,
            None => path@,
        } + " is already open in another pomock process"@,
        TaskPersistenceError::Backup { path, source } => "could not back up task data file "@ + path@ + ": "@
            + source@,
        TaskPersistenceError::Serialize(source) => "could not serialize tasks: "@ + source@,
        TaskPersistenceError::Write { path, source } => "could not write tasks to "@ + path@ + ": "@ + source@,
    }
}

/// `prefix`, `path`, a colon and `source`, one after another.
fn described(prefix: &str, path: &str, source: &str) -> (s: String)
    ensures
        s@ == prefix@ + path@ + ": "@ + source@,
{
    let mut s = owned(prefix);
    push_str(&mut s, path);
    push_str(&mut s, ": ");
    push_str(&mut s, source);
    s
}

/// `first`, `second` and `third`, one after another.
fn joined(first: &str, second: &str, third: &str) -> (s: String)
    ensures
        s@ == first@ + second@ + third@,
{
    let mut s = owned(first);
    push_str(&mut s, second);
    push_str(&mut s, third);
    s
}

impl TaskPersistenceError {
    /// Whether the task file exists but cannot be used: it does not parse, has a blank
    /// description, or has another version; the user may then replace it.
    pub fn is_invalid_file(&self) -> (b: bool)
        ensures
            b == (*self is Parse || *self is Validation || *self is UnsupportedVersion),
    {
        match self {
            TaskPersistenceError::Parse { .. } | TaskPersistenceError::Validation { .. }
            | TaskPersistenceError::UnsupportedVersion { .. } => true,
            _ => false,
        }
    }

    /// The human-readable message of this failure.
    pub fn message(&self) -> (s: String)
        ensures
            s@ == task_error_text(*self),
    {
        let s = match self {
            TaskPersistenceError::DirectoryUnavailable => owned("could not determine the user application data directory"),
            TaskPersistenceError::InvalidWorkspaceName(n) => n.message(),
            TaskPersistenceError::Read { path, source } => described("could not read tasks from ", path.as_str(),
                source.as_str()),
            TaskPersistenceError::Parse { path, source } => described("could not parse tasks in ", path.as_str(), source.as_str()),
            TaskPersistenceError::Validation { path, list, position } => {
                let mut s = joined("invalid ", *list, " task ");
                push_decimal(&mut s, *position as u64);
                push_str(&mut s, " in ");
                push_str(&mut s, path.as_str());
                push_str(&mut s, ": description must not be blank");
                s
            },
            TaskPersistenceError::UnsupportedVersion { path, found } => {
                let mut s = owned("unsupported task data version ");
                push_decimal(&mut s, *found as u64);
                push_str(&mut s, " in ");
                push_str(&mut s, path.as_str());
                push_str(&mut s, "; expected version ");
                push_decimal(&mut s, TASK_FILE_VERSION as u64);
                s
            },
            TaskPersistenceError::CreateDirectory { path, source } => described("could not create task data directory ", path.as_str(), source.as_str()),
            TaskPersistenceError::ReadDirectory { path, source } => described("could not inspect workspace instances in ", path.as_str(), source.as_str()),
            TaskPersistenceError::OpenLock { path, source } => described("could not open workspace instance lock ", path.as_str(), source.as_str()),
            TaskPersistenceError::Lock { path, source } => described("could not lock workspace instance file ", path.as_str(), source.as_str()),
            TaskPersistenceError::WorkspaceAlreadyOpen { path } => {
                let shown = match parent_of(path.as_str()) {
                    Some(p) => p,
                    None => path.clone(),
                };
                joined("workspace at ", shown.as_str(), " is already open in another pomock process")
            },
            TaskPersistenceError::Backup { path, source } => described("could not back up task data file ", path.as_str(), source.as_str()),
            TaskPersistenceError::Serialize(source) => {
                let mut s = owned("could not serialize tasks: ");
                push_str(&mut s, source.as_str());
                s
            },
            TaskPersistenceError::Write { path, source } => described("could not write tasks to ", path.as_str(), source.as_str()),
        };
        assert(s@ =~= task_error_text(*self));
        s
    }
}

/// The text of an optional workspace name.
pub open spec fn name_of(workspace: Option<&str>) -> Option<Seq<char>> {
    match workspace {
        Some(w) => Some(w@),
        None => None,
    }
}

/// The workspace whose configuration is used: the named one, or `main`.
pub open spec fn config_workspace(workspace: Option<&str>) -> Seq<char> {
    match workspace {
        Some(w) => w@,
        None => "main"@,
    }
}

/// The file `file_name` in the directory of `workspace` under `base`, or directly under
/// `base` when no workspace is named; `base` and the result are in the operating system's
/// bytes.
pub open spec fn store_path(base: Seq<u8>, workspace: Option<Seq<char>>, file_name: Seq<char>) -> Seq<u8> {
    match workspace {
        Some(w) => join_os(join_os(base, w), file_name),
        None => join_os(base, file_name),
    }
}

fn path_in(base: &[u8], workspace: Option<&str>, file_name: &str) -> (p: Vec<u8>)
    ensures
        p@ == store_path(base@, name_of(workspace), file_name@),
{
    match workspace {
        Some(w) => {
            let directory = join_bytes(base, w);
            join_bytes(directory.as_slice(), file_name)
        },
        None => join_bytes(base, file_name),
    }
}

/// The durable location of task data.
#[derive(Debug, Clone, PartialEq, Eq)]
pub struct TaskStore {
    path: Vec<u8>,
}

impl TaskStore {
    /// The task file at an explicit path.
    pub fn at(path: Vec<u8>) -> (s: TaskStore)
        ensures
            s.path_view() == path@,
    {
        TaskStore { path }
    }

    pub closed spec fn path_view(&self) -> Seq<u8> {
        self.path@
    }

    /// The backing path used by this store, in the operating system's bytes.
    pub fn path(&self) -> (p: &[u8])
        ensures
            p@ == self.path_view(),
    {
        self.path.as_slice()
    }

    /// The task file of an optional workspace under a data directory: a named workspace has
    /// a directory of its own, which must have a valid name.
    pub fn in_directory(data_directory: &[u8], workspace: Option<&str>) -> (r: Result<TaskStore, TaskPersistenceError>)
        ensures
            match workspace {
                Some(w) => !valid_workspace_name(w@) ==> (r matches Err(
                    TaskPersistenceError::InvalidWorkspaceName(e)) && e.name_view() == w@),
                None => true,
            },
            r matches Ok(s) ==> (workspace matches Some(w) ==> valid_workspace_name(w@))
                && s.path_view() == store_path(data_directory@, name_of(workspace),
                "tasks.toml"@),
            (workspace matches Some(w) ==> valid_workspace_name(w@)) ==> r is Ok,
    {
        if let Some(w) = workspace {
            if let Err(e) = validate_workspace_name(w) {
                return Err(TaskPersistenceError::InvalidWorkspaceName(e));
            }
        }
        Ok(TaskStore { path: path_in(data_directory, workspace, "tasks.toml") })
    }

    /// The per-user task file of an optional named workspace.
    pub fn user_in_workspace(workspace: Option<&str>) -> (r: Result<TaskStore, TaskPersistenceError>)
        ensures
            match workspace {
                Some(w) => !valid_workspace_name(w@) ==> (r matches Err(
                    TaskPersistenceError::InvalidWorkspaceName(e)) && e.name_view() == w@),
                None => true,
            },
            r matches Ok(s) ==> exists|d: Seq<u8>| s.path_view() == #[trigger] store_path(d,
                name_of(workspace), "tasks.toml"@),
            r matches Err(e) ==> e is DirectoryUnavailable || e is InvalidWorkspaceName,
            (workspace matches Some(w) ==> valid_workspace_name(w@)) ==> (r matches Err(e) ==> e is DirectoryUnavailable),
    {
        if let Some(w) = workspace {
            if let Err(e) = validate_workspace_name(w) {
                return Err(TaskPersistenceError::InvalidWorkspaceName(e));
            }
        }
        match data_local_directory() {
            Some(d) => TaskStore::in_directory(d.as_slice(), workspace),
            None => Err(TaskPersistenceError::DirectoryUnavailable),
        }
    }

    /// The per-user task file of the default workspace.
    pub fn user() -> (r: Result<TaskStore, TaskPersistenceError>)
        ensures
            r matches Ok(s) ==> exists|d: Seq<u8>| s.path_view() == #[trigger] store_path(d, None, "tasks.toml"@),
            r matches Err(e) ==> e is DirectoryUnavailable,
    {
        TaskStore::user_in_workspace(None)
    }
}

/// Why the configuration could not be located, read, checked or written; paths are carried
/// as they are displayed, and the texts of underlying failures as they were reported.
#[derive(Debug, Clone, PartialEq, Eq)]
pub enum ConfigError {
    DirectoryUnavailable,
    InvalidWorkspaceName(WorkspaceNameError),
    Read { path: String, source: String },
    Parse { path: String, source: String },
    Validation { path: String, source: crate::config::ConfigValidationError },
    CreateDirectory { path: String, source: String },
    Backup { path: String, source: String },
    Serialize(String),
    Write { path: String, source: String },
}

/// The message of a configuration persistence failure.
pub open spec fn config_error_text(e: ConfigError) -> Seq<char> {
    match e {
        ConfigError::DirectoryUnavailable => "could not determine the user configuration directory"@,
        ConfigError::InvalidWorkspaceName(n) => n.text(),
        ConfigError::Read { path, source } => "could not read "@ + path@ + ": "@ + source@,
        ConfigError::Parse { path, source } => "could not parse "@ + path@ + ": "@ + source@,
        ConfigError::Validation { path, source } => "invalid configuration in "@ + path@ + ": "@
            + crate::config::error::error_message(source),
        ConfigError::CreateDirectory { path, source } => "could not create configuration directory "@ + path@
            + ": "@ + source@,
        ConfigError::Backup { path, source } => "could not back up configuration file "@ + path@ + ": "@ + source@,
        ConfigError::Serialize(source) => "could not serialize configuration: "@ + source@,
        ConfigError::Write { path, source } => "could not write "@ + path@ + ": "@ + source@,
    }
}

impl ConfigError {
    /// Whether the configuration file exists but cannot be used: it does not parse or holds
    /// an invalid setting; the user may then replace it.
    pub fn is_invalid_file(&self) -> (b: bool)
        ensures
            b == (*self is Parse || *self is Validation),
    {
        match self {
            ConfigError::Parse { .. } | ConfigError::Validation { .. } => true,
            _ => false,
        }
    }

    /// The human-readable message of this failure.
    pub fn message(&self) -> (s: String)
        ensures
            s@ == config_error_text(*self),
    {
        let s = match self {
            ConfigError::DirectoryUnavailable => owned("could not determine the user configuration directory"),
            ConfigError::InvalidWorkspaceName(n) => n.message(),
            ConfigError::Read { path, source } => described("could not read ", path.as_str(), source.as_str()),
            ConfigError::Parse { path, source } => described("could not parse ", path.as_str(), source.as_str()),
            ConfigError::Validation { path, source } => {
                let detail = source.message();
                described("invalid configuration in ", path.as_str(), detail.as_str())
            },
            ConfigError::CreateDirectory { path, source } => described("could not create configuration directory ", path.as_str(), source.as_str()),
            ConfigError::Backup { path, source } => described("could not back up configuration file ", path.as_str(), source.as_str()),
            ConfigError::Serialize(source) => {
                let mut s = owned("could not serialize configuration: ");
                push_str(&mut s, source.as_str());
                s
            },
            ConfigError::Write { path, source } => described("could not write ", path.as_str(), source.as_str()),
        };
        assert(s@ =~= config_error_text(*self));
        s
    }
}

/// The durable location of the configuration.
#[derive(Debug, Clone, PartialEq, Eq)]
pub struct ConfigStore {
    path: Vec<u8>,
}

impl ConfigStore {
    /// The configuration file at an explicit path.
    pub fn at(path: Vec<u8>) -> (s: ConfigStore)
        ensures
            s.path_view() == path@,
    {
        ConfigStore { path }
    }

    pub closed spec fn path_view(&self) -> Seq<u8> {
        self.path@
    }

    /// The backing path used by this store, in the operating system's bytes.
    pub fn path(&self) -> (p: &[u8])
        ensures
            p@ == self.path_view(),
    {
        self.path.as_slice()
    }

    /// The configuration file of a workspace under a configuration directory; the default
    /// workspace is `main`, and a named one must have a valid name.
    pub fn in_directory(config_directory: &[u8], workspace: Option<&str>) -> (r: Result<ConfigStore, ConfigError>)
        ensures
            match workspace {
                Some(w) => !valid_workspace_name(w@) ==> (r matches Err(
                    ConfigError::InvalidWorkspaceName(e)) && e.name_view() == w@),
                None => true,
            },
            r matches Ok(s) ==> s.path_view() == store_path(config_directory@,
                Some(config_workspace(workspace)), "config.toml"@),
            (workspace matches Some(w) ==> valid_workspace_name(w@)) ==> r is Ok,
    {
        if let Some(w) = workspace {
            if let Err(e) = validate_workspace_name(w) {
                return Err(ConfigError::InvalidWorkspaceName(e));
            }
        }
        let name = match workspace {
            Some(w) => w,
            None => "main",
        };
        Ok(ConfigStore { path: path_in(config_directory, Some(name), "config.toml") })
    }

    /// The per-user configuration file of a workspace, defaulting to `main`.
    pub fn user_in_workspace(workspace: Option<&str>) -> (r: Result<ConfigStore, ConfigError>)
        ensures
            match workspace {
                Some(w) => !valid_workspace_name(w@) ==> (r matches Err(
                    ConfigError::InvalidWorkspaceName(e)) && e.name_view() == w@),
                None => true,
            },
            r matches Ok(s) ==> exists|d: Seq<u8>| s.path_view() == #[trigger] store_path(d,
                Some(config_workspace(workspace)), "config.toml"@),
            r matches Err(e) ==> e is DirectoryUnavailable || e is InvalidWorkspaceName,
            (workspace matches Some(w) ==> valid_workspace_name(w@)) ==> (r matches Err(e) ==> e is DirectoryUnavailable),
    {
        if let Some(w) = workspace {
            if let Err(e) = validate_workspace_name(w) {
                return Err(ConfigError::InvalidWorkspaceName(e));
            }
        }
        match config_directory() {
            Some(d) => ConfigStore::in_directory(d.as_slice(), workspace),
            None => Err(ConfigError::DirectoryUnavailable),
        }
    }

    /// The per-user configuration file of the main workspace.
    pub fn user() -> (r: Result<ConfigStore, ConfigError>)
        ensures
            r matches Ok(s) ==> exists|d: Seq<u8>| s.path_view() == #[trigger] store_path(d, Some("main"@), "config.toml"@),
            r matches Err(e) ==> e is DirectoryUnavailable,
    {
        ConfigStore::user_in_workspace(None)
    }
}

} // verus!
