//! Command-line arguments and the answer to a recovery prompt.
use vstd::prelude::*;

use crate::config::sound::opt_text;
use crate::persistence::workspace_name::{validate_workspace_name, valid_workspace_name, WorkspaceNameError};
use crate::text::{debug_quote, debug_quoted, is_whitespace, owned, push_char, push_str, same_text};

verus! {

/// What the command line asks for.
#[derive(Debug, Clone, PartialEq, Eq)]
pub enum CliCommand {
    Run { workspace: Option<String> },
    Help,
    Version,
}

/// Why the command line was rejected.
#[derive(Debug, Clone, PartialEq, Eq)]
pub enum CliError {
    MissingWorkspaceName,
    DuplicateWorkspace,
    InvalidWorkspaceName(WorkspaceNameError),
    UnexpectedArgument(String),
    NonUnicodeArgument,
}

/// The abstract result of reading the command line.
pub enum CliOutcome {
    Run(Option<Seq<char>>),
    Help,
    Version,
    MissingWorkspaceName,
    DuplicateWorkspace,
    InvalidWorkspaceName(Seq<char>),
    UnexpectedArgument(Seq<char>),
    NonUnicodeArgument,
}

/// The outcome of reading `arguments` from position `i`, with `workspace` named so far;
/// `None` stands for an argument that is not valid Unicode. Help and version win as soon
/// as they are read.
pub open spec fn parsed(arguments: Seq<Option<Seq<char>>>, i: int, workspace: Option<Seq<char>>) -> CliOutcome
    decreases arguments.len() - i,
{
    if i < 0 || i >= arguments.len() {
        CliOutcome::Run(workspace)
    } else {
        match arguments[i] {
            None => CliOutcome::NonUnicodeArgument,
            Some(a) => if a == "-h"@ || a == "--help"@ {
                CliOutcome::Help
            } else if a == "-v"@ || a == "--version"@ {
                CliOutcome::Version
            } else if a == "-w"@ || a == "--workspace"@ {
                if workspace is Some {
                    CliOutcome::DuplicateWorkspace
                } else if i + 1 >= arguments.len() {
                    CliOutcome::MissingWorkspaceName
                } else {
                    match arguments[i + 1] {
                        None => CliOutcome::NonUnicodeArgument,
                        Some(name) => if valid_workspace_name(name) {
                            parsed(arguments, i + 2, Some(name))
                        } else {
                            CliOutcome::InvalidWorkspaceName(name)
                        },
                    }
                }
            } else if a.len() >= 12 && a.subrange(0, 12) == "--workspace="@ {
                let name = a.subrange(12, a.len() as int);
                if workspace is Some {
                    CliOutcome::DuplicateWorkspace
                } else if valid_workspace_name(name) {
                    parsed(arguments, i + 1, Some(name))
                } else {
                    CliOutcome::InvalidWorkspaceName(name)
                }
            } else {
                CliOutcome::UnexpectedArgument(a)
            },
        }
    }
}

/// The texts of the arguments, `None` for one that is not valid Unicode.
pub open spec fn argument_texts(arguments: Seq<Option<String>>) -> Seq<Option<Seq<char>>> {
    arguments.map_values(|a: Option<String>| match a {
        Some(s) => Some(s@),
        None => None,
    })
}

/// The abstract view of a parse result.
pub open spec fn outcome_of(r: Result<CliCommand, CliError>) -> CliOutcome {
    match r {
        Ok(CliCommand::Run { workspace }) => CliOutcome::Run(match workspace {
            Some(w) => Some(w@),
            None => None,
        }),
        Ok(CliCommand::Help) => CliOutcome::Help,
        Ok(CliCommand::Version) => CliOutcome::Version,
        Err(CliError::MissingWorkspaceName) => CliOutcome::MissingWorkspaceName,
        Err(CliError::DuplicateWorkspace) => CliOutcome::DuplicateWorkspace,
        Err(CliError::InvalidWorkspaceName(e)) => CliOutcome::InvalidWorkspaceName(e.name_view()),
        Err(CliError::UnexpectedArgument(a)) => CliOutcome::UnexpectedArgument(a@),
        Err(CliError::NonUnicodeArgument) => CliOutcome::NonUnicodeArgument,
    }
}

/// Whether `a` starts with `prefix`.
fn starts_with(a: &str, prefix: &str) -> (b: bool)
    ensures
        b == (a@.len() >= prefix@.len() && a@.subrange(0, prefix@.len() as int) == prefix@),
{
    let n = prefix.unicode_len();
    if a.unicode_len() < n {
        return false;
    }
    let head = a.substring_char(0, n);
    same_text(head, prefix)
}

impl CliCommand {
    /// Reads the command line; `None` stands for an argument that is not valid Unicode.
    pub fn parse(arguments: Vec<Option<String>>) -> (r: Result<CliCommand, CliError>)
        ensures
            outcome_of(r) == parsed(argument_texts(arguments@), 0, None),
    {
        let ghost texts = argument_texts(arguments@);
        let mut workspace: Option<String> = None;
        let mut i: usize = 0;
        while i < arguments.len()
            invariant
                i <= arguments@.len(),
                texts == argument_texts(arguments@),
                texts.len() == arguments@.len(),
                parsed(texts, i as int, opt_text(workspace))
                    == parsed(texts, 0, None),
            decreases arguments@.len() - i,
        {
            proof {
                reveal_strlit("--workspace=");
            }
            let argument = match &arguments[i] {
                Some(a) => a,
                None => return Err(CliError::NonUnicodeArgument),
            };
            assert(texts[i as int] == Some(argument@));
            let a = argument.as_str();
            if same_text(a, "-h") || same_text(a, "--help") {
                return Ok(CliCommand::Help);
            }
            if same_text(a, "-v") || same_text(a, "--version") {
                return Ok(CliCommand::Version);
            }
            if same_text(a, "-w") || same_text(a, "--workspace") {
                if workspace.is_some() {
                    return Err(CliError::DuplicateWorkspace);
                }
                if i + 1 >= arguments.len() {
                    return Err(CliError::MissingWorkspaceName);
                }
                let name = match &arguments[i + 1] {
                    Some(n) => n,
                    None => return Err(CliError::NonUnicodeArgument),
                };
                assert(texts[i + 1] == Some(name@));
                if let Err(e) = validate_workspace_name(name.as_str()) {
                    return Err(CliError::InvalidWorkspaceName(e));
                }
                workspace = Some(name.clone());
                i = i + 2;
            } else if starts_with(a, "--workspace=") {
                let name = a.substring_char(12, a.unicode_len());
                if workspace.is_some() {
                    return Err(CliError::DuplicateWorkspace);
                }
                if let Err(e) = validate_workspace_name(name) {
                    return Err(CliError::InvalidWorkspaceName(e));
                }
                workspace = Some(owned(name));
                i = i + 1;
            } else {
                return Err(CliError::UnexpectedArgument(owned(a)));
            }
        }
        Ok(CliCommand::Run { workspace })
    }
}

/// The message of a rejected command line.
pub open spec fn cli_error_text(e: CliError) -> Seq<char> {
    match e {
        CliError::MissingWorkspaceName => "--workspace requires a workspace name"@,
        CliError::DuplicateWorkspace => "--workspace may only be specified once"@,
        CliError::InvalidWorkspaceName(n) => n.text(),
        CliError::UnexpectedArgument(a) => "unexpected argument "@ + debug_quoted(a@)
            + "; run `pomock --help` for usage"@,
        CliError::NonUnicodeArgument => "arguments must be valid Unicode"@,
    }
}

impl CliError {
    /// The human-readable message of this rejection.
    pub fn message(&self) -> (s: String)
        ensures
            s@ == cli_error_text(*self),
    {
        match self {
            CliError::MissingWorkspaceName => owned("--workspace requires a workspace name"),
            CliError::DuplicateWorkspace => owned("--workspace may only be specified once"),
            CliError::InvalidWorkspaceName(n) => n.message(),
            CliError::UnexpectedArgument(a) => {
                let mut s = owned("unexpected argument ");
                let quoted = debug_quote(a.as_str());
                push_str(&mut s, quoted.as_str());
                push_str(&mut s, "; run `pomock --help` for usage");
                s
            },
            CliError::NonUnicodeArgument => owned("arguments must be valid Unicode"),
        }
    }
}

/// The usage text.
pub fn help_text() -> (s: &'static str)
    ensures
        s@ == "pomock - a Pomodoro timer and task workspace\n\nUsage: pomock [OPTIONS]\n\nOptions:\n  -w, --workspace NAME  Use or create a named workspace\n  -h, --help            Show this help\n  -v, --version         Show version"@,
{
    "pomock - a Pomodoro timer and task workspace\n\nUsage: pomock [OPTIONS]\n\nOptions:\n  -w, --workspace NAME  Use or create a named workspace\n  -h, --help            Show this help\n  -v, --version         Show version"
}

/// An answer to the prompt about an invalid file.
#[derive(Debug, Clone, Copy, PartialEq, Eq, Structural)]
pub enum RecoveryChoice {
    Delete,
    Quit,
    Ask,
}

/// A character in lower case, for ASCII letters.
pub open spec fn ascii_lower(c: char) -> char {
    if 'A' <= c && c <= 'Z' { (((c as u8) + 32) as u8) as char } else { c }
}

/// The answer an input line gives: `d` or `delete` and `q` or `quit`, in any case and
/// with surrounding whitespace, and anything else asks again.
pub open spec fn recovery_choice(line: Seq<char>) -> RecoveryChoice {
    let word = trimmed(line).map_values(|c: char| ascii_lower(c));
    if word == "d"@ || word == "delete"@ {
        RecoveryChoice::Delete
    } else if word == "q"@ || word == "quit"@ {
        RecoveryChoice::Quit
    } else {
        RecoveryChoice::Ask
    }
}

/// The text without leading and trailing whitespace.
pub open spec fn trimmed(s: Seq<char>) -> Seq<char> {
    let start = leading_space(s, 0);
    let end = trailing_end(s, s.len() as int);
    if start < end { s.subrange(start, end) } else { Seq::empty() }
}

/// The first position at or after `i` holding no whitespace.
pub open spec fn leading_space(s: Seq<char>, i: int) -> int
    decreases s.len() - i,
{
    if i < 0 || i >= s.len() {
        s.len() as int
    } else if crate::text::char_is_whitespace(s[i]) {
        leading_space(s, i + 1)
    } else {
        i
    }
}

/// The end of the text before `end` once trailing whitespace is removed.
pub open spec fn trailing_end(s: Seq<char>, end: int) -> int
    decreases end,
{
    if end <= 0 || end > s.len() {
        if end > s.len() { s.len() as int } else { 0 }
    } else if crate::text::char_is_whitespace(s[end - 1]) {
        trailing_end(s, end - 1)
    } else {
        end
    }
}

/// Reads an answer to the prompt about an invalid file.
pub fn read_recovery_choice(line: &str) -> (c: RecoveryChoice)
    ensures
        c == recovery_choice(line@),
{
    let n = line.unicode_len();
    let mut start: usize = 0;
    while start < n && is_whitespace(line.get_char(start))
        invariant
            n == line@.len(),
            start <= n,
            leading_space(line@, start as int) == leading_space(line@, 0),
        decreases n - start,
    {
        start = start + 1;
    }
    let mut end: usize = n;
    while end > 0 && is_whitespace(line.get_char(end - 1))
        invariant
            n == line@.len(),
            end <= n,
            trailing_end(line@, end as int) == trailing_end(line@, n as int),
        decreases end,
    {
        end = end - 1;
    }
    let mut word = String::new();
    if start < end {
        let mut i = start;
        while i < end
            invariant
                start <= i <= end <= n,
                n == line@.len(),
                word@ == line@.subrange(start as int, i as int).map_values(|c: char| ascii_lower(c)),
            decreases end - i,
        {
            let c = line.get_char(i);
            let lower = if 'A' <= c && c <= 'Z' { ((c as u8) + 32) as char } else { c };
            push_char(&mut word, lower);
            proof {
                assert(line@.subrange(start as int, i + 1) =~= line@.subrange(start as int, i as int).push(c));
                assert(word@ =~= line@.subrange(start as int, i + 1).map_values(|c: char| ascii_lower(c)));
            }
            i = i + 1;
        }
    }
    proof {
        assert(word@ =~= trimmed(line@).map_values(|c: char| ascii_lower(c)));
    }
    let w = word.as_str();
    if same_text(w, "d") || same_text(w, "delete") {
        RecoveryChoice::Delete
    } else if same_text(w, "q") || same_text(w, "quit") {
        RecoveryChoice::Quit
    } else {
        RecoveryChoice::Ask
    }
}

} // verus!
