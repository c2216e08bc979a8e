//! Names of workspaces, which become directory names.
use vstd::prelude::*;

use crate::text::{debug_quote, debug_quoted, owned, push_str, same_text};

verus! {

/// Whether a character may stand in a workspace name: an ASCII letter or digit, a dot, a
/// hyphen or an underscore.
pub open spec fn workspace_char(c: char) -> bool {
    ('a' <= c && c <= 'z') || ('A' <= c && c <= 'Z') || ('0' <= c && c <= '9') || c == '.' || c == '-' || c == '_'
}

/// Whether `name` is a valid workspace name: nonempty, made of workspace characters, and
/// neither of the directory components `.` and `..`.
pub open spec fn valid_workspace_name(name: Seq<char>) -> bool {
    &&& name.len() > 0
    &&& name != "."@
    &&& name != ".."@
    &&& forall|i: int| 0 <= i < name.len() ==> workspace_char(#[trigger] name[i])
}

/// Reports a workspace name rejected by the directory-name rules.
#[derive(Debug, Clone, PartialEq, Eq)]
pub struct WorkspaceNameError {
    name: String,
}

impl WorkspaceNameError {
    pub closed spec fn name_view(&self) -> Seq<char> {
        self.name@
    }

    /// The message of this rejection.
    pub open spec fn text(&self) -> Seq<char> {
        "invalid workspace name "@ + debug_quoted(self.name_view()) + "; use letters, numbers, '.', '-', or '_'"@
    }

    /// The human-readable message of this rejection.
    pub fn message(&self) -> (s: String)
        ensures
            s@ == self.text(),
    {
        let mut s = owned("invalid workspace name ");
        let quoted = debug_quote(self.name.as_str());
        push_str(&mut s, quoted.as_str());
        push_str(&mut s, "; use letters, numbers, '.', '-', or '_'");
        s
    }
}

/// Accepts nonempty ASCII letters, numbers, dots, hyphens, and underscores, excluding the
/// directory components `.` and `..`.
pub fn validate_workspace_name(name: &str) -> (r: Result<(), WorkspaceNameError>)
    ensures
        r is Ok <==> valid_workspace_name(name@),
        r matches Err(e) ==> e.name_view() == name@,
{
    let n = name.unicode_len();
    let mut valid = n > 0 && !same_text(name, ".") && !same_text(name, "..");
    let mut i: usize = 0;
    while i < n
        invariant
            n == name@.len(),
            i <= n,
            valid == (n > 0 && name@ != "."@ && name@ != ".."@
                && forall|j: int| 0 <= j < i ==> workspace_char(#[trigger] name@[j])),
        decreases n - i,
    {
        let c = name.get_char(i);
        let ok = ('a' <= c && c <= 'z') || ('A' <= c && c <= 'Z') || ('0' <= c && c <= '9') || c == '.' || c == '-'
            || c == '_';
        if !ok {
            valid = false;
        }
        i = i + 1;
    }
    if valid {
        Ok(())
    } else {
        Err(WorkspaceNameError { name: owned(name) })
    }
}

} // verus!
