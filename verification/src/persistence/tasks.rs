//! What a task file must hold.
use vstd::prelude::*;

use super::TaskPersistenceError;
use crate::app::{texts, TaskState};
use crate::tasks::described;
use crate::text::{blank, is_blank, owned};

verus! {

/// The task file format version this library reads and writes.
pub const TASK_FILE_VERSION: u32 = 1;

/// Whether `position` is the one-based place of the first blank description in `list`.
pub open spec fn first_blank_at(list: Seq<Seq<char>>, position: nat) -> bool {
    &&& 1 <= position <= list.len()
    &&& is_blank(list[position - 1])
    &&& forall|j: int| 0 <= j < position - 1 ==> !is_blank(#[trigger] list[j])
}

/// Finds the first blank description of a list, counting from one.
fn find_blank(list: &Vec<String>) -> (p: Option<usize>)
    ensures
        match p {
            Some(n) => first_blank_at(texts(list@), n as nat),
            None => described(texts(list@)),
        },
{
    let mut i: usize = 0;
    while i < list.len()
        invariant
            i <= list@.len(),
            forall|j: int| 0 <= j < i ==> !is_blank(#[trigger] texts(list@)[j]),
        decreases list@.len() - i,
    {
        if blank(list[i].as_str()) {
            assert(texts(list@)[i as int] == list@[i as int]@);
            return Some(i + 1);
        }
        assert(texts(list@)[i as int] == list@[i as int]@);
        i = i + 1;
    }
    None
}

/// The task lists of a parsed task file at `path`: its version must be the supported one,
/// and no description may be blank, the to-do list checked before the done list.
pub fn task_state_from_file(path: &str, version: u32, todo: Vec<String>, done: Vec<String>) -> (r: Result<TaskState, TaskPersistenceError>)
    ensures
        version != TASK_FILE_VERSION ==> (r matches Err(TaskPersistenceError::UnsupportedVersion { path: p, found })
            && p@ == path@ && found == version),
        version == TASK_FILE_VERSION ==> match r {
            Ok(s) => described(texts(todo@)) && described(texts(done@)) && s.todo_view() == texts(todo@)
                && s.done_view() == texts(done@),
            Err(TaskPersistenceError::Validation { path: p, list, position }) => p@ == path@ && (
                (list == "todo" && first_blank_at(texts(todo@), position as nat))
                || (list == "done" && described(texts(todo@)) && first_blank_at(texts(done@), position as nat))),
            Err(_) => false,
        },
{
    if version != TASK_FILE_VERSION {
        return Err(TaskPersistenceError::UnsupportedVersion { path: owned(path), found: version });
    }
    if let Some(position) = find_blank(&todo) {
        return Err(TaskPersistenceError::Validation { path: owned(path), list: "todo", position });
    }
    if let Some(position) = find_blank(&done) {
        return Err(TaskPersistenceError::Validation { path: owned(path), list: "done", position });
    }
    Ok(TaskState::from_lists(todo, done))
}

} // verus!
