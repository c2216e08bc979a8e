//! Two independently ordered task lists: to do and done.
use vstd::prelude::*;
use vstd::multiset::Multiset;

use crate::text::{blank, is_blank};

verus! {

/// One task and its description.
#[derive(Debug)]
pub struct Task {
    description: String,
}

impl View for Task {
    type V = Seq<char>;

    closed spec fn view(&self) -> Seq<char> {
        self.description@
    }
}

impl Task {
    pub fn new(description: String) -> (t: Task)
        ensures
            t@ == description@,
    {
        Task { description }
    }

    pub fn description(&self) -> (s: &str)
        ensures
            s@ == self@,
    {
        self.description.as_str()
    }

    /// A task with the same description.
    pub fn duplicate(&self) -> (t: Task)
        ensures
            t@ == self@,
    {
        Task { description: self.description.clone() }
    }
}

/// The descriptions of a list of tasks, in order.
pub open spec fn descriptions(tasks: Seq<Task>) -> Seq<Seq<char>> {
    tasks.map_values(|t: Task| t@)
}

/// The abstract task lists.
pub struct TaskListModel {
    pub pending: Seq<Seq<char>>,
    pub completed: Seq<Seq<char>>,
}

/// The list after appending `description`, unless it is blank.
pub open spec fn add_to(list: Seq<Seq<char>>, description: Seq<char>) -> Seq<Seq<char>> {
    if is_blank(description) { list } else { list.push(description) }
}

/// The list after replacing entry `index`, if it exists and `description` is not blank.
pub open spec fn edit_in(list: Seq<Seq<char>>, index: int, description: Seq<char>) -> (Seq<Seq<char>>, bool) {
    if 0 <= index < list.len() && !is_blank(description) {
        (list.update(index, description), true)
    } else {
        (list, false)
    }
}

/// The list after swapping entry `index` with the one before it, when both exist.
pub open spec fn move_up_in(list: Seq<Seq<char>>, index: int) -> (Seq<Seq<char>>, bool) {
    if 0 < index < list.len() {
        (list.update(index - 1, list[index]).update(index, list[index - 1]), true)
    } else {
        (list, false)
    }
}

/// The list after swapping entry `index` with the one after it, when both exist.
pub open spec fn move_down_in(list: Seq<Seq<char>>, index: int) -> (Seq<Seq<char>>, bool) {
    if 0 <= index && index + 1 < list.len() {
        (list.update(index, list[index + 1]).update(index + 1, list[index]), true)
    } else {
        (list, false)
    }
}

/// Every task held, in either list.
pub open spec fn all_tasks(t: TaskListModel) -> Multiset<Seq<char>> {
    t.pending.to_multiset().add(t.completed.to_multiset())
}

/// Moving an entry up and then back down from its new place restores the list.
pub proof fn lemma_move_up_then_down(list: Seq<Seq<char>>, index: int)
    requires
        0 < index < list.len(),
    ensures
        move_up_in(list, index).1,
        move_down_in(move_up_in(list, index).0, index - 1) == (list, true),
{
    let moved = move_up_in(list, index).0;
    assert(moved.update(index - 1, moved[index]).update(index, moved[index - 1]) =~= list);
}

/// Moving an entry within its list keeps the same entries.
pub proof fn lemma_moves_keep_entries(list: Seq<Seq<char>>, index: int)
    ensures
        move_up_in(list, index).0.to_multiset() == list.to_multiset(),
        move_down_in(list, index).0.to_multiset() == list.to_multiset(),
{
    broadcast use vstd::seq_lib::group_to_multiset_ensures, vstd::multiset::group_multiset_axioms;
    if 0 < index < list.len() {
        let first = list.update(index - 1, list[index]);
        assert(first.to_multiset() =~= list.to_multiset().insert(list[index]).remove(list[index - 1]));
        assert(first.update(index, list[index - 1]).to_multiset() =~= list.to_multiset());
    }
    if 0 <= index && index + 1 < list.len() {
        let first = list.update(index, list[index + 1]);
        assert(first.to_multiset() =~= list.to_multiset().insert(list[index + 1]).remove(list[index]));
        assert(first.update(index + 1, list[index]).to_multiset() =~= list.to_multiset());
    }
}

/// Completing a task or returning one keeps every task: it only changes lists.
pub proof fn lemma_completion_keeps_tasks(t: TaskListModel, index: int)
    ensures
        0 <= index < t.pending.len() ==> all_tasks(TaskListModel {
            pending: t.pending.remove(index),
            completed: t.completed.push(t.pending[index]),
        }) == all_tasks(t),
        0 <= index < t.completed.len() ==> all_tasks(TaskListModel {
            completed: t.completed.remove(index),
            pending: t.pending.push(t.completed[index]),
        }) == all_tasks(t),
{
    broadcast use vstd::seq_lib::group_to_multiset_ensures, vstd::multiset::group_multiset_axioms;
    if 0 <= index < t.pending.len() {
        let x = t.pending[index];
        assert(t.pending.to_multiset().count(x) > 0);
        assert(all_tasks(TaskListModel { pending: t.pending.remove(index), completed: t.completed.push(x) })
            =~= all_tasks(t));
    }
    if 0 <= index < t.completed.len() {
        let x = t.completed[index];
        assert(t.completed.to_multiset().count(x) > 0);
        assert(all_tasks(TaskListModel { completed: t.completed.remove(index), pending: t.pending.push(x) })
            =~= all_tasks(t));
    }
}

/// Completing the last to-do and returning the newest done task gives back the lists.
pub proof fn lemma_complete_then_return(t: TaskListModel)
    requires
        t.pending.len() > 0,
    ensures
        ({
            let i = t.pending.len() - 1;
            let done = TaskListModel { pending: t.pending.remove(i), completed: t.completed.push(t.pending[i]) };
            let j = done.completed.len() - 1;
            TaskListModel { completed: done.completed.remove(j), pending: done.pending.push(done.completed[j]) } == t
        }),
{
    let i = t.pending.len() - 1;
    let done = TaskListModel { pending: t.pending.remove(i), completed: t.completed.push(t.pending[i]) };
    let j = done.completed.len() - 1;
    assert(done.completed.remove(j) =~= t.completed);
    assert(done.pending.push(done.completed[j]) =~= t.pending);
}

/// Whether no description in a list is blank.
pub open spec fn described(list: Seq<Seq<char>>) -> bool {
    forall|j: int| 0 <= j < list.len() ==> !is_blank(#[trigger] list[j])
}

/// Every list operation keeps every description non-blank: adding and editing refuse blank
/// text, and moving, removing and appending an entry of a described list bring in no new text.
pub proof fn lemma_list_operations_keep_descriptions(
    list: Seq<Seq<char>>,
    other: Seq<Seq<char>>,
    index: int,
    description: Seq<char>,
)
    requires
        described(list),
        described(other),
    ensures
        described(add_to(list, description)),
        described(edit_in(list, index, description).0),
        described(move_up_in(list, index).0),
        described(move_down_in(list, index).0),
        0 <= index < list.len() ==> described(list.remove(index)),
        0 <= index < list.len() ==> described(other.push(list[index])),
{
    let added = add_to(list, description);
    assert forall|j: int| 0 <= j < added.len() implies !is_blank(#[trigger] added[j]) by {
        if j < list.len() {
            assert(added[j] == list[j]);
        }
    }
    if 0 <= index < list.len() {
        let removed = list.remove(index);
        assert forall|j: int| 0 <= j < removed.len() implies !is_blank(#[trigger] removed[j]) by {
            if j < index {
                assert(removed[j] == list[j]);
            } else {
                assert(removed[j] == list[j + 1]);
            }
        }
        let pushed = other.push(list[index]);
        assert forall|j: int| 0 <= j < pushed.len() implies !is_blank(#[trigger] pushed[j]) by {
            if j < other.len() {
                assert(pushed[j] == other[j]);
            }
        }
    }
}

/// Two independently ordered task lists matching the two workspace views.
#[derive(Debug)]
pub struct TaskList {
    pending: Vec<Task>,
    completed: Vec<Task>,
}

impl View for TaskList {
    type V = TaskListModel;

    closed spec fn view(&self) -> TaskListModel {
        TaskListModel { pending: descriptions(self.pending@), completed: descriptions(self.completed@) }
    }
}

fn tasks_from(descriptions_in: Vec<String>) -> (tasks: Vec<Task>)
    ensures
        descriptions(tasks@) == descriptions_in@.map_values(|s: String| s@),
{
    let mut tasks: Vec<Task> = Vec::new();
    let mut rest = descriptions_in;
    let ghost all = rest@;
    let mut reversed: Vec<String> = Vec::new();
    while rest.len() > 0
        invariant
            reversed@.len() + rest@.len() == all.len(),
            forall|i: int| 0 <= i < rest@.len() ==> rest@[i] == all[i],
            forall|i: int| 0 <= i < reversed@.len() ==> reversed@[i] == all[all.len() - 1 - i],
        decreases rest@.len(),
    {
        let s = rest.pop().unwrap();
        reversed.push(s);
    }
    while reversed.len() > 0
        invariant
            reversed@.len() + tasks@.len() == all.len(),
            forall|i: int| 0 <= i < reversed@.len() ==> reversed@[i] == all[all.len() - 1 - i],
            forall|i: int| 0 <= i < tasks@.len() ==> (#[trigger] tasks@[i])@ == all[i]@,
        decreases reversed@.len(),
    {
        let s = reversed.pop().unwrap();
        tasks.push(Task::new(s));
    }
    assert(descriptions(tasks@) =~= all.map_values(|s: String| s@));
    tasks
}

fn add_to_list(tasks: &mut Vec<Task>, description: String)
    ensures
        descriptions(final(tasks)@) == add_to(descriptions(old(tasks)@), description@),
{
    if !blank(description.as_str()) {
        tasks.push(Task::new(description));
        assert(descriptions(tasks@) =~= descriptions(old(tasks)@).push(description@));
    }
}

fn edit_list(tasks: &mut Vec<Task>, index: usize, description: String) -> (changed: bool)
    ensures
        (descriptions(final(tasks)@), changed) == edit_in(descriptions(old(tasks)@), index as int, description@),
{
    if index >= tasks.len() {
        return false;
    }
    if blank(description.as_str()) {
        return false;
    }
    tasks.remove(index);
    tasks.insert(index, Task::new(description));
    assert(descriptions(tasks@) =~= descriptions(old(tasks)@).update(index as int, description@));
    true
}

fn move_to_end(source: &mut Vec<Task>, destination: &mut Vec<Task>, index: usize) -> (moved: bool)
    ensures
        moved == (index < old(source)@.len()),
        moved ==> descriptions(final(source)@) == descriptions(old(source)@).remove(index as int),
        moved ==> descriptions(final(destination)@) == descriptions(old(destination)@).push(descriptions(old(source)@)[index as int]),
        !moved ==> final(source)@ == old(source)@ && final(destination)@ == old(destination)@,
{
    if index >= source.len() {
        return false;
    }
    let task = source.remove(index);
    destination.push(task);
    assert(descriptions(source@) =~= descriptions(old(source)@).remove(index as int));
    assert(descriptions(destination@) =~= descriptions(old(destination)@).push(descriptions(old(source)@)[index as int]));
    true
}

fn delete_from(tasks: &mut Vec<Task>, index: usize) -> (deleted: bool)
    ensures
        deleted == (index < old(tasks)@.len()),
        deleted ==> descriptions(final(tasks)@) == descriptions(old(tasks)@).remove(index as int),
        !deleted ==> final(tasks)@ == old(tasks)@,
{
    if index >= tasks.len() {
        return false;
    }
    tasks.remove(index);
    assert(descriptions(tasks@) =~= descriptions(old(tasks)@).remove(index as int));
    true
}

fn move_up(tasks: &mut Vec<Task>, index: usize) -> (moved: bool)
    ensures
        (descriptions(final(tasks)@), moved) == move_up_in(descriptions(old(tasks)@), index as int),
{
    if index == 0 || index >= tasks.len() {
        return false;
    }
    let task = tasks.remove(index);
    tasks.insert(index - 1, task);
    assert(descriptions(tasks@) =~= descriptions(old(tasks)@).update(index - 1, descriptions(old(tasks)@)[index as int]).update(index as int, descriptions(old(tasks)@)[index - 1]));
    true
}

fn move_down(tasks: &mut Vec<Task>, index: usize) -> (moved: bool)
    ensures
        (descriptions(final(tasks)@), moved) == move_down_in(descriptions(old(tasks)@), index as int),
{
    if index >= tasks.len() || index + 1 >= tasks.len() {
        return false;
    }
    let task = tasks.remove(index + 1);
    tasks.insert(index, task);
    assert(descriptions(tasks@) =~= descriptions(old(tasks)@).update(index as int, descriptions(old(tasks)@)[index + 1]).update(index + 1, descriptions(old(tasks)@)[index as int]));
    true
}

fn copy_descriptions(tasks: &Vec<Task>) -> (out: Vec<String>)
    ensures
        out@.map_values(|s: String| s@) == descriptions(tasks@),
{
    let mut out: Vec<String> = Vec::new();
    let mut i: usize = 0;
    while i < tasks.len()
        invariant
            i <= tasks@.len(),
            out@.len() == i,
            forall|j: int| 0 <= j < i ==> (#[trigger] out@[j])@ == tasks@[j]@,
        decreases tasks@.len() - i,
    {
        out.push(tasks[i].description.clone());
        i = i + 1;
    }
    assert(out@.map_values(|s: String| s@) =~= descriptions(tasks@));
    out
}

impl TaskList {
    /// Empty lists.
    pub fn new() -> (l: TaskList)
        ensures
            l@.pending.len() == 0,
            l@.completed.len() == 0,
    {
        let l = TaskList { pending: Vec::new(), completed: Vec::new() };
        assert(l@.pending =~= Seq::empty());
        l
    }

    /// Lists holding the given descriptions in order.
    pub fn from_descriptions(pending: Vec<String>, completed: Vec<String>) -> (l: TaskList)
        ensures
            l@.pending == pending@.map_values(|s: String| s@),
            l@.completed == completed@.map_values(|s: String| s@),
    {
        TaskList { pending: tasks_from(pending), completed: tasks_from(completed) }
    }

    /// Copies of the to-do and done descriptions, in order.
    pub fn to_descriptions(&self) -> (lists: (Vec<String>, Vec<String>))
        ensures
            lists.0@.map_values(|s: String| s@) == self@.pending,
            lists.1@.map_values(|s: String| s@) == self@.completed,
    {
        (copy_descriptions(&self.pending), copy_descriptions(&self.completed))
    }

    /// Appends a to-do task unless the description is blank.
    pub fn add(&mut self, description: String)
        ensures
            final(self)@.pending == add_to(old(self)@.pending, description@),
            final(self)@.completed == old(self)@.completed,
    {
        add_to_list(&mut self.pending, description);
    }

    /// Appends a done task unless the description is blank.
    pub fn add_completed(&mut self, description: String)
        ensures
            final(self)@.completed == add_to(old(self)@.completed, description@),
            final(self)@.pending == old(self)@.pending,
    {
        add_to_list(&mut self.completed, description);
    }

    pub fn edit_pending(&mut self, index: usize, description: String) -> (changed: bool)
        ensures
            (final(self)@.pending, changed) == edit_in(old(self)@.pending, index as int, description@),
            final(self)@.completed == old(self)@.completed,
    {
        edit_list(&mut self.pending, index, description)
    }

    pub fn edit_completed(&mut self, index: usize, description: String) -> (changed: bool)
        ensures
            (final(self)@.completed, changed) == edit_in(old(self)@.completed, index as int, description@),
            final(self)@.pending == old(self)@.pending,
    {
        edit_list(&mut self.completed, index, description)
    }

    /// Moves a to-do task to the end of the done list.
    pub fn complete(&mut self, index: usize) -> (moved: bool)
        ensures
            moved == (index < old(self)@.pending.len()),
            moved ==> final(self)@.pending == old(self)@.pending.remove(index as int),
            moved ==> final(self)@.completed == old(self)@.completed.push(old(self)@.pending[index as int]),
            !moved ==> final(self)@ == old(self)@,
    {
        move_to_end(&mut self.pending, &mut self.completed, index)
    }

    /// Moves a done task to the end of the to-do list.
    pub fn uncomplete(&mut self, index: usize) -> (moved: bool)
        ensures
            moved == (index < old(self)@.completed.len()),
            moved ==> final(self)@.completed == old(self)@.completed.remove(index as int),
            moved ==> final(self)@.pending == old(self)@.pending.push(old(self)@.completed[index as int]),
            !moved ==> final(self)@ == old(self)@,
    {
        move_to_end(&mut self.completed, &mut self.pending, index)
    }

    pub fn delete_pending(&mut self, index: usize) -> (deleted: bool)
        ensures
            deleted == (index < old(self)@.pending.len()),
            deleted ==> final(self)@.pending == old(self)@.pending.remove(index as int),
            final(self)@.completed == old(self)@.completed,
            !deleted ==> final(self)@ == old(self)@,
    {
        delete_from(&mut self.pending, index)
    }

    pub fn delete_completed(&mut self, index: usize) -> (deleted: bool)
        ensures
            deleted == (index < old(self)@.completed.len()),
            deleted ==> final(self)@.completed == old(self)@.completed.remove(index as int),
            final(self)@.pending == old(self)@.pending,
            !deleted ==> final(self)@ == old(self)@,
    {
        delete_from(&mut self.completed, index)
    }

    /// Swaps a to-do task with the one above it.
    pub fn move_pending_up(&mut self, index: usize) -> (moved: bool)
        ensures
            (final(self)@.pending, moved) == move_up_in(old(self)@.pending, index as int),
            final(self)@.completed == old(self)@.completed,
    {
        move_up(&mut self.pending, index)
    }

    /// Swaps a to-do task with the one below it.
    pub fn move_pending_down(&mut self, index: usize) -> (moved: bool)
        ensures
            (final(self)@.pending, moved) == move_down_in(old(self)@.pending, index as int),
            final(self)@.completed == old(self)@.completed,
    {
        move_down(&mut self.pending, index)
    }

    /// Swaps a done task with the one above it.
    pub fn move_completed_up(&mut self, index: usize) -> (moved: bool)
        ensures
            (final(self)@.completed, moved) == move_up_in(old(self)@.completed, index as int),
            final(self)@.pending == old(self)@.pending,
    {
        move_up(&mut self.completed, index)
    }

    /// Swaps a done task with the one below it.
    pub fn move_completed_down(&mut self, index: usize) -> (moved: bool)
        ensures
            (final(self)@.completed, moved) == move_down_in(old(self)@.completed, index as int),
            final(self)@.pending == old(self)@.pending,
    {
        move_down(&mut self.completed, index)
    }

    /// The to-do tasks, in order.
    pub fn pending(&self) -> (tasks: &[Task])
        ensures
            descriptions(tasks@) == self@.pending,
    {
        self.pending.as_slice()
    }

    /// The done tasks, in order.
    pub fn completed(&self) -> (tasks: &[Task])
        ensures
            descriptions(tasks@) == self@.completed,
    {
        self.completed.as_slice()
    }

    pub fn pending_len(&self) -> (n: usize)
        ensures
            n == self@.pending.len(),
    {
        self.pending.len()
    }

    pub fn completed_len(&self) -> (n: usize)
        ensures
            n == self@.completed.len(),
    {
        self.completed.len()
    }

    /// A copy of the to-do description at `index`, if it exists.
    pub fn pending_description(&self, index: usize) -> (d: Option<String>)
        ensures
            index < self@.pending.len() ==> (d matches Some(s) && s@ == self@.pending[index as int]),
            index >= self@.pending.len() ==> d is None,
    {
        if index < self.pending.len() {
            Some(self.pending[index].description.clone())
        } else {
            None
        }
    }

    /// A copy of the done description at `index`, if it exists.
    pub fn completed_description(&self, index: usize) -> (d: Option<String>)
        ensures
            index < self@.completed.len() ==> (d matches Some(s) && s@ == self@.completed[index as int]),
            index >= self@.completed.len() ==> d is None,
    {
        if index < self.completed.len() {
            Some(self.completed[index].description.clone())
        } else {
            None
        }
    }
}

impl Default for TaskList {
    fn default() -> (l: TaskList)
        ensures
            l@.pending.len() == 0,
            l@.completed.len() == 0,
    {
        TaskList::new()
    }
}

} // verus!
