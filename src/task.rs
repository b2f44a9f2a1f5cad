//! The task record and its mathematical model.
use vstd::prelude::*;

verus! {

/// What one row of the task table holds besides its id:
/// title, completion flag, creation timestamp and optional deadline.
pub type TaskRow = (Seq<char>, bool, Seq<char>, Option<Seq<char>>);

/// The contents of the task table, keyed by id.
pub type TableModel = Map<u64, TaskRow>;

/// One task as handed to callers.
#[derive(Clone, Debug, PartialEq)]
pub struct Todo {
    pub id: u64,
    pub title: String,
    pub completed: bool,
    pub created_at: String,
    pub deadline: Option<String>,
}

/// The mathematical value of a `Todo`.
pub struct TodoModel {
    pub id: u64,
    pub title: Seq<char>,
    pub completed: bool,
    pub created_at: Seq<char>,
    pub deadline: Option<Seq<char>>,
}

/// The view of an optional string.
pub open spec fn opt_view(o: Option<String>) -> Option<Seq<char>> {
    match o {
        Some(s) => Some(s@),
        None => None,
    }
}

impl View for Todo {
    type V = TodoModel;

    open spec fn view(&self) -> TodoModel {
        TodoModel {
            id: self.id,
            title: self.title@,
            completed: self.completed,
            created_at: self.created_at@,
            deadline: opt_view(self.deadline),
        }
    }
}

impl TodoModel {
    /// The table row that stands for `self`.
    pub open spec fn row(self) -> TaskRow {
        (self.title, self.completed, self.created_at, self.deadline)
    }
}

/// `s` lists exactly the rows of `t`, each once, in ascending order of id.
pub open spec fn lists_table(s: Seq<TodoModel>, t: TableModel) -> bool {
    &&& forall|i: int, j: int| 0 <= i < j < s.len() ==> s[i].id < s[j].id
    &&& forall|i: int|
        0 <= i < s.len() ==> #[trigger] t.contains_key(s[i].id) && t[s[i].id] == s[i].row()
    &&& forall|k: u64| #[trigger] t.contains_key(k) ==> exists|i: int| 0 <= i < s.len() && s[i].id == k
}

/// The views of a sequence of tasks.
pub open spec fn todos_view(v: Seq<Todo>) -> Seq<TodoModel> {
    v.map_values(|x: Todo| x@)
}

/// The deadline that an update with deadline text `d` stores: an empty text
/// clears the deadline.
pub open spec fn deadline_value(d: Seq<char>) -> Option<Seq<char>> {
    if d.len() == 0 {
        None
    } else {
        Some(d)
    }
}

/// Turns deadline text given to an update into the value to store.
pub fn normalize_deadline(d: String) -> (r: Option<String>)
    ensures
        opt_view(r) == deadline_value(d@),
{
    if d.as_str().is_empty() {
        None
    } else {
        Some(d)
    }
}

} // verus!
