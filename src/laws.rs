//! Laws of the repository, stated over the same models as the operations'
//! contracts and proved from them.
use vstd::prelude::*;
use rusqlite::Connection;
use crate::task::{lists_table, TableModel, TodoModel};
use crate::store::{bounded, created, deleted, max_id_of, rows_of, updated};

verus! {

/// One operation of a run over a store: `Some(t)` is a create that returned
/// `t`; `None` is any other operation, or a create that failed, each of which
/// leaves the AUTOINCREMENT counter as it was.
pub open spec fn run_step(before: Connection, after: Connection, op: Option<TodoModel>) -> bool {
    match op {
        Some(t) => created(before, after, t),
        None => max_id_of(after) == max_id_of(before),
    }
}

proof fn created_id_stays_below(states: Seq<Connection>, ops: Seq<Option<TodoModel>>, i: int, j: int)
    requires
        states.len() == ops.len() + 1,
        forall|k: int| 0 <= k < ops.len() ==> #[trigger] run_step(states[k], states[k + 1], ops[k]),
        0 <= i < j <= ops.len(),
        ops[i] is Some,
    ensures
        ops[i]->Some_0.id <= max_id_of(states[j]),
    decreases j - i,
{
    assert(run_step(states[i], states[i + 1], ops[i]));
    if j > i + 1 {
        let k = j - 1;
        created_id_stays_below(states, ops, i, k);
        assert(run_step(states[k], states[k + 1], ops[k]));
    }
}

/// In any run of operations over a store, each turning one connection state
/// into the next, no two creates return the same id.
pub proof fn create_ids_distinct(states: Seq<Connection>, ops: Seq<Option<TodoModel>>)
    requires
        states.len() == ops.len() + 1,
        forall|k: int| 0 <= k < ops.len() ==> #[trigger] run_step(states[k], states[k + 1], ops[k]),
    ensures
        forall|i: int, j: int|
            0 <= i < j < ops.len() && ops[i] is Some && ops[j] is Some ==> ops[i]->Some_0.id
                != ops[j]->Some_0.id,
{
    assert forall|i: int, j: int|
        0 <= i < j < ops.len() && ops[i] is Some && ops[j] is Some implies ops[i]->Some_0.id
            != ops[j]->Some_0.id by {
        created_id_stays_below(states, ops, i, j);
        assert(run_step(states[j], states[j + 1], ops[j]));
    }
}

/// After a create of `t`, a listing of the store holds exactly one task with
/// `t`'s id, and it is `t`, with the title, completion flag and deadline that
/// were created.
pub proof fn create_then_list(
    before: Connection,
    after: Connection,
    t: TodoModel,
    listed: Seq<TodoModel>,
)
    requires
        created(before, after, t),
        lists_table(listed, crate::store::rows_of(after)),
    ensures
        exists|i: int| 0 <= i < listed.len() && listed[i] == t,
        forall|i: int, j: int|
            0 <= i < listed.len() && 0 <= j < listed.len() && listed[i].id == t.id && listed[j].id
                == t.id ==> i == j,
{
    let rows = crate::store::rows_of(after);
    assert(rows.contains_key(t.id));
    let i = choose|i: int| 0 <= i < listed.len() && listed[i].id == t.id;
    assert(rows[listed[i].id] == listed[i].row());
    assert(listed[i] == t);
    assert forall|i: int, j: int|
        0 <= i < listed.len() && 0 <= j < listed.len() && listed[i].id == t.id && listed[j].id
            == t.id implies i == j by {
        if i < j || j < i {
            assert(listed[i].id != listed[j].id);
        }
    }
}

/// After a create of `t` in a store that held no task with the same title,
/// no completion and the same deadline, a listing holds exactly one task with
/// that title, not completed, and that deadline.
pub proof fn create_then_list_by_fields(
    before: Connection,
    after: Connection,
    t: TodoModel,
    listed: Seq<TodoModel>,
)
    requires
        created(before, after, t),
        !t.completed,
        forall|k: u64|
            #[trigger] crate::store::rows_of(before).contains_key(k) ==> !(crate::store::rows_of(
                before,
            )[k].0 == t.title && !crate::store::rows_of(before)[k].1 && crate::store::rows_of(
                before,
            )[k].3 == t.deadline),
        lists_table(listed, crate::store::rows_of(after)),
    ensures
        exists|i: int|
            0 <= i < listed.len() && listed[i].title == t.title && !listed[i].completed
                && listed[i].deadline == t.deadline,
        forall|i: int, j: int|
            0 <= i < listed.len() && 0 <= j < listed.len() && same_fields(listed[i], t)
                && same_fields(listed[j], t) ==> i == j,
{
    create_then_list(before, after, t, listed);
    let rows = crate::store::rows_of(after);
    assert forall|i: int| 0 <= i < listed.len() && same_fields(listed[i], t) implies listed[i].id
        == t.id by {
        assert(rows.contains_key(listed[i].id));
        if listed[i].id != t.id {
            assert(crate::store::rows_of(before).contains_key(listed[i].id));
        }
    }
}

/// `a` has `b`'s title, completion flag and deadline.
pub open spec fn same_fields(a: TodoModel, b: TodoModel) -> bool {
    a.title == b.title && a.completed == b.completed && a.deadline == b.deadline
}

/// After an update whose deadline text is empty, a listing shows the task
/// with no deadline, not with an empty one.
pub proof fn empty_deadline_clears(
    before: TableModel,
    after: TableModel,
    id: u64,
    r: bool,
    listed: Seq<TodoModel>,
)
    requires
        updated(before, after, id, None, None, Some(Seq::empty()), r),
        lists_table(listed, after),
    ensures
        forall|i: int| 0 <= i < listed.len() && listed[i].id == id ==> listed[i].deadline is None,
{
    assert forall|i: int| 0 <= i < listed.len() && listed[i].id == id implies listed[i].deadline is None by {
        assert(after.contains_key(listed[i].id));
    }
}

/// Marking a task completed leaves its title, creation time and deadline as
/// they were.
pub proof fn completing_keeps_other_fields(
    before: TableModel,
    after: TableModel,
    id: u64,
    r: bool,
)
    requires
        updated(before, after, id, None, Some(true), None, r),
        before.contains_key(id),
    ensures
        after.contains_key(id),
        after[id].0 == before[id].0,
        after[id].1,
        after[id].2 == before[id].2,
        after[id].3 == before[id].3,
{
}

/// Deleting an existing task reports true and the task is gone from a
/// listing; deleting it again reports false.
pub proof fn delete_is_final(
    before: TableModel,
    middle: TableModel,
    after: TableModel,
    id: u64,
    first: bool,
    second: bool,
    listed: Seq<TodoModel>,
)
    requires
        before.contains_key(id),
        deleted(before, middle, id, first),
        lists_table(listed, middle),
        deleted(middle, after, id, second),
    ensures
        first,
        !second,
        after == middle,
        forall|i: int| 0 <= i < listed.len() ==> listed[i].id != id,
{
    assert(after =~= middle);
    assert forall|i: int| 0 <= i < listed.len() implies listed[i].id != id by {
        assert(middle.contains_key(listed[i].id));
    }
}

/// An update of an id that no task has still reports true when a field is
/// given, and neither adds nor changes a task: a listing shows no task with
/// that id.
pub proof fn update_missing_id(
    before: TableModel,
    after: TableModel,
    id: u64,
    title: Seq<char>,
    r: bool,
    listed: Seq<TodoModel>,
)
    requires
        !before.contains_key(id),
        updated(before, after, id, Some(title), None, None, r),
        lists_table(listed, after),
    ensures
        r,
        after == before,
        forall|i: int| 0 <= i < listed.len() ==> listed[i].id != id,
{
    assert forall|i: int| 0 <= i < listed.len() implies listed[i].id != id by {
        assert(after.contains_key(listed[i].id));
    }
}

/// An id once deleted is not handed out again: after a delete that removed
/// task `id` and a create, deleting `id` again reports false.
pub proof fn deleted_id_stays_gone(
    s0: Connection,
    s1: Connection,
    s2: Connection,
    s3: Connection,
    id: u64,
    t: TodoModel,
    second: bool,
)
    requires
        deleted(rows_of(s0), rows_of(s1), id, true),
        bounded(rows_of(s0), max_id_of(s0)),
        max_id_of(s1) == max_id_of(s0),
        created(s1, s2, t),
        deleted(rows_of(s2), rows_of(s3), id, second),
    ensures
        !second,
        t.id != id,
{
    assert(rows_of(s0).contains_key(id));
}
} // verus!
