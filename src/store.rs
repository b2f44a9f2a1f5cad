//! The task repository over one SQLite connection.
//!
//! The table `todos` behind a connection is modelled by `rows_of`, a map from
//! id to row, and `max_id_of`, the largest id that the table has ever handed
//! out (the AUTOINCREMENT sequence). Each SQL statement that the repository
//! runs has one trusted wrapper whose contract states its effect on that
//! model; the repository operations are verified against those contracts.
use vstd::prelude::*;
use rusqlite::Connection;
use crate::timestamp::rfc3339_text;
use crate::task::{
    deadline_value, lists_table, normalize_deadline, opt_view, todos_view,
    TableModel, Todo, TodoModel,
};

verus! {

#[verifier::external_type_specification]
#[verifier::external_body]
pub struct ExConnection(rusqlite::Connection);

#[verifier::external_type_specification]
#[verifier::external_body]
pub struct ExSqlError(rusqlite::Error);

/// The rows of table `todos` behind a connection, keyed by id; empty while
/// the table does not exist. The connection is taken to be the only writer
/// of its database, and an existing `todos` table to have the schema that
/// `init_db` creates (with AUTOINCREMENT, so that no id is handed out twice).
pub uninterp spec fn rows_of(c: rusqlite::Connection) -> Map<u64, (Seq<char>, bool, Seq<char>, Option<Seq<char>>)>;

/// The AUTOINCREMENT counter of table `todos`: the largest id that it has
/// ever held (0 before the first row).
pub uninterp spec fn max_id_of(c: rusqlite::Connection) -> u64;

/// A failure of the store, by the step that failed.
#[derive(Debug)]
pub enum StoreError {
    /// The schema could not be created.
    Init(rusqlite::Error),
    /// A select, insert, update or delete failed.
    Query(rusqlite::Error),
}

/// One row as read by the select: id, title, completed, created_at, deadline.
pub type RawRow = (u64, String, bool, String, Option<String>);

/// The task that a row read by the select stands for.
pub open spec fn raw_model(r: RawRow) -> TodoModel {
    TodoModel { id: r.0, title: r.1@, completed: r.2, created_at: r.3@, deadline: opt_view(r.4) }
}

/// The views of rows read by the select.
pub open spec fn raw_view(v: Seq<RawRow>) -> Seq<TodoModel> {
    v.map_values(|r: RawRow| raw_model(r))
}

/// `t` with the title of task `id` set to `s`, where that task exists.
pub open spec fn with_title(t: TableModel, id: u64, s: Seq<char>) -> TableModel {
    if t.contains_key(id) {
        t.insert(id, (s, t[id].1, t[id].2, t[id].3))
    } else {
        t
    }
}

/// `t` with the completion flag of task `id` set to `c`, where that task exists.
pub open spec fn with_completed(t: TableModel, id: u64, c: bool) -> TableModel {
    if t.contains_key(id) {
        t.insert(id, (t[id].0, c, t[id].2, t[id].3))
    } else {
        t
    }
}

/// `t` with the deadline of task `id` set to `d`, where that task exists.
pub open spec fn with_deadline(t: TableModel, id: u64, d: Option<Seq<char>>) -> TableModel {
    if t.contains_key(id) {
        t.insert(id, (t[id].0, t[id].1, t[id].2, d))
    } else {
        t
    }
}

/// The table after a partial update of task `id`: each field given is set
/// (an empty deadline text clears the deadline), the others are kept, and a
/// missing id leaves the table as it is.
pub open spec fn updated_table(
    t: TableModel,
    id: u64,
    title: Option<Seq<char>>,
    completed: Option<bool>,
    deadline: Option<Seq<char>>,
) -> TableModel {
    if t.contains_key(id) {
        let row = t[id];
        t.insert(
            id,
            (
                match title {
                    Some(s) => s,
                    None => row.0,
                },
                match completed {
                    Some(c) => c,
                    None => row.1,
                },
                row.2,
                match deadline {
                    Some(d) => deadline_value(d),
                    None => row.3,
                },
            ),
        )
    } else {
        t
    }
}

/// The largest row id that SQLite can store; no row has a larger id.
pub const MAX_ROW_ID: u64 = 9223372036854775807;

/// Every id in table `t` is at most `m`.
pub open spec fn bounded(t: TableModel, m: u64) -> bool {
    forall|k: u64| #[trigger] t.contains_key(k) ==> k <= m
}

/// A create turned connection state `before` into `after` and produced `t`:
/// `t` has a fresh id, above every id handed out before (1 in a table that
/// never held a row), and its row is added.
pub open spec fn created(before: Connection, after: Connection, t: TodoModel) -> bool {
    &&& t.id > max_id_of(before)
    &&& max_id_of(after) == t.id
    &&& max_id_of(before) == 0 ==> t.id == 1
    &&& !rows_of(before).contains_key(t.id)
    &&& rows_of(after) == rows_of(before).insert(t.id, t.row())
    &&& bounded(rows_of(before), max_id_of(before))
    &&& bounded(rows_of(after), max_id_of(after))
}

/// An update of task `id` turned table `before` into `after` and reported `r`:
/// `r` tells whether any field was given, not whether a row matched.
pub open spec fn updated(
    before: TableModel,
    after: TableModel,
    id: u64,
    title: Option<Seq<char>>,
    completed: Option<bool>,
    deadline: Option<Seq<char>>,
    r: bool,
) -> bool {
    &&& r == (title is Some || completed is Some || deadline is Some)
    &&& after == updated_table(before, id, title, completed, deadline)
}

/// What a partial update that failed partway left of table `before`: the
/// fields are written in the order title, completed, deadline, each by one
/// statement, and a failing statement changes nothing.
pub open spec fn partly_updated(
    before: TableModel,
    after: TableModel,
    id: u64,
    title: Option<Seq<char>>,
    completed: Option<bool>,
) -> bool {
    ||| after == before
    ||| after == updated_table(before, id, title, None, None)
    ||| after == updated_table(before, id, title, completed, None)
}

/// A delete of task `id` turned table `before` into `after` and reported `r`:
/// `r` tells whether a row was removed.
pub open spec fn deleted(before: TableModel, after: TableModel, id: u64, r: bool) -> bool {
    &&& r == before.contains_key(id)
    &&& after == before.remove(id)
}

/// Relies on `Connection::execute` running `CREATE TABLE IF NOT EXISTS`:
/// an existing table is left as it is, a new one starts empty, and a failing
/// statement changes nothing.
#[verifier::external_body]
fn exec_create_table(conn: &mut Connection) -> (r: Result<usize, rusqlite::Error>)
    ensures
        rows_of(*final(conn)) == rows_of(*old(conn)),
        max_id_of(*final(conn)) == max_id_of(*old(conn)),
{
    conn.execute(
        "CREATE TABLE IF NOT EXISTS todos (
            id INTEGER PRIMARY KEY AUTOINCREMENT,
            title TEXT NOT NULL,
            completed BOOLEAN NOT NULL DEFAULT 0,
            created_at TEXT NOT NULL,
            deadline TEXT
        )",
        [],
    )
}

/// Relies on `Connection::prepare`, `Statement::query_map` and `Row::get`
/// reading every row of `todos`, ordered by id (the primary key, so each id
/// once), with each column as stored.
#[verifier::external_body]
fn select_all(conn: &Connection) -> (r: Result<Vec<RawRow>, rusqlite::Error>)
    ensures
        r matches Ok(v) ==> lists_table(raw_view(v@), rows_of(*conn)),
{
    let mut stmt = conn.prepare(
        "SELECT id, title, completed, created_at, deadline FROM todos ORDER BY id",
    )?;
    let rows = stmt.query_map([], |row| {
        Ok((row.get(0)?, row.get(1)?, row.get(2)?, row.get(3)?, row.get(4)?))
    })?;
    let all: Result<Vec<RawRow>, rusqlite::Error> = rows.collect();
    all
}

/// Relies on `Connection::execute` running the insert, then
/// `Connection::last_insert_rowid` giving the id that AUTOINCREMENT chose:
/// above every id that the table has held, and 1 in a table that never held
/// a row. No row has an id above the AUTOINCREMENT counter. A failing insert
/// changes nothing.
#[verifier::external_body]
fn exec_insert(
    conn: &mut Connection,
    title: &String,
    completed: bool,
    created_at: &String,
    deadline: &Option<String>,
) -> (r: Result<i64, rusqlite::Error>)
    ensures
        r matches Ok(n) ==> {
            &&& 0 < n
            &&& n as u64 > max_id_of(*old(conn))
            &&& max_id_of(*old(conn)) == 0 ==> n == 1
            &&& max_id_of(*final(conn)) == n as u64
            &&& !rows_of(*old(conn)).contains_key(n as u64)
            &&& rows_of(*final(conn)) == rows_of(*old(conn)).insert(
                n as u64,
                (title@, completed, created_at@, opt_view(*deadline)),
            )
            &&& bounded(rows_of(*old(conn)), max_id_of(*old(conn)))
            &&& bounded(rows_of(*final(conn)), max_id_of(*final(conn)))
        },
        r is Err ==> rows_of(*final(conn)) == rows_of(*old(conn)) && max_id_of(*final(conn))
            == max_id_of(*old(conn)),
{
    match conn.execute(
        "INSERT INTO todos (title, completed, created_at, deadline) VALUES (?1, ?2, ?3, ?4)",
        (title, completed, created_at, deadline),
    ) {
        Ok(_) => Ok(conn.last_insert_rowid()),
        Err(e) => Err(e),
    }
}

/// Relies on `Connection::execute` running `UPDATE todos SET title`; a
/// failing statement changes nothing.
#[verifier::external_body]
fn exec_set_title(conn: &mut Connection, id: u64, title: &String) -> (r: Result<
    usize,
    rusqlite::Error,
>)
    ensures
        r is Ok ==> rows_of(*final(conn)) == with_title(rows_of(*old(conn)), id, title@),
        r is Err ==> rows_of(*final(conn)) == rows_of(*old(conn)),
        max_id_of(*final(conn)) == max_id_of(*old(conn)),
{
    conn.execute("UPDATE todos SET title = ?1 WHERE id = ?2", (title, id))
}

/// Relies on `Connection::execute` running `UPDATE todos SET completed`; a
/// failing statement changes nothing.
#[verifier::external_body]
fn exec_set_completed(conn: &mut Connection, id: u64, completed: bool) -> (r: Result<
    usize,
    rusqlite::Error,
>)
    ensures
        r is Ok ==> rows_of(*final(conn)) == with_completed(rows_of(*old(conn)), id, completed),
        r is Err ==> rows_of(*final(conn)) == rows_of(*old(conn)),
        max_id_of(*final(conn)) == max_id_of(*old(conn)),
{
    conn.execute("UPDATE todos SET completed = ?1 WHERE id = ?2", (completed, id))
}

/// Relies on `Connection::execute` running `UPDATE todos SET deadline`
/// (`None` stores NULL); a failing statement changes nothing.
#[verifier::external_body]
fn exec_set_deadline(conn: &mut Connection, id: u64, deadline: &Option<String>) -> (r: Result<
    usize,
    rusqlite::Error,
>)
    ensures
        r is Ok ==> rows_of(*final(conn)) == with_deadline(
            rows_of(*old(conn)),
            id,
            opt_view(*deadline),
        ),
        r is Err ==> rows_of(*final(conn)) == rows_of(*old(conn)),
        max_id_of(*final(conn)) == max_id_of(*old(conn)),
{
    conn.execute("UPDATE todos SET deadline = ?1 WHERE id = ?2", (deadline, id))
}

/// Relies on `Connection::execute` running `DELETE FROM todos` by primary
/// key and returning the number of rows removed; a failing statement changes
/// nothing. No row has an id above the AUTOINCREMENT counter.
#[verifier::external_body]
fn exec_delete(conn: &mut Connection, id: u64) -> (r: Result<usize, rusqlite::Error>)
    ensures
        r matches Ok(n) ==> {
            &&& n == (if rows_of(*old(conn)).contains_key(id) { 1usize } else { 0usize })
            &&& rows_of(*final(conn)) == rows_of(*old(conn)).remove(id)
            &&& bounded(rows_of(*old(conn)), max_id_of(*old(conn)))
        },
        r is Err ==> rows_of(*final(conn)) == rows_of(*old(conn)),
        max_id_of(*final(conn)) == max_id_of(*old(conn)),
{
    conn.execute("DELETE FROM todos WHERE id = ?1", (id,))
}

/// Ensures that table `todos` exists; safe to run each time the store is
/// opened. A failure here is fatal to startup.
pub fn init_db(conn: &mut Connection) -> (r: Result<(), StoreError>)
    ensures
        rows_of(*final(conn)) == rows_of(*old(conn)),
        max_id_of(*final(conn)) == max_id_of(*old(conn)),
        r is Err ==> r->Err_0 is Init,
{
    match exec_create_table(conn) {
        Ok(_) => Ok(()),
        Err(e) => Err(StoreError::Init(e)),
    }
}

/// Lists every task in the store, in ascending order of id.
pub fn db_get_todos(conn: &Connection) -> (r: Result<Vec<Todo>, StoreError>)
    ensures
        r matches Ok(v) ==> lists_table(todos_view(v@), rows_of(*conn)),
        r is Err ==> r->Err_0 is Query,
{
    let rows = match select_all(conn) {
        Ok(rows) => rows,
        Err(e) => {
            return Err(StoreError::Query(e));
        },
    };
    let mut todos: Vec<Todo> = Vec::new();
    let mut i: usize = 0;
    while i < rows.len()
        invariant
            i <= rows@.len(),
            todos_view(todos@) == raw_view(rows@).take(i as int),
        decreases rows@.len() - i,
    {
        let row = &rows[i];
        let deadline = match &row.4 {
            Some(d) => Some(d.clone()),
            None => None,
        };
        assert(opt_view(deadline) == opt_view(row.4));
        let todo = Todo {
            id: row.0,
            title: row.1.clone(),
            completed: row.2,
            created_at: row.3.clone(),
            deadline,
        };
        assert(todo@ == raw_model(rows@[i as int]));
        let ghost before = todos@;
        todos.push(todo);
        proof {
            assert(todos@ == before.push(todo));
            assert(todos_view(todos@) =~= todos_view(before).push(todo@));
            assert(raw_view(rows@).take(i + 1) =~= raw_view(rows@).take(i as int).push(
                raw_model(rows@[i as int]),
            ));
        }
        i = i + 1;
    }
    proof {
        assert(raw_view(rows@).take(rows@.len() as int) =~= raw_view(rows@));
    }
    Ok(todos)
}

/// Creates a task with the given title and deadline, stamped `created_at`
/// (the local time of the call, in RFC 3339 form): it is not completed, and
/// the store gives it a fresh id. The task returned is exactly what was
/// stored; a failed insert changes nothing.
pub fn db_add_todo(
    conn: &mut Connection,
    title: String,
    deadline: Option<String>,
    created_at: String,
) -> (r: Result<Todo, StoreError>)
    requires
        rfc3339_text(created_at@),
    ensures
        r matches Ok(t) ==> {
            &&& t.title@ == title@
            &&& !t.completed
            &&& t.created_at@ == created_at@
            &&& rfc3339_text(t.created_at@)
            &&& opt_view(t.deadline) == opt_view(deadline)
            &&& created(*old(conn), *final(conn), t@)
        },
        r is Err ==> r->Err_0 is Query && rows_of(*final(conn)) == rows_of(*old(conn))
            && max_id_of(*final(conn)) == max_id_of(*old(conn)),
{
    match exec_insert(conn, &title, false, &created_at, &deadline) {
        Ok(n) => {
            let id = n as u64;
            Ok(Todo { id, title, completed: false, created_at, deadline })
        },
        Err(e) => Err(StoreError::Query(e)),
    }
}

/// Applies a partial update to task `id`: each field given is set, an empty
/// deadline text clears the deadline, and fields not given are kept. Returns
/// whether any field was given, whether or not a task has that id; with no
/// field given, or an id that no row can have, the store is not touched. The
/// fields are written one statement each, so a failure may leave earlier
/// ones written and leaves later ones as they were.
pub fn db_update_todo(
    conn: &mut Connection,
    id: u64,
    title: Option<String>,
    completed: Option<bool>,
    deadline: Option<String>,
) -> (r: Result<bool, StoreError>)
    ensures
        id <= MAX_ROW_ID ==> (r matches Ok(b) ==> updated(
            rows_of(*old(conn)),
            rows_of(*final(conn)),
            id,
            opt_view(title),
            completed,
            opt_view(deadline),
            b,
        )),
        (title is None && completed is None && deadline is None) || id > MAX_ROW_ID ==> {
            &&& (r matches Ok(b) && b == (title is Some || completed is Some || deadline is Some))
            &&& rows_of(*final(conn)) == rows_of(*old(conn))
        },
        r is Err ==> r->Err_0 is Query && partly_updated(
            rows_of(*old(conn)),
            rows_of(*final(conn)),
            id,
            opt_view(title),
            completed,
        ),
        max_id_of(*final(conn)) == max_id_of(*old(conn)),
{
    let ghost t0 = rows_of(*conn);
    if id > MAX_ROW_ID {
        return Ok(title.is_some() || completed.is_some() || deadline.is_some());
    }
    let mut success = false;
    if let Some(t) = &title {
        match exec_set_title(conn, id, t) {
            Ok(_) => {},
            Err(e) => {
                return Err(StoreError::Query(e));
            },
        }
        success = true;
    }
    assert(rows_of(*conn) =~= updated_table(t0, id, opt_view(title), None, None));
    if let Some(c) = completed {
        match exec_set_completed(conn, id, c) {
            Ok(_) => {},
            Err(e) => {
                return Err(StoreError::Query(e));
            },
        }
        success = true;
    }
    assert(rows_of(*conn) =~= updated_table(t0, id, opt_view(title), completed, None));
    if let Some(d) = deadline {
        let ghost dv = d@;
        let val = normalize_deadline(d);
        match exec_set_deadline(conn, id, &val) {
            Ok(_) => {},
            Err(e) => {
                return Err(StoreError::Query(e));
            },
        }
        assert(opt_view(val) == deadline_value(dv));
        success = true;
    }
    proof {
        assert(rows_of(*conn) =~= updated_table(
            t0,
            id,
            opt_view(title),
            completed,
            opt_view(deadline),
        ));
    }
    Ok(success)
}

/// Removes task `id`. Returns whether a task was removed; an id that no row
/// can have is not looked up, and a failed delete changes nothing.
pub fn db_delete_todo(conn: &mut Connection, id: u64) -> (r: Result<bool, StoreError>)
    ensures
        id <= MAX_ROW_ID ==> (r matches Ok(b) ==> deleted(
            rows_of(*old(conn)),
            rows_of(*final(conn)),
            id,
            b,
        ) && bounded(rows_of(*old(conn)), max_id_of(*old(conn)))),
        id > MAX_ROW_ID ==> (r matches Ok(b) && !b),
        r is Err ==> r->Err_0 is Query,
        r is Err || id > MAX_ROW_ID ==> rows_of(*final(conn)) == rows_of(*old(conn)),
        max_id_of(*final(conn)) == max_id_of(*old(conn)),
{
    if id > MAX_ROW_ID {
        return Ok(false);
    }
    match exec_delete(conn, id) {
        Ok(n) => Ok(n > 0),
        Err(e) => Err(StoreError::Query(e)),
    }
}

} // verus!
