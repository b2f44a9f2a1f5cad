use rusqlite::{Connection, OpenFlags};
use todo_store::store::{
    db_add_todo, db_delete_todo, db_get_todos, db_update_todo, init_db, StoreError,
};
use todo_store::task::{normalize_deadline, Todo};
use todo_store::timestamp::is_rfc3339;

fn now() -> String {
    chrono::Local::now().to_rfc3339()
}

fn setup_test_db() -> Connection {
    let mut conn = Connection::open_in_memory().unwrap();
    init_db(&mut conn).unwrap();
    conn
}

#[test]
fn test_add_and_get_todo() {
    let mut conn = setup_test_db();

    let todo = db_add_todo(
        &mut conn,
        "Test Todo".to_string(),
        Some("2023-12-31".to_string()),
        now(),
    )
    .unwrap();

    assert_eq!(todo.title, "Test Todo");
    assert_eq!(todo.completed, false);
    assert_eq!(todo.deadline, Some("2023-12-31".to_string()));

    let todos = db_get_todos(&conn).unwrap();
    assert_eq!(todos.len(), 1);
    assert_eq!(todos[0].title, "Test Todo");
}

#[test]
fn test_update_todo() {
    let mut conn = setup_test_db();
    let todo = db_add_todo(&mut conn, "Update Me".to_string(), None, now()).unwrap();

    let updated = db_update_todo(&mut conn, todo.id, None, Some(true), None).unwrap();
    assert!(updated);

    let todos = db_get_todos(&conn).unwrap();
    assert!(todos[0].completed);

    db_update_todo(&mut conn, todo.id, Some("Updated".to_string()), None, None).unwrap();
    let todos = db_get_todos(&conn).unwrap();
    assert_eq!(todos[0].title, "Updated");
}

#[test]
fn test_delete_todo() {
    let mut conn = setup_test_db();
    let todo = db_add_todo(&mut conn, "Delete Me".to_string(), None, now()).unwrap();

    let todos_before = db_get_todos(&conn).unwrap();
    assert_eq!(todos_before.len(), 1);

    let deleted = db_delete_todo(&mut conn, todo.id).unwrap();
    assert!(deleted);

    let todos_after = db_get_todos(&conn).unwrap();
    assert_eq!(todos_after.len(), 0);
}

#[test]
fn buy_milk_scenario() {
    let mut conn = setup_test_db();
    let todo = db_add_todo(&mut conn, "Buy milk".to_string(), None, now()).unwrap();
    assert_eq!(todo.id, 1);
    assert_eq!(todo.title, "Buy milk");
    assert!(!todo.completed);
    assert_eq!(todo.deadline, None);
    assert!(chrono::DateTime::parse_from_rfc3339(&todo.created_at).is_ok());

    assert!(db_update_todo(&mut conn, 1, None, Some(true), None).unwrap());
    let todos = db_get_todos(&conn).unwrap();
    assert_eq!(todos.len(), 1);
    assert_eq!(todos[0].id, 1);
    assert_eq!(todos[0].title, "Buy milk");
    assert!(todos[0].completed);
    assert_eq!(todos[0].deadline, None);
    assert_eq!(todos[0].created_at, todo.created_at);

    assert!(db_delete_todo(&mut conn, 1).unwrap());
    assert!(db_get_todos(&conn).unwrap().is_empty());
}

#[test]
fn created_ids_are_distinct_and_never_reused() {
    let mut conn = setup_test_db();
    let a = db_add_todo(&mut conn, "a".to_string(), None, now()).unwrap();
    let b = db_add_todo(&mut conn, "b".to_string(), None, now()).unwrap();
    assert_ne!(a.id, b.id);
    assert!(db_delete_todo(&mut conn, b.id).unwrap());
    let c = db_add_todo(&mut conn, "c".to_string(), None, now()).unwrap();
    assert_ne!(c.id, a.id);
    assert_ne!(c.id, b.id);
    assert_eq!(c.id, 3);
}

#[test]
fn create_round_trips_through_list() {
    let mut conn = setup_test_db();
    db_add_todo(&mut conn, "other".to_string(), None, now()).unwrap();
    let t = db_add_todo(&mut conn, "Read".to_string(), Some("2024-01-02".to_string()), now()).unwrap();
    let todos = db_get_todos(&conn).unwrap();
    let same: Vec<&Todo> = todos.iter().filter(|x| x.id == t.id).collect();
    assert_eq!(same.len(), 1);
    assert_eq!(same[0], &t);
    assert_eq!(same[0].deadline, Some("2024-01-02".to_string()));
}

#[test]
fn add_with_given_timestamp_stores_it() {
    let mut conn = setup_test_db();
    let t = db_add_todo(
        &mut conn,
        "Stamp".to_string(),
        None,
        "2024-05-06T07:08:09+02:00".to_string(),
    )
    .unwrap();
    assert_eq!(t.created_at, "2024-05-06T07:08:09+02:00");
    let todos = db_get_todos(&conn).unwrap();
    assert_eq!(todos, vec![t]);
}

#[test]
fn list_is_ordered_by_id() {
    let mut conn = setup_test_db();
    for name in ["x", "y", "z"] {
        db_add_todo(&mut conn, name.to_string(), None, now()).unwrap();
    }
    let ids: Vec<u64> = db_get_todos(&conn).unwrap().iter().map(|t| t.id).collect();
    assert_eq!(ids, vec![1, 2, 3]);
}

#[test]
fn empty_deadline_clears_it() {
    let mut conn = setup_test_db();
    let t = db_add_todo(&mut conn, "Due".to_string(), Some("2024-03-03".to_string()), now()).unwrap();
    assert!(db_update_todo(&mut conn, t.id, None, None, Some(String::new())).unwrap());
    let todos = db_get_todos(&conn).unwrap();
    assert_eq!(todos[0].deadline, None);
}

#[test]
fn nonempty_deadline_sets_it() {
    let mut conn = setup_test_db();
    let t = db_add_todo(&mut conn, "Due".to_string(), None, now()).unwrap();
    assert!(db_update_todo(&mut conn, t.id, None, None, Some("2025-01-01".to_string())).unwrap());
    assert_eq!(db_get_todos(&conn).unwrap()[0].deadline, Some("2025-01-01".to_string()));
}

#[test]
fn completing_keeps_title_and_deadline() {
    let mut conn = setup_test_db();
    let t = db_add_todo(&mut conn, "Keep".to_string(), Some("2024-07-07".to_string()), now()).unwrap();
    assert!(db_update_todo(&mut conn, t.id, None, Some(true), None).unwrap());
    let after = &db_get_todos(&conn).unwrap()[0];
    assert_eq!(after.title, "Keep");
    assert_eq!(after.deadline, Some("2024-07-07".to_string()));
    assert_eq!(after.created_at, t.created_at);
    assert!(after.completed);
}

#[test]
fn delete_twice_reports_false_second_time() {
    let mut conn = setup_test_db();
    let t = db_add_todo(&mut conn, "Once".to_string(), None, now()).unwrap();
    assert!(db_delete_todo(&mut conn, t.id).unwrap());
    assert!(db_get_todos(&conn).unwrap().iter().all(|x| x.id != t.id));
    assert!(!db_delete_todo(&mut conn, t.id).unwrap());
}

#[test]
fn update_missing_id_reports_true_and_changes_nothing() {
    let mut conn = setup_test_db();
    let t = db_add_todo(&mut conn, "Stay".to_string(), None, now()).unwrap();
    assert!(db_update_todo(&mut conn, 42, Some("X".to_string()), None, None).unwrap());
    let todos = db_get_todos(&conn).unwrap();
    assert_eq!(todos, vec![t]);
}

#[test]
fn update_without_fields_reports_false() {
    let mut conn = setup_test_db();
    let t = db_add_todo(&mut conn, "Same".to_string(), None, now()).unwrap();
    assert!(!db_update_todo(&mut conn, t.id, None, None, None).unwrap());
    assert_eq!(db_get_todos(&conn).unwrap(), vec![t]);
}

#[test]
fn empty_title_is_accepted() {
    let mut conn = setup_test_db();
    let t = db_add_todo(&mut conn, String::new(), None, now()).unwrap();
    assert_eq!(t.title, "");
    assert_eq!(db_get_todos(&conn).unwrap()[0].title, "");
}

#[test]
fn empty_store_lists_nothing() {
    let conn = setup_test_db();
    assert!(db_get_todos(&conn).unwrap().is_empty());
}

#[test]
fn init_is_idempotent() {
    let mut conn = setup_test_db();
    let t = db_add_todo(&mut conn, "Kept".to_string(), None, now()).unwrap();
    init_db(&mut conn).unwrap();
    assert_eq!(db_get_todos(&conn).unwrap(), vec![t]);
}

#[test]
fn list_without_schema_is_a_query_error() {
    let conn = Connection::open_in_memory().unwrap();
    assert!(matches!(db_get_todos(&conn), Err(StoreError::Query(_))));
}

#[test]
fn id_beyond_store_range_is_a_no_op() {
    let mut conn = setup_test_db();
    let t = db_add_todo(&mut conn, "Safe".to_string(), None, now()).unwrap();
    assert!(db_update_todo(&mut conn, u64::MAX, None, Some(true), None).unwrap());
    assert!(!db_delete_todo(&mut conn, u64::MAX).unwrap());
    assert_eq!(db_get_todos(&conn).unwrap(), vec![t]);
}

#[test]
fn update_without_fields_needs_no_store() {
    let mut conn = Connection::open_in_memory().unwrap();
    assert!(!db_update_todo(&mut conn, 1, None, None, None).unwrap());
}

#[test]
fn update_failing_partway_keeps_later_fields() {
    let mut conn = setup_test_db();
    let t = db_add_todo(&mut conn, "Part".to_string(), Some("2024-02-02".to_string()), now())
        .unwrap();
    conn.execute(
        "CREATE TRIGGER no_completion BEFORE UPDATE OF completed ON todos \
         BEGIN SELECT RAISE(ABORT, 'refused'); END",
        [],
    )
    .unwrap();
    let r = db_update_todo(
        &mut conn,
        t.id,
        Some("New".to_string()),
        Some(true),
        Some(String::new()),
    );
    assert!(matches!(r, Err(StoreError::Query(_))));
    let after = &db_get_todos(&conn).unwrap()[0];
    assert_eq!(after.title, "New");
    assert!(!after.completed);
    assert_eq!(after.deadline, Some("2024-02-02".to_string()));
}

#[test]
fn deleted_id_is_not_handed_out_again() {
    let mut conn = setup_test_db();
    let a = db_add_todo(&mut conn, "a".to_string(), None, now()).unwrap();
    assert!(db_delete_todo(&mut conn, a.id).unwrap());
    let b = db_add_todo(&mut conn, "b".to_string(), None, now()).unwrap();
    assert_ne!(a.id, b.id);
    assert!(!db_delete_todo(&mut conn, a.id).unwrap());
    assert_eq!(db_get_todos(&conn).unwrap(), vec![b]);
}

#[test]
fn schema_on_read_only_store_is_an_init_error() {
    let mut conn = Connection::open_in_memory_with_flags(OpenFlags::SQLITE_OPEN_READ_ONLY).unwrap();
    assert!(matches!(init_db(&mut conn), Err(StoreError::Init(_))));
}

#[test]
fn normalize_deadline_maps_empty_to_none() {
    assert_eq!(normalize_deadline(String::new()), None);
    assert_eq!(normalize_deadline("2024-01-01".to_string()), Some("2024-01-01".to_string()));
}

#[test]
fn rfc3339_shapes_are_recognised() {
    assert!(is_rfc3339("2024-05-06T07:08:09+02:00"));
    assert!(is_rfc3339("2024-05-06T07:08:09.123456789-05:30"));
    assert!(is_rfc3339("2024-05-06T07:08:09Z"));
    assert!(is_rfc3339(&now()));
}

#[test]
fn non_rfc3339_shapes_are_rejected() {
    assert!(!is_rfc3339(""));
    assert!(!is_rfc3339("2024-05-06"));
    assert!(!is_rfc3339("2024-05-06T07:08:09"));
    assert!(!is_rfc3339("2024-05-06 07:08:09+02:00"));
    assert!(!is_rfc3339("2024-05-06T07:08:09.+02:00"));
    assert!(!is_rfc3339("2024-05-06T07:08:09.5x+02:00"));
    assert!(!is_rfc3339("2024-05-06T07:08:09+0200"));
}

#[test]
fn created_at_is_rfc3339() {
    let mut conn = setup_test_db();
    let t = db_add_todo(&mut conn, "When".to_string(), None, now()).unwrap();
    assert!(chrono::DateTime::parse_from_rfc3339(&t.created_at).is_ok());
    assert!(is_rfc3339(&t.created_at));
}
