//! A small task-tracking store: task records kept in one SQLite table, with
//! create, list, update and delete operations whose effect on the table is
//! stated over a mathematical model of its rows.
pub mod task;
pub mod store;
pub mod laws;
pub mod timestamp;
