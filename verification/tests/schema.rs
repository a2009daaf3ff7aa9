//! Migrations of the database.

use symdex_store::error::{BadColumn, StoreError};
use symdex_store::schema::{compatibility_columns, SCHEMA};
use symdex_store::sql::{Command, Row, SqlValue};
use symdex_store::store::SqliteStore;

fn text(value: &str) -> SqlValue {
    SqlValue::Text(value.to_owned())
}

fn column(name: &str) -> Row {
    vec![SqlValue::Integer(0), text(name)]
}

#[test]
fn columns_are_added_once() {
    for column_to_add in compatibility_columns() {
        let question = SqliteStore::column_exists(column_to_add.table)
            .expect("the table should be asked for");
        assert_eq!(question.sql, format!("PRAGMA table_info({})", column_to_add.table));
        let before = vec![column("id")];
        let addition = SqliteStore::ensure_column(&column_to_add, &before)
            .expect("columns should be read")
            .expect("the column should be added");
        assert!(addition.sql.contains(column_to_add.table));
        assert!(addition.sql.contains(column_to_add.name));
        let after = vec![column("id"), column(column_to_add.name)];
        assert_eq!(SqliteStore::ensure_column(&column_to_add, &after), Ok(None));
    }
}

#[test]
fn other_table_names_are_not_asked_for() {
    assert_eq!(
        SqliteStore::column_exists("files; DROP TABLE files"),
        Err(StoreError::UnexpectedResponse(
            "invalid SQLite table name `files; DROP TABLE files`".to_owned()
        ))
    );
    assert_eq!(SqliteStore::has_column(&vec![column("a")], "b"), Ok(false));
    assert_eq!(
        SqliteStore::has_column(&vec![vec![SqlValue::Null]], "b"),
        Err(StoreError::Column(BadColumn::Missing { index: 1 }))
    );
}

#[test]
fn index_names_are_quoted() {
    assert_eq!(
        SqliteStore::index_columns("sqlite_autoindex_files_1").sql,
        "PRAGMA index_info(\"sqlite_autoindex_files_1\")"
    );
    assert_eq!(
        SqliteStore::index_columns("a\"b\"\"").sql,
        "PRAGMA index_info(\"a\"\"b\"\"\"\"\")"
    );
}

#[test]
fn files_are_rebuilt_where_their_path_is_unique() {
    let columns = |names: &[&str]| -> Vec<Row> {
        names
            .iter()
            .map(|name| vec![SqlValue::Integer(0), SqlValue::Integer(0), text(name)])
            .collect()
    };
    assert_eq!(
        SqliteStore::makes_path_unique(&columns(&["repository_id", "path"])),
        Ok(true)
    );
    assert_eq!(
        SqliteStore::makes_path_unique(&columns(&["path", "repository_id"])),
        Ok(false)
    );
    assert_eq!(SqliteStore::makes_path_unique(&columns(&["repository_id"])), Ok(false));
    assert_eq!(
        SqliteStore::makes_path_unique(&columns(&["repository_id", "path", "id"])),
        Ok(false)
    );
    assert_eq!(SqliteStore::ensure_content_addressed_files(true).len(), 2);
    assert_eq!(SqliteStore::ensure_content_addressed_files(false).len(), 1);
    assert_eq!(SqliteStore::migrate(), [Command::Batch(SCHEMA.to_owned())]);
}

#[test]
fn the_journal_mode_is_set_for_new_databases_only() {
    let keys = Command::Batch("PRAGMA foreign_keys = ON;".to_owned());
    let journal = Command::Batch("PRAGMA journal_mode = WAL;".to_owned());
    assert_eq!(SqliteStore::opening(true), [keys.clone(), journal]);
    assert_eq!(SqliteStore::opening(false), [keys]);
}
