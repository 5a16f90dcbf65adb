use rusqlite::Connection;
use sealion::columns::column_diagnostics;
use sealion::columns::column_mismatch_messages;
use sealion::rows::collect_rows;
use sealion::rows::partition_rows;
use sealion::text::eq_ignore_ascii_case;
use sealion::text::join_strings;
use sealion::Record;
use sealion::SealionError;
use sealion::SelectQuery;

#[derive(Debug, PartialEq, Eq)]
struct TestRow {
    id: i64,
    name: String,
    optional: Option<String>,
}

impl Record for TestRow {
    fn columns() -> Vec<String> {
        vec!["id".to_string(), "name".to_string(), "optional".to_string()]
    }

    fn parse_row(row: &rusqlite::Row) -> rusqlite::Result<Self> {
        Ok(Self { id: row.get(0)?, name: row.get(1)?, optional: row.get(2)? })
    }
}

fn setup_test_db() -> Connection {
    let connection = rusqlite::Connection::open_in_memory().unwrap();
    connection
        .execute(
            "CREATE TABLE test_table (id INTEGER PRIMARY KEY, name TEXT NOT NULL, optional TEXT)",
            [],
        )
        .unwrap();
    let rows_modified = connection
        .execute(
            r#" INSERT INTO test_table (id, name, optional) VALUES
            (0, "Orange", "Strawberry"),
            (1, "Apple", NULL),
            (2, "Peach", "Raspberry")"#,
            [],
        )
        .unwrap();
    assert_eq!(rows_modified, 3, "Test data has not been created properly.");
    connection
}

/// A table whose `name` column is nullable, holding a NULL in the second of
/// three rows, so that the non-nullable `TestRow::name` fails to parse there.
fn setup_malformed_db() -> Connection {
    let connection = rusqlite::Connection::open_in_memory().unwrap();
    connection
        .execute(
            "CREATE TABLE test_table (id INTEGER PRIMARY KEY, name TEXT, optional TEXT)",
            [],
        )
        .unwrap();
    let rows_modified = connection
        .execute(
            r#" INSERT INTO test_table (id, name, optional) VALUES
            (0, "Orange", "Strawberry"),
            (1, NULL, NULL),
            (2, "Peach", "Raspberry")"#,
            [],
        )
        .unwrap();
    assert_eq!(rows_modified, 3, "Test data has not been created properly.");
    connection
}

#[test]
fn select_low_level() {
    let connection = setup_test_db();

    let mut statement = connection
        .prepare("SELECT id, name, optional FROM test_table")
        .unwrap();
    let (mut rows_iter, _diagnostics) =
        sealion::from_statement::<TestRow, _>(&mut statement, []).unwrap();
    let mut rows: Vec<rusqlite::Result<TestRow>> = Vec::new();
    while let Some(row) = rows_iter.next_row() {
        rows.push(row);
    }
    assert_eq!(
        rows,
        vec![
            Ok(TestRow { id: 0, name: "Orange".to_string(), optional: Some("Strawberry".to_string()) }),
            Ok(TestRow { id: 1, name: "Apple".to_string(), optional: None }),
            Ok(TestRow { id: 2, name: "Peach".to_string(), optional: Some("Raspberry".to_string()) })
        ]
    );
}

#[test]
fn select_with_query() {
    let connection = setup_test_db();

    let (rows, _diagnostics) = SelectQuery::new("test_table")
        .execute::<TestRow>(&connection)
        .unwrap();
    assert_eq!(
        rows,
        vec![
            TestRow { id: 0, name: "Orange".to_string(), optional: Some("Strawberry".to_string()) },
            TestRow { id: 1, name: "Apple".to_string(), optional: None },
            TestRow { id: 2, name: "Peach".to_string(), optional: Some("Raspberry".to_string()) }
        ]
    );
}

#[test]
fn execute_collect_errors_partitions_row_failures() {
    let connection = setup_malformed_db();

    let (rows, errors, diagnostics) = SelectQuery::new("test_table")
        .execute_collect_errors::<TestRow>(&connection)
        .unwrap();
    // The statement's shape matches the record type's declaration, so the
    // count is silent and every name pair is flagged (the checker's
    // historical behaviour).
    assert_eq!(diagnostics.count_mismatch, None);
    assert_eq!(
        diagnostics.name_mismatch,
        Some("id != id, name != name, optional != optional".to_string())
    );
    assert_eq!(
        rows,
        vec![
            TestRow { id: 0, name: "Orange".to_string(), optional: Some("Strawberry".to_string()) },
            TestRow { id: 2, name: "Peach".to_string(), optional: Some("Raspberry".to_string()) }
        ]
    );
    assert_eq!(errors.len(), 1);
    assert!(matches!(errors[0], SealionError::RusqliteError(_)));
}

#[test]
fn execute_fails_fast_on_row_failure() {
    let connection = setup_malformed_db();

    let result = SelectQuery::new("test_table").execute::<TestRow>(&connection);
    assert!(matches!(result, Err(SealionError::RusqliteError(_))));
}

#[test]
fn execute_reports_statement_level_error() {
    let connection = rusqlite::Connection::open_in_memory().unwrap();

    let result = SelectQuery::new("no_such_table").execute::<TestRow>(&connection);
    assert!(matches!(result, Err(SealionError::RusqliteError(_))));
}

#[test]
fn column_count_mismatch_is_advisory_only() {
    let connection = setup_test_db();

    // The record type declares three columns; the statement selects two.
    let mut statement = connection.prepare("SELECT id, name FROM test_table").unwrap();
    let result = sealion::from_statement::<TestRow, _>(&mut statement, []);
    // No error is raised by the call itself: only the per-row parse function
    // may fail when it indexes the missing column.
    let (mut rows_iter, diagnostics) = result.unwrap();
    // The diagnostics report the shape the driver saw: two columns where the
    // record type declares three, and the matching name pairs flagged.
    assert_eq!(diagnostics.count_mismatch, Some((3, 2)));
    assert_eq!(diagnostics.name_mismatch, Some("id != id, name != name".to_string()));
    let mut rows: Vec<rusqlite::Result<TestRow>> = Vec::new();
    while let Some(row) = rows_iter.next_row() {
        rows.push(row);
    }
    assert_eq!(rows.len(), 3);
    for row in rows {
        assert!(row.is_err());
    }
}

#[test]
fn column_diagnostics_reports_count_and_names() {
    let actual = vec!["id".to_string(), "name".to_string()];
    let expected = vec!["id".to_string(), "name".to_string(), "optional".to_string()];
    let diagnostics = column_diagnostics(2, &actual, &expected);
    assert_eq!(diagnostics.count_mismatch, Some((3, 2)));
    // Pairs equal up to ASCII case are the ones flagged (the checker's
    // historical behaviour, preserved literally).
    assert_eq!(diagnostics.name_mismatch, Some("id != id, name != name".to_string()));
}

#[test]
fn column_diagnostics_silent_on_differing_names() {
    let actual = vec!["rowid".to_string(), "label".to_string()];
    let expected = vec!["id".to_string(), "name".to_string()];
    let diagnostics = column_diagnostics(2, &actual, &expected);
    assert_eq!(diagnostics.count_mismatch, None);
    assert_eq!(diagnostics.name_mismatch, None);
}

#[test]
fn mismatch_messages_flag_case_insensitive_matches() {
    assert_eq!(
        column_mismatch_messages(&vec!["ID".to_string()], &vec!["id".to_string()]),
        vec!["ID != id".to_string()]
    );
    assert_eq!(
        column_mismatch_messages(&vec!["a".to_string()], &vec!["b".to_string()]),
        Vec::<String>::new()
    );
    // Compared up to the shorter list's length.
    assert_eq!(
        column_mismatch_messages(
            &vec!["x".to_string(), "y".to_string()],
            &vec!["x".to_string()]
        ),
        vec!["x != x".to_string()]
    );
}

#[test]
fn build_sql_without_where_clause() {
    let query = SelectQuery::new("t");
    let columns = vec!["id".to_string(), "name".to_string()];
    let sql = query.build_sql_string(&columns).unwrap();
    assert_eq!(sql, "SELECT id, name FROM t ");
}

#[test]
fn build_sql_with_where_clause() {
    let mut query = SelectQuery::new("t");
    query.where_("id = 1");
    let columns = vec!["id".to_string(), "name".to_string()];
    let sql = query.build_sql_string(&columns).unwrap();
    assert_eq!(sql, "SELECT id, name FROM t WHERE id = 1");
}

#[test]
fn build_sql_is_idempotent() {
    let mut query = SelectQuery::new("t");
    query.where_("id = 1");
    let columns = vec!["id".to_string(), "name".to_string()];
    let first = query.build_sql_string(&columns).unwrap();
    let second = query.build_sql_string(&columns).unwrap();
    assert_eq!(first, second);
}

#[test]
fn build_sql_with_empty_columns() {
    let query = SelectQuery::new("t");
    let sql = query.build_sql_string(&Vec::new()).unwrap();
    assert_eq!(sql, "SELECT  FROM t ");
}

#[test]
fn collect_rows_keeps_all_on_success() {
    let results: Vec<rusqlite::Result<u64>> = vec![Ok(1), Ok(2), Ok(3)];
    let collected = collect_rows(results).unwrap();
    assert_eq!(collected, vec![1, 2, 3]);
}

#[test]
fn collect_rows_returns_first_error() {
    let results: Vec<rusqlite::Result<u64>> = vec![
        Ok(1),
        Err(rusqlite::Error::InvalidColumnIndex(7)),
        Err(rusqlite::Error::InvalidColumnIndex(9)),
    ];
    match collect_rows(results) {
        Err(SealionError::RusqliteError(rusqlite::Error::InvalidColumnIndex(i))) => {
            assert_eq!(i, 7);
        },
        other => panic!("expected the first row error, got {:?}", other),
    }
}

#[test]
fn partition_rows_keeps_order_on_both_sides() {
    let results: Vec<rusqlite::Result<u64>> = vec![
        Ok(1),
        Err(rusqlite::Error::InvalidColumnIndex(7)),
        Ok(3),
        Err(rusqlite::Error::InvalidColumnIndex(9)),
    ];
    let (values, errors) = partition_rows(results);
    assert_eq!(values, vec![1, 3]);
    assert_eq!(errors.len(), 2);
    match &errors[0] {
        SealionError::RusqliteError(rusqlite::Error::InvalidColumnIndex(i)) => assert_eq!(*i, 7),
        other => panic!("expected a driver error, got {:?}", other),
    }
    match &errors[1] {
        SealionError::RusqliteError(rusqlite::Error::InvalidColumnIndex(i)) => assert_eq!(*i, 9),
        other => panic!("expected a driver error, got {:?}", other),
    }
}

#[test]
fn io_error_variant_is_constructible() {
    let error = SealionError::IoError(std::fmt::Error);
    assert!(matches!(error, SealionError::IoError(_)));
}

#[test]
fn case_insensitive_equality() {
    assert!(eq_ignore_ascii_case("AbC", "aBc"));
    assert!(!eq_ignore_ascii_case("a", "b"));
    assert!(!eq_ignore_ascii_case("ab", "abc"));
    assert!(eq_ignore_ascii_case("", ""));
    // Only ASCII letters fold: accented characters compare exactly.
    assert!(!eq_ignore_ascii_case("é", "É"));
    assert!(eq_ignore_ascii_case("é", "é"));
}

#[test]
fn join_strings_inserts_separator() {
    assert_eq!(join_strings(&Vec::new(), ", "), "");
    assert_eq!(join_strings(&vec!["a".to_string()], ", "), "a");
    assert_eq!(
        join_strings(&vec!["a".to_string(), "b".to_string(), "c".to_string()], ", "),
        "a, b, c"
    );
}
