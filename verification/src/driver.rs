//! The boundary to the embedded database driver: declarations of the driver's
//! types and thin wrappers around the driver calls the library makes. Every
//! contract here is trusted; each wrapper's doc comment names the driver
//! function it relies on.

use vstd::prelude::*;

verus! {

/// The standard string-formatting error, carried by the library's error type.
#[verifier::external_type_specification]
#[verifier::external_body]
pub struct ExFmtError(std::fmt::Error);

/// The driver's error type, carried by the library's error type.
#[verifier::external_type_specification]
#[verifier::external_body]
pub struct ExRusqliteError(rusqlite::Error);

/// An open database connection, owned and managed by the host.
#[verifier::external_type_specification]
#[verifier::external_body]
pub struct ExConnection(rusqlite::Connection);

/// A prepared statement, owned by its connection.
#[verifier::external_type_specification]
#[verifier::external_body]
pub struct ExStatement<'conn>(rusqlite::Statement<'conn>);

/// A prepared statement borrowed from the connection's statement cache.
#[verifier::external_type_specification]
#[verifier::external_body]
pub struct ExCachedStatement<'conn>(rusqlite::CachedStatement<'conn>);

/// One fetched result row, readable by column position.
#[verifier::external_type_specification]
#[verifier::external_body]
pub struct ExRow<'stmt>(rusqlite::Row<'stmt>);

/// A lazy, single-pass, forward-only iterator of per-row parse results,
/// borrowing one prepared statement for its lifetime. It holds the driver's
/// mapped-row iterator, opaque to the verifier, and is read one element at a
/// time through `next_row`; once exhausted it stays exhausted.
#[verifier::external_body]
#[verifier::reject_recursive_types(R)]
pub struct RecordRows<'stmt, R> {
    inner: rusqlite::MappedRows<'stmt, fn(&rusqlite::Row<'_>) -> Result<R, rusqlite::Error>>,
}

impl<'stmt, R> RecordRows<'stmt, R> {
    /// Relies on the `Iterator` impl of rusqlite's `MappedRows`: fetches the
    /// next row and parses it with the record type's parse function, yielding
    /// `None` once the result set is exhausted. Nothing is promised of the
    /// value, which depends on the database.
    #[verifier::external_body]
    pub fn next_row(&mut self) -> Option<Result<R, rusqlite::Error>> {
        self.inner.next()
    }
}

/// Relies on rusqlite's `Statement::column_count`: the number of columns in
/// the result set of the prepared statement. Nothing is promised of the
/// value, which depends on the statement prepared against the database.
#[verifier::external_body]
pub(crate) fn statement_column_count(statement: &rusqlite::Statement<'_>) -> usize {
    statement.column_count()
}

/// Relies on rusqlite's `Statement::column_names`: the column names of the
/// result set of the prepared statement, in column order. Nothing is promised
/// of the value, which depends on the statement prepared against the database.
///
/// Caveat: the driver documents that reading a column name panics when the
/// schema holds a name that is not valid UTF-8, and offers no non-panicking
/// accessor; that panic passes through this wrapper. The statement is opaque
/// here, so no precondition can exclude such an input.
#[verifier::external_body]
pub(crate) fn statement_column_names(statement: &rusqlite::Statement<'_>) -> Vec<String> {
    statement.column_names().iter().map(|s| s.to_string()).collect()
}

/// Relies on rusqlite's `Connection::prepare_cached`: a cached prepared
/// statement for the given SQL text (the driver trims surrounding whitespace
/// and caches by the trimmed text), or a driver error. Nothing is promised of
/// the value, which depends on the connection's database.
#[verifier::external_body]
pub(crate) fn prepare_cached<'conn>(
    connection: &'conn rusqlite::Connection,
    sql: &str,
) -> Result<rusqlite::CachedStatement<'conn>, rusqlite::Error> {
    connection.prepare_cached(sql)
}

/// Relies on rusqlite's `DerefMut` impl for `CachedStatement`: a cached
/// statement dereferences to the underlying prepared statement it wraps.
#[verifier::external_body]
pub(crate) fn cached_statement_deref_mut<'a, 'conn>(
    statement: &'a mut rusqlite::CachedStatement<'conn>,
) -> &'a mut rusqlite::Statement<'conn> {
    &mut **statement
}

/// Relies on rusqlite's `Statement::query_map`: binds the parameters and
/// returns a lazy iterator that applies the given parse function to each
/// fetched row, or a driver error if binding fails. Nothing is promised of
/// the rows, which depend on the database.
#[verifier::external_body]
pub(crate) fn query_map_rows<'stmt, 'conn, R: crate::rows::Record, P: rusqlite::Params>(
    statement: &'stmt mut rusqlite::Statement<'conn>,
    params: P,
) -> Result<RecordRows<'stmt, R>, rusqlite::Error> {
    let rows = statement.query_map(
        params,
        R::parse_row as fn(&rusqlite::Row<'_>) -> Result<R, rusqlite::Error>,
    )?;
    Ok(RecordRows { inner: rows })
}

} // verus!
