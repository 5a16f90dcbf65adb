//! The select query builder: a table name and an optional raw WHERE fragment,
//! from which `SELECT` text is composed, a cached statement prepared, and
//! records fetched — fail-fast or with per-row errors collected.

use vstd::prelude::*;
use crate::columns::ColumnDiagnostics;
use crate::driver::cached_statement_deref_mut;
use crate::driver::prepare_cached;
use crate::driver::RecordRows;
use crate::error::SealionError;
use crate::error::SealionResult;
use crate::rows::collect_rows;
use crate::rows::from_statement;
use crate::rows::partition_rows;
use crate::rows::Record;
use crate::text::join_seqs;
use crate::text::string_views;
use crate::text::join_strings;

verus! {

/// An intended `SELECT` statement: a table name, and an optional raw WHERE
/// fragment. The fragment is taken as the caller wrote it, with no escaping:
/// its SQL-injection safety is the caller's responsibility.
pub struct SelectQuery {
    pub table_name: String,
    pub where_clause: Option<String>,
}

/// The SQL text for a table, an optional WHERE fragment, and a column list:
/// `SELECT <columns joined by ", "> FROM <table> ` with `WHERE <fragment>`
/// appended when a fragment is present.
pub open spec fn sql_of(
    table: Seq<char>,
    where_clause: Option<Seq<char>>,
    columns: Seq<Seq<char>>,
) -> Seq<char> {
    let base = "SELECT "@ + join_seqs(columns, ", "@) + " FROM "@ + table + " "@;
    match where_clause {
        Some(w) => base + "WHERE "@ + w,
        None => base,
    }
}

impl SelectQuery {
    /// The view of the optional WHERE fragment.
    pub open spec fn where_view(self) -> Option<Seq<char>> {
        match self.where_clause {
            Some(w) => Some(w@),
            None => None,
        }
    }

    /// The SQL text this query builds for a column list.
    pub open spec fn sql_spec(self, columns: Seq<Seq<char>>) -> Seq<char> {
        sql_of(self.table_name@, self.where_view(), columns)
    }

    /// A query over the given table, with no WHERE fragment.
    pub fn new(table_name: &str) -> (r: Self)
        ensures
            r.table_name@ == table_name@,
            r.where_clause is None,
    {
        SelectQuery { table_name: table_name.to_owned(), where_clause: None }
    }

    /// Sets the raw WHERE fragment, replacing any earlier one.
    pub fn where_(&mut self, where_clause: &str)
        ensures
            final(self).table_name == old(self).table_name,
            final(self).where_clause is Some,
            final(self).where_clause->0@ == where_clause@,
    {
        self.where_clause = Some(where_clause.to_owned());
    }

    /// Builds the SQL text for the given columns. String composition cannot
    /// fail here, so the result is always the built text; the error side of
    /// the result exists for compatibility with hosts that treat an internal
    /// formatting fault as a distinct error.
    pub fn build_sql_string(&self, columns: &Vec<String>) -> (r: SealionResult<String>)
        ensures
            r is Ok,
            r->Ok_0@ == self.sql_spec(string_views(columns@)),
    {
        let mut sql = "SELECT ".to_owned();
        let joined = join_strings(columns, ", ");
        sql.append(joined.as_str());
        sql.append(" FROM ");
        sql.append(self.table_name.as_str());
        sql.append(" ");
        match &self.where_clause {
            Some(w) => {
                sql.append("WHERE ");
                sql.append(w.as_str());
            },
            None => {},
        }
        Ok(sql)
    }

    /// Builds the SQL text for the given columns and asks the connection for
    /// a cached prepared statement for exactly that text. The driver owns the
    /// statement cache; any failure is a statement-level driver error.
    pub fn prepare_statement_columns<'conn>(
        &self,
        connection: &'conn rusqlite::Connection,
        columns: &Vec<String>,
    ) -> (r: SealionResult<rusqlite::CachedStatement<'conn>>)
        ensures
            r is Err ==> r->Err_0 is RusqliteError,
    {
        let sql = match self.build_sql_string(columns) {
            Ok(sql) => sql,
            Err(e) => {
                return Err(e);
            },
        };
        match prepare_cached(connection, sql.as_str()) {
            Ok(statement) => Ok(statement),
            Err(e) => Err(SealionError::RusqliteError(e)),
        }
    }

    /// Prepares a cached statement for the record type's declared columns.
    pub fn prepare_statement<'conn, R: Record>(&self, connection: &'conn rusqlite::Connection) -> (r:
        SealionResult<rusqlite::CachedStatement<'conn>>)
        ensures
            r is Err ==> r->Err_0 is RusqliteError,
    {
        let columns = R::columns();
        self.prepare_statement_columns(connection, &columns)
    }

    /// Prepares and runs the query and materialises the records fail-fast:
    /// all records in fetch order when every row parses, else the first error
    /// alone, with every already parsed record discarded. The per-row results
    /// come from the database; what is returned for each value of them is
    /// exactly what `collect_rows` states. The advisory column diagnostics
    /// ride beside the records, for the host to emit or ignore; they never
    /// affect the call.
    pub fn execute<R: Record>(&self, connection: &rusqlite::Connection) -> (r: SealionResult<
        (Vec<R>, ColumnDiagnostics),
    >)
        ensures
            r is Err ==> r->Err_0 is RusqliteError,
    {
        let mut statement = match self.prepare_statement::<R>(connection) {
            Ok(statement) => statement,
            Err(e) => {
                return Err(e);
            },
        };
        let (mut rows, diagnostics) = match from_statement::<R, ()>(
            cached_statement_deref_mut(&mut statement),
            (),
        ) {
            Ok(rows_and_diagnostics) => rows_and_diagnostics,
            Err(e) => {
                return Err(e);
            },
        };
        let results = fetch_all(&mut rows);
        match collect_rows(results) {
            Ok(records) => Ok((records, diagnostics)),
            Err(e) => Err(e),
        }
    }

    /// Prepares and runs the query and materialises the records with per-row
    /// errors collected: the parsed records in fetch order in one sequence,
    /// the per-row errors in fetch order in another. Only a statement-level
    /// driver error fails the whole call; no row's failure discards another
    /// row's record. The per-row results come from the database; what is
    /// returned for each value of them is exactly what `partition_rows`
    /// states. The advisory column diagnostics ride beside the records, for
    /// the host to emit or ignore; they never affect the call.
    pub fn execute_collect_errors<R: Record>(&self, connection: &rusqlite::Connection) -> (r:
        SealionResult<(Vec<R>, Vec<SealionError>, ColumnDiagnostics)>)
        ensures
            r is Err ==> r->Err_0 is RusqliteError,
    {
        let mut statement = match self.prepare_statement::<R>(connection) {
            Ok(statement) => statement,
            Err(e) => {
                return Err(e);
            },
        };
        let (mut rows, diagnostics) = match from_statement::<R, ()>(
            cached_statement_deref_mut(&mut statement),
            (),
        ) {
            Ok(rows_and_diagnostics) => rows_and_diagnostics,
            Err(e) => {
                return Err(e);
            },
        };
        let results = fetch_all(&mut rows);
        let (values, errors) = partition_rows(results);
        Ok((values, errors, diagnostics))
    }
}

/// Drains a row iterator into the sequence of its per-row parse results, in
/// fetch order. The drain is bounded by the address space: no result set can
/// materialise more elements than a vector can hold.
fn fetch_all<R: Record>(rows: &mut RecordRows<'_, R>) -> Vec<Result<R, rusqlite::Error>> {
    let mut results: Vec<Result<R, rusqlite::Error>> = Vec::new();
    let mut steps: usize = usize::MAX;
    while steps > 0
        decreases steps,
    {
        match rows.next_row() {
            Some(x) => {
                results.push(x);
            },
            None => {
                return results;
            },
        }
        steps = steps - 1;
    }
    results
}

/// Building SQL is a pure function of the query's state and the column list:
/// any two builds from equal table names, equal WHERE fragments and equal
/// columns yield identical text.
pub proof fn lemma_build_sql_idempotent(
    q1: SelectQuery,
    q2: SelectQuery,
    columns: Seq<Seq<char>>,
    r1: Seq<char>,
    r2: Seq<char>,
)
    requires
        q1.table_name@ == q2.table_name@,
        q1.where_view() == q2.where_view(),
        r1 == q1.sql_spec(columns),
        r2 == q2.sql_spec(columns),
    ensures
        r1 == r2,
{
}

} // verus!
