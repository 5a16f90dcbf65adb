//! The row mapping contract: a record type declares its column list and how
//! to parse itself from one fetched row, and gets a lazy iterator of per-row
//! parse results from any prepared statement. Also the two verified ways of
//! materialising such per-row results: fail-fast and error-collecting.

use vstd::prelude::*;
use crate::columns::check_columns;
use crate::columns::ColumnDiagnostics;
use crate::driver::query_map_rows;
use crate::driver::RecordRows;
use crate::error::SealionError;
use crate::error::SealionResult;

verus! {

/// A record type that maps one-to-one to a row of query results.
pub trait Record: Sized {
    /// The column names for this record type, in the order its fields are
    /// read out of a row. Used for building queries and for the advisory
    /// consistency check; the correspondence with `parse_row` is the
    /// implementer's obligation.
    fn columns() -> Vec<String>;

    /// Parses an instance of `Self` from one fetched database row.
    fn parse_row(row: &rusqlite::Row<'_>) -> Result<Self, rusqlite::Error>;
}

/// Returns a lazy, single-pass iterator of per-row parse results for the
/// record type from a prepared statement, after running the advisory column
/// consistency check. The diagnostics ride beside the iterator: they never
/// fail the call and never change what is fetched — emitting them (or not)
/// is the host's concern. Each element can fail independently; only a
/// statement-level driver error fails the call.
pub fn from_statement<'stmt, 'conn, R: Record, P: rusqlite::Params>(
    statement: &'stmt mut rusqlite::Statement<'conn>,
    params: P,
) -> (r: SealionResult<(RecordRows<'stmt, R>, ColumnDiagnostics)>)
    ensures
        r is Err ==> r->Err_0 is RusqliteError,
        r is Ok && r->Ok_0.1.count_mismatch is Some ==> ((r->Ok_0.1.count_mismatch->0).1 != (
        r->Ok_0.1.count_mismatch->0).0),
{
    let expected = R::columns();
    let diagnostics = check_columns(statement, &expected);
    match query_map_rows::<R, P>(statement, params) {
        Ok(rows) => Ok((rows, diagnostics)),
        Err(e) => Err(SealionError::RusqliteError(e)),
    }
}

/// The parsed records of the successful results, in order.
pub open spec fn ok_values<R>(results: Seq<Result<R, rusqlite::Error>>) -> Seq<R> {
    results.filter(|x: Result<R, rusqlite::Error>| x is Ok).map_values(
        |x: Result<R, rusqlite::Error>| x->Ok_0,
    )
}

/// The errors of the failed results, in order, each wrapped as a driver error.
pub open spec fn err_values<R>(results: Seq<Result<R, rusqlite::Error>>) -> Seq<SealionError> {
    results.filter(|x: Result<R, rusqlite::Error>| x is Err).map_values(
        |x: Result<R, rusqlite::Error>| SealionError::RusqliteError(x->Err_0),
    )
}

/// When every per-row result is a success, the parsed records are exactly
/// the rows' values: one record per row, in fetch order.
pub proof fn lemma_ok_values_all_ok<R>(results: Seq<Result<R, rusqlite::Error>>)
    requires
        forall|i: int| 0 <= i < results.len() ==> results[i] is Ok,
    ensures
        ok_values(results).len() == results.len(),
        forall|i: int| 0 <= i < results.len() ==> ok_values(results)[i] == results[i]->Ok_0,
    decreases results.len(),
{
    reveal(Seq::filter);
    if results.len() == 0 {
        assert(ok_values(results) =~= Seq::<R>::empty());
    } else {
        let prefix = results.drop_last();
        lemma_ok_values_all_ok(prefix);
        assert(ok_values(results) =~= ok_values(prefix).push(results.last()->Ok_0));
    }
}

/// Every per-row result lands on exactly one side of the partition: the
/// records and the errors together count the rows.
pub proof fn lemma_partition_complete<R>(results: Seq<Result<R, rusqlite::Error>>)
    ensures
        ok_values(results).len() + err_values(results).len() == results.len(),
    decreases results.len(),
{
    reveal(Seq::filter);
    if results.len() > 0 {
        lemma_partition_complete(results.drop_last());
    }
}

/// Fail-fast materialisation of per-row parse results: all records in fetch
/// order when every row parsed, else the first error alone, every already
/// parsed record discarded.
pub fn collect_rows<R>(results: Vec<Result<R, rusqlite::Error>>) -> (r: SealionResult<Vec<R>>)
    ensures
        (r is Ok) == (forall|i: int| 0 <= i < results@.len() ==> results@[i] is Ok),
        r is Ok ==> r->Ok_0@ == ok_values(results@),
        r is Err ==> exists|i: int|
            0 <= i < results@.len() && (#[trigger] results@[i]) is Err && (forall|j: int|
                0 <= j < i ==> results@[j] is Ok) && r->Err_0 == SealionError::RusqliteError(
                results@[i]->Err_0,
            ),
{
    let ghost orig = results@;
    let mut rest = results;
    let mut values: Vec<R> = Vec::new();
    while rest.len() > 0
        invariant
            results@ == orig,
            orig.len() == values@.len() + rest@.len(),
            rest@ == orig.subrange(values@.len() as int, orig.len() as int),
            forall|j: int| 0 <= j < values@.len() ==> orig[j] is Ok,
            values@ == ok_values(orig.subrange(0, values@.len() as int)),
        decreases rest@.len(),
    {
        let ghost k = values@.len() as int;
        let x = rest.remove(0);
        proof {
            assert(x == orig[k]);
            assert(rest@ =~= orig.subrange(k + 1, orig.len() as int));
        }
        match x {
            Ok(v) => {
                values.push(v);
                proof {
                    reveal(Seq::filter);
                    assert(orig.subrange(0, k + 1).drop_last() =~= orig.subrange(0, k));
                    assert(values@ =~= ok_values(orig.subrange(0, k + 1)));
                }
            },
            Err(e) => {
                proof {
                    assert(0 <= k < orig.len() && orig[k] is Err);
                    assert(forall|j: int| 0 <= j < k ==> orig[j] is Ok);
                    assert(!(forall|i: int| 0 <= i < orig.len() ==> orig[i] is Ok));
                    assert(exists|i: int|
                        0 <= i < orig.len() && (#[trigger] orig[i]) is Err && (forall|j: int|
                            0 <= j < i ==> orig[j] is Ok) && SealionError::RusqliteError(e)
                            == SealionError::RusqliteError(orig[i]->Err_0));
                }
                return Err(SealionError::RusqliteError(e));
            },
        }
    }
    proof {
        assert(orig.subrange(0, orig.len() as int) =~= orig);
    }
    Ok(values)
}

/// Error-collecting materialisation of per-row parse results: the parsed
/// records in fetch order in one sequence, and the per-row errors in fetch
/// order in another. No row's failure discards another row's record.
pub fn partition_rows<R>(results: Vec<Result<R, rusqlite::Error>>) -> (r: (Vec<R>, Vec<
    SealionError,
>))
    ensures
        r.0@ == ok_values(results@),
        r.1@ == err_values(results@),
{
    let ghost orig = results@;
    let mut rest = results;
    let mut values: Vec<R> = Vec::new();
    let mut errors: Vec<SealionError> = Vec::new();
    let ghost mut k: int = 0;
    while rest.len() > 0
        invariant
            results@ == orig,
            0 <= k <= orig.len(),
            k + rest@.len() == orig.len(),
            rest@ == orig.subrange(k, orig.len() as int),
            values@ == ok_values(orig.subrange(0, k)),
            errors@ == err_values(orig.subrange(0, k)),
        decreases rest@.len(),
    {
        let x = rest.remove(0);
        proof {
            assert(x == orig[k]);
            assert(rest@ =~= orig.subrange(k + 1, orig.len() as int));
            assert(orig.subrange(0, k + 1).drop_last() =~= orig.subrange(0, k));
        }
        match x {
            Ok(v) => {
                values.push(v);
            },
            Err(e) => {
                errors.push(SealionError::RusqliteError(e));
            },
        }
        proof {
            reveal(Seq::filter);
            k = k + 1;
            assert(values@ =~= ok_values(orig.subrange(0, k)));
            assert(errors@ =~= err_values(orig.subrange(0, k)));
        }
    }
    proof {
        assert(orig.subrange(0, orig.len() as int) =~= orig);
    }
    (values, errors)
}

} // verus!
