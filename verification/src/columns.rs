//! The advisory column consistency checker: compares a prepared statement's
//! column count and names against the column list a record type declares, and
//! produces diagnostics. The check never fails an operation: its outcome is a
//! plain value for the host to report or ignore.

use vstd::prelude::*;
use crate::text::eq_ignore_case;
use crate::text::eq_ignore_ascii_case;
use crate::text::string_views;
use crate::text::join_seqs;
use crate::text::join_strings;
use crate::driver::statement_column_count;
use crate::driver::statement_column_names;

verus! {

/// The smaller of two lengths.
pub open spec fn min_len(a: nat, b: nat) -> nat {
    if a <= b {
        a
    } else {
        b
    }
}

/// The diagnostic message for one pair of column names.
pub open spec fn message_of(actual: Seq<char>, expected: Seq<char>) -> Seq<char> {
    actual + " != "@ + expected
}

/// The name diagnostics over the first `n` pairs of (actual, expected)
/// column names, in pair order. A pair is kept when the names are equal up
/// to ASCII case: this mirrors the checker's literal historical behaviour,
/// which flags the *matching* pairs, and is preserved deliberately; see the
/// note on `column_mismatch_messages`.
pub open spec fn mismatch_messages_upto(
    actual: Seq<Seq<char>>,
    expected: Seq<Seq<char>>,
    n: int,
) -> Seq<Seq<char>>
    decreases n,
{
    if n <= 0 {
        Seq::empty()
    } else {
        mismatch_messages_upto(actual, expected, n - 1) + (if eq_ignore_case(
            actual[n - 1],
            expected[n - 1],
        ) {
            seq![message_of(actual[n - 1], expected[n - 1])]
        } else {
            Seq::empty()
        })
    }
}

/// The name diagnostics over all pairs up to the shorter list's length.
pub open spec fn mismatch_messages(actual: Seq<Seq<char>>, expected: Seq<Seq<char>>) -> Seq<
    Seq<char>,
> {
    mismatch_messages_upto(actual, expected, min_len(actual.len(), expected.len()) as int)
}

/// Pairwise diagnostics for two column-name lists, compared up to the
/// shorter list's length; each kept pair yields the message
/// `"actual != expected"`.
///
/// Note: as in the checker's historical behaviour, a pair is kept when the
/// two names are *equal* up to ASCII case, not when they differ. This looks
/// inverted relative to the evident intent of flagging mismatches; it is
/// preserved literally, as an open question, rather than silently corrected.
pub fn column_mismatch_messages(actual: &Vec<String>, expected: &Vec<String>) -> (r: Vec<String>)
    ensures
        string_views(r@) == mismatch_messages(string_views(actual@), string_views(expected@)),
{
    let n = if actual.len() <= expected.len() {
        actual.len()
    } else {
        expected.len()
    };
    let mut r: Vec<String> = Vec::new();
    let mut i: usize = 0;
    while i < n
        invariant
            n == min_len(actual@.len(), expected@.len()),
            i <= n,
            string_views(r@) == mismatch_messages_upto(
                string_views(actual@),
                string_views(expected@),
                i as int,
            ),
        decreases n - i,
    {
        if eq_ignore_ascii_case(actual[i].as_str(), expected[i].as_str()) {
            let mut m = actual[i].clone();
            m.append(" != ");
            m.append(expected[i].as_str());
            let ghost before = string_views(r@);
            r.push(m);
            proof {
                assert(string_views(r@) =~= before + seq![message_of(
                    string_views(actual@)[i as int],
                    string_views(expected@)[i as int],
                )]);
            }
        } else {
            proof {
                assert(mismatch_messages_upto(
                    string_views(actual@),
                    string_views(expected@),
                    i + 1,
                ) =~= string_views(r@));
            }
        }
        i = i + 1;
    }
    r
}

/// The outcome of the advisory consistency check: never an error, only
/// diagnostics for the host's logging, if it wants them.
pub struct ColumnDiagnostics {
    /// Set when the expected column count differs from the statement's:
    /// `(expected, actual)`.
    pub count_mismatch: Option<(usize, usize)>,
    /// The pairwise name diagnostics joined by `", "`, when any arose.
    pub name_mismatch: Option<String>,
}

/// The diagnostics owed for a statement shape (column count and names) and an
/// expected column list: a count mismatch of `(expected, actual)` exactly when
/// the counts differ, and the pairwise name diagnostics joined by `", "`
/// exactly when any arose.
pub open spec fn diagnostics_match(
    count: usize,
    names: Seq<Seq<char>>,
    expected: Seq<Seq<char>>,
    r: ColumnDiagnostics,
) -> bool {
    &&& (count == expected.len() <==> r.count_mismatch is None)
    &&& (r.count_mismatch is Some ==> r.count_mismatch == Some(
        (expected.len() as usize, count),
    ))
    &&& (mismatch_messages(names, expected).len() == 0 <==> r.name_mismatch is None)
    &&& (r.name_mismatch is Some ==> r.name_mismatch->0@ == join_seqs(
        mismatch_messages(names, expected),
        ", "@,
    ))
}

/// Computes the diagnostics from the statement's column count and names and
/// the expected column list. Pure: defined for every input, never an error.
pub fn column_diagnostics(
    actual_count: usize,
    actual_names: &Vec<String>,
    expected: &Vec<String>,
) -> (r: ColumnDiagnostics)
    ensures
        diagnostics_match(
            actual_count,
            string_views(actual_names@),
            string_views(expected@),
            r,
        ),
{
    let count_mismatch: Option<(usize, usize)> = if actual_count != expected.len() {
        Some((expected.len(), actual_count))
    } else {
        None
    };
    let messages = column_mismatch_messages(actual_names, expected);
    let name_mismatch: Option<String> = if messages.len() > 0 {
        Some(join_strings(&messages, ", "))
    } else {
        None
    };
    ColumnDiagnostics { count_mismatch, name_mismatch }
}

/// Runs the advisory consistency check against a prepared statement: reads
/// the statement's column count and names from the driver and hands them to
/// `column_diagnostics`, which is verified for every value they may take.
/// The result is the diagnostics owed for the count and names the driver
/// reported: whatever they were, a count mismatch is reported if and only if
/// they differed from the expected list, as `(expected, actual)`.
///
/// Caveat, inherited from the driver: reading the column names panics on a
/// statement whose schema holds a non-UTF-8 column name (rusqlite documents
/// this for `column_names`, and offers no non-panicking accessor).
pub fn check_columns(statement: &rusqlite::Statement<'_>, expected: &Vec<String>) -> (r:
    ColumnDiagnostics)
    ensures
        r.count_mismatch is Some ==> (r.count_mismatch->0).0 == expected@.len() && (
        r.count_mismatch->0).1 != (r.count_mismatch->0).0,
        exists|count: usize, names: Seq<Seq<char>>|
            diagnostics_match(count, names, string_views(expected@), r),
{
    let actual_count = statement_column_count(statement);
    let actual_names = statement_column_names(statement);
    let r = column_diagnostics(actual_count, &actual_names, expected);
    proof {
        assert(expected.len() == expected@.len());
        assert(diagnostics_match(
            actual_count,
            string_views(actual_names@),
            string_views(expected@),
            r,
        ));
    }
    r
}

} // verus!
