//! The query corpus: one SQL text file per query index, named `q<N>.sql` in a
//! fixed directory. Resolving an index to its path is pure; reading the file
//! is left to the caller, and the outcome of that read is classified here.

use vstd::prelude::*;
use crate::errors::HarnessError;
use crate::numfmt::{dec_rep, u64_to_dec};

verus! {

/// The number of queries in the benchmark corpus.
pub const QUERY_COUNT: usize = 22;

/// A query index is valid when it lies in `1..=QUERY_COUNT`.
pub open spec fn query_index_valid(q: usize) -> bool {
    1 <= q <= QUERY_COUNT
}

/// Decides whether `q` names a query of the corpus.
pub fn query_in_range(q: usize) -> (r: bool)
    ensures
        r == query_index_valid(q),
{
    1 <= q && q <= QUERY_COUNT
}

/// The corpus file path for query `q`.
pub open spec fn query_path_rep(q: nat) -> Seq<char> {
    "tpch/sql/q"@ + dec_rep(q) + ".sql"@
}

/// Resolves a query index to the corpus path holding its SQL text. An index
/// outside the corpus range is a caller-contract violation: it is rejected
/// here, before any path exists that a caller could try to read.
pub fn query_sql_path(q: usize) -> (r: Result<String, HarnessError>)
    ensures
        r is Ok <==> query_index_valid(q),
        r matches Ok(path) ==> path@ == query_path_rep(q as nat),
        r matches Err(e) ==> e is OutOfRange,
{
    if query_in_range(q) {
        let mut path = String::from_str("tpch/sql/q");
        path.append(u64_to_dec(q as u64).as_str());
        path.append(".sql");
        proof {
            assert(path@ =~= query_path_rep(q as nat));
        }
        Ok(path)
    } else {
        Err(HarnessError::OutOfRange)
    }
}

/// The line recorded for one attempted path: the path and the underlying
/// cause, separated by a colon.
pub open spec fn attempt_rep(path: Seq<char>, cause: Seq<char>) -> Seq<char> {
    path + ": "@ + cause
}

/// Classifies the outcome of reading the corpus file at `path`: the exact
/// contents on success, unmodified; otherwise a corpus-read error whose single
/// attempt line names the attempted path and the underlying cause.
pub fn corpus_read_outcome(path: &str, read: Result<String, String>) -> (r: Result<
    String,
    HarnessError,
>)
    ensures
        r is Ok <==> read is Ok,
        read matches Ok(contents) ==> r matches Ok(c) && c == contents,
        read matches Err(cause) ==> r matches Err(e) && e matches HarnessError::CorpusRead {
            attempts,
        } && attempts.deep_view() =~= seq![attempt_rep(path@, cause@)],
{
    match read {
        Ok(contents) => Ok(contents),
        Err(cause) => {
            let mut line = String::from_str(path);
            line.append(": ");
            line.append(cause.as_str());
            let mut attempts: Vec<String> = Vec::new();
            attempts.push(line);
            proof {
                assert(attempts.deep_view() =~= seq![attempt_rep(path@, cause@)]);
            }
            Err(HarnessError::CorpusRead { attempts })
        },
    }
}

} // verus!
