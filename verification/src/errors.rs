//! The harness error taxonomy. Registration failures are fatal to a run;
//! every other error is terminal for a single query index only, and the query
//! loop goes on to the next index.

use vstd::prelude::*;

verus! {

/// Everything that can go wrong in a run, with the context a reader needs to
/// diagnose it.
#[derive(Debug)]
pub enum HarnessError {
    /// A table could not be bound to its data source; fatal to the whole run.
    Registration { table: String, cause: String },
    /// A query index outside the corpus range; reported before any file access.
    OutOfRange,
    /// The query text file could not be read; carries one line per attempted
    /// path, each holding the path and the underlying cause.
    CorpusRead { attempts: Vec<String> },
    /// The SQL could not be bound to a plan against the registered schema.
    Planning { message: String },
    /// The plan could not be rendered back into SQL.
    Unparse { message: String },
}

/// The given parts joined with the given separator between neighbours.
pub open spec fn join_rep(parts: Seq<Seq<char>>, sep: Seq<char>) -> Seq<char>
    decreases parts.len(),
{
    if parts.len() == 0 {
        Seq::empty()
    } else if parts.len() == 1 {
        parts[0]
    } else {
        parts[0] + sep + join_rep(parts.drop_first(), sep)
    }
}

/// Joins the parts from position `i` on with the separator.
fn join_from(parts: &Vec<String>, i: usize, sep: &str) -> (r: String)
    requires
        i <= parts@.len(),
    ensures
        r@ == join_rep(parts.deep_view().skip(i as int), sep@),
    decreases parts@.len() - i,
{
    if i == parts.len() {
        let r = String::new();
        proof {
            assert(parts.deep_view().skip(i as int) =~= Seq::<Seq<char>>::empty());
        }
        r
    } else if i + 1 == parts.len() {
        let r = parts[i].clone();
        proof {
            assert(parts.deep_view().skip(i as int) =~= seq![parts.deep_view()[i as int]]);
        }
        r
    } else {
        let rest = join_from(parts, i + 1, sep);
        let mut r = parts[i].clone();
        r.append(sep);
        let r = r.concat(rest.as_str());
        proof {
            assert(parts.deep_view().skip(i as int).drop_first() =~= parts.deep_view().skip(
                i as int + 1,
            ));
            assert(parts.deep_view().skip(i as int)[0] == parts.deep_view()[i as int]);
        }
        r
    }
}

/// The human-readable message for each error.
pub open spec fn message_rep(e: HarnessError) -> Seq<char> {
    match e {
        HarnessError::Registration { table, cause } => "registration failed for table "@ + table@
            + ": "@ + cause@,
        HarnessError::OutOfRange => "invalid query. Expected value between 1 and 22"@,
        HarnessError::CorpusRead { attempts } => "invalid query. Could not find query: "@
            + join_rep(attempts.deep_view(), "; "@),
        HarnessError::Planning { message } => "planning failed: "@ + message@,
        HarnessError::Unparse { message } => "unparsing failed: "@ + message@,
    }
}

impl HarnessError {
    /// Renders the error for the report stream.
    pub fn message(&self) -> (r: String)
        ensures
            r@ == message_rep(*self),
    {
        match self {
            HarnessError::Registration { table, cause } => {
                let mut r = String::from_str("registration failed for table ");
                r.append(table.as_str());
                r.append(": ");
                r.append(cause.as_str());
                proof {
                    assert(r@ =~= message_rep(*self));
                }
                r
            },
            HarnessError::OutOfRange => {
                String::from_str("invalid query. Expected value between 1 and 22")
            },
            HarnessError::CorpusRead { attempts } => {
                let joined = join_from(attempts, 0, "; ");
                let mut r = String::from_str("invalid query. Could not find query: ");
                r.append(joined.as_str());
                proof {
                    assert(attempts.deep_view().skip(0) =~= attempts.deep_view());
                    assert(r@ =~= message_rep(*self));
                }
                r
            },
            HarnessError::Planning { message } => {
                let mut r = String::from_str("planning failed: ");
                r.append(message.as_str());
                proof {
                    assert(r@ =~= message_rep(*self));
                }
                r
            },
            HarnessError::Unparse { message } => {
                let mut r = String::from_str("unparsing failed: ");
                r.append(message.as_str());
                proof {
                    assert(r@ =~= message_rep(*self));
                }
                r
            },
        }
    }
}

} // verus!
