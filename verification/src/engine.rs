//! The round-trip runner. The query engine is an external collaborator: it
//! plans submitted SQL into a statement handle, hands out the unoptimized
//! logical plan, renders the plan's display text, and unparses the plan back
//! into SQL. Those four calls stand behind trusted declarations here; the
//! control flow around them — step order, failure classification, and what is
//! handed on verbatim — is verified.

use vstd::prelude::*;
use datafusion::dataframe::DataFrame;
use datafusion::logical_expr::LogicalPlan;
use crate::errors::HarnessError;

verus! {

#[verifier::external_type_specification]
#[verifier::external_body]
pub struct ExDataFrame(DataFrame);

#[verifier::external_type_specification]
#[verifier::external_body]
pub struct ExLogicalPlan(LogicalPlan);

/// Relies on `DataFrame::into_unoptimized_plan`: hands out the logical plan
/// the statement was planned to, deliberately skipping the optimizer so the
/// plan reflects the query's literal relational structure.
#[verifier::external_body]
fn into_unoptimized_plan(df: DataFrame) -> LogicalPlan {
    df.into_unoptimized_plan()
}

/// Relies on `LogicalPlan`'s `Display` impl: renders the indented, human-
/// readable text form of the plan.
#[verifier::external_body]
fn plan_display_text(plan: &LogicalPlan) -> String {
    format!("{plan}")
}

/// Relies on `datafusion::sql::unparser::plan_to_sql`: renders the plan back
/// into a SQL statement; the statement, or the engine's error, is handed on
/// as text.
#[verifier::external_body]
fn plan_unparse(plan: &LogicalPlan) -> Result<String, String> {
    match datafusion::sql::unparser::plan_to_sql(plan) {
        Ok(statement) => Ok(format!("{statement}")),
        Err(e) => Err(format!("{e}")),
    }
}

/// Classifies the outcome of submitting SQL to the query context: a statement
/// handle passes through untouched, and a rejection becomes a planning error
/// carrying the engine's message — terminal for this one query index.
pub fn classify_submit(submitted: Result<DataFrame, String>) -> (r: Result<
    DataFrame,
    HarnessError,
>)
    ensures
        r is Ok <==> submitted is Ok,
        submitted matches Ok(df) ==> r matches Ok(out) && out == df,
        submitted matches Err(m) ==> r matches Err(e) && e matches HarnessError::Planning {
            message,
        } && message == m,
{
    match submitted {
        Ok(df) => Ok(df),
        Err(message) => Err(HarnessError::Planning { message }),
    }
}

/// Classifies the outcome of unparsing a plan: regenerated SQL passes through
/// untouched, and a rejection becomes an unparse error carrying the engine's
/// message — terminal for this one query index.
pub fn classify_unparse(unparsed: Result<String, String>) -> (r: Result<String, HarnessError>)
    ensures
        r is Ok <==> unparsed is Ok,
        unparsed matches Ok(sql) ==> r matches Ok(out) && out == sql,
        unparsed matches Err(m) ==> r matches Err(e) && e matches HarnessError::Unparse {
            message,
        } && message == m,
{
    match unparsed {
        Ok(sql) => Ok(sql),
        Err(message) => Err(HarnessError::Unparse { message }),
    }
}

/// What one round trip leaves behind: the plan's display text and either the
/// regenerated SQL or the unparse error.
pub struct RoundTrip {
    pub plan_text: String,
    pub regenerated: Result<String, HarnessError>,
}

/// Drives the round trip from an already-submitted statement handle: extract
/// the unoptimized plan, render its display text, unparse it back to SQL.
/// The plan is read, never mutated, and any failure here is an unparse error.
pub fn plan_round_trip(df: DataFrame) -> (r: RoundTrip)
    ensures
        r.regenerated matches Err(e) ==> e is Unparse,
{
    let plan = into_unoptimized_plan(df);
    let plan_text = plan_display_text(&plan);
    let regenerated = classify_unparse(plan_unparse(&plan));
    RoundTrip { plan_text, regenerated }
}

/// Runs one query's whole round trip from the submit outcome on. A planning
/// rejection is terminal for the index and carries the engine's message; a
/// statement handle goes through plan extraction, display and unparsing. On
/// success the result holds the plan text and the regenerated SQL.
pub fn query_round_trip(submitted: Result<DataFrame, String>) -> (r: Result<
    (String, String),
    HarnessError,
>)
    ensures
        submitted matches Err(m) ==> r matches Err(e) && e matches HarnessError::Planning {
            message,
        } && message == m,
        r matches Err(e) ==> e is Planning || e is Unparse,
{
    match classify_submit(submitted) {
        Err(e) => Err(e),
        Ok(df) => {
            let rt = plan_round_trip(df);
            match rt.regenerated {
                Ok(out) => Ok((rt.plan_text, out)),
                Err(e) => Err(e),
            }
        },
    }
}

} // verus!
