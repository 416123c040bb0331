//! The reporter: for each query index it renders, in order, a start banner,
//! the original SQL, the plan text, the regenerated SQL and the elapsed time,
//! each behind a separator, and an end banner; a failed query renders an
//! explicit failure line between the banners instead. Values are shown
//! verbatim, and no index is ever passed over in silence.

use vstd::prelude::*;
use crate::errors::{HarnessError, message_rep};
use crate::numfmt::{dec_rep, millis_rep, u64_to_dec, format_millis};

verus! {

/// The banner opening the output of one query.
pub open spec fn start_banner_rep(q: nat) -> Seq<char> {
    "#### Running query "@ + dec_rep(q) + " #####"@
}

/// The banner closing the output of one query.
pub open spec fn end_banner_rep(q: nat) -> Seq<char> {
    "#### Finished query "@ + dec_rep(q) + " #####"@
}

/// The separator drawn between the sections of one query's output.
pub open spec fn separator_rep() -> Seq<char> {
    "----------------------------------"@
}

/// The line showing the original SQL.
pub open spec fn input_line_rep(sql: Seq<char>) -> Seq<char> {
    "input SQL: "@ + sql
}

/// The line showing the plan's textual form.
pub open spec fn plan_line_rep(plan: Seq<char>) -> Seq<char> {
    "logical plan: "@ + plan
}

/// The line showing the regenerated SQL.
pub open spec fn output_line_rep(sql: Seq<char>) -> Seq<char> {
    "output SQL: "@ + sql
}

/// The line showing the elapsed time in milliseconds, two decimal digits.
pub open spec fn timing_line_rep(q: nat, nanos: nat) -> Seq<char> {
    "query "@ + dec_rep(q) + " took "@ + millis_rep(nanos) + " ms"@
}

/// The line reporting a failed query: it names the index and carries the
/// error's message.
pub open spec fn failure_line_rep(q: nat, e: HarnessError) -> Seq<char> {
    "query "@ + dec_rep(q) + " failed: "@ + message_rep(e)
}

/// The full output of a successful round trip, line by line.
pub open spec fn report_rep(
    q: nat,
    sql: Seq<char>,
    plan: Seq<char>,
    out: Seq<char>,
    nanos: nat,
) -> Seq<Seq<char>> {
    seq![
        start_banner_rep(q),
        input_line_rep(sql),
        separator_rep(),
        plan_line_rep(plan),
        separator_rep(),
        output_line_rep(out),
        separator_rep(),
        timing_line_rep(q, nanos),
        end_banner_rep(q),
    ]
}

/// The full output of a failed query, line by line.
pub open spec fn failure_rep(q: nat, e: HarnessError) -> Seq<Seq<char>> {
    seq![start_banner_rep(q), failure_line_rep(q, e), end_banner_rep(q)]
}

fn start_banner(q: usize) -> (r: String)
    ensures
        r@ == start_banner_rep(q as nat),
{
    let mut r = String::from_str("#### Running query ");
    r.append(u64_to_dec(q as u64).as_str());
    r.append(" #####");
    proof {
        assert(r@ =~= start_banner_rep(q as nat));
    }
    r
}

fn end_banner(q: usize) -> (r: String)
    ensures
        r@ == end_banner_rep(q as nat),
{
    let mut r = String::from_str("#### Finished query ");
    r.append(u64_to_dec(q as u64).as_str());
    r.append(" #####");
    proof {
        assert(r@ =~= end_banner_rep(q as nat));
    }
    r
}

fn prefixed_line(prefix: &str, rest: &str) -> (r: String)
    ensures
        r@ == prefix@ + rest@,
{
    let mut r = String::from_str(prefix);
    r.append(rest);
    r
}

fn timing_line(q: usize, nanos: u64) -> (r: String)
    ensures
        r@ == timing_line_rep(q as nat, nanos as nat),
{
    let mut r = String::from_str("query ");
    r.append(u64_to_dec(q as u64).as_str());
    r.append(" took ");
    r.append(format_millis(nanos).as_str());
    r.append(" ms");
    proof {
        assert(r@ =~= timing_line_rep(q as nat, nanos as nat));
    }
    r
}

/// Renders the output of a successful round trip: banners, original SQL, plan
/// text, regenerated SQL and the timing line, each value verbatim.
pub fn report_lines(q: usize, sql: &str, plan: &str, out: &str, nanos: u64) -> (lines: Vec<
    String,
>)
    ensures
        lines.deep_view() == report_rep(q as nat, sql@, plan@, out@, nanos as nat),
{
    let mut lines: Vec<String> = Vec::new();
    lines.push(start_banner(q));
    lines.push(prefixed_line("input SQL: ", sql));
    lines.push(String::from_str("----------------------------------"));
    lines.push(prefixed_line("logical plan: ", plan));
    lines.push(String::from_str("----------------------------------"));
    lines.push(prefixed_line("output SQL: ", out));
    lines.push(String::from_str("----------------------------------"));
    lines.push(timing_line(q, nanos));
    lines.push(end_banner(q));
    proof {
        assert(lines.deep_view() =~= report_rep(q as nat, sql@, plan@, out@, nanos as nat));
    }
    lines
}

/// Renders the output of a failed query: the banners around an explicit
/// failure line naming the index and the cause.
pub fn failure_lines(q: usize, e: &HarnessError) -> (lines: Vec<String>)
    ensures
        lines.deep_view() == failure_rep(q as nat, *e),
{
    let mut line = String::from_str("query ");
    line.append(u64_to_dec(q as u64).as_str());
    line.append(" failed: ");
    line.append(e.message().as_str());
    let mut lines: Vec<String> = Vec::new();
    lines.push(start_banner(q));
    lines.push(line);
    lines.push(end_banner(q));
    proof {
        assert(lines.deep_view() =~= failure_rep(q as nat, *e));
    }
    lines
}

/// Renders everything the harness prints for one query index: the full report
/// when the round trip succeeded, the explicit failure report when it did
/// not. Whatever the outcome, the output opens with the index's start banner
/// and closes with its end banner: no index is skipped in silence.
pub fn query_output(
    q: usize,
    sql: &str,
    outcome: Result<(String, String), HarnessError>,
    nanos: u64,
) -> (lines: Vec<String>)
    ensures
        outcome matches Ok(ok) ==> lines.deep_view() == report_rep(
            q as nat,
            sql@,
            ok.0@,
            ok.1@,
            nanos as nat,
        ),
        outcome matches Err(e) ==> lines.deep_view() == failure_rep(q as nat, e),
        lines.deep_view().len() >= 3,
        lines.deep_view().first() == start_banner_rep(q as nat),
        lines.deep_view().last() == end_banner_rep(q as nat),
{
    match outcome {
        Ok((plan, out)) => report_lines(q, sql, plan.as_str(), out.as_str(), nanos),
        Err(e) => failure_lines(q, &e),
    }
}

} // verus!
