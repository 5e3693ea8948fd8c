//! Watching the error counts of the web services.

use vstd::prelude::*;
use crate::text::{push_signed_decimal, push_str, signed_decimal_digits, string_of};

verus! {

/// What a health report holds under `total_status_code_count`, written as JSON;
/// nothing where the report is no JSON.
pub uninterp spec fn status_codes_json(report: Seq<char>) -> Option<Seq<char>>;

/// Reads the counts by status code from a health report.
///
/// Parses with `serde_json::from_str`, looks the counts up with the indexing of
/// `serde_json::Value` and writes them with its `to_string`. The result is only given
/// its name.
#[verifier::external_body]
pub(crate) fn status_codes(report: &str) -> (r: Option<String>)
    ensures
        r.deep_view() == status_codes_json(report@),
{
    serde_json::from_str::<serde_json::Value>(report).ok().map(
        |v| v["total_status_code_count"].to_string(),
    )
}

/// Shows the counts by status code of a health report.
pub fn display_codes(report: &str) -> (r: Option<String>)
    ensures
        r.deep_view() == status_codes_json(report@),
{
    status_codes(report)
}

/// What is said when the count of errors rose.
pub open spec fn going_up_message(previous: i64, current: i64) -> Seq<char> {
    "Error code 500 going up ! "@ + signed_decimal_digits(previous as int) + " -> "@
        + signed_decimal_digits(current as int)
}

/// What is said of the counts.
pub open spec fn codes_message(codes: Seq<char>) -> Seq<char> {
    "Codes = "@ + codes
}

/// What a check of the count of errors sends: nothing unless the count rose; then the
/// rise and the counts.
pub open spec fn error_messages(previous: i64, current: i64, codes: Seq<char>) -> Seq<Seq<char>> {
    if previous < current {
        seq![going_up_message(previous, current), codes_message(codes)]
    } else {
        Seq::empty()
    }
}

/// Checks the count of errors against the one of the last check.
pub fn error_code_check(previous: i64, current: i64, codes: &str) -> (r: Vec<String>)
    ensures
        r.deep_view() == error_messages(previous, current, codes@),
{
    let mut out: Vec<String> = Vec::new();
    if previous < current {
        let mut first: Vec<char> = Vec::new();
        push_str(&mut first, "Error code 500 going up ! ");
        push_signed_decimal(&mut first, previous);
        push_str(&mut first, " -> ");
        push_signed_decimal(&mut first, current);
        assert(first@ =~= going_up_message(previous, current));
        let mut second: Vec<char> = Vec::new();
        push_str(&mut second, "Codes = ");
        push_str(&mut second, codes);
        assert(second@ =~= codes_message(codes@));
        out.push(string_of(&first));
        out.push(string_of(&second));
    }
    assert(out.deep_view() =~= error_messages(previous, current, codes@));
    out
}

} // verus!
