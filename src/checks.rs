//! Range checks shared by the record types: each gives the text of an offending
//! value, or nothing.
use crate::decimal::{compare, decimal_text, decimal_to_text, Dec};
use crate::text::{i64_text, int_text};
use vstd::prelude::*;

verus! {

/// The upper bound of a rate per 100,000.
pub open spec fn hundred_k_spec() -> Dec {
    Dec { mantissa: 100000, scale: 0 }
}

pub fn hundred_k() -> (r: Dec)
    ensures
        r == hundred_k_spec(),
        r.wf(),
{
    Dec { mantissa: 100000, scale: 0 }
}

/// The first of two findings that is there.
pub open spec fn either(a: Option<Seq<char>>, b: Option<Seq<char>>) -> Option<Seq<char>> {
    if a is Some {
        a
    } else {
        b
    }
}

/// A count is refused when negative.
pub open spec fn count_issue(c: i64) -> Option<Seq<char>> {
    if c < 0 {
        Some(int_text(c as int))
    } else {
        None
    }
}

pub open spec fn optional_count_issue(c: Option<i64>) -> Option<Seq<char>> {
    match c {
        Some(v) => count_issue(v),
        None => None,
    }
}

/// A rate per 100,000 is refused outside `[0, 100000]`: both bounds are
/// checked, so a record with a negative rate or one above 100000 is refused.
pub open spec fn rate_issue(d: Dec) -> Option<Seq<char>> {
    if d.mantissa < 0 || d.cmp_spec(hundred_k_spec()) > 0 {
        Some(decimal_text(d))
    } else {
        None
    }
}

pub open spec fn optional_rate_issue(d: Option<Dec>) -> Option<Seq<char>> {
    match d {
        Some(v) => rate_issue(v),
        None => None,
    }
}

/// The view of a finding.
pub open spec fn issue_view(r: Option<String>) -> Option<Seq<char>> {
    match r {
        Some(s) => Some(s@),
        None => None,
    }
}

pub fn check_count(c: i64) -> (r: Option<String>)
    ensures
        issue_view(r) == count_issue(c),
{
    if c < 0 {
        Some(i64_text(c))
    } else {
        None
    }
}

pub fn check_optional_count(c: Option<i64>) -> (r: Option<String>)
    ensures
        issue_view(r) == optional_count_issue(c),
{
    match c {
        Some(v) => check_count(v),
        None => None,
    }
}

pub fn check_rate(d: Dec) -> (r: Option<String>)
    requires
        d.wf(),
    ensures
        issue_view(r) == rate_issue(d),
{
    if d.is_negative() || compare(d, hundred_k()) > 0 {
        Some(decimal_to_text(d))
    } else {
        None
    }
}

pub fn check_optional_rate(d: Option<Dec>) -> (r: Option<String>)
    requires
        d matches Some(v) ==> v.wf(),
    ensures
        issue_view(r) == optional_rate_issue(d),
{
    match d {
        Some(v) => check_rate(v),
        None => None,
    }
}

} // verus!
