//! Classification of transport and HTTP failures into user-actionable
//! categories.  The category only selects guidance shown to the user;
//! the error itself propagates unchanged.

use vstd::prelude::*;
use crate::text::{chars_of, contains_chars, contains_seq, lower_of, lowercase};

verus! {

/// The user-actionable category of a failure.
#[derive(Clone, Copy, PartialEq, Eq, Structural, Debug)]
pub enum ErrorCategory {
    Auth,
    Quota,
    Permission,
    Other,
}

/// The category of an error message: case-insensitive substring
/// matching, authentication before quota before permission.
pub open spec fn classified(msg: Seq<char>) -> ErrorCategory {
    let m = lower_of(msg);
    if contains_seq(m, "401"@) || contains_seq(m, "unauthorized"@) || contains_seq(m, "api key"@) {
        ErrorCategory::Auth
    } else if contains_seq(m, "429"@) || contains_seq(m, "quota"@) || contains_seq(
        m,
        "rate limit"@,
    ) {
        ErrorCategory::Quota
    } else if contains_seq(m, "403"@) || contains_seq(m, "forbidden"@) {
        ErrorCategory::Permission
    } else {
        ErrorCategory::Other
    }
}

fn has(hay: &Vec<char>, pat: &str) -> (r: bool)
    ensures
        r == contains_seq(hay@, pat@),
{
    let p = chars_of(pat);
    contains_chars(hay, &p)
}

/// Classifies a failure message by case-insensitive substring matching.
pub fn classify_error(message: &str) -> (r: ErrorCategory)
    ensures
        r == classified(message@),
{
    let lowered = lowercase(message);
    let m = chars_of(lowered.as_str());
    if has(&m, "401") || has(&m, "unauthorized") || has(&m, "api key") {
        ErrorCategory::Auth
    } else if has(&m, "429") || has(&m, "quota") || has(&m, "rate limit") {
        ErrorCategory::Quota
    } else if has(&m, "403") || has(&m, "forbidden") {
        ErrorCategory::Permission
    } else {
        ErrorCategory::Other
    }
}

} // verus!
