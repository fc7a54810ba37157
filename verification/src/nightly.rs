//! Judging a version probe's output: is the probed toolchain a nightly
//! build?
//!
//! A probe runs the candidate's build tool with a version-query argument
//! and captures its standard output. That output reports a nightly
//! toolchain exactly when it begins with the build tool's banner
//! (`"cargo "`) and carries the pre-release marker `"-nightly "`. A probe
//! that produced no usable output (missing binary, nonzero exit,
//! unreadable text) never reports nightly; it is not an error, the next
//! candidate is simply tried.

use crate::text::{contains_seq, starts_with, str_contains, str_starts_with};
use vstd::prelude::*;

verus! {

/// A version string reports a nightly toolchain: it begins with the
/// build tool's banner and contains the pre-release marker.
pub open spec fn spec_is_nightly(s: Seq<char>) -> bool {
    starts_with(s, "cargo "@) && contains_seq(s, "-nightly "@)
}

/// Judge a captured version string.
pub fn is_nightly(s: &str) -> (r: bool)
    ensures
        r == spec_is_nightly(s@),
{
    str_starts_with(s, "cargo ") && str_contains(s, "-nightly ")
}

/// What a probe reports: a failed probe (`None`) never reports nightly.
pub open spec fn probe_nightly(out: Option<Seq<char>>) -> bool {
    match out {
        Some(s) => spec_is_nightly(s),
        None => false,
    }
}

/// Judge a probe's outcome; `None` stands for a probe that failed.
pub fn probe_reports_nightly(out: &Option<String>) -> (r: bool)
    ensures
        r == probe_nightly(out.deep_view()),
{
    match out {
        Some(s) => is_nightly(s.as_str()),
        None => false,
    }
}

} // verus!
