//! Filtering of downloadable distribution releases. The catalog itself is
//! fetched and parsed by an external collaborator; these are the rules it
//! filters by.

use vstd::prelude::*;
use crate::text::{contains_seq, str_contains, str_eq};

verus! {

/// One downloadable release of a distribution.
#[derive(Debug, PartialEq, PartialOrd, Eq, Ord)]
pub struct DistroRelease {
    pub name: String,
    pub version: Option<String>,
    pub url: String,
    pub variant: Option<String>,
}

/// Whether a release name passes the catalog's substring filter: with no
/// filter everything passes; with one, the name must contain the given text,
/// or must not when the filter is inverted.
pub fn matches_must_contains(
    name: &str,
    must_contains: &Option<String>,
    invert_must_contains: &bool,
) -> (r: bool)
    ensures
        r == match must_contains {
            Some(mc) => contains_seq(name@, mc@) != *invert_must_contains,
            None => true,
        },
{
    match must_contains {
        Some(mc) => str_contains(name, mc.as_str()) != *invert_must_contains,
        None => true,
    }
}

/// Whether a release status marks a prerelease.
pub fn is_prerelease(status: &Option<&str>) -> (r: bool)
    ensures
        r == match status {
            Some(x) => x@ == "prerelease"@,
            None => false,
        },
{
    match status {
        Some(x) => str_eq(x, "prerelease"),
        None => false,
    }
}

/// Whether a release status marks a rolling release.
pub fn is_rolling(status: &Option<&str>) -> (r: bool)
    ensures
        r == match status {
            Some(x) => x@ == "rolling"@,
            None => false,
        },
{
    match status {
        Some(x) => str_eq(x, "rolling"),
        None => false,
    }
}

} // verus!
