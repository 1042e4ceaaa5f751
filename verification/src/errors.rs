//! Error kinds of the normalization pipeline.

use vstd::prelude::*;

verus! {

/// Everything that can go wrong while one report is normalized.
///
/// Each kind is fatal for the report being processed; the driver
/// isolates reports from one another, so a failed report never stops
/// its siblings.
#[derive(Clone, Copy, PartialEq, Eq, Structural, Debug)]
pub enum ItemError {
    /// Report retrieval failed: network error, non-success status or
    /// malformed JSON.
    Fetch,
    /// The report's `name` field cannot be split into benchmark name,
    /// branch and commit.
    MalformedIdentifier,
    /// The commit was found in none of the configured repositories.
    ResolutionNotFound,
    /// Provenance resolution failed for another reason (network,
    /// corrupt cache, ambiguous revision); no further fallback is
    /// attempted.
    Resolution,
    /// A required report field is absent.
    MissingField,
    /// A report field is present but of the wrong shape.
    TypeMismatch,
    /// A negative standard error, or a point count of zero.
    InvalidStatistic,
    /// The report carries no sub-benchmarks.
    EmptyReport,
    /// The upload to the results sink failed.
    Sink,
}

} // verus!
