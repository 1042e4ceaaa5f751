//! The normalized shape of one raw benchmark report.
//!
//! A report arrives as loosely structured JSON; the binary that reads
//! it hands the library this plain-value model. Nothing is validated
//! on the way in: absent and ill-typed fields are recorded as such,
//! and the Record Builder decides what they mean. Numeric fields are
//! fixed-point, an `i64` in thousandths of the unit of measure.

use vstd::prelude::*;

verus! {

/// A numeric report field as found: present with a value, absent, or
/// present but not a number.
#[derive(Clone, Copy, PartialEq, Eq, Structural, Debug)]
pub enum NumField {
    /// The field is absent.
    Missing,
    /// The field is present but not numeric.
    NotNumeric,
    /// The field's value, in thousandths of the unit of measure.
    Value(i64),
}

/// One named sub-benchmark of a report, with the fields the pipeline
/// reads: the suite's full name, grouping metadata, and the median's
/// two summary statistics.
pub struct SubBenchmark {
    /// The key under which the sub-benchmark appears in the report.
    pub name: String,
    /// The `fullname` field; required downstream.
    pub fullname: Option<String>,
    /// The nested `directory_name` field; required downstream.
    pub directory_name: Option<String>,
    /// The nested `value_str` field; optional downstream.
    pub value_str: Option<String>,
    /// The median's `point_estimate`.
    pub point_estimate: NumField,
    /// The median's `standard_error`.
    pub standard_error: NumField,
}

/// A whole raw report: its compound `name` identifier, if present,
/// and its sub-benchmarks in the order the document gives them.
pub struct RawReport {
    /// The top-level `name` field.
    pub name: Option<String>,
    /// The `benchmarks` mapping; an absent mapping is an empty list.
    pub benchmarks: Vec<SubBenchmark>,
}

} // verus!
