//! Normalization pipeline for statistical benchmark reports.
//!
//! The library turns a loosely structured benchmark report into a
//! strongly typed submission for a results-storage service: it decodes
//! the compound report identifier into benchmark name, branch and
//! commit, drives the provenance fallback chain over tagged resolution
//! outcomes, synthesizes a small sample set from a point estimate and
//! its standard error, and assembles the final submission record.
//!
//! Measured values are carried as fixed-point integers: an `i64` holds
//! the value in thousandths of the configured unit of measure, so the
//! arithmetic on estimates is exact. The surrounding binary converts
//! between this representation and the report's decimal numbers.

use vstd::prelude::*;

mod driver;
mod errors;
mod ident;
mod provenance;
mod record;
mod report;
mod stats;

pub use driver::PipelineConfig;
pub use driver::decode_report_name;
pub use driver::repo_chain;
pub use driver::should_process;
pub use driver::spec_repo_chain;
pub use errors::ItemError;
pub use record::BenchmarkSubmission;
pub use record::Criterion;
pub use record::Environment;
pub use record::Measure;
pub use record::Run;
pub use record::RunIdentity;
pub use record::Software;
pub use record::build;
pub use record::first_error;
pub use record::run_matches;
pub use record::spec_cmdline;
pub use record::spec_criterion_name;
pub use record::spec_executor_name;
pub use record::spec_project_label;
pub use record::spec_sub_error;
pub use record::sub_estimate;
pub use record::sub_fits;
pub use record::sub_std_error;
pub use ident::lemma_decode_round_trip;
pub use ident::spec_decode;
pub use provenance::ResolveOutcome;
pub use provenance::ResolveProgress;
pub use provenance::SourceDescriptor;
pub use provenance::SpecProgress;
pub use provenance::advance_resolution;
pub use provenance::lemma_chain_exhausts;
pub use provenance::lemma_chain_settles;
pub use provenance::lemma_fallback_uses_fallback_url;
pub use provenance::repo_views;
pub use provenance::spec_advance;
pub use provenance::spec_chain;
pub use report::NumField;
pub use report::RawReport;
pub use report::SubBenchmark;
pub use stats::SynthesisPolicy;
pub use stats::policy_ok;
pub use stats::points_fit;
pub use stats::spec_points;
pub use stats::synthesize;

verus! {

/// The three components recovered from a compound report identifier
/// of the shape `<benchmark_name>_<branch>_<commit>`.
pub struct DecodedIdentifier {
    pub benchmark_name: String,
    pub branch: String,
    pub commit: String,
}

} // verus!
