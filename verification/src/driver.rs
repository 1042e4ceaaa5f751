//! Pipeline Driver decisions.
//!
//! The driver proper — fetching a report over the network, running
//! the revision resolver, delivering the submission — is blocking
//! outside work and lives in the binary around this library. Every
//! decision it takes is made here: which filenames are processed,
//! which repositories are tried and in what order, and how a report's
//! identifier is decoded. One configuration value consolidates the
//! near-duplicate ingestion variants: whether a fallback repository
//! exists, which synthesis policy applies, and which unit the single
//! criterion carries.

use vstd::prelude::*;

use crate::DecodedIdentifier;
use crate::errors::ItemError;
use crate::ident::spec_decode;
use crate::provenance::repo_views;
use crate::report::RawReport;
use crate::stats::SynthesisPolicy;

verus! {

/// Everything one ingestion variant fixes: the repository chain, the
/// synthesis policy and the criterion's unit label.
pub struct PipelineConfig {
    /// The repository tried first.
    pub primary_repo_url: String,
    /// The repository tried when the commit is absent from the
    /// primary; ignored unless `use_fallback_repo` holds.
    pub fallback_repo_url: String,
    /// Whether the fallback repository is part of the chain.
    pub use_fallback_repo: bool,
    /// How synthetic points are derived.
    pub policy: SynthesisPolicy,
    /// The unit of the single measurement criterion.
    pub unit_label: String,
}

/// The ordered repository chain a configuration prescribes.
pub open spec fn spec_repo_chain(config: PipelineConfig) -> Seq<Seq<char>> {
    if config.use_fallback_repo {
        seq![config.primary_repo_url@, config.fallback_repo_url@]
    } else {
        seq![config.primary_repo_url@]
    }
}

/// A filename is processed exactly when it is non-empty; empty lines
/// of the input list are silently skipped.
pub fn should_process(filename: &str) -> (b: bool)
    ensures
        b <==> filename@.len() > 0,
{
    !filename.is_empty()
}

/// The repositories to try for one report, primary first.
pub fn repo_chain(config: &PipelineConfig) -> (repos: Vec<String>)
    ensures
        repo_views(repos@) == spec_repo_chain(*config),
        repos@.len() >= 1,
{
    let mut repos: Vec<String> = Vec::new();
    repos.push(config.primary_repo_url.clone());
    if config.use_fallback_repo {
        repos.push(config.fallback_repo_url.clone());
    }
    proof {
        assert(repo_views(repos@) =~~= spec_repo_chain(*config));
    }
    repos
}

/// Decodes the report's compound `name` field: `MissingField` when
/// the report has none, else whatever decoding yields.
pub fn decode_report_name(report: &RawReport) -> (r: Result<DecodedIdentifier, ItemError>)
    ensures
        match report.name {
            None => r == Err::<DecodedIdentifier, ItemError>(ItemError::MissingField),
            Some(name) => match r {
                Ok(d) => spec_decode(name@) == Some((d.benchmark_name@, d.branch@, d.commit@)),
                Err(e) => e == ItemError::MalformedIdentifier && spec_decode(name@) is None,
            },
        },
{
    match &report.name {
        Some(name) => DecodedIdentifier::decode(name.as_str()),
        None => Err(ItemError::MissingField),
    }
}

} // verus!
