//! Provenance Resolver.
//!
//! Locating a commit in a repository — cloning, fetching, reading the
//! authored timestamp — is the work of an external revision resolver
//! and happens outside this library. What is decided here, and
//! verified, is the fallback chain: the primary repository is tried
//! first; a commit that is simply not found there sends the search to
//! the next repository in order, while any other failure is fatal at
//! once. Each attempt's result reaches the library as a tagged
//! outcome.

use vstd::prelude::*;

use crate::errors::ItemError;

verus! {

/// The resolved source-control provenance of one report: the
/// repository actually used (primary or whichever fallback
/// succeeded), the branch, the commit, and the commit's timestamp in
/// seconds since the epoch.
pub struct SourceDescriptor {
    pub repository_url: String,
    pub branch: String,
    pub commit_hash: String,
    pub commit_timestamp: i64,
}

/// What one resolution attempt against one repository reported.
#[derive(Clone, Copy, PartialEq, Eq, Structural, Debug)]
pub enum ResolveOutcome {
    /// The commit was located; carries its timestamp in seconds
    /// since the epoch.
    Found(i64),
    /// The commit is absent from this repository; the next
    /// repository in the chain may still hold it.
    NotFound,
    /// Any other failure: network, corrupt cache, ambiguous
    /// revision. No further fallback is attempted.
    Failed,
}

/// Where the fallback chain stands after one attempt, stated over
/// plain values so that laws can speak of it.
pub enum SpecProgress {
    /// Resolution succeeded against the repository with this URL, at
    /// this timestamp.
    Resolved(Seq<char>, i64),
    /// Try the repository with this index next.
    TryNext(int),
    /// The chain is over: either every repository lacked the commit,
    /// or an attempt failed fatally.
    Failed(ItemError),
}

/// How the chain advances: a found commit resolves against the
/// repository just tried; a missing commit moves to the next
/// repository, or exhausts the chain with `ResolutionNotFound`; any
/// other failure ends the chain with `Resolution` at once.
pub open spec fn spec_advance(repos: Seq<Seq<char>>, idx: int, outcome: ResolveOutcome) -> SpecProgress {
    match outcome {
        ResolveOutcome::Found(timestamp) => SpecProgress::Resolved(repos[idx], timestamp),
        ResolveOutcome::NotFound => if idx + 1 < repos.len() {
            SpecProgress::TryNext(idx + 1)
        } else {
            SpecProgress::Failed(ItemError::ResolutionNotFound)
        },
        ResolveOutcome::Failed => SpecProgress::Failed(ItemError::Resolution),
    }
}

/// Where the fallback chain stands after one attempt.
pub enum ResolveProgress {
    /// Resolution succeeded; the descriptor names the repository
    /// that held the commit.
    Resolved(SourceDescriptor),
    /// The commit was not in the repository just tried; try the one
    /// with this index next.
    TryNext(usize),
    /// The chain is over without a resolution.
    Failed(ItemError),
}

/// The view of a repository chain: each URL as a sequence of
/// characters.
pub open spec fn repo_views(repos: Seq<String>) -> Seq<Seq<char>> {
    repos.map_values(|r: String| r@)
}

/// Advances the fallback chain by one attempt's outcome.
///
/// `repos` is the ordered chain, primary first; `idx` the repository
/// just tried; `branch` and `commit` what resolution was asked for.
pub fn advance_resolution(
    repos: &Vec<String>,
    idx: usize,
    branch: &str,
    commit: &str,
    outcome: ResolveOutcome,
) -> (r: ResolveProgress)
    requires
        idx < repos@.len(),
    ensures
        match spec_advance(repo_views(repos@), idx as int, outcome) {
            SpecProgress::Resolved(url, timestamp) => r matches ResolveProgress::Resolved(sd)
                && sd.repository_url@ == url
                && sd.branch@ == branch@
                && sd.commit_hash@ == commit@
                && sd.commit_timestamp == timestamp,
            SpecProgress::TryNext(next) => r matches ResolveProgress::TryNext(n) && n == next,
            SpecProgress::Failed(e) => r == ResolveProgress::Failed(e),
        },
{
    match outcome {
        ResolveOutcome::Found(timestamp) => {
            let descriptor = SourceDescriptor {
                repository_url: repos[idx].clone(),
                branch: String::from_str(branch),
                commit_hash: String::from_str(commit),
                commit_timestamp: timestamp,
            };
            ResolveProgress::Resolved(descriptor)
        },
        ResolveOutcome::NotFound => {
            let n = repos.len();
            if idx < n - 1 {
                ResolveProgress::TryNext(idx + 1)
            } else {
                ResolveProgress::Failed(ItemError::ResolutionNotFound)
            }
        },
        ResolveOutcome::Failed => ResolveProgress::Failed(ItemError::Resolution),
    }
}

/// What running the whole fallback chain from repository `idx` on
/// yields, when repository `j` would report `outcomes[j]`.
pub open spec fn spec_chain(
    repos: Seq<Seq<char>>,
    outcomes: Seq<ResolveOutcome>,
    idx: int,
) -> SpecProgress
    decreases repos.len() - idx,
{
    if 0 <= idx < repos.len() && repos.len() == outcomes.len() {
        match spec_advance(repos, idx, outcomes[idx]) {
            SpecProgress::TryNext(next) => if next == idx + 1 {
                spec_chain(repos, outcomes, next)
            } else {
                SpecProgress::TryNext(next)
            },
            other => other,
        }
    } else {
        SpecProgress::Failed(ItemError::ResolutionNotFound)
    }
}

/// The chain settles at the first repository whose outcome is not
/// `NotFound`: whatever one attempt there yields, the chain yields.
pub proof fn lemma_chain_settles(
    repos: Seq<Seq<char>>,
    outcomes: Seq<ResolveOutcome>,
    idx: int,
    k: int,
)
    requires
        repos.len() == outcomes.len(),
        0 <= idx <= k < repos.len(),
        forall|j: int| idx <= j < k ==> (#[trigger] outcomes[j]) is NotFound,
        !(outcomes[k] is NotFound),
    ensures
        spec_chain(repos, outcomes, idx) == spec_advance(repos, k, outcomes[k]),
    decreases k - idx,
{
    if idx < k {
        lemma_chain_settles(repos, outcomes, idx + 1, k);
    }
}

/// A chain of nothing but `NotFound` exhausts with
/// `ResolutionNotFound`.
pub proof fn lemma_chain_exhausts(repos: Seq<Seq<char>>, outcomes: Seq<ResolveOutcome>, idx: int)
    requires
        repos.len() == outcomes.len(),
        0 <= idx < repos.len(),
        forall|j: int| idx <= j < repos.len() ==> (#[trigger] outcomes[j]) is NotFound,
    ensures
        spec_chain(repos, outcomes, idx) == SpecProgress::Failed(ItemError::ResolutionNotFound),
    decreases repos.len() - idx,
{
    if idx + 1 < repos.len() {
        lemma_chain_exhausts(repos, outcomes, idx + 1);
    }
}

/// A commit absent from the primary repository but found in the first
/// fallback resolves against the fallback's URL, not the primary's,
/// and carries the fallback's timestamp.
pub proof fn lemma_fallback_uses_fallback_url(
    repos: Seq<Seq<char>>,
    outcomes: Seq<ResolveOutcome>,
    timestamp: i64,
)
    requires
        repos.len() == outcomes.len(),
        repos.len() >= 2,
        outcomes[0] is NotFound,
        outcomes[1] == ResolveOutcome::Found(timestamp),
    ensures
        spec_chain(repos, outcomes, 0) == SpecProgress::Resolved(repos[1], timestamp),
{
    lemma_chain_settles(repos, outcomes, 0, 1);
}

} // verus!
