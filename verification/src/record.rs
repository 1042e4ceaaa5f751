//! Record Builder.
//!
//! Assembles the decoded identifier, the resolved provenance and the
//! synthesized points into one benchmark submission, under fixed
//! metadata conventions: the executor label, the reconstructed
//! command line, one measurement criterion named `total`, and the
//! project label of the milli benchmark ingestion.
//!
//! A report whose `benchmarks` mapping is empty fails with
//! `EmptyReport`. A sub-benchmark with an absent required field fails
//! the whole submission — the first offending sub-benchmark, in
//! report order, names the error. This is the strict policy: a
//! malformed sub-benchmark is never silently skipped.

use vstd::prelude::*;

use crate::DecodedIdentifier;
use crate::driver::PipelineConfig;
use crate::errors::ItemError;
use crate::provenance::SourceDescriptor;
use crate::report::NumField;
use crate::report::RawReport;
use crate::report::SubBenchmark;
use crate::stats::SynthesisPolicy;
use crate::stats::points_fit;
use crate::stats::policy_ok;
use crate::stats::spec_points;
use crate::stats::synthesize;

verus! {

/// One entry of a software inventory.
pub struct Software {
    pub name: String,
    pub version: String,
}

/// The environment descriptor of a submission: host metadata,
/// supplied externally and passed through unchanged.
pub struct Environment {
    pub hostname: String,
    pub cpu: String,
    pub memory: u64,
    pub os_type: String,
    pub user_name: String,
    pub software: Vec<Software>,
}

/// A named unit-of-measure channel that measurements are tagged with.
pub struct Criterion {
    pub id: u64,
    pub name: String,
    pub unit: String,
}

/// One synthetic measurement, tagged with its criterion.
pub struct Measure {
    pub criterion_id: u64,
    pub value: i64,
}

/// The identity of one run: which sub-benchmark it is, under which
/// suite and executor, how it would be invoked, and where it groups.
pub struct RunIdentity {
    pub benchmark_name: String,
    pub suite_name: String,
    pub executor_name: String,
    pub cmdline: String,
    pub location: String,
    pub var_value: Option<String>,
}

/// One sub-benchmark's identity plus its synthetic data series.
pub struct Run {
    pub id: RunIdentity,
    pub points: Vec<Measure>,
}

/// The root record sent to the results sink.
pub struct BenchmarkSubmission {
    pub environment: Environment,
    pub source: SourceDescriptor,
    pub project: String,
    pub criteria: Vec<Criterion>,
    pub runs: Vec<Run>,
}

/// The fixed executor label of this ingestion path.
pub open spec fn spec_executor_name() -> Seq<char> {
    "Bench"@
}

/// The fixed project label of this ingestion path.
pub open spec fn spec_project_label() -> Seq<char> {
    "Milli's benchmark"@
}

/// The fixed name of the single measurement criterion.
pub open spec fn spec_criterion_name() -> Seq<char> {
    "total"@
}

/// The reconstructed command line of one run.
pub open spec fn spec_cmdline(benchmark_name: Seq<char>, sub_name: Seq<char>) -> Seq<char> {
    "cargo bench --bench "@ + benchmark_name + " -- "@ + sub_name
}

/// The point estimate of a sub-benchmark whose field is numeric.
pub open spec fn sub_estimate(sub: SubBenchmark) -> int {
    sub.point_estimate->Value_0 as int
}

/// The standard error of a sub-benchmark whose field is numeric.
pub open spec fn sub_std_error(sub: SubBenchmark) -> int {
    sub.standard_error->Value_0 as int
}

/// Why one sub-benchmark fails, or `None` when it is well-formed:
/// absent required fields come first, then ill-typed statistics, then
/// a negative standard error or an unusable policy.
pub open spec fn spec_sub_error(sub: SubBenchmark, policy: SynthesisPolicy) -> Option<ItemError> {
    if sub.fullname is None {
        Some(ItemError::MissingField)
    } else if sub.directory_name is None {
        Some(ItemError::MissingField)
    } else if sub.point_estimate is Missing {
        Some(ItemError::MissingField)
    } else if sub.point_estimate is NotNumeric {
        Some(ItemError::TypeMismatch)
    } else if sub.standard_error is Missing {
        Some(ItemError::MissingField)
    } else if sub.standard_error is NotNumeric {
        Some(ItemError::TypeMismatch)
    } else if sub_std_error(sub) < 0 || !policy_ok(policy) {
        Some(ItemError::InvalidStatistic)
    } else {
        None
    }
}

/// The error of the first offending sub-benchmark, in report order.
pub open spec fn first_error(subs: Seq<SubBenchmark>, policy: SynthesisPolicy) -> Option<
    ItemError,
>
    decreases subs.len(),
{
    if subs.len() == 0 {
        None
    } else if spec_sub_error(subs[0], policy) is Some {
        spec_sub_error(subs[0], policy)
    } else {
        first_error(subs.drop_first(), policy)
    }
}

/// Computing the points of one well-formed sub-benchmark stays within
/// the machine's integer range.
pub open spec fn sub_fits(sub: SubBenchmark, policy: SynthesisPolicy) -> bool {
    (sub.point_estimate is Value && sub.standard_error is Value) ==> points_fit(
        policy,
        sub_estimate(sub),
        sub_std_error(sub),
    )
}

/// What one run must hold for its sub-benchmark.
pub open spec fn run_matches(
    run: Run,
    benchmark_name: Seq<char>,
    sub: SubBenchmark,
    policy: SynthesisPolicy,
) -> bool {
    let pts = spec_points(policy, sub_estimate(sub), sub_std_error(sub));
    &&& run.id.benchmark_name@ == sub.name@
    &&& run.id.suite_name@ == sub.fullname->0@
    &&& run.id.executor_name@ == spec_executor_name()
    &&& run.id.cmdline@ == spec_cmdline(benchmark_name, sub.name@)
    &&& run.id.location@ == sub.directory_name->0@
    &&& (match sub.value_str {
        Some(v) => run.id.var_value matches Some(w) && w@ == v@,
        None => run.id.var_value is None,
    })
    &&& run.points@.len() == pts.len()
    &&& forall|k: int|
        0 <= k < pts.len() ==> (#[trigger] run.points@[k]).criterion_id == 0
            && run.points@[k].value as int == pts[k]
}

/// When every sub-benchmark before `i` is well-formed, the first
/// error of the whole list is the first error of the rest.
proof fn lemma_first_error_skip(subs: Seq<SubBenchmark>, policy: SynthesisPolicy, i: int)
    requires
        0 <= i <= subs.len(),
        forall|j: int| 0 <= j < i ==> spec_sub_error(#[trigger] subs[j], policy) is None,
    ensures
        first_error(subs, policy) == first_error(subs.subrange(i, subs.len() as int), policy),
    decreases i,
{
    if i == 0 {
        assert(subs.subrange(0, subs.len() as int) =~= subs);
    } else {
        let rest = subs.drop_first();
        assert(spec_sub_error(subs[0], policy) is None);
        assert forall|j: int| 0 <= j < i - 1 implies spec_sub_error(
            #[trigger] rest[j],
            policy,
        ) is None by {
            assert(rest[j] == subs[j + 1]);
        }
        lemma_first_error_skip(rest, policy, i - 1);
        assert(rest.subrange(i - 1, rest.len() as int) =~= subs.subrange(i, subs.len() as int));
    }
}

/// Builds the submission for one report.
///
/// Succeeds exactly when the report carries at least one
/// sub-benchmark and every sub-benchmark is well-formed; otherwise
/// the error is `EmptyReport` for an empty report, else the first
/// offending sub-benchmark's error. On success the submission carries
/// the environment and source unchanged, the fixed project label, one
/// criterion (`id 0`, named `total`, with the configured unit), and
/// one run per sub-benchmark, in report order.
pub fn build(
    env: Environment,
    source: SourceDescriptor,
    decoded: &DecodedIdentifier,
    report: &RawReport,
    config: &PipelineConfig,
) -> (r: Result<BenchmarkSubmission, ItemError>)
    requires
        forall|i: int|
            0 <= i < report.benchmarks@.len() ==> sub_fits(
                #[trigger] report.benchmarks@[i],
                config.policy,
            ),
    ensures
        r is Ok <==> report.benchmarks@.len() > 0 && first_error(
            report.benchmarks@,
            config.policy,
        ) is None,
        r matches Err(e) ==> e == (if report.benchmarks@.len() == 0 {
            ItemError::EmptyReport
        } else {
            first_error(report.benchmarks@, config.policy)->0
        }),
        r matches Ok(submission) ==> {
            &&& submission.environment == env
            &&& submission.source == source
            &&& submission.project@ == spec_project_label()
            &&& submission.criteria@.len() == 1
            &&& submission.criteria@[0].id == 0
            &&& submission.criteria@[0].name@ == spec_criterion_name()
            &&& submission.criteria@[0].unit@ == config.unit_label@
            &&& submission.runs@.len() == report.benchmarks@.len()
            &&& forall|i: int|
                0 <= i < report.benchmarks@.len() ==> run_matches(
                    #[trigger] submission.runs@[i],
                    decoded.benchmark_name@,
                    report.benchmarks@[i],
                    config.policy,
                )
        },
{
    let ghost subs = report.benchmarks@;
    let n = report.benchmarks.len();
    if n == 0 {
        return Err(ItemError::EmptyReport);
    }
    let mut runs: Vec<Run> = Vec::new();
    let mut i: usize = 0;
    while i < n
        invariant
            n == subs.len(),
            i <= n,
            subs == report.benchmarks@,
            runs@.len() == i,
            forall|j: int| 0 <= j < i ==> spec_sub_error(#[trigger] subs[j], config.policy) is None,
            forall|j: int|
                0 <= j < i ==> run_matches(
                    #[trigger] runs@[j],
                    decoded.benchmark_name@,
                    subs[j],
                    config.policy,
                ),
            forall|k: int| 0 <= k < subs.len() ==> sub_fits(#[trigger] subs[k], config.policy),
        decreases n - i,
    {
        let sub = &report.benchmarks[i];
        let suite_name = match &sub.fullname {
            Some(f) => f.clone(),
            None => {
                proof {
                    lemma_first_error_skip(subs, config.policy, i as int);
                    assert(subs.subrange(i as int, subs.len() as int)[0] == subs[i as int]);
                }
                return Err(ItemError::MissingField);
            },
        };
        let location = match &sub.directory_name {
            Some(d) => d.clone(),
            None => {
                proof {
                    lemma_first_error_skip(subs, config.policy, i as int);
                    assert(subs.subrange(i as int, subs.len() as int)[0] == subs[i as int]);
                }
                return Err(ItemError::MissingField);
            },
        };
        let estimate = match sub.point_estimate {
            NumField::Value(v) => v,
            NumField::Missing => {
                proof {
                    lemma_first_error_skip(subs, config.policy, i as int);
                    assert(subs.subrange(i as int, subs.len() as int)[0] == subs[i as int]);
                }
                return Err(ItemError::MissingField);
            },
            NumField::NotNumeric => {
                proof {
                    lemma_first_error_skip(subs, config.policy, i as int);
                    assert(subs.subrange(i as int, subs.len() as int)[0] == subs[i as int]);
                }
                return Err(ItemError::TypeMismatch);
            },
        };
        let std_error = match sub.standard_error {
            NumField::Value(v) => v,
            NumField::Missing => {
                proof {
                    lemma_first_error_skip(subs, config.policy, i as int);
                    assert(subs.subrange(i as int, subs.len() as int)[0] == subs[i as int]);
                }
                return Err(ItemError::MissingField);
            },
            NumField::NotNumeric => {
                proof {
                    lemma_first_error_skip(subs, config.policy, i as int);
                    assert(subs.subrange(i as int, subs.len() as int)[0] == subs[i as int]);
                }
                return Err(ItemError::TypeMismatch);
            },
        };
        let raw_points = match synthesize(config.policy, estimate, std_error) {
            Ok(p) => p,
            Err(e) => {
                proof {
                    lemma_first_error_skip(subs, config.policy, i as int);
                    assert(subs.subrange(i as int, subs.len() as int)[0] == subs[i as int]);
                }
                return Err(e);
            },
        };
        let ghost pts = spec_points(config.policy, estimate as int, std_error as int);
        let mut points: Vec<Measure> = Vec::new();
        let mut k: usize = 0;
        while k < raw_points.len()
            invariant
                k <= raw_points@.len(),
                raw_points@.map_values(|v: i64| v as int) == pts,
                points@.len() == k,
                forall|m: int|
                    0 <= m < k ==> (#[trigger] points@[m]).criterion_id == 0
                        && points@[m].value as int == pts[m],
            decreases raw_points@.len() - k,
        {
            points.push(Measure { criterion_id: 0, value: raw_points[k] });
            k = k + 1;
        }
        let cmdline = String::from_str("cargo bench --bench ").concat(
            decoded.benchmark_name.as_str(),
        ).concat(" -- ").concat(sub.name.as_str());
        proof {
            assert(cmdline@ =~= spec_cmdline(decoded.benchmark_name@, sub.name@));
        }
        let var_value = match &sub.value_str {
            Some(v) => Some(v.clone()),
            None => None,
        };
        let run = Run {
            id: RunIdentity {
                benchmark_name: sub.name.clone(),
                suite_name,
                executor_name: String::from_str("Bench"),
                cmdline,
                location,
                var_value,
            },
            points,
        };
        proof {
            assert(run_matches(run, decoded.benchmark_name@, subs[i as int], config.policy));
        }
        runs.push(run);
        i = i + 1;
    }
    proof {
        lemma_first_error_skip(subs, config.policy, n as int);
    }
    let criterion = Criterion {
        id: 0,
        name: String::from_str("total"),
        unit: config.unit_label.clone(),
    };
    let mut criteria: Vec<Criterion> = Vec::new();
    criteria.push(criterion);
    Ok(
        BenchmarkSubmission {
            environment: env,
            source,
            project: String::from_str("Milli's benchmark"),
            criteria,
            runs,
        },
    )
}

} // verus!
