use bench_ingest::DecodedIdentifier;
use bench_ingest::Environment;
use bench_ingest::ItemError;
use bench_ingest::NumField;
use bench_ingest::PipelineConfig;
use bench_ingest::RawReport;
use bench_ingest::SourceDescriptor;
use bench_ingest::SubBenchmark;
use bench_ingest::SynthesisPolicy;
use bench_ingest::build;
use bench_ingest::decode_report_name;
use bench_ingest::repo_chain;
use bench_ingest::should_process;

fn test_env() -> Environment {
    Environment {
        hostname: String::from("bench-host"),
        cpu: String::from("Bench"),
        memory: 4 * 1024 * 1024 * 1024,
        os_type: String::from("Linux"),
        user_name: String::from("ingest"),
        software: Vec::new(),
    }
}

fn test_source() -> SourceDescriptor {
    SourceDescriptor {
        repository_url: String::from("http://github.com/meilisearch/meilisearch"),
        branch: String::from("main"),
        commit_hash: String::from("6bf9824f"),
        commit_timestamp: 1_600_000_000,
    }
}

fn test_config() -> PipelineConfig {
    PipelineConfig {
        primary_repo_url: String::from("http://github.com/meilisearch/meilisearch"),
        fallback_repo_url: String::from("http://github.com/meilisearch/milli"),
        use_fallback_repo: true,
        policy: SynthesisPolicy::ThreePoint,
        unit_label: String::from("ns"),
    }
}

fn test_decoded() -> DecodedIdentifier {
    DecodedIdentifier::decode("search_songs_main_6bf9824f").unwrap()
}

fn good_sub(name: &str) -> SubBenchmark {
    SubBenchmark {
        name: String::from(name),
        fullname: Some(format!("search_songs/{}", name)),
        directory_name: Some(String::from("search_songs")),
        value_str: None,
        point_estimate: NumField::Value(100_000),
        standard_error: NumField::Value(5_000),
    }
}

#[test]
fn empty_report_is_rejected() {
    let report = RawReport {
        name: Some(String::from("search_songs_main_6bf9824f")),
        benchmarks: Vec::new(),
    };
    match build(test_env(), test_source(), &test_decoded(), &report, &test_config()) {
        Err(e) => assert_eq!(e, ItemError::EmptyReport),
        Ok(_) => panic!("an empty report must be rejected"),
    }
}

#[test]
fn missing_fullname_fails_the_whole_report() {
    let mut broken = good_sub("typo");
    broken.fullname = None;
    let report = RawReport {
        name: Some(String::from("search_songs_main_6bf9824f")),
        benchmarks: vec![good_sub("distinct"), broken],
    };
    match build(test_env(), test_source(), &test_decoded(), &report, &test_config()) {
        Err(e) => assert_eq!(e, ItemError::MissingField),
        Ok(_) => panic!("a sub-benchmark without a fullname must fail the report"),
    }
}

#[test]
fn missing_directory_name_fails_the_whole_report() {
    let mut broken = good_sub("typo");
    broken.directory_name = None;
    let report = RawReport {
        name: Some(String::from("search_songs_main_6bf9824f")),
        benchmarks: vec![broken],
    };
    match build(test_env(), test_source(), &test_decoded(), &report, &test_config()) {
        Err(e) => assert_eq!(e, ItemError::MissingField),
        Ok(_) => panic!("a sub-benchmark without a directory name must fail the report"),
    }
}

#[test]
fn non_numeric_estimate_is_a_type_mismatch() {
    let mut broken = good_sub("typo");
    broken.point_estimate = NumField::NotNumeric;
    let report = RawReport {
        name: Some(String::from("search_songs_main_6bf9824f")),
        benchmarks: vec![broken],
    };
    match build(test_env(), test_source(), &test_decoded(), &report, &test_config()) {
        Err(e) => assert_eq!(e, ItemError::TypeMismatch),
        Ok(_) => panic!("a non-numeric estimate must fail the report"),
    }
}

#[test]
fn negative_standard_error_fails_the_report() {
    let mut broken = good_sub("typo");
    broken.standard_error = NumField::Value(-1_000);
    let report = RawReport {
        name: Some(String::from("search_songs_main_6bf9824f")),
        benchmarks: vec![broken],
    };
    match build(test_env(), test_source(), &test_decoded(), &report, &test_config()) {
        Err(e) => assert_eq!(e, ItemError::InvalidStatistic),
        Ok(_) => panic!("a negative standard error must fail the report"),
    }
}

#[test]
fn first_offending_sub_benchmark_names_the_error() {
    let mut first = good_sub("first");
    first.standard_error = NumField::NotNumeric;
    let mut second = good_sub("second");
    second.fullname = None;
    let report = RawReport {
        name: Some(String::from("search_songs_main_6bf9824f")),
        benchmarks: vec![first, second],
    };
    match build(test_env(), test_source(), &test_decoded(), &report, &test_config()) {
        Err(e) => assert_eq!(e, ItemError::TypeMismatch),
        Ok(_) => panic!("the report must fail"),
    }
}

#[test]
fn well_formed_report_builds_the_full_submission() {
    let mut with_variable = good_sub("distinct");
    with_variable.value_str = Some(String::from("20"));
    let report = RawReport {
        name: Some(String::from("search_songs_main_6bf9824f")),
        benchmarks: vec![with_variable, good_sub("typo")],
    };
    let submission = match build(
        test_env(),
        test_source(),
        &test_decoded(),
        &report,
        &test_config(),
    ) {
        Ok(s) => s,
        Err(_) => panic!("a well-formed report must build"),
    };
    assert_eq!(submission.project, "Milli's benchmark");
    assert_eq!(submission.criteria.len(), 1);
    assert_eq!(submission.criteria[0].id, 0);
    assert_eq!(submission.criteria[0].name, "total");
    assert_eq!(submission.criteria[0].unit, "ns");
    assert_eq!(submission.source.repository_url, "http://github.com/meilisearch/meilisearch");
    assert_eq!(submission.environment.cpu, "Bench");
    assert_eq!(submission.runs.len(), 2);

    let run = &submission.runs[0];
    assert_eq!(run.id.benchmark_name, "distinct");
    assert_eq!(run.id.suite_name, "search_songs/distinct");
    assert_eq!(run.id.executor_name, "Bench");
    assert_eq!(run.id.cmdline, "cargo bench --bench search_songs -- distinct");
    assert_eq!(run.id.location, "search_songs");
    assert_eq!(run.id.var_value.as_deref(), Some("20"));
    let values: Vec<i64> = run.points.iter().map(|p| p.value).collect();
    assert_eq!(values, vec![95_000, 100_000, 105_000]);
    assert!(run.points.iter().all(|p| p.criterion_id == 0));

    let second = &submission.runs[1];
    assert_eq!(second.id.cmdline, "cargo bench --bench search_songs -- typo");
    assert_eq!(second.id.var_value, None);
}

#[test]
fn n_point_variant_builds_degenerate_series() {
    let mut config = test_config();
    config.policy = SynthesisPolicy::NPoint(1);
    config.unit_label = String::from("ms");
    let report = RawReport {
        name: Some(String::from("search_songs_main_6bf9824f")),
        benchmarks: vec![good_sub("distinct")],
    };
    let submission = match build(test_env(), test_source(), &test_decoded(), &report, &config) {
        Ok(s) => s,
        Err(_) => panic!("a well-formed report must build"),
    };
    assert_eq!(submission.criteria[0].unit, "ms");
    let values: Vec<i64> = submission.runs[0].points.iter().map(|p| p.value).collect();
    assert_eq!(values, vec![105_000, 105_000]);
}

#[test]
fn empty_filenames_are_skipped() {
    assert!(!should_process(""));
    assert!(should_process("songs_main_abc.json"));
}

#[test]
fn repo_chain_follows_the_configuration() {
    let with_fallback = repo_chain(&test_config());
    assert_eq!(
        with_fallback,
        vec![
            String::from("http://github.com/meilisearch/meilisearch"),
            String::from("http://github.com/meilisearch/milli"),
        ]
    );
    let mut config = test_config();
    config.use_fallback_repo = false;
    let only_primary = repo_chain(&config);
    assert_eq!(only_primary, vec![String::from("http://github.com/meilisearch/meilisearch")]);
}

#[test]
fn report_without_a_name_is_missing_a_field() {
    let report = RawReport { name: None, benchmarks: vec![good_sub("distinct")] };
    match decode_report_name(&report) {
        Err(e) => assert_eq!(e, ItemError::MissingField),
        Ok(_) => panic!("a report without a name must be rejected"),
    }
}

#[test]
fn report_name_decodes_through_the_driver() {
    let report = RawReport {
        name: Some(String::from("search_songs_main_6bf9824f")),
        benchmarks: vec![good_sub("distinct")],
    };
    let decoded = match decode_report_name(&report) {
        Ok(d) => d,
        Err(_) => panic!("a well-formed name must decode"),
    };
    assert_eq!(decoded.benchmark_name, "search_songs");
    assert_eq!(decoded.branch, "main");
    assert_eq!(decoded.commit, "6bf9824f");
}
