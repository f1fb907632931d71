use cargo_bounds::bisect::{find_boundary_index, Bisection, Phase};
use cargo_bounds::bound::parse_bound;
use cargo_bounds::orchestrate::{
    bound_span, candidate_versions, count_failures, granularity_for, main_impl, walk_plan,
    ModeOutcome, TestSummary,
};
use cargo_bounds::render::range_expression;
use cargo_bounds::sampler::Granularity;
use cargo_bounds::trial::{classify_outcome, TrialResult};
use cargo_bounds::version::Version;

fn v(major: u64, minor: u64, patch: u64) -> Version {
    Version { major, minor, patch }
}

const S: TrialResult = TrialResult::Success;
const F: TrialResult = TrialResult::Fail;

#[test]
fn classification() {
    assert_eq!(classify_outcome(true, true), S);
    assert_eq!(classify_outcome(true, false), F);
    assert_eq!(classify_outcome(false, false), F);
}

#[test]
fn boundary_on_monotone_fail_edge() {
    // Passing region below, failing region above: the Fail edge search
    // reports the highest passing index.
    let results = vec![S, S, F, F, F];
    let (idx, trials) = find_boundary_index(&results, F);
    assert_eq!(idx, 1);
    assert!(trials >= 2);
}

#[test]
fn boundary_on_monotone_success_edge() {
    // Failing region below, passing region above: the Success edge search
    // reports the lowest passing index.
    let results = vec![F, F, S, S];
    let (idx, _) = find_boundary_index(&results, S);
    assert_eq!(idx, 2);
}

#[test]
fn boundary_degenerate_ends() {
    // Everything passes: the Fail edge search keeps the highest index, the
    // Success edge search keeps the lowest.
    let all_pass = vec![S, S, S, S];
    assert_eq!(find_boundary_index(&all_pass, F).0, 3);
    assert_eq!(find_boundary_index(&all_pass, S).0, 0);
}

#[test]
fn boundary_trial_count_is_logarithmic() {
    let mut results: Vec<TrialResult> = Vec::new();
    for i in 0..1024 {
        results.push(if i < 700 { S } else { F });
    }
    let (idx, trials) = find_boundary_index(&results, F);
    assert_eq!(idx, 699);
    // pow2(trials - 3) <= 1022, so at most 12 narrowing probes plus the two
    // confirmations.
    assert!(trials <= 12);
}

#[test]
fn bisection_engine_steps() {
    let mut b = Bisection::new(5, F);
    // Window [0, 4]: probe 2, then [2, 4]: probe 3, then confirm 2 and 3.
    assert_eq!(b.next_query(), Some(2));
    b.report(S);
    assert_eq!(b.next_query(), Some(3));
    b.report(F);
    assert_eq!(b.next_query(), Some(2));
    b.report(S);
    assert_eq!(b.next_query(), Some(3));
    b.report(F);
    assert_eq!(b.next_query(), None);
    assert_eq!(b.answer(), Some(2));
    assert!(matches!(b.phase, Phase::Done { answer: 2 }));
}

#[test]
fn minimize_scenario() {
    // Minimizing `foo`: the provider lists 1.0.0 through 2.0.0 and the
    // declared bound is ^1.2.0. The validator passes everything below 2.0.0.
    let versions = vec![
        v(1, 0, 0),
        v(1, 1, 0),
        v(1, 2, 0),
        v(1, 2, 5),
        v(1, 3, 0),
        v(1, 4, 0),
        v(2, 0, 0),
    ];
    let bound = parse_bound("^1.2.0").unwrap();
    let (min_index, max_index) = bound_span(&versions, &bound).unwrap();
    assert_eq!((min_index, max_index), (2, 5));

    // Search downward over versions[..=min_index] with the Success edge:
    // everything there passes, so the lowest version still passes.
    let low_results = vec![S, S, S];
    let (low_idx, _) = find_boundary_index(&low_results, S);
    let found_min = versions[low_idx];
    assert_eq!(found_min, v(1, 0, 0));

    // Search upward over versions[max_index..] with the Fail edge:
    // 1.4.0 passes and 2.0.0 fails, so 1.4.0 is the last passing version.
    let high_results = vec![S, F];
    let (high_idx, _) = find_boundary_index(&high_results, F);
    let found_max = versions[max_index + high_idx];
    assert_eq!(found_max, v(1, 4, 0));

    let reported = range_expression(&found_min, &found_max);
    assert_eq!(reported, ">=1.0.0, <=1.4.0");
}

#[test]
fn boundary_minimal_window() {
    // Two candidates: no narrowing, just the two confirmations.
    let (idx, trials) = find_boundary_index(&vec![S, F], F);
    assert_eq!(idx, 0);
    assert_eq!(trials, 2);
    let (idx2, trials2) = find_boundary_index(&vec![F, S], S);
    assert_eq!(idx2, 1);
    assert_eq!(trials2, 2);
}

#[test]
fn bound_span_none_when_nothing_matches() {
    let versions = vec![v(0, 1, 0), v(0, 2, 0)];
    let bound = parse_bound("^5.0.0").unwrap();
    assert!(bound_span(&versions, &bound).is_none());
}

#[test]
fn walk_plan_covers_minor_lines_in_range() {
    let versions = vec![
        v(0, 9, 0),
        v(1, 0, 0),
        v(1, 0, 3),
        v(1, 1, 0),
        v(1, 1, 2),
        v(1, 2, 0),
        v(2, 0, 0),
    ];
    let plan = walk_plan(&versions, &v(1, 0, 0), &v(1, 2, 0));
    assert_eq!(plan, vec![v(1, 0, 0), v(1, 1, 0), v(1, 2, 0)]);
}

#[test]
fn walk_plan_includes_both_ends() {
    let versions = vec![v(1, 0, 0), v(1, 0, 1), v(1, 0, 2)];
    let plan = walk_plan(&versions, &v(1, 0, 0), &v(1, 0, 2));
    assert_eq!(plan, vec![v(1, 0, 0)]);
}

#[test]
fn candidate_pipeline() {
    let entries = vec![
        (String::from("1.1.0"), false),
        (String::from("1.3.0"), false),
        (String::from("1.2.0"), false),
        (String::from("2.0.0"), false),
    ];
    let bound = parse_bound("^1.2").unwrap();
    let got = candidate_versions(&entries, &bound).unwrap();
    assert_eq!(got, vec![v(1, 2, 0), v(1, 3, 0)]);
}

#[test]
fn counting_failures() {
    assert_eq!(count_failures(&vec![S, F, F, S, F]), 3);
    assert_eq!(count_failures(&Vec::new()), 0);
}

#[test]
fn summary_aggregation_and_print() {
    let mut summary = TestSummary::default();
    summary.record(0);
    summary.record(3);
    summary.record(2);
    assert_eq!(summary.failed_deps, 2);
    assert_eq!(summary.failed_versions, 5);
    assert_eq!(
        summary.print(),
        "2 deps have failing versions in their bounds. (5 versions failed in total)"
    );
}

#[test]
fn exit_decision() {
    let clean = TestSummary::default();
    assert!(main_impl(ModeOutcome::Tested(clean)).is_ok());
    let mut bad = TestSummary::default();
    bad.record(1);
    let err = main_impl(ModeOutcome::Tested(bad)).unwrap_err();
    assert_eq!(err, "1 deps have failing versions in their bounds. (1 versions failed in total)");
    assert!(main_impl(ModeOutcome::Minimized).is_ok());
}

#[test]
fn granularity_defaults() {
    assert_eq!(granularity_for(false), Granularity::MinorBoundaries);
    assert_eq!(granularity_for(true), Granularity::PatchBoundaries);
}
