use cargo_bounds::bound::{parse_bound, filter_versions};
use cargo_bounds::sampler::{apply_mask, select_candidates, Granularity};
use cargo_bounds::version::{collect_versions, sort_versions, Version, VersionListError};

fn v(major: u64, minor: u64, patch: u64) -> Version {
    Version { major, minor, patch }
}

fn entry(s: &str, yanked: bool) -> (String, bool) {
    (String::from(s), yanked)
}

#[test]
fn version_ordering() {
    assert!(v(1, 2, 3).lt(&v(1, 2, 4)));
    assert!(v(1, 2, 3).lt(&v(1, 3, 0)));
    assert!(v(1, 9, 9).lt(&v(2, 0, 0)));
    assert!(!v(2, 0, 0).lt(&v(1, 9, 9)));
    assert!(v(1, 2, 3).le(&v(1, 2, 3)));
    assert!(!v(1, 2, 3).lt(&v(1, 2, 3)));
    assert!(v(0, 1, 0).same_minor_line(&v(0, 1, 7)));
    assert!(!v(0, 1, 0).same_minor_line(&v(0, 2, 0)));
}

#[test]
fn sorting_versions() {
    let mut vs = vec![v(1, 3, 0), v(0, 9, 9), v(1, 2, 5), v(2, 0, 0), v(1, 2, 0)];
    sort_versions(&mut vs);
    assert_eq!(vs, vec![v(0, 9, 9), v(1, 2, 0), v(1, 2, 5), v(1, 3, 0), v(2, 0, 0)]);
}

#[test]
fn collect_keeps_released_versions() {
    let entries = vec![
        entry("1.1.0", false),
        entry("1.2.0", false),
        entry("1.2.4", true),
        entry("1.3.0-alpha.1", false),
        entry("2.0.0", false),
    ];
    let got = collect_versions(&entries).unwrap();
    assert_eq!(got, vec![v(1, 1, 0), v(1, 2, 0), v(2, 0, 0)]);
}

#[test]
fn collect_rejects_unparsable_version() {
    let entries = vec![entry("1.0.0", false), entry("not-a-version", false)];
    match collect_versions(&entries) {
        Err(VersionListError::UnparsableVersion(s)) => assert_eq!(s, "not-a-version"),
        _ => panic!("expected an unparsable version error"),
    }
}

#[test]
fn collect_ignores_unparsable_yanked_version() {
    let entries = vec![entry("1.0.0", false), entry("garbage", true)];
    let got = collect_versions(&entries).unwrap();
    assert_eq!(got, vec![v(1, 0, 0)]);
}

#[test]
fn caret_bound_matches() {
    let b = parse_bound("^1.2.0").unwrap();
    assert!(!b.matches(&v(1, 1, 0)));
    assert!(b.matches(&v(1, 2, 0)));
    assert!(b.matches(&v(1, 2, 5)));
    assert!(b.matches(&v(1, 3, 0)));
    assert!(!b.matches(&v(2, 0, 0)));
}

#[test]
fn caret_zero_major_bound_matches() {
    let b = parse_bound("^0.2.1").unwrap();
    assert!(b.matches(&v(0, 2, 1)));
    assert!(b.matches(&v(0, 2, 9)));
    assert!(!b.matches(&v(0, 2, 0)));
    assert!(!b.matches(&v(0, 3, 0)));
    assert!(!b.matches(&v(1, 2, 1)));
}

#[test]
fn tilde_bound_matches() {
    let b = parse_bound("~1.2.3").unwrap();
    assert!(b.matches(&v(1, 2, 3)));
    assert!(b.matches(&v(1, 2, 9)));
    assert!(!b.matches(&v(1, 2, 2)));
    assert!(!b.matches(&v(1, 3, 0)));
}

#[test]
fn comparison_bounds_match() {
    let b = parse_bound(">=1.2, <1.5").unwrap();
    assert!(!b.matches(&v(1, 1, 9)));
    assert!(b.matches(&v(1, 2, 0)));
    assert!(b.matches(&v(1, 4, 9)));
    assert!(!b.matches(&v(1, 5, 0)));

    let exact = parse_bound("=1.2.3").unwrap();
    assert!(exact.matches(&v(1, 2, 3)));
    assert!(!exact.matches(&v(1, 2, 4)));

    let star = parse_bound("*").unwrap();
    assert!(star.matches(&v(0, 0, 1)));
    assert!(star.matches(&v(9, 9, 9)));
}

#[test]
fn prerelease_comparators() {
    let greater = parse_bound(">1.0.0-alpha").unwrap();
    assert!(greater.matches(&v(1, 0, 0)));
    let exact = parse_bound("=1.0.0-alpha").unwrap();
    assert!(!exact.matches(&v(1, 0, 0)));
    let caret = parse_bound("^1.0.0-alpha").unwrap();
    assert!(caret.matches(&v(1, 0, 0)));
}

#[test]
fn bad_bound_is_rejected() {
    assert!(parse_bound("not a bound").is_none());
    assert!(parse_bound("").is_none());
}

#[test]
fn filtering_is_exact() {
    let b = parse_bound("^1.2.0").unwrap();
    let vs = vec![v(1, 1, 0), v(1, 2, 0), v(1, 2, 5), v(1, 3, 0), v(2, 0, 0)];
    let kept = filter_versions(&vs, &b);
    assert_eq!(kept, vec![v(1, 2, 0), v(1, 2, 5), v(1, 3, 0)]);
}

#[test]
fn sampler_minor_boundaries_scenario() {
    // Dependency `foo` declares `^1.2.0`; the provider lists
    // 1.1.0, 1.2.0, 1.2.5, 1.3.0, 2.0.0. Filtering keeps 1.2.0, 1.2.5 and
    // 1.3.0, and the default granularity tests 1.2.0 and 1.3.0 only.
    let b = parse_bound("^1.2.0").unwrap();
    let vs = vec![v(1, 1, 0), v(1, 2, 0), v(1, 2, 5), v(1, 3, 0), v(2, 0, 0)];
    let mut kept = filter_versions(&vs, &b);
    sort_versions(&mut kept);
    assert_eq!(kept, vec![v(1, 2, 0), v(1, 2, 5), v(1, 3, 0)]);

    let mask = select_candidates(&kept, Granularity::MinorBoundaries);
    assert_eq!(mask, vec![true, false, true]);
    let tested = apply_mask(&kept, &mask, true);
    let skipped = apply_mask(&kept, &mask, false);
    assert_eq!(tested, vec![v(1, 2, 0), v(1, 3, 0)]);
    assert_eq!(skipped, vec![v(1, 2, 5)]);
}

#[test]
fn sampler_always_tests_highest() {
    let vs = vec![v(1, 0, 0), v(1, 0, 1), v(1, 0, 2)];
    let mask = select_candidates(&vs, Granularity::MinorBoundaries);
    assert_eq!(mask, vec![true, false, true]);
}

#[test]
fn sampler_all_tests_everything() {
    let vs = vec![v(1, 0, 0), v(1, 0, 1), v(1, 0, 2)];
    let mask = select_candidates(&vs, Granularity::All);
    assert_eq!(mask, vec![true, true, true]);
}

#[test]
fn sampler_patch_boundaries() {
    let vs = vec![v(1, 0, 0), v(1, 0, 1), v(1, 0, 1), v(1, 0, 2)];
    let mask = select_candidates(&vs, Granularity::PatchBoundaries);
    assert_eq!(mask, vec![true, true, false, true]);
}

#[test]
fn sampler_zero_major_minor_lines() {
    let vs = vec![v(0, 1, 0), v(0, 1, 1), v(0, 2, 0)];
    let mask = select_candidates(&vs, Granularity::MinorBoundaries);
    assert_eq!(mask, vec![true, false, true]);
}

#[test]
fn sampler_empty_and_single() {
    let empty: Vec<Version> = vec![];
    assert_eq!(select_candidates(&empty, Granularity::MinorBoundaries), Vec::<bool>::new());
    let one = vec![v(1, 0, 0)];
    assert_eq!(select_candidates(&one, Granularity::MinorBoundaries), vec![true]);
}
