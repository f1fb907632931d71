use cargo_bounds::manifest::{
    dependency_names, parse_manifest, pin_dependency, read_and_normalize, ManifestError,
};
use cargo_bounds::render::{pin_expression, range_expression, u64_string, version_string};
use cargo_bounds::store::ManifestStore;
use cargo_bounds::version::Version;

fn v(major: u64, minor: u64, patch: u64) -> Version {
    Version { major, minor, patch }
}

const MANIFEST: &str = "[package]\nname = \"demo\"\n\n[dependencies]\nfoo = \"1.2\"\nbar = { version = \"0.3\", features = [\"extra\"] }\n";

#[test]
fn parse_round_trips_exactly() {
    let doc = parse_manifest(MANIFEST).unwrap();
    assert_eq!(doc.to_string(), MANIFEST);
}

#[test]
fn parse_normalizes_missing_final_newline() {
    // The serializer is deterministic but not byte-identical on degenerate
    // input: a manifest without a final newline gains one.
    let doc = parse_manifest("[dependencies]\nfoo = \"1.0\"").unwrap();
    assert_eq!(doc.to_string(), "[dependencies]\nfoo = \"1.0\"\n");
}

#[test]
fn parse_rejects_bad_manifest() {
    assert!(matches!(parse_manifest("[unclosed"), Err(ManifestError::Unparsable)));
}

#[test]
fn listing_dependencies() {
    let doc = parse_manifest(MANIFEST).unwrap();
    let names = dependency_names(&doc).unwrap().unwrap();
    assert_eq!(names, vec![String::from("foo"), String::from("bar")]);

    let none = parse_manifest("[package]\nname = \"demo\"\n").unwrap();
    assert!(dependency_names(&none).unwrap().is_none());

    let bad = parse_manifest("dependencies = 5\n").unwrap();
    assert!(matches!(dependency_names(&bad), Err(ManifestError::DependenciesNotATable)));
}

#[test]
fn normalization_reads_bare_and_structured_entries() {
    let mut doc = parse_manifest(MANIFEST).unwrap();
    assert_eq!(read_and_normalize(&mut doc, "foo").unwrap(), "1.2");
    let text = doc.to_string();
    assert!(text.contains("foo = { version = \"1.2\" }"));

    let mut doc2 = parse_manifest(MANIFEST).unwrap();
    assert_eq!(read_and_normalize(&mut doc2, "bar").unwrap(), "0.3");
    // A structured entry is left exactly as it was.
    assert_eq!(doc2.to_string(), MANIFEST);
}

#[test]
fn malformed_entries_are_fatal_errors() {
    let mut missing = parse_manifest(MANIFEST).unwrap();
    assert!(matches!(
        read_and_normalize(&mut missing, "baz"),
        Err(ManifestError::DependencyNotFound(_))
    ));

    let mut no_version =
        parse_manifest("[dependencies]\nfoo = { features = [\"extra\"] }\n").unwrap();
    assert!(matches!(
        read_and_normalize(&mut no_version, "foo"),
        Err(ManifestError::MissingVersionKey(_))
    ));

    let mut not_a_string = parse_manifest("[dependencies]\nfoo = { version = 5 }\n").unwrap();
    assert!(matches!(
        read_and_normalize(&mut not_a_string, "foo"),
        Err(ManifestError::VersionNotAString(_))
    ));

    let mut unexpected = parse_manifest("[dependencies]\nfoo = [1, 2]\n").unwrap();
    assert!(matches!(
        read_and_normalize(&mut unexpected, "foo"),
        Err(ManifestError::UnexpectedEntryType(_))
    ));
}

#[test]
fn error_messages_name_the_dependency() {
    let mut doc = parse_manifest(MANIFEST).unwrap();
    let err = read_and_normalize(&mut doc, "baz").unwrap_err();
    assert_eq!(err.message(), "dep not found: baz");
}

#[test]
fn pinning_rewrites_only_the_version_field() {
    let mut doc = parse_manifest(MANIFEST).unwrap();
    read_and_normalize(&mut doc, "bar").unwrap();
    let text = pin_dependency(&mut doc, "bar", &v(0, 3, 7));
    assert!(text.contains("bar = { version = \"=0.3.7\", features = [\"extra\"] }"));
    // The other dependency is untouched.
    assert!(text.contains("foo = \"1.2\""));
}

#[test]
fn pinning_twice_is_idempotent_on_disk() {
    // The trial rewrite is a function of its arguments: repeating it leaves
    // the serialized manifest byte-identical.
    let mut doc = parse_manifest(MANIFEST).unwrap();
    read_and_normalize(&mut doc, "foo").unwrap();
    let first = pin_dependency(&mut doc, "foo", &v(1, 2, 5));
    let second = pin_dependency(&mut doc, "foo", &v(1, 2, 5));
    assert_eq!(first, second);
}

#[test]
fn restoration_after_trials() {
    let mut store = ManifestStore::checkout(String::from(MANIFEST));
    let w1 = store.trial_write(String::from("mutated one"));
    assert_eq!(w1, "mutated one");
    store.trial_write(String::from("mutated two"));
    assert_eq!(store.disk_string(), "mutated two");
    let restored = store.restore();
    assert_eq!(restored, MANIFEST);
    assert_eq!(store.disk_string(), MANIFEST);
}

#[test]
fn restoration_is_idempotent() {
    let mut store = ManifestStore::checkout(String::from(MANIFEST));
    store.trial_write(String::from("scratch"));
    let first = store.restore();
    let second = store.restore();
    assert_eq!(first, second);
    assert_eq!(store.disk_string(), MANIFEST);
}

#[test]
fn interrupted_run_still_restores() {
    // An interrupt arrives after the third trial: the interruption path
    // calls restore exactly as the normal path would, and the disk content
    // equals the pre-run snapshot.
    let mut store = ManifestStore::checkout(String::from(MANIFEST));
    let mut doc = parse_manifest(MANIFEST).unwrap();
    read_and_normalize(&mut doc, "foo").unwrap();
    for patch in 0..3u64 {
        let text = pin_dependency(&mut doc, "foo", &v(1, 2, patch));
        store.trial_write(text);
    }
    assert_ne!(store.disk_string(), MANIFEST);
    // Interrupt: the signal path runs the restoration once and exits.
    let restored = store.restore();
    assert_eq!(restored, MANIFEST);
    assert_eq!(store.disk_string(), MANIFEST);
}

#[test]
fn every_error_message_is_descriptive() {
    assert_eq!(parse_manifest("[unclosed").unwrap_err().message(), "manifest does not parse");
    let bad = parse_manifest("dependencies = 5\n").unwrap();
    assert_eq!(
        dependency_names(&bad).unwrap_err().message(),
        "dependencies section is not a table"
    );
    let mut no_version =
        parse_manifest("[dependencies]\nfoo = { features = [\"extra\"] }\n").unwrap();
    assert_eq!(
        read_and_normalize(&mut no_version, "foo").unwrap_err().message(),
        "dependency entry has no version key: foo"
    );
    let mut not_a_string = parse_manifest("[dependencies]\nfoo = { version = 5 }\n").unwrap();
    assert_eq!(
        read_and_normalize(&mut not_a_string, "foo").unwrap_err().message(),
        "dependency version is not a string: foo"
    );
    let mut unexpected = parse_manifest("[dependencies]\nfoo = [1, 2]\n").unwrap();
    assert_eq!(
        read_and_normalize(&mut unexpected, "foo").unwrap_err().message(),
        "unexpected dependency entry type: foo"
    );
}

#[test]
fn rendering_numbers_and_versions() {
    assert_eq!(u64_string(0), "0");
    assert_eq!(u64_string(7), "7");
    assert_eq!(u64_string(1234), "1234");
    assert_eq!(u64_string(u64::MAX), "18446744073709551615");
    assert_eq!(version_string(&v(1, 2, 3)), "1.2.3");
    assert_eq!(pin_expression(&v(0, 10, 0)), "=0.10.0");
    assert_eq!(range_expression(&v(1, 0, 0), &v(1, 4, 0)), ">=1.0.0, <=1.4.0");
}
