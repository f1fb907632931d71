use vstd::prelude::*;
use vstd::string::StringExecFns;
use crate::render::{pin_chars, pin_expression};
use crate::version::Version;

verus! {

// The manifest document itself is an opaque structured text: parsing it and
// serializing it back, preserving every byte it does not touch, is the
// document library's work. The model below names what the logic reads of a
// document: its serialized text, the names in its dependency table, and for
// each well-formed dependency entry whether the entry is a bare version
// string and which version string it declares.
#[verifier::external_type_specification]
#[verifier::external_body]
pub struct ExDocumentMut(toml_edit::DocumentMut);

/// What serializing the document returns. A function of the document value
/// alone: the serializer is deterministic.
pub uninterp spec fn doc_text(d: toml_edit::DocumentMut) -> Seq<char>;

/// The dependency names in the document's `[dependencies]` table, in table
/// order (meaningful when that table exists).
pub uninterp spec fn doc_keys(d: toml_edit::DocumentMut) -> Seq<Seq<char>>;

/// The well-formed entries of the dependency table: dependency name to
/// (entry is a bare version string, declared version string). A dependency
/// whose entry is malformed is absent from this map.
pub uninterp spec fn doc_deps(d: toml_edit::DocumentMut) -> Map<Seq<char>, (bool, Seq<char>)>;

/// The state of the document's `[dependencies]` item: `None` when there is
/// no such item, `Some(false)` when the item is not a table, `Some(true)`
/// when it is the dependency table.
pub uninterp spec fn doc_deps_state(d: toml_edit::DocumentMut) -> Option<bool>;

/// The document the pinning rewrite produces: the parser and the index
/// assignment are deterministic, so the document after a rewrite is a
/// function of the document before it, the dependency name and the written
/// version string.
pub uninterp spec fn pinned_doc(
    d: toml_edit::DocumentMut,
    dep: Seq<char>,
    ver: Seq<char>,
) -> toml_edit::DocumentMut;

/// The document's serialization with the version value of the named
/// dependency's entry masked out: everything a version rewrite must leave
/// verbatim.
pub uninterp spec fn doc_text_less_version(d: toml_edit::DocumentMut, dep: Seq<char>) -> Seq<char>;

/// What parsing a manifest text decides: `None` when the text is not a
/// well-formed document, otherwise the serialization of the parsed
/// document. Parsing and serializing are deterministic, so this is a
/// function of the text alone; the serialization is not promised to be the
/// input itself (the serializer normalizes, e.g. a missing final newline).
pub uninterp spec fn parsed_manifest_text(text: Seq<char>) -> Option<Seq<char>>;

/// Relies on `str::parse::<toml_edit::DocumentMut>`: accepts exactly the
/// well-formed documents, and parsing is a pure function of the text.
#[verifier::external_body]
fn parse_manifest_doc(text: &str) -> (r: Option<toml_edit::DocumentMut>)
    ensures
        r is Some <==> parsed_manifest_text(text@) is Some,
        r matches Some(d) ==> Some(doc_text(d)) == parsed_manifest_text(text@),
{
    text.parse::<toml_edit::DocumentMut>().ok()
}

/// Relies on `toml_edit::DocumentMut`'s `Display` serializer, which is a
/// deterministic function of the document.
#[verifier::external_body]
fn manifest_doc_text(d: &toml_edit::DocumentMut) -> (r: String)
    ensures
        r@ == doc_text(*d),
{
    d.to_string()
}

/// The state of the document's `[dependencies]` table.
#[derive(Debug)]
pub enum DepsTable {
    /// No `[dependencies]` item at all.
    Missing,
    /// A `[dependencies]` item that is not a table.
    NotATable,
    /// The dependency names, in table order.
    Names(Vec<String>),
}

/// Relies on `toml_edit`'s `Table::get`, `Item::as_table` and
/// `Table::iter`: which of the three `[dependencies]` states the document
/// is in, and, when the table exists, its keys in table order.
#[verifier::external_body]
fn dependency_names_raw(d: &toml_edit::DocumentMut) -> (r: DepsTable)
    ensures
        r is Missing <==> doc_deps_state(*d) is None,
        r is NotATable <==> doc_deps_state(*d) == Some(false),
        r is Names <==> doc_deps_state(*d) == Some(true),
        r matches DepsTable::Names(ns) ==> ns@.len() == doc_keys(*d).len() && (forall|i: int|
            0 <= i < ns@.len() ==> ns@[i]@ == doc_keys(*d)[i]),
{
    match d.get("dependencies") {
        None => DepsTable::Missing,
        Some(item) => match item.as_table() {
            None => DepsTable::NotATable,
            Some(t) => DepsTable::Names(t.iter().map(|(k, _)| k.to_owned()).collect()),
        },
    }
}

/// One dependency's entry, as the document holds it.
#[derive(Debug)]
pub enum DepEntry {
    /// No entry of that name.
    Missing,
    /// A bare version-string entry, e.g. `dep = "1.2"`.
    Bare(String),
    /// A structured entry with a string under its `version` key.
    Structured(String),
    /// Neither a version string nor a table-like entry.
    UnexpectedType,
    /// A table-like entry without a `version` key.
    NoVersionKey,
    /// A table-like entry whose `version` key is not a string.
    VersionNotAString,
}

/// Relies on `toml_edit`'s `Item::get`, `Item::as_str`,
/// `Item::as_table_like` and `TableLike::get`: how the dependency's entry
/// declares its version.
#[verifier::external_body]
fn dependency_entry(d: &toml_edit::DocumentMut, dep: &str) -> (r: DepEntry)
    ensures
        r matches DepEntry::Bare(v) ==> doc_deps(*d).contains_pair(dep@, (true, v@)),
        r matches DepEntry::Structured(v) ==> doc_deps(*d).contains_pair(dep@, (false, v@)),
        !(r is Bare) && !(r is Structured) ==> !doc_deps(*d).contains_key(dep@),
{
    let Some(item) = d.get("dependencies").and_then(|t| t.get(dep)) else {
        return DepEntry::Missing;
    };
    if let Some(s) = item.as_str() {
        return DepEntry::Bare(s.to_owned());
    }
    let Some(t) = item.as_table_like() else {
        return DepEntry::UnexpectedType;
    };
    match t.get("version").map(|v| v.as_str()) {
        None => DepEntry::NoVersionKey,
        Some(None) => DepEntry::VersionNotAString,
        Some(Some(s)) => DepEntry::Structured(s.to_owned()),
    }
}

/// Relies on `toml_edit::InlineTable::insert` and index assignment on
/// `DocumentMut`: replaces the bare version-string entry of `dep` with the
/// structured entry `{ version = <ver> }` declaring the same version. Other
/// dependencies and the table's keys are untouched.
#[verifier::external_body]
fn normalize_dependency(d: &mut toml_edit::DocumentMut, dep: &str, ver: &str)
    requires
        doc_deps(*old(d)).contains_pair(dep@, (true, ver@)),
    ensures
        doc_deps(*final(d)) == doc_deps(*old(d)).insert(dep@, (false, ver@)),
        doc_keys(*final(d)) == doc_keys(*old(d)),
{
    let mut t = toml_edit::InlineTable::new();
    t.insert("version", ver.into());
    d["dependencies"][dep] = toml_edit::Item::Value(toml_edit::Value::InlineTable(t));
}

/// Relies on index assignment through `toml_edit`'s `Index` impls: rewrites
/// only the `version` key of the structured entry of `dep`, preserving
/// everything else of the serialized document verbatim. The assignment is
/// deterministic in its arguments, and writing the value the entry already
/// holds from an earlier identical rewrite changes nothing, since the
/// replacement subtree is built the same way each time.
#[verifier::external_body]
fn set_dependency_version(d: &mut toml_edit::DocumentMut, dep: &str, ver: &str)
    requires
        doc_deps(*old(d)).contains_key(dep@),
        !doc_deps(*old(d))[dep@].0,
    ensures
        *final(d) == pinned_doc(*old(d), dep@, ver@),
        pinned_doc(*final(d), dep@, ver@) == *final(d),
        doc_deps(*final(d)) == doc_deps(*old(d)).insert(dep@, (false, ver@)),
        doc_keys(*final(d)) == doc_keys(*old(d)),
        doc_deps_state(*final(d)) == doc_deps_state(*old(d)),
        doc_text_less_version(*final(d), dep@) == doc_text_less_version(*old(d), dep@),
{
    d["dependencies"][dep]["version"] = toml_edit::value(ver);
}

/// Why a manifest or one of its dependency entries cannot be processed.
#[derive(Debug)]
pub enum ManifestError {
    /// The manifest text does not parse as a document.
    Unparsable,
    /// `[dependencies]` exists but is not a table.
    DependenciesNotATable,
    /// The named dependency has no entry.
    DependencyNotFound(String),
    /// The entry is neither a version string nor a table-like entry.
    UnexpectedEntryType(String),
    /// The table-like entry has no `version` key.
    MissingVersionKey(String),
    /// The entry's `version` key is not a string.
    VersionNotAString(String),
}

impl ManifestError {
    /// The report line of each error, naming the dependency concerned.
    pub open spec fn spec_message(self) -> Seq<char> {
        match self {
            ManifestError::Unparsable => "manifest does not parse"@,
            ManifestError::DependenciesNotATable => "dependencies section is not a table"@,
            ManifestError::DependencyNotFound(dep) => "dep not found: "@ + dep@,
            ManifestError::UnexpectedEntryType(dep) => "unexpected dependency entry type: "@
                + dep@,
            ManifestError::MissingVersionKey(dep) => "dependency entry has no version key: "@
                + dep@,
            ManifestError::VersionNotAString(dep) => "dependency version is not a string: "@
                + dep@,
        }
    }

    /// A plain description of the error, naming the dependency concerned.
    pub fn message(&self) -> (r: String)
        ensures
            r@ == self.spec_message(),
    {
        match self {
            ManifestError::Unparsable => String::from_str("manifest does not parse"),
            ManifestError::DependenciesNotATable => String::from_str(
                "dependencies section is not a table",
            ),
            ManifestError::DependencyNotFound(dep) => String::from_str("dep not found: ").concat(
                dep.as_str(),
            ),
            ManifestError::UnexpectedEntryType(dep) => String::from_str(
                "unexpected dependency entry type: ",
            ).concat(dep.as_str()),
            ManifestError::MissingVersionKey(dep) => String::from_str(
                "dependency entry has no version key: ",
            ).concat(dep.as_str()),
            ManifestError::VersionNotAString(dep) => String::from_str(
                "dependency version is not a string: ",
            ).concat(dep.as_str()),
        }
    }
}

/// Parses the snapshot text into a live document for one dependency's
/// trials. Fails exactly when the text is not a well-formed document; a
/// parsed document serializes to the text that parsing the snapshot always
/// yields.
pub fn parse_manifest(text: &str) -> (r: Result<toml_edit::DocumentMut, ManifestError>)
    ensures
        r is Ok <==> parsed_manifest_text(text@) is Some,
        r matches Ok(d) ==> Some(doc_text(d)) == parsed_manifest_text(text@),
        r matches Err(e) ==> e is Unparsable,
{
    match parse_manifest_doc(text) {
        Some(d) => Ok(d),
        None => Err(ManifestError::Unparsable),
    }
}

/// The dependency names declared by the document, in table order:
/// `Ok(None)` exactly when the document has no `[dependencies]` item (there
/// is then nothing to work on), an error exactly when that item is not a
/// table, and otherwise exactly the table's keys.
pub fn dependency_names(d: &toml_edit::DocumentMut) -> (r: Result<
    Option<Vec<String>>,
    ManifestError,
>)
    ensures
        r is Err <==> doc_deps_state(*d) == Some(false),
        r matches Ok(names) ==> {
            &&& (names is None <==> doc_deps_state(*d) is None)
            &&& (names is Some <==> doc_deps_state(*d) == Some(true))
            &&& (names matches Some(ns) ==> ns@.len() == doc_keys(*d).len() && (forall|i: int|
                0 <= i < ns@.len() ==> ns@[i]@ == doc_keys(*d)[i]))
        },
        r matches Err(e) ==> e is DependenciesNotATable,
{
    match dependency_names_raw(d) {
        DepsTable::Missing => Ok(None),
        DepsTable::NotATable => Err(ManifestError::DependenciesNotATable),
        DepsTable::Names(ns) => Ok(Some(ns)),
    }
}

/// Normalization step applied once per dependency before any trial: reads
/// the declared version string, converting a bare entry into the canonical
/// structured form first so that every later rewrite targets the `version`
/// key. On success the entry is structured and declares the returned
/// string; each malformed shape is reported as its own fatal error, naming
/// the dependency.
pub fn read_and_normalize(d: &mut toml_edit::DocumentMut, dep: &str) -> (r: Result<
    String,
    ManifestError,
>)
    ensures
        r is Ok <==> doc_deps(*old(d)).contains_key(dep@),
        r matches Ok(ver) ==> doc_deps(*old(d))[dep@].1 == ver@ && doc_deps(
            *final(d),
        ).contains_pair(dep@, (false, ver@)) && doc_keys(*final(d)) == doc_keys(*old(d)),
        r is Err ==> *final(d) == *old(d),
        r matches Err(e) ==> !(e is Unparsable) && !(e is DependenciesNotATable),
{
    match dependency_entry(d, dep) {
        DepEntry::Missing => Err(ManifestError::DependencyNotFound(dep.to_owned())),
        DepEntry::Bare(v) => {
            normalize_dependency(d, dep, v.as_str());
            Ok(v)
        },
        DepEntry::Structured(v) => Ok(v),
        DepEntry::UnexpectedType => Err(ManifestError::UnexpectedEntryType(dep.to_owned())),
        DepEntry::NoVersionKey => Err(ManifestError::MissingVersionKey(dep.to_owned())),
        DepEntry::VersionNotAString => Err(ManifestError::VersionNotAString(dep.to_owned())),
    }
}

/// Trial rewrite: pins the dependency's `version` key to the exact-pin
/// expression of `version` and serializes the document, giving the text the
/// caller must put on disk for the validator to see. The document after the
/// call is a function of the document before it and of the arguments alone
/// (`pinned_doc`), and an identical pin applied again leaves the document —
/// and so the serialized text — unchanged. Everything outside the rewritten
/// version value serializes verbatim as before.
pub fn pin_dependency(d: &mut toml_edit::DocumentMut, dep: &str, version: &Version) -> (r: String)
    requires
        doc_deps(*old(d)).contains_key(dep@),
        !doc_deps(*old(d))[dep@].0,
    ensures
        *final(d) == pinned_doc(*old(d), dep@, pin_chars(*version)),
        pinned_doc(*final(d), dep@, pin_chars(*version)) == *final(d),
        doc_deps(*final(d)) == doc_deps(*old(d)).insert(dep@, (false, pin_chars(*version))),
        doc_keys(*final(d)) == doc_keys(*old(d)),
        doc_text_less_version(*final(d), dep@) == doc_text_less_version(*old(d), dep@),
        r@ == doc_text(*final(d)),
{
    let pin = pin_expression(version);
    set_dependency_version(d, dep, pin.as_str());
    manifest_doc_text(d)
}

/// Trial idempotence at the document-model level: pinning the same version
/// for the same dependency twice leaves the dependency table exactly as one
/// pin does, whatever the table held before.
pub proof fn lemma_pin_idempotent(
    m: Map<Seq<char>, (bool, Seq<char>)>,
    dep: Seq<char>,
    pin: Seq<char>,
)
    ensures
        m.insert(dep, (false, pin)).insert(dep, (false, pin)) == m.insert(dep, (false, pin)),
{
    assert(m.insert(dep, (false, pin)).insert(dep, (false, pin)) =~= m.insert(dep, (false, pin)));
}

} // verus!
