use vstd::prelude::*;

verus! {

/// A released semantic version. Pre-release versions never become `Version`
/// values: they are discarded while the published version list is collected,
/// so a `Version` is fully described by its three numeric components.
#[derive(Clone, Copy, PartialEq, Eq, Structural, Debug)]
pub struct Version {
    pub major: u64,
    pub minor: u64,
    pub patch: u64,
}

impl Version {
    /// Total order on versions: lexicographic by (major, minor, patch).
    pub open spec fn spec_le(self, other: Version) -> bool {
        ||| self.major < other.major
        ||| (self.major == other.major && self.minor < other.minor)
        ||| (self.major == other.major && self.minor == other.minor && self.patch <= other.patch)
    }

    pub open spec fn spec_lt(self, other: Version) -> bool {
        self.spec_le(other) && self != other
    }

    /// The two versions belong to the same (major, minor) line.
    pub open spec fn spec_same_minor_line(self, other: Version) -> bool {
        self.major == other.major && self.minor == other.minor
    }

    pub fn le(&self, other: &Version) -> (r: bool)
        ensures
            r == self.spec_le(*other),
    {
        if self.major != other.major {
            self.major < other.major
        } else if self.minor != other.minor {
            self.minor < other.minor
        } else {
            self.patch <= other.patch
        }
    }

    pub fn lt(&self, other: &Version) -> (r: bool)
        ensures
            r == self.spec_lt(*other),
    {
        if self.major != other.major {
            self.major < other.major
        } else if self.minor != other.minor {
            self.minor < other.minor
        } else {
            self.patch < other.patch
        }
    }

    pub fn same_minor_line(&self, other: &Version) -> (r: bool)
        ensures
            r == self.spec_same_minor_line(*other),
    {
        self.major == other.major && self.minor == other.minor
    }
}

/// What `semver::Version::parse` decides about a candidate string: `None` if
/// the string is not a valid semantic version, otherwise its major, minor and
/// patch numbers and whether it carries a pre-release tag. The outcome depends
/// on the characters of the string alone.
pub uninterp spec fn parsed_version(s: Seq<char>) -> Option<(int, int, int, bool)>;

/// Relies on `semver::Version::parse` and the public `major`, `minor`,
/// `patch` and `pre` fields of `semver::Version`.
#[verifier::external_body]
fn parse_semver(s: &str) -> (r: Option<(u64, u64, u64, bool)>)
    ensures
        r is Some <==> parsed_version(s@) is Some,
        r matches Some(t) ==> parsed_version(s@) == Some(
            (t.0 as int, t.1 as int, t.2 as int, t.3),
        ),
{
    match semver::Version::parse(s) {
        Ok(v) => Some((v.major, v.minor, v.patch, !v.pre.is_empty())),
        Err(_) => None,
    }
}

/// A published release as the version provider reports it: the version
/// string and whether the release was yanked.
pub open spec fn entry_view(e: (String, bool)) -> (Seq<char>, bool) {
    (e.0@, e.1)
}

pub open spec fn entries_view(s: Seq<(String, bool)>) -> Seq<(Seq<char>, bool)> {
    s.map_values(|e: (String, bool)| entry_view(e))
}

/// An entry survives collection: not yanked, parsable, and no pre-release tag.
pub open spec fn entry_kept(e: (Seq<char>, bool)) -> bool {
    &&& !e.1
    &&& match parsed_version(e.0) {
        Some(t) => !t.3,
        None => false,
    }
}

pub open spec fn entry_version(e: (Seq<char>, bool)) -> Version {
    match parsed_version(e.0) {
        Some(t) => Version { major: t.0 as u64, minor: t.1 as u64, patch: t.2 as u64 },
        None => Version { major: 0, minor: 0, patch: 0 },
    }
}

/// Every entry that is not yanked parses as a semantic version. When this
/// fails for some entry, processing the dependency is a fatal error.
pub open spec fn all_entries_parse(s: Seq<(Seq<char>, bool)>) -> bool {
    forall|i: int|
        0 <= i < s.len() && !s[i].1 ==> (#[trigger] parsed_version(s[i].0)) is Some
}

/// The versions that collection keeps, in the order the provider listed them:
/// the non-yanked, parsable entries without a pre-release tag.
pub open spec fn collected_versions(s: Seq<(Seq<char>, bool)>) -> Seq<Version> {
    s.filter(|e: (Seq<char>, bool)| entry_kept(e)).map_values(
        |e: (Seq<char>, bool)| entry_version(e),
    )
}

proof fn lemma_collected_push(s: Seq<(Seq<char>, bool)>, e: (Seq<char>, bool))
    ensures
        collected_versions(s.push(e)) == if entry_kept(e) {
            collected_versions(s).push(entry_version(e))
        } else {
            collected_versions(s)
        },
{
    reveal(Seq::filter);
    let pred = |x: (Seq<char>, bool)| entry_kept(x);
    let f = |x: (Seq<char>, bool)| entry_version(x);
    assert(s.push(e).drop_last() =~= s);
    assert(s.push(e).last() == e);
    if entry_kept(e) {
        assert(s.push(e).filter(pred) == s.filter(pred).push(e));
        assert(s.filter(pred).push(e).map_values(f) =~= s.filter(pred).map_values(f).push(f(e)));
    } else {
        assert(s.push(e).filter(pred) == s.filter(pred));
    }
}

/// The version list could not be processed.
#[derive(Debug)]
pub enum VersionListError {
    /// A non-yanked release carries a version string that does not parse as a
    /// semantic version.
    UnparsableVersion(String),
}

/// Collection stage of the version provider output: keeps every non-yanked
/// release that parses as a semantic version without a pre-release tag, in
/// the provider's order. Fails if and only if some non-yanked version string
/// does not parse at all, as that dependency cannot be reasoned about.
pub fn collect_versions(entries: &Vec<(String, bool)>) -> (r: Result<
    Vec<Version>,
    VersionListError,
>)
    ensures
        r is Ok <==> all_entries_parse(entries_view(entries@)),
        r matches Ok(vs) ==> vs@ == collected_versions(entries_view(entries@)),
        r matches Err(e) ==> match e {
            VersionListError::UnparsableVersion(s) => exists|i: int|
                0 <= i < entries@.len() && !entries@[i].1 && s@ == entries@[i].0@
                    && parsed_version(#[trigger] entries@[i].0@) is None,
        },
{
    let ghost evs = entries_view(entries@);
    let mut out: Vec<Version> = Vec::new();
    let mut i: usize = 0;
    proof {
        assert(evs.take(0) =~= Seq::<(Seq<char>, bool)>::empty());
        assert(collected_versions(evs.take(0)) =~= out@) by {
            reveal(Seq::filter);
        }
    }
    while i < entries.len()
        invariant
            i <= entries.len(),
            evs == entries_view(entries@),
            evs.len() == entries@.len(),
            forall|j: int| 0 <= j < evs.len() ==> evs[j] == entry_view(entries@[j]),
            out@ == collected_versions(evs.take(i as int)),
            all_entries_parse(evs.take(i as int)),
        decreases entries.len() - i,
    {
        let yanked = entries[i].1;
        if !yanked {
            match parse_semver(entries[i].0.as_str()) {
                None => {
                    proof {
                        assert(evs[i as int] == entry_view(entries@[i as int]));
                        assert(parsed_version(evs[i as int].0) is None);
                        assert(!evs[i as int].1);
                        assert(!all_entries_parse(evs));
                    }
                    return Err(VersionListError::UnparsableVersion(entries[i].0.clone()));
                },
                Some((major, minor, patch, pre)) => {
                    if !pre {
                        out.push(Version { major, minor, patch });
                    }
                },
            }
        }
        proof {
            lemma_collected_push(evs.take(i as int), evs[i as int]);
            assert(evs.take(i as int + 1) =~= evs.take(i as int).push(evs[i as int]));
            assert forall|j: int| 0 <= j < i as int + 1 && !evs.take(i as int + 1)[j].1 implies (
            #[trigger] parsed_version(evs.take(i as int + 1)[j].0)) is Some by {
                if j < i as int {
                    assert(evs.take(i as int)[j] == evs.take(i as int + 1)[j]);
                    assert(all_entries_parse(evs.take(i as int)));
                }
            }
        }
        i += 1;
    }
    proof {
        assert(evs.take(entries@.len() as int) =~= evs);
    }
    Ok(out)
}

/// The sequence is sorted ascending under the version order.
pub open spec fn sorted(s: Seq<Version>) -> bool {
    forall|i: int, j: int| 0 <= i <= j < s.len() ==> s[i].spec_le(s[j])
}

/// Sorts a version list ascending. The result holds exactly the versions of
/// the input, as a multiset.
pub fn sort_versions(v: &mut Vec<Version>)
    ensures
        sorted(final(v)@),
        final(v)@.to_multiset() == old(v)@.to_multiset(),
{
    let ghost input = v@;
    let mut out: Vec<Version> = Vec::new();
    let mut i: usize = 0;
    proof {
        assert(input.take(0) =~= out@);
    }
    while i < v.len()
        invariant
            i <= v.len(),
            v@ == input,
            sorted(out@),
            out@.to_multiset() == input.take(i as int).to_multiset(),
        decreases v.len() - i,
    {
        let x = v[i];
        let mut j: usize = 0;
        while j < out.len() && out[j].le(&x)
            invariant
                j <= out.len(),
                forall|k: int| 0 <= k < j ==> out@[k].spec_le(x),
            decreases out.len() - j,
        {
            j += 1;
        }
        proof {
            vstd::seq_lib::to_multiset_insert(out@, j as int, x);
            vstd::seq_lib::to_multiset_build(input.take(i as int), x);
            assert(input.take(i as int + 1) =~= input.take(i as int).push(input[i as int]));
        }
        let ghost old_out = out@;
        out.insert(j, x);
        proof {
            assert(out@ == old_out.insert(j as int, x));
            assert(forall|k: int| 0 <= k < j ==> out@[k] == old_out[k]);
            assert(out@[j as int] == x);
            assert(forall|k: int| j < k < out@.len() ==> out@[k] == old_out[k - 1]);
            assert forall|p: int, q: int| 0 <= p <= q < out@.len() implies out@[p].spec_le(
                out@[q],
            ) by {
                if p == q {
                } else if q < j {
                } else if q == j {
                    assert(old_out[p].spec_le(x));
                } else if p == j {
                    assert(out@.len() == old_out.len() + 1);
                    assert(j < old_out.len());
                    assert(!old_out[j as int].spec_le(x));
                    assert(x.spec_le(old_out[j as int]));
                    assert(old_out[j as int].spec_le(old_out[q - 1]));
                } else if p < j {
                    assert(old_out[p].spec_le(old_out[q - 1]));
                } else {
                    assert(old_out[p - 1].spec_le(old_out[q - 1]));
                }
            }
        }
        i += 1;
    }
    proof {
        assert(input.take(v@.len() as int) =~= input);
    }
    *v = out;
}

} // verus!
