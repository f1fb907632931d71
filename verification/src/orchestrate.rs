use vstd::prelude::*;
use vstd::string::StringExecFns;
use crate::bound::{filter_versions, matching, Bound};
use crate::render::{append_u64, dec_digits, u64_string};
use crate::sampler::Granularity;
use crate::trial::TrialResult;
use crate::version::{
    all_entries_parse, collect_versions, collected_versions, entries_view, parsed_version,
    sort_versions, sorted, Version, VersionListError,
};

verus! {

/// Aggregate outcome of a sanity-test run: how many dependencies had at
/// least one failing sampled version, and how many sampled versions failed
/// in total.
#[derive(Clone, Copy, PartialEq, Eq, Structural, Debug)]
pub struct TestSummary {
    pub failed_deps: u8,
    pub failed_versions: u16,
}

impl Default for TestSummary {
    fn default() -> (r: TestSummary)
        ensures
            r.failed_deps == 0,
            r.failed_versions == 0,
    {
        TestSummary { failed_deps: 0, failed_versions: 0 }
    }
}

/// The report line of a summary.
pub open spec fn summary_chars(deps: int, versions: int) -> Seq<char> {
    dec_digits(deps) + " deps have failing versions in their bounds. ("@ + dec_digits(versions)
        + " versions failed in total)"@
}

impl TestSummary {
    /// Folds one dependency's failing-version count into the aggregate: the
    /// failures add up, and a dependency counts as failed exactly when it
    /// had at least one failing version.
    pub fn record(&mut self, fails: u16)
        requires
            old(self).failed_versions + fails <= u16::MAX,
            fails != 0 ==> old(self).failed_deps < u8::MAX,
        ensures
            final(self).failed_versions == old(self).failed_versions + fails,
            final(self).failed_deps == if fails != 0 {
                old(self).failed_deps + 1
            } else {
                old(self).failed_deps as int
            },
    {
        self.failed_versions = self.failed_versions + fails;
        if fails != 0 {
            self.failed_deps = self.failed_deps + 1;
        }
    }

    /// Renders the aggregate as the run's report line.
    pub fn print(self) -> (r: String)
        ensures
            r@ == summary_chars(self.failed_deps as int, self.failed_versions as int),
    {
        let mut s = u64_string(self.failed_deps as u64);
        s.append(" deps have failing versions in their bounds. (");
        append_u64(&mut s, self.failed_versions as u64);
        s.append(" versions failed in total)");
        proof {
            assert(s@ =~= summary_chars(self.failed_deps as int, self.failed_versions as int));
        }
        s
    }
}

/// What a completed run produced: the test mode aggregates a summary; the
/// minimize mode reports each discovered range as it goes and aggregates
/// nothing.
#[derive(Debug)]
pub enum ModeOutcome {
    Tested(TestSummary),
    Minimized,
}

/// Final decision of a run: the test mode fails, carrying the summary line
/// as its message, exactly when some dependency had a failing sampled
/// version; the minimize mode, once it completes, succeeds.
pub fn main_impl(outcome: ModeOutcome) -> (r: Result<(), String>)
    ensures
        match outcome {
            ModeOutcome::Tested(s) => if s.failed_deps != 0 {
                r matches Err(m) && m@ == summary_chars(
                    s.failed_deps as int,
                    s.failed_versions as int,
                )
            } else {
                r is Ok
            },
            ModeOutcome::Minimized => r is Ok,
        },
{
    match outcome {
        ModeOutcome::Tested(s) => {
            if s.failed_deps != 0 {
                Err(s.print())
            } else {
                Ok(())
            }
        },
        ModeOutcome::Minimized => Ok(()),
    }
}

/// The granularity the sanity-test flags select. The default already
/// samples at minor boundaries; asking for patch versions switches to
/// patch-level sampling.
pub fn granularity_for(patch: bool) -> (g: Granularity)
    ensures
        g == if patch {
            Granularity::PatchBoundaries
        } else {
            Granularity::MinorBoundaries
        },
{
    if patch {
        Granularity::PatchBoundaries
    } else {
        Granularity::MinorBoundaries
    }
}

/// How many of the outcomes are failures.
pub open spec fn fail_count(s: Seq<TrialResult>) -> int
    decreases s.len(),
{
    if s.len() == 0 {
        0
    } else {
        fail_count(s.drop_last()) + if s.last() is Fail {
            1int
        } else {
            0int
        }
    }
}

proof fn lemma_fail_count_bound(s: Seq<TrialResult>)
    ensures
        0 <= fail_count(s) <= s.len(),
    decreases s.len(),
{
    if s.len() > 0 {
        lemma_fail_count_bound(s.drop_last());
    }
}

/// Counts the failing trials of one dependency's sampled candidates.
pub fn count_failures(results: &Vec<TrialResult>) -> (n: u16)
    requires
        results@.len() <= u16::MAX,
    ensures
        n as int == fail_count(results@),
{
    let mut n: u16 = 0;
    let mut i: usize = 0;
    proof {
        assert(results@.take(0) =~= Seq::<TrialResult>::empty());
    }
    while i < results.len()
        invariant
            i <= results@.len(),
            results@.len() <= u16::MAX,
            n as int == fail_count(results@.take(i as int)),
        decreases results@.len() - i,
    {
        proof {
            lemma_fail_count_bound(results@.take(i as int));
            assert(results@.take(i as int + 1).drop_last() =~= results@.take(i as int));
            assert(results@.take(i as int + 1).last() == results@[i as int]);
        }
        match results[i] {
            TrialResult::Fail => {
                n = n + 1;
            },
            TrialResult::Success => {},
        }
        i += 1;
    }
    proof {
        assert(results@.take(results@.len() as int) =~= results@);
    }
    n
}

/// The candidate pipeline of one dependency: collect the provider's
/// entries, keep those the declared bound admits, and sort ascending.
/// Succeeds exactly when every non-yanked version string parses; the result
/// then holds, in ascending order, exactly the collected versions the bound
/// admits.
pub fn candidate_versions(entries: &Vec<(String, bool)>, bound: &Bound) -> (r: Result<
    Vec<Version>,
    VersionListError,
>)
    ensures
        r is Ok <==> all_entries_parse(entries_view(entries@)),
        r matches Ok(vs) ==> sorted(vs@) && vs@.to_multiset() == matching(
            *bound,
            collected_versions(entries_view(entries@)),
        ).to_multiset(),
        r matches Err(e) ==> match e {
            VersionListError::UnparsableVersion(s) => exists|i: int|
                0 <= i < entries@.len() && !entries@[i].1 && s@ == entries@[i].0@
                    && parsed_version(#[trigger] entries@[i].0@) is None,
        },
{
    match collect_versions(entries) {
        Err(e) => Err(e),
        Ok(vs) => {
            let mut kept = filter_versions(&vs, bound);
            sort_versions(&mut kept);
            Ok(kept)
        },
    }
}

/// The indices of the first and last version the bound admits, when it
/// admits any: on the sorted candidate list these locate the declared
/// bound's current span, the starting points of the two boundary searches.
pub fn bound_span(versions: &Vec<Version>, bound: &Bound) -> (r: Option<(usize, usize)>)
    ensures
        r matches Some(p) ==> {
            &&& p.0 <= p.1 < versions@.len()
            &&& bound.spec_matches(versions@[p.0 as int])
            &&& bound.spec_matches(versions@[p.1 as int])
            &&& forall|k: int| 0 <= k < p.0 ==> !(#[trigger] bound.spec_matches(versions@[k]))
            &&& forall|k: int|
                p.1 < k < versions@.len() ==> !(#[trigger] bound.spec_matches(versions@[k]))
        },
        r is None ==> forall|k: int|
            0 <= k < versions@.len() ==> !(#[trigger] bound.spec_matches(versions@[k])),
{
    let n = versions.len();
    let mut first: usize = 0;
    let mut found = false;
    let mut i: usize = 0;
    while i < n
        invariant
            n == versions@.len(),
            i <= n,
            !found ==> forall|k: int| 0 <= k < i ==> !(#[trigger] bound.spec_matches(versions@[k])),
            found ==> first < i && bound.spec_matches(versions@[first as int]) && (forall|k: int|
                0 <= k < first ==> !(#[trigger] bound.spec_matches(versions@[k]))),
        decreases n - i,
    {
        if !found && bound.matches(&versions[i]) {
            first = i;
            found = true;
        }
        i += 1;
    }
    if !found {
        return None;
    }
    let mut last: usize = first;
    let mut j: usize = first + 1;
    while j < n
        invariant
            n == versions@.len(),
            first <= last < j,
            j <= n,
            bound.spec_matches(versions@[last as int]),
            forall|k: int| last < k < j ==> !(#[trigger] bound.spec_matches(versions@[k])),
        decreases n - j,
    {
        if bound.matches(&versions[j]) {
            last = j;
        }
        j += 1;
    }
    Some((first, last))
}

/// The sanity walk's scan state over the sorted candidate list: whether
/// position `i` is walked, and the (major, minor) line of the last walked
/// position among `0..=i`. A position is walked when it lies inside the
/// discovered `[min, max]` range and opens a (major, minor) line the walk
/// has not visited yet.
pub open spec fn walk_state(s: Seq<Version>, min: Version, max: Version, i: int) -> (
    bool,
    Option<(u64, u64)>,
)
    decreases i + 1,
{
    if i < 0 {
        (false, None)
    } else {
        let prev = walk_state(s, min, max, i - 1).1;
        let in_window = min.spec_le(s[i]) && s[i].spec_le(max);
        let take = in_window && (match prev {
            None => true,
            Some(c) => c != (s[i].major, s[i].minor),
        });
        (take, if take {
            Some((s[i].major, s[i].minor))
        } else {
            prev
        })
    }
}

/// The versions the sanity walk re-tests, in ascending order: for each
/// distinct (major, minor) line inside `[min, max]`, its first
/// representative, both ends included.
pub open spec fn walk_taken(s: Seq<Version>, min: Version, max: Version, n: int) -> Seq<Version>
    decreases n,
{
    if n <= 0 {
        Seq::empty()
    } else {
        let rest = walk_taken(s, min, max, n - 1);
        if walk_state(s, min, max, n - 1).0 {
            rest.push(s[n - 1])
        } else {
            rest
        }
    }
}

/// Sanity walker plan: after a `[min, max]` range is discovered, the
/// versions to re-test, ascending — one representative per (major, minor)
/// line within the range, stopping at `max`. Failures found here are
/// reported as anomalies; they do not change the discovered range.
pub fn walk_plan(versions: &Vec<Version>, min: &Version, max: &Version) -> (r: Vec<Version>)
    ensures
        r@ == walk_taken(versions@, *min, *max, versions@.len() as int),
{
    let ghost s = versions@;
    let mut out: Vec<Version> = Vec::new();
    let mut have_last = false;
    let mut last_major: u64 = 0;
    let mut last_minor: u64 = 0;
    let mut i: usize = 0;
    while i < versions.len()
        invariant
            s == versions@,
            i <= s.len(),
            out@ == walk_taken(s, *min, *max, i as int),
            match walk_state(s, *min, *max, i as int - 1).1 {
                None => !have_last,
                Some(c) => have_last && c == (last_major, last_minor),
            },
        decreases s.len() - i,
    {
        let v = versions[i];
        let in_window = min.le(&v) && v.le(max);
        let take = in_window && (!have_last || last_major != v.major || last_minor != v.minor);
        proof {
            assert(walk_state(s, *min, *max, i as int).0 == take);
        }
        if take {
            out.push(v);
            have_last = true;
            last_major = v.major;
            last_minor = v.minor;
        }
        i += 1;
    }
    out
}

} // verus!
