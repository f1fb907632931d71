use vstd::prelude::*;
use crate::version::{sorted, Version};

verus! {

/// Granularity policy: how finely a sorted candidate list is sampled for
/// testing. `All` tests every candidate; `MinorBoundaries` tests one
/// representative per (major, minor) line; `PatchBoundaries` tests one
/// representative per distinct (major, minor, patch). Whatever the policy,
/// the highest candidate is always tested.
#[derive(Clone, Copy, PartialEq, Eq, Structural, Debug)]
pub enum Granularity {
    All,
    MinorBoundaries,
    PatchBoundaries,
}

/// The candidate differs enough from the last tested version for the policy
/// to select it.
pub open spec fn granularity_differs(g: Granularity, v: Version, last: Version) -> bool {
    match g {
        Granularity::All => true,
        Granularity::MinorBoundaries => !v.spec_same_minor_line(last),
        Granularity::PatchBoundaries => v.major != last.major || v.minor != last.minor || v.patch
            != last.patch,
    }
}

pub fn granularity_selects(g: Granularity, v: &Version, last: &Version) -> (r: bool)
    ensures
        r == granularity_differs(g, *v, *last),
{
    match g {
        Granularity::All => true,
        Granularity::MinorBoundaries => !v.same_minor_line(last),
        Granularity::PatchBoundaries => v.major != last.major || v.minor != last.minor || v.patch
            != last.patch,
    }
}

/// One linear scan over the sorted candidates, tracking the last selected
/// version: whether position `i` is selected, and the position of the last
/// selection among `0..=i`. The first candidate is always selected; a later
/// one is selected when the policy finds it differs from the last selected
/// one, or when it is the final (highest) candidate.
pub open spec fn sel_state(s: Seq<Version>, g: Granularity, i: int) -> (bool, int)
    decreases i,
{
    if i <= 0 {
        (true, 0)
    } else {
        let prev = sel_state(s, g, i - 1).1;
        let sel = i == s.len() - 1 || granularity_differs(g, s[i], s[prev]);
        (sel, if sel {
            i
        } else {
            prev
        })
    }
}

/// Position `i` of the candidate list is selected for testing.
pub open spec fn spec_selected(s: Seq<Version>, g: Granularity, i: int) -> bool {
    sel_state(s, g, i).0
}

/// The position of the last selected candidate among `0..=i`.
pub open spec fn last_selected(s: Seq<Version>, g: Granularity, i: int) -> int {
    sel_state(s, g, i).1
}

/// Granularity sampler: decides in one linear scan which candidates to test.
/// Returns one flag per candidate; an unset flag classifies the candidate as
/// skipped.
pub fn select_candidates(versions: &Vec<Version>, g: Granularity) -> (r: Vec<bool>)
    ensures
        r@.len() == versions@.len(),
        forall|i: int| 0 <= i < r@.len() ==> r@[i] == spec_selected(versions@, g, i),
{
    let ghost s = versions@;
    let n = versions.len();
    let mut out: Vec<bool> = Vec::new();
    let mut last: usize = 0;
    let mut i: usize = 0;
    while i < n
        invariant
            n == s.len(),
            s == versions@,
            i <= n,
            out@.len() == i as int,
            forall|k: int| 0 <= k < i ==> out@[k] == spec_selected(s, g, k),
            i > 0 ==> last < i && last as int == last_selected(s, g, i as int - 1),
        decreases n - i,
    {
        let sel: bool;
        if i == 0 {
            sel = true;
        } else if i == n - 1 {
            sel = true;
        } else {
            sel = granularity_selects(g, &versions[i], &versions[last]);
        }
        proof {
            if i > 0 {
                assert(sel_state(s, g, i as int) == {
                    let prev = sel_state(s, g, i as int - 1).1;
                    let c = i as int == s.len() - 1 || granularity_differs(g, s[i as int], s[prev]);
                    (c, if c {
                        i as int
                    } else {
                        prev
                    })
                });
            }
        }
        out.push(sel);
        if sel {
            last = i;
        }
        i += 1;
    }
    out
}

/// The candidates of `s` whose mask flag equals `keep`, in order: the tested
/// subset for `keep == true`, the skipped subset for `keep == false`.
pub open spec fn masked(s: Seq<Version>, m: Seq<bool>, keep: bool) -> Seq<Version>
    decreases s.len(),
{
    if s.len() == 0 || s.len() != m.len() {
        Seq::empty()
    } else if m.last() == keep {
        masked(s.drop_last(), m.drop_last(), keep).push(s.last())
    } else {
        masked(s.drop_last(), m.drop_last(), keep)
    }
}

/// Splits candidates by a selection mask into the kept subset.
pub fn apply_mask(versions: &Vec<Version>, mask: &Vec<bool>, keep: bool) -> (r: Vec<Version>)
    requires
        versions@.len() == mask@.len(),
    ensures
        r@ == masked(versions@, mask@, keep),
{
    let mut out: Vec<Version> = Vec::new();
    let mut i: usize = 0;
    proof {
        assert(masked(versions@.take(0), mask@.take(0), keep) =~= out@);
    }
    while i < versions.len()
        invariant
            versions@.len() == mask@.len(),
            i <= versions@.len(),
            out@ == masked(versions@.take(i as int), mask@.take(i as int), keep),
        decreases versions@.len() - i,
    {
        proof {
            assert(versions@.take(i as int + 1).drop_last() =~= versions@.take(i as int));
            assert(mask@.take(i as int + 1).drop_last() =~= mask@.take(i as int));
            assert(versions@.take(i as int + 1).last() == versions@[i as int]);
            assert(mask@.take(i as int + 1).last() == mask@[i as int]);
        }
        if mask[i] == keep {
            out.push(versions[i]);
        }
        i += 1;
    }
    proof {
        assert(versions@.take(versions@.len() as int) =~= versions@);
        assert(mask@.take(mask@.len() as int) =~= mask@);
    }
    out
}

/// Sampler completeness: the highest candidate of a non-empty list is always
/// selected for testing, whatever the granularity policy.
pub proof fn lemma_highest_always_selected(s: Seq<Version>, g: Granularity)
    requires
        s.len() > 0,
    ensures
        spec_selected(s, g, s.len() - 1),
{
}

proof fn lemma_last_selected_bounds(s: Seq<Version>, g: Granularity, k: int)
    requires
        0 <= k,
    ensures
        0 <= last_selected(s, g, k) <= k,
        spec_selected(s, g, last_selected(s, g, k)),
    decreases k,
{
    if k > 0 {
        lemma_last_selected_bounds(s, g, k - 1);
    }
}

proof fn lemma_last_selected_at_least(s: Seq<Version>, g: Granularity, i: int, k: int)
    requires
        0 <= i <= k,
        spec_selected(s, g, i),
    ensures
        i <= last_selected(s, g, k),
    decreases k - i,
{
    if k > i {
        lemma_last_selected_at_least(s, g, i, k - 1);
    }
}

/// Sampler minimality: under the `MinorBoundaries` policy, on a sorted
/// candidate list, two selected positions other than the mandatory highest
/// one never share a (major, minor) line.
pub proof fn lemma_minor_boundaries_distinct(s: Seq<Version>, i: int, j: int)
    requires
        sorted(s),
        0 <= i < j < s.len() - 1,
        spec_selected(s, Granularity::MinorBoundaries, i),
        spec_selected(s, Granularity::MinorBoundaries, j),
    ensures
        !s[i].spec_same_minor_line(s[j]),
{
    let g = Granularity::MinorBoundaries;
    let l = last_selected(s, g, j - 1);
    lemma_last_selected_bounds(s, g, j - 1);
    lemma_last_selected_at_least(s, g, i, j - 1);
    assert(i <= l <= j - 1);
    assert(s[i].spec_le(s[l]));
    assert(s[l].spec_le(s[j]));
    assert(granularity_differs(g, s[j], s[l]));
    assert(!s[l].spec_same_minor_line(s[j]));
}

} // verus!
