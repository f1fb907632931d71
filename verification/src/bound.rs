use vstd::prelude::*;
use crate::version::Version;

verus! {

/// Comparison operator of one comparator in a declared version requirement.
#[derive(Clone, Copy, PartialEq, Eq, Structural, Debug)]
pub enum Op {
    Exact,
    Greater,
    GreaterEq,
    Less,
    LessEq,
    Tilde,
    Caret,
    Wildcard,
}

/// One constraint of a requirement, such as `^1.2` or `>=1.2.3`. The numeric
/// components mirror the partial version the operator applies to; `has_pre`
/// records whether the comparator itself carries a pre-release tag. Since
/// candidate versions never carry a pre-release tag, that single flag
/// determines every pre-release comparison the matching rules make.
#[derive(Clone, Copy, Debug)]
pub struct Constraint {
    pub op: Op,
    pub major: u64,
    pub minor: Option<u64>,
    pub patch: Option<u64>,
    pub has_pre: bool,
}

/// A declared version requirement: the conjunction of its comparators. An
/// empty requirement (`*`) matches every candidate version.
#[derive(Debug)]
pub struct Bound {
    pub comparators: Vec<Constraint>,
}

impl Constraint {
    /// `=` (and the bare/wildcard form): every stated component is equal.
    /// A candidate without a pre-release tag never equals a comparator
    /// carrying one.
    pub open spec fn matches_exact(self, v: Version) -> bool {
        &&& v.major == self.major
        &&& (self.minor matches Some(m) ==> v.minor == m)
        &&& (self.patch matches Some(p) ==> v.patch == p)
        &&& !self.has_pre
    }

    /// `>`: strictly above the comparator, comparing only stated components;
    /// a partial comparator is not exceeded by filling in its omitted parts.
    pub open spec fn matches_greater(self, v: Version) -> bool {
        if v.major != self.major {
            v.major > self.major
        } else {
            match self.minor {
                None => false,
                Some(m) => if v.minor != m {
                    v.minor > m
                } else {
                    match self.patch {
                        None => false,
                        Some(p) => if v.patch != p {
                            v.patch > p
                        } else {
                            self.has_pre
                        },
                    }
                },
            }
        }
    }

    /// `<`: strictly below the comparator on the stated components. A
    /// candidate without a pre-release tag is never below the pre-release
    /// of the same three-component version.
    pub open spec fn matches_less(self, v: Version) -> bool {
        if v.major != self.major {
            v.major < self.major
        } else {
            match self.minor {
                None => false,
                Some(m) => if v.minor != m {
                    v.minor < m
                } else {
                    match self.patch {
                        None => false,
                        Some(p) => v.patch < p,
                    }
                },
            }
        }
    }

    /// `~`: same major (and minor when stated), patch at least the stated one.
    pub open spec fn matches_tilde(self, v: Version) -> bool {
        &&& v.major == self.major
        &&& (self.minor matches Some(m) ==> v.minor == m)
        &&& (self.patch matches Some(p) ==> v.patch >= p)
    }

    /// `^`: no change that the leftmost non-zero component would consider
    /// breaking.
    pub open spec fn matches_caret(self, v: Version) -> bool {
        &&& v.major == self.major
        &&& match self.minor {
            None => true,
            Some(m) => match self.patch {
                None => if self.major > 0 {
                    v.minor >= m
                } else {
                    v.minor == m
                },
                Some(p) => if self.major > 0 {
                    v.minor > m || (v.minor == m && v.patch >= p)
                } else if m > 0 {
                    v.minor == m && v.patch >= p
                } else {
                    v.minor == m && v.patch == p
                },
            },
        }
    }

    /// Whether this comparator admits the candidate version, following the
    /// semantic-versioning range rules for a candidate without a pre-release
    /// tag.
    pub open spec fn spec_matches(self, v: Version) -> bool {
        match self.op {
            Op::Exact => self.matches_exact(v),
            Op::Wildcard => self.matches_exact(v),
            Op::Greater => self.matches_greater(v),
            Op::GreaterEq => self.matches_exact(v) || self.matches_greater(v),
            Op::Less => self.matches_less(v),
            Op::LessEq => self.matches_exact(v) || self.matches_less(v),
            Op::Tilde => self.matches_tilde(v),
            Op::Caret => self.matches_caret(v),
        }
    }

    pub fn matches(&self, v: &Version) -> (r: bool)
        ensures
            r == self.spec_matches(*v),
    {
        match self.op {
            Op::Exact => self.exec_matches_exact(v),
            Op::Wildcard => self.exec_matches_exact(v),
            Op::Greater => self.exec_matches_greater(v),
            Op::GreaterEq => self.exec_matches_exact(v) || self.exec_matches_greater(v),
            Op::Less => self.exec_matches_less(v),
            Op::LessEq => self.exec_matches_exact(v) || self.exec_matches_less(v),
            Op::Tilde => self.exec_matches_tilde(v),
            Op::Caret => self.exec_matches_caret(v),
        }
    }

    fn exec_matches_exact(&self, v: &Version) -> (r: bool)
        ensures
            r == self.matches_exact(*v),
    {
        if v.major != self.major {
            return false;
        }
        if let Some(m) = self.minor {
            if v.minor != m {
                return false;
            }
        }
        if let Some(p) = self.patch {
            if v.patch != p {
                return false;
            }
        }
        !self.has_pre
    }

    fn exec_matches_greater(&self, v: &Version) -> (r: bool)
        ensures
            r == self.matches_greater(*v),
    {
        if v.major != self.major {
            return v.major > self.major;
        }
        match self.minor {
            None => false,
            Some(m) => {
                if v.minor != m {
                    return v.minor > m;
                }
                match self.patch {
                    None => false,
                    Some(p) => {
                        if v.patch != p {
                            v.patch > p
                        } else {
                            self.has_pre
                        }
                    },
                }
            },
        }
    }

    fn exec_matches_less(&self, v: &Version) -> (r: bool)
        ensures
            r == self.matches_less(*v),
    {
        if v.major != self.major {
            return v.major < self.major;
        }
        match self.minor {
            None => false,
            Some(m) => {
                if v.minor != m {
                    return v.minor < m;
                }
                match self.patch {
                    None => false,
                    Some(p) => v.patch < p,
                }
            },
        }
    }

    fn exec_matches_tilde(&self, v: &Version) -> (r: bool)
        ensures
            r == self.matches_tilde(*v),
    {
        if v.major != self.major {
            return false;
        }
        if let Some(m) = self.minor {
            if v.minor != m {
                return false;
            }
        }
        if let Some(p) = self.patch {
            if v.patch < p {
                return false;
            }
        }
        true
    }

    fn exec_matches_caret(&self, v: &Version) -> (r: bool)
        ensures
            r == self.matches_caret(*v),
    {
        if v.major != self.major {
            return false;
        }
        let m = match self.minor {
            None => {
                return true;
            },
            Some(m) => m,
        };
        let p = match self.patch {
            None => {
                if self.major > 0 {
                    return v.minor >= m;
                } else {
                    return v.minor == m;
                }
            },
            Some(p) => p,
        };
        if self.major > 0 {
            v.minor > m || (v.minor == m && v.patch >= p)
        } else if m > 0 {
            v.minor == m && v.patch >= p
        } else {
            v.minor == m && v.patch == p
        }
    }
}

impl Bound {
    /// The bound admits the version when every comparator does.
    pub open spec fn spec_matches(self, v: Version) -> bool {
        forall|i: int|
            0 <= i < self.comparators@.len() ==> (#[trigger] self.comparators@[i]).spec_matches(v)
    }

    pub fn matches(&self, v: &Version) -> (r: bool)
        ensures
            r == self.spec_matches(*v),
    {
        let mut i: usize = 0;
        while i < self.comparators.len()
            invariant
                i <= self.comparators@.len(),
                forall|j: int| 0 <= j < i ==> (#[trigger] self.comparators@[j]).spec_matches(*v),
            decreases self.comparators@.len() - i,
        {
            if !self.comparators[i].matches(v) {
                return false;
            }
            i += 1;
        }
        true
    }
}

/// The subset of `s` that `b` admits, in the order of `s`.
pub open spec fn matching(b: Bound, s: Seq<Version>) -> Seq<Version> {
    s.filter(|v: Version| b.spec_matches(v))
}

proof fn lemma_matching_push(b: Bound, s: Seq<Version>, v: Version)
    ensures
        matching(b, s.push(v)) == if b.spec_matches(v) {
            matching(b, s).push(v)
        } else {
            matching(b, s)
        },
{
    reveal(Seq::filter);
    assert(s.push(v).drop_last() =~= s);
    assert(s.push(v).last() == v);
}

/// Constraint filter: returns exactly the versions the bound admits, keeping
/// their order.
pub fn filter_versions(versions: &Vec<Version>, bound: &Bound) -> (r: Vec<Version>)
    ensures
        r@ == matching(*bound, versions@),
{
    let mut out: Vec<Version> = Vec::new();
    let mut i: usize = 0;
    proof {
        assert(versions@.take(0) =~= Seq::<Version>::empty());
        assert(matching(*bound, versions@.take(0)) =~= out@) by {
            reveal(Seq::filter);
        }
    }
    while i < versions.len()
        invariant
            i <= versions@.len(),
            out@ == matching(*bound, versions@.take(i as int)),
        decreases versions@.len() - i,
    {
        let v = versions[i];
        if bound.matches(&v) {
            out.push(v);
        }
        proof {
            lemma_matching_push(*bound, versions@.take(i as int), versions@[i as int]);
            assert(versions@.take(i as int + 1) =~= versions@.take(i as int).push(
                versions@[i as int],
            ));
        }
        i += 1;
    }
    proof {
        assert(versions@.take(versions@.len() as int) =~= versions@);
    }
    out
}

/// What `semver::VersionReq::parse` decides about a candidate string:
/// `None` when the requirement grammar rejects it, otherwise the parsed
/// comparators, in order, each rendered in the library's constraint model.
/// The outcome depends on the characters of the string alone.
pub uninterp spec fn parsed_req(s: Seq<char>) -> Option<Seq<Constraint>>;

#[verifier::external_type_specification]
#[verifier::external_body]
pub struct ExVersionReq(semver::VersionReq);

#[verifier::external_type_specification]
#[verifier::external_body]
pub struct ExSemverComparator(semver::Comparator);

/// The comparators a parsed requirement holds, in order, each rendered in
/// the library's constraint model.
pub uninterp spec fn req_model(r: semver::VersionReq) -> Seq<Constraint>;

/// What one parsed comparator holds — its operator, stated components and
/// pre-release flag — rendered in the library's constraint model.
pub uninterp spec fn comparator_model(c: semver::Comparator) -> Constraint;

/// Relies on `semver::VersionReq::parse`: accepts exactly the strings of the
/// requirement grammar, and parsing is a pure function of the string.
#[verifier::external_body]
fn parse_req(s: &str) -> (r: Option<semver::VersionReq>)
    ensures
        r is Some <==> parsed_req(s@) is Some,
        r matches Some(req) ==> Some(req_model(req)) == parsed_req(s@),
{
    semver::VersionReq::parse(s).ok()
}

/// Relies on `comparators` being the lone public field of
/// `semver::VersionReq`: the requirement holds exactly these comparators,
/// in this order.
#[verifier::external_body]
fn req_comparators(r: &semver::VersionReq) -> (c: &Vec<semver::Comparator>)
    ensures
        c@.len() == req_model(*r).len(),
        forall|i: int| 0 <= i < c@.len() ==> comparator_model(#[trigger] c@[i]) == req_model(*r)[i],
{
    &r.comparators
}

/// Relies on the public fields of `semver::Comparator`. The pinned version
/// of the requirement parser produces no operator beyond the eight matched
/// here, so the arm that the `non_exhaustive` marker forces is unreachable.
#[verifier::external_body]
fn convert_comparator(c: &semver::Comparator) -> (r: Constraint)
    ensures
        r == comparator_model(*c),
{
    let op = match c.op {
        semver::Op::Exact => Op::Exact,
        semver::Op::Greater => Op::Greater,
        semver::Op::GreaterEq => Op::GreaterEq,
        semver::Op::Less => Op::Less,
        semver::Op::LessEq => Op::LessEq,
        semver::Op::Tilde => Op::Tilde,
        semver::Op::Caret => Op::Caret,
        _ => Op::Wildcard,
    };
    Constraint { op, major: c.major, minor: c.minor, patch: c.patch, has_pre: !c.pre.is_empty() }
}

/// Parses a declared bound. Succeeds exactly when the requirement grammar
/// accepts the string, and then returns exactly the parsed comparators in
/// the library's constraint model.
pub fn parse_bound(s: &str) -> (r: Option<Bound>)
    ensures
        r is Some <==> parsed_req(s@) is Some,
        r matches Some(b) ==> Some(b.comparators@) == parsed_req(s@),
{
    match parse_req(s) {
        None => None,
        Some(req) => {
            let comps = req_comparators(&req);
            let mut out: Vec<Constraint> = Vec::new();
            let mut i: usize = 0;
            proof {
                assert(req_model(req).take(0) =~= out@);
            }
            while i < comps.len()
                invariant
                    i <= comps@.len(),
                    comps@.len() == req_model(req).len(),
                    forall|j: int|
                        0 <= j < comps@.len() ==> comparator_model(#[trigger] comps@[j])
                            == req_model(req)[j],
                    out@ == req_model(req).take(i as int),
                decreases comps@.len() - i,
            {
                out.push(convert_comparator(&comps[i]));
                proof {
                    assert(req_model(req).take(i as int + 1) =~= req_model(req).take(
                        i as int,
                    ).push(req_model(req)[i as int]));
                }
                i += 1;
            }
            proof {
                assert(req_model(req).take(req_model(req).len() as int) =~= req_model(req));
            }
            Some(Bound { comparators: out })
        },
    }
}

} // verus!
