use vstd::prelude::*;
use vstd::arithmetic::power2::pow2;
use crate::trial::TrialResult;

verus! {

/// Phase of one boundary search. The search narrows an index window
/// `[low, top]` until the two ends are adjacent, then re-tests both ends
/// explicitly (earlier probes were at other indices) before settling on an
/// answer.
#[derive(Clone, Copy, PartialEq, Eq, Structural, Debug)]
pub enum Phase {
    Narrow { low: usize, top: usize },
    ConfirmLow { low: usize, top: usize },
    ConfirmTop { low: usize, top: usize, low_result: TrialResult },
    Done { answer: usize },
}

/// Bisection engine over a sorted candidate list of `len` versions,
/// searching for the boundary between the region whose trials give `edge`
/// and the region whose trials do not. The engine holds no trial results of
/// its own: a driver asks `next_query` which index to test, performs that
/// single trial, and hands the outcome back through `report`. `trials`
/// counts the outcomes reported so far.
#[derive(Clone, Copy, PartialEq, Eq, Structural, Debug)]
pub struct Bisection {
    pub edge: TrialResult,
    pub len: usize,
    pub phase: Phase,
    pub trials: usize,
}

/// The trial outcomes over the candidate list are monotone with transition
/// index `t` for edge `e`: exactly the positions at and above `t` give `e`.
/// `t == 0` means every position gives `e`; `t == rs.len()` means none does.
pub open spec fn monotone_edge(rs: Seq<TrialResult>, e: TrialResult, t: int) -> bool {
    forall|i: int| 0 <= i < rs.len() ==> (((#[trigger] rs[i]) == e) <==> i >= t)
}

/// The index the search settles on when the outcomes are monotone with
/// transition `t`. With a transition strictly inside the list, the edge
/// `Fail` search reports the highest position that does not fail and the
/// edge `Success` search reports the lowest position that succeeds. The
/// all-`edge` and no-`edge` cases record the fixed tie-break the final
/// confirmation applies when both ends give the same result.
pub open spec fn expected_answer(len: int, e: TrialResult, t: int) -> int {
    if e == TrialResult::Fail {
        if t == 0 {
            1
        } else if t == len {
            len - 1
        } else {
            t - 1
        }
    } else {
        if t == 0 {
            0
        } else if t == len {
            len - 2
        } else {
            t
        }
    }
}

/// Window soundness against a fixed outcome sequence: for every monotone
/// reading of the outcomes, the transition stays inside (or at the edge of)
/// the current window, and a degenerate reading pins the untouched end.
pub open spec fn window_ok(e: TrialResult, len: int, low: int, top: int, rs: Seq<TrialResult>) -> bool {
    forall|t: int|
        0 <= t <= len && #[trigger] monotone_edge(rs, e, t) ==> {
            &&& (t == 0 ==> low == 0)
            &&& (t > 0 ==> low < t)
            &&& (t == len ==> top == len - 1)
            &&& (t < len ==> t <= top)
        }
}

impl Bisection {
    /// Structural well-formedness, including the trial-count bounds: a
    /// search over `len` candidates narrows at most `len - 2` times, and
    /// every narrowing halves the open part of the window, so the count
    /// stays logarithmic in the window size.
    pub open spec fn wf(self) -> bool {
        &&& self.len >= 2
        &&& match self.phase {
            Phase::Narrow { low, top } => {
                &&& low < top < self.len
                &&& top - low > 1
                &&& self.trials + (top - low) <= self.len - 1
                &&& (top - low - 1) * pow2(self.trials as nat) <= self.len - 2
            },
            Phase::ConfirmLow { low, top } => {
                &&& low < top < self.len
                &&& top - low == 1
                &&& self.trials <= self.len - 2
                &&& (self.trials == 0 || pow2((self.trials - 1) as nat) <= self.len - 2)
            },
            Phase::ConfirmTop { low, top, .. } => {
                &&& low < top < self.len
                &&& top - low == 1
                &&& 1 <= self.trials <= self.len - 1
                &&& (self.trials == 1 || pow2((self.trials - 2) as nat) <= self.len - 2)
            },
            Phase::Done { answer } => {
                &&& answer < self.len
                &&& 2 <= self.trials <= self.len
                &&& (self.trials == 2 || pow2((self.trials - 3) as nat) <= self.len - 2)
            },
        }
    }

    /// The index whose trial the engine wants next (meaningless once done).
    pub open spec fn query_of(self) -> int {
        match self.phase {
            Phase::Narrow { low, top } => (low + top) / 2,
            Phase::ConfirmLow { low, .. } => low as int,
            Phase::ConfirmTop { top, .. } => top as int,
            Phase::Done { .. } => 0,
        }
    }

    /// Exact successor state once one trial outcome is reported.
    pub open spec fn spec_step(self, r: TrialResult) -> Bisection {
        match self.phase {
            Phase::Narrow { low, top } => {
                let mid = ((low + top) / 2) as usize;
                let nl = if r == self.edge {
                    low
                } else {
                    mid
                };
                let nt = if r == self.edge {
                    mid
                } else {
                    top
                };
                let ph = if nt - nl > 1 {
                    Phase::Narrow { low: nl, top: nt }
                } else {
                    Phase::ConfirmLow { low: nl, top: nt }
                };
                Bisection {
                    edge: self.edge,
                    len: self.len,
                    phase: ph,
                    trials: (self.trials + 1) as usize,
                }
            },
            Phase::ConfirmLow { low, top } => Bisection {
                edge: self.edge,
                len: self.len,
                phase: Phase::ConfirmTop { low, top, low_result: r },
                trials: (self.trials + 1) as usize,
            },
            Phase::ConfirmTop { low, top, low_result } => {
                let ans = if low_result == r {
                    if self.edge == TrialResult::Fail {
                        top
                    } else {
                        low
                    }
                } else {
                    if self.edge == TrialResult::Fail {
                        low
                    } else {
                        top
                    }
                };
                Bisection {
                    edge: self.edge,
                    len: self.len,
                    phase: Phase::Done { answer: ans },
                    trials: (self.trials + 1) as usize,
                }
            },
            Phase::Done { .. } => self,
        }
    }

    /// The engine's record stays sound against the outcome sequence `rs`
    /// that the driver reads trial results from.
    pub open spec fn tracks(self, rs: Seq<TrialResult>) -> bool {
        &&& rs.len() == self.len
        &&& match self.phase {
            Phase::Narrow { low, top } => window_ok(self.edge, self.len as int, low as int, top as int, rs),
            Phase::ConfirmLow { low, top } => window_ok(self.edge, self.len as int, low as int, top as int, rs),
            Phase::ConfirmTop { low, top, low_result } => {
                &&& window_ok(self.edge, self.len as int, low as int, top as int, rs)
                &&& low_result == rs[low as int]
            },
            Phase::Done { answer } => forall|t: int|
                0 <= t <= rs.len() && #[trigger] monotone_edge(rs, self.edge, t) ==> answer as int
                    == expected_answer(rs.len() as int, self.edge, t),
        }
    }

    /// Measure that every reported outcome strictly decreases.
    pub open spec fn rank(self) -> int {
        match self.phase {
            Phase::Narrow { low, top } => top - low + 2,
            Phase::ConfirmLow { .. } => 2,
            Phase::ConfirmTop { .. } => 1,
            Phase::Done { .. } => 0,
        }
    }

    /// Starts a boundary search over `len` sorted candidates.
    pub fn new(len: usize, edge: TrialResult) -> (r: Bisection)
        requires
            2 <= len,
        ensures
            r.wf(),
            r.edge == edge,
            r.len == len,
            r.trials == 0,
            r.phase == if len > 2 {
                Phase::Narrow { low: 0usize, top: (len - 1) as usize }
            } else {
                Phase::ConfirmLow { low: 0usize, top: 1usize }
            },
    {
        let phase = if len > 2 {
            Phase::Narrow { low: 0, top: len - 1 }
        } else {
            Phase::ConfirmLow { low: 0, top: 1 }
        };
        let r = Bisection { edge, len, phase, trials: 0 };
        proof {
            vstd::arithmetic::power2::lemma2_to64();
            assert((len - 2) * pow2(0) == len - 2);
        }
        r
    }

    /// The next index to run a trial at, or `None` once the search is done.
    pub fn next_query(&self) -> (r: Option<usize>)
        requires
            self.wf(),
        ensures
            r is None <==> self.phase is Done,
            r matches Some(q) ==> q as int == self.query_of() && q < self.len,
    {
        match self.phase {
            Phase::Narrow { low, top } => Some(low + (top - low) / 2),
            Phase::ConfirmLow { low, top: _ } => Some(low),
            Phase::ConfirmTop { low: _, top, low_result: _ } => Some(top),
            Phase::Done { answer: _ } => None,
        }
    }

    /// The boundary index, once the search is done.
    pub fn answer(&self) -> (r: Option<usize>)
        ensures
            match self.phase {
                Phase::Done { answer } => r == Some(answer),
                _ => r is None,
            },
    {
        match self.phase {
            Phase::Done { answer } => Some(answer),
            _ => None,
        }
    }

    /// Feeds back the outcome of the trial at the queried index and advances
    /// the search exactly as `spec_step` describes.
    pub fn report(&mut self, r: TrialResult)
        requires
            old(self).wf(),
        ensures
            *final(self) == old(self).spec_step(r),
            final(self).wf(),
    {
        let ph = self.phase;
        match ph {
            Phase::Narrow { low, top } => {
                let mid = low + (top - low) / 2;
                proof {
                    assert(mid as int == (low + top) / 2);
                    assert(low < mid < top);
                    let or = top - low;
                    let t = self.trials as nat;
                    vstd::arithmetic::power2::lemma_pow2_unfold(t + 1);
                    assert(pow2(t + 1) == 2 * pow2(t));
                    assert(2 * ((top - mid) - 1) <= or - 1);
                    assert(2 * ((mid - low) - 1) <= or - 1);
                    assert(((top - mid) - 1) * pow2(t + 1) <= (or - 1) * pow2(t)) by (nonlinear_arith)
                        requires
                            2 * ((top - mid) - 1) <= or - 1,
                            pow2(t + 1) == 2 * pow2(t),
                            pow2(t) >= 0,
                            low < mid < top,
                    ;
                    assert(((mid - low) - 1) * pow2(t + 1) <= (or - 1) * pow2(t)) by (nonlinear_arith)
                        requires
                            2 * ((mid - low) - 1) <= or - 1,
                            pow2(t + 1) == 2 * pow2(t),
                            pow2(t) >= 0,
                            low < mid < top,
                    ;
                    if or - 1 >= 1 {
                        assert(pow2(t) <= (or - 1) * pow2(t)) by (nonlinear_arith)
                            requires
                                or - 1 >= 1,
                                pow2(t) >= 0,
                        ;
                    }
                }
                let nl: usize;
                let nt: usize;
                if r == self.edge {
                    nl = low;
                    nt = mid;
                } else {
                    nl = mid;
                    nt = top;
                }
                if nt - nl > 1 {
                    self.phase = Phase::Narrow { low: nl, top: nt };
                } else {
                    self.phase = Phase::ConfirmLow { low: nl, top: nt };
                }
                self.trials = self.trials + 1;
            },
            Phase::ConfirmLow { low, top } => {
                self.phase = Phase::ConfirmTop { low, top, low_result: r };
                self.trials = self.trials + 1;
            },
            Phase::ConfirmTop { low, top, low_result } => {
                let ans: usize;
                if low_result == r {
                    if self.edge == TrialResult::Fail {
                        ans = top;
                    } else {
                        ans = low;
                    }
                } else {
                    if self.edge == TrialResult::Fail {
                        ans = low;
                    } else {
                        ans = top;
                    }
                }
                self.phase = Phase::Done { answer: ans };
                self.trials = self.trials + 1;
            },
            Phase::Done { answer: _ } => {},
        }
    }
}

/// One reported outcome keeps the engine sound against the outcome sequence
/// it was read from.
pub proof fn lemma_step_preserves_tracking(b: Bisection, rs: Seq<TrialResult>, r: TrialResult)
    requires
        b.wf(),
        b.tracks(rs),
        !(b.phase is Done),
        r == rs[b.query_of()],
    ensures
        b.spec_step(r).tracks(rs),
{
    let e = b.edge;
    let len = b.len as int;
    let nb = b.spec_step(r);
    match b.phase {
        Phase::Narrow { low, top } => {
            let mid = (low + top) / 2;
            assert(low < mid < top);
            let nl = if r == e {
                low as int
            } else {
                mid
            };
            let nt = if r == e {
                mid
            } else {
                top as int
            };
            assert forall|t: int| 0 <= t <= len && #[trigger] monotone_edge(rs, e, t) implies {
                &&& (t == 0 ==> nl == 0)
                &&& (t > 0 ==> nl < t)
                &&& (t == len ==> nt == len - 1)
                &&& (t < len ==> t <= nt)
            } by {
                assert((rs[mid] == e) <==> mid >= t);
                assert(t == 0 ==> low == 0);
                assert(t > 0 ==> low < t);
                assert(t == len ==> top == len - 1);
                assert(t < len ==> t <= top);
            }
        },
        Phase::ConfirmLow { low, top } => {
            assert(r == rs[low as int]);
        },
        Phase::ConfirmTop { low, top, low_result } => {
            let l = low as int;
            let p = top as int;
            assert(p == l + 1);
            let ans = nb.phase->Done_answer as int;
            assert forall|t: int| 0 <= t <= len && #[trigger] monotone_edge(rs, e, t) implies ans
                == expected_answer(len, e, t) by {
                assert((rs[l] == e) <==> l >= t);
                assert((rs[p] == e) <==> p >= t);
                assert(low_result == rs[l]);
                assert(r == rs[p]);
                if t == 0 {
                    assert(l == 0 && p == 1);
                    assert(rs[l] == e && rs[p] == e);
                } else if t == len {
                    assert(p == len - 1 && l == len - 2);
                    assert(rs[l] != e && rs[p] != e);
                } else {
                    assert(l < t <= p);
                    assert(t == p);
                    assert(rs[l] != e && rs[p] == e);
                }
            }
        },
        Phase::Done { .. } => {},
    }
}

/// Boundary search over precomputed trial outcomes, one per candidate.
/// Returns the boundary index and the number of trials read. On outcomes
/// monotone in the target edge this is exactly the transition position
/// (`expected_answer`), found with a logarithmic number of narrowing trials
/// plus the two final confirmations.
pub fn find_boundary_index(results: &Vec<TrialResult>, edge: TrialResult) -> (r: (usize, usize))
    requires
        results@.len() >= 2,
    ensures
        r.0 < results@.len(),
        forall|t: int|
            0 <= t <= results@.len() && #[trigger] monotone_edge(results@, edge, t) ==> r.0 as int
                == expected_answer(results@.len() as int, edge, t),
        2 <= r.1 <= results@.len(),
        r.1 == 2 || pow2((r.1 - 3) as nat) <= results@.len() - 2,
{
    let ghost rs = results@;
    let mut b = Bisection::new(results.len(), edge);
    proof {
        assert(b.tracks(rs));
    }
    loop
        invariant
            b.wf(),
            b.tracks(rs),
            b.len == results@.len(),
            b.edge == edge,
            rs == results@,
            2 <= results@.len(),
        ensures
            b.wf(),
            b.tracks(rs),
            b.len == results@.len(),
            b.phase is Done,
        decreases b.rank(),
    {
        let q_opt = b.next_query();
        match q_opt {
            None => {
                break ;
            },
            Some(q) => {
                let r = results[q];
                proof {
                    lemma_step_preserves_tracking(b, rs, r);
                    assert(b.spec_step(r).rank() < b.rank());
                }
                b.report(r);
            },
        }
    }
    let ans = match b.answer() {
        Some(a) => a,
        None => 0,
    };
    (ans, b.trials)
}

} // verus!
