use vstd::prelude::*;

verus! {

/// Outcome of one trial: one validator invocation against one pinned
/// version. There is no partial state: a validator that could not even be
/// launched counts as a failure.
#[derive(Clone, Copy, PartialEq, Eq, Structural, Debug)]
pub enum TrialResult {
    Fail,
    Success,
}

/// How a validator outcome is read: success exactly when the validator was
/// launched and exited with status zero.
pub open spec fn spec_classify(launched: bool, exit_zero: bool) -> TrialResult {
    if launched && exit_zero {
        TrialResult::Success
    } else {
        TrialResult::Fail
    }
}

/// Classifies one validator outcome as a trial result. Deterministic in its
/// arguments: identical outcomes give identical trial results.
pub fn classify_outcome(launched: bool, exit_zero: bool) -> (r: TrialResult)
    ensures
        r == spec_classify(launched, exit_zero),
{
    if launched && exit_zero {
        TrialResult::Success
    } else {
        TrialResult::Fail
    }
}

} // verus!
