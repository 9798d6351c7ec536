//! Display refresh protocol and startup policy.
//!
//! A refresh wraps the raw frame write in a power cycle: power the
//! display off, write the frame, power it back on.  The first failing
//! step aborts the whole refresh; the caller decides whether to retry.
//! The startup banner is the one write that is retried until it
//! succeeds; steady-state refreshes are best-effort and dropped on
//! failure.

use vstd::prelude::*;

verus! {

/// One step of a display refresh.  The three bus operations are
/// attempted in the order power-off, write, power-on; `Done` and
/// `Aborted` are the two terminal outcomes.
#[derive(Clone, Copy, Debug, PartialEq, Eq, Structural)]
pub enum RefreshStep {
    PowerOff,
    WriteFrame,
    PowerOn,
    Done,
    Aborted,
}

/// The step that follows `cur` when the bus operation of `cur`
/// reported `ok`.  Terminal steps stay where they are.
pub open spec fn spec_refresh_next(cur: RefreshStep, ok: bool) -> RefreshStep {
    match cur {
        RefreshStep::PowerOff => if ok {
            RefreshStep::WriteFrame
        } else {
            RefreshStep::Aborted
        },
        RefreshStep::WriteFrame => if ok {
            RefreshStep::PowerOn
        } else {
            RefreshStep::Aborted
        },
        RefreshStep::PowerOn => if ok {
            RefreshStep::Done
        } else {
            RefreshStep::Aborted
        },
        RefreshStep::Done => RefreshStep::Done,
        RefreshStep::Aborted => RefreshStep::Aborted,
    }
}

/// Advances the refresh protocol by one step, given whether the bus
/// operation of the current step succeeded.
pub fn refresh_next(cur: RefreshStep, ok: bool) -> (next: RefreshStep)
    ensures
        next == spec_refresh_next(cur, ok),
{
    match cur {
        RefreshStep::PowerOff => if ok {
            RefreshStep::WriteFrame
        } else {
            RefreshStep::Aborted
        },
        RefreshStep::WriteFrame => if ok {
            RefreshStep::PowerOn
        } else {
            RefreshStep::Aborted
        },
        RefreshStep::PowerOn => if ok {
            RefreshStep::Done
        } else {
            RefreshStep::Aborted
        },
        RefreshStep::Done => RefreshStep::Done,
        RefreshStep::Aborted => RefreshStep::Aborted,
    }
}

/// The refresh protocol attempts its steps in a fixed order and aborts
/// on the first failure: the frame write is reached only from a
/// successful power-off, power-on only from a successful write, and a
/// completed refresh only from a successful power-on; a failing step
/// always aborts the refresh.
pub proof fn lemma_refresh_order(cur: RefreshStep, ok: bool)
    ensures
        spec_refresh_next(cur, ok) is WriteFrame ==> cur is PowerOff && ok,
        spec_refresh_next(cur, ok) is PowerOn ==> cur is WriteFrame && ok,
        spec_refresh_next(cur, ok) is Done ==> cur is Done || (cur is PowerOn && ok),
        !ok && !(cur is Done) ==> spec_refresh_next(cur, ok) is Aborted,
{
}

/// The steps a refresh visits when the bus reports the outcomes in
/// `outcomes`, one per step taken: the refresh starts at power-off,
/// and each element is followed by the step its outcome leads to.
pub open spec fn refresh_states(outcomes: Seq<bool>) -> Seq<RefreshStep>
    decreases outcomes.len(),
{
    if outcomes.len() == 0 {
        seq![RefreshStep::PowerOff]
    } else {
        let prev = refresh_states(outcomes.drop_last());
        prev.push(spec_refresh_next(prev.last(), outcomes.last()))
    }
}

/// Over every sequence of bus outcomes, the refresh performs power-off
/// before the write and the write before power-on: the frame write is
/// visited only right after a successful power-off, power-on only
/// right after a successful write, and the refresh completes only
/// right after a successful power-on.
pub proof fn lemma_refresh_trace(outcomes: Seq<bool>, k: int)
    requires
        0 <= k <= outcomes.len(),
    ensures
        refresh_states(outcomes).len() == outcomes.len() + 1,
        refresh_states(outcomes)[k] is WriteFrame ==> k >= 1 && refresh_states(outcomes)[k - 1]
            is PowerOff && outcomes[k - 1],
        refresh_states(outcomes)[k] is PowerOn ==> k >= 1 && refresh_states(outcomes)[k - 1]
            is WriteFrame && outcomes[k - 1],
        refresh_states(outcomes)[k] is Done ==> k >= 1 && (refresh_states(outcomes)[k - 1]
            is Done || (refresh_states(outcomes)[k - 1] is PowerOn && outcomes[k - 1])),
    decreases outcomes.len(),
{
    if outcomes.len() > 0 {
        let prev = refresh_states(outcomes.drop_last());
        if k <= outcomes.len() - 1 {
            lemma_refresh_trace(outcomes.drop_last(), k);
            assert(refresh_states(outcomes)[k] == prev[k]);
            if k >= 1 {
                assert(refresh_states(outcomes)[k - 1] == prev[k - 1]);
                assert(outcomes.drop_last()[k - 1] == outcomes[k - 1]);
            }
        } else {
            lemma_refresh_trace(outcomes.drop_last(), k - 1);
            assert(refresh_states(outcomes)[k] == spec_refresh_next(
                prev.last(),
                outcomes.last(),
            ));
            assert(refresh_states(outcomes)[k - 1] == prev[k - 1]);
        }
    }
}

/// Whether the startup banner write must be attempted again: it is
/// retried exactly as long as the previous attempt failed.
pub fn startup_retry(ok: bool) -> (retry: bool)
    ensures
        retry == !ok,
{
    !ok
}

/// Model of the startup banner write over a sequence of attempt
/// outcomes: attempts are made one after another until the first
/// success.  Returns the number of attempts made, so a run of failures
/// followed by a success costs one attempt per failure plus the final
/// successful one; if every outcome in `outcomes` is a failure, no
/// attempt succeeds and the retry continues beyond them.
pub fn startup_attempts(outcomes: &Vec<bool>) -> (r: Option<usize>)
    ensures
        r matches Some(k) ==> 0 < k <= outcomes@.len() && outcomes@[k - 1] && forall|j: int|
            0 <= j < k - 1 ==> !outcomes@[j],
        r is None ==> forall|j: int| 0 <= j < outcomes@.len() ==> !outcomes@[j],
{
    let n = outcomes.len();
    let mut i: usize = 0;
    while i < n
        invariant
            i <= n,
            n == outcomes@.len(),
            forall|j: int| 0 <= j < i ==> !outcomes@[j],
        decreases n - i,
    {
        if outcomes[i] {
            return Some(i + 1);
        }
        i = i + 1;
    }
    None
}

} // verus!
