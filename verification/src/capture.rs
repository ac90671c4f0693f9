//! The pointer-capture discipline both widgets follow.
//!
//! Pointer capture is a mutually exclusive resource granted by the host:
//! a widget acquires it on an eligible press and must release it on the
//! matching button-up or on point removal. Each event handler of this
//! library reports its capture actions in its output and promises, as part
//! of its contract, that they form a correct [`CapStep`] against the
//! widget's held-capture state. The lemmas here draw the global
//! consequence: over any event sequence the number of `capture` calls
//! never exceeds the number of `release` calls by more than one, and a
//! sequence whose last step releases leaves no capture pending.

use vstd::prelude::*;

verus! {

/// The capture-relevant outcome of handling one event: whether the handler
/// asked the host to acquire or to release capture, and whether the widget
/// considers itself holding capture afterwards.
#[derive(Clone, Copy, PartialEq, Eq, Structural, Debug)]
pub struct CapStep {
    pub acquires: bool,
    pub releases: bool,
    pub held_after: bool,
}

/// A correct capture step from a state where the widget holds capture iff
/// `held_before`: capture is only acquired when not already held and is
/// then held; a release leaves it not held; otherwise the held state is
/// unchanged; and no step both acquires and releases.
pub open spec fn cap_step_ok(held_before: bool, s: CapStep) -> bool {
    &&& s.acquires ==> !held_before && s.held_after
    &&& s.releases ==> !s.held_after
    &&& !s.acquires && !s.releases ==> s.held_after == held_before
    &&& !(s.acquires && s.releases)
}

/// Whether capture is held before step `i` of the trace: initially not,
/// afterwards whatever the previous step left.
pub open spec fn held_at(t: Seq<CapStep>, i: int) -> bool {
    if i <= 0 {
        false
    } else {
        t[i - 1].held_after
    }
}

/// Every step of the trace is a correct capture step.
pub open spec fn trace_ok(t: Seq<CapStep>) -> bool {
    forall|i: int| 0 <= i < t.len() ==> cap_step_ok(held_at(t, i), #[trigger] t[i])
}

/// Acquisitions minus releases over the first `n` steps of the trace.
pub open spec fn net_captures(t: Seq<CapStep>, n: int) -> int
    decreases n,
{
    if n <= 0 {
        0
    } else {
        net_captures(t, n - 1) + (if t[n - 1].acquires {
            1int
        } else {
            0int
        }) - (if t[n - 1].releases {
            1int
        } else {
            0int
        })
    }
}

/// Along a correct trace the capture balance equals at most one while
/// capture is held and at most zero while it is not: a widget never holds
/// two pending captures, and every release is accounted for.
pub proof fn lemma_capture_balance(t: Seq<CapStep>, n: int)
    requires
        trace_ok(t),
        0 <= n <= t.len(),
    ensures
        net_captures(t, n) <= if held_at(t, n) {
            1int
        } else {
            0int
        },
    decreases n,
{
    if n > 0 {
        lemma_capture_balance(t, n - 1);
        assert(cap_step_ok(held_at(t, n - 1), t[n - 1]));
    }
}

/// Over any prefix of a correct trace, `capture` is called at most once
/// more often than `release`.
pub proof fn lemma_capture_never_exceeds_one(t: Seq<CapStep>, n: int)
    requires
        trace_ok(t),
        0 <= n <= t.len(),
    ensures
        net_captures(t, n) <= 1,
{
    lemma_capture_balance(t, n);
}

/// A correct trace whose last step releases capture leaves none pending.
pub proof fn lemma_capture_released_at_end(t: Seq<CapStep>)
    requires
        trace_ok(t),
        t.len() > 0,
        t[t.len() - 1].releases,
    ensures
        net_captures(t, t.len() as int) <= 0,
{
    lemma_capture_balance(t, t.len() as int);
}

} // verus!
