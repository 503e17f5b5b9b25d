//! Runs of context checks on one descriptor, and how often they change its
//! mode.
//!
//! A run is a sequence of [`IoContext::check_context`](crate::context::IoContext::check_context)
//! calls, one caller at a time. The functions here follow the recorded state
//! through a run by the step function that the call's contract is stated
//! with, and the lemmas say at which calls the toggle is invoked.

use crate::context::IoState;
use crate::mode::OsMode;
use vstd::prelude::*;

verus! {

/// One context check of a run.
pub struct ContextCall {
    /// Whether the caller runs inside a scheduled coroutine.
    pub in_coroutine: bool,
    /// Whether the toggle handed to the call succeeds if it is invoked.
    pub toggle_ok: bool,
}

/// The recorded state after the first `n` calls of a run from `start`: the
/// state that call `n` finds.
pub open spec fn state_after(start: IoState, calls: Seq<ContextCall>, n: int) -> IoState
    decreases n,
{
    if n <= 0 {
        start
    } else {
        state_after(start, calls, n - 1).after_context(
            calls[n - 1].in_coroutine,
            calls[n - 1].toggle_ok,
        )
    }
}

/// The argument with which call `i` of the run invokes its toggle, or `None`
/// if it does not invoke it.
pub open spec fn toggle_at(start: IoState, calls: Seq<ContextCall>, i: int) -> Option<bool> {
    state_after(start, calls, i).context_toggle(calls[i].in_coroutine)
}

/// Whether call `i` of the run returns `Ok`: it had no toggle to invoke, or
/// its toggle succeeded.
pub open spec fn returns_ok(start: IoState, calls: Seq<ContextCall>, i: int) -> bool {
    toggle_at(start, calls, i) is None || calls[i].toggle_ok
}

/// How many of the first `n` calls of the run invoke their toggle.
pub open spec fn toggle_count(start: IoState, calls: Seq<ContextCall>, n: int) -> nat
    decreases n,
{
    if n <= 0 {
        0
    } else if toggle_at(start, calls, n - 1) is Some {
        toggle_count(start, calls, n - 1) + 1
    } else {
        toggle_count(start, calls, n - 1)
    }
}

/// A call that returns `Ok` leaves the mode recorded that its context needs.
pub proof fn lemma_ok_call_records_needed_mode(start: IoState, calls: Seq<ContextCall>, i: int)
    requires
        0 <= i < calls.len(),
        returns_ok(start, calls, i),
    ensures
        state_after(start, calls, i + 1).mode == OsMode::for_context(calls[i].in_coroutine),
{
}

/// A call whose toggle fails leaves the record as it was, so the next call
/// from the same context invokes the toggle again, with the same argument.
pub proof fn lemma_failed_toggle_is_retried(start: IoState, calls: Seq<ContextCall>, i: int)
    requires
        0 <= i,
        i + 1 < calls.len(),
        toggle_at(start, calls, i) is Some,
        !calls[i].toggle_ok,
        calls[i + 1].in_coroutine == calls[i].in_coroutine,
    ensures
        state_after(start, calls, i + 1) == state_after(start, calls, i),
        toggle_at(start, calls, i + 1) == toggle_at(start, calls, i),
{
}

/// After a call that returned `Ok`, the next call invokes the toggle if and
/// only if its context differs from that call's, and then with the argument
/// that asks for the mode of its own context.
pub proof fn lemma_toggle_marks_change_of_context(
    start: IoState,
    calls: Seq<ContextCall>,
    i: int,
)
    requires
        1 <= i < calls.len(),
        returns_ok(start, calls, i - 1),
    ensures
        toggle_at(start, calls, i) is Some
            <==> calls[i].in_coroutine != calls[i - 1].in_coroutine,
        toggle_at(start, calls, i) matches Some(flag) ==> flag == calls[i].in_coroutine,
{
    lemma_ok_call_records_needed_mode(start, calls, i - 1);
}

/// Once a call has returned `Ok`, no later call invokes the toggle as long
/// as the context stays the same, whatever the toggles handed to those calls
/// would do.
pub proof fn lemma_settled_context_is_quiet(
    start: IoState,
    calls: Seq<ContextCall>,
    i: int,
    j: int,
)
    requires
        0 <= i < j < calls.len(),
        returns_ok(start, calls, i),
        forall|k: int| i < k <= j ==> (#[trigger] calls[k]).in_coroutine == calls[i].in_coroutine,
    ensures
        toggle_at(start, calls, j) is None,
        state_after(start, calls, j + 1) == state_after(start, calls, i + 1),
    decreases j - i,
{
    lemma_ok_call_records_needed_mode(start, calls, i);
    if j > i + 1 {
        lemma_settled_context_is_quiet(start, calls, i, j - 1);
    }
    assert(calls[j].in_coroutine == calls[i].in_coroutine);
}

/// In a run of calls that all come from one context, and in which no toggle
/// fails before the last call, only the first call can invoke its toggle: a
/// toggle is invoked at most once.
pub proof fn lemma_one_context_toggles_at_most_once(
    start: IoState,
    calls: Seq<ContextCall>,
    in_coroutine: bool,
)
    requires
        forall|k: int| 0 <= k < calls.len() ==> (#[trigger] calls[k]).in_coroutine == in_coroutine,
        forall|k: int| 0 <= k < calls.len() - 1 ==> #[trigger] returns_ok(start, calls, k),
    ensures
        forall|k: int| 1 <= k < calls.len() ==> #[trigger] toggle_at(start, calls, k) is None,
        toggle_count(start, calls, calls.len() as int) <= 1,
        toggle_count(start, calls, calls.len() as int) == 1
            ==> toggle_at(start, calls, 0) == Some(in_coroutine),
{
    assert forall|k: int| 1 <= k < calls.len() implies #[trigger] toggle_at(start, calls, k)
        is None by {
        assert(returns_ok(start, calls, 0));
        lemma_settled_context_is_quiet(start, calls, 0, k);
    }
    lemma_count_of_first_toggle_only(start, calls, calls.len() as int);
}

/// In a run of calls that alternate between the two contexts, and in which
/// no toggle fails, every call after the first invokes its toggle, once and
/// with the argument that asks for the mode of its context, and after every
/// call the recorded mode is the one that the call's context needs.
pub proof fn lemma_alternation_toggles_every_call(start: IoState, calls: Seq<ContextCall>)
    requires
        forall|k: int|
            1 <= k < calls.len()
                ==> (#[trigger] calls[k]).in_coroutine != calls[k - 1].in_coroutine,
        forall|k: int| 0 <= k < calls.len() ==> #[trigger] returns_ok(start, calls, k),
    ensures
        forall|k: int|
            1 <= k < calls.len()
                ==> #[trigger] toggle_at(start, calls, k) == Some(calls[k].in_coroutine),
        forall|k: int|
            0 <= k < calls.len()
                ==> (#[trigger] state_after(start, calls, k + 1)).mode
                    == OsMode::for_context(calls[k].in_coroutine),
        calls.len() > 0 ==> toggle_count(start, calls, calls.len() as int)
            == calls.len() - 1 + (if toggle_at(start, calls, 0) is Some { 1nat } else { 0nat }),
{
    assert forall|k: int| 1 <= k < calls.len() implies #[trigger] toggle_at(start, calls, k)
        == Some(calls[k].in_coroutine) by {
        assert(returns_ok(start, calls, k - 1));
        assert(calls[k].in_coroutine != calls[k - 1].in_coroutine);
        lemma_toggle_marks_change_of_context(start, calls, k);
    }
    assert forall|k: int| 0 <= k < calls.len() implies (#[trigger] state_after(
        start,
        calls,
        k + 1,
    )).mode == OsMode::for_context(calls[k].in_coroutine) by {
        assert(returns_ok(start, calls, k));
        lemma_ok_call_records_needed_mode(start, calls, k);
    }
    if calls.len() > 0 {
        lemma_count_of_every_later_toggle(start, calls, calls.len() as int);
    }
}

/// Where no call after the first invokes its toggle, the count is that of
/// the first call alone.
proof fn lemma_count_of_first_toggle_only(start: IoState, calls: Seq<ContextCall>, n: int)
    requires
        0 <= n <= calls.len(),
        forall|k: int| 1 <= k < calls.len() ==> #[trigger] toggle_at(start, calls, k) is None,
    ensures
        toggle_count(start, calls, n)
            == (if n >= 1 && toggle_at(start, calls, 0) is Some { 1nat } else { 0nat }),
    decreases n,
{
    if n >= 1 {
        lemma_count_of_first_toggle_only(start, calls, n - 1);
        if n >= 2 {
            assert(toggle_at(start, calls, n - 1) is None);
        }
    }
}

/// Where every call after the first invokes its toggle, the count is one
/// for each of them, and one more if the first call invokes its own.
proof fn lemma_count_of_every_later_toggle(start: IoState, calls: Seq<ContextCall>, n: int)
    requires
        1 <= n <= calls.len(),
        forall|k: int| 1 <= k < calls.len() ==> #[trigger] toggle_at(start, calls, k) is Some,
    ensures
        toggle_count(start, calls, n)
            == n - 1 + (if toggle_at(start, calls, 0) is Some { 1nat } else { 0nat }),
    decreases n,
{
    if n >= 2 {
        lemma_count_of_every_later_toggle(start, calls, n - 1);
        assert(toggle_at(start, calls, n - 1) is Some);
    } else {
        assert(toggle_count(start, calls, 0) == 0);
    }
}

} // verus!
