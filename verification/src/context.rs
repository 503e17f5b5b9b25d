//! The per-descriptor state and the two decisions taken before each I/O call.

use crate::mode::OsMode;
use vstd::prelude::*;

verus! {

/// `std::io::Error`, the failure of a mode change as the operating system
/// reports it. Nothing is claimed of what it holds: the library hands it on
/// and never makes or reads one.
#[verifier::external_type_specification]
#[verifier::external_body]
pub struct ExIoError(std::io::Error);

/// What an [`IoContext`] holds, as plain values.
pub struct IoState {
    /// The owner has asked for raw nonblocking use: an operation that would
    /// block reports so at once and never suspends.
    pub nonblocking: bool,
    /// The mode the descriptor was last put in.
    pub mode: OsMode,
}

impl IoState {
    /// The state of a fresh descriptor: no raw use asked for, and the
    /// descriptor nonblocking, as the runtime creates it.
    pub open spec fn initial() -> IoState {
        IoState { nonblocking: false, mode: OsMode::Nonblocking }
    }

    /// The same state with another recorded mode.
    pub open spec fn with_mode(self, mode: OsMode) -> IoState {
        IoState { nonblocking: self.nonblocking, mode }
    }

    /// The argument of the toggle that a raw-nonblocking check has to make
    /// in this state, if it has to make one.
    pub open spec fn raw_toggle(self) -> Option<bool> {
        if self.nonblocking && self.mode != OsMode::Nonblocking {
            Some(true)
        } else {
            None
        }
    }

    /// The argument of the toggle that a context check has to make in this
    /// state for a caller in the given context, if it has to make one.
    pub open spec fn context_toggle(self, in_coroutine: bool) -> Option<bool> {
        if self.mode != OsMode::for_context(in_coroutine) {
            Some(OsMode::for_context(in_coroutine).flag())
        } else {
            None
        }
    }

    /// The state after a raw-nonblocking check whose toggle, if one was due,
    /// succeeded or not as `toggle_ok` says.
    pub open spec fn after_raw(self, toggle_ok: bool) -> IoState {
        if self.raw_toggle() is Some && toggle_ok {
            self.with_mode(OsMode::Nonblocking)
        } else {
            self
        }
    }

    /// The state after a context check from the given context whose toggle,
    /// if one was due, succeeded or not as `toggle_ok` says.
    pub open spec fn after_context(self, in_coroutine: bool, toggle_ok: bool) -> IoState {
        if self.context_toggle(in_coroutine) is Some && toggle_ok {
            self.with_mode(OsMode::for_context(in_coroutine))
        } else {
            self
        }
    }
}

/// The state kept for one descriptor: the owner's request for raw
/// nonblocking use, and a record of the mode the descriptor was last put in.
///
/// The record is a hint that saves system calls. It changes only after a
/// toggle has reported success, so it never runs ahead of the descriptor.
#[derive(Debug)]
pub struct IoContext {
    nonblocking: bool,
    mode: OsMode,
}

impl View for IoContext {
    type V = IoState;

    closed spec fn view(&self) -> IoState {
        IoState { nonblocking: self.nonblocking, mode: self.mode }
    }
}

impl IoContext {
    /// The context of a fresh descriptor: no raw use asked for, and the
    /// descriptor taken to be nonblocking, as the runtime creates it.
    pub fn new() -> (ctx: IoContext)
        ensures
            ctx@ == IoState::initial(),
    {
        IoContext { nonblocking: false, mode: OsMode::Nonblocking }
    }

    /// A context that holds the given values, for an owner that keeps them
    /// elsewhere between calls.
    pub fn from_parts(nonblocking: bool, mode: OsMode) -> (ctx: IoContext)
        ensures
            ctx@ == (IoState { nonblocking, mode }),
    {
        IoContext { nonblocking, mode }
    }

    /// Whether the owner has asked for raw nonblocking use.
    pub fn is_nonblocking(&self) -> (on: bool)
        ensures
            on == self@.nonblocking,
    {
        self.nonblocking
    }

    /// The mode the descriptor was last put in.
    pub fn mode(&self) -> (mode: OsMode)
        ensures
            mode == self@.mode,
    {
        self.mode
    }

    /// Records the owner's choice of raw nonblocking use. The descriptor is
    /// not touched: the choice takes effect at the next check.
    pub fn set_nonblocking(&mut self, nonblocking: bool)
        ensures
            final(self)@ == (IoState { nonblocking, mode: old(self)@.mode }),
    {
        self.nonblocking = nonblocking;
    }

    /// Decides whether the coming call is a raw nonblocking attempt, and if
    /// so makes sure that the descriptor is nonblocking. To be called first,
    /// before any I/O call.
    ///
    /// `f` changes the descriptor's mode in the operating system: `f(true)`
    /// makes it nonblocking, `f(false)` blocking.
    ///
    /// Without the owner's request the answer is `Ok(false)`, nothing
    /// changes, and `f` need not even be callable, so that it is not called:
    /// the caller goes on to [`IoContext::check_context`]. With the request
    /// the answer is `Ok(true)`, after `f(true)` has succeeded if the
    /// descriptor was recorded as blocking: the caller then reports a call
    /// that would block instead of suspending. If `f` fails, its error is
    /// handed back and the record stays as it was.
    pub fn check_nonblocking<F>(&mut self, f: F) -> (r: Result<bool, std::io::Error>) where
        F: FnOnce(bool) -> Result<(), std::io::Error>,

        requires
            old(self)@.raw_toggle() matches Some(flag) ==> f.requires((flag,)),
        ensures
            !old(self)@.nonblocking ==> r == Ok::<bool, std::io::Error>(false) && final(self)@
                == old(self)@,
            old(self)@.nonblocking ==> (r matches Ok(answer) ==> answer && final(self)@.mode
                == OsMode::Nonblocking),
            old(self)@.raw_toggle() is None ==> r is Ok,
            old(self)@.raw_toggle() matches Some(flag) ==> match r {
                Ok(_) => f.ensures((flag,), Ok(())),
                Err(e) => f.ensures((flag,), Err(e)),
            },
            final(self)@ == old(self)@.after_raw(r is Ok),
            r is Err ==> final(self)@ == old(self)@,
    {
        if self.nonblocking {
            if self.mode != OsMode::Nonblocking {
                match f(true) {
                    Ok(done) => {
                        assert(done == ());
                        self.mode = OsMode::Nonblocking;
                    },
                    Err(e) => {
                        return Err(e);
                    },
                }
            }
            return Ok(true);
        }
        Ok(false)
    }

    /// Decides for a caller in the given execution context, and puts the
    /// descriptor in the mode that context needs.
    ///
    /// `in_coroutine` says whether the caller runs inside a scheduled
    /// coroutine. `f` changes the descriptor's mode in the operating system:
    /// `f(true)` makes it nonblocking, `f(false)` blocking.
    ///
    /// `f` has to be callable only with the argument of a change that is
    /// due, and with nothing where none is due: where the recorded mode
    /// already fits, it is not called. Where a change is due, it is called
    /// once with [`IoState::context_toggle`]'s argument. If it succeeds the
    /// new mode is recorded; if it fails its error is handed back and the
    /// record stays as it was.
    ///
    /// `Ok(true)` tells a coroutine to issue a nonblocking call and to park
    /// when it would block, `Ok(false)` tells a thread to issue a call that
    /// really blocks.
    pub fn check_context<F>(&mut self, in_coroutine: bool, f: F) -> (r: Result<
        bool,
        std::io::Error,
    >) where F: FnOnce(bool) -> Result<(), std::io::Error>
        requires
            old(self)@.context_toggle(in_coroutine) matches Some(flag) ==> f.requires((flag,)),
        ensures
            r matches Ok(answer) ==> answer == in_coroutine && final(self)@.mode
                == OsMode::for_context(in_coroutine),
            old(self)@.context_toggle(in_coroutine) is None ==> r is Ok,
            old(self)@.context_toggle(in_coroutine) matches Some(flag) ==> match r {
                Ok(_) => f.ensures((flag,), Ok(())),
                Err(e) => f.ensures((flag,), Err(e)),
            },
            final(self)@ == old(self)@.after_context(in_coroutine, r is Ok),
            r is Err ==> final(self)@ == old(self)@,
    {
        let needed = OsMode::for_context(in_coroutine);
        if self.mode != needed {
            match f(needed.flag()) {
                Ok(done) => {
                    assert(done == ());
                    self.mode = needed;
                },
                Err(e) => {
                    return Err(e);
                },
            }
        }
        Ok(in_coroutine)
    }
}

/// Where a raw check has no change to make, it admits every toggle, also one
/// that admits no call at all: it makes no call of it.
pub proof fn lemma_raw_check_calls_no_toggle_unless_due<F: FnOnce(bool) -> Result<
    (),
    std::io::Error,
>>(ctx: IoContext, f: F)
    requires
        ctx@.raw_toggle() is None,
    ensures
        forall|borrow: &mut IoContext|
            *borrow == ctx ==> #[trigger] call_requires(
                IoContext::check_nonblocking::<F>,
                (borrow, f),
            ),
{
}

/// Where a context check has no change to make, it admits every toggle, also
/// one that admits no call at all: it makes no call of it.
pub proof fn lemma_context_check_calls_no_toggle_unless_due<F: FnOnce(bool) -> Result<
    (),
    std::io::Error,
>>(ctx: IoContext, in_coroutine: bool, f: F)
    requires
        ctx@.context_toggle(in_coroutine) is None,
    ensures
        forall|borrow: &mut IoContext|
            *borrow == ctx ==> #[trigger] call_requires(
                IoContext::check_context::<F>,
                (borrow, in_coroutine, f),
            ),
{
}

/// With the owner's request set, a raw check that returns `Ok` leaves the
/// descriptor nonblocking whatever was recorded before, and keeps the
/// request: the next raw check applies again and has nothing to change.
pub proof fn lemma_raw_use_settles(s: IoState, toggle_ok: bool)
    requires
        s.nonblocking,
        s.raw_toggle() is None || toggle_ok,
    ensures
        s.after_raw(toggle_ok).nonblocking,
        s.after_raw(toggle_ok).mode == OsMode::Nonblocking,
        s.after_raw(toggle_ok).raw_toggle() is None,
{
}

/// A check whose toggle fails leaves the state as it was, so the change is
/// still due: the next check that needs the same mode, of either kind, asks
/// for it again.
pub proof fn lemma_failed_toggle_stays_due(s: IoState, in_coroutine: bool)
    ensures
        s.after_context(in_coroutine, false) == s,
        s.after_raw(false) == s,
        s.after_context(in_coroutine, false).context_toggle(in_coroutine) == s.context_toggle(
            in_coroutine,
        ),
        s.after_raw(false).raw_toggle() == s.raw_toggle(),
        s.nonblocking && s.context_toggle(true) is Some ==> s.after_context(
            true,
            false,
        ).raw_toggle() == Some(true),
        s.raw_toggle() is Some ==> s.after_raw(false).context_toggle(true) == Some(true),
{
}

} // verus!
