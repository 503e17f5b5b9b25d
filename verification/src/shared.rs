//! The context in the form that all handles of one descriptor share.
//!
//! Handles cloned from one descriptor refer to one [`SharedIoContext`] and use
//! it from several threads at once. Its two flags are atomics that are read
//! and written with relaxed ordering and without a lock: the recorded mode is
//! a hint that saves system calls, and a stale hint costs one more call of a
//! toggle, which therefore has to be safe to call again with the same
//! argument.
//!
//! Between a load and the store that follows it another thread may have
//! written, so nothing can be said of what a flag holds. Each check loads the
//! flags into an [`IoContext`], lets that decide, and stores the mode if the
//! decision changed it. The contracts here say what holds of a check whatever
//! the flags held; what it does for given flags is the contract of the
//! [`IoContext`] method of the same name.

use crate::context::IoContext;
use crate::mode::OsMode;
use std::sync::atomic::AtomicBool;
use std::sync::atomic::Ordering;
use vstd::prelude::*;

verus! {

/// The state kept for one descriptor, shared by reference among its handles.
#[derive(Debug)]
pub struct SharedIoContext {
    nonblocking: AtomicBool,
    os_nonblocking: AtomicBool,
}

impl SharedIoContext {
    /// The context of a fresh descriptor: no raw use asked for, and the
    /// descriptor taken to be nonblocking.
    pub fn new() -> SharedIoContext {
        let fresh = IoContext::new();
        SharedIoContext {
            nonblocking: AtomicBool::new(fresh.is_nonblocking()),
            os_nonblocking: AtomicBool::new(fresh.mode().flag()),
        }
    }

    /// What the flags hold at the moment, as a context of its own.
    pub fn snapshot(&self) -> IoContext {
        IoContext::from_parts(
            self.nonblocking.load(Ordering::Relaxed),
            OsMode::from_flag(self.os_nonblocking.load(Ordering::Relaxed)),
        )
    }

    /// Records the owner's choice of raw nonblocking use, for all handles.
    pub fn set_nonblocking(&self, nonblocking: bool) {
        self.nonblocking.store(nonblocking, Ordering::Relaxed);
    }

    /// [`IoContext::check_nonblocking`] on the flags as they are found.
    ///
    /// Which of its cases applies is not known beforehand, so `f` has to be
    /// callable with `true`. An error can only be the one that `f(true)`
    /// gave.
    pub fn check_nonblocking<F>(&self, f: F) -> (r: Result<bool, std::io::Error>) where
        F: FnOnce(bool) -> Result<(), std::io::Error>,

        requires
            f.requires((true,)),
        ensures
            r matches Err(e) ==> f.ensures((true,), Err(e)),
    {
        let mut found = self.snapshot();
        let before = found.mode();
        let r = found.check_nonblocking(f);
        if found.mode() != before {
            self.os_nonblocking.store(found.mode().flag(), Ordering::Relaxed);
        }
        r
    }

    /// [`IoContext::check_context`] on the flags as they are found.
    ///
    /// Whether a change is due is not known beforehand, so `f` has to be
    /// callable with the argument that asks for the caller's mode, which is
    /// `in_coroutine`. The answer, if there is one, is `in_coroutine`; an
    /// error can only be the one that `f(in_coroutine)` gave.
    pub fn check_context<F>(&self, in_coroutine: bool, f: F) -> (r: Result<
        bool,
        std::io::Error,
    >) where F: FnOnce(bool) -> Result<(), std::io::Error>
        requires
            f.requires((in_coroutine,)),
        ensures
            r matches Ok(answer) ==> answer == in_coroutine,
            r matches Err(e) ==> f.ensures((in_coroutine,), Err(e)),
    {
        let mut found = self.snapshot();
        let before = found.mode();
        let r = found.check_context(in_coroutine, f);
        if found.mode() != before {
            self.os_nonblocking.store(found.mode().flag(), Ordering::Relaxed);
        }
        r
    }
}

} // verus!
