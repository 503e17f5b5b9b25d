//! The two modes a descriptor can have in the operating system.

use vstd::prelude::*;

verus! {

/// The operating system's mode of a descriptor.
#[derive(Clone, Copy, Debug, PartialEq, Eq, Structural)]
pub enum OsMode {
    /// A call that would block returns at once with a would-block indication.
    Nonblocking,
    /// A call that would block suspends the calling thread.
    Blocking,
}

impl OsMode {
    /// The mode that a caller needs: a scheduled coroutine must never block
    /// its worker thread, so it needs `Nonblocking`; a plain thread has
    /// nothing to park on but the operating system, so it needs `Blocking`.
    pub open spec fn spec_for_context(in_coroutine: bool) -> OsMode {
        if in_coroutine {
            OsMode::Nonblocking
        } else {
            OsMode::Blocking
        }
    }

    /// The mode that a toggle called with `flag` leaves the descriptor in:
    /// `true` asks for `Nonblocking`, `false` for `Blocking`.
    pub open spec fn spec_from_flag(flag: bool) -> OsMode {
        if flag {
            OsMode::Nonblocking
        } else {
            OsMode::Blocking
        }
    }

    /// The argument that asks a toggle for this mode.
    pub open spec fn spec_flag(self) -> bool {
        self is Nonblocking
    }

    /// The mode that a caller in the given execution context needs.
    #[verifier::when_used_as_spec(spec_for_context)]
    pub fn for_context(in_coroutine: bool) -> (mode: OsMode)
        ensures
            mode == OsMode::spec_for_context(in_coroutine),
    {
        if in_coroutine {
            OsMode::Nonblocking
        } else {
            OsMode::Blocking
        }
    }

    /// The mode that a toggle called with `flag` leaves the descriptor in.
    #[verifier::when_used_as_spec(spec_from_flag)]
    pub fn from_flag(flag: bool) -> (mode: OsMode)
        ensures
            mode == OsMode::spec_from_flag(flag),
    {
        if flag {
            OsMode::Nonblocking
        } else {
            OsMode::Blocking
        }
    }

    /// The argument that asks a toggle for this mode.
    #[verifier::when_used_as_spec(spec_flag)]
    pub fn flag(self) -> (flag: bool)
        ensures
            flag == self.spec_flag(),
    {
        match self {
            OsMode::Nonblocking => true,
            OsMode::Blocking => false,
        }
    }
}

} // verus!
