//! The readiness tracker: one flag per backend, set by a successful readiness
//! check and cleared by the call that uses the confirmation up.

use vstd::prelude::*;

verus! {

/// One of the two downstream handlers.
#[derive(Clone, Copy, Debug, PartialEq, Eq, Structural)]
pub enum Backend {
    /// The plain HTTP handler. Its readiness checks and calls cannot fail.
    Rest,
    /// The gRPC handler.
    Grpc,
}

/// What one readiness check of a backend reported.
#[derive(Clone, Copy, Debug, PartialEq, Eq, Structural)]
pub enum Outcome {
    /// The backend can take a call without blocking.
    Ready,
    /// The backend cannot take a call yet; the caller is woken when it can.
    Pending,
    /// The check failed.
    Failed,
}

/// What the caller of a readiness check does after reporting its outcome.
#[derive(Clone, Copy, Debug, PartialEq, Eq, Structural)]
pub enum Progress {
    /// Look at the flags again: another check may be due.
    Continue,
    /// Suspend until the backend that was checked signals readiness.
    Suspend,
    /// Give up and hand the backend's failure to the caller.
    Fail,
}

/// The two readiness flags. A flag that is `false` means "not checked".
#[derive(Clone, Copy, Debug, PartialEq, Eq, Structural)]
pub struct Readiness {
    pub rest: bool,
    pub grpc: bool,
}

impl Backend {
    /// The backend that `self` is not.
    pub open spec fn other(self) -> Backend {
        match self {
            Backend::Rest => Backend::Grpc,
            Backend::Grpc => Backend::Rest,
        }
    }
}

impl Readiness {
    /// The flag of `backend`.
    pub open spec fn flag(self, backend: Backend) -> bool {
        match backend {
            Backend::Rest => self.rest,
            Backend::Grpc => self.grpc,
        }
    }

    /// Both backends are confirmed ready: a request may be forwarded.
    pub open spec fn is_open(self) -> bool {
        self.rest && self.grpc
    }

    /// The flags with that of `backend` set to `value` and the other kept.
    pub open spec fn with_flag(self, backend: Backend, value: bool) -> Readiness {
        match backend {
            Backend::Rest => Readiness { rest: value, grpc: self.grpc },
            Backend::Grpc => Readiness { rest: self.rest, grpc: value },
        }
    }

    /// The backend whose readiness is checked next: the plain one while its
    /// flag is not set, then the gRPC one; none once both are set.
    pub open spec fn next_check(self) -> Option<Backend> {
        if !self.rest {
            Some(Backend::Rest)
        } else if !self.grpc {
            Some(Backend::Grpc)
        } else {
            None
        }
    }

    /// The flags after a check of `backend` reported `outcome`: only a
    /// successful check sets a flag.
    pub open spec fn after_check(self, backend: Backend, outcome: Outcome) -> Readiness {
        if outcome == Outcome::Ready {
            self.with_flag(backend, true)
        } else {
            self
        }
    }

    /// What the caller does after a check reported `outcome`.
    pub open spec fn progress_on(outcome: Outcome) -> Progress {
        match outcome {
            Outcome::Ready => Progress::Continue,
            Outcome::Pending => Progress::Suspend,
            Outcome::Failed => Progress::Fail,
        }
    }

    /// The flags after a call to `backend` used its confirmation up.
    pub open spec fn consumed(self, backend: Backend) -> Readiness {
        self.with_flag(backend, false)
    }

    /// The first flag that a dispatch finds missing, the gRPC one being
    /// looked at first; none when both are set.
    pub open spec fn missing(self) -> Option<Backend> {
        if !self.grpc {
            Some(Backend::Grpc)
        } else if !self.rest {
            Some(Backend::Rest)
        } else {
            None
        }
    }

    /// Flags of a tracker that has checked nothing yet.
    pub fn new() -> (flags: Readiness)
        ensures
            flags == (Readiness { rest: false, grpc: false }),
    {
        Readiness { rest: false, grpc: false }
    }

    /// Whether both flags are set.
    pub fn both_ready(&self) -> (open: bool)
        ensures
            open == self.is_open(),
    {
        self.rest && self.grpc
    }

    /// Whether the flag of `backend` is set.
    pub fn is_ready(&self, backend: Backend) -> (set: bool)
        ensures
            set == self.flag(backend),
    {
        match backend {
            Backend::Rest => self.rest,
            Backend::Grpc => self.grpc,
        }
    }

    /// Decides which backend to check next, or that both are confirmed.
    pub fn pending_check(&self) -> (next: Option<Backend>)
        ensures
            next == self.next_check(),
            next is None <==> self.is_open(),
    {
        if !self.rest {
            Some(Backend::Rest)
        } else if !self.grpc {
            Some(Backend::Grpc)
        } else {
            None
        }
    }

    /// Takes in the outcome of a readiness check of `backend` and says how
    /// the caller goes on. The plain backend's checks cannot fail, so no
    /// failure is reported for it.
    pub fn record(&mut self, backend: Backend, outcome: Outcome) -> (progress: Progress)
        requires
            !(backend == Backend::Rest && outcome == Outcome::Failed),
        ensures
            *final(self) == old(self).after_check(backend, outcome),
            progress == Self::progress_on(outcome),
    {
        match outcome {
            Outcome::Ready => {
                match backend {
                    Backend::Rest => {
                        self.rest = true;
                    },
                    Backend::Grpc => {
                        self.grpc = true;
                    },
                }
                Progress::Continue
            },
            Outcome::Pending => Progress::Suspend,
            Outcome::Failed => Progress::Fail,
        }
    }

    /// Clears the flag of `backend`, which is about to be called.
    pub fn consume(&mut self, backend: Backend)
        requires
            old(self).is_open(),
        ensures
            *final(self) == old(self).consumed(backend),
    {
        match backend {
            Backend::Rest => {
                self.rest = false;
            },
            Backend::Grpc => {
                self.grpc = false;
            },
        }
    }

    /// Finds the flag whose absence forbids a dispatch.
    pub fn first_missing(&self) -> (gap: Option<Backend>)
        ensures
            gap == self.missing(),
            gap is None <==> self.is_open(),
    {
        if !self.grpc {
            Some(Backend::Grpc)
        } else if !self.rest {
            Some(Backend::Rest)
        } else {
            None
        }
    }
}

/// A call uses up the confirmation of the backend it goes to and of no
/// other: that backend's flag is cleared, the other backend's flag stays as
/// it was, and no request may be forwarded until the cleared flag is set
/// again. Where both flags were set, the cleared one is the only one missing.
pub proof fn law_call_clears_one_flag(flags: Readiness, target: Backend)
    ensures
        !flags.consumed(target).flag(target),
        flags.consumed(target).flag(target.other()) == flags.flag(target.other()),
        !flags.consumed(target).is_open(),
        flags.is_open() ==> flags.consumed(target).missing() == Some(target),
        flags.is_open() ==> flags.consumed(target).next_check() == Some(target),
{
}

/// A flag is set only by a successful check of its own backend: after any
/// check, a flag is set exactly when it was set before or the check was of
/// that backend and succeeded.
pub proof fn law_only_success_sets_a_flag(
    flags: Readiness,
    checked: Backend,
    outcome: Outcome,
    backend: Backend,
)
    ensures
        flags.after_check(checked, outcome).flag(backend) == (flags.flag(backend) || (checked
            == backend && outcome == Outcome::Ready)),
        outcome != Outcome::Ready ==> flags.after_check(checked, outcome) == flags,
{
}

/// The checks that are due confirm both backends once they succeed. From any
/// flags, at most two successful checks are needed; where two are, the plain
/// backend is checked first and the gRPC backend second.
pub proof fn law_due_checks_confirm_both(flags: Readiness)
    ensures
        match flags.next_check() {
            None => flags.is_open(),
            Some(first) => {
                let once = flags.after_check(first, Outcome::Ready);
                match once.next_check() {
                    None => once.is_open(),
                    Some(second) => {
                        &&& first == Backend::Rest
                        &&& second == Backend::Grpc
                        &&& once.after_check(second, Outcome::Ready).is_open()
                    },
                }
            },
        },
{
}

/// Both backends are confirmed exactly when no check is due, and exactly
/// when a dispatch finds no flag missing. While the plain backend's flag is not
/// set, the gRPC backend is not checked.
pub proof fn law_confirmed_when_nothing_due(flags: Readiness)
    ensures
        flags.is_open() <==> flags.next_check() is None,
        flags.is_open() <==> flags.missing() is None,
        flags.next_check() == Some(Backend::Grpc) ==> flags.rest,
{
}

} // verus!
