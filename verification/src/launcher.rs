//! The one place through which processes are run.

use vstd::prelude::*;
use crate::process::{InvocationView, LaunchResult, ProcessInvocation};

verus! {

/// `run` may be called on every invocation whose content is `target`.
pub open spec fn accepts<F: Fn(ProcessInvocation) -> LaunchResult>(
    run: F,
    target: InvocationView,
) -> bool {
    forall|inv: ProcessInvocation| inv@ == target ==> #[trigger] call_requires(run, (inv,))
}

/// `result` is something that `run` hands back when it is called on an
/// invocation whose content is `target`.
pub open spec fn hands_back<F: Fn(ProcessInvocation) -> LaunchResult>(
    run: F,
    target: InvocationView,
    result: LaunchResult,
) -> bool {
    exists|inv: ProcessInvocation| inv@ == target && #[trigger] call_ensures(run, (inv,), result)
}

/// Runs processes on behalf of commands, and keeps count of them.
///
/// The launcher holds a function that starts the process it is given, waits
/// until it has ended, and hands back what it left behind, or the reason
/// why it could not be started. Nothing else in this crate runs a process,
/// so the count tells how many processes a piece of code has run.
pub struct Launcher<F> {
    run: F,
    launched: Ghost<nat>,
}

impl<F> Launcher<F> {
    /// The function that runs the processes.
    pub closed spec fn runner(&self) -> F {
        self.run
    }

    /// How many processes were run through this launcher.
    pub closed spec fn launches(&self) -> nat {
        self.launched@
    }

    /// `self` is `before` after `count` more processes were run.
    pub open spec fn ran(&self, before: Self, count: nat) -> bool {
        self.runner() == before.runner() && self.launches() == before.launches() + count
    }
}

impl<F: Fn(ProcessInvocation) -> LaunchResult> Launcher<F> {
    /// A launcher that runs processes with `run` and has run none yet.
    pub fn new(run: F) -> (launcher: Self)
        ensures
            launcher.runner() == run,
            launcher.launches() == 0,
    {
        Launcher { run, launched: Ghost(0) }
    }

    /// Runs the process that `inv` describes, once.
    pub fn launch(&mut self, inv: ProcessInvocation) -> (result: LaunchResult)
        requires
            call_requires(old(self).runner(), (inv,)),
        ensures
            call_ensures(old(self).runner(), (inv,), result),
            final(self).ran(*old(self), 1),
    {
        let result = (self.run)(inv);
        self.launched = Ghost((self.launched@ + 1) as nat);
        result
    }
}

} // verus!
