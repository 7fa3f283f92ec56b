//! Commands that open a remote workspace in an editor over SSH.
//!
//! The crate describes external processes without running them: a command
//! builds a [`process::ProcessInvocation`], a [`launcher::Launcher`] supplied
//! by the caller runs it, and the outcome is reported as a
//! [`command::CommandOutput`].

pub mod anystr;
pub mod command;
pub mod launcher;
pub mod process;
pub mod readback;
pub mod text;
pub mod vs_ssh;

use vstd::prelude::*;
use command::{Command, CommandOutput};
use launcher::Launcher;
use process::{InvocationView, LaunchResult, ProcessInvocation};
pub use vs_ssh::VSCodeSSH;

verus! {

/// Every command of this crate, as one type. Each operation of [`Command`]
/// is handed on to the command inside.
pub enum CommandEnum {
    /// Opens the editor on a remote host over SSH. This does what
    /// `ssh user@host` followed by `code .` in the folder would do, and needs
    /// the editor only on the machine that runs the command.
    VSCodeSSH(VSCodeSSH),
}

impl Command for CommandEnum {
    open spec fn apply_invocation(&self) -> InvocationView {
        match self {
            CommandEnum::VSCodeSSH(inner) => inner.apply_invocation(),
        }
    }

    open spec fn undo_invocation(&self) -> Option<InvocationView> {
        match self {
            CommandEnum::VSCodeSSH(inner) => inner.undo_invocation(),
        }
    }

    open spec fn check_invocation(&self) -> Option<InvocationView> {
        match self {
            CommandEnum::VSCodeSSH(inner) => inner.check_invocation(),
        }
    }

    fn apply_proc(&self) -> (inv: ProcessInvocation) {
        match self {
            CommandEnum::VSCodeSSH(inner) => inner.apply_proc(),
        }
    }

    fn undo_proc(&self) -> (inv: Option<ProcessInvocation>) {
        match self {
            CommandEnum::VSCodeSSH(inner) => inner.undo_proc(),
        }
    }

    fn check_proc(&self) -> (inv: Option<ProcessInvocation>) {
        match self {
            CommandEnum::VSCodeSSH(inner) => inner.check_proc(),
        }
    }

    fn perform<F: Fn(ProcessInvocation) -> LaunchResult>(&self, launcher: &mut Launcher<F>) -> (out: CommandOutput) {
        match self {
            CommandEnum::VSCodeSSH(inner) => inner.perform(launcher),
        }
    }

    fn drawback<F: Fn(ProcessInvocation) -> LaunchResult>(&self, launcher: &mut Launcher<F>) -> (out: Option<CommandOutput>) {
        match self {
            CommandEnum::VSCodeSSH(inner) => inner.drawback(launcher),
        }
    }

    fn check<F: Fn(ProcessInvocation) -> LaunchResult>(&self, launcher: &mut Launcher<F>) -> (out: Result<CommandOutput, String>) {
        match self {
            CommandEnum::VSCodeSSH(inner) => inner.check(launcher),
        }
    }
}

impl From<VSCodeSSH> for CommandEnum {
    fn from(v: VSCodeSSH) -> (command: CommandEnum)
        ensures
            command == CommandEnum::VSCodeSSH(v),
    {
        CommandEnum::VSCodeSSH(v)
    }
}

impl vstd::std_specs::convert::FromSpecImpl<VSCodeSSH> for CommandEnum {
    open spec fn obeys_from_spec() -> bool {
        true
    }

    open spec fn from_spec(v: VSCodeSSH) -> CommandEnum {
        CommandEnum::VSCodeSSH(v)
    }
}

impl TryInto<VSCodeSSH> for CommandEnum {
    type Error = &'static str;

    fn try_into(self) -> (target: Result<VSCodeSSH, &'static str>) {
        match self {
            CommandEnum::VSCodeSSH(v) => Ok(v),
        }
    }
}

impl vstd::std_specs::convert::TryIntoSpecImpl<VSCodeSSH> for CommandEnum {
    open spec fn obeys_try_into_spec() -> bool {
        true
    }

    open spec fn try_into_spec(self) -> Result<VSCodeSSH, &'static str> {
        match self {
            CommandEnum::VSCodeSSH(v) => Ok(v),
        }
    }
}

} // verus!
