//! What running a command yields, and what every command has to offer.

use vstd::prelude::*;
use vstd::string::*;
use crate::launcher::{accepts, hands_back, Launcher};
use crate::process::{
    output_text, InvocationView, LaunchResult, ProcessInvocation, ProcessOutput,
    ProcessOutputView, SystemError, SystemErrorView,
};

verus! {

/// Everything a command execution can yield.
#[derive(Debug)]
pub enum CommandOutput {
    /// The command produces nothing: it only succeeds or fails.
    Void(Result<(), String>),
    /// The command produces a text, or fails with a message.
    String(Result<String, String>),
    /// What launching an external process gave.
    ProcessOutput(Result<ProcessOutput, SystemError>),
    /// The output could not be brought into the form of a text.
    Limbo,
}

/// The mathematical content of a [`CommandOutput`].
pub enum OutputView {
    Void(Result<(), Seq<char>>),
    String(Result<Seq<char>, Seq<char>>),
    ProcessOutput(Result<ProcessOutputView, SystemErrorView>),
    Limbo,
}

impl View for CommandOutput {
    type V = OutputView;

    open spec fn view(&self) -> OutputView {
        match self {
            CommandOutput::Void(Ok(_)) => OutputView::Void(Ok(())),
            CommandOutput::Void(Err(message)) => OutputView::Void(Err(message@)),
            CommandOutput::String(Ok(text)) => OutputView::String(Ok(text@)),
            CommandOutput::String(Err(message)) => OutputView::String(Err(message@)),
            CommandOutput::ProcessOutput(Ok(output)) => OutputView::ProcessOutput(Ok(output@)),
            CommandOutput::ProcessOutput(Err(error)) => OutputView::ProcessOutput(Err(error@)),
            CommandOutput::Limbo => OutputView::Limbo,
        }
    }
}

/// The text form of an output. A text stays as it is; nothing becomes the
/// empty text; a finished process becomes its diagnostic text; every failure
/// keeps its message; limbo stays limbo.
pub open spec fn stabilized(output: OutputView) -> OutputView {
    match output {
        OutputView::String(text) => OutputView::String(text),
        OutputView::Void(Ok(_)) => OutputView::String(Ok(Seq::empty())),
        OutputView::Void(Err(message)) => OutputView::String(Err(message)),
        OutputView::ProcessOutput(Ok(out)) => OutputView::String(Ok(output_text(out))),
        OutputView::ProcessOutput(Err(error)) => OutputView::String(Err(error.message)),
        OutputView::Limbo => OutputView::Limbo,
    }
}

/// The message for an output that has no text form.
pub open spec fn limbo_message() -> Seq<char> {
    "unable to transform: is limbo"@
}

/// What an output reports once stabilized: its text or its failure message,
/// and a fixed message where it has no text form.
pub open spec fn reported(output: OutputView) -> Result<Seq<char>, Seq<char>> {
    match stabilized(output) {
        OutputView::String(text) => text,
        _ => Err(limbo_message()),
    }
}

/// The mathematical content of a text-or-message result.
pub open spec fn result_view(result: Result<String, String>) -> Result<Seq<char>, Seq<char>> {
    match result {
        Ok(text) => Ok(text@),
        Err(message) => Err(message@),
    }
}

impl CommandOutput {
    /// Brings the output into the form of a text, or gives
    /// [`CommandOutput::Limbo`] where it has none.
    pub fn stabilize(self) -> (out: CommandOutput)
        ensures
            out@ == stabilized(self@),
    {
        match self {
            CommandOutput::String(text) => CommandOutput::String(text),
            CommandOutput::Void(Ok(_)) => CommandOutput::String(Ok(String::new())),
            CommandOutput::Void(Err(message)) => CommandOutput::String(Err(message)),
            CommandOutput::ProcessOutput(Ok(output)) => CommandOutput::String(
                Ok(output.describe()),
            ),
            CommandOutput::ProcessOutput(Err(error)) => CommandOutput::String(Err(error.message)),
            CommandOutput::Limbo => CommandOutput::Limbo,
        }
    }

    /// Whether the output is [`CommandOutput::Limbo`].
    pub fn is_limbo(&self) -> (limbo: bool)
        ensures
            limbo == (self@ is Limbo),
    {
        match self {
            CommandOutput::Limbo => true,
            _ => false,
        }
    }

    /// Stabilizes the output and hands out its text or its failure message.
    pub fn into_result(self) -> (result: Result<String, String>)
        ensures
            result_view(result) == reported(self@),
    {
        match self.stabilize() {
            CommandOutput::String(text) => text,
            CommandOutput::Limbo => Err(String::from_str("unable to transform: is limbo")),
            // A stabilized output has no other shape.
            _ => Err(String::from_str("unable to transform: unknown")),
        }
    }
}

impl From<CommandOutput> for Result<String, String> {
    /// Stabilizes the output and hands out its text or its failure message.
    fn from(val: CommandOutput) -> (result: Self)
        ensures
            result_view(result) == reported(val@),
    {
        val.into_result()
    }
}

/// The conversion is pinned down by the `ensures` of `from`, over the
/// characters of what comes out. A spec function cannot name a `String` by
/// its characters, so `from_spec` is left open.
impl vstd::std_specs::convert::FromSpecImpl<CommandOutput> for Result<String, String> {
    open spec fn obeys_from_spec() -> bool {
        false
    }

    open spec fn from_spec(v: CommandOutput) -> Self {
        arbitrary()
    }
}

/// Stabilizing is idempotent: an output that was stabilized does not change
/// when it is stabilized again.
pub proof fn lemma_stabilize_idempotent(output: OutputView)
    ensures
        stabilized(stabilized(output)) == stabilized(output),
{
}

/// A stabilized output is a text or limbo, and it is limbo exactly when the
/// output was limbo before.
pub proof fn lemma_stabilized_shape(output: OutputView)
    ensures
        stabilized(output) is String || stabilized(output) is Limbo,
        stabilized(output) is Limbo <==> output is Limbo,
{
}

/// The content of an invocation that may be absent.
pub open spec fn invocation_view(inv: Option<ProcessInvocation>) -> Option<InvocationView> {
    match inv {
        Some(inv) => Some(inv@),
        None => None,
    }
}

/// `out` wraps something that `run` hands back for `target`.
pub open spec fn wraps_launch<F: Fn(ProcessInvocation) -> LaunchResult>(
    out: CommandOutput,
    run: F,
    target: InvocationView,
) -> bool {
    out matches CommandOutput::ProcessOutput(result) && hands_back(run, target, result)
}

/// The message of [`Command::check`] for a command without a check mode.
pub open spec fn check_unsupported_message() -> Seq<char> {
    "check mode not supported"@
}

/// The fixed messages are not empty and differ from each other.
pub proof fn lemma_fixed_messages_differ()
    ensures
        check_unsupported_message().len() > 0,
        limbo_message().len() > 0,
        check_unsupported_message() != limbo_message(),
{
    reveal_strlit("check mode not supported");
    reveal_strlit("unable to transform: is limbo");
}

/// An action that can be applied, and perhaps undone or tried out.
///
/// A command only describes the processes that carry it out. Running them is
/// left to the [`Launcher`] that the caller hands to [`Command::perform`],
/// [`Command::drawback`] and [`Command::check`]. A process that could not be
/// started is no reason to stop: the launcher says so in its result, and the
/// command hands that on as a value.
pub trait Command {
    /// The process that carries out the command.
    spec fn apply_invocation(&self) -> InvocationView;

    /// The process that undoes the command, or `None` where it cannot be
    /// undone.
    spec fn undo_invocation(&self) -> Option<InvocationView>;

    /// The process that tries the command out without changing the system,
    /// or `None` where the command has no check mode.
    open spec fn check_invocation(&self) -> Option<InvocationView> {
        None
    }

    /// Describes the process that carries out the command.
    fn apply_proc(&self) -> (inv: ProcessInvocation)
        ensures
            inv@ == self.apply_invocation(),
    ;

    /// Describes the process that undoes the command, if it can be undone.
    fn undo_proc(&self) -> (inv: Option<ProcessInvocation>)
        ensures
            invocation_view(inv) == self.undo_invocation(),
    ;

    /// Describes the process that runs the command in check mode, if it has
    /// one. Such a process may touch a cache, but must not be destructive.
    fn check_proc(&self) -> (inv: Option<ProcessInvocation>)
        ensures
            invocation_view(inv) == self.check_invocation(),
    ;

    /// Carries out the command: runs the process of [`Command::apply_proc`]
    /// through `launcher`, once, and wraps what comes back.
    fn perform<F: Fn(ProcessInvocation) -> LaunchResult>(&self, launcher: &mut Launcher<F>) -> (out: CommandOutput)
        requires
            accepts(old(launcher).runner(), self.apply_invocation()),
        ensures
            wraps_launch(out, old(launcher).runner(), self.apply_invocation()),
            final(launcher).ran(*old(launcher), 1),
    {
        CommandOutput::ProcessOutput(launcher.launch(self.apply_proc()))
    }

    /// Undoes the command where it can be undone: runs the process of
    /// [`Command::undo_proc`] through `launcher`, once, and wraps what comes
    /// back. Where the command cannot be undone, no process is run and the
    /// result is `None`.
    fn drawback<F: Fn(ProcessInvocation) -> LaunchResult>(&self, launcher: &mut Launcher<F>) -> (out: Option<CommandOutput>)
        requires
            self.undo_invocation() matches Some(target) ==> accepts(old(launcher).runner(), target),
        ensures
            match self.undo_invocation() {
                Some(target) => {
                    &&& out matches Some(wrapped) && wraps_launch(wrapped, old(launcher).runner(), target)
                    &&& final(launcher).ran(*old(launcher), 1)
                },
                None => out is None && *final(launcher) == *old(launcher),
            },
    {
        match self.undo_proc() {
            Some(inv) => Some(CommandOutput::ProcessOutput(launcher.launch(inv))),
            None => None,
        }
    }

    /// Runs the command in check mode where it has one: runs the process of
    /// [`Command::check_proc`] through `launcher`, once, and wraps what comes
    /// back. Where the command has no check mode, no process is run and the
    /// result is an error with a fixed message.
    fn check<F: Fn(ProcessInvocation) -> LaunchResult>(&self, launcher: &mut Launcher<F>) -> (out: Result<CommandOutput, String>)
        requires
            self.check_invocation() matches Some(target) ==> accepts(old(launcher).runner(), target),
        ensures
            match self.check_invocation() {
                Some(target) => {
                    &&& out matches Ok(wrapped) && wraps_launch(wrapped, old(launcher).runner(), target)
                    &&& final(launcher).ran(*old(launcher), 1)
                },
                None => {
                    &&& out matches Err(message) && message@ == check_unsupported_message()
                    &&& *final(launcher) == *old(launcher)
                },
            },
    {
        match self.check_proc() {
            Some(inv) => Ok(CommandOutput::ProcessOutput(launcher.launch(inv))),
            None => Err(String::from_str("check mode not supported")),
        }
    }
}

} // verus!
