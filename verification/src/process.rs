//! Plain descriptions of an external process: how to start one and what it
//! left behind.

use vstd::prelude::*;
use vstd::string::*;
use crate::text::{decimal, escape_bytes, push_decimal, push_escaped};
use crate::readback::{lemma_decimal_value, lemma_escape_unique, lemma_split_at_mark};

verus! {

/// What to connect one standard stream of a child process to.
#[derive(Clone, Copy, Debug, PartialEq, Eq)]
pub enum StreamPolicy {
    /// The child shares the stream of its parent.
    Inherit,
    /// The stream is a pipe held by the parent.
    Piped,
    /// The stream is connected to nothing.
    Null,
}

/// An external process that is to be launched: the program, its arguments in
/// order, and a policy for each standard stream (`None` leaves the choice to
/// the launcher).
#[derive(Debug, PartialEq, Eq)]
pub struct ProcessInvocation {
    pub program: String,
    pub args: Vec<String>,
    pub stdin: Option<StreamPolicy>,
    pub stdout: Option<StreamPolicy>,
    pub stderr: Option<StreamPolicy>,
}

/// The mathematical content of a [`ProcessInvocation`].
pub struct InvocationView {
    pub program: Seq<char>,
    pub args: Seq<Seq<char>>,
    pub stdin: Option<StreamPolicy>,
    pub stdout: Option<StreamPolicy>,
    pub stderr: Option<StreamPolicy>,
}

impl View for ProcessInvocation {
    type V = InvocationView;

    open spec fn view(&self) -> InvocationView {
        InvocationView {
            program: self.program@,
            args: Seq::new(self.args@.len(), |i: int| self.args@[i]@),
            stdin: self.stdin,
            stdout: self.stdout,
            stderr: self.stderr,
        }
    }
}

impl ProcessInvocation {
    /// An invocation of `program` with no arguments and no stream policy.
    pub fn new(program: &str) -> (inv: ProcessInvocation)
        ensures
            inv@ == (InvocationView {
                program: program@,
                args: Seq::empty(),
                stdin: None,
                stdout: None,
                stderr: None,
            }),
    {
        let inv = ProcessInvocation {
            program: String::from_str(program),
            args: Vec::new(),
            stdin: None,
            stdout: None,
            stderr: None,
        };
        assert(inv@.args =~= Seq::empty());
        inv
    }

    /// Adds `arg` behind the arguments given so far.
    pub fn arg(&mut self, arg: &str)
        ensures
            final(self)@ == (InvocationView { args: old(self)@.args.push(arg@), ..old(self)@ }),
    {
        self.args.push(String::from_str(arg));
        assert(self@.args =~= old(self)@.args.push(arg@));
    }
}

/// How a child process ended: its numeric exit code, or `None` when it was
/// ended by a signal and left no code.
#[derive(Clone, Copy, Debug, PartialEq, Eq)]
pub struct ExitStatus {
    pub code: Option<i32>,
}

impl ExitStatus {
    /// The status of a process that ended with `code`.
    pub fn from_code(code: Option<i32>) -> (status: ExitStatus)
        ensures
            status.code == code,
    {
        ExitStatus { code }
    }

    /// Whether the process ended with exit code zero.
    pub fn success(&self) -> (ok: bool)
        ensures
            ok == (self.code == Some(0i32)),
    {
        match self.code {
            Some(c) => c == 0,
            None => false,
        }
    }
}

/// What a finished child process left behind.
#[derive(Debug, PartialEq, Eq)]
pub struct ProcessOutput {
    pub status: ExitStatus,
    pub stdout: Vec<u8>,
    pub stderr: Vec<u8>,
}

/// The mathematical content of a [`ProcessOutput`].
pub struct ProcessOutputView {
    pub status: ExitStatus,
    pub stdout: Seq<u8>,
    pub stderr: Seq<u8>,
}

impl View for ProcessOutput {
    type V = ProcessOutputView;

    open spec fn view(&self) -> ProcessOutputView {
        ProcessOutputView { status: self.status, stdout: self.stdout@, stderr: self.stderr@ }
    }
}

/// The text for an exit status: the exit code in decimal, or `none`.
pub open spec fn status_text(status: ExitStatus) -> Seq<char> {
    match status.code {
        Some(code) => decimal(code as int),
        None => "none"@,
    }
}

/// The diagnostic text for a finished process: its exit code, then both
/// captured streams between double quotes, in escaped form.
pub open spec fn output_text(out: ProcessOutputView) -> Seq<char> {
    "exit code: "@ + status_text(out.status) + ", stdout: \""@ + escape_bytes(out.stdout)
        + "\", stderr: \""@ + escape_bytes(out.stderr) + "\""@
}

/// The text for an exit status holds no comma, and only one status has it.
pub proof fn lemma_status_text(a: ExitStatus, b: ExitStatus)
    ensures
        forall|i: int| 0 <= i < status_text(a).len() ==> status_text(a)[i] != ',',
        status_text(a) == status_text(b) ==> a == b,
{
    reveal_strlit("none");
    if let Some(code) = a.code {
        lemma_decimal_value(code as int);
    }
    if let Some(code) = b.code {
        lemma_decimal_value(code as int);
    }
}

/// The diagnostic text leaves nothing out: outputs with the same text have
/// the same exit status and the same bytes on both streams.
pub proof fn lemma_output_text_injective(a: ProcessOutputView, b: ProcessOutputView)
    requires
        output_text(a) == output_text(b),
    ensures
        a == b,
{
    reveal_strlit("exit code: ");
    reveal_strlit(", stdout: \"");
    reveal_strlit("\", stderr: \"");
    reveal_strlit("\"");
    let stderr_a = escape_bytes(a.stderr) + "\""@;
    let stderr_b = escape_bytes(b.stderr) + "\""@;
    let stdout_a = escape_bytes(a.stdout) + ("\", stderr: \""@ + stderr_a);
    let stdout_b = escape_bytes(b.stdout) + ("\", stderr: \""@ + stderr_b);
    let after_a = ", stdout: \""@ + stdout_a;
    let after_b = ", stdout: \""@ + stdout_b;
    assert(status_text(a.status) + after_a =~= output_text(a).skip(11));
    assert(status_text(b.status) + after_b =~= output_text(b).skip(11));
    lemma_status_text(a.status, b.status);
    lemma_status_text(b.status, a.status);
    lemma_split_at_mark(',', status_text(a.status), after_a, status_text(b.status), after_b);
    assert(stdout_a =~= after_a.skip(11));
    assert(stdout_b =~= after_b.skip(11));
    lemma_escape_unique(
        a.stdout,
        b.stdout,
        "\", stderr: \""@ + stderr_a,
        "\", stderr: \""@ + stderr_b,
    );
    assert(stderr_a =~= ("\", stderr: \""@ + stderr_a).skip(12));
    assert(stderr_b =~= ("\", stderr: \""@ + stderr_b).skip(12));
    lemma_escape_unique(a.stderr, b.stderr, "\""@, "\""@);
}

impl ProcessOutput {
    /// The diagnostic text for this output.
    pub fn describe(&self) -> (text: String)
        ensures
            text@ == output_text(self@),
    {
        let mut text = String::from_str("exit code: ");
        match self.status.code {
            Some(code) => push_decimal(&mut text, code),
            None => text.append("none"),
        }
        text.append(", stdout: \"");
        push_escaped(&mut text, self.stdout.as_slice());
        text.append("\", stderr: \"");
        push_escaped(&mut text, self.stderr.as_slice());
        text.append("\"");
        text
    }
}

/// The operating system could not start the process or wait for it.
#[derive(Debug, PartialEq, Eq)]
pub struct SystemError {
    /// The error number of the operating system, where it gave one.
    pub os_code: Option<i32>,
    /// What went wrong, in words.
    pub message: String,
}

/// The mathematical content of a [`SystemError`].
pub struct SystemErrorView {
    pub os_code: Option<i32>,
    pub message: Seq<char>,
}

impl View for SystemError {
    type V = SystemErrorView;

    open spec fn view(&self) -> SystemErrorView {
        SystemErrorView { os_code: self.os_code, message: self.message@ }
    }
}

/// What a launcher hands back for one invocation.
pub type LaunchResult = Result<ProcessOutput, SystemError>;

} // verus!
