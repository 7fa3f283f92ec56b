//! The command that opens a folder of a remote host in the editor, over SSH.

use vstd::prelude::*;
use vstd::string::*;
use crate::anystr::{any_str_to_string, anystr_none, anystr_some, text_of, AnyStr};
use crate::command::Command;
use crate::process::{InvocationView, ProcessInvocation};

verus! {

/// Opens the editor on a remote host with `code --folder-uri <uri>`.
///
/// The URI has the form `vscode-remote://ssh-remote+{user}@{host}{path}`.
/// The user and its `@` are left out where no user is given or the user is
/// empty; the path is left out where none is given.
pub struct VSCodeSSH {
    host_ip: String,
    host_user: Option<String>,
    host_abspath: Option<String>,
    verbose: bool,
}

/// The mathematical content of a [`VSCodeSSH`].
pub struct TargetView {
    pub host: Seq<char>,
    pub user: Option<Seq<char>>,
    pub abspath: Option<Seq<char>>,
    pub verbose: bool,
}

/// A text that is present and not empty; an empty text counts as absent.
pub open spec fn non_empty(text: Option<Seq<char>>) -> Option<Seq<char>> {
    match text {
        Some(text) => if text.len() > 0 {
            Some(text)
        } else {
            None
        },
        None => None,
    }
}

/// The part of the URI that names the user: the user and `@`, or nothing
/// where the user is absent or empty.
pub open spec fn user_part(user: Option<Seq<char>>) -> Seq<char> {
    match non_empty(user) {
        Some(user) => user + "@"@,
        None => Seq::empty(),
    }
}

/// The part of the URI that names the folder: the path, or nothing.
pub open spec fn path_part(abspath: Option<Seq<char>>) -> Seq<char> {
    match abspath {
        Some(path) => path,
        None => Seq::empty(),
    }
}

/// The URI of a target.
pub open spec fn target_uri(target: TargetView) -> Seq<char> {
    "vscode-remote://ssh-remote+"@ + user_part(target.user) + target.host + path_part(
        target.abspath,
    )
}

/// The process that opens a target in the editor: `code`, then `--verbose`
/// where asked for, then `--folder-uri` and the URI.
pub open spec fn editor_invocation(target: TargetView) -> InvocationView {
    InvocationView {
        program: "code"@,
        args: if target.verbose {
            seq!["--verbose"@, "--folder-uri"@, target_uri(target)]
        } else {
            seq!["--folder-uri"@, target_uri(target)]
        },
        stdin: None,
        stdout: None,
        stderr: None,
    }
}

impl View for VSCodeSSH {
    type V = TargetView;

    closed spec fn view(&self) -> TargetView {
        TargetView {
            host: self.host_ip@,
            user: match self.host_user {
                Some(user) => Some(user@),
                None => None,
            },
            abspath: match self.host_abspath {
                Some(path) => Some(path@),
                None => None,
            },
            verbose: self.verbose,
        }
    }
}

impl VSCodeSSH {
    /// A user that is held is never empty.
    #[verifier::type_invariant]
    spec fn held_user_is_not_empty(&self) -> bool {
        self.host_user matches Some(user) ==> user@.len() > 0
    }

    /// The URI to hand to the editor.
    pub fn get_uri(&self) -> (uri: String)
        ensures
            uri@ == target_uri(self@),
    {
        proof {
            use_type_invariant(self);
        }
        let mut uri = String::from_str("vscode-remote://ssh-remote+");
        match &self.host_user {
            Some(user) => {
                uri.append(user.as_str());
                uri.append("@");
            },
            None => {},
        }
        uri.append(self.host_ip.as_str());
        match &self.host_abspath {
            Some(path) => {
                uri.append(path.as_str());
            },
            None => {},
        }
        assert(uri@ =~= target_uri(self@));
        uri
    }

    /// The target at `host_ip`, with the user and the folder where they are
    /// given. An empty user counts as none. `verbose` is off unless given
    /// as `Some(true)`.
    pub fn new<Str0: AnyStr, Str1: AnyStr, Str2: AnyStr>(
        host_ip: Str0,
        host_user: Option<Str1>,
        host_abspath: Option<Str2>,
        verbose: Option<bool>,
    ) -> (target: Self)
        ensures
            target@ == (TargetView {
                host: host_ip.text(),
                user: non_empty(text_of(host_user)),
                abspath: text_of(host_abspath),
                verbose: verbose == Some(true),
            }),
    {
        let user = match host_user {
            Some(user) => {
                let user = any_str_to_string(user);
                if user.as_str().is_empty() {
                    None
                } else {
                    Some(user)
                }
            },
            None => None,
        };
        let abspath = match host_abspath {
            Some(path) => Some(any_str_to_string(path)),
            None => None,
        };
        let verbose = match verbose {
            Some(verbose) => verbose,
            None => false,
        };
        VSCodeSSH {
            host_ip: any_str_to_string(host_ip),
            host_user: user,
            host_abspath: abspath,
            verbose,
        }
    }

    /// The target at `host_ip`, without user or folder.
    pub fn from_ip<S: AnyStr>(host_ip: S) -> (target: Self)
        ensures
            target@ == (TargetView {
                host: host_ip.text(),
                user: None,
                abspath: None,
                verbose: false,
            }),
    {
        Self::new(host_ip, anystr_none(), anystr_none(), None)
    }

    /// The target at `host_ip` with the folder `host_abspath`, an absolute
    /// path on the host.
    pub fn from_abs<S0: AnyStr, S1: AnyStr>(host_ip: S0, host_abspath: S1) -> (target: Self)
        ensures
            target@ == (TargetView {
                host: host_ip.text(),
                user: None,
                abspath: Some(host_abspath.text()),
                verbose: false,
            }),
    {
        Self::new(host_ip, anystr_none(), anystr_some(host_abspath), None)
    }

    /// The target at `host_ip` for the user `host_user`.
    pub fn from_user<S0: AnyStr, S1: AnyStr>(host_ip: S0, host_user: S1) -> (target: Self)
        ensures
            target@ == (TargetView {
                host: host_ip.text(),
                user: non_empty(Some(host_user.text())),
                abspath: None,
                verbose: false,
            }),
    {
        Self::new(host_ip, anystr_some(host_user), anystr_none(), None)
    }

    /// The target at `host_ip` for the user `host_user`, with the folder
    /// `host_abspath`.
    pub fn from_auth<S0: AnyStr, S1: AnyStr, S2: AnyStr>(
        host_ip: S0,
        host_user: S1,
        host_abspath: S2,
    ) -> (target: Self)
        ensures
            target@ == (TargetView {
                host: host_ip.text(),
                user: non_empty(Some(host_user.text())),
                abspath: Some(host_abspath.text()),
                verbose: false,
            }),
    {
        Self::new(host_ip, anystr_some(host_user), anystr_some(host_abspath), None)
    }

    /// The same target, with the editor asked to be verbose: `--verbose` is
    /// added to its arguments.
    pub fn make_verbose(self) -> (target: Self)
        ensures
            target@ == (TargetView { verbose: true, ..self@ }),
    {
        proof {
            use_type_invariant(&self);
        }
        VSCodeSSH {
            host_ip: self.host_ip,
            host_user: self.host_user,
            host_abspath: self.host_abspath,
            verbose: true,
        }
    }
}

/// An empty user counts as no user: the URI of a target is the same with an
/// empty user and with none.
pub proof fn lemma_empty_user_is_absent(target: TargetView)
    ensures
        target_uri(target) == target_uri(TargetView { user: non_empty(target.user), ..target }),
        target.user == Some(Seq::<char>::empty()) ==> target_uri(target) == target_uri(
            TargetView { user: None, ..target },
        ),
{
}

impl Command for VSCodeSSH {
    open spec fn apply_invocation(&self) -> InvocationView {
        editor_invocation(self@)
    }

    open spec fn undo_invocation(&self) -> Option<InvocationView> {
        None
    }

    fn apply_proc(&self) -> (inv: ProcessInvocation) {
        let mut inv = ProcessInvocation::new("code");
        if self.verbose {
            inv.arg("--verbose");
        }
        inv.arg("--folder-uri");
        let uri = self.get_uri();
        inv.arg(uri.as_str());
        assert(inv@.args =~= editor_invocation(self@).args);
        inv
    }

    /// Opening the editor cannot be undone.
    fn undo_proc(&self) -> (inv: Option<ProcessInvocation>) {
        None
    }

    /// Opening the editor has no check mode.
    fn check_proc(&self) -> (inv: Option<ProcessInvocation>) {
        None
    }
}

} // verus!
