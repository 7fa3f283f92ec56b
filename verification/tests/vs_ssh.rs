use std::cell::{Cell, RefCell};

use vscode_ssh::command::{Command, CommandOutput};
use vscode_ssh::launcher::Launcher;
use vscode_ssh::process::{ExitStatus, LaunchResult, ProcessInvocation, ProcessOutput, SystemError};
use vscode_ssh::VSCodeSSH;

fn ssh_local() -> VSCodeSSH {
    VSCodeSSH::from_ip("localhost")
}

/// A launcher for a machine on which the editor starts and exits cleanly.
fn editor_starts(inv: ProcessInvocation) -> LaunchResult {
    assert_eq!(inv.program, "code");
    Ok(ProcessOutput {
        status: ExitStatus::from_code(Some(0)),
        stdout: Vec::new(),
        stderr: Vec::new(),
    })
}

#[test]
fn has_code_cmd() {
    let command_not_found: i32 = 127;
    let output = ssh_local().perform(&mut Launcher::new(editor_starts));
    assert!(matches!(&output, CommandOutput::ProcessOutput(_)));
    match output {
        CommandOutput::ProcessOutput(a) => {
            assert!(a.unwrap().status.code.unwrap() != command_not_found)
        }
        _ => panic!(),
    };
}

#[test]
fn uri_test_c_nil_nil() {
    assert_eq!(
        VSCodeSSH::from_ip("felius.ddns.net").get_uri(),
        "vscode-remote://ssh-remote+felius.ddns.net".to_string()
    );
}

#[test]
fn uri_test_c_c() {
    assert_eq!(
        VSCodeSSH::from_user("felius.ddns.net", "ubuntu_admin").get_uri(),
        "vscode-remote://ssh-remote+ubuntu_admin@felius.ddns.net".to_string()
    );
}

#[test]
fn uri_test_c_nil_c() {
    assert_eq!(
        VSCodeSSH::from_abs("felius.ddns.net", "/home/ubuntu_admin/git_server/vscode-ssh")
            .get_uri(),
        "vscode-remote://ssh-remote+felius.ddns.net/home/ubuntu_admin/git_server/vscode-ssh"
            .to_string()
    );
}

#[test]
fn uri_test_c_c_c() {
    assert_eq!(
        VSCodeSSH::from_auth("felius.ddns.net", "ubuntu_admin", "/home/ubuntu_admin/git_server")
            .get_uri(),
        "vscode-remote://ssh-remote+ubuntu_admin@felius.ddns.net/home/ubuntu_admin/git_server"
            .to_string()
    );
}

#[test]
fn uri_test_empty_user() {
    // significance: the user's name is empty and there is no '@'
    assert_eq!(
        VSCodeSSH::from_user("felius.ddns.net", "").get_uri(),
        "vscode-remote://ssh-remote+felius.ddns.net".to_string()
    )
}

#[test]
fn vs_ssh_unsupported_undo() {
    assert!(VSCodeSSH::from_auth(
        "felius.ddns.net",
        "ubuntu_admin",
        "/home/ubuntu_admin/git_server/vscode-ssh"
    )
    .undo_proc()
    .is_none());
}

#[test]
fn ssh_creation_local() {
    let cmd = ssh_local().apply_proc();
    let matches: Vec<&str> = cmd.program.matches("code").collect();
    assert_eq!(matches, ["code"]);
    assert_eq!(cmd.args, &["--folder-uri", "vscode-remote://ssh-remote+localhost"]);
}

#[test]
fn vs_ssh_local_perf() {
    let output = ssh_local().perform(&mut Launcher::new(editor_starts));
    if let CommandOutput::ProcessOutput(res) = output {
        assert!(res.unwrap().status.success())
    } else {
        panic!()
    };
}

#[test]
fn vs_ssh_local_perf_verbose_output() {
    let cmd = ssh_local().make_verbose();
    let proc = cmd.apply_proc();
    println!("prog: {:?}; args {:?}", proc.program, proc.args);
    println!(
        "{}",
        Into::<Result<String, String>>::into(cmd.perform(&mut Launcher::new(editor_starts))).unwrap_or_else(|err| err)
    );
}

#[test]
fn vs_ssh_local_output() {
    let cmd = ssh_local();
    let proc = cmd.apply_proc();
    println!("prog: {:?}; args {:?}", proc.program, proc.args);
    println!(
        "{}",
        Into::<Result<String, String>>::into(cmd.perform(&mut Launcher::new(editor_starts))).unwrap_or_else(|err| err)
    );
}

#[test]
fn uri_with_user_given_as_owned_string() {
    let user = String::from("ubuntu_admin");
    assert_eq!(
        VSCodeSSH::from_user("felius.ddns.net", &user).get_uri(),
        "vscode-remote://ssh-remote+ubuntu_admin@felius.ddns.net"
    );
    assert_eq!(
        VSCodeSSH::from_user(String::from("felius.ddns.net"), user).get_uri(),
        "vscode-remote://ssh-remote+ubuntu_admin@felius.ddns.net"
    );
}

#[test]
fn new_takes_every_part() {
    let target = VSCodeSSH::new("h", Some("u"), Some("/p"), Some(true));
    assert_eq!(target.get_uri(), "vscode-remote://ssh-remote+u@h/p");
    assert_eq!(target.apply_proc().args[0], "--verbose");
    let quiet = VSCodeSSH::new("h", None::<&str>, None::<String>, Some(false));
    assert_eq!(quiet.get_uri(), "vscode-remote://ssh-remote+h");
    assert_eq!(quiet.apply_proc().args.len(), 2);
    let unset = VSCodeSSH::new("h", Some(""), Some(""), None);
    assert_eq!(unset.get_uri(), "vscode-remote://ssh-remote+h");
    assert_eq!(unset.apply_proc().args.len(), 2);
}

#[test]
fn empty_user_is_the_same_as_no_user() {
    let hosts = ["felius.ddns.net", "localhost", ""];
    for host in hosts {
        assert_eq!(
            VSCodeSSH::from_user(host, "").get_uri(),
            VSCodeSSH::from_ip(host).get_uri()
        );
        assert_eq!(
            VSCodeSSH::from_auth(host, "", "/srv").get_uri(),
            VSCodeSSH::from_abs(host, "/srv").get_uri()
        );
    }
}

#[test]
fn path_is_appended_without_separator() {
    assert_eq!(
        VSCodeSSH::from_abs("host", "relative").get_uri(),
        "vscode-remote://ssh-remote+hostrelative"
    );
}

#[test]
fn apply_invocation_of_a_quiet_target() {
    let inv = VSCodeSSH::from_auth("felius.ddns.net", "ubuntu_admin", "/home").apply_proc();
    assert_eq!(inv.program, "code");
    assert_eq!(
        inv.args,
        vec![
            "--folder-uri".to_string(),
            "vscode-remote://ssh-remote+ubuntu_admin@felius.ddns.net/home".to_string()
        ]
    );
    assert_eq!(inv.stdin, None);
    assert_eq!(inv.stdout, None);
    assert_eq!(inv.stderr, None);
}

#[test]
fn apply_invocation_of_a_verbose_target() {
    let inv = ssh_local().make_verbose().apply_proc();
    assert_eq!(inv.program, "code");
    assert_eq!(
        inv.args,
        vec![
            "--verbose".to_string(),
            "--folder-uri".to_string(),
            "vscode-remote://ssh-remote+localhost".to_string()
        ]
    );
}

#[test]
fn make_verbose_keeps_the_target() {
    let plain = VSCodeSSH::from_auth("h", "u", "/p");
    let uri = plain.get_uri();
    assert_eq!(plain.make_verbose().get_uri(), uri);
}

#[test]
fn check_mode_is_not_supported() {
    assert!(ssh_local().check_proc().is_none());
    let launches = Cell::new(0u32);
    let mut launcher = Launcher::new(|inv: ProcessInvocation| -> LaunchResult {
        launches.set(launches.get() + 1);
        editor_starts(inv)
    });
    let checked = ssh_local().check(&mut launcher);
    assert_eq!(launches.get(), 0);
    match checked {
        Err(message) => assert_eq!(message, "check mode not supported"),
        Ok(_) => panic!(),
    }
}

#[test]
fn drawback_launches_nothing() {
    let launches = Cell::new(0u32);
    let mut launcher = Launcher::new(|inv: ProcessInvocation| -> LaunchResult {
        launches.set(launches.get() + 1);
        editor_starts(inv)
    });
    let targets = [
        ssh_local(),
        ssh_local().make_verbose(),
        VSCodeSSH::from_user("felius.ddns.net", "ubuntu_admin"),
        VSCodeSSH::from_abs("felius.ddns.net", "/home"),
        VSCodeSSH::from_auth("felius.ddns.net", "ubuntu_admin", "/home"),
    ];
    for target in targets {
        assert!(target.undo_proc().is_none());
        assert!(target.drawback(&mut launcher).is_none());
    }
    assert_eq!(launches.get(), 0);
}

#[test]
fn perform_launches_the_apply_invocation_once() {
    let seen: RefCell<Vec<ProcessInvocation>> = RefCell::new(Vec::new());
    let mut launcher = Launcher::new(|inv: ProcessInvocation| -> LaunchResult {
        seen.borrow_mut().push(inv);
        Ok(ProcessOutput {
            status: ExitStatus::from_code(Some(3)),
            stdout: b"out".to_vec(),
            stderr: b"err".to_vec(),
        })
    });
    let output = ssh_local().perform(&mut launcher);
    assert_eq!(*seen.borrow(), vec![ssh_local().apply_proc()]);
    match output {
        CommandOutput::ProcessOutput(Ok(out)) => {
            assert_eq!(out.status.code, Some(3));
            assert!(!out.status.success());
            assert_eq!(out.stdout, b"out");
            assert_eq!(out.stderr, b"err");
        }
        _ => panic!(),
    }
}

#[test]
fn one_launcher_serves_many_commands() {
    let launches = Cell::new(0u32);
    let mut launcher = Launcher::new(|inv: ProcessInvocation| -> LaunchResult {
        launches.set(launches.get() + 1);
        editor_starts(inv)
    });
    ssh_local().perform(&mut launcher);
    ssh_local().make_verbose().perform(&mut launcher);
    assert!(ssh_local().drawback(&mut launcher).is_none());
    ssh_local().perform(&mut launcher);
    assert_eq!(launches.get(), 3);
}

#[test]
fn perform_keeps_a_launch_failure_as_a_value() {
    let mut launcher = Launcher::new(|_inv: ProcessInvocation| -> LaunchResult {
        Err(SystemError { os_code: Some(2), message: "No such file or directory".to_string() })
    });
    match ssh_local().perform(&mut launcher) {
        CommandOutput::ProcessOutput(Err(error)) => {
            assert_eq!(error.os_code, Some(2));
            assert_eq!(error.message, "No such file or directory");
        }
        _ => panic!(),
    }
}

#[test]
fn launcher_hands_back_what_its_function_gives() {
    let mut launcher = Launcher::new(|inv: ProcessInvocation| -> LaunchResult {
        Ok(ProcessOutput {
            status: ExitStatus::from_code(Some(inv.args.len() as i32)),
            stdout: inv.program.into_bytes(),
            stderr: Vec::new(),
        })
    });
    let mut inv = ProcessInvocation::new("echo");
    inv.arg("a");
    inv.arg("b");
    let out = launcher.launch(inv).unwrap();
    assert_eq!(out.status.code, Some(2));
    assert_eq!(out.stdout, b"echo");
}
