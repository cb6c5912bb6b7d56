use docks::commands::{
    build, check_connexion, clear, editor, list, list_images, list_networks, list_volumes, login,
    logout, ls, ps, publish, running, ssh, touch,
};
use docks::error::{DockError, ErrorKind};
use docks::invocation::{cmd, docker, ssh_run, strings, upload_image, user_at, Invocation};
use docks::messages::{decimal_string, finished_message, log_line, started_message};
use docks::plan::{cmd_outcome, verdict, Flow, Halt, OnWait, PathKind, Report, Rule, RunReport, Step, Then};

fn args(i: &Invocation) -> Vec<&str> {
    i.args.iter().map(|a| a.as_str()).collect()
}

fn run_of(s: &Step) -> (&Invocation, &Rule, &Then) {
    match s {
        Step::Run { call, rule, then } => (call, rule, then),
        other => panic!("not a run step: {:?}", other),
    }
}

fn docker_of(s: &Step) -> (Vec<&str>, Option<&str>, bool) {
    let (call, rule, then) = run_of(s);
    assert_eq!(call.program, "docker");
    assert!(matches!(rule, Rule::Docker));
    (args(call), call.dir.as_deref(), matches!(then, Then::PassOn))
}

#[test]
fn docker_invocation_puts_the_verb_first() {
    let i = docker("compose", strings(&["up", "-d"]), "./containers/web");
    assert_eq!(i.program, "docker");
    assert_eq!(args(&i), vec!["compose", "up", "-d"]);
    assert_eq!(i.dir.as_deref(), Some("./containers/web"));
    assert!(!i.quiet);
}

#[test]
fn ssh_invocation_targets_user_at_ip() {
    let i = ssh_run(strings(&["docker", "ps"]), "root", "10.0.0.2");
    assert_eq!(i.program, "ssh");
    assert_eq!(args(&i), vec!["root@10.0.0.2", "docker", "ps"]);
    assert_eq!(i.dir, None);
    assert_eq!(user_at("bob", "host"), "bob@host");
}

#[test]
fn upload_invocation_is_quiet_rsync() {
    let i = upload_image("deploy", "192.168.1.4", "blog", "2222");
    assert_eq!(i.program, "rsync");
    assert_eq!(
        args(&i),
        vec!["-a", "-z", "-e", "ssh -p 2222", "./containers/blog/", "deploy@192.168.1.4:blog"]
    );
    assert!(i.quiet);
    assert_eq!(i.dir, None);
}

#[test]
fn cmd_runs_in_the_current_folder() {
    let i = cmd("ncat", strings(&["-z", "h", "22"]));
    assert_eq!(i.program, "ncat");
    assert_eq!(args(&i), vec!["-z", "h", "22"]);
    assert_eq!(i.dir.as_deref(), Some("."));
}

#[test]
fn simple_listings() {
    let p = list_networks();
    assert_eq!(p.len(), 1);
    assert_eq!(docker_of(&p[0]), (vec!["network", "ls"], Some("/tmp"), true));
    let p = list_volumes();
    assert_eq!(docker_of(&p[0]), (vec!["volume", "ls"], Some("/tmp"), true));
    let p = list_images();
    assert_eq!(docker_of(&p[0]), (vec!["images"], Some("/tmp"), true));
    let p = ps();
    assert_eq!(docker_of(&p[0]), (vec!["ps", "-a"], Some("/tmp"), true));
    let p = publish("me/app:1.0");
    assert_eq!(docker_of(&p[0]), (vec!["push", "me/app:1.0"], Some("/tmp"), true));
}

#[test]
fn running_lists_remote_containers() {
    let p = running("admin", "1.2.3.4");
    assert_eq!(p.len(), 1);
    let (call, rule, then) = run_of(&p[0]);
    assert_eq!(call.program, "ssh");
    assert_eq!(args(call), vec!["admin@1.2.3.4", "docker", "ps"]);
    assert!(matches!(rule, Rule::Started { missing: DockError::SshNotFound, on_wait: OnWait::PassOn }));
    assert!(matches!(then, Then::PassOn));
}

#[test]
fn build_needs_a_dockerfile() {
    let p = build("web:dev");
    assert_eq!(p.len(), 2);
    match &p[0] {
        Step::Expect { path, kind, error, then } => {
            assert_eq!(path, "Dockerfile");
            assert_eq!(*kind, PathKind::File);
            assert!(matches!(error, DockError::DockerfileNotFound));
            assert!(matches!(then, Then::PassOn));
        }
        other => panic!("{:?}", other),
    }
    assert_eq!(docker_of(&p[1]), (vec!["buildx", "build", "-t", "web:dev", "."], Some("."), true));
    // no Dockerfile: the plan ends with the error
    let step = p.into_iter().next().unwrap();
    let v = verdict(step, Report::Found(false));
    assert!(matches!(v.flow, Flow::Return(DockError::DockerfileNotFound)));
}

#[test]
fn login_and_logout() {
    let p = login("alice");
    let (call, _, then) = run_of(&p[0]);
    assert_eq!(args(call), vec!["login", "-u", "alice"]);
    assert!(matches!(then, Then::Replace(DockError::LoginFailed)));
    assert!(matches!(&p[1], Step::Log(m) if m == "Logged as alice"));
    let p = logout();
    let (call, _, then) = run_of(&p[0]);
    assert_eq!(args(call), vec!["logout"]);
    assert!(matches!(then, Then::Replace(DockError::LogoutFailed)));
    assert!(matches!(&p[1], Step::Log(m) if m == "Disconnected successfully"));
    // a failed logout is reported as such
    let step = logout().into_iter().next().unwrap();
    let v = verdict(step, Report::Ran(RunReport::Exited { success: false }));
    assert!(matches!(v.flow, Flow::Return(DockError::LogoutFailed)));
}

#[test]
fn list_asserts_each_listing() {
    let p = list();
    assert_eq!(p.len(), 3);
    let verbs: Vec<Vec<&str>> = p.iter().map(|s| args(run_of(s).0)).collect();
    assert_eq!(verbs, vec![vec!["images"], vec!["network", "ls"], vec!["volume", "ls"]]);
    assert!(matches!(run_of(&p[0]).2, Then::Abort(Halt::ListImages)));
    assert!(matches!(run_of(&p[1]).2, Then::Abort(Halt::ListNetworks)));
    assert!(matches!(run_of(&p[2]).2, Then::Abort(Halt::ListVolumes)));
}

#[test]
fn clear_editor_touch_ls_ssh() {
    let p = clear();
    let (call, rule, _) = run_of(&p[0]);
    assert_eq!(call.program, "clear");
    assert!(call.args.is_empty());
    assert!(matches!(rule, Rule::Started { missing: DockError::ClearFailed, on_wait: OnWait::Abort(Halt::Wait) }));
    let p = editor();
    assert_eq!(run_of(&p[0]).0.program, "ranger");
    let p = touch(true);
    assert_eq!(args(run_of(&p[0]).0), vec!["Dockerfile"]);
    assert!(matches!(run_of(&p[0]).1, Rule::Started { on_wait: OnWait::Fail(DockError::DockerfileCreateFailed), .. }));
    let p = touch(false);
    assert_eq!(args(run_of(&p[0]).0), vec!["compose.yaml"]);
    assert!(matches!(run_of(&p[0]).1, Rule::Started { on_wait: OnWait::Fail(DockError::ComposeCreateFailed), .. }));
    let p = ls();
    assert_eq!(args(run_of(&p[0]).0), vec!["--git", "--gitignore", "--tree", "--level", "4"]);
    assert!(matches!(run_of(&p[0]).2, Then::Ignore));
    let p = ssh("example.org", "root", "22");
    assert_eq!(args(run_of(&p[0]).0), vec!["-p 22", "root@example.org"]);
}

#[test]
fn connexion_check_logs_pauses_and_probes() {
    let p = check_connexion("10.1.1.1", "22", Then::PassOn);
    assert_eq!(p.len(), 3);
    assert!(matches!(&p[0], Step::Log(m) if m == "Checking the ssh connexion on 10.1.1.1"));
    assert!(matches!(&p[1], Step::Pause(1)));
    match &p[2] {
        Step::Probe { call, ip, .. } => {
            assert_eq!(call.program, "ncat");
            assert_eq!(args(call), vec!["-z", "10.1.1.1", "22"]);
            assert_eq!(ip, "10.1.1.1");
        }
        other => panic!("{:?}", other),
    }
}

fn probe(report: RunReport) -> docks::plan::Verdict {
    let step = check_connexion("10.1.1.1", "22", Then::PassOn).into_iter().nth(2).unwrap();
    verdict(step, Report::Ran(report))
}

#[test]
fn probe_verdicts() {
    let v = probe(RunReport::Exited { success: true });
    assert_eq!(v.note.as_deref(), Some("Can communicate to the 10.1.1.1 server"));
    assert!(matches!(v.flow, Flow::Continue));
    let v = probe(RunReport::Exited { success: false });
    assert_eq!(v.note.as_deref(), Some("Cannot communicate to the 10.1.1.1 server"));
    assert!(matches!(v.flow, Flow::Return(DockError::ConnexionFailed)));
    let v = probe(RunReport::NotStarted);
    assert_eq!(v.note, None);
    assert!(matches!(v.flow, Flow::Return(DockError::NcatNotFound)));
}

fn docker_verdict(report: RunReport) -> Flow {
    let step = list_networks().into_iter().next().unwrap();
    verdict(step, Report::Ran(report)).flow
}

#[test]
fn docker_verdicts() {
    assert!(matches!(docker_verdict(RunReport::Exited { success: true }), Flow::Continue));
    assert!(matches!(docker_verdict(RunReport::Exited { success: false }), Flow::Return(DockError::DockerFailed)));
    assert!(matches!(docker_verdict(RunReport::NotStarted), Flow::Return(DockError::DockerNotFound)));
    let e = DockError::System { kind: ErrorKind::Other, code: None, message: "interrupted".to_string() };
    assert!(matches!(docker_verdict(RunReport::WaitFailed(e)), Flow::Return(DockError::DockerNotFound)));
}

#[test]
fn started_program_verdicts() {
    // ssh: a failed wait is passed on, the exit status does not matter
    let step = running("u", "h").into_iter().next().unwrap();
    let e = DockError::System { kind: ErrorKind::Other, code: None, message: "wait".to_string() };
    match verdict(step, Report::Ran(RunReport::WaitFailed(e))).flow {
        Flow::Return(DockError::System { message, .. }) => assert_eq!(message, "wait"),
        other => panic!("{:?}", other),
    }
    let step = running("u", "h").into_iter().next().unwrap();
    assert!(matches!(verdict(step, Report::Ran(RunReport::Exited { success: false })).flow, Flow::Continue));
    let step = running("u", "h").into_iter().next().unwrap();
    assert!(matches!(verdict(step, Report::Ran(RunReport::NotStarted)).flow, Flow::Return(DockError::SshNotFound)));
    // clear: a failed wait stops the program
    let step = clear().into_iter().next().unwrap();
    let e = DockError::System { kind: ErrorKind::Other, code: None, message: "wait".to_string() };
    assert!(matches!(verdict(step, Report::Ran(RunReport::WaitFailed(e))).flow, Flow::Abort(Halt::Wait)));
    let step = clear().into_iter().next().unwrap();
    assert!(matches!(verdict(step, Report::Ran(RunReport::NotStarted)).flow, Flow::Return(DockError::ClearFailed)));
    // ls: eza missing is ignored
    let step = ls().into_iter().next().unwrap();
    assert!(matches!(verdict(step, Report::Ran(RunReport::NotStarted)).flow, Flow::Continue));
    // editor and touch
    let step = editor().into_iter().next().unwrap();
    assert!(matches!(verdict(step, Report::Ran(RunReport::NotStarted)).flow, Flow::Return(DockError::RangerFailed)));
    let step = touch(true).into_iter().next().unwrap();
    assert!(matches!(verdict(step, Report::Ran(RunReport::NotStarted)).flow, Flow::Return(DockError::TouchNotFound)));
    let step = touch(false).into_iter().next().unwrap();
    let e = DockError::System { kind: ErrorKind::Other, code: None, message: "wait".to_string() };
    assert!(matches!(verdict(step, Report::Ran(RunReport::WaitFailed(e))).flow, Flow::Return(DockError::ComposeCreateFailed)));
    let step = ssh("s", "u", "22").into_iter().next().unwrap();
    let e = DockError::System { kind: ErrorKind::Other, code: None, message: "wait".to_string() };
    assert!(matches!(verdict(step, Report::Ran(RunReport::WaitFailed(e))).flow, Flow::Return(DockError::SshNotFound)));
}

#[test]
fn plain_steps_go_on() {
    assert!(matches!(verdict(Step::Log("x".to_string()), Report::Nothing).flow, Flow::Continue));
    assert!(matches!(verdict(Step::Pause(1), Report::Nothing).flow, Flow::Continue));
    assert!(matches!(verdict(Step::Elapsed, Report::Nothing).flow, Flow::Continue));
    assert!(matches!(verdict(Step::Fail(DockError::MissingLocal), Report::Nothing).flow, Flow::Return(DockError::MissingLocal)));
    assert!(matches!(verdict(Step::Abort(Halt::Unreachable), Report::Nothing).flow, Flow::Abort(Halt::Unreachable)));
}

#[test]
fn error_messages_and_kinds() {
    let cases: Vec<(DockError, ErrorKind, &str)> = vec![
        (DockError::DockerNotFound, ErrorKind::NotFound, "docker not found"),
        (DockError::DockerFailed, ErrorKind::Other, "Docker exited with status no 0"),
        (DockError::SshNotFound, ErrorKind::NotFound, "ssh not found"),
        (DockError::RsyncNotFound, ErrorKind::NotFound, "rsync not found"),
        (DockError::ClearFailed, ErrorKind::NotFound, "clear failed"),
        (DockError::LoginFailed, ErrorKind::NotFound, "docker username not found"),
        (DockError::LogoutFailed, ErrorKind::NotFound, "docker logout not found"),
        (DockError::NotATable, ErrorKind::InvalidData, "must be a table"),
        (DockError::MissingConfiguration, ErrorKind::NotFound, "Missing configuration"),
        (DockError::ProgramNotFound, ErrorKind::NotFound, "program not found"),
        (DockError::ConnexionFailed, ErrorKind::NotFound, "ncat connexion failed"),
        (DockError::NcatNotFound, ErrorKind::NotFound, "ncat not founded"),
        (DockError::DockerfileNotFound, ErrorKind::NotFound, "Dockerfile not found"),
        (DockError::ContainerNotADir, ErrorKind::NotFound, "docker container is not a dir"),
        (DockError::MissingLocal, ErrorKind::NotFound, "missing local id"),
        (DockError::InvalidDockerConfig, ErrorKind::NotFound, "docker config not valid"),
        (DockError::LocalConfigNotFound, ErrorKind::NotFound, "docks.toml config not found"),
        (DockError::RemoteConfigNotFound, ErrorKind::NotFound, "docks.toml not found"),
        (DockError::RangerFailed, ErrorKind::NotFound, "Failed to run ranger"),
        (DockError::RemoveFailed, ErrorKind::NotFound, "Failed to remove image"),
        (DockError::StopFailed, ErrorKind::NotFound, "Failed to stop the container"),
        (DockError::RunFailed, ErrorKind::NotFound, "Failed to run the container"),
        (DockError::RestartFailed, ErrorKind::NotFound, "Failed to restart the container"),
        (DockError::DockerfileCreateFailed, ErrorKind::NotFound, "Failed to create Dockerfile"),
        (DockError::ComposeCreateFailed, ErrorKind::NotFound, "Failed to create compose.yaml"),
        (DockError::TouchNotFound, ErrorKind::NotFound, "touch not found"),
        (DockError::System { kind: ErrorKind::InvalidData, code: None, message: "bad".to_string() }, ErrorKind::InvalidData, "bad"),
    ];
    for (e, kind, message) in cases {
        assert_eq!(e.kind(), kind);
        assert_eq!(e.message(), message);
        let copy = e.duplicate();
        assert_eq!(copy.message(), message);
    }
}

#[test]
fn halt_messages() {
    assert_eq!(Halt::LocalStop.message(), "fail to stop container");
    assert_eq!(Halt::RemoteStart.message(), "Failed to start the container");
    assert_eq!(Halt::Unreachable.message(), "Cannot deploy containers");
    assert_eq!(Halt::Clear.message(), "assertion failed: clear().is_ok()");
    assert_eq!(Halt::Upload.message(), "assertion failed: upload_image(username, ip, image, port).is_ok()");
    assert_eq!(Halt::LocalDeploy.message(), "assertion failed: deploy_local().is_ok()");
}

#[test]
fn decimal_writing() {
    assert_eq!(decimal_string(0), "0");
    assert_eq!(decimal_string(7), "7");
    assert_eq!(decimal_string(10), "10");
    assert_eq!(decimal_string(1234), "1234");
    assert_eq!(decimal_string(u64::MAX), u64::MAX.to_string());
}

#[test]
fn printed_lines() {
    assert_eq!(log_line("done"), "\x1b[1;32m ✔\x1b[0;37m done\x1b[0m");
    assert_eq!(started_message("2024-01-01"), "Starting deployment at 2024-01-01");
    assert_eq!(finished_message(42), "The deployment take 42 secs");
}

#[test]
fn cmd_outcomes() {
    assert!(matches!(cmd_outcome(RunReport::NotStarted), Err(DockError::ProgramNotFound)));
    assert!(matches!(cmd_outcome(RunReport::Exited { success: false }), Ok(false)));
    assert!(matches!(cmd_outcome(RunReport::Exited { success: true }), Ok(true)));
    let e = DockError::System { kind: ErrorKind::Other, code: Some(4), message: "Interrupted".to_string() };
    match cmd_outcome(RunReport::WaitFailed(e)) {
        Err(DockError::System { code, .. }) => assert_eq!(code, Some(4)),
        other => panic!("{:?}", other),
    }
}
