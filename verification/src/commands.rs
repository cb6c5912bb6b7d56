//! The plans of the tool's single commands.
use vstd::prelude::*;
use crate::error::DockError;
use crate::invocation::{
    cmd, cmd_call, docker, docker_call, ssh_call, ssh_run, strings, text, texts, user_at, at,
    clear_call, clear_screen,
};
use crate::plan::{only, push_step, steps_view, Halt, OnWait, Rule, Step, StepView, Then};

verus! {

/// A step that runs docker with `verb` and `args` in `path`.
pub open spec fn docker_run(verb: Seq<char>, args: Seq<Seq<char>>, path: Seq<char>, then: Then) -> StepView {
    StepView::Run { call: docker_call(verb, args, path), rule: Rule::Docker, then: then }
}

/// A step that runs docker with `verb` and `args` in `path`.
pub fn docker_step(verb: &str, args: Vec<String>, path: &str, then: Then) -> (s: Step)
    ensures
        s@ == docker_run(verb@, texts(args@), path@, then),
{
    Step::Run { call: docker(verb, args, path), rule: Rule::Docker, then }
}

/// A step that runs docker with `verb` and literal `args` in `/tmp`,
/// passing docker's error on.
fn tmp_docker(verb: &str, args: &[&str]) -> (s: Step)
    ensures
        s@ == docker_run(verb@, args@.map_values(|w: &str| w@), "/tmp"@, Then::PassOn),
{
    docker_step(verb, strings(args), "/tmp", Then::PassOn)
}

/// The step of a program started over ssh: it must start, and a failed wait
/// is passed on.
pub open spec fn ssh_rule() -> Rule {
    Rule::Started { missing: DockError::SshNotFound, on_wait: OnWait::PassOn }
}

/// The steps of [`list_networks`].
pub open spec fn list_networks_plan() -> Seq<StepView> {
    seq![docker_run("network"@, seq!["ls"@], "/tmp"@, Then::PassOn)]
}

/// Lists the docker networks.
pub fn list_networks() -> (p: Vec<Step>)
    ensures
        steps_view(p@) == list_networks_plan(),
{
    let s = tmp_docker("network", &["ls"]);
    proof { assert(["ls"]@.map_values(|w: &str| w@) =~= seq!["ls"@]); }
    only(s)
}

/// The steps of [`list_volumes`].
pub open spec fn list_volumes_plan() -> Seq<StepView> {
    seq![docker_run("volume"@, seq!["ls"@], "/tmp"@, Then::PassOn)]
}

/// Lists the docker volumes.
pub fn list_volumes() -> (p: Vec<Step>)
    ensures
        steps_view(p@) == list_volumes_plan(),
{
    let s = tmp_docker("volume", &["ls"]);
    proof { assert(["ls"]@.map_values(|w: &str| w@) =~= seq!["ls"@]); }
    only(s)
}

/// The steps of [`list_images`].
pub open spec fn list_images_plan() -> Seq<StepView> {
    seq![docker_run("images"@, seq![], "/tmp"@, Then::PassOn)]
}

/// Lists the docker images.
pub fn list_images() -> (p: Vec<Step>)
    ensures
        steps_view(p@) == list_images_plan(),
{
    let none: Vec<String> = Vec::new();
    proof { assert(texts(none@) =~= Seq::<Seq<char>>::empty()); }
    only(docker_step("images", none, "/tmp", Then::PassOn))
}

/// The steps of [`ps`].
pub open spec fn ps_plan() -> Seq<StepView> {
    seq![docker_run("ps"@, seq!["-a"@], "/tmp"@, Then::PassOn)]
}

/// Lists all the containers, running or not.
pub fn ps() -> (p: Vec<Step>)
    ensures
        steps_view(p@) == ps_plan(),
{
    let s = tmp_docker("ps", &["-a"]);
    proof { assert(["-a"]@.map_values(|w: &str| w@) =~= seq!["-a"@]); }
    only(s)
}

/// The steps of [`publish`].
pub open spec fn publish_plan(container: Seq<char>) -> Seq<StepView> {
    seq![docker_run("push"@, seq![container], "/tmp"@, Then::PassOn)]
}

/// Pushes an image to its registry.
pub fn publish(container: &str) -> (p: Vec<Step>)
    ensures
        steps_view(p@) == publish_plan(container@),
{
    let s = tmp_docker("push", &[container]);
    proof { assert([container]@.map_values(|w: &str| w@) =~= seq![container@]); }
    only(s)
}

/// The steps of [`running`].
pub open spec fn remote_ps_plan(user: Seq<char>, ip: Seq<char>) -> Seq<StepView> {
    seq![StepView::Run {
        call: ssh_call(seq!["docker"@, "ps"@], user, ip),
        rule: ssh_rule(),
        then: Then::PassOn,
    }]
}

/// Lists the containers running on the server `ip`.
pub fn running(user: &str, ip: &str) -> (p: Vec<Step>)
    ensures
        steps_view(p@) == remote_ps_plan(user@, ip@),
{
    let args = strings(&["docker", "ps"]);
    proof { assert(["docker", "ps"]@.map_values(|w: &str| w@) =~= seq!["docker"@, "ps"@]); }
    let call = ssh_run(args, user, ip);
    only(Step::Run { call, rule: Rule::Started { missing: DockError::SshNotFound, on_wait: OnWait::PassOn }, then: Then::PassOn })
}

/// The steps of [`build`].
pub open spec fn build_plan(tag: Seq<char>) -> Seq<StepView> {
    seq![
        StepView::Expect {
            path: "Dockerfile"@,
            kind: crate::plan::PathKind::File,
            error: DockError::DockerfileNotFound,
            then: Then::PassOn,
        },
        docker_run("buildx"@, seq!["build"@, "-t"@, tag, "."@], "."@, Then::PassOn),
    ]
}

/// Builds the image of the current folder under `tag`; the folder must hold
/// a `Dockerfile`.
pub fn build(tag: &str) -> (p: Vec<Step>)
    ensures
        steps_view(p@) == build_plan(tag@),
{
    let mut p = only(Step::Expect {
        path: text("Dockerfile"),
        kind: crate::plan::PathKind::File,
        error: DockError::DockerfileNotFound,
        then: Then::PassOn,
    });
    let args = strings(&["build", "-t", tag, "."]);
    proof {
        assert(["build", "-t", tag, "."]@.map_values(|w: &str| w@) =~= seq!["build"@, "-t"@, tag@, "."@]);
    }
    push_step(&mut p, docker_step("buildx", args, ".", Then::PassOn));
    p
}

/// The steps of [`login`].
pub open spec fn login_plan(username: Seq<char>) -> Seq<StepView> {
    seq![
        docker_run("login"@, seq!["-u"@, username], "/tmp"@, Then::Replace(DockError::LoginFailed)),
        StepView::Log("Logged as "@ + username),
    ]
}

/// Logs docker in as `username`.
pub fn login(username: &str) -> (p: Vec<Step>)
    ensures
        steps_view(p@) == login_plan(username@),
{
    let args = strings(&["-u", username]);
    proof { assert(["-u", username]@.map_values(|w: &str| w@) =~= seq!["-u"@, username@]); }
    let mut p = only(docker_step("login", args, "/tmp", Then::Replace(DockError::LoginFailed)));
    let mut m = text("Logged as ");
    m.append(username);
    push_step(&mut p, Step::Log(m));
    p
}

/// The steps of [`logout`].
pub open spec fn logout_plan() -> Seq<StepView> {
    seq![
        docker_run("logout"@, seq![], "/tmp"@, Then::Replace(DockError::LogoutFailed)),
        StepView::Log("Disconnected successfully"@),
    ]
}

/// Logs docker out.
pub fn logout() -> (p: Vec<Step>)
    ensures
        steps_view(p@) == logout_plan(),
{
    let args: Vec<String> = Vec::new();
    proof { assert(texts(args@) =~= Seq::<Seq<char>>::empty()); }
    let mut p = only(docker_step("logout", args, "/tmp", Then::Replace(DockError::LogoutFailed)));
    push_step(&mut p, Step::Log(text("Disconnected successfully")));
    p
}

/// The steps of [`list`].
pub open spec fn list_plan() -> Seq<StepView> {
    seq![
        docker_run("images"@, seq![], "/tmp"@, Then::Abort(Halt::ListImages)),
        docker_run("network"@, seq!["ls"@], "/tmp"@, Then::Abort(Halt::ListNetworks)),
        docker_run("volume"@, seq!["ls"@], "/tmp"@, Then::Abort(Halt::ListVolumes)),
    ]
}

/// Lists the images, the networks and the volumes; each listing must succeed.
pub fn list() -> (p: Vec<Step>)
    ensures
        steps_view(p@) == list_plan(),
{
    let none: Vec<String> = Vec::new();
    proof { assert(texts(none@) =~= Seq::<Seq<char>>::empty()); }
    let mut p = only(docker_step("images", none, "/tmp", Then::Abort(Halt::ListImages)));
    let ls = strings(&["ls"]);
    proof { assert(["ls"]@.map_values(|w: &str| w@) =~= seq!["ls"@]); }
    push_step(&mut p, docker_step("network", ls, "/tmp", Then::Abort(Halt::ListNetworks)));
    let ls = strings(&["ls"]);
    push_step(&mut p, docker_step("volume", ls, "/tmp", Then::Abort(Halt::ListVolumes)));
    p
}

/// The step that clears the terminal: `clear` must start, and waiting for it
/// must not fail.
pub open spec fn clear_run(then: Then) -> StepView {
    StepView::Run {
        call: clear_call(),
        rule: Rule::Started { missing: DockError::ClearFailed, on_wait: OnWait::Abort(Halt::Wait) },
        then: then,
    }
}

/// The step that clears the terminal.
pub fn clear_step(then: Then) -> (s: Step)
    ensures
        s@ == clear_run(then),
{
    Step::Run {
        call: clear_screen(),
        rule: Rule::Started { missing: DockError::ClearFailed, on_wait: OnWait::Abort(Halt::Wait) },
        then,
    }
}

/// The steps of [`clear`].
pub open spec fn clear_plan() -> Seq<StepView> {
    seq![clear_run(Then::PassOn)]
}

/// Clears the terminal.
pub fn clear() -> (p: Vec<Step>)
    ensures
        steps_view(p@) == clear_plan(),
{
    only(clear_step(Then::PassOn))
}

/// The steps of [`editor`].
pub open spec fn editor_plan() -> Seq<StepView> {
    seq![StepView::Run {
        call: cmd_call("ranger"@, seq![]),
        rule: Rule::Started { missing: DockError::RangerFailed, on_wait: OnWait::Abort(Halt::Wait) },
        then: Then::PassOn,
    }]
}

/// Opens the file manager ranger in the current folder.
pub fn editor() -> (p: Vec<Step>)
    ensures
        steps_view(p@) == editor_plan(),
{
    let none: Vec<String> = Vec::new();
    proof { assert(texts(none@) =~= Seq::<Seq<char>>::empty()); }
    only(Step::Run {
        call: cmd("ranger", none),
        rule: Rule::Started { missing: DockError::RangerFailed, on_wait: OnWait::Abort(Halt::Wait) },
        then: Then::PassOn,
    })
}

/// The steps of [`touch`].
pub open spec fn touch_plan(dockerfile: bool) -> Seq<StepView> {
    seq![StepView::Run {
        call: cmd_call("touch"@, seq![if dockerfile { "Dockerfile"@ } else { "compose.yaml"@ }]),
        rule: Rule::Started {
            missing: DockError::TouchNotFound,
            on_wait: OnWait::Fail(
                if dockerfile { DockError::DockerfileCreateFailed } else { DockError::ComposeCreateFailed },
            ),
        },
        then: Then::PassOn,
    }]
}

/// Creates an empty `Dockerfile` when `dockerfile` holds (the user said yes),
/// an empty `compose.yaml` otherwise.
pub fn touch(dockerfile: bool) -> (p: Vec<Step>)
    ensures
        steps_view(p@) == touch_plan(dockerfile),
{
    let (file, failure) = if dockerfile {
        ("Dockerfile", DockError::DockerfileCreateFailed)
    } else {
        ("compose.yaml", DockError::ComposeCreateFailed)
    };
    let args = strings(&[file]);
    proof { assert([file]@.map_values(|w: &str| w@) =~= seq![file@]); }
    only(Step::Run {
        call: cmd("touch", args),
        rule: Rule::Started { missing: DockError::TouchNotFound, on_wait: OnWait::Fail(failure) },
        then: Then::PassOn,
    })
}

/// The steps of [`ls`].
pub open spec fn ls_plan() -> Seq<StepView> {
    seq![StepView::Run {
        call: cmd_call("eza"@, seq!["--git"@, "--gitignore"@, "--tree"@, "--level"@, "4"@]),
        rule: Rule::Started { missing: DockError::ProgramNotFound, on_wait: OnWait::Abort(Halt::Wait) },
        then: Then::Ignore,
    }]
}

/// Shows the tree of the current folder, four levels deep, with eza; if eza
/// cannot be started nothing happens.
pub fn ls() -> (p: Vec<Step>)
    ensures
        steps_view(p@) == ls_plan(),
{
    let args = strings(&["--git", "--gitignore", "--tree", "--level", "4"]);
    proof {
        assert(["--git", "--gitignore", "--tree", "--level", "4"]@.map_values(|w: &str| w@)
            =~= seq!["--git"@, "--gitignore"@, "--tree"@, "--level"@, "4"@]);
    }
    only(Step::Run {
        call: cmd("eza", args),
        rule: Rule::Started { missing: DockError::ProgramNotFound, on_wait: OnWait::Abort(Halt::Wait) },
        then: Then::Ignore,
    })
}

/// The steps of [`ssh`].
pub open spec fn ssh_plan(server: Seq<char>, user: Seq<char>, port: Seq<char>) -> Seq<StepView> {
    seq![StepView::Run {
        call: cmd_call("ssh"@, seq!["-p "@ + port, at(user, server)]),
        rule: Rule::Started { missing: DockError::SshNotFound, on_wait: OnWait::Fail(DockError::SshNotFound) },
        then: Then::PassOn,
    }]
}

/// Opens an ssh session as `user` on `server`, on `port`.
pub fn ssh(server: &str, user: &str, port: &str) -> (p: Vec<Step>)
    ensures
        steps_view(p@) == ssh_plan(server@, user@, port@),
{
    let mut flag = text("-p ");
    flag.append(port);
    let target = user_at(user, server);
    let mut args: Vec<String> = Vec::new();
    args.push(flag);
    args.push(target);
    proof { assert(texts(args@) =~= seq!["-p "@ + port@, at(user@, server@)]); }
    only(Step::Run {
        call: cmd("ssh", args),
        rule: Rule::Started { missing: DockError::SshNotFound, on_wait: OnWait::Fail(DockError::SshNotFound) },
        then: Then::PassOn,
    })
}

/// The steps that check that the server `ip` answers on `port`: a message, a
/// pause of a second, then ncat; `then` says what a failure does.
pub open spec fn connexion_steps(ip: Seq<char>, port: Seq<char>, then: Then) -> Seq<StepView> {
    seq![
        StepView::Log("Checking the ssh connexion on "@ + ip),
        StepView::Pause(1),
        StepView::Probe { call: cmd_call("ncat"@, seq!["-z"@, ip, port]), ip: ip, then: then },
    ]
}

/// Checks that the server `ip` answers on `port`.
pub fn check_connexion(ip: &str, port: &str, then: Then) -> (p: Vec<Step>)
    ensures
        steps_view(p@) == connexion_steps(ip@, port@, then),
{
    let mut m = text("Checking the ssh connexion on ");
    m.append(ip);
    let mut p = only(Step::Log(m));
    push_step(&mut p, Step::Pause(1));
    let args = strings(&["-z", ip, port]);
    proof { assert(["-z", ip, port]@.map_values(|w: &str| w@) =~= seq!["-z"@, ip@, port@]); }
    push_step(&mut p, Step::Probe { call: cmd("ncat", args), ip: text(ip), then });
    proof { assert(steps_view(p@) =~= connexion_steps(ip@, port@, then)); }
    p
}

} // verus!
