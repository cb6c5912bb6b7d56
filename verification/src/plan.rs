//! Plans: the steps of a command, and what each step's outcome means.
//!
//! A plan is a list of steps. The program performs the steps in order, hands
//! each step's outcome to [`verdict`], prints the note it returns if any, and
//! then goes on, returns the error, or stops the program, as the verdict says.
//! When every step has gone on, the plan has succeeded.
use vstd::prelude::*;
use crate::error::DockError;
use crate::invocation::{text, CallView, Invocation};

verus! {

/// Why the program stops: the assertions of the tool that can fail, each
/// with the text the tool prints for it.
#[derive(Clone, Copy, Debug, PartialEq, Eq, Structural)]
pub enum Halt {
    /// `docker compose down` failed for a local container.
    LocalStop,
    /// `docker compose pull` failed for a local container.
    LocalUpdate,
    /// `docker compose up -d` failed for a local container.
    LocalStart,
    /// Stopping a container on a server failed.
    RemoteStop,
    /// Updating a container on a server failed.
    RemoteUpdate,
    /// Starting a container on a server failed.
    RemoteStart,
    /// A server could not be reached before a deployment.
    Unreachable,
    /// A value that the configuration must hold is missing or of another type.
    MissingValue,
    /// Waiting for a program that must be waited for failed.
    Wait,
    /// Clearing the terminal failed.
    Clear,
    /// Listing the images failed.
    ListImages,
    /// Listing the networks failed.
    ListNetworks,
    /// Listing the volumes failed.
    ListVolumes,
    /// Listing the containers failed.
    Ps,
    /// Moving into the chosen folder failed.
    ChangeDir,
    /// Copying a container's folder to a server failed.
    Upload,
    /// Listing the containers running on a server failed.
    Running,
    /// The local deployment failed.
    LocalDeploy,
    /// The remote deployment failed.
    RemoteDeploy,
}

/// The text printed when the program stops.
pub open spec fn spec_halt_message(h: Halt) -> Seq<char> {
    match h {
        Halt::LocalStop => "fail to stop container"@,
        Halt::LocalUpdate => "fail to update container"@,
        Halt::LocalStart => "fail to start container"@,
        Halt::RemoteStop => "Failed to stop container"@,
        Halt::RemoteUpdate => "Failed to update container"@,
        Halt::RemoteStart => "Failed to start the container"@,
        Halt::Unreachable => "Cannot deploy containers"@,
        Halt::MissingValue => "called `Option::unwrap()` on a `None` value"@,
        Halt::Wait => "assertion failed: child.wait().is_ok()"@,
        Halt::Clear => "assertion failed: clear().is_ok()"@,
        Halt::ListImages => "assertion failed: list_images().is_ok()"@,
        Halt::ListNetworks => "assertion failed: list_networks().is_ok()"@,
        Halt::ListVolumes => "assertion failed: list_volumes().is_ok()"@,
        Halt::Ps => "assertion failed: ps().is_ok()"@,
        Halt::ChangeDir => "assertion failed: cd(jump.as_str()).is_ok()"@,
        Halt::Upload => "assertion failed: upload_image(username, ip, image, port).is_ok()"@,
        Halt::Running => "assertion failed: running(username.as_str().unwrap_or_default(), ip.as_str().unwrap_or_default()).is_ok()"@,
        Halt::LocalDeploy => "assertion failed: deploy_local().is_ok()"@,
        Halt::RemoteDeploy => "assertion failed: deploy_to_remote().is_ok()"@,
    }
}

impl Halt {
    /// The text printed when the program stops.
    pub fn message(&self) -> (m: String)
        ensures
            m@ == spec_halt_message(*self),
    {
        let t: &str = match self {
            Halt::LocalStop => "fail to stop container",
            Halt::LocalUpdate => "fail to update container",
            Halt::LocalStart => "fail to start container",
            Halt::RemoteStop => "Failed to stop container",
            Halt::RemoteUpdate => "Failed to update container",
            Halt::RemoteStart => "Failed to start the container",
            Halt::Unreachable => "Cannot deploy containers",
            Halt::MissingValue => "called `Option::unwrap()` on a `None` value",
            Halt::Wait => "assertion failed: child.wait().is_ok()",
            Halt::Clear => "assertion failed: clear().is_ok()",
            Halt::ListImages => "assertion failed: list_images().is_ok()",
            Halt::ListNetworks => "assertion failed: list_networks().is_ok()",
            Halt::ListVolumes => "assertion failed: list_volumes().is_ok()",
            Halt::Ps => "assertion failed: ps().is_ok()",
            Halt::ChangeDir => "assertion failed: cd(jump.as_str()).is_ok()",
            Halt::Upload => "assertion failed: upload_image(username, ip, image, port).is_ok()",
            Halt::Running => "assertion failed: running(username.as_str().unwrap_or_default(), ip.as_str().unwrap_or_default()).is_ok()",
            Halt::LocalDeploy => "assertion failed: deploy_local().is_ok()",
            Halt::RemoteDeploy => "assertion failed: deploy_to_remote().is_ok()",
        };
        text(t)
    }
}

/// What a started program reported.
#[derive(Clone, Debug)]
pub enum RunReport {
    /// The program could not be started.
    NotStarted,
    /// The program started, but waiting for it failed with this error.
    WaitFailed(DockError),
    /// The program ran and exited, successfully or not.
    Exited { success: bool },
}

/// What the tool does when waiting for a started program fails.
#[derive(Clone, Debug)]
pub enum OnWait {
    /// Passes the error on.
    PassOn,
    /// Fails with this error in its place.
    Fail(DockError),
    /// Stops the program.
    Abort(Halt),
}

/// How a program's report becomes the result of running it.
#[derive(Clone, Debug)]
pub enum Rule {
    /// docker: it must start and exit successfully.
    Docker,
    /// A program that must start; its exit status does not matter.
    Started { missing: DockError, on_wait: OnWait },
}

/// What the caller does with a failed result.
#[derive(Clone, Debug)]
pub enum Then {
    /// Returns the error.
    PassOn,
    /// Returns this error in its place.
    Replace(DockError),
    /// Stops the program.
    Abort(Halt),
    /// Goes on as if nothing failed.
    Ignore,
}

/// What kind of file a path must be.
#[derive(Clone, Copy, Debug, PartialEq, Eq, Structural)]
pub enum PathKind {
    Dir,
    File,
}

/// One step of a plan.
#[derive(Debug)]
pub enum Step {
    /// Prints a message.
    Log(String),
    /// Waits some seconds.
    Pause(u64),
    /// Runs a program.
    Run { call: Invocation, rule: Rule, then: Then },
    /// Runs ncat to see whether the server `ip` answers.
    Probe { call: Invocation, ip: String, then: Then },
    /// Checks that `path` is a folder or a file; if it is not, `error` is the result.
    Expect { path: String, kind: PathKind, error: DockError, then: Then },
    /// Returns an error.
    Fail(DockError),
    /// Stops the program.
    Abort(Halt),
    /// Prints how many seconds have passed since the plan started.
    Elapsed,
}

/// What a [`Step`] holds, as text.
pub enum StepView {
    Log(Seq<char>),
    Pause(u64),
    Run { call: CallView, rule: Rule, then: Then },
    Probe { call: CallView, ip: Seq<char>, then: Then },
    Expect { path: Seq<char>, kind: PathKind, error: DockError, then: Then },
    Fail(DockError),
    Abort(Halt),
    Elapsed,
}

impl View for Step {
    type V = StepView;

    open spec fn view(&self) -> StepView {
        match self {
            Step::Log(m) => StepView::Log(m@),
            Step::Pause(s) => StepView::Pause(*s),
            Step::Run { call, rule, then } => StepView::Run { call: call@, rule: *rule, then: *then },
            Step::Probe { call, ip, then } => StepView::Probe { call: call@, ip: ip@, then: *then },
            Step::Expect { path, kind, error, then } => StepView::Expect {
                path: path@,
                kind: *kind,
                error: *error,
                then: *then,
            },
            Step::Fail(e) => StepView::Fail(*e),
            Step::Abort(h) => StepView::Abort(*h),
            Step::Elapsed => StepView::Elapsed,
        }
    }
}

/// The steps of a plan, as text.
pub open spec fn steps_view(p: Seq<Step>) -> Seq<StepView> {
    p.map_values(|s: Step| s@)
}

/// What performing a step gave.
#[derive(Debug)]
pub enum Report {
    /// Nothing to report (a log line, a pause, ...).
    Nothing,
    /// What the program that the step started reported.
    Ran(RunReport),
    /// Whether the path had the expected kind.
    Found(bool),
}

/// How a plan goes on after a step.
#[derive(Clone, Debug)]
pub enum Flow {
    /// To the next step.
    Continue,
    /// The plan ends with this error.
    Return(DockError),
    /// The program stops.
    Abort(Halt),
}

/// The meaning of a step's outcome: a message to print, if any, then how to go on.
#[derive(Debug)]
pub struct Verdict {
    pub note: Option<String>,
    pub flow: Flow,
}

/// The result of running a program, once its report is read.
#[derive(Debug)]
pub enum Settled {
    Done,
    Failed(DockError),
    Crashed(Halt),
}

/// The result of running a program under `rule`.
pub open spec fn settle(rule: Rule, r: RunReport) -> Settled {
    match rule {
        Rule::Docker => match r {
            RunReport::Exited { success: true } => Settled::Done,
            RunReport::Exited { success: false } => Settled::Failed(DockError::DockerFailed),
            _ => Settled::Failed(DockError::DockerNotFound),
        },
        Rule::Started { missing, on_wait } => match r {
            RunReport::NotStarted => Settled::Failed(missing),
            RunReport::WaitFailed(e) => match on_wait {
                OnWait::PassOn => Settled::Failed(e),
                OnWait::Fail(f) => Settled::Failed(f),
                OnWait::Abort(h) => Settled::Crashed(h),
            },
            RunReport::Exited { .. } => Settled::Done,
        },
    }
}

/// The result of running a program in the current folder and waiting for
/// it (the tool's `cmd`): whether it exited successfully, the error waiting
/// gave, or `ProgramNotFound` when it could not be started.
pub open spec fn cmd_result(r: RunReport) -> Result<bool, DockError> {
    match r {
        RunReport::NotStarted => Err(DockError::ProgramNotFound),
        RunReport::WaitFailed(e) => Err(e),
        RunReport::Exited { success } => Ok(success),
    }
}

/// The result of running a program in the current folder and waiting for it.
pub fn cmd_outcome(r: RunReport) -> (res: Result<bool, DockError>)
    ensures
        res == cmd_result(r),
{
    match r {
        RunReport::NotStarted => Err(DockError::ProgramNotFound),
        RunReport::WaitFailed(e) => Err(e),
        RunReport::Exited { success } => Ok(success),
    }
}

/// The result of probing a server with ncat, run as `cmd` runs programs: the
/// server answers when ncat exits successfully; ncat failing to run at all
/// is `NcatNotFound`.
pub open spec fn probe_settled(r: RunReport) -> Settled {
    match cmd_result(r) {
        Ok(true) => Settled::Done,
        Ok(false) => Settled::Failed(DockError::ConnexionFailed),
        Err(_) => Settled::Failed(DockError::NcatNotFound),
    }
}

/// What probing the server `ip` prints once ncat has answered.
pub open spec fn probe_note(ip: Seq<char>, r: RunReport) -> Option<Seq<char>> {
    match cmd_result(r) {
        Ok(true) => Some("Can communicate to the "@ + ip + " server"@),
        Ok(false) => Some("Cannot communicate to the "@ + ip + " server"@),
        Err(_) => None,
    }
}

/// How the caller goes on with a result.
pub open spec fn follow(s: Settled, then: Then) -> Flow {
    match s {
        Settled::Done => Flow::Continue,
        Settled::Crashed(h) => Flow::Abort(h),
        Settled::Failed(e) => match then {
            Then::PassOn => Flow::Return(e),
            Then::Replace(f) => Flow::Return(f),
            Then::Abort(h) => Flow::Abort(h),
            Then::Ignore => Flow::Continue,
        },
    }
}

/// The note a step's outcome prints.
pub open spec fn spec_note(s: StepView, r: Report) -> Option<Seq<char>> {
    match s {
        StepView::Probe { ip, .. } => match r {
            Report::Ran(rr) => probe_note(ip, rr),
            _ => None,
        },
        _ => None,
    }
}

/// How a plan goes on after a step and its outcome.
pub open spec fn spec_flow(s: StepView, r: Report) -> Flow {
    match s {
        StepView::Run { rule, then, .. } => match r {
            Report::Ran(rr) => follow(settle(rule, rr), then),
            _ => Flow::Continue,
        },
        StepView::Probe { then, .. } => match r {
            Report::Ran(rr) => follow(probe_settled(rr), then),
            _ => Flow::Continue,
        },
        StepView::Expect { error, then, .. } => match r {
            Report::Found(true) => Flow::Continue,
            _ => follow(Settled::Failed(error), then),
        },
        StepView::Fail(e) => Flow::Return(e),
        StepView::Abort(h) => Flow::Abort(h),
        _ => Flow::Continue,
    }
}

/// The text of an optional string.
pub open spec fn note_text(n: Option<String>) -> Option<Seq<char>> {
    match n {
        Some(s) => Some(s@),
        None => None,
    }
}

/// The result of running a program under `rule`.
fn settle_run(rule: Rule, r: RunReport) -> (s: Settled)
    ensures
        s == settle(rule, r),
{
    match rule {
        Rule::Docker => match r {
            RunReport::Exited { success } => if success {
                Settled::Done
            } else {
                Settled::Failed(DockError::DockerFailed)
            },
            _ => Settled::Failed(DockError::DockerNotFound),
        },
        Rule::Started { missing, on_wait } => match r {
            RunReport::NotStarted => Settled::Failed(missing),
            RunReport::WaitFailed(e) => match on_wait {
                OnWait::PassOn => Settled::Failed(e),
                OnWait::Fail(f) => Settled::Failed(f),
                OnWait::Abort(h) => Settled::Crashed(h),
            },
            RunReport::Exited { .. } => Settled::Done,
        },
    }
}

/// How the caller goes on with a result.
fn follow_exec(s: Settled, then: Then) -> (f: Flow)
    ensures
        f == follow(s, then),
{
    match s {
        Settled::Done => Flow::Continue,
        Settled::Crashed(h) => Flow::Abort(h),
        Settled::Failed(e) => match then {
            Then::PassOn => Flow::Return(e),
            Then::Replace(f) => Flow::Return(f),
            Then::Abort(h) => Flow::Abort(h),
            Then::Ignore => Flow::Continue,
        },
    }
}

/// `"<prefix><ip> server"`.
fn server_line(prefix: &str, ip: &str) -> (m: String)
    ensures
        m@ == prefix@ + ip@ + " server"@,
{
    let mut m = text(prefix);
    m.append(ip);
    m.append(" server");
    m
}

/// What a step's outcome means: the message to print, if any, and how the
/// plan goes on. A report of another kind than the step gives (such as a
/// found path for a program) is read as no outcome at all.
pub fn verdict(step: Step, report: Report) -> (v: Verdict)
    ensures
        note_text(v.note) == spec_note(step@, report),
        v.flow == spec_flow(step@, report),
{
    match step {
        Step::Run { rule, then, .. } => match report {
            Report::Ran(rr) => Verdict { note: None, flow: follow_exec(settle_run(rule, rr), then) },
            _ => Verdict { note: None, flow: Flow::Continue },
        },
        Step::Probe { ip, then, .. } => match report {
            Report::Ran(rr) => match cmd_outcome(rr) {
                Ok(success) => if success {
                    let note = server_line("Can communicate to the ", ip.as_str());
                    Verdict { note: Some(note), flow: Flow::Continue }
                } else {
                    let note = server_line("Cannot communicate to the ", ip.as_str());
                    Verdict { note: Some(note), flow: follow_exec(Settled::Failed(DockError::ConnexionFailed), then) }
                },
                Err(_) => Verdict { note: None, flow: follow_exec(Settled::Failed(DockError::NcatNotFound), then) },
            },
            _ => Verdict { note: None, flow: Flow::Continue },
        },
        Step::Expect { error, then, .. } => match report {
            Report::Found(found) => if found {
                Verdict { note: None, flow: Flow::Continue }
            } else {
                Verdict { note: None, flow: follow_exec(Settled::Failed(error), then) }
            },
            _ => Verdict { note: None, flow: follow_exec(Settled::Failed(error), then) },
        },
        Step::Fail(e) => Verdict { note: None, flow: Flow::Return(e) },
        Step::Abort(h) => Verdict { note: None, flow: Flow::Abort(h) },
        _ => Verdict { note: None, flow: Flow::Continue },
    }
}


/// Adds a step at the end of a plan.
pub fn push_step(plan: &mut Vec<Step>, s: Step)
    ensures
        steps_view(final(plan)@) == steps_view(old(plan)@).push(s@),
{
    let ghost before = plan@;
    let ghost sv = s@;
    plan.push(s);
    proof {
        assert(plan@ =~= before.push(plan@[before.len() as int]));
        assert(steps_view(plan@) =~= steps_view(before).push(sv));
    }
}

/// Adds the steps of `more` at the end of a plan.
pub fn extend(plan: &mut Vec<Step>, more: Vec<Step>)
    ensures
        steps_view(final(plan)@) == steps_view(old(plan)@) + steps_view(more@),
{
    let ghost before = plan@;
    let mut more = more;
    let ghost m = more@;
    plan.append(&mut more);
    proof {
        assert(plan@ =~= before + m);
        assert(steps_view(plan@) =~= steps_view(before) + steps_view(m));
    }
}

/// A plan of one step.
pub fn only(s: Step) -> (p: Vec<Step>)
    ensures
        steps_view(p@) == seq![s@],
{
    let mut p: Vec<Step> = Vec::new();
    push_step(&mut p, s);
    proof {
        assert(steps_view(p@) =~= seq![s@]);
    }
    p
}

} // verus!
