//! The interactive chores: removing, stopping, starting, restarting and
//! pulling images or containers, reading logs, and jumping between folders.
//!
//! Each chore repeats a round until the user declines another one. A docker
//! round clears the terminal, lists images or containers, asks what to act
//! on, runs docker, and on success may list the containers again before
//! asking whether to go on. A jump round asks for a folder, moves into it,
//! and asks whether to go on.
//!
//! The chores are state machines: [`next`] takes the stage a chore is at and
//! what came of the action it asked for, and returns the next stage and the
//! next action. The program performs the action and reports back.
use vstd::prelude::*;
use crate::error::DockError;
use crate::invocation::{clear_call, clear_screen, docker, docker_call, text, texts, CallView, Invocation};
use crate::plan::{follow, settle, Flow, Halt, OnWait, Rule, RunReport, Settled, Then};

verus! {

/// The chores.
#[derive(Clone, Copy, Debug, PartialEq, Eq, Structural)]
pub enum Chore {
    /// Removes images (`rm`).
    Remove,
    /// Stops containers.
    Stop,
    /// Runs images as containers.
    Start,
    /// Restarts containers.
    Restart,
    /// Pulls images.
    Pull,
    /// Shows the logs of containers.
    Logs,
    /// Moves into folders (`cd`).
    Jump,
}

/// Where a chore stands: the action it last asked for, whose outcome it awaits.
#[derive(Clone, Copy, Debug, PartialEq, Eq, Structural)]
pub enum Stage {
    /// Not started yet.
    Idle,
    /// The terminal is being cleared.
    Clearing,
    /// Images or containers are being listed.
    Listing,
    /// The user is answering the chore's questions.
    Asking,
    /// docker is running the chore's command.
    Running,
    /// The containers are being listed after the command.
    Showing,
    /// The user is asked whether to go on.
    Confirming,
    /// The user is choosing a folder.
    Picking,
    /// The program is moving into the chosen folder.
    Changing,
    /// The chore is over.
    Finished,
}

/// A question to the user, with the answer given when the user just
/// presses enter, and whether a failing prompt stops the program (otherwise
/// the answer is empty).
#[derive(Debug)]
pub struct Prompt {
    pub message: String,
    pub default: Option<String>,
    pub strict: bool,
}

/// What a [`Prompt`] holds, as text.
pub struct PromptView {
    pub message: Seq<char>,
    pub default: Option<Seq<char>>,
    pub strict: bool,
}

impl View for Prompt {
    type V = PromptView;

    open spec fn view(&self) -> PromptView {
        PromptView { message: self.message@, default: crate::invocation::opt_text(self.default), strict: self.strict }
    }
}

/// What the program must do next for a chore.
#[derive(Debug)]
pub enum Action {
    /// Runs a program and reports what it did.
    Run(Invocation),
    /// Asks these questions and reports the answers, in order.
    Ask(Vec<Prompt>),
    /// Lets the user choose one of the folders under the current one, with
    /// this message, and reports it.
    Pick(String),
    /// Moves into this folder and reports whether it worked.
    ChangeDir(String),
    /// Asks this yes-or-no question (no by default) and reports the answer.
    Confirm(String),
    /// The chore is over, with this result.
    Finish(Result<(), DockError>),
    /// Stops the program.
    Abort(Halt),
}

/// What an [`Action`] holds, as text.
pub enum ActionView {
    Run(CallView),
    Ask(Seq<PromptView>),
    Pick(Seq<char>),
    ChangeDir(Seq<char>),
    Confirm(Seq<char>),
    Finish(Result<(), DockError>),
    Abort(Halt),
}

impl View for Action {
    type V = ActionView;

    open spec fn view(&self) -> ActionView {
        match self {
            Action::Run(c) => ActionView::Run(c@),
            Action::Ask(ps) => ActionView::Ask(ps@.map_values(|p: Prompt| p@)),
            Action::Pick(m) => ActionView::Pick(m@),
            Action::ChangeDir(d) => ActionView::ChangeDir(d@),
            Action::Confirm(q) => ActionView::Confirm(q@),
            Action::Finish(r) => ActionView::Finish(*r),
            Action::Abort(h) => ActionView::Abort(*h),
        }
    }
}

/// What came of the last action.
#[derive(Debug)]
pub enum Event {
    /// The chore is starting.
    Begin,
    /// What the program that ran reported.
    Ran(RunReport),
    /// The user's answers, or the chosen folder.
    Answered(Vec<String>),
    /// The user's yes or no.
    Confirmed(bool),
    /// Whether moving into the folder worked.
    Changed(bool),
}

/// What an [`Event`] holds, as text.
pub enum EventView {
    Begin,
    Ran(RunReport),
    Answered(Seq<Seq<char>>),
    Confirmed(bool),
    Changed(bool),
}

impl View for Event {
    type V = EventView;

    open spec fn view(&self) -> EventView {
        match self {
            Event::Begin => EventView::Begin,
            Event::Ran(r) => EventView::Ran(*r),
            Event::Answered(a) => EventView::Answered(texts(a@)),
            Event::Confirmed(b) => EventView::Confirmed(*b),
            Event::Changed(b) => EventView::Changed(*b),
        }
    }
}

/// A question, as text.
pub open spec fn ask(message: Seq<char>, default: Option<Seq<char>>, strict: bool) -> PromptView {
    PromptView { message, default, strict }
}

/// The questions of a docker chore.
pub open spec fn prompts_of(c: Chore) -> Seq<PromptView> {
    match c {
        Chore::Remove => seq![ask("please enter the name or the id of the image to remove : "@, None, false)],
        Chore::Stop => seq![ask("please enter the name or the id of the container to stop : "@, None, false)],
        Chore::Start => seq![
            ask("please enter the name or the id of the image to run : "@, None, true),
            ask("please enter the host port  : "@, None, true),
            ask("please enter the container port  : "@, None, true),
        ],
        Chore::Restart => seq![ask("please enter the name or the id of the image to restart : "@, None, true)],
        Chore::Pull => seq![
            ask("please enter the name or the id of the image to pull : "@, None, true),
            ask("please enter the image tag to pull : "@, Some("latest"@), true),
        ],
        Chore::Logs => seq![ask("please enter the name or the id of the image to show logs : "@, None, true)],
        Chore::Jump => Seq::empty(),
    }
}

/// The `i`-th answer, or the empty text when there are fewer answers.
pub open spec fn answer(a: Seq<Seq<char>>, i: int) -> Seq<char> {
    if 0 <= i < a.len() { a[i] } else { Seq::empty() }
}

/// The docker command of a chore, given the answers to its questions.
pub open spec fn command_of(c: Chore, a: Seq<Seq<char>>) -> CallView {
    match c {
        Chore::Remove => docker_call("image"@, seq!["rm"@, answer(a, 0)], "/tmp"@),
        Chore::Stop => docker_call("stop"@, seq![answer(a, 0)], "/tmp"@),
        Chore::Start => docker_call(
            "run"@,
            seq!["-d"@, "-p"@, answer(a, 1) + ":"@ + answer(a, 2), answer(a, 0)],
            "/tmp"@,
        ),
        Chore::Restart => docker_call("restart"@, seq![answer(a, 0)], "/tmp"@),
        Chore::Pull => docker_call("pull"@, seq![answer(a, 0) + ":"@ + answer(a, 1)], "/tmp"@),
        _ => docker_call("logs"@, seq![answer(a, 0)], "/tmp"@),
    }
}

/// `docker ps -a`.
pub open spec fn ps_call() -> CallView {
    docker_call("ps"@, seq!["-a"@], "/tmp"@)
}

/// `docker images`.
pub open spec fn images_call() -> CallView {
    docker_call("images"@, seq![], "/tmp"@)
}

/// What a docker chore lists before asking: containers for those that act
/// on containers, images for the others.
pub open spec fn listing_of(c: Chore) -> CallView {
    match c {
        Chore::Stop => ps_call(),
        Chore::Restart => ps_call(),
        _ => images_call(),
    }
}

/// Whether a chore lists the containers after its command succeeded.
pub open spec fn shows_ps(c: Chore) -> bool {
    c == Chore::Start || c == Chore::Restart || c == Chore::Pull || c == Chore::Logs
}

/// The error a chore ends with when its command fails; `None` for the chores
/// that start a new round instead.
pub open spec fn failure_of(c: Chore) -> Option<DockError> {
    match c {
        Chore::Remove => Some(DockError::RemoveFailed),
        Chore::Stop => Some(DockError::StopFailed),
        Chore::Start => Some(DockError::RunFailed),
        Chore::Restart => Some(DockError::RestartFailed),
        _ => None,
    }
}

/// The question whether to go on.
pub open spec fn question_of(c: Chore) -> Seq<char> {
    match c {
        Chore::Remove => "remove an other image ? :"@,
        Chore::Stop => "stop an other container ? :"@,
        Chore::Start => "run an other container ? :"@,
        Chore::Restart => "restart an other container ? :"@,
        Chore::Pull => "pull an other image ? :"@,
        Chore::Logs => "show logs of another image ? :"@,
        Chore::Jump => "jump on an another directory ? "@,
    }
}

/// The message of the folder choice.
pub open spec fn pick_message() -> Seq<char> {
    "Select a folder for jump : "@
}

/// How clearing the terminal is read: `clear` must start, and waiting for
/// it must not fail.
pub open spec fn clear_rule() -> Rule {
    Rule::Started { missing: DockError::ClearFailed, on_wait: OnWait::Abort(Halt::Wait) }
}

/// Why a docker chore stops when its listing fails.
pub open spec fn listing_halt(c: Chore) -> Halt {
    match c {
        Chore::Stop => Halt::Ps,
        Chore::Restart => Halt::Ps,
        _ => Halt::ListImages,
    }
}

/// The first stage and action of a round.
pub open spec fn round(c: Chore) -> (Stage, ActionView) {
    if c == Chore::Jump {
        (Stage::Picking, ActionView::Pick(pick_message()))
    } else {
        (Stage::Clearing, ActionView::Run(clear_call()))
    }
}

/// How a chore goes on after a step that must succeed.
pub open spec fn after_checked(r: Flow, stage: Stage, action: ActionView) -> (Stage, ActionView) {
    match r {
        Flow::Abort(h) => (Stage::Finished, ActionView::Abort(h)),
        _ => (stage, action),
    }
}

/// Whether an event is the outcome of the action a stage awaits.
pub open spec fn answers(c: Chore, s: Stage, e: EventView) -> bool {
    match s {
        Stage::Idle => e is Begin,
        Stage::Clearing | Stage::Listing | Stage::Running | Stage::Showing => e is Ran,
        Stage::Asking => c != Chore::Jump && (e matches EventView::Answered(a) && a.len() == prompts_of(c).len()),
        Stage::Picking => e matches EventView::Answered(a) && a.len() == 1,
        Stage::Confirming => e is Confirmed,
        Stage::Changing => e is Changed,
        Stage::Finished => false,
    }
}

/// The chores' transitions: the next stage and action, given the stage and
/// the outcome of its action.
pub open spec fn spec_next(c: Chore, s: Stage, e: EventView) -> (Stage, ActionView) {
    match (s, e) {
        (Stage::Idle, _) => round(c),
        (Stage::Clearing, EventView::Ran(r)) => after_checked(
            follow(settle(clear_rule(), r), Then::Abort(Halt::Clear)),
            Stage::Listing,
            ActionView::Run(listing_of(c)),
        ),
        (Stage::Listing, EventView::Ran(r)) => after_checked(
            follow(settle(Rule::Docker, r), Then::Abort(listing_halt(c))),
            Stage::Asking,
            ActionView::Ask(prompts_of(c)),
        ),
        (Stage::Asking, EventView::Answered(a)) => if c == Chore::Jump {
            (Stage::Finished, ActionView::Finish(Ok(())))
        } else {
            (Stage::Running, ActionView::Run(command_of(c, a)))
        },
        (Stage::Running, EventView::Ran(r)) => match settle(Rule::Docker, r) {
            Settled::Done => if shows_ps(c) {
                (Stage::Showing, ActionView::Run(ps_call()))
            } else {
                (Stage::Confirming, ActionView::Confirm(question_of(c)))
            },
            _ => match failure_of(c) {
                Some(err) => (Stage::Finished, ActionView::Finish(Err(err))),
                None => round(c),
            },
        },
        (Stage::Showing, EventView::Ran(r)) => after_checked(
            follow(settle(Rule::Docker, r), Then::Abort(Halt::Ps)),
            Stage::Confirming,
            ActionView::Confirm(question_of(c)),
        ),
        (Stage::Confirming, EventView::Confirmed(yes)) => if yes {
            round(c)
        } else {
            (Stage::Finished, ActionView::Finish(Ok(())))
        },
        (Stage::Picking, EventView::Answered(a)) => (Stage::Changing, ActionView::ChangeDir(answer(a, 0))),
        (Stage::Changing, EventView::Changed(ok)) => if ok {
            (Stage::Confirming, ActionView::Confirm(question_of(c)))
        } else {
            (Stage::Finished, ActionView::Abort(Halt::ChangeDir))
        },
        _ => (Stage::Finished, ActionView::Finish(Ok(()))),
    }
}

/// A question.
fn prompt(message: &str, default: Option<&str>, strict: bool) -> (p: Prompt)
    ensures
        p@ == ask(message@, match default { Some(d) => Some(d@), None => None }, strict),
{
    let default = match default {
        Some(d) => Some(text(d)),
        None => None,
    };
    Prompt { message: text(message), default, strict }
}

/// The questions of a docker chore, in the order they are asked.
pub fn prompts(c: Chore) -> (ps: Vec<Prompt>)
    ensures
        ps@.map_values(|p: Prompt| p@) == prompts_of(c),
{
    let mut ps: Vec<Prompt> = Vec::new();
    match c {
        Chore::Remove => ps.push(prompt("please enter the name or the id of the image to remove : ", None, false)),
        Chore::Stop => ps.push(prompt("please enter the name or the id of the container to stop : ", None, false)),
        Chore::Start => {
            ps.push(prompt("please enter the name or the id of the image to run : ", None, true));
            ps.push(prompt("please enter the host port  : ", None, true));
            ps.push(prompt("please enter the container port  : ", None, true));
        },
        Chore::Restart => ps.push(prompt("please enter the name or the id of the image to restart : ", None, true)),
        Chore::Pull => {
            ps.push(prompt("please enter the name or the id of the image to pull : ", None, true));
            ps.push(prompt("please enter the image tag to pull : ", Some("latest"), true));
        },
        Chore::Logs => ps.push(prompt("please enter the name or the id of the image to show logs : ", None, true)),
        Chore::Jump => {},
    }
    proof {
        assert(ps@.map_values(|p: Prompt| p@) =~= prompts_of(c));
    }
    ps
}

/// `a` followed by `:` and `b`.
fn colon(a: &str, b: &str) -> (r: String)
    ensures
        r@ == a@ + ":"@ + b@,
{
    let mut r = text(a);
    r.append(":");
    r.append(b);
    r
}

/// The `i`-th answer, or the empty text when there are fewer answers.
pub(crate) fn answer_at(a: &Vec<String>, i: usize) -> (r: String)
    ensures
        r@ == answer(texts(a@), i as int),
{
    if i < a.len() {
        a[i].clone()
    } else {
        proof { reveal_strlit(""); }
        text("")
    }
}

/// The docker command of a chore, given the answers to its questions
/// (missing answers read as empty); `None` for the jump, which runs none.
pub fn command(c: Chore, a: &Vec<String>) -> (i: Option<Invocation>)
    ensures
        match i {
            Some(i) => c != Chore::Jump && i@ == command_of(c, texts(a@)),
            None => c == Chore::Jump,
        },
{
    if c == Chore::Jump {
        return None;
    }
    let mut args: Vec<String> = Vec::new();
    let verb = match c {
        Chore::Remove => {
            args.push(text("rm"));
            args.push(answer_at(a, 0));
            "image"
        },
        Chore::Stop => {
            args.push(answer_at(a, 0));
            "stop"
        },
        Chore::Start => {
            args.push(text("-d"));
            args.push(text("-p"));
            let host = answer_at(a, 1);
            let inside = answer_at(a, 2);
            args.push(colon(host.as_str(), inside.as_str()));
            args.push(answer_at(a, 0));
            "run"
        },
        Chore::Restart => {
            args.push(answer_at(a, 0));
            "restart"
        },
        Chore::Pull => {
            let image = answer_at(a, 0);
            let tag = answer_at(a, 1);
            args.push(colon(image.as_str(), tag.as_str()));
            "pull"
        },
        _ => {
            args.push(answer_at(a, 0));
            "logs"
        },
    };
    proof {
        reveal_strlit("");
        assert(texts(args@) =~= command_of(c, texts(a@)).args.drop_first());
    }
    let i = docker(verb, args, "/tmp");
    proof {
        assert(i@.args =~= command_of(c, texts(a@)).args);
    }
    Some(i)
}

/// `docker ps -a`.
fn ps_invocation() -> (i: Invocation)
    ensures
        i@ == ps_call(),
{
    let mut args: Vec<String> = Vec::new();
    args.push(text("-a"));
    proof { assert(texts(args@) =~= seq!["-a"@]); }
    docker("ps", args, "/tmp")
}

/// What a docker chore lists before asking.
pub fn listing(c: Chore) -> (i: Invocation)
    ensures
        i@ == listing_of(c),
{
    match c {
        Chore::Stop | Chore::Restart => ps_invocation(),
        _ => {
            let args: Vec<String> = Vec::new();
            proof { assert(texts(args@) =~= Seq::<Seq<char>>::empty()); }
            docker("images", args, "/tmp")
        },
    }
}

/// The question whether to go on.
pub fn question(c: Chore) -> (q: String)
    ensures
        q@ == question_of(c),
{
    match c {
        Chore::Remove => text("remove an other image ? :"),
        Chore::Stop => text("stop an other container ? :"),
        Chore::Start => text("run an other container ? :"),
        Chore::Restart => text("restart an other container ? :"),
        Chore::Pull => text("pull an other image ? :"),
        Chore::Logs => text("show logs of another image ? :"),
        Chore::Jump => text("jump on an another directory ? "),
    }
}

/// The first stage and action of a round.
fn start_round(c: Chore) -> (r: (Stage, Action))
    ensures
        (r.0, r.1@) == round(c),
{
    if c == Chore::Jump {
        (Stage::Picking, Action::Pick(text("Select a folder for jump : ")))
    } else {
        (Stage::Clearing, Action::Run(clear_screen()))
    }
}

/// Whether a program that must succeed did; `stop` is why the program stops
/// when it did not.
fn checked(rule: Rule, r: RunReport, stop: Halt) -> (f: Option<Halt>)
    ensures
        match f {
            Some(h) => follow(settle(rule, r), Then::Abort(stop)) == Flow::Abort(h),
            None => follow(settle(rule, r), Then::Abort(stop)) == Flow::Continue,
        },
{
    match rule {
        Rule::Docker => match r {
            RunReport::Exited { success } => if success { None } else { Some(stop) },
            _ => Some(stop),
        },
        Rule::Started { missing, on_wait } => match r {
            RunReport::NotStarted => Some(stop),
            RunReport::WaitFailed(_) => match on_wait {
                OnWait::Abort(h) => Some(h),
                _ => Some(stop),
            },
            RunReport::Exited { .. } => None,
        },
    }
}

/// The chores' transitions: the next stage and action, given the stage a
/// chore is at and the outcome of the action it asked for.
pub fn next(c: Chore, s: Stage, e: Event) -> (r: (Stage, Action))
    ensures
        (r.0, r.1@) == spec_next(c, s, e@),
{
    match s {
        Stage::Idle => start_round(c),
        Stage::Clearing => match e {
            Event::Ran(r) => match checked(
                Rule::Started { missing: DockError::ClearFailed, on_wait: OnWait::Abort(Halt::Wait) },
                r,
                Halt::Clear,
            ) {
                Some(h) => (Stage::Finished, Action::Abort(h)),
                None => (Stage::Listing, Action::Run(listing(c))),
            },
            _ => (Stage::Finished, Action::Finish(Ok(()))),
        },
        Stage::Listing => match e {
            Event::Ran(r) => match checked(
                Rule::Docker,
                r,
                if c == Chore::Stop || c == Chore::Restart { Halt::Ps } else { Halt::ListImages },
            ) {
                Some(h) => (Stage::Finished, Action::Abort(h)),
                None => (Stage::Asking, Action::Ask(prompts(c))),
            },
            _ => (Stage::Finished, Action::Finish(Ok(()))),
        },
        Stage::Asking => match e {
            Event::Answered(a) => match command(c, &a) {
                Some(call) => (Stage::Running, Action::Run(call)),
                None => (Stage::Finished, Action::Finish(Ok(()))),
            },
            _ => (Stage::Finished, Action::Finish(Ok(()))),
        },
        Stage::Running => match e {
            Event::Ran(r) => {
                let ok = match r {
                    RunReport::Exited { success } => success,
                    _ => false,
                };
                if ok {
                    if c == Chore::Start || c == Chore::Restart || c == Chore::Pull || c == Chore::Logs {
                        (Stage::Showing, Action::Run(ps_invocation()))
                    } else {
                        (Stage::Confirming, Action::Confirm(question(c)))
                    }
                } else {
                    match c {
                        Chore::Remove => (Stage::Finished, Action::Finish(Err(DockError::RemoveFailed))),
                        Chore::Stop => (Stage::Finished, Action::Finish(Err(DockError::StopFailed))),
                        Chore::Start => (Stage::Finished, Action::Finish(Err(DockError::RunFailed))),
                        Chore::Restart => (Stage::Finished, Action::Finish(Err(DockError::RestartFailed))),
                        _ => start_round(c),
                    }
                }
            },
            _ => (Stage::Finished, Action::Finish(Ok(()))),
        },
        Stage::Showing => match e {
            Event::Ran(r) => match checked(Rule::Docker, r, Halt::Ps) {
                Some(h) => (Stage::Finished, Action::Abort(h)),
                None => (Stage::Confirming, Action::Confirm(question(c))),
            },
            _ => (Stage::Finished, Action::Finish(Ok(()))),
        },
        Stage::Confirming => match e {
            Event::Confirmed(yes) => if yes {
                start_round(c)
            } else {
                (Stage::Finished, Action::Finish(Ok(())))
            },
            _ => (Stage::Finished, Action::Finish(Ok(()))),
        },
        Stage::Picking => match e {
            Event::Answered(a) => (Stage::Changing, Action::ChangeDir(answer_at(&a, 0))),
            _ => (Stage::Finished, Action::Finish(Ok(()))),
        },
        Stage::Changing => match e {
            Event::Changed(ok) => if ok {
                (Stage::Confirming, Action::Confirm(question(c)))
            } else {
                (Stage::Finished, Action::Abort(Halt::ChangeDir))
            },
            _ => (Stage::Finished, Action::Finish(Ok(()))),
        },
        Stage::Finished => (Stage::Finished, Action::Finish(Ok(()))),
    }
}

} // verus!
