//! The main menu: its tasks, what each selection does, and its title.
use vstd::prelude::*;
use crate::invocation::text;
use crate::chore::{answer, answer_at, ask, Chore, Prompt, PromptView};
use crate::commands::{
    build, build_plan, clear, clear_plan, editor, editor_plan, list, list_plan, login, login_plan, logout,
    logout_plan, ls, ls_plan, ps, ps_plan, publish, publish_plan, ssh, ssh_plan,
};
use crate::invocation::texts;
use crate::plan::{steps_view, Step, StepView};

verus! {

/// What the user asked for in the main menu.
#[derive(Clone, Copy, Debug, PartialEq, Eq, Structural)]
pub enum MenuChoice {
    Login,
    Logout,
    Clear,
    Deploy,
    Check,
    Cd,
    Ssh,
    Stop,
    Logs,
    List,
    Ls,
    Start,
    Restart,
    Rm,
    Touch,
    Ps,
    Pull,
    Build,
    Push,
    Editor,
    Exit,
    /// Anything else: the menu is shown again.
    Nothing,
}

/// The tasks the menu offers, in the order shown.
pub open spec fn menu_tasks() -> Seq<Seq<char>> {
    seq![
        "build"@, "clear"@, "check"@, "cd"@, "deploy"@, "exit"@, "editor"@, "ls"@, "list"@, "login"@,
        "logout"@, "push"@, "pull"@, "ps"@, "rm"@, "start"@, "restart"@, "stop"@, "ssh"@, "touch"@,
        "ps"@,
    ]
}

/// What a selection asks for.
pub open spec fn choice_of(s: Seq<char>) -> MenuChoice {
    if s == "login"@ { MenuChoice::Login }
    else if s == "logout"@ { MenuChoice::Logout }
    else if s == "clear"@ { MenuChoice::Clear }
    else if s == "deploy"@ { MenuChoice::Deploy }
    else if s == "check"@ { MenuChoice::Check }
    else if s == "cd"@ { MenuChoice::Cd }
    else if s == "ssh"@ { MenuChoice::Ssh }
    else if s == "stop"@ { MenuChoice::Stop }
    else if s == "logs"@ { MenuChoice::Logs }
    else if s == "list"@ { MenuChoice::List }
    else if s == "ls"@ { MenuChoice::Ls }
    else if s == "start"@ { MenuChoice::Start }
    else if s == "restart"@ { MenuChoice::Restart }
    else if s == "rm"@ { MenuChoice::Rm }
    else if s == "touch"@ { MenuChoice::Touch }
    else if s == "ps"@ { MenuChoice::Ps }
    else if s == "pull"@ { MenuChoice::Pull }
    else if s == "build"@ { MenuChoice::Build }
    else if s == "push"@ { MenuChoice::Push }
    else if s == "editor"@ { MenuChoice::Editor }
    else if s == "exit"@ { MenuChoice::Exit }
    else { MenuChoice::Nothing }
}

/// The tasks the menu offers, in the order shown.
pub fn tasks() -> (v: Vec<String>)
    ensures
        crate::invocation::texts(v@) == menu_tasks(),
{
    let v = crate::invocation::strings(&[
        "build", "clear", "check", "cd", "deploy", "exit", "editor", "ls", "list", "login", "logout",
        "push", "pull", "ps", "rm", "start", "restart", "stop", "ssh", "touch", "ps",
    ]);
    proof {
        assert([
            "build", "clear", "check", "cd", "deploy", "exit", "editor", "ls", "list", "login", "logout",
            "push", "pull", "ps", "rm", "start", "restart", "stop", "ssh", "touch", "ps",
        ]@.map_values(|w: &str| w@) =~= menu_tasks());
    }
    v
}

/// Whether `s` is the text `word`.
fn is(s: &String, word: &str) -> (b: bool)
    ensures
        b == (s@ == word@),
{
    s.eq(&text(word))
}

/// What a selection asks for.
pub fn dispatch(selected: &str) -> (c: MenuChoice)
    ensures
        c == choice_of(selected@),
{
    let s = text(selected);
    if is(&s, "login") { MenuChoice::Login }
    else if is(&s, "logout") { MenuChoice::Logout }
    else if is(&s, "clear") { MenuChoice::Clear }
    else if is(&s, "deploy") { MenuChoice::Deploy }
    else if is(&s, "check") { MenuChoice::Check }
    else if is(&s, "cd") { MenuChoice::Cd }
    else if is(&s, "ssh") { MenuChoice::Ssh }
    else if is(&s, "stop") { MenuChoice::Stop }
    else if is(&s, "logs") { MenuChoice::Logs }
    else if is(&s, "list") { MenuChoice::List }
    else if is(&s, "ls") { MenuChoice::Ls }
    else if is(&s, "start") { MenuChoice::Start }
    else if is(&s, "restart") { MenuChoice::Restart }
    else if is(&s, "rm") { MenuChoice::Rm }
    else if is(&s, "touch") { MenuChoice::Touch }
    else if is(&s, "ps") { MenuChoice::Ps }
    else if is(&s, "pull") { MenuChoice::Pull }
    else if is(&s, "build") { MenuChoice::Build }
    else if is(&s, "push") { MenuChoice::Push }
    else if is(&s, "editor") { MenuChoice::Editor }
    else if is(&s, "exit") { MenuChoice::Exit }
    else { MenuChoice::Nothing }
}

/// The last part of a path: what follows its last separator, or the whole
/// path when it has none.
pub open spec fn last_segment(s: Seq<char>, sep: char) -> Seq<char>
    decreases s.len(),
{
    if s.len() == 0 {
        s
    } else if s.last() == sep {
        Seq::empty()
    } else {
        last_segment(s.drop_last(), sep).push(s.last())
    }
}

/// The name of the project: the last part of the current folder's path, or
/// `.` when the current folder cannot be known.
pub open spec fn spec_project_name(cwd: Option<Seq<char>>, sep: char) -> Seq<char> {
    match cwd {
        Some(path) => last_segment(path, sep),
        None => "."@,
    }
}

/// The name of the project, given the current folder's path (if known) and
/// the platform's path separator.
pub fn project_name(cwd: Option<&str>, sep: char) -> (name: String)
    ensures
        name@ == spec_project_name(match cwd { Some(p) => Some(p@), None => None }, sep),
{
    match cwd {
        None => text("."),
        Some(path) => {
            let n = path.unicode_len();
            let mut start: usize = 0;
            let mut i: usize = 0;
            while i < n
                invariant
                    n == path@.len(),
                    start <= i <= n,
                    last_segment(path@.take(i as int), sep) == path@.subrange(start as int, i as int),
                decreases n - i,
            {
                proof {
                    assert(path@.take(i + 1).drop_last() =~= path@.take(i as int));
                    assert(path@.take(i + 1).last() == path@[i as int]);
                }
                let c = path.get_char(i);
                if c == sep {
                    start = i + 1;
                    proof {
                        assert(path@.subrange(i + 1, i + 1) =~= Seq::<char>::empty());
                    }
                } else {
                    proof {
                        assert(path@.subrange(start as int, i + 1) =~= path@.subrange(start as int, i as int).push(c));
                    }
                }
                i = i + 1;
            }
            proof {
                assert(path@.take(n as int) =~= path@);
            }
            text(path.substring_char(start, n))
        },
    }
}

/// The title of the menu, in colour, naming the project.
pub fn menu_title(project: &str) -> (t: String)
    ensures
        t@ == "\x1b[1;34mWhat you want to do in the \x1b[1;36m"@ + project@ + "\x1b[1;34m project :\x1b[0m"@,
{
    let mut t = text("\x1b[1;34mWhat you want to do in the \x1b[1;36m");
    t.append(project);
    t.append("\x1b[1;34m project :\x1b[0m");
    t
}

/// The questions a menu choice asks before it acts, in order; `user` is the
/// name offered by default for logging in.
pub open spec fn questions_of(c: MenuChoice, user: Seq<char>) -> Seq<PromptView> {
    match c {
        MenuChoice::Login => seq![ask("Please enter your docker username : "@, Some(user), false)],
        MenuChoice::Ssh => seq![
            ask("Please enter the server to connect :"@, None, false),
            ask("Please enter the username :"@, Some("root"@), false),
            ask("Please enter the ssh port :"@, Some("22"@), false),
        ],
        MenuChoice::Build => seq![ask("Please enter the tag for the image :"@, None, false)],
        MenuChoice::Push => seq![ask("Please enter the image to publish :"@, None, false)],
        _ => Seq::empty(),
    }
}

/// A question whose failing prompt reads as an empty answer.
fn lenient(message: &str, default: Option<&str>) -> (p: Prompt)
    ensures
        p@ == ask(message@, match default { Some(d) => Some(d@), None => None }, false),
{
    Prompt { message: text(message), default: match default { Some(d) => Some(text(d)), None => None }, strict: false }
}

/// The questions a menu choice asks before it acts, in order.
pub fn questions(c: MenuChoice, user: &str) -> (ps: Vec<Prompt>)
    ensures
        ps@.map_values(|p: Prompt| p@) == questions_of(c, user@),
{
    let mut ps: Vec<Prompt> = Vec::new();
    match c {
        MenuChoice::Login => ps.push(lenient("Please enter your docker username : ", Some(user))),
        MenuChoice::Ssh => {
            ps.push(lenient("Please enter the server to connect :", None));
            ps.push(lenient("Please enter the username :", Some("root")));
            ps.push(lenient("Please enter the ssh port :", Some("22")));
        },
        MenuChoice::Build => ps.push(lenient("Please enter the tag for the image :", None)),
        MenuChoice::Push => ps.push(lenient("Please enter the image to publish :", None)),
        _ => {},
    }
    proof {
        assert(ps@.map_values(|p: Prompt| p@) =~= questions_of(c, user@));
    }
    ps
}

/// The yes-or-no question of `touch`: yes creates a `Dockerfile`, no a
/// `compose.yaml`.
pub fn dockerfile_question() -> (q: String)
    ensures
        q@ == "create a Dockerfile"@,
{
    text("create a Dockerfile")
}

/// What a menu choice does once its questions are answered.
#[derive(Debug)]
pub enum Work {
    /// Runs this plan.
    Run(Vec<Step>),
    /// Runs this chore.
    Chore(Chore),
    /// Asks [`dockerfile_question`], then runs `touch` with the answer.
    Touch,
    /// Reads the configuration and the date, then runs `deploy`.
    Deploy,
    /// Reads the configuration, then runs `dock_running`.
    Check,
    /// Leaves the menu.
    Leave,
    /// Shows the menu again.
    Again,
}

/// What a [`Work`] holds, as text.
pub enum WorkView {
    Run(Seq<StepView>),
    Chore(Chore),
    Touch,
    Deploy,
    Check,
    Leave,
    Again,
}

impl View for Work {
    type V = WorkView;

    open spec fn view(&self) -> WorkView {
        match self {
            Work::Run(p) => WorkView::Run(steps_view(p@)),
            Work::Chore(c) => WorkView::Chore(*c),
            Work::Touch => WorkView::Touch,
            Work::Deploy => WorkView::Deploy,
            Work::Check => WorkView::Check,
            Work::Leave => WorkView::Leave,
            Work::Again => WorkView::Again,
        }
    }
}

/// What a menu choice does, given the answers to its questions (missing
/// answers read as empty).
pub open spec fn work_of(c: MenuChoice, a: Seq<Seq<char>>) -> WorkView {
    match c {
        MenuChoice::Login => WorkView::Run(login_plan(answer(a, 0))),
        MenuChoice::Logout => WorkView::Run(logout_plan()),
        MenuChoice::Clear => WorkView::Run(clear_plan()),
        MenuChoice::Deploy => WorkView::Deploy,
        MenuChoice::Check => WorkView::Check,
        MenuChoice::Cd => WorkView::Chore(Chore::Jump),
        MenuChoice::Ssh => WorkView::Run(ssh_plan(answer(a, 0), answer(a, 1), answer(a, 2))),
        MenuChoice::Stop => WorkView::Chore(Chore::Stop),
        MenuChoice::Logs => WorkView::Chore(Chore::Logs),
        MenuChoice::List => WorkView::Run(list_plan()),
        MenuChoice::Ls => WorkView::Run(ls_plan()),
        MenuChoice::Start => WorkView::Chore(Chore::Start),
        MenuChoice::Restart => WorkView::Chore(Chore::Restart),
        MenuChoice::Rm => WorkView::Chore(Chore::Remove),
        MenuChoice::Touch => WorkView::Touch,
        MenuChoice::Ps => WorkView::Run(ps_plan()),
        MenuChoice::Pull => WorkView::Chore(Chore::Pull),
        MenuChoice::Build => WorkView::Run(build_plan(answer(a, 0))),
        MenuChoice::Push => WorkView::Run(publish_plan(answer(a, 0))),
        MenuChoice::Editor => WorkView::Run(editor_plan()),
        MenuChoice::Exit => WorkView::Leave,
        MenuChoice::Nothing => WorkView::Again,
    }
}

/// What a menu choice does, given the answers to its [`questions`].
pub fn work(c: MenuChoice, answers: &Vec<String>) -> (w: Work)
    ensures
        w@ == work_of(c, texts(answers@)),
{
    match c {
        MenuChoice::Login => {
            let user = answer_at(answers, 0);
            Work::Run(login(user.as_str()))
        },
        MenuChoice::Logout => Work::Run(logout()),
        MenuChoice::Clear => Work::Run(clear()),
        MenuChoice::Deploy => Work::Deploy,
        MenuChoice::Check => Work::Check,
        MenuChoice::Cd => Work::Chore(Chore::Jump),
        MenuChoice::Ssh => {
            let server = answer_at(answers, 0);
            let user = answer_at(answers, 1);
            let port = answer_at(answers, 2);
            Work::Run(ssh(server.as_str(), user.as_str(), port.as_str()))
        },
        MenuChoice::Stop => Work::Chore(Chore::Stop),
        MenuChoice::Logs => Work::Chore(Chore::Logs),
        MenuChoice::List => Work::Run(list()),
        MenuChoice::Ls => Work::Run(ls()),
        MenuChoice::Start => Work::Chore(Chore::Start),
        MenuChoice::Restart => Work::Chore(Chore::Restart),
        MenuChoice::Rm => Work::Chore(Chore::Remove),
        MenuChoice::Touch => Work::Touch,
        MenuChoice::Ps => Work::Run(ps()),
        MenuChoice::Pull => Work::Chore(Chore::Pull),
        MenuChoice::Build => {
            let tag = answer_at(answers, 0);
            Work::Run(build(tag.as_str()))
        },
        MenuChoice::Push => {
            let image = answer_at(answers, 0);
            Work::Run(publish(image.as_str()))
        },
        MenuChoice::Editor => Work::Run(editor()),
        MenuChoice::Exit => Work::Leave,
        MenuChoice::Nothing => Work::Again,
    }
}

} // verus!
