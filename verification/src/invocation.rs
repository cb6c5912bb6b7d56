//! Command lines: the programs the tool starts, with their arguments.
use vstd::prelude::*;

verus! {

/// A program to start, with its arguments, the folder to start it in
/// (`None`: the current one) and whether its output is thrown away.
#[derive(Debug)]
pub struct Invocation {
    pub program: String,
    pub args: Vec<String>,
    pub dir: Option<String>,
    pub quiet: bool,
}

/// What an [`Invocation`] holds, as text.
pub struct CallView {
    pub program: Seq<char>,
    pub args: Seq<Seq<char>>,
    pub dir: Option<Seq<char>>,
    pub quiet: bool,
}

/// The texts of a vector of strings.
pub open spec fn texts(v: Seq<String>) -> Seq<Seq<char>> {
    v.map_values(|s: String| s@)
}

/// The text of an optional string.
pub open spec fn opt_text(o: Option<String>) -> Option<Seq<char>> {
    match o {
        Some(s) => Some(s@),
        None => None,
    }
}

impl View for Invocation {
    type V = CallView;

    open spec fn view(&self) -> CallView {
        CallView {
            program: self.program@,
            args: texts(self.args@),
            dir: opt_text(self.dir),
            quiet: self.quiet,
        }
    }
}

/// `user@host`.
pub open spec fn at(user: Seq<char>, host: Seq<char>) -> Seq<char> {
    user + "@"@ + host
}

/// `docker <verb> <args..>`, started in `path`.
pub open spec fn docker_call(verb: Seq<char>, args: Seq<Seq<char>>, path: Seq<char>) -> CallView {
    CallView { program: "docker"@, args: seq![verb] + args, dir: Some(path), quiet: false }
}

/// `ssh user@ip <args..>`.
pub open spec fn ssh_call(args: Seq<Seq<char>>, user: Seq<char>, ip: Seq<char>) -> CallView {
    CallView { program: "ssh"@, args: seq![at(user, ip)] + args, dir: None, quiet: false }
}

/// `rsync -a -z -e "ssh -p <port>" ./containers/<s>/ user@ip:<s>`, output thrown away.
pub open spec fn upload_call(
    user: Seq<char>,
    ip: Seq<char>,
    s: Seq<char>,
    port: Seq<char>,
) -> CallView {
    CallView {
        program: "rsync"@,
        args: seq![
            "-a"@,
            "-z"@,
            "-e"@,
            "ssh -p "@ + port,
            "./containers/"@ + s + "/"@,
            at(user, ip) + ":"@ + s,
        ],
        dir: None,
        quiet: true,
    }
}

/// `<program> <args..>`, started in the current folder.
pub open spec fn cmd_call(program: Seq<char>, args: Seq<Seq<char>>) -> CallView {
    CallView { program: program, args: args, dir: Some("."@), quiet: false }
}

/// `clear`.
pub open spec fn clear_call() -> CallView {
    CallView { program: "clear"@, args: seq![], dir: None, quiet: false }
}

/// The string holding a text.
pub fn text(s: &str) -> (r: String)
    ensures
        r@ == s@,
{
    String::from_str(s)
}

/// The strings holding some texts, in order.
pub fn strings(ws: &[&str]) -> (v: Vec<String>)
    ensures
        texts(v@) == ws@.map_values(|w: &str| w@),
{
    let mut v: Vec<String> = Vec::new();
    let mut i: usize = 0;
    while i < ws.len()
        invariant
            i <= ws@.len(),
            v@.len() == i,
            texts(v@) == ws@.subrange(0, i as int).map_values(|w: &str| w@),
        decreases ws@.len() - i,
    {
        let ghost before = v@;
        v.push(text(ws[i]));
        proof {
            assert(v@ =~= before.push(v@[i as int]));
            assert(ws@.subrange(0, i + 1) =~= ws@.subrange(0, i as int).push(ws@[i as int]));
            assert(texts(v@) =~= texts(before).push(ws@[i as int]@));
            assert(texts(v@) =~= ws@.subrange(0, i + 1).map_values(|w: &str| w@));
        }
        i = i + 1;
    }
    proof {
        assert(ws@.subrange(0, ws@.len() as int) =~= ws@);
    }
    v
}

/// `user@host`.
pub fn user_at(user: &str, host: &str) -> (r: String)
    ensures
        r@ == at(user@, host@),
{
    let mut r = text(user);
    r.append("@");
    r.append(host);
    r
}

/// A vector of one string.
fn single(s: String) -> (v: Vec<String>)
    ensures
        texts(v@) == seq![s@],
{
    let mut v: Vec<String> = Vec::new();
    v.push(s);
    proof {
        assert(texts(v@) =~= seq![s@]);
    }
    v
}

/// `first` followed by `rest`.
fn prepend(first: String, rest: Vec<String>) -> (v: Vec<String>)
    ensures
        texts(v@) == seq![first@] + texts(rest@),
{
    let mut v = single(first);
    let mut rest = rest;
    let ghost before = rest@;
    v.append(&mut rest);
    proof {
        assert(texts(v@) =~= seq![first@] + texts(before));
    }
    v
}

/// Runs docker with `verb` and `args` in the folder `path`.
pub fn docker(verb: &str, args: Vec<String>, path: &str) -> (i: Invocation)
    ensures
        i@ == docker_call(verb@, texts(args@), path@),
{
    Invocation { program: text("docker"), args: prepend(text(verb), args), dir: Some(text(path)), quiet: false }
}

/// Runs `args` on the server `ip` as `user`, through ssh.
pub fn ssh_run(args: Vec<String>, user: &str, ip: &str) -> (i: Invocation)
    ensures
        i@ == ssh_call(texts(args@), user@, ip@),
{
    Invocation { program: text("ssh"), args: prepend(user_at(user, ip), args), dir: None, quiet: false }
}

/// Copies the folder `./containers/<s>/` to the folder `<s>` of the server,
/// through rsync over ssh on `port`.
pub fn upload_image(user: &str, ip: &str, s: &str, port: &str) -> (i: Invocation)
    ensures
        i@ == upload_call(user@, ip@, s@, port@),
{
    let mut e = text("ssh -p ");
    e.append(port);
    let mut source = text("./containers/");
    source.append(s);
    source.append("/");
    let mut target = user_at(user, ip);
    target.append(":");
    target.append(s);
    let mut args: Vec<String> = Vec::new();
    args.push(text("-a"));
    args.push(text("-z"));
    args.push(text("-e"));
    args.push(e);
    args.push(source);
    args.push(target);
    proof {
        assert(texts(args@) =~= upload_call(user@, ip@, s@, port@).args);
    }
    Invocation { program: text("rsync"), args, dir: None, quiet: true }
}

/// Runs `program` with `args` in the current folder.
pub fn cmd(program: &str, args: Vec<String>) -> (i: Invocation)
    ensures
        i@ == cmd_call(program@, texts(args@)),
{
    Invocation { program: text(program), args, dir: Some(text(".")), quiet: false }
}

/// Clears the terminal.
pub fn clear_screen() -> (i: Invocation)
    ensures
        i@ == clear_call(),
{
    let args: Vec<String> = Vec::new();
    proof {
        assert(texts(args@) =~= seq![]);
    }
    Invocation { program: text("clear"), args, dir: None, quiet: false }
}

} // verus!
