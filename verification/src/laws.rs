//! The laws of the library: what holds of every input, across functions.
use vstd::prelude::*;
use crate::error::DockError;
use crate::config::{names, spec_servers, is_server, text_of, array_of, value_get, TomlValue};
use crate::plan::{spec_flow, Report, Rule, RunReport, StepView, Then};
use crate::deploy::{
    and_then, deploy_plan, image_steps, images_steps, remote_plan, server_steps, servers_steps,
    strict_step, strict_steps,
};
use crate::commands::connexion_steps;
use crate::chore::{answers, round, spec_next, ActionView, Chore, EventView, Stage};
use crate::menu::{choice_of, last_segment, menu_tasks, MenuChoice};
use crate::chore::{command_of, prompts_of};
use crate::invocation::CallView;
use crate::commands::touch_plan;
use crate::deploy::{local_container_steps, local_plan, local_steps, running_plan, running_steps, server_check};
use crate::plan::{Flow, PathKind};

verus! {

/// Whether a step can never end its plan with an error: whatever it fails
/// at either stops the program or is ignored.
pub open spec fn never_returns(s: StepView) -> bool {
    match s {
        StepView::Run { then, .. } => then is Abort || then is Ignore,
        StepView::Probe { then, .. } => then is Abort || then is Ignore,
        StepView::Expect { then, .. } => then is Abort || then is Ignore,
        StepView::Fail(_) => false,
        _ => true,
    }
}

/// Whether no step of a plan can end it with an error.
pub open spec fn all_never_return(p: Seq<StepView>) -> bool {
    forall|i: int| 0 <= i < p.len() ==> never_returns(#[trigger] p[i])
}

/// A step that can never end its plan with an error does not, whatever its outcome.
pub proof fn lemma_never_returns(s: StepView, r: Report)
    requires
        never_returns(s),
    ensures
        !(spec_flow(s, r) is Return),
{
}

/// Run by a caller that asserts its success, no step of any plan ends it
/// with an error: each error becomes a stop of the program.
pub proof fn lemma_strict_never_returns(p: Seq<StepView>, h: crate::plan::Halt)
    ensures
        all_never_return(strict_steps(p, h)),
{
    assert forall|i: int| 0 <= i < strict_steps(p, h).len() implies never_returns(#[trigger] strict_steps(p, h)[i]) by {
        assert(strict_steps(p, h)[i] == strict_step(p[i], h));
    }
}

proof fn lemma_concat_never_returns(a: Seq<StepView>, b: Seq<StepView>)
    requires
        all_never_return(a),
        all_never_return(b),
    ensures
        all_never_return(a + b),
{
    assert forall|i: int| 0 <= i < (a + b).len() implies never_returns(#[trigger] (a + b)[i]) by {
        if i < a.len() {
            assert((a + b)[i] == a[i]);
        } else {
            assert((a + b)[i] == b[i - a.len()]);
        }
    }
}

proof fn lemma_and_then_never_returns(a: Seq<StepView>, b: Seq<StepView>)
    requires
        all_never_return(a),
        all_never_return(b),
    ensures
        all_never_return(and_then(a, b)),
{
    lemma_concat_never_returns(a, b);
}

/// A whole deployment never ends with an error: it succeeds or stops the
/// program.
pub proof fn lemma_deploy_never_returns(config: Result<TomlValue, DockError>, date: Seq<char>)
    ensures
        all_never_return(deploy_plan(config, date)),
{
    let head = seq![StepView::Log("Starting deployment at "@ + date)];
    let tail = seq![StepView::Elapsed];
    assert(all_never_return(head));
    assert(all_never_return(tail));
    let local = strict_steps(crate::deploy::local_plan(config), crate::plan::Halt::LocalDeploy);
    let remote = strict_steps(remote_plan(config), crate::plan::Halt::RemoteDeploy);
    lemma_strict_never_returns(crate::deploy::local_plan(config), crate::plan::Halt::LocalDeploy);
    lemma_strict_never_returns(remote_plan(config), crate::plan::Halt::RemoteDeploy);
    lemma_concat_never_returns(head, local);
    lemma_concat_never_returns(head + local, remote);
    lemma_concat_never_returns(head + local + remote, tail);
}

proof fn lemma_images_never_return(
    server: Seq<char>,
    user: Seq<char>,
    ip: Seq<char>,
    port: Seq<char>,
    items: Seq<TomlValue>,
)
    ensures
        all_never_return(images_steps(server, user, ip, port, items)),
    decreases items.len(),
{
    if items.len() > 0 {
        lemma_images_never_return(server, user, ip, port, items.drop_last());
        let chunk = match text_of(Some(items.last())) {
            Some(image) => image_steps(server, user, ip, port, image),
            None => seq![StepView::Abort(crate::plan::Halt::MissingValue)],
        };
        assert(all_never_return(chunk));
        lemma_and_then_never_returns(images_steps(server, user, ip, port, items.drop_last()), chunk);
    }
}

proof fn lemma_servers_never_return(doc: TomlValue, ns: Seq<Seq<char>>)
    ensures
        all_never_return(servers_steps(doc, ns)),
    decreases ns.len(),
{
    if ns.len() > 0 {
        lemma_servers_never_return(doc, ns.drop_last());
        let entry = value_get(doc, ns.last());
        let chunk = server_steps(ns.last(), entry);
        if let Some(e) = entry {
            let user = text_of(value_get(e, "username"@));
            let port = text_of(value_get(e, "port"@));
            let ip = text_of(value_get(e, "ip"@));
            let items = array_of(value_get(e, "containers"@));
            if user is Some && port is Some && ip is Some && items is Some {
                let c = connexion_steps(ip->0, port->0, Then::Abort(crate::plan::Halt::Unreachable));
                assert(all_never_return(c));
                lemma_images_never_return(ns.last(), user->0, ip->0, port->0, items->0);
                lemma_concat_never_returns(c, images_steps(ns.last(), user->0, ip->0, port->0, items->0));
            }
        }
        assert(all_never_return(chunk));
        lemma_and_then_never_returns(servers_steps(doc, ns.drop_last()), chunk);
    }
}

/// Once the configuration has been read, a remote deployment never ends
/// with an error: it succeeds, or a failure stops the program.
pub proof fn lemma_remote_never_returns(doc: TomlValue)
    ensures
        all_never_return(remote_plan(Ok(doc))),
{
    match spec_servers(Ok(doc)) {
        Err(_) => {},
        Ok(ns) => {
            lemma_servers_never_return(doc, ns);
            let head = seq![StepView::Log(crate::deploy::park_message(ns.len()))];
            assert(all_never_return(head));
            lemma_concat_never_returns(head, servers_steps(doc, ns));
        },
    }
}

/// docker's step goes on exactly when docker exited successfully; otherwise
/// it does what its caller does with a failure.
pub proof fn lemma_docker_continues_iff_success(call: crate::invocation::CallView, then: Then, r: RunReport)
    requires
        !(then is Ignore),
    ensures
        (spec_flow(StepView::Run { call, rule: Rule::Docker, then }, Report::Ran(r)) is Continue)
            <==> r == (RunReport::Exited { success: true }),
{
}

/// The servers never include the `local` entry, and include every other
/// entry of the configuration's table.
pub proof fn lemma_servers_are_the_other_entries(config: Result<TomlValue, DockError>)
    ensures
        spec_servers(config) matches Ok(ns) ==> !ns.contains("local"@),
        config matches Ok(TomlValue::Table(entries)) ==> (spec_servers(config) matches Ok(ns) && forall|i: int|
            0 <= i < entries@.len() && #[trigger] entries@[i].0@ != "local"@ ==> ns.contains(entries@[i].0@)),
{
    broadcast use vstd::seq_lib::group_filter_ensures;
    if let Ok(TomlValue::Table(entries)) = config {
        let all = names(entries@);
        let pred = |n: Seq<char>| is_server(n);
        let ns = all.filter(pred);
        if ns.contains("local"@) {
            let k = choose|k: int| 0 <= k < ns.len() && ns[k] == "local"@;
            assert(pred(ns[k]));
        }
        assert forall|i: int| 0 <= i < entries@.len() && #[trigger] entries@[i].0@ != "local"@ implies ns.contains(entries@[i].0@) by {
            assert(all[i] == entries@[i].0@);
            assert(all.contains(all[i]));
            assert(pred(all[i]));
        }
    }
}

/// A chore ends successfully only when the user declines another round.
pub proof fn lemma_chore_ends_well_only_on_decline(c: Chore, s: Stage, e: EventView)
    requires
        answers(c, s, e),
        spec_next(c, s, e).1 == ActionView::Finish(Ok(())),
    ensures
        s == Stage::Confirming,
        e == EventView::Confirmed(false),
{
}

/// Accepting another round starts the chore over, as at its beginning.
pub proof fn lemma_yes_starts_again(c: Chore)
    ensures
        spec_next(c, Stage::Confirming, EventView::Confirmed(true)) == spec_next(c, Stage::Idle, EventView::Begin),
        spec_next(c, Stage::Idle, EventView::Begin) == round(c),
{
}

/// Pulling images and reading logs never end with an error: a failed docker
/// command starts a new round.
pub proof fn lemma_retrying_chores_never_fail(c: Chore, s: Stage, e: EventView)
    requires
        c == Chore::Pull || c == Chore::Logs,
        answers(c, s, e),
    ensures
        !(spec_next(c, s, e).1 matches ActionView::Finish(Err(_))),
{
}

/// The other docker chores end with their own error when their command
/// fails, and with no other error.
pub proof fn lemma_chore_errors(c: Chore, s: Stage, e: EventView, err: DockError)
    requires
        answers(c, s, e),
        spec_next(c, s, e).1 == ActionView::Finish(Err(err)),
    ensures
        s == Stage::Running,
        crate::chore::failure_of(c) == Some(err),
        e matches EventView::Ran(r) && r != (RunReport::Exited { success: true }),
{
}

/// Every task the menu offers does something, and only `exit` leaves it.
pub proof fn lemma_menu_tasks_act()
    ensures
        forall|i: int| 0 <= i < menu_tasks().len() ==> choice_of(#[trigger] menu_tasks()[i]) != MenuChoice::Nothing,
        forall|s: Seq<char>| (#[trigger] choice_of(s) == MenuChoice::Exit) <==> s == "exit"@,
{
    reveal_strlit("build");
    reveal_strlit("clear");
    reveal_strlit("check");
    reveal_strlit("cd");
    reveal_strlit("deploy");
    reveal_strlit("exit");
    reveal_strlit("editor");
    reveal_strlit("ls");
    reveal_strlit("list");
    reveal_strlit("login");
    reveal_strlit("logout");
    reveal_strlit("push");
    reveal_strlit("pull");
    reveal_strlit("ps");
    reveal_strlit("rm");
    reveal_strlit("start");
    reveal_strlit("restart");
    reveal_strlit("stop");
    reveal_strlit("ssh");
    reveal_strlit("touch");
    reveal_strlit("logs");
    let e = "exit"@;
    assert(e[0] == 'e');
    assert("stop"@[0] == 's' && "logs"@[0] == 'l' && "list"@[0] == 'l' && "pull"@[0] == 'p' && "push"@[0] == 'p');
    assert("editor"@.len() == 6);
    assert(e != "editor"@);
    assert(choice_of(e) == MenuChoice::Exit);
}

/// The project name is the end of the path, and holds no separator.
pub proof fn lemma_last_segment(s: Seq<char>, sep: char)
    ensures
        !last_segment(s, sep).contains(sep),
        last_segment(s, sep).len() <= s.len(),
        last_segment(s, sep) == s.subrange(s.len() - last_segment(s, sep).len(), s.len() as int),
    decreases s.len(),
{
    if s.len() > 0 && s.last() != sep {
        lemma_last_segment(s.drop_last(), sep);
        let t = last_segment(s.drop_last(), sep);
        assert(last_segment(s, sep) == t.push(s.last()));
        if t.push(s.last()).contains(sep) {
            let k = choose|k: int| 0 <= k < t.len() + 1 && t.push(s.last())[k] == sep;
            if k < t.len() {
                assert(t.contains(t[k]));
            }
        }
        assert(s.subrange(s.len() - (t.len() + 1), s.len() as int) =~= s.drop_last().subrange(
            s.drop_last().len() - t.len(),
            s.drop_last().len() as int,
        ).push(s.last()));
    } else if s.len() > 0 {
        assert(last_segment(s, sep) =~= Seq::<char>::empty());
        assert(s.subrange(s.len() as int, s.len() as int) =~= Seq::<char>::empty());
    } else {
        assert(s.subrange(0, 0) =~= s);
    }
}

/// Whether two steps do the same thing and differ at most in what a failure does.
pub open spec fn same_work(a: StepView, b: StepView) -> bool {
    match (a, b) {
        (StepView::Run { call: c1, rule: r1, .. }, StepView::Run { call: c2, rule: r2, .. }) => c1 == c2 && r1 == r2,
        (StepView::Probe { call: c1, ip: i1, .. }, StepView::Probe { call: c2, ip: i2, .. }) => c1 == c2 && i1 == i2,
        (
            StepView::Expect { path: p1, kind: k1, error: e1, .. },
            StepView::Expect { path: p2, kind: k2, error: e2, .. },
        ) => p1 == p2 && k1 == k2 && e1 == e2,
        (StepView::Fail(_), StepView::Abort(_)) => true,
        _ => a == b,
    }
}

/// Asserting a plan's success keeps its steps, in order, with the same
/// commands; only what a failure does changes.
pub proof fn lemma_strict_keeps_the_work(p: Seq<StepView>, h: crate::plan::Halt)
    ensures
        strict_steps(p, h).len() == p.len(),
        forall|i: int| 0 <= i < p.len() ==> same_work(#[trigger] p[i], strict_steps(p, h)[i]),
{
    assert forall|i: int| 0 <= i < p.len() implies same_work(#[trigger] p[i], strict_steps(p, h)[i]) by {
        assert(strict_steps(p, h)[i] == strict_step(p[i], h));
    }
}

/// The outcome of a step when everything it does succeeds: its program
/// exits successfully, its path is there.
pub open spec fn success_of(s: StepView) -> Report {
    match s {
        StepView::Run { .. } => Report::Ran(RunReport::Exited { success: true }),
        StepView::Probe { .. } => Report::Ran(RunReport::Exited { success: true }),
        StepView::Expect { .. } => Report::Found(true),
        _ => Report::Nothing,
    }
}

/// Whether a plan goes through every step when everything succeeds.
pub open spec fn goes_through(p: Seq<StepView>) -> bool {
    forall|i: int| 0 <= i < p.len() ==> spec_flow(#[trigger] p[i], success_of(p[i])) is Continue
}

/// Whether a step neither returns an error nor stops the program by itself.
pub open spec fn smooth(s: StepView) -> bool {
    !(s is Fail) && !(s is Abort)
}

proof fn lemma_smooth_goes_through(p: Seq<StepView>)
    requires
        forall|i: int| 0 <= i < p.len() ==> smooth(#[trigger] p[i]),
    ensures
        goes_through(p),
{
    assert forall|i: int| 0 <= i < p.len() implies spec_flow(#[trigger] p[i], success_of(p[i])) is Continue by {
        assert(smooth(p[i]));
    }
}

/// Whether a server's entry holds everything a deployment reads: a
/// `username`, a `port` and an `ip` that are strings, and `containers`, an
/// array of strings.
pub open spec fn complete_server(entry: Option<TomlValue>) -> bool {
    match entry {
        Some(e) => {
            &&& text_of(value_get(e, "username"@)) is Some
            &&& text_of(value_get(e, "port"@)) is Some
            &&& text_of(value_get(e, "ip"@)) is Some
            &&& array_of(value_get(e, "containers"@)) matches Some(items)
            &&& forall|k: int| 0 <= k < items.len() ==> (#[trigger] text_of(Some(items[k]))) is Some
        },
        None => false,
    }
}

/// Whether every server a configuration names is complete.
pub open spec fn complete(doc: TomlValue) -> bool {
    spec_servers(Ok(doc)) matches Ok(ns) && forall|k: int| 0 <= k < ns.len() ==> #[trigger] complete_server(value_get(doc, ns[k]))
}

proof fn lemma_images_smooth(
    server: Seq<char>,
    user: Seq<char>,
    ip: Seq<char>,
    port: Seq<char>,
    items: Seq<TomlValue>,
)
    requires
        forall|k: int| 0 <= k < items.len() ==> (#[trigger] text_of(Some(items[k]))) is Some,
    ensures
        forall|i: int| 0 <= i < images_steps(server, user, ip, port, items).len()
            ==> smooth(#[trigger] images_steps(server, user, ip, port, items)[i]),
    decreases items.len(),
{
    if items.len() > 0 {
        let rest = items.drop_last();
        assert forall|k: int| 0 <= k < rest.len() implies (#[trigger] text_of(Some(rest[k]))) is Some by {
            assert(rest[k] == items[k]);
        }
        lemma_images_smooth(server, user, ip, port, rest);
        assert(text_of(Some(items[items.len() - 1])) is Some);
        let image = text_of(Some(items.last()))->0;
        let a = images_steps(server, user, ip, port, rest);
        let b = image_steps(server, user, ip, port, image);
        if a.len() > 0 {
            assert(smooth(a[a.len() - 1]));
        }
        assert(images_steps(server, user, ip, port, items) == a + b);
        assert forall|i: int| 0 <= i < (a + b).len() implies smooth(#[trigger] (a + b)[i]) by {
            if i < a.len() {
                assert((a + b)[i] == a[i]);
            } else {
                assert((a + b)[i] == b[i - a.len()]);
            }
        }
    }
}

proof fn lemma_servers_smooth(doc: TomlValue, ns: Seq<Seq<char>>)
    requires
        forall|k: int| 0 <= k < ns.len() ==> #[trigger] complete_server(value_get(doc, ns[k])),
    ensures
        forall|i: int| 0 <= i < servers_steps(doc, ns).len() ==> smooth(#[trigger] servers_steps(doc, ns)[i]),
    decreases ns.len(),
{
    if ns.len() > 0 {
        let rest = ns.drop_last();
        assert forall|k: int| 0 <= k < rest.len() implies #[trigger] complete_server(value_get(doc, rest[k])) by {
            assert(rest[k] == ns[k]);
        }
        lemma_servers_smooth(doc, rest);
        assert(complete_server(value_get(doc, ns[ns.len() - 1])));
        let e = value_get(doc, ns.last())->0;
        let user = text_of(value_get(e, "username"@))->0;
        let port = text_of(value_get(e, "port"@))->0;
        let ip = text_of(value_get(e, "ip"@))->0;
        let items = array_of(value_get(e, "containers"@))->0;
        lemma_images_smooth(ns.last(), user, ip, port, items);
        let c = connexion_steps(ip, port, Then::Abort(crate::plan::Halt::Unreachable));
        let im = images_steps(ns.last(), user, ip, port, items);
        let chunk = c + im;
        assert(server_steps(ns.last(), value_get(doc, ns.last())) == chunk);
        let a = servers_steps(doc, rest);
        if a.len() > 0 {
            assert(smooth(a[a.len() - 1]));
        }
        assert(servers_steps(doc, ns) == a + chunk);
        assert forall|i: int| 0 <= i < (a + chunk).len() implies smooth(#[trigger] (a + chunk)[i]) by {
            if i < a.len() {
                assert((a + chunk)[i] == a[i]);
            } else if i < a.len() + c.len() {
                assert((a + chunk)[i] == c[i - a.len()]);
            } else {
                assert((a + chunk)[i] == im[i - a.len() - c.len()]);
            }
        }
    }
}

/// A remote deployment from a complete configuration goes through every
/// step when every command succeeds: nothing in it fails or stops by itself.
pub proof fn lemma_complete_remote_deploys(doc: TomlValue)
    requires
        complete(doc),
    ensures
        goes_through(remote_plan(Ok(doc))),
{
    let ns = spec_servers(Ok(doc))->Ok_0;
    lemma_servers_smooth(doc, ns);
    let head = seq![StepView::Log(crate::deploy::park_message(ns.len()))];
    let p = head + servers_steps(doc, ns);
    assert forall|i: int| 0 <= i < p.len() implies smooth(#[trigger] p[i]) by {
        if i > 0 {
            assert(p[i] == servers_steps(doc, ns)[i - 1]);
        }
    }
    lemma_smooth_goes_through(p);
}

/// Whether a configuration lists the local containers: it is a table whose
/// `local` entry has an array under `containers`.
pub open spec fn lists_local(doc: TomlValue) -> bool {
    doc matches TomlValue::Table(es) && (crate::config::lookup(es@, "local"@) matches Some(local)
        && array_of(value_get(local, "containers"@)) is Some)
}

/// A local deployment whose configuration lists its containers goes through
/// every step when every folder is there and every command succeeds.
pub proof fn lemma_listed_local_deploys(doc: TomlValue)
    requires
        lists_local(doc),
    ensures
        goes_through(crate::deploy::local_plan(Ok(doc))),
{
    if let TomlValue::Table(es) = doc {
        let local = crate::config::lookup(es@, "local"@)->0;
        let items = array_of(value_get(local, "containers"@))->0;
        lemma_local_smooth(items);
        lemma_smooth_goes_through(crate::deploy::local_steps(items));
    }
}

proof fn lemma_local_smooth(items: Seq<TomlValue>)
    ensures
        forall|i: int| 0 <= i < crate::deploy::local_steps(items).len()
            ==> smooth(#[trigger] crate::deploy::local_steps(items)[i]),
    decreases items.len(),
{
    if items.len() > 0 {
        lemma_local_smooth(items.drop_last());
        let a = crate::deploy::local_steps(items.drop_last());
        let b = crate::deploy::local_container_steps(crate::config::text_or_empty(Some(items.last())));
        assert forall|i: int| 0 <= i < (a + b).len() implies smooth(#[trigger] (a + b)[i]) by {
            if i < a.len() {
                assert((a + b)[i] == a[i]);
            } else {
                assert((a + b)[i] == b[i - a.len()]);
            }
        }
    }
}

/// Before anything runs on a server, the remote deployment probes it, and a
/// server that does not answer stops the program: every program the steps of
/// a server run comes after its probe.
pub proof fn lemma_server_probed_first(server: Seq<char>, entry: TomlValue)
    requires
        text_of(value_get(entry, "username"@)) is Some,
        text_of(value_get(entry, "port"@)) is Some,
        text_of(value_get(entry, "ip"@)) is Some,
        array_of(value_get(entry, "containers"@)) is Some,
    ensures
        ({
            let p = server_steps(server, Some(entry));
            let ip = text_of(value_get(entry, "ip"@))->0;
            let port = text_of(value_get(entry, "port"@))->0;
            &&& p.len() >= 3
            &&& p[2] == StepView::Probe {
                call: crate::invocation::cmd_call("ncat"@, seq!["-z"@, ip, port]),
                ip: ip,
                then: Then::Abort(crate::plan::Halt::Unreachable),
            }
            &&& forall|i: int| 0 <= i < p.len() && (#[trigger] p[i] is Run) ==> i > 2
            &&& forall|r: RunReport| r != (RunReport::Exited { success: true })
                ==> spec_flow(p[2], Report::Ran(r)) is Abort
        }),
{
    let user = text_of(value_get(entry, "username"@))->0;
    let port = text_of(value_get(entry, "port"@))->0;
    let ip = text_of(value_get(entry, "ip"@))->0;
    let items = array_of(value_get(entry, "containers"@))->0;
    let c = connexion_steps(ip, port, Then::Abort(crate::plan::Halt::Unreachable));
    let im = images_steps(server, user, ip, port, items);
    let p = c + im;
    assert(server_steps(server, Some(entry)) == p);
    assert(p[2] == c[2]);
    assert forall|i: int| 0 <= i < p.len() && (#[trigger] p[i] is Run) implies i > 2 by {
        if i <= 2 {
            assert(p[i] == c[i]);
        }
    }
}

proof fn lemma_filter_servers(s: Seq<Seq<char>>)
    requires
        s.no_duplicates(),
    ensures
        s.filter(|n: Seq<char>| is_server(n)).no_duplicates(),
        s.filter(|n: Seq<char>| is_server(n)).len() + (if s.contains("local"@) { 1int } else { 0int }) == s.len(),
    decreases s.len(),
{
    broadcast use vstd::seq_lib::group_filter_ensures;
    reveal_with_fuel(Seq::<Seq<char>>::filter, 1);
    let pred = |n: Seq<char>| is_server(n);
    if s.len() > 0 {
        let d = s.drop_last();
        assert(d.no_duplicates()) by {
            assert forall|i: int, j: int| 0 <= i < d.len() && 0 <= j < d.len() && i != j implies d[i] != d[j] by {
                assert(d[i] == s[i] && d[j] == s[j]);
            }
        }
        lemma_filter_servers(d);
        let fd = d.filter(pred);
        assert(!d.contains(s.last())) by {
            if d.contains(s.last()) {
                let k = choose|k: int| 0 <= k < d.len() && d[k] == s.last();
                assert(s[k] == s[s.len() - 1]);
            }
        }
        assert(s.contains("local"@) == (d.contains("local"@) || s.last() == "local"@)) by {
            if s.contains("local"@) {
                let k = choose|k: int| 0 <= k < s.len() && s[k] == "local"@;
                if k < s.len() - 1 {
                    assert(d[k] == s[k]);
                }
            }
            if d.contains("local"@) {
                let k = choose|k: int| 0 <= k < d.len() && d[k] == "local"@;
                assert(s[k] == d[k]);
            }
        }
        if pred(s.last()) {
            assert(s.filter(pred) == fd.push(s.last()));
            assert(!fd.contains(s.last())) by {
                if fd.contains(s.last()) {
                    d.lemma_filter_contains_rev(pred, s.last());
                }
            }
            assert(fd.push(s.last()).no_duplicates()) by {
                let f = fd.push(s.last());
                assert forall|i: int, j: int| 0 <= i < f.len() && 0 <= j < f.len() && i != j implies f[i] != f[j] by {
                    if i < fd.len() && j < fd.len() {
                        assert(f[i] == fd[i] && f[j] == fd[j]);
                    } else if i < fd.len() {
                        assert(fd.contains(f[i]));
                    } else {
                        assert(fd.contains(f[j]));
                    }
                }
            }
        } else {
            assert(s.filter(pred) == fd);
        }
    }
}

/// When the entries of the configuration's table have distinct names (as
/// toml's tables do), the servers are distinct, and there are as many as
/// there are entries, one fewer when one of them is `local`. Their order is
/// the table's: they are its names, kept in order, without `local`.
pub proof fn lemma_servers_count(entries: Seq<(String, TomlValue)>)
    requires
        names(entries).no_duplicates(),
    ensures
        ({
            let ns = names(entries).filter(|n: Seq<char>| is_server(n));
            &&& ns.no_duplicates()
            &&& ns.len() + (if names(entries).contains("local"@) { 1int } else { 0int }) == entries.len()
        }),
{
    lemma_filter_servers(names(entries));
}


// ------------------------------------------------- what the tasks are for

/// Starting a container asks first the image, then the host port, then the
/// container port, and publishes the host port it was given on the
/// container port it was given: `docker run -d -p <host>:<container> <image>`.
pub proof fn lemma_start_maps_host_port_to_container_port(image: Seq<char>, host: Seq<char>, container: Seq<char>)
    ensures
        prompts_of(Chore::Start).len() == 3,
        prompts_of(Chore::Start)[0].message == "please enter the name or the id of the image to run : "@,
        prompts_of(Chore::Start)[1].message == "please enter the host port  : "@,
        prompts_of(Chore::Start)[2].message == "please enter the container port  : "@,
        command_of(Chore::Start, seq![image, host, container]) == (CallView {
            program: "docker"@,
            args: seq!["run"@, "-d"@, "-p"@, host + ":"@ + container, image],
            dir: Some("/tmp"@),
            quiet: false,
        }),
{
    let a = seq![image, host, container];
    assert(command_of(Chore::Start, a).args =~= seq!["run"@, "-d"@, "-p"@, host + ":"@ + container, image]);
}

/// The name of the task that asks for a choice.
pub open spec fn task_name(c: MenuChoice) -> Seq<char> {
    match c {
        MenuChoice::Login => "login"@,
        MenuChoice::Logout => "logout"@,
        MenuChoice::Clear => "clear"@,
        MenuChoice::Deploy => "deploy"@,
        MenuChoice::Check => "check"@,
        MenuChoice::Cd => "cd"@,
        MenuChoice::Ssh => "ssh"@,
        MenuChoice::Stop => "stop"@,
        MenuChoice::Logs => "logs"@,
        MenuChoice::List => "list"@,
        MenuChoice::Ls => "ls"@,
        MenuChoice::Start => "start"@,
        MenuChoice::Restart => "restart"@,
        MenuChoice::Rm => "rm"@,
        MenuChoice::Touch => "touch"@,
        MenuChoice::Ps => "ps"@,
        MenuChoice::Pull => "pull"@,
        MenuChoice::Build => "build"@,
        MenuChoice::Push => "push"@,
        MenuChoice::Editor => "editor"@,
        MenuChoice::Exit => "exit"@,
        MenuChoice::Nothing => Seq::empty(),
    }
}

/// A selection that does something asks for the choice of its own name, so
/// two different selections never ask for the same choice; every task the
/// menu offers does something.
pub proof fn lemma_tasks_ask_for_their_namesake()
    ensures
        forall|s: Seq<char>| #[trigger] choice_of(s) != MenuChoice::Nothing ==> task_name(choice_of(s)) == s,
        forall|s: Seq<char>, t: Seq<char>|
            #[trigger] choice_of(s) == #[trigger] choice_of(t) && choice_of(s) != MenuChoice::Nothing ==> s == t,
        forall|i: int| 0 <= i < menu_tasks().len() ==> task_name(choice_of(#[trigger] menu_tasks()[i])) == menu_tasks()[i],
{
    lemma_menu_tasks_act();
    assert forall|s: Seq<char>, t: Seq<char>|
        #[trigger] choice_of(s) == #[trigger] choice_of(t) && choice_of(s) != MenuChoice::Nothing implies s == t by {
        assert(task_name(choice_of(s)) == s);
        assert(task_name(choice_of(t)) == t);
    }
}

/// `touch` creates the file in the current folder, the project's: a
/// `Dockerfile` on yes, a `compose.yaml` on no.
pub proof fn lemma_touch_in_the_current_folder(dockerfile: bool)
    ensures
        touch_plan(dockerfile).len() == 1,
        touch_plan(dockerfile)[0] matches StepView::Run { call, .. } && call == (CallView {
            program: "touch"@,
            args: seq![if dockerfile { "Dockerfile"@ } else { "compose.yaml"@ }],
            dir: Some("."@),
            quiet: false,
        }),
{
}

/// Whether a step checks that `path` is of kind `kind`, and ends the plan
/// with "docker container is not a dir" when it is not.
pub open spec fn expects(s: StepView, path: Seq<char>, kind: PathKind) -> bool {
    &&& s matches StepView::Expect { path: q, kind: k, .. } && q == path && k == kind
    &&& spec_flow(s, Report::Found(false)) == Flow::Return(DockError::ContainerNotADir)
}

/// Whether a program the step `i` of a plan runs in a folder `d` comes after
/// a check that `d` is a folder and one that `d/compose.yaml` is a file, each
/// ending the plan when it fails.
pub open spec fn checked_before(p: Seq<StepView>, i: int) -> bool {
    p[i] matches StepView::Run { call, .. } ==> (call.dir matches Some(d)
        && (exists|j: int| 0 <= j < i && #[trigger] expects(p[j], d, PathKind::Dir))
        && (exists|j: int| 0 <= j < i && #[trigger] expects(p[j], d + "/compose.yaml"@, PathKind::File)))
}

proof fn lemma_checked_by(p: Seq<StepView>, i: int, d: Seq<char>, j1: int, j2: int)
    requires
        0 <= j1 < i,
        0 <= j2 < i,
        i < p.len(),
        p[i] matches StepView::Run { call, .. } && call.dir == Some(d),
        expects(p[j1], d, PathKind::Dir),
        expects(p[j2], d + "/compose.yaml"@, PathKind::File),
    ensures
        checked_before(p, i),
{
    if let StepView::Run { call, .. } = p[i] {
        let e = call.dir->0;
        assert(e == d);
        assert(expects(p[j1], e, PathKind::Dir));
        assert(expects(p[j2], e + "/compose.yaml"@, PathKind::File));
    }
}

proof fn lemma_local_steps_checked(items: Seq<TomlValue>)
    ensures
        forall|i: int| 0 <= i < local_steps(items).len() ==> #[trigger] checked_before(local_steps(items), i),
    decreases items.len(),
{
    if items.len() > 0 {
        let a = local_steps(items.drop_last());
        let n = crate::config::text_or_empty(Some(items.last()));
        let b = local_container_steps(n);
        let p = a + b;
        lemma_local_steps_checked(items.drop_last());
        assert(local_steps(items) == p);
        let d = crate::deploy::compose_dir(n);
        assert forall|i: int| 0 <= i < p.len() implies #[trigger] checked_before(p, i) by {
            if i < a.len() {
                assert(p[i] == a[i]);
                assert(checked_before(a, i));
                if let StepView::Run { call, .. } = a[i] {
                    let e = call.dir->0;
                    let j1 = choose|j: int| 0 <= j < i && #[trigger] expects(a[j], e, PathKind::Dir);
                    let j2 = choose|j: int| 0 <= j < i && #[trigger] expects(a[j], e + "/compose.yaml"@, PathKind::File);
                    assert(p[j1] == a[j1]);
                    assert(p[j2] == a[j2]);
                    lemma_checked_by(p, i, e, j1, j2);
                }
            } else {
                let k = i - a.len();
                assert(p[i] == b[k]);
                let l = a.len() as int;
                assert(p[l] == b[0]);
                assert(p[l + 1] == b[1]);
                assert(expects(p[l], d, PathKind::Dir));
                assert(expects(p[l + 1], d + "/compose.yaml"@, PathKind::File));
                if k >= 2 {
                    assert(b[k] matches StepView::Run { call, .. } && call.dir == Some(d));
                    lemma_checked_by(p, i, d, l, l + 1);
                }
            }
        }
    }
}

/// A local deployment runs docker compose in a container's folder only after
/// checking that the folder exists and holds a `compose.yaml` file; when
/// either is missing, the deployment ends with "docker container is not a
/// dir" before anything runs there.
pub proof fn lemma_local_compose_runs_only_where_checked(config: Result<TomlValue, DockError>)
    ensures
        forall|i: int| 0 <= i < local_plan(config).len() ==> #[trigger] checked_before(local_plan(config), i),
{
    match config {
        Ok(TomlValue::Table(entries)) => match crate::config::lookup(entries@, "local"@) {
            Some(local) => match array_of(value_get(local, "containers"@)) {
                Some(items) => lemma_local_steps_checked(items),
                None => {},
            },
            None => {},
        },
        _ => {},
    }
}

/// Whether a step runs `ssh <user>@<ip> docker ps`, and goes on when ssh
/// exits successfully.
pub open spec fn lists_remote(s: StepView) -> bool {
    &&& s matches StepView::Run { call, .. } && call.program == "ssh"@ && call.args.len() == 3
        && call.args[1] == "docker"@ && call.args[2] == "ps"@
    &&& spec_flow(s, Report::Ran(RunReport::Exited { success: true })) is Continue
}

proof fn lemma_running_steps_list(doc: TomlValue, ns: Seq<Seq<char>>)
    ensures
        forall|i: int| 0 <= i < running_steps(doc, ns).len() ==> #[trigger] lists_remote(running_steps(doc, ns)[i]),
    decreases ns.len(),
{
    if ns.len() > 0 {
        lemma_running_steps_list(doc, ns.drop_last());
        let a = running_steps(doc, ns.drop_last());
        let b = server_check(doc, ns.last());
        assert forall|i: int| 0 <= i < (a + b).len() implies #[trigger] lists_remote((a + b)[i]) by {
            if i < a.len() {
                assert((a + b)[i] == a[i]);
            } else {
                assert((a + b)[i] == b[i - a.len()]);
            }
        }
    }
}

/// Checking the servers of a configuration table runs nothing but
/// `ssh <user>@<ip> docker ps`, each going on when ssh succeeds: a server
/// without a username or an ip adds nothing, and no step fails by itself, so
/// the check succeeds whenever every ssh does.
pub proof fn lemma_check_runs_only_docker_ps(doc: TomlValue)
    requires
        doc is Table,
    ensures
        forall|i: int| 0 <= i < running_plan(Ok(doc)).len() ==> #[trigger] lists_remote(running_plan(Ok(doc))[i]),
{
    let ns = spec_servers(Ok(doc))->Ok_0;
    lemma_running_steps_list(doc, ns);
}

} // verus!
