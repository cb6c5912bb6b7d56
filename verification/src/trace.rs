//! Laws on what the tool runs, in order: the programs a plan starts when
//! everything succeeds, and the actions of a chore over whole rounds.
use vstd::prelude::*;
use crate::config::{
    array_of, spec_servers, text_of, text_or_empty, value_get, TomlValue,
};
use crate::invocation::{cmd_call, docker_call, ssh_call, upload_call, CallView};
use crate::plan::{Halt, StepView, Then};
use crate::deploy::{
    compose_dir, halts, image_steps, images_steps, local_container_steps, local_plan,
    local_steps, remote_compose, remote_plan, running_plan, running_steps, server_check,
    server_steps, servers_steps,
};
use crate::commands::connexion_steps;
use crate::laws::{complete, complete_server, lists_local};
use crate::chore::{
    command_of, failure_of, listing_of, pick_message, prompts_of, ps_call, question_of, shows_ps, spec_next,
    ActionView, Chore, EventView, Stage,
};
use crate::invocation::clear_call;
use crate::plan::RunReport;

verus! {

/// The programs a plan starts, in order, when every step goes on.
pub open spec fn runs(p: Seq<StepView>) -> Seq<CallView>
    decreases p.len(),
{
    if p.len() == 0 {
        Seq::empty()
    } else {
        runs(p.drop_last()) + match p.last() {
            StepView::Run { call, .. } => seq![call],
            StepView::Probe { call, .. } => seq![call],
            _ => Seq::empty(),
        }
    }
}

/// The programs of two plans run one after the other.
pub proof fn lemma_runs_concat(a: Seq<StepView>, b: Seq<StepView>)
    ensures
        runs(a + b) == runs(a) + runs(b),
    decreases b.len(),
{
    if b.len() == 0 {
        assert(a + b =~= a);
        assert(runs(b) =~= Seq::<CallView>::empty());
        assert(runs(a) + runs(b) =~= runs(a));
    } else {
        lemma_runs_concat(a, b.drop_last());
        assert((a + b).drop_last() =~= a + b.drop_last());
        assert((a + b).last() == b.last());
    }
}

// ---------------------------------------------------------------- local

/// docker compose stops, updates and starts a local container, in its folder.
pub open spec fn compose_runs(name: Seq<char>) -> Seq<CallView> {
    let dir = compose_dir(name);
    seq![
        docker_call("compose"@, seq!["down"@], dir),
        docker_call("compose"@, seq!["pull"@], dir),
        docker_call("compose"@, seq!["up"@, "-d"@], dir),
    ]
}

/// The programs of a local deployment: for each listed container, in order,
/// docker compose down, pull and up -d in its folder.
pub open spec fn local_runs(items: Seq<TomlValue>) -> Seq<CallView>
    decreases items.len(),
{
    if items.len() == 0 {
        Seq::empty()
    } else {
        local_runs(items.drop_last()) + compose_runs(text_or_empty(Some(items.last())))
    }
}

proof fn lemma_local_steps_runs(items: Seq<TomlValue>)
    ensures
        runs(local_steps(items)) == local_runs(items),
    decreases items.len(),
{
    if items.len() > 0 {
        lemma_local_steps_runs(items.drop_last());
        let name = text_or_empty(Some(items.last()));
        let b = local_container_steps(name);
        lemma_runs_concat(local_steps(items.drop_last()), b);
        reveal_with_fuel(runs, 6);
        assert(runs(b) =~= compose_runs(name));
    }
}

/// When everything succeeds, a local deployment whose configuration lists
/// its containers runs, for each container in the list's order, docker
/// compose down, pull and up -d in `./containers/<name>`, and nothing else.
pub proof fn lemma_local_run_list(doc: TomlValue)
    requires
        lists_local(doc),
    ensures
        doc matches TomlValue::Table(es) && runs(local_plan(Ok(doc))) == local_runs(
            array_of(value_get(crate::config::lookup(es@, "local"@)->0, "containers"@))->0,
        ),
{
    if let TomlValue::Table(es) = doc {
        let local = crate::config::lookup(es@, "local"@)->0;
        lemma_local_steps_runs(array_of(value_get(local, "containers"@))->0);
    }
}

// --------------------------------------------------------------- remote

/// The programs that deploy one container on a server: rsync copies its
/// folder, then docker compose down, pull and up -d run over ssh.
pub open spec fn image_runs(user: Seq<char>, ip: Seq<char>, port: Seq<char>, image: Seq<char>) -> Seq<CallView> {
    seq![
        upload_call(user, ip, image, port),
        ssh_call(remote_compose(image, seq!["down"@]), user, ip),
        ssh_call(remote_compose(image, seq!["pull"@]), user, ip),
        ssh_call(remote_compose(image, seq!["up"@, "-d"@]), user, ip),
    ]
}

/// The programs that deploy a server's containers, in order.
pub open spec fn images_runs(user: Seq<char>, ip: Seq<char>, port: Seq<char>, items: Seq<TomlValue>) -> Seq<CallView>
    decreases items.len(),
{
    if items.len() == 0 {
        Seq::empty()
    } else {
        images_runs(user, ip, port, items.drop_last()) + image_runs(user, ip, port, text_or_empty(Some(items.last())))
    }
}

/// The programs for one server: ncat probes it, then its containers are deployed.
pub open spec fn server_runs(entry: TomlValue) -> Seq<CallView> {
    let user = text_or_empty(value_get(entry, "username"@));
    let port = text_or_empty(value_get(entry, "port"@));
    let ip = text_or_empty(value_get(entry, "ip"@));
    seq![cmd_call("ncat"@, seq!["-z"@, ip, port])]
        + images_runs(user, ip, port, array_of(value_get(entry, "containers"@))->0)
}

/// The programs for the servers, in order.
pub open spec fn servers_runs(doc: TomlValue, ns: Seq<Seq<char>>) -> Seq<CallView>
    decreases ns.len(),
{
    if ns.len() == 0 {
        Seq::empty()
    } else {
        servers_runs(doc, ns.drop_last()) + server_runs(value_get(doc, ns.last())->0)
    }
}

proof fn lemma_image_steps_runs(server: Seq<char>, user: Seq<char>, ip: Seq<char>, port: Seq<char>, image: Seq<char>)
    ensures
        runs(image_steps(server, user, ip, port, image)) == image_runs(user, ip, port, image),
        !halts(image_steps(server, user, ip, port, image)),
{
    reveal_with_fuel(runs, 12);
    assert(runs(image_steps(server, user, ip, port, image)) =~= image_runs(user, ip, port, image));
}

proof fn lemma_images_steps_runs(server: Seq<char>, user: Seq<char>, ip: Seq<char>, port: Seq<char>, items: Seq<TomlValue>)
    requires
        forall|k: int| 0 <= k < items.len() ==> (#[trigger] text_of(Some(items[k]))) is Some,
    ensures
        runs(images_steps(server, user, ip, port, items)) == images_runs(user, ip, port, items),
        !halts(images_steps(server, user, ip, port, items)),
    decreases items.len(),
{
    if items.len() > 0 {
        let rest = items.drop_last();
        assert forall|k: int| 0 <= k < rest.len() implies (#[trigger] text_of(Some(rest[k]))) is Some by {
            assert(rest[k] == items[k]);
        }
        lemma_images_steps_runs(server, user, ip, port, rest);
        assert(text_of(Some(items[items.len() - 1])) is Some);
        let image = text_of(Some(items.last()))->0;
        assert(text_or_empty(Some(items.last())) == image);
        lemma_image_steps_runs(server, user, ip, port, image);
        let a = images_steps(server, user, ip, port, rest);
        let b = image_steps(server, user, ip, port, image);
        assert(images_steps(server, user, ip, port, items) == a + b);
        lemma_runs_concat(a, b);
        assert((a + b).last() == b.last());
    }
}

proof fn lemma_servers_steps_runs(doc: TomlValue, ns: Seq<Seq<char>>)
    requires
        forall|k: int| 0 <= k < ns.len() ==> #[trigger] complete_server(value_get(doc, ns[k])),
    ensures
        runs(servers_steps(doc, ns)) == servers_runs(doc, ns),
        ns.len() > 0 ==> !halts(servers_steps(doc, ns)),
    decreases ns.len(),
{
    if ns.len() > 0 {
        let rest = ns.drop_last();
        assert forall|k: int| 0 <= k < rest.len() implies #[trigger] complete_server(value_get(doc, rest[k])) by {
            assert(rest[k] == ns[k]);
        }
        lemma_servers_steps_runs(doc, rest);
        assert(complete_server(value_get(doc, ns[ns.len() - 1])));
        let e = value_get(doc, ns.last())->0;
        let user = text_of(value_get(e, "username"@))->0;
        let port = text_of(value_get(e, "port"@))->0;
        let ip = text_of(value_get(e, "ip"@))->0;
        let items = array_of(value_get(e, "containers"@))->0;
        lemma_images_steps_runs(ns.last(), user, ip, port, items);
        let c = connexion_steps(ip, port, Then::Abort(Halt::Unreachable));
        let im = images_steps(ns.last(), user, ip, port, items);
        assert(server_steps(ns.last(), value_get(doc, ns.last())) == c + im);
        lemma_runs_concat(c, im);
        reveal_with_fuel(runs, 4);
        assert(runs(c) =~= seq![cmd_call("ncat"@, seq!["-z"@, ip, port])]);
        let a = servers_steps(doc, rest);
        if rest.len() == 0 {
            assert(a =~= Seq::<StepView>::empty());
        }
        assert(!halts(a));
        assert(servers_steps(doc, ns) == a + (c + im));
        lemma_runs_concat(a, c + im);
        assert((c + im).len() > 0);
        if im.len() > 0 {
            assert((c + im).last() == im.last());
        } else {
            assert((c + im).last() == c.last());
        }
        assert((a + (c + im)).last() == (c + im).last());
    }
}

/// When everything succeeds, a remote deployment from a complete
/// configuration runs, server after server in the order `servers` gives:
/// ncat on the server's ip and port, then for each container in order
/// rsync, and docker compose down, pull and up -d over ssh; nothing else,
/// and nothing for `local`.
pub proof fn lemma_remote_run_list(doc: TomlValue)
    requires
        complete(doc),
    ensures
        spec_servers(Ok(doc)) matches Ok(ns) && runs(remote_plan(Ok(doc))) == servers_runs(doc, ns),
        spec_servers(Ok(doc)) matches Ok(ns) && !ns.contains("local"@),
{
    let ns = spec_servers(Ok(doc))->Ok_0;
    lemma_servers_steps_runs(doc, ns);
    let head = seq![StepView::Log(crate::deploy::park_message(ns.len()))];
    lemma_runs_concat(head, servers_steps(doc, ns));
    reveal_with_fuel(runs, 2);
    assert(runs(head) =~= Seq::<CallView>::empty());
    assert(Seq::<CallView>::empty() + servers_runs(doc, ns) =~= servers_runs(doc, ns));
    crate::laws::lemma_servers_are_the_other_entries(Ok(doc));
}

// ---------------------------------------------------------------- check

/// The programs that list the containers running on the servers: ssh
/// `docker ps` on each server that has a `username` and an `ip`, in order.
pub open spec fn check_runs(doc: TomlValue, ns: Seq<Seq<char>>) -> Seq<CallView>
    decreases ns.len(),
{
    if ns.len() == 0 {
        Seq::empty()
    } else {
        let entry = value_get(doc, ns.last());
        let user = match entry { Some(e) => value_get(e, "username"@), None => None };
        let ip = match entry { Some(e) => value_get(e, "ip"@), None => None };
        check_runs(doc, ns.drop_last()) + if user is Some && ip is Some {
            seq![ssh_call(seq!["docker"@, "ps"@], text_or_empty(user), text_or_empty(ip))]
        } else {
            Seq::empty()
        }
    }
}

proof fn lemma_running_steps_runs(doc: TomlValue, ns: Seq<Seq<char>>)
    ensures
        runs(running_steps(doc, ns)) == check_runs(doc, ns),
    decreases ns.len(),
{
    if ns.len() > 0 {
        lemma_running_steps_runs(doc, ns.drop_last());
        let b = server_check(doc, ns.last());
        lemma_runs_concat(running_steps(doc, ns.drop_last()), b);
        reveal_with_fuel(runs, 2);
        if b.len() > 0 {
            assert(b.drop_last() =~= Seq::<StepView>::empty());
        } else {
            assert(runs(b) =~= Seq::<CallView>::empty());
        }
    }
}

/// When the configuration is a table, checking the servers runs ssh
/// `docker ps` on every server that has a `username` and an `ip`, in the
/// order `servers` gives, and skips the others.
pub proof fn lemma_check_run_list(doc: TomlValue)
    requires
        doc is Table,
    ensures
        spec_servers(Ok(doc)) matches Ok(ns) && runs(running_plan(Ok(doc))) == check_runs(doc, ns),
{
    let ns = spec_servers(Ok(doc))->Ok_0;
    lemma_running_steps_runs(doc, ns);
}

// --------------------------------------------------------------- chores

/// The stage a chore reaches and the actions it asks for, in order, when it
/// is at stage `s` and the outcomes `es` come one after the other.
pub open spec fn drive(c: Chore, s: Stage, es: Seq<EventView>) -> (Stage, Seq<ActionView>)
    decreases es.len(),
{
    if es.len() == 0 {
        (s, Seq::empty())
    } else {
        let first = spec_next(c, s, es[0]);
        let rest = drive(c, first.0, es.drop_first());
        (rest.0, seq![first.1] + rest.1)
    }
}

proof fn lemma_drive_concat(c: Chore, s: Stage, e1: Seq<EventView>, e2: Seq<EventView>)
    ensures
        drive(c, s, e1 + e2) == (
            drive(c, drive(c, s, e1).0, e2).0,
            drive(c, s, e1).1 + drive(c, drive(c, s, e1).0, e2).1,
        ),
    decreases e1.len(),
{
    if e1.len() == 0 {
        assert(e1 + e2 =~= e2);
        assert(Seq::<ActionView>::empty() + drive(c, s, e2).1 =~= drive(c, s, e2).1);
    } else {
        let first = spec_next(c, s, e1[0]);
        lemma_drive_concat(c, first.0, e1.drop_first(), e2);
        assert((e1 + e2).drop_first() =~= e1.drop_first() + e2);
        assert((e1 + e2)[0] == e1[0]);
        let r = drive(c, first.0, e1.drop_first());
        let t = drive(c, r.0, e2);
        assert(seq![first.1] + (r.1 + t.1) =~= (seq![first.1] + r.1) + t.1);
    }
}

/// A program that ran and exited successfully.
pub open spec fn succeeded() -> EventView {
    EventView::Ran(RunReport::Exited { success: true })
}

/// The outcomes of a docker chore's round in which everything succeeds: the
/// terminal clears, the listing shows, the user answers `a`, the command
/// succeeds, the containers show again for the chores that show them, and
/// the user says `yes` or no to another round.
pub open spec fn round_events(c: Chore, a: Seq<Seq<char>>, yes: bool) -> Seq<EventView> {
    seq![succeeded(), succeeded(), EventView::Answered(a), succeeded()]
        + (if shows_ps(c) { seq![succeeded()] } else { Seq::empty() })
        + seq![EventView::Confirmed(yes)]
}

/// The actions of such a round, after the terminal was cleared: the listing,
/// the questions, the command with the answers, the containers for the
/// chores that show them, the question whether to go on, then either
/// clearing the terminal for the next round or the end of the chore.
pub open spec fn round_actions(c: Chore, a: Seq<Seq<char>>, yes: bool) -> Seq<ActionView> {
    seq![
        ActionView::Run(listing_of(c)),
        ActionView::Ask(prompts_of(c)),
        ActionView::Run(command_of(c, a)),
    ] + (if shows_ps(c) { seq![ActionView::Run(ps_call())] } else { Seq::empty() }) + seq![
        ActionView::Confirm(question_of(c)),
        if yes { ActionView::Run(clear_call()) } else { ActionView::Finish(Ok(())) },
    ]
}

/// One successful round of a docker chore, from the cleared terminal.
pub proof fn lemma_round(c: Chore, a: Seq<Seq<char>>, yes: bool)
    requires
        c != Chore::Jump,
    ensures
        drive(c, Stage::Clearing, round_events(c, a, yes))
            == (if yes { Stage::Clearing } else { Stage::Finished }, round_actions(c, a, yes)),
{
    reveal_with_fuel(drive, 7);
    let es = round_events(c, a, yes);
    if shows_ps(c) {
        assert(es =~= seq![succeeded(), succeeded(), EventView::Answered(a), succeeded(), succeeded(), EventView::Confirmed(yes)]);
        assert(es.drop_first() =~= seq![succeeded(), EventView::Answered(a), succeeded(), succeeded(), EventView::Confirmed(yes)]);
        assert(es.drop_first().drop_first() =~= seq![EventView::Answered(a), succeeded(), succeeded(), EventView::Confirmed(yes)]);
        assert(es.drop_first().drop_first().drop_first() =~= seq![succeeded(), succeeded(), EventView::Confirmed(yes)]);
        assert(es.drop_first().drop_first().drop_first().drop_first() =~= seq![succeeded(), EventView::Confirmed(yes)]);
        assert(es.drop_first().drop_first().drop_first().drop_first().drop_first() =~= seq![EventView::Confirmed(yes)]);
        assert(seq![EventView::Confirmed(yes)].drop_first() =~= Seq::<EventView>::empty());
    } else {
        assert(es =~= seq![succeeded(), succeeded(), EventView::Answered(a), succeeded(), EventView::Confirmed(yes)]);
        assert(es.drop_first() =~= seq![succeeded(), EventView::Answered(a), succeeded(), EventView::Confirmed(yes)]);
        assert(es.drop_first().drop_first() =~= seq![EventView::Answered(a), succeeded(), EventView::Confirmed(yes)]);
        assert(es.drop_first().drop_first().drop_first() =~= seq![succeeded(), EventView::Confirmed(yes)]);
        assert(es.drop_first().drop_first().drop_first().drop_first() =~= seq![EventView::Confirmed(yes)]);
        assert(seq![EventView::Confirmed(yes)].drop_first() =~= Seq::<EventView>::empty());
    }
    assert(drive(c, Stage::Clearing, es).1 =~= round_actions(c, a, yes));
}

/// The outcomes of successive successful rounds with the answers `rs`, the
/// user accepting another round after each but the last.
pub open spec fn rounds_events(c: Chore, rs: Seq<Seq<Seq<char>>>) -> Seq<EventView>
    decreases rs.len(),
{
    if rs.len() == 0 {
        Seq::empty()
    } else if rs.len() == 1 {
        round_events(c, rs[0], false)
    } else {
        round_events(c, rs[0], true) + rounds_events(c, rs.drop_first())
    }
}

/// The actions of those rounds.
pub open spec fn rounds_actions(c: Chore, rs: Seq<Seq<Seq<char>>>) -> Seq<ActionView>
    decreases rs.len(),
{
    if rs.len() == 0 {
        Seq::empty()
    } else if rs.len() == 1 {
        round_actions(c, rs[0], false)
    } else {
        round_actions(c, rs[0], true) + rounds_actions(c, rs.drop_first())
    }
}

proof fn lemma_rounds_from_clearing(c: Chore, rs: Seq<Seq<Seq<char>>>)
    requires
        c != Chore::Jump,
        rs.len() > 0,
    ensures
        drive(c, Stage::Clearing, rounds_events(c, rs)) == (Stage::Finished, rounds_actions(c, rs)),
    decreases rs.len(),
{
    if rs.len() == 1 {
        lemma_round(c, rs[0], false);
    } else {
        lemma_round(c, rs[0], true);
        lemma_rounds_from_clearing(c, rs.drop_first());
        lemma_drive_concat(c, Stage::Clearing, round_events(c, rs[0], true), rounds_events(c, rs.drop_first()));
    }
}

/// A docker chore whose every program succeeds, run with the answers `rs`
/// round after round, the user accepting another round after each but the
/// last: it clears the terminal, goes through exactly those rounds, each
/// running its command with that round's answers, and ends successfully.
pub proof fn lemma_chore_rounds(c: Chore, rs: Seq<Seq<Seq<char>>>)
    requires
        c != Chore::Jump,
        rs.len() > 0,
    ensures
        drive(c, Stage::Idle, seq![EventView::Begin] + rounds_events(c, rs))
            == (Stage::Finished, seq![ActionView::Run(clear_call())] + rounds_actions(c, rs)),
{
    lemma_rounds_from_clearing(c, rs);
    lemma_drive_concat(c, Stage::Idle, seq![EventView::Begin], rounds_events(c, rs));
    reveal_with_fuel(drive, 2);
    assert(seq![EventView::Begin].drop_first() =~= Seq::<EventView>::empty());
}

/// A round of a chore that ends on failure (remove, stop, start, restart)
/// whose command fails: after the listing, the questions and the command,
/// the chore ends with its error and asks nothing more.
pub proof fn lemma_failed_round(c: Chore, a: Seq<Seq<char>>, r: RunReport)
    requires
        failure_of(c) is Some,
        r != (RunReport::Exited { success: true }),
    ensures
        drive(c, Stage::Clearing, seq![succeeded(), succeeded(), EventView::Answered(a), EventView::Ran(r)]) == (
            Stage::Finished,
            seq![
                ActionView::Run(listing_of(c)),
                ActionView::Ask(prompts_of(c)),
                ActionView::Run(command_of(c, a)),
                ActionView::Finish(Err(failure_of(c)->0)),
            ],
        ),
{
    reveal_with_fuel(drive, 5);
    let es = seq![succeeded(), succeeded(), EventView::Answered(a), EventView::Ran(r)];
    assert(es.drop_first() =~= seq![succeeded(), EventView::Answered(a), EventView::Ran(r)]);
    assert(es.drop_first().drop_first() =~= seq![EventView::Answered(a), EventView::Ran(r)]);
    assert(es.drop_first().drop_first().drop_first() =~= seq![EventView::Ran(r)]);
    assert(seq![EventView::Ran(r)].drop_first() =~= Seq::<EventView>::empty());
    assert(drive(c, Stage::Clearing, es).1 =~= seq![
        ActionView::Run(listing_of(c)),
        ActionView::Ask(prompts_of(c)),
        ActionView::Run(command_of(c, a)),
        ActionView::Finish(Err(failure_of(c)->0)),
    ]);
}


/// The outcomes of a round of jumping between folders in which the move
/// succeeds: the user picks the folder `d`, the current folder changes, and
/// the user says `yes` or no to another jump.
pub open spec fn jump_events(d: Seq<char>, yes: bool) -> Seq<EventView> {
    seq![EventView::Answered(seq![d]), EventView::Changed(true), EventView::Confirmed(yes)]
}

/// The actions of such a round, after the folders were offered: the move
/// into `d`, the question whether to jump again, then either offering the
/// folders again or the end of the chore.
pub open spec fn jump_actions(d: Seq<char>, yes: bool) -> Seq<ActionView> {
    seq![
        ActionView::ChangeDir(d),
        ActionView::Confirm(question_of(Chore::Jump)),
        if yes { ActionView::Pick(pick_message()) } else { ActionView::Finish(Ok(())) },
    ]
}

/// One successful round of jumping, from the folders offered.
pub proof fn lemma_jump(d: Seq<char>, yes: bool)
    ensures
        drive(Chore::Jump, Stage::Picking, jump_events(d, yes))
            == (if yes { Stage::Picking } else { Stage::Finished }, jump_actions(d, yes)),
{
    reveal_with_fuel(drive, 4);
    let es = jump_events(d, yes);
    assert(es.drop_first() =~= seq![EventView::Changed(true), EventView::Confirmed(yes)]);
    assert(es.drop_first().drop_first() =~= seq![EventView::Confirmed(yes)]);
    assert(seq![EventView::Confirmed(yes)].drop_first() =~= Seq::<EventView>::empty());
    assert(seq![d].len() == 1 && seq![d][0] == d);
    assert(drive(Chore::Jump, Stage::Picking, es).1 =~= jump_actions(d, yes));
}

/// The outcomes of successive successful jumps into the folders `ds`, the
/// user accepting another jump after each but the last.
pub open spec fn jumps_events(ds: Seq<Seq<char>>) -> Seq<EventView>
    decreases ds.len(),
{
    if ds.len() == 0 {
        Seq::empty()
    } else if ds.len() == 1 {
        jump_events(ds[0], false)
    } else {
        jump_events(ds[0], true) + jumps_events(ds.drop_first())
    }
}

/// The actions of those jumps.
pub open spec fn jumps_actions(ds: Seq<Seq<char>>) -> Seq<ActionView>
    decreases ds.len(),
{
    if ds.len() == 0 {
        Seq::empty()
    } else if ds.len() == 1 {
        jump_actions(ds[0], false)
    } else {
        jump_actions(ds[0], true) + jumps_actions(ds.drop_first())
    }
}

proof fn lemma_jumps_from_picking(ds: Seq<Seq<char>>)
    requires
        ds.len() > 0,
    ensures
        drive(Chore::Jump, Stage::Picking, jumps_events(ds)) == (Stage::Finished, jumps_actions(ds)),
    decreases ds.len(),
{
    if ds.len() == 1 {
        lemma_jump(ds[0], false);
    } else {
        lemma_jump(ds[0], true);
        lemma_jumps_from_picking(ds.drop_first());
        lemma_drive_concat(Chore::Jump, Stage::Picking, jump_events(ds[0], true), jumps_events(ds.drop_first()));
    }
}

/// The moves of a jump chore, in order.
pub open spec fn moves(acts: Seq<ActionView>) -> Seq<Seq<char>>
    decreases acts.len(),
{
    if acts.len() == 0 {
        Seq::empty()
    } else {
        moves(acts.drop_last()) + match acts.last() {
            ActionView::ChangeDir(d) => seq![d],
            _ => Seq::empty(),
        }
    }
}

proof fn lemma_moves_concat(a: Seq<ActionView>, b: Seq<ActionView>)
    ensures
        moves(a + b) == moves(a) + moves(b),
    decreases b.len(),
{
    if b.len() == 0 {
        assert(a + b =~= a);
        assert(moves(a) + moves(b) =~= moves(a));
    } else {
        lemma_moves_concat(a, b.drop_last());
        assert((a + b).drop_last() =~= a + b.drop_last());
        assert((a + b).last() == b.last());
        assert(moves(a) + moves(b.drop_last()) + moves(seq![b.last()]) =~= moves(a) + (moves(b.drop_last()) + moves(seq![b.last()])));
    }
}

proof fn lemma_jumps_moves(ds: Seq<Seq<char>>)
    ensures
        moves(jumps_actions(ds)) == ds,
    decreases ds.len(),
{
    if ds.len() > 0 {
        let yes = ds.len() > 1;
        let j = jump_actions(ds[0], yes);
        reveal_with_fuel(moves, 4);
        assert(j.drop_last().drop_last().drop_last() =~= Seq::<ActionView>::empty());
        assert(moves(j) =~= seq![ds[0]]);
        if ds.len() == 1 {
            assert(seq![ds[0]] =~= ds);
        } else {
            lemma_jumps_moves(ds.drop_first());
            lemma_moves_concat(j, jumps_actions(ds.drop_first()));
            assert(seq![ds[0]] + ds.drop_first() =~= ds);
        }
    }
}

/// A jump chore whose every move succeeds, the user picking the folders `ds`
/// one after the other and accepting another jump after each but the last:
/// it offers the folders, goes through exactly those rounds, moves into
/// each picked folder in the order picked and into no other, and ends
/// successfully.
pub proof fn lemma_jump_rounds(ds: Seq<Seq<char>>)
    requires
        ds.len() > 0,
    ensures
        drive(Chore::Jump, Stage::Idle, seq![EventView::Begin] + jumps_events(ds))
            == (Stage::Finished, seq![ActionView::Pick(pick_message())] + jumps_actions(ds)),
        moves(seq![ActionView::Pick(pick_message())] + jumps_actions(ds)) == ds,
{
    lemma_jumps_from_picking(ds);
    lemma_drive_concat(Chore::Jump, Stage::Idle, seq![EventView::Begin], jumps_events(ds));
    reveal_with_fuel(drive, 2);
    assert(seq![EventView::Begin].drop_first() =~= Seq::<EventView>::empty());
    lemma_jumps_moves(ds);
    let head = seq![ActionView::Pick(pick_message())];
    lemma_moves_concat(head, jumps_actions(ds));
    reveal_with_fuel(moves, 2);
    assert(head.drop_last() =~= Seq::<ActionView>::empty());
    assert(moves(head) =~= Seq::<Seq<char>>::empty());
    assert(Seq::<Seq<char>>::empty() + ds =~= ds);
}

} // verus!
