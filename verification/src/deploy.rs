//! Deployments: the plans that bring the configured containers up to date,
//! on this machine and on every server.
use vstd::prelude::*;
use crate::error::DockError;
use crate::config::{
    array_of, servers, spec_servers, text_of, text_or_empty, value_get, TomlValue,
};
use crate::invocation::{ssh_call, ssh_run, strings, text, texts, upload_call, upload_image};
use crate::plan::{extend, only, push_step, steps_view, Halt, OnWait, PathKind, Rule, Step, StepView, Then};
use crate::commands::{check_connexion, connexion_steps, docker_run, docker_step, ssh_rule};
use crate::messages::{decimal, decimal_string, started_message};

verus! {

/// Whether a list of steps ends by stopping the program.
pub open spec fn halts(a: Seq<StepView>) -> bool {
    a.len() > 0 && a.last() is Abort
}

/// The steps of `a`, then those of `b` unless `a` stops the program.
pub open spec fn and_then(a: Seq<StepView>, b: Seq<StepView>) -> Seq<StepView> {
    if halts(a) { a } else { a + b }
}

proof fn lemma_halts_concat(a: Seq<StepView>, b: Seq<StepView>)
    requires
        b.len() > 0,
    ensures
        halts(a + b) == halts(b),
{
    assert((a + b).last() == b.last());
}

// ---------------------------------------------------------------- local

/// The folder of a local container.
pub open spec fn compose_dir(name: Seq<char>) -> Seq<char> {
    "./containers/"@ + name
}

/// The steps that bring one local container up to date: its folder and its
/// `compose.yaml` must exist, then `docker compose down`, `pull` and `up -d`
/// run in the folder, each of which must succeed.
pub open spec fn local_container_steps(name: Seq<char>) -> Seq<StepView> {
    let dir = compose_dir(name);
    seq![
        StepView::Expect { path: dir, kind: PathKind::Dir, error: DockError::ContainerNotADir, then: Then::PassOn },
        StepView::Expect {
            path: dir + "/compose.yaml"@,
            kind: PathKind::File,
            error: DockError::ContainerNotADir,
            then: Then::PassOn,
        },
        docker_run("compose"@, seq!["down"@], dir, Then::Abort(Halt::LocalStop)),
        docker_run("compose"@, seq!["pull"@], dir, Then::Abort(Halt::LocalUpdate)),
        docker_run("compose"@, seq!["up"@, "-d"@], dir, Then::Abort(Halt::LocalStart)),
    ]
}

/// The steps for the local containers, in order; an item that is not a
/// string names the container with the empty text.
pub open spec fn local_steps(items: Seq<TomlValue>) -> Seq<StepView>
    decreases items.len(),
{
    if items.len() == 0 {
        Seq::empty()
    } else {
        local_steps(items.drop_last()) + local_container_steps(text_or_empty(Some(items.last())))
    }
}

/// The plan of a local deployment.
pub open spec fn local_plan(config: Result<TomlValue, DockError>) -> Seq<StepView> {
    match config {
        Err(_) => seq![StepView::Fail(DockError::LocalConfigNotFound)],
        Ok(TomlValue::Table(entries)) => match crate::config::lookup(entries@, "local"@) {
            None => seq![StepView::Fail(DockError::MissingLocal)],
            Some(local) => match array_of(value_get(local, "containers"@)) {
                None => seq![StepView::Abort(Halt::MissingValue)],
                Some(items) => local_steps(items),
            },
        },
        Ok(_) => seq![StepView::Fail(DockError::InvalidDockerConfig)],
    }
}

/// `docker compose <action>` in the folder `dir`.
fn compose(action: &[&str], dir: &str, halt: Halt) -> (s: Step)
    ensures
        s@ == docker_run("compose"@, action@.map_values(|w: &str| w@), dir@, Then::Abort(halt)),
{
    docker_step("compose", strings(action), dir, Then::Abort(halt))
}

/// The steps that bring one local container up to date.
fn local_container(name: &str) -> (p: Vec<Step>)
    ensures
        steps_view(p@) == local_container_steps(name@),
{
    let mut dir = text("./containers/");
    dir.append(name);
    let mut file = text("./containers/");
    file.append(name);
    file.append("/compose.yaml");
    let mut p = only(Step::Expect {
        path: dir.clone(),
        kind: PathKind::Dir,
        error: DockError::ContainerNotADir,
        then: Then::PassOn,
    });
    push_step(&mut p, Step::Expect { path: file, kind: PathKind::File, error: DockError::ContainerNotADir, then: Then::PassOn });
    push_step(&mut p, compose(&["down"], dir.as_str(), Halt::LocalStop));
    push_step(&mut p, compose(&["pull"], dir.as_str(), Halt::LocalUpdate));
    push_step(&mut p, compose(&["up", "-d"], dir.as_str(), Halt::LocalStart));
    proof {
        assert(["down"]@.map_values(|w: &str| w@) =~= seq!["down"@]);
        assert(["pull"]@.map_values(|w: &str| w@) =~= seq!["pull"@]);
        assert(["up", "-d"]@.map_values(|w: &str| w@) =~= seq!["up"@, "-d"@]);
        assert(steps_view(p@) =~= local_container_steps(name@));
    }
    p
}

/// Deploys the containers listed under `local` on this machine: for each,
/// in order, its folder `./containers/<name>` and the file `compose.yaml` in
/// it must exist, then docker compose stops, updates and starts it again.
/// The configuration must have been read and be a table with a `local` entry.
pub fn deploy_local(config: &Result<TomlValue, DockError>) -> (p: Vec<Step>)
    ensures
        steps_view(p@) == local_plan(*config),
{
    match config {
        Err(_) => only(Step::Fail(DockError::LocalConfigNotFound)),
        Ok(doc) => match doc {
            TomlValue::Table(_) => match doc.get("local") {
                None => only(Step::Fail(DockError::MissingLocal)),
                Some(local) => match local.get("containers") {
                    Some(TomlValue::Array(items)) => {
                        let mut p: Vec<Step> = Vec::new();
                        let mut i: usize = 0;
                        while i < items.len()
                            invariant
                                i <= items@.len(),
                                steps_view(p@) == local_steps(items@.take(i as int)),
                            decreases items@.len() - i,
                        {
                            proof {
                                assert(items@.take(i + 1).drop_last() =~= items@.take(i as int));
                            }
                            let name: &str = match items[i].as_text() {
                                Some(s) => s.as_str(),
                                None => "",
                            };
                            proof {
                                reveal_strlit("");
                                assert(name@ == text_or_empty(Some(items@[i as int])));
                            }
                            extend(&mut p, local_container(name));
                            i = i + 1;
                        }
                        proof {
                            assert(items@.take(items@.len() as int) =~= items@);
                        }
                        p
                    },
                    _ => only(Step::Abort(Halt::MissingValue)),
                },
            },
            _ => only(Step::Fail(DockError::InvalidDockerConfig)),
        },
    }
}

// --------------------------------------------------------------- remote

/// `<a><x><b><y> server`: the shape of the lines a remote deployment prints.
pub open spec fn framed(a: Seq<char>, x: Seq<char>, b: Seq<char>, y: Seq<char>) -> Seq<char> {
    a + x + b + y + " server"@
}

/// `<a><x><b><y> server`.
fn frame(a: &str, x: &str, b: &str, y: &str) -> (m: String)
    ensures
        m@ == framed(a@, x@, b@, y@),
{
    let mut m = text(a);
    m.append(x);
    m.append(b);
    m.append(y);
    m.append(" server");
    m
}

/// `docker compose --project-directory <image> <action..>`.
pub open spec fn remote_compose(image: Seq<char>, action: Seq<Seq<char>>) -> Seq<Seq<char>> {
    seq!["docker"@, "compose"@, "--project-directory"@, image] + action
}

/// A step that runs docker compose for `image` on the server, over ssh.
pub open spec fn remote_compose_run(
    user: Seq<char>,
    ip: Seq<char>,
    image: Seq<char>,
    action: Seq<Seq<char>>,
    halt: Halt,
) -> StepView {
    StepView::Run { call: ssh_call(remote_compose(image, action), user, ip), rule: ssh_rule(), then: Then::Abort(halt) }
}

/// The steps that deploy one container on a server: copy its folder with
/// rsync, then stop, update and start it with docker compose over ssh, each
/// of which must succeed, printing a line before and after each stage.
pub open spec fn image_steps(
    server: Seq<char>,
    user: Seq<char>,
    ip: Seq<char>,
    port: Seq<char>,
    image: Seq<char>,
) -> Seq<StepView> {
    seq![
        StepView::Log(framed("Deploying "@, image, " docker container on "@, server)),
        StepView::Run {
            call: upload_call(user, ip, image, port),
            rule: Rule::Started { missing: DockError::RsyncNotFound, on_wait: OnWait::PassOn },
            then: Then::Abort(Halt::Upload),
        },
        StepView::Log(framed("The "@, image, " has been deployed successfully on the "@, server)),
        StepView::Log(framed("Stopping "@, image, " before update on the "@, server)),
        remote_compose_run(user, ip, image, seq!["down"@], Halt::RemoteStop),
        StepView::Log(framed("Updating the "@, image, " container on the "@, server)),
        remote_compose_run(user, ip, image, seq!["pull"@], Halt::RemoteUpdate),
        StepView::Log(framed("The "@, image, " container has been updated successfully on the "@, server)),
        StepView::Log(framed("Restarting the "@, image, " after upgrade on the "@, server)),
        remote_compose_run(user, ip, image, seq!["up"@, "-d"@], Halt::RemoteStart),
        StepView::Log(framed("The "@, image, " has been restarted successfully on the "@, server)),
    ]
}

/// The steps for the containers of a server, in order, up to the first item
/// that is not a string, which stops the program.
pub open spec fn images_steps(
    server: Seq<char>,
    user: Seq<char>,
    ip: Seq<char>,
    port: Seq<char>,
    items: Seq<TomlValue>,
) -> Seq<StepView>
    decreases items.len(),
{
    if items.len() == 0 {
        Seq::empty()
    } else {
        and_then(
            images_steps(server, user, ip, port, items.drop_last()),
            match text_of(Some(items.last())) {
                Some(image) => image_steps(server, user, ip, port, image),
                None => seq![StepView::Abort(Halt::MissingValue)],
            },
        )
    }
}

/// The steps for one server: its `username`, `port`, `ip` (strings) and
/// `containers` (an array) must be there, else the program stops; the server
/// must answer, then each container is deployed.
pub open spec fn server_steps(server: Seq<char>, entry: Option<TomlValue>) -> Seq<StepView> {
    match entry {
        None => Seq::empty(),
        Some(e) => {
            let user = text_of(value_get(e, "username"@));
            let port = text_of(value_get(e, "port"@));
            let ip = text_of(value_get(e, "ip"@));
            let items = array_of(value_get(e, "containers"@));
            if user is Some && port is Some && ip is Some && items is Some {
                connexion_steps(ip->0, port->0, Then::Abort(Halt::Unreachable))
                    + images_steps(server, user->0, ip->0, port->0, items->0)
            } else {
                seq![StepView::Abort(Halt::MissingValue)]
            }
        },
    }
}

/// The steps for the servers, in order, up to the first that stops the program.
pub open spec fn servers_steps(doc: TomlValue, names: Seq<Seq<char>>) -> Seq<StepView>
    decreases names.len(),
{
    if names.len() == 0 {
        Seq::empty()
    } else {
        and_then(
            servers_steps(doc, names.drop_last()),
            server_steps(names.last(), value_get(doc, names.last())),
        )
    }
}

/// The line that opens a remote deployment on `n` servers.
pub open spec fn park_message(n: nat) -> Seq<char> {
    "Deploying docker containers on "@ + decimal(n) + if n > 1 { " servers"@ } else { " server"@ }
}

/// The plan of a remote deployment. When the configuration is not a table
/// there is nothing to deploy, and the deployment succeeds.
pub open spec fn remote_plan(config: Result<TomlValue, DockError>) -> Seq<StepView> {
    match config {
        Err(_) => seq![StepView::Fail(DockError::RemoteConfigNotFound)],
        Ok(doc) => match spec_servers(Ok(doc)) {
            Err(_) => Seq::empty(),
            Ok(names) => seq![StepView::Log(park_message(names.len()))] + servers_steps(doc, names),
        },
    }
}

/// The steps that deploy one container on a server.
fn image_plan(server: &str, user: &str, ip: &str, port: &str, image: &str) -> (p: Vec<Step>)
    ensures
        steps_view(p@) == image_steps(server@, user@, ip@, port@, image@),
{
    let mut p = only(Step::Log(frame("Deploying ", image, " docker container on ", server)));
    push_step(&mut p, Step::Run {
        call: upload_image(user, ip, image, port),
        rule: Rule::Started { missing: DockError::RsyncNotFound, on_wait: OnWait::PassOn },
        then: Then::Abort(Halt::Upload),
    });
    push_step(&mut p, Step::Log(frame("The ", image, " has been deployed successfully on the ", server)));
    push_step(&mut p, Step::Log(frame("Stopping ", image, " before update on the ", server)));
    let down = strings(&["docker", "compose", "--project-directory", image, "down"]);
    push_step(&mut p, Step::Run {
        call: ssh_run(down, user, ip),
        rule: Rule::Started { missing: DockError::SshNotFound, on_wait: OnWait::PassOn },
        then: Then::Abort(Halt::RemoteStop),
    });
    push_step(&mut p, Step::Log(frame("Updating the ", image, " container on the ", server)));
    let pull = strings(&["docker", "compose", "--project-directory", image, "pull"]);
    push_step(&mut p, Step::Run {
        call: ssh_run(pull, user, ip),
        rule: Rule::Started { missing: DockError::SshNotFound, on_wait: OnWait::PassOn },
        then: Then::Abort(Halt::RemoteUpdate),
    });
    push_step(&mut p, Step::Log(frame("The ", image, " container has been updated successfully on the ", server)));
    push_step(&mut p, Step::Log(frame("Restarting the ", image, " after upgrade on the ", server)));
    let up = strings(&["docker", "compose", "--project-directory", image, "up", "-d"]);
    push_step(&mut p, Step::Run {
        call: ssh_run(up, user, ip),
        rule: Rule::Started { missing: DockError::SshNotFound, on_wait: OnWait::PassOn },
        then: Then::Abort(Halt::RemoteStart),
    });
    push_step(&mut p, Step::Log(frame("The ", image, " has been restarted successfully on the ", server)));
    proof {
        assert(["docker", "compose", "--project-directory", image, "down"]@.map_values(|w: &str| w@)
            =~= remote_compose(image@, seq!["down"@]));
        assert(["docker", "compose", "--project-directory", image, "pull"]@.map_values(|w: &str| w@)
            =~= remote_compose(image@, seq!["pull"@]));
        assert(["docker", "compose", "--project-directory", image, "up", "-d"]@.map_values(|w: &str| w@)
            =~= remote_compose(image@, seq!["up"@, "-d"@]));
        assert(steps_view(p@) =~= image_steps(server@, user@, ip@, port@, image@));
    }
    p
}

/// The steps for the containers of a server, and whether they stop the program.
fn images_plan(server: &str, user: &str, ip: &str, port: &str, items: &Vec<TomlValue>) -> (r: (Vec<Step>, bool))
    ensures
        steps_view(r.0@) == images_steps(server@, user@, ip@, port@, items@),
        r.1 == halts(steps_view(r.0@)),
{
    let mut p: Vec<Step> = Vec::new();
    let mut stopped = false;
    let mut i: usize = 0;
    while i < items.len()
        invariant
            i <= items@.len(),
            steps_view(p@) == images_steps(server@, user@, ip@, port@, items@.take(i as int)),
            stopped == halts(steps_view(p@)),
        decreases items@.len() - i,
    {
        proof {
            assert(items@.take(i + 1).drop_last() =~= items@.take(i as int));
        }
        if !stopped {
            let ghost before = steps_view(p@);
            match items[i].as_text() {
                Some(image) => {
                    let more = image_plan(server, user, ip, port, image.as_str());
                    let ghost mv = steps_view(more@);
                    extend(&mut p, more);
                    proof {
                        lemma_halts_concat(before, mv);
                    }
                    stopped = false;
                },
                None => {
                    push_step(&mut p, Step::Abort(Halt::MissingValue));
                    proof {
                        lemma_halts_concat(before, seq![StepView::Abort(Halt::MissingValue)]);
                        assert(steps_view(p@) =~= before + seq![StepView::Abort(Halt::MissingValue)]);
                    }
                    stopped = true;
                },
            }
        }
        i = i + 1;
    }
    proof {
        assert(items@.take(items@.len() as int) =~= items@);
    }
    (p, stopped)
}

/// The text under `key` in `v`, when there is one.
fn field_text<'a>(v: &'a TomlValue, key: &str) -> (r: Option<&'a String>)
    ensures
        match r {
            Some(s) => text_of(value_get(*v, key@)) == Some(s@),
            None => text_of(value_get(*v, key@)) is None,
        },
{
    match v.get(key) {
        Some(x) => x.as_text(),
        None => None,
    }
}

/// The steps for one server, and whether they stop the program.
fn server_plan(server: &str, entry: Option<&TomlValue>) -> (r: (Vec<Step>, bool))
    ensures
        steps_view(r.0@) == server_steps(server@, crate::config::deref_opt(entry)),
        r.1 == halts(steps_view(r.0@)),
{
    match entry {
        None => {
            let p: Vec<Step> = Vec::new();
            proof { assert(steps_view(p@) =~= Seq::<StepView>::empty()); }
            (p, false)
        },
        Some(e) => {
            let user = field_text(e, "username");
            let port = field_text(e, "port");
            let ip = field_text(e, "ip");
            let items = match e.get("containers") {
                Some(x) => x.as_array(),
                None => None,
            };
            match (user, port, ip, items) {
                (Some(user), Some(port), Some(ip), Some(items)) => {
                    let mut p = check_connexion(ip.as_str(), port.as_str(), Then::Abort(Halt::Unreachable));
                    let (more, stopped) = images_plan(server, user.as_str(), ip.as_str(), port.as_str(), items);
                    let ghost before = steps_view(p@);
                    let ghost mv = steps_view(more@);
                    extend(&mut p, more);
                    proof {
                        if mv.len() > 0 {
                            lemma_halts_concat(before, mv);
                        } else {
                            assert(steps_view(p@) =~= before);
                        }
                    }
                    (p, stopped)
                },
                _ => (only(Step::Abort(Halt::MissingValue)), true),
            }
        },
    }
}

/// The line that opens a remote deployment on `n` servers.
fn park_line(n: usize) -> (m: String)
    ensures
        m@ == park_message(n as nat),
{
    let mut m = text("Deploying docker containers on ");
    let d = decimal_string(n as u64);
    m.append(d.as_str());
    if n > 1 {
        m.append(" servers");
    } else {
        m.append(" server");
    }
    m
}

/// Deploys the containers of every server the configuration names, server
/// after server in the order `servers` gives them (the table's order): the
/// server must answer on its port, then for each container, in order, its folder is copied there with
/// rsync and docker compose stops, updates and starts it again over ssh.
/// Every stage must succeed, or the program stops. The configuration must
/// have been read; when it is not a table nothing is deployed.
pub fn deploy_to_remote(config: &Result<TomlValue, DockError>) -> (p: Vec<Step>)
    ensures
        steps_view(p@) == remote_plan(*config),
{
    match config {
        Err(_) => only(Step::Fail(DockError::RemoteConfigNotFound)),
        Ok(doc) => match servers(config) {
            Err(_) => {
                let p: Vec<Step> = Vec::new();
                proof { assert(steps_view(p@) =~= Seq::<StepView>::empty()); }
                p
            },
            Ok(names) => {
                let mut p = only(Step::Log(park_line(names.len())));
                let ghost head = steps_view(p@);
                let mut rest: Vec<Step> = Vec::new();
                let mut stopped = false;
                let mut i: usize = 0;
                proof {
                    assert(steps_view(rest@) =~= Seq::<StepView>::empty());
                    assert(texts(names@).take(0) =~= Seq::<Seq<char>>::empty());
                }
                while i < names.len()
                    invariant
                        i <= names@.len(),
                        steps_view(rest@) == servers_steps(*doc, texts(names@).take(i as int)),
                        stopped == halts(steps_view(rest@)),
                    decreases names@.len() - i,
                {
                    proof {
                        assert(texts(names@).take(i + 1).drop_last() =~= texts(names@).take(i as int));
                        assert(texts(names@).take(i + 1).last() == names@[i as int]@);
                    }
                    if !stopped {
                        let ghost before = steps_view(rest@);
                        let (more, halted) = server_plan(names[i].as_str(), doc.get(names[i].as_str()));
                        let ghost mv = steps_view(more@);
                        let nonempty = more.len() > 0;
                        extend(&mut rest, more);
                        proof {
                            if mv.len() > 0 {
                                lemma_halts_concat(before, mv);
                            } else {
                                assert(steps_view(rest@) =~= before);
                            }
                        }
                        stopped = if nonempty { halted } else { stopped };
                    }
                    i = i + 1;
                }
                proof {
                    assert(texts(names@).take(names@.len() as int) =~= texts(names@));
                }
                extend(&mut p, rest);
                p
            },
        },
    }
}

// -------------------------------------------------------------- checks

/// The step that lists the containers running on a server, when its entry
/// has a `username` and an `ip` (a value that is not a string reads as the
/// empty text).
pub open spec fn server_check(doc: TomlValue, name: Seq<char>) -> Seq<StepView> {
    let entry = value_get(doc, name);
    let user = match entry { Some(e) => value_get(e, "username"@), None => None };
    let ip = match entry { Some(e) => value_get(e, "ip"@), None => None };
    if user is Some && ip is Some {
        seq![StepView::Run {
            call: ssh_call(seq!["docker"@, "ps"@], text_or_empty(user), text_or_empty(ip)),
            rule: ssh_rule(),
            then: Then::Abort(Halt::Running),
        }]
    } else {
        Seq::empty()
    }
}

/// The checks of the servers, in order.
pub open spec fn running_steps(doc: TomlValue, names: Seq<Seq<char>>) -> Seq<StepView>
    decreases names.len(),
{
    if names.len() == 0 {
        Seq::empty()
    } else {
        running_steps(doc, names.drop_last()) + server_check(doc, names.last())
    }
}

/// The plan that lists the containers running on every server.
pub open spec fn running_plan(config: Result<TomlValue, DockError>) -> Seq<StepView> {
    match config {
        Err(e) => seq![StepView::Fail(e)],
        Ok(doc) => match spec_servers(Ok(doc)) {
            Err(e) => seq![StepView::Fail(e)],
            Ok(names) => running_steps(doc, names),
        },
    }
}

/// The text of an optional value, or the empty text.
fn text_or_blank(v: Option<&TomlValue>) -> (t: &str)
    ensures
        t@ == text_or_empty(crate::config::deref_opt(v)),
{
    proof { reveal_strlit(""); }
    match v {
        Some(x) => match x.as_text() {
            Some(s) => s.as_str(),
            None => "",
        },
        None => "",
    }
}

/// Lists the containers running on every server the configuration names
/// that has a `username` and an `ip`; each listing must succeed. An error in
/// reading the configuration is passed on, and it must be a table.
pub fn dock_running(config: &Result<TomlValue, DockError>) -> (p: Vec<Step>)
    ensures
        steps_view(p@) == running_plan(*config),
{
    match config {
        Err(e) => only(Step::Fail(e.duplicate())),
        Ok(doc) => match servers(config) {
            Err(e) => only(Step::Fail(e)),
            Ok(names) => {
                let mut p: Vec<Step> = Vec::new();
                let mut i: usize = 0;
                proof {
                    assert(steps_view(p@) =~= Seq::<StepView>::empty());
                }
                while i < names.len()
                    invariant
                        i <= names@.len(),
                        steps_view(p@) == running_steps(*doc, texts(names@).take(i as int)),
                    decreases names@.len() - i,
                {
                    proof {
                        assert(texts(names@).take(i + 1).drop_last() =~= texts(names@).take(i as int));
                        assert(texts(names@).take(i + 1).last() == names@[i as int]@);
                    }
                    let entry = doc.get(names[i].as_str());
                    let user = match entry { Some(e) => e.get("username"), None => None };
                    let ip = match entry { Some(e) => e.get("ip"), None => None };
                    let ghost before = steps_view(p@);
                    if user.is_some() && ip.is_some() {
                        let args = strings(&["docker", "ps"]);
                        proof { assert(["docker", "ps"]@.map_values(|w: &str| w@) =~= seq!["docker"@, "ps"@]); }
                        let call = ssh_run(args, text_or_blank(user), text_or_blank(ip));
                        push_step(&mut p, Step::Run {
                            call,
                            rule: Rule::Started { missing: DockError::SshNotFound, on_wait: OnWait::PassOn },
                            then: Then::Abort(Halt::Running),
                        });
                    } else {
                        proof { assert(before + Seq::<StepView>::empty() =~= before); }
                    }
                    i = i + 1;
                }
                proof {
                    assert(texts(names@).take(names@.len() as int) =~= texts(names@));
                }
                p
            },
        },
    }
}

// ---------------------------------------------------------- whole deploy

/// What a caller that asserts success does in place of returning an error:
/// it stops the program with `h`.
pub open spec fn strict_then(t: Then, h: Halt) -> Then {
    match t {
        Then::PassOn => Then::Abort(h),
        Then::Replace(_) => Then::Abort(h),
        _ => t,
    }
}

/// A step as a caller that asserts the plan's success runs it: every error
/// the plan would return stops the program with `h`.
pub open spec fn strict_step(s: StepView, h: Halt) -> StepView {
    match s {
        StepView::Run { call, rule, then } => StepView::Run { call, rule, then: strict_then(then, h) },
        StepView::Probe { call, ip, then } => StepView::Probe { call, ip, then: strict_then(then, h) },
        StepView::Expect { path, kind, error, then } => StepView::Expect { path, kind, error, then: strict_then(then, h) },
        StepView::Fail(_) => StepView::Abort(h),
        _ => s,
    }
}

/// The steps of a plan run by a caller that asserts its success.
pub open spec fn strict_steps(p: Seq<StepView>, h: Halt) -> Seq<StepView> {
    p.map_values(|s: StepView| strict_step(s, h))
}

fn strict_then_exec(t: Then, h: Halt) -> (r: Then)
    ensures
        r == strict_then(t, h),
{
    match t {
        Then::PassOn => Then::Abort(h),
        Then::Replace(_) => Then::Abort(h),
        _ => t,
    }
}

fn strict_step_exec(s: Step, h: Halt) -> (r: Step)
    ensures
        r@ == strict_step(s@, h),
{
    match s {
        Step::Run { call, rule, then } => Step::Run { call, rule, then: strict_then_exec(then, h) },
        Step::Probe { call, ip, then } => Step::Probe { call, ip, then: strict_then_exec(then, h) },
        Step::Expect { path, kind, error, then } => Step::Expect { path, kind, error, then: strict_then_exec(then, h) },
        Step::Fail(_) => Step::Abort(h),
        _ => s,
    }
}

/// A plan run by a caller that asserts its success; a failure stops the
/// program with `h`.
pub fn must_succeed(plan: Vec<Step>, h: Halt) -> (p: Vec<Step>)
    ensures
        steps_view(p@) == strict_steps(steps_view(plan@), h),
{
    let ghost orig = plan@;
    let n = plan.len();
    let mut rest = plan;
    let mut p: Vec<Step> = Vec::new();
    let mut k: usize = 0;
    while rest.len() > 0
        invariant
            k + rest@.len() == orig.len(),
            orig.len() == n,
            rest@ == orig.skip(k as int),
            steps_view(p@) == strict_steps(steps_view(orig.take(k as int)), h),
        decreases rest@.len(),
    {
        let s = rest.remove(0);
        proof {
            assert(rest@ =~= orig.skip(k + 1));
            assert(orig.take(k + 1) =~= orig.take(k as int).push(s));
            assert(steps_view(orig.take(k + 1)) =~= steps_view(orig.take(k as int)).push(s@));
            assert(strict_steps(steps_view(orig.take(k + 1)), h) =~=
                strict_steps(steps_view(orig.take(k as int)), h).push(strict_step(s@, h)));
        }
        push_step(&mut p, strict_step_exec(s, h));
        k = k + 1;
    }
    proof {
        assert(orig.take(k as int) =~= orig);
    }
    p
}

/// The plan of a whole deployment started at `date`.
pub open spec fn deploy_plan(config: Result<TomlValue, DockError>, date: Seq<char>) -> Seq<StepView> {
    seq![StepView::Log("Starting deployment at "@ + date)] + strict_steps(local_plan(config), Halt::LocalDeploy)
        + strict_steps(remote_plan(config), Halt::RemoteDeploy) + seq![StepView::Elapsed]
}

/// Deploys everything, given the date it starts at: prints the date, deploys
/// locally, then on the servers, each of which must succeed, and prints how
/// long it took.
pub fn deploy(config: &Result<TomlValue, DockError>, date: &str) -> (p: Vec<Step>)
    ensures
        steps_view(p@) == deploy_plan(*config, date@),
{
    let mut p = only(Step::Log(started_message(date)));
    extend(&mut p, must_succeed(deploy_local(config), Halt::LocalDeploy));
    extend(&mut p, must_succeed(deploy_to_remote(config), Halt::RemoteDeploy));
    push_step(&mut p, Step::Elapsed);
    p
}

} // verus!
