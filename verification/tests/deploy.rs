use docks::config::{servers, TomlValue};
use docks::deploy::{deploy, deploy_local, deploy_to_remote, dock_running, must_succeed};
use docks::error::{DockError, ErrorKind};
use docks::invocation::Invocation;
use docks::plan::{verdict, Flow, Halt, PathKind, Report, Rule, RunReport, Step, Then};

fn t(s: &str) -> TomlValue {
    TomlValue::Text(s.to_string())
}

fn arr(items: &[&str]) -> TomlValue {
    TomlValue::Array(items.iter().map(|s| t(s)).collect())
}

fn table(entries: Vec<(&str, TomlValue)>) -> TomlValue {
    TomlValue::Table(entries.into_iter().map(|(k, v)| (k.to_string(), v)).collect())
}

fn server(user: &str, port: &str, ip: &str, containers: &[&str]) -> TomlValue {
    table(vec![
        ("containers", arr(containers)),
        ("ip", t(ip)),
        ("port", t(port)),
        ("username", t(user)),
    ])
}

fn sample() -> TomlValue {
    table(vec![
        ("alpha", server("root", "22", "10.0.0.1", &["blog", "wiki"])),
        ("local", table(vec![("containers", arr(&["db"]))])),
        ("zeta", server("ops", "2200", "10.0.0.9", &["shop"])),
    ])
}

fn args(i: &Invocation) -> Vec<&str> {
    i.args.iter().map(|a| a.as_str()).collect()
}

fn logs(p: &[Step]) -> Vec<&str> {
    p.iter()
        .filter_map(|s| match s {
            Step::Log(m) => Some(m.as_str()),
            _ => None,
        })
        .collect()
}

fn calls(p: &[Step]) -> Vec<(String, Vec<&str>)> {
    p.iter()
        .filter_map(|s| match s {
            Step::Run { call, .. } | Step::Probe { call, .. } => Some((call.program.clone(), args(call))),
            _ => None,
        })
        .collect()
}

fn no_error_ends(p: &[Step]) -> bool {
    p.iter().all(|s| match s {
        Step::Fail(_) => false,
        Step::Run { then, .. } | Step::Probe { then, .. } | Step::Expect { then, .. } => {
            matches!(then, Then::Abort(_) | Then::Ignore)
        }
        _ => true,
    })
}

#[test]
fn servers_skip_local_and_keep_order() {
    let names = servers(&Ok(sample())).unwrap();
    assert_eq!(names, vec!["alpha".to_string(), "zeta".to_string()]);
    assert!(matches!(servers(&Ok(t("x"))), Err(DockError::NotATable)));
    let unread = Err(DockError::System { kind: ErrorKind::NotFound, code: None, message: "No such file".to_string() });
    assert!(matches!(servers(&unread), Err(DockError::MissingConfiguration)));
    assert!(servers(&Ok(table(vec![("local", arr(&[]))]))).unwrap().is_empty());
}

#[test]
fn table_lookup() {
    let doc = sample();
    assert!(matches!(doc.get("zeta"), Some(TomlValue::Table(_))));
    assert!(doc.get("beta").is_none());
    assert!(t("x").get("zeta").is_none());
    let alpha = doc.get("alpha").unwrap();
    assert_eq!(alpha.get("ip").unwrap().as_text().unwrap(), "10.0.0.1");
    assert_eq!(alpha.get("containers").unwrap().as_array().unwrap().len(), 2);
    assert!(alpha.get("ip").unwrap().as_array().is_none());
    assert!(TomlValue::Integer(3).as_text().is_none());
}

#[test]
fn local_deployment_of_one_container() {
    let p = deploy_local(&Ok(sample()));
    assert_eq!(p.len(), 5);
    match &p[0] {
        Step::Expect { path, kind, error, then } => {
            assert_eq!(path, "./containers/db");
            assert_eq!(*kind, PathKind::Dir);
            assert!(matches!(error, DockError::ContainerNotADir));
            assert!(matches!(then, Then::PassOn));
        }
        other => panic!("{:?}", other),
    }
    match &p[1] {
        Step::Expect { path, kind, .. } => {
            assert_eq!(path, "./containers/db/compose.yaml");
            assert_eq!(*kind, PathKind::File);
        }
        other => panic!("{:?}", other),
    }
    let expected: Vec<(Vec<&str>, Halt)> = vec![
        (vec!["compose", "down"], Halt::LocalStop),
        (vec!["compose", "pull"], Halt::LocalUpdate),
        (vec!["compose", "up", "-d"], Halt::LocalStart),
    ];
    for (step, (a, h)) in p[2..].iter().zip(expected) {
        match step {
            Step::Run { call, rule, then } => {
                assert_eq!(call.program, "docker");
                assert_eq!(args(call), a);
                assert_eq!(call.dir.as_deref(), Some("./containers/db"));
                assert!(matches!(rule, Rule::Docker));
                assert!(matches!(then, Then::Abort(x) if *x == h));
            }
            other => panic!("{:?}", other),
        }
    }
}

#[test]
fn local_deployment_failures() {
    let unread = Err(DockError::System { kind: ErrorKind::NotFound, code: None, message: "gone".to_string() });
    assert!(matches!(deploy_local(&unread).as_slice(), [Step::Fail(DockError::LocalConfigNotFound)]));
    assert!(matches!(deploy_local(&Ok(arr(&[]))).as_slice(), [Step::Fail(DockError::InvalidDockerConfig)]));
    let no_local = table(vec![("alpha", server("u", "22", "h", &[]))]);
    assert!(matches!(deploy_local(&Ok(no_local)).as_slice(), [Step::Fail(DockError::MissingLocal)]));
    let no_list = table(vec![("local", table(vec![("containers", t("db"))]))]);
    assert!(matches!(deploy_local(&Ok(no_list)).as_slice(), [Step::Abort(Halt::MissingValue)]));
    // a container that is not a string is named by the empty text
    let odd = table(vec![("local", table(vec![("containers", TomlValue::Array(vec![TomlValue::Integer(5)]))]))]);
    let p = deploy_local(&Ok(odd));
    assert!(matches!(&p[0], Step::Expect { path, .. } if path == "./containers/"));
    // a missing folder ends the deployment with its error
    let step = deploy_local(&Ok(sample())).into_iter().next().unwrap();
    assert!(matches!(verdict(step, Report::Found(false)).flow, Flow::Return(DockError::ContainerNotADir)));
}

#[test]
fn remote_deployment_of_two_servers() {
    let p = deploy_to_remote(&Ok(sample()));
    // header, then per server: 3 connexion steps + 11 steps per container
    assert_eq!(p.len(), 1 + (3 + 2 * 11) + (3 + 11));
    let lines = logs(&p);
    assert_eq!(lines[0], "Deploying docker containers on 2 servers");
    assert_eq!(lines[1], "Checking the ssh connexion on 10.0.0.1");
    assert_eq!(lines[2], "Deploying blog docker container on alpha server");
    assert_eq!(lines[3], "The blog has been deployed successfully on the alpha server");
    assert_eq!(lines[4], "Stopping blog before update on the alpha server");
    assert_eq!(lines[5], "Updating the blog container on the alpha server");
    assert_eq!(lines[6], "The blog container has been updated successfully on the alpha server");
    assert_eq!(lines[7], "Restarting the blog after upgrade on the alpha server");
    assert_eq!(lines[8], "The blog has been restarted successfully on the alpha server");
    let c = calls(&p);
    assert_eq!(c[0], ("ncat".to_string(), vec!["-z", "10.0.0.1", "22"]));
    assert_eq!(c[1], ("rsync".to_string(), vec!["-a", "-z", "-e", "ssh -p 22", "./containers/blog/", "root@10.0.0.1:blog"]));
    assert_eq!(c[2], ("ssh".to_string(), vec!["root@10.0.0.1", "docker", "compose", "--project-directory", "blog", "down"]));
    assert_eq!(c[3], ("ssh".to_string(), vec!["root@10.0.0.1", "docker", "compose", "--project-directory", "blog", "pull"]));
    assert_eq!(c[4], ("ssh".to_string(), vec!["root@10.0.0.1", "docker", "compose", "--project-directory", "blog", "up", "-d"]));
    assert_eq!(c[5].1[4], "./containers/wiki/");
    assert_eq!(c[9], ("ncat".to_string(), vec!["-z", "10.0.0.9", "2200"]));
    assert_eq!(c[10].1[5], "ops@10.0.0.9:shop");
    assert!(no_error_ends(&p));
    // an unreachable server stops the program
    match &p[3] {
        Step::Probe { then, .. } => assert!(matches!(then, Then::Abort(Halt::Unreachable))),
        other => panic!("{:?}", other),
    }
}

#[test]
fn remote_deployment_of_one_server_says_server() {
    let doc = table(vec![("solo", server("u", "22", "h", &[]))]);
    let p = deploy_to_remote(&Ok(doc));
    assert_eq!(logs(&p)[0], "Deploying docker containers on 1 server");
    assert_eq!(p.len(), 4);
}

#[test]
fn remote_deployment_edge_cases() {
    let unread = Err(DockError::System { kind: ErrorKind::NotFound, code: None, message: "gone".to_string() });
    assert!(matches!(deploy_to_remote(&unread).as_slice(), [Step::Fail(DockError::RemoteConfigNotFound)]));
    // not a table: nothing to deploy, and success
    assert!(deploy_to_remote(&Ok(t("x"))).is_empty());
    // a server without an ip stops the program, after the servers before it
    let doc = table(vec![
        ("a", server("u", "22", "h", &["one"])),
        ("b", table(vec![("username", t("u")), ("port", t("22")), ("containers", arr(&[]))])),
        ("c", server("u", "22", "h2", &["two"])),
    ]);
    let p = deploy_to_remote(&Ok(doc));
    assert_eq!(p.len(), 1 + 3 + 11 + 1);
    assert!(matches!(p.last(), Some(Step::Abort(Halt::MissingValue))));
    // a container that is not a string stops the program at that container
    let odd = table(vec![(
        "a",
        table(vec![
            ("containers", TomlValue::Array(vec![t("one"), TomlValue::Boolean(true), t("three")])),
            ("ip", t("h")),
            ("port", t("22")),
            ("username", t("u")),
        ]),
    )]);
    let p = deploy_to_remote(&Ok(odd));
    assert_eq!(p.len(), 1 + 3 + 11 + 1);
    assert!(matches!(p.last(), Some(Step::Abort(Halt::MissingValue))));
}

#[test]
fn checking_running_containers() {
    let p = dock_running(&Ok(sample()));
    assert_eq!(calls(&p), vec![
        ("ssh".to_string(), vec!["root@10.0.0.1", "docker", "ps"]),
        ("ssh".to_string(), vec!["ops@10.0.0.9", "docker", "ps"]),
    ]);
    // a server without an ip is skipped
    let doc = table(vec![("a", table(vec![("username", t("u"))])), ("b", server("v", "1", "w", &[]))]);
    assert_eq!(calls(&dock_running(&Ok(doc))), vec![("ssh".to_string(), vec!["v@w", "docker", "ps"])]);
    // a username that is not a string reads as empty
    let doc = table(vec![("a", table(vec![("ip", t("h")), ("username", TomlValue::Integer(1))]))]);
    assert_eq!(calls(&dock_running(&Ok(doc))), vec![("ssh".to_string(), vec!["@h", "docker", "ps"])]);
    let unread = Err(DockError::System { kind: ErrorKind::NotFound, code: None, message: "gone".to_string() });
    match dock_running(&unread).as_slice() {
        [Step::Fail(DockError::System { message, .. })] => assert_eq!(message, "gone"),
        other => panic!("{:?}", other),
    }
    assert!(matches!(dock_running(&Ok(t("x"))).as_slice(), [Step::Fail(DockError::NotATable)]));
}

#[test]
fn whole_deployment_never_ends_with_an_error() {
    let p = deploy(&Ok(sample()), "now");
    assert!(matches!(p.first(), Some(Step::Log(m)) if m.starts_with("Starting deployment at ")));
    assert!(matches!(p.last(), Some(Step::Elapsed)));
    assert_eq!(p.len(), 1 + 5 + deploy_to_remote(&Ok(sample())).len() + 1);
    assert!(no_error_ends(&p));
    let unread = Err(DockError::System { kind: ErrorKind::NotFound, code: None, message: "gone".to_string() });
    let p = deploy(&unread, "now");
    assert!(no_error_ends(&p));
    assert!(matches!(p[1], Step::Abort(Halt::LocalDeploy)));
    // a missing local folder stops the program instead of returning
    let step = deploy(&Ok(sample()), "now").into_iter().nth(1).unwrap();
    assert!(matches!(verdict(step, Report::Found(false)).flow, Flow::Abort(Halt::LocalDeploy)));
}

#[test]
fn must_succeed_turns_errors_into_stops() {
    let p = must_succeed(deploy_local(&Ok(sample())), Halt::LocalDeploy);
    assert!(no_error_ends(&p));
    let step = p.into_iter().nth(2).unwrap();
    assert!(matches!(verdict(step, Report::Ran(RunReport::Exited { success: false })).flow, Flow::Abort(Halt::LocalStop)));
}

#[test]
fn asserting_success_keeps_the_commands() {
    let plain = deploy_to_remote(&Ok(sample()));
    let strict = must_succeed(deploy_to_remote(&Ok(sample())), Halt::RemoteDeploy);
    assert_eq!(plain.len(), strict.len());
    assert_eq!(calls(&plain), calls(&strict));
    assert_eq!(logs(&plain), logs(&strict));
    let plain = deploy_local(&Ok(sample()));
    let strict = must_succeed(deploy_local(&Ok(sample())), Halt::LocalDeploy);
    assert_eq!(calls(&plain), calls(&strict));
    assert!(matches!(&strict[0], Step::Expect { path, then: Then::Abort(Halt::LocalDeploy), .. } if path == "./containers/db"));
}

fn success_of(s: &Step) -> Report {
    match s {
        Step::Run { .. } | Step::Probe { .. } => Report::Ran(RunReport::Exited { success: true }),
        Step::Expect { .. } => Report::Found(true),
        _ => Report::Nothing,
    }
}

#[test]
fn complete_configuration_deploys_when_everything_succeeds() {
    for p in [deploy_to_remote(&Ok(sample())), deploy_local(&Ok(sample())), deploy(&Ok(sample()), "now")] {
        for step in p {
            let report = success_of(&step);
            assert!(matches!(verdict(step, report).flow, Flow::Continue));
        }
    }
}

#[test]
fn deployment_opens_with_its_date() {
    let p = deploy(&Ok(sample()), "2024-05-01 10:00:00 +02:00");
    assert!(matches!(&p[0], Step::Log(m) if m == "Starting deployment at 2024-05-01 10:00:00 +02:00"));
    assert!(matches!(p.last(), Some(Step::Elapsed)));
    assert_eq!(p.len(), deploy(&Ok(sample()), "now").len());
}

#[test]
fn unreachable_server_stops_before_its_containers() {
    let p = deploy_to_remote(&Ok(sample()));
    let first_run = p.iter().position(|s| matches!(s, Step::Run { .. })).unwrap();
    assert!(matches!(&p[3], Step::Probe { ip, .. } if ip == "10.0.0.1"));
    assert!(first_run > 3);
    let probe = p.into_iter().nth(3).unwrap();
    let v = verdict(probe, Report::Ran(RunReport::Exited { success: false }));
    assert_eq!(v.note.as_deref(), Some("Cannot communicate to the 10.0.0.1 server"));
    assert!(matches!(v.flow, Flow::Abort(Halt::Unreachable)));
}
