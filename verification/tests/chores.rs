use docks::chore::{command, listing, next, prompts, question, Action, Chore, Event, Stage};
use docks::error::{DockError, ErrorKind};
use docks::plan::{Halt, RunReport};

fn ok() -> Event {
    Event::Ran(RunReport::Exited { success: true })
}

fn failed() -> Event {
    Event::Ran(RunReport::Exited { success: false })
}

fn answers(a: &[&str]) -> Event {
    Event::Answered(a.iter().map(|s| s.to_string()).collect())
}

fn run_args(a: &Action) -> (String, Vec<String>) {
    match a {
        Action::Run(i) => (i.program.clone(), i.args.clone()),
        other => panic!("not a run: {:?}", other),
    }
}

/// Walks a docker chore through one successful round, returning the stage
/// and action after the command ran.
fn round(c: Chore, given: &[&str]) -> (Stage, Action) {
    let (s, a) = next(c, Stage::Idle, Event::Begin);
    assert_eq!(s, Stage::Clearing);
    assert_eq!(run_args(&a).0, "clear");
    let (s, a) = next(c, s, ok());
    assert_eq!(s, Stage::Listing);
    assert_eq!(run_args(&a).0, "docker");
    let (s, a) = next(c, s, ok());
    assert_eq!(s, Stage::Asking);
    match &a {
        Action::Ask(ps) => assert_eq!(ps.len(), given.len()),
        other => panic!("{:?}", other),
    }
    let (s, a) = next(c, s, answers(given));
    assert_eq!(s, Stage::Running);
    let _ = a;
    next(c, s, ok())
}

#[test]
fn remove_round_then_decline() {
    let (s, a) = next(Chore::Remove, Stage::Idle, Event::Begin);
    let (s, _) = next(Chore::Remove, s, ok());
    let (s, _) = next(Chore::Remove, s, ok());
    let (s, a2) = next(Chore::Remove, s, answers(&["nginx"]));
    let _ = a;
    assert_eq!(run_args(&a2), ("docker".to_string(), vec!["image".to_string(), "rm".to_string(), "nginx".to_string()]));
    let (s, a) = next(Chore::Remove, s, ok());
    assert_eq!(s, Stage::Confirming);
    assert!(matches!(&a, Action::Confirm(q) if q == "remove an other image ? :"));
    let (s, a) = next(Chore::Remove, s, Event::Confirmed(false));
    assert_eq!(s, Stage::Finished);
    assert!(matches!(a, Action::Finish(Ok(()))));
}

#[test]
fn stop_failure_ends_with_its_error() {
    let (s, a) = next(Chore::Stop, Stage::Idle, Event::Begin);
    let _ = a;
    let (s, a) = next(Chore::Stop, s, ok());
    assert_eq!(run_args(&a).1, vec!["ps".to_string(), "-a".to_string()]);
    let (s, _) = next(Chore::Stop, s, ok());
    let (s, a) = next(Chore::Stop, s, answers(&["web"]));
    assert_eq!(run_args(&a).1, vec!["stop".to_string(), "web".to_string()]);
    let (s, a) = next(Chore::Stop, s, failed());
    assert_eq!(s, Stage::Finished);
    assert!(matches!(a, Action::Finish(Err(DockError::StopFailed))));
}

#[test]
fn start_runs_with_ports_then_shows_containers() {
    let c = Chore::Start;
    let i = command(c, &vec!["nginx".to_string(), "8080".to_string(), "80".to_string()]).unwrap();
    assert_eq!(i.args, vec!["run", "-d", "-p", "8080:80", "nginx"]);
    assert_eq!(i.dir.as_deref(), Some("/tmp"));
    let (s, a) = round(c, &["nginx", "8080", "80"]);
    assert_eq!(s, Stage::Showing);
    assert_eq!(run_args(&a).1, vec!["ps".to_string(), "-a".to_string()]);
    let (s, a) = next(c, s, ok());
    assert_eq!(s, Stage::Confirming);
    assert!(matches!(&a, Action::Confirm(q) if q == "run an other container ? :"));
    // yes: a new round from the start
    let (s, a) = next(c, s, Event::Confirmed(true));
    assert_eq!(s, Stage::Clearing);
    assert_eq!(run_args(&a).0, "clear");
    // docker failing for start ends the chore
    let (s, _) = next(c, Stage::Running, failed());
    assert_eq!(s, Stage::Finished);
    assert!(matches!(next(c, Stage::Running, failed()).1, Action::Finish(Err(DockError::RunFailed))));
}

#[test]
fn restart_and_logs_and_pull_commands() {
    assert_eq!(command(Chore::Restart, &vec!["db".to_string()]).unwrap().args, vec!["restart", "db"]);
    assert_eq!(command(Chore::Logs, &vec!["db".to_string()]).unwrap().args, vec!["logs", "db"]);
    assert_eq!(command(Chore::Pull, &vec!["redis".to_string(), "7".to_string()]).unwrap().args, vec!["pull", "redis:7"]);
    assert!(matches!(next(Chore::Restart, Stage::Running, failed()).1, Action::Finish(Err(DockError::RestartFailed))));
    assert!(matches!(next(Chore::Remove, Stage::Running, failed()).1, Action::Finish(Err(DockError::RemoveFailed))));
}

#[test]
fn pull_and_logs_retry_on_failure() {
    for c in [Chore::Pull, Chore::Logs] {
        let (s, a) = next(c, Stage::Running, failed());
        assert_eq!(s, Stage::Clearing);
        assert_eq!(run_args(&a).0, "clear");
        let (s, _) = next(c, Stage::Running, Event::Ran(RunReport::NotStarted));
        assert_eq!(s, Stage::Clearing);
    }
    let (s, _) = round(Chore::Pull, &["redis", "latest"]);
    assert_eq!(s, Stage::Showing);
}

#[test]
fn prompts_of_each_chore() {
    let p = prompts(Chore::Pull);
    assert_eq!(p.len(), 2);
    assert_eq!(p[0].message, "please enter the name or the id of the image to pull : ");
    assert_eq!(p[1].default.as_deref(), Some("latest"));
    assert!(p[1].strict);
    let p = prompts(Chore::Remove);
    assert_eq!(p[0].message, "please enter the name or the id of the image to remove : ");
    assert!(!p[0].strict);
    assert_eq!(prompts(Chore::Start).len(), 3);
    assert!(prompts(Chore::Jump).is_empty());
    assert_eq!(question(Chore::Logs), "show logs of another image ? :");
    assert_eq!(listing(Chore::Restart).args, vec!["ps", "-a"]);
    assert_eq!(listing(Chore::Logs).args, vec!["images"]);
}

#[test]
fn jump_picks_moves_and_asks() {
    let c = Chore::Jump;
    let (s, a) = next(c, Stage::Idle, Event::Begin);
    assert_eq!(s, Stage::Picking);
    assert!(matches!(&a, Action::Pick(m) if m == "Select a folder for jump : "));
    let (s, a) = next(c, s, answers(&["./src"]));
    assert_eq!(s, Stage::Changing);
    assert!(matches!(&a, Action::ChangeDir(d) if d == "./src"));
    let (s, a) = next(c, s, Event::Changed(true));
    assert_eq!(s, Stage::Confirming);
    assert!(matches!(&a, Action::Confirm(q) if q == "jump on an another directory ? "));
    let (s, _) = next(c, s, Event::Confirmed(true));
    assert_eq!(s, Stage::Picking);
    let (s, a) = next(c, Stage::Changing, Event::Changed(false));
    assert_eq!(s, Stage::Finished);
    assert!(matches!(a, Action::Abort(Halt::ChangeDir)));
}

#[test]
fn failing_clear_or_listing_stops_the_program() {
    let (s, a) = next(Chore::Remove, Stage::Clearing, Event::Ran(RunReport::NotStarted));
    assert_eq!(s, Stage::Finished);
    assert!(matches!(a, Action::Abort(Halt::Clear)));
    let e = DockError::System { kind: ErrorKind::Other, code: None, message: "w".to_string() };
    let (_, a) = next(Chore::Remove, Stage::Clearing, Event::Ran(RunReport::WaitFailed(e)));
    assert!(matches!(a, Action::Abort(Halt::Wait)));
    let (_, a) = next(Chore::Stop, Stage::Listing, failed());
    assert!(matches!(a, Action::Abort(Halt::Ps)));
    let (_, a) = next(Chore::Remove, Stage::Listing, failed());
    assert!(matches!(a, Action::Abort(Halt::ListImages)));
    let (_, a) = next(Chore::Start, Stage::Showing, failed());
    assert!(matches!(a, Action::Abort(Halt::Ps)));
}

#[test]
fn missing_answers_read_as_empty() {
    assert_eq!(command(Chore::Pull, &vec!["redis".to_string()]).unwrap().args, vec!["pull", "redis:"]);
    assert!(command(Chore::Jump, &vec![]).is_none());
    let (s, a) = next(Chore::Jump, Stage::Picking, Event::Answered(vec![]));
    assert_eq!(s, Stage::Changing);
    assert!(matches!(&a, Action::ChangeDir(d) if d.is_empty()));
}

#[test]
fn events_of_another_kind_end_the_chore() {
    let (s, a) = next(Chore::Stop, Stage::Confirming, Event::Changed(true));
    assert_eq!(s, Stage::Finished);
    assert!(matches!(a, Action::Finish(Ok(()))));
    let (s, _) = next(Chore::Stop, Stage::Finished, Event::Begin);
    assert_eq!(s, Stage::Finished);
}

#[test]
fn two_start_rounds_then_decline() {
    let c = Chore::Start;
    let mut commands: Vec<Vec<String>> = Vec::new();
    let (mut s, mut a) = next(c, Stage::Idle, Event::Begin);
    for (round, (image, host)) in [("web", "8080"), ("db", "5432")].iter().enumerate() {
        assert_eq!(run_args(&a).0, "clear");
        let (s1, a1) = next(c, s, ok());
        assert_eq!(run_args(&a1).1, vec!["images".to_string()]);
        let (s2, _) = next(c, s1, ok());
        let (s3, a3) = next(c, s2, answers(&[image, host, "80"]));
        commands.push(run_args(&a3).1);
        let (s4, a4) = next(c, s3, ok());
        assert_eq!(run_args(&a4).1, vec!["ps".to_string(), "-a".to_string()]);
        let (s5, _) = next(c, s4, ok());
        let (s6, a6) = next(c, s5, Event::Confirmed(round == 0));
        s = s6;
        a = a6;
    }
    assert_eq!(s, Stage::Finished);
    assert!(matches!(a, Action::Finish(Ok(()))));
    assert_eq!(commands, vec![
        vec!["run", "-d", "-p", "8080:80", "web"],
        vec!["run", "-d", "-p", "5432:80", "db"],
    ]);
}

#[test]
fn jump_rounds_move_into_each_pick_in_order() {
    let c = Chore::Jump;
    let picks = ["./src", "../app", "/tmp"];
    let (mut s, first) = next(c, Stage::Idle, Event::Begin);
    assert!(matches!(&first, Action::Pick(_)));
    let mut moved: Vec<String> = Vec::new();
    for (k, d) in picks.iter().enumerate() {
        let (s1, a) = next(c, s, answers(&[*d]));
        if let Action::ChangeDir(to) = &a {
            moved.push(to.clone());
        }
        let (s2, a) = next(c, s1, Event::Changed(true));
        assert!(matches!(&a, Action::Confirm(_)));
        let again = k + 1 < picks.len();
        let (s3, a) = next(c, s2, Event::Confirmed(again));
        if again {
            assert_eq!(s3, Stage::Picking);
            assert!(matches!(&a, Action::Pick(_)));
        } else {
            assert_eq!(s3, Stage::Finished);
            assert!(matches!(a, Action::Finish(Ok(()))));
        }
        s = s3;
    }
    assert_eq!(moved, vec!["./src", "../app", "/tmp"]);
}
