use docks::chore::Chore;
use docks::commands::{build, clear, login, publish, ssh};
use docks::menu::{
    dispatch, dockerfile_question, menu_title, project_name, questions, tasks, work, MenuChoice, Work,
};

#[test]
fn every_task_does_something() {
    let all = tasks();
    assert_eq!(all.len(), 21);
    assert_eq!(all[0], "build");
    assert_eq!(all[20], "ps");
    for t in &all {
        assert_ne!(dispatch(t), MenuChoice::Nothing, "{}", t);
    }
    assert!(!all.iter().any(|t| t == "logs"));
}

#[test]
fn dispatch_maps_selections() {
    assert_eq!(dispatch("login"), MenuChoice::Login);
    assert_eq!(dispatch("rm"), MenuChoice::Rm);
    assert_eq!(dispatch("cd"), MenuChoice::Cd);
    assert_eq!(dispatch("check"), MenuChoice::Check);
    assert_eq!(dispatch("push"), MenuChoice::Push);
    assert_eq!(dispatch("logs"), MenuChoice::Logs);
    assert_eq!(dispatch("exit"), MenuChoice::Exit);
    assert_eq!(dispatch(""), MenuChoice::Nothing);
    assert_eq!(dispatch("Exit"), MenuChoice::Nothing);
}

#[test]
fn project_name_is_the_last_folder() {
    assert_eq!(project_name(Some("/home/me/shop"), '/'), "shop");
    assert_eq!(project_name(Some("/home/me/shop/"), '/'), "");
    assert_eq!(project_name(Some("/"), '/'), "");
    assert_eq!(project_name(Some("relative"), '/'), "relative");
    assert_eq!(project_name(Some("C:\\work\\été"), '\\'), "été");
    assert_eq!(project_name(None, '/'), ".");
}

#[test]
fn title_names_the_project() {
    assert_eq!(
        menu_title("shop"),
        "\x1b[1;34mWhat you want to do in the \x1b[1;36mshop\x1b[1;34m project :\x1b[0m"
    );
}

#[test]
fn questions_before_acting() {
    let q = questions(MenuChoice::Ssh, "me");
    assert_eq!(q.len(), 3);
    assert_eq!(q[0].message, "Please enter the server to connect :");
    assert_eq!(q[1].default.as_deref(), Some("root"));
    assert_eq!(q[2].default.as_deref(), Some("22"));
    assert!(q.iter().all(|p| !p.strict));
    let q = questions(MenuChoice::Login, "alice");
    assert_eq!(q[0].message, "Please enter your docker username : ");
    assert_eq!(q[0].default.as_deref(), Some("alice"));
    assert_eq!(questions(MenuChoice::Build, "x")[0].message, "Please enter the tag for the image :");
    assert_eq!(questions(MenuChoice::Push, "x")[0].message, "Please enter the image to publish :");
    assert!(questions(MenuChoice::Ps, "x").is_empty());
    assert_eq!(dockerfile_question(), "create a Dockerfile");
}

#[test]
fn only_exit_leaves_the_menu() {
    let leaving: Vec<String> = tasks().into_iter().filter(|t| dispatch(t) == MenuChoice::Exit).collect();
    assert_eq!(leaving, vec!["exit".to_string()]);
    assert_eq!(dispatch("exit "), MenuChoice::Nothing);
}

fn texts(a: &[&str]) -> Vec<String> {
    a.iter().map(|s| s.to_string()).collect()
}

fn plan_of(w: Work) -> String {
    match w {
        Work::Run(p) => format!("{:?}", p),
        other => panic!("not a plan: {:?}", other),
    }
}

#[test]
fn work_runs_the_plan_with_the_answers() {
    assert_eq!(plan_of(work(MenuChoice::Login, &texts(&["alice"]))), format!("{:?}", login("alice")));
    assert_eq!(
        plan_of(work(MenuChoice::Ssh, &texts(&["example.org", "root", "2222"]))),
        format!("{:?}", ssh("example.org", "root", "2222"))
    );
    assert_eq!(plan_of(work(MenuChoice::Build, &texts(&["web:dev"]))), format!("{:?}", build("web:dev")));
    assert_eq!(plan_of(work(MenuChoice::Push, &texts(&["me/app:1.0"]))), format!("{:?}", publish("me/app:1.0")));
    assert_eq!(plan_of(work(MenuChoice::Clear, &texts(&[]))), format!("{:?}", clear()));
}

#[test]
fn work_with_missing_answers_reads_them_as_empty() {
    assert_eq!(plan_of(work(MenuChoice::Login, &texts(&[]))), format!("{:?}", login("")));
    assert_eq!(plan_of(work(MenuChoice::Ssh, &texts(&["h"]))), format!("{:?}", ssh("h", "", "")));
}

#[test]
fn work_hands_chores_and_the_rest_on() {
    assert!(matches!(work(MenuChoice::Cd, &texts(&[])), Work::Chore(Chore::Jump)));
    assert!(matches!(work(MenuChoice::Rm, &texts(&[])), Work::Chore(Chore::Remove)));
    assert!(matches!(work(MenuChoice::Start, &texts(&[])), Work::Chore(Chore::Start)));
    assert!(matches!(work(MenuChoice::Pull, &texts(&[])), Work::Chore(Chore::Pull)));
    assert!(matches!(work(MenuChoice::Touch, &texts(&[])), Work::Touch));
    assert!(matches!(work(MenuChoice::Deploy, &texts(&[])), Work::Deploy));
    assert!(matches!(work(MenuChoice::Check, &texts(&[])), Work::Check));
    assert!(matches!(work(MenuChoice::Exit, &texts(&[])), Work::Leave));
    assert!(matches!(work(MenuChoice::Nothing, &texts(&[])), Work::Again));
}
