use scv::config::Config;
use scv::controller::App;
use scv::events::Completion;
use scv::gitops::{clone_all_targets, summarize_clone_results, GitManager};
use scv::models::{Class, Student};
use scv::state::Banner;

fn student(name: &str) -> Student {
    Student {
        id: 1,
        class_id: 1,
        username: name.to_string(),
        github_username: name.to_string(),
        created_at: 0,
    }
}

#[test]
fn repo_paths_nest_class_then_student() {
    let git = GitManager::new("/home/me/repos".to_string());
    assert_eq!(git.get_repo_path("ada", "CS101"), "/home/me/repos/CS101/ada");
}

#[test]
fn batch_clone_visits_every_student_in_order() {
    let students = vec![student("s1"), student("s2"), student("s3")];
    let targets = clone_all_targets(&students);
    assert_eq!(targets, vec!["s1".to_string(), "s2".to_string(), "s3".to_string()]);
}

#[test]
fn batch_summary_counts_one_success_and_names_one_failure() {
    let results = vec![
        ("s1".to_string(), Ok(())),
        ("s2".to_string(), Err("network unreachable".to_string())),
    ];
    let summary = summarize_clone_results(&results);
    assert_eq!(summary.successes, 1);
    assert_eq!(summary.failures, vec!["s2: network unreachable".to_string()]);
}

#[test]
fn batch_summary_accounts_for_every_student() {
    let results = vec![
        ("a".to_string(), Err("x".to_string())),
        ("b".to_string(), Ok(())),
        ("c".to_string(), Err("y".to_string())),
        ("d".to_string(), Ok(())),
    ];
    let summary = summarize_clone_results(&results);
    assert_eq!(summary.successes as usize + summary.failures.len(), results.len());
    assert_eq!(summary.failures, vec!["a: x".to_string(), "c: y".to_string()]);
}

#[test]
fn clone_all_banner_reports_partial_failure_without_aborting() {
    let mut app = App::new("/tmp/repos".to_string(), None, Config::default());
    app.dispatch(scv::events::AppEvent::SelectClass(Class {
        id: 1,
        name: "CS".to_string(),
        created_at: 0,
    }));
    let results = vec![
        ("s1".to_string(), Ok(())),
        ("s2".to_string(), Err("boom".to_string())),
    ];
    let eff = app.handle_completion(Completion::CloneAllDone { results });
    assert!(eff.is_none());
    assert!(!app.state.is_loading(), "the loading banner never outlives the batch");
    match app.state.error().unwrap() {
        Banner::Error(m) => assert_eq!(
            m,
            "Cloned 1 repositories\nFailed to clone 1 repositories:\ns2: boom"
        ),
        other => panic!("unexpected banner {:?}", other),
    }
}

#[test]
fn clone_all_banner_reports_full_success() {
    let mut app = App::new("/tmp/repos".to_string(), None, Config::default());
    let results = vec![("s1".to_string(), Ok(())), ("s2".to_string(), Ok(()))];
    let eff = app.handle_completion(Completion::CloneAllDone { results });
    assert!(eff.is_none());
    match app.state.error().unwrap() {
        Banner::Success(m) => assert_eq!(m, "Successfully cloned 2 repositories"),
        other => panic!("unexpected banner {:?}", other),
    }
}

#[test]
fn clone_all_with_no_students_is_an_error() {
    let mut app = App::new("/tmp/repos".to_string(), None, Config::default());
    app.handle_completion(Completion::CloneAllDone { results: Vec::new() });
    match app.state.error().unwrap() {
        Banner::Error(m) => assert_eq!(m, "No students found in this class."),
        other => panic!("unexpected banner {:?}", other),
    }
}
