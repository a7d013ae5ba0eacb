use scv::config::Config;
use scv::controller::App;
use scv::events::{AppEvent, Completion, Effect, RepoOp};
use scv::keys::{KeyCode, KeyInput};
use scv::models::{Class, Student};
use scv::screen::{ScreenContext, ScreenType, ScreenTypeVariant};
use scv::screens::{
    create_screen, ClassSelectionScreen, CreateClassScreen, MainMenuScreen, ScreenError,
    ScreenModel,
};

fn fresh_app() -> App {
    App::new("/tmp/repos".to_string(), None, Config::default())
}

fn class(id: i64, name: &str) -> Class {
    Class { id, name: name.to_string(), created_at: 0 }
}

fn student(id: i64, class_id: i64, name: &str) -> Student {
    Student {
        id,
        class_id,
        username: name.to_string(),
        github_username: name.to_string(),
        created_at: 0,
    }
}

#[test]
fn test_app_creation() {
    let app = fresh_app();
    assert!(!app.should_quit());
}

#[test]
fn banner_dismissal_swallows_the_key() {
    let mut app = fresh_app();
    let eff = app.dispatch(AppEvent::ShowError("broken".to_string()));
    assert!(eff.is_none());
    assert!(app.state.has_banner());
    // The next key only dismisses the banner: no event reaches the main
    // menu (whose 'q' row would otherwise quit), and no effect is asked.
    let eff = app.handle_key_event(KeyInput::plain(KeyCode::Char('q')));
    assert!(eff.is_none());
    assert!(!app.state.has_banner());
    assert!(!app.should_quit());
    // With the banner gone, the same key now quits.
    let eff = app.handle_key_event(KeyInput::plain(KeyCode::Char('q')));
    assert!(eff.is_none());
    assert!(app.should_quit());
}

#[test]
fn global_quit_keys_beat_the_screen() {
    let mut app = fresh_app();
    app.handle_key_event(KeyInput::with_ctrl(KeyCode::Char('c')));
    assert!(app.should_quit());
}

#[test]
fn empty_class_list_shows_an_affordance_and_create_hotkey_works() {
    let mut app = fresh_app();
    // Navigate to the class list; arriving there asks for its data.
    let eff = app.dispatch(AppEvent::NavigateToScreen(ScreenType::new(
        ScreenTypeVariant::ClassSelection,
    )));
    assert!(matches!(eff, Some(Effect::RefreshClasses)));
    // No classes exist.
    let eff = app.handle_completion(Completion::ClassesLoaded(Vec::new()));
    assert!(eff.is_none());
    match &app.current_screen {
        ScreenModel::ClassSelection(s) => {
            assert!(!s.loading);
            let items = s.menu.items();
            assert_eq!(items[0].title, "No classes found");
            assert_eq!(items[1].title, "Create New Class");
        },
        other => panic!("expected the class list, got {:?}", other.screen_type()),
    }
    // The create hotkey works from the empty list.
    app.handle_key_event(KeyInput::plain(KeyCode::Char('n')));
    assert_eq!(
        *app.current_screen.screen_type().variant(),
        ScreenTypeVariant::CreateClass
    );
    assert!(!app.should_quit());
}

#[test]
fn enter_on_empty_class_list_offers_creation_too() {
    let mut s = ClassSelectionScreen::new();
    s.set_classes(Vec::new());
    let ev = s.handle_key(KeyInput::plain(KeyCode::Enter));
    match ev {
        Some(AppEvent::NavigateToScreen(st)) => {
            assert_eq!(*st.variant(), ScreenTypeVariant::CreateClass)
        },
        other => panic!("unexpected event {:?}", other),
    }
}

#[test]
fn selecting_a_class_scopes_the_state_and_navigates() {
    let mut app = fresh_app();
    let eff = app.dispatch(AppEvent::SelectClass(class(7, "CS101")));
    assert!(eff.is_none());
    assert_eq!(app.state.current_class.as_ref().unwrap().id, 7);
    assert_eq!(
        *app.current_screen.screen_type().variant(),
        ScreenTypeVariant::ClassManagement
    );
    // Going back returns to the main menu.
    let eff = app.go_back();
    assert!(eff.is_none());
    assert_eq!(*app.current_screen.screen_type().variant(), ScreenTypeVariant::MainMenu);
    // And going back from the bottom of the stack quits.
    app.go_back();
    assert!(app.should_quit());
}

#[test]
fn main_menu_enter_follows_the_selected_row() {
    let mut menu = MainMenuScreen::new();
    let ev = menu.handle_key(KeyInput::plain(KeyCode::Enter));
    match ev {
        Some(AppEvent::NavigateToScreen(st)) => {
            assert_eq!(*st.variant(), ScreenTypeVariant::ClassSelection)
        },
        other => panic!("unexpected event {:?}", other),
    }
    // Down once lands on "Create Class".
    menu.handle_key(KeyInput::plain(KeyCode::Char('j')));
    let ev = menu.handle_key(KeyInput::plain(KeyCode::Enter));
    match ev {
        Some(AppEvent::NavigateToScreen(st)) => {
            assert_eq!(*st.variant(), ScreenTypeVariant::CreateClass)
        },
        other => panic!("unexpected event {:?}", other),
    }
}

#[test]
fn create_class_rejects_an_empty_name_inline() {
    let mut s = CreateClassScreen::new();
    s.handle_key(KeyInput::plain(KeyCode::Char(' ')));
    let ev = s.handle_key(KeyInput::plain(KeyCode::Enter));
    assert!(ev.is_none());
    assert!(s.error.is_some());
    assert!(!s.creating);
}

#[test]
fn create_class_submits_the_trimmed_name() {
    let mut s = CreateClassScreen::new();
    for c in "  CS101 Fall  ".chars() {
        s.handle_key(KeyInput::plain(KeyCode::Char(c)));
    }
    let ev = s.handle_key(KeyInput::plain(KeyCode::Enter));
    match ev {
        Some(AppEvent::ClassCreated(c)) => assert_eq!(c.name, "CS101 Fall"),
        other => panic!("unexpected event {:?}", other),
    }
    assert!(s.creating);
}

#[test]
fn create_class_flow_through_the_controller() {
    let mut app = fresh_app();
    let eff = app.dispatch(AppEvent::ClassCreated(class(0, "Algorithms")));
    match eff {
        Some(Effect::CreateClass { name }) => assert_eq!(name, "Algorithms"),
        other => panic!("unexpected effect {:?}", other),
    }
    assert!(app.state.is_loading());
    assert_eq!(
        app.state.loading_message().unwrap(),
        "Creating class 'Algorithms'..."
    );
    let eff = app.handle_completion(Completion::ClassCreated(class(3, "Algorithms")));
    assert!(matches!(eff, Some(Effect::RefreshClasses)));
    assert!(!app.state.is_loading());
    match app.state.error().unwrap() {
        scv::state::Banner::Success(m) => {
            assert_eq!(m, "Class 'Algorithms' created successfully!")
        },
        other => panic!("unexpected banner {:?}", other),
    }
    assert_eq!(
        *app.current_screen.screen_type().variant(),
        ScreenTypeVariant::ClassSelection
    );
}

#[test]
fn factory_fails_fast_without_context() {
    let r = create_screen(ScreenType::new(ScreenTypeVariant::ClassManagement), Vec::new());
    match r {
        Err(ScreenError::MissingContext(v)) => {
            assert_eq!(v, ScreenTypeVariant::ClassManagement)
        },
        _ => panic!("expected a missing-context error"),
    }
    let r = create_screen(ScreenType::new(ScreenTypeVariant::Settings), Vec::new());
    assert!(matches!(r, Err(ScreenError::NotImplemented(ScreenTypeVariant::Settings))));
    let r = create_screen(
        ScreenType::new(ScreenTypeVariant::ClassManagement)
            .with_context(ScreenContext::Class(class(1, "X"))),
        Vec::new(),
    );
    assert!(r.is_ok());
}

#[test]
fn add_students_parses_the_entry() {
    let mut app = fresh_app();
    let eff = app.dispatch(AppEvent::SubmitStudents {
        class_id: 4,
        usernames: vec!["ada".to_string(), "grace".to_string()],
    });
    match eff {
        Some(Effect::AddStudents { class_id, usernames }) => {
            assert_eq!(class_id, 4);
            assert_eq!(usernames, vec!["ada".to_string(), "grace".to_string()]);
        },
        other => panic!("unexpected effect {:?}", other),
    }
}

#[test]
fn add_students_screen_splits_and_trims() {
    let mut s = scv::screens::AddStudentsScreen::new(class(4, "CS"));
    for c in " ada , , grace ,".chars() {
        s.handle_key(KeyInput::plain(KeyCode::Char(c)));
    }
    let ev = s.handle_key(KeyInput::plain(KeyCode::Enter));
    match ev {
        Some(AppEvent::SubmitStudents { class_id, usernames }) => {
            assert_eq!(class_id, 4);
            assert_eq!(usernames, vec!["ada".to_string(), "grace".to_string()]);
        },
        other => panic!("unexpected event {:?}", other),
    }
}

#[test]
fn repo_actions_name_the_selected_student() {
    let students = vec![student(1, 9, "s1"), student(2, 9, "s2")];
    let mut s = scv::screens::RepoManagementScreen::new(class(9, "CS"), students);
    // Into the student picker.
    s.handle_key(KeyInput::plain(KeyCode::Down));
    let ev = s.handle_key(KeyInput::plain(KeyCode::Enter));
    assert!(ev.is_none());
    assert!(!s.show_main_menu);
    // Pick the second student, open the actions menu.
    s.handle_key(KeyInput::plain(KeyCode::Down));
    s.handle_key(KeyInput::plain(KeyCode::Enter));
    assert!(s.show_actions);
    // Fire "Clone Repo" for them.
    let ev = s.handle_key(KeyInput::plain(KeyCode::Enter));
    match ev {
        Some(AppEvent::CloneRepo(u)) => assert_eq!(u, "s2"),
        other => panic!("unexpected event {:?}", other),
    }
}

#[test]
fn week_view_navigation_requires_a_selected_class() {
    let mut app = fresh_app();
    let eff = app.dispatch(AppEvent::ShowWeekView);
    assert!(eff.is_none());
    app.dispatch(AppEvent::SelectClass(class(2, "CS")));
    let eff = app.dispatch(AppEvent::ShowWeekView);
    match eff {
        Some(Effect::LoadStudents { target, class, push_current }) => {
            assert_eq!(target, ScreenTypeVariant::WeekView);
            assert_eq!(class.id, 2);
            assert!(push_current);
        },
        other => panic!("unexpected effect {:?}", other),
    }
    let eff = app.handle_completion(Completion::StudentsLoaded {
        target: ScreenTypeVariant::WeekView,
        class: class(2, "CS"),
        students: vec![student(1, 2, "s1")],
        push_current: true,
    });
    assert!(matches!(eff, Some(Effect::LoadWeekActivity)));
    assert_eq!(*app.current_screen.screen_type().variant(), ScreenTypeVariant::WeekView);
}

#[test]
fn failed_class_creation_reports_and_returns_to_the_form() {
    let mut app = fresh_app();
    app.dispatch(AppEvent::ClassCreated(class(0, "CS")));
    let eff = app.handle_completion(Completion::ClassCreateFailed {
        name: "CS".to_string(),
        message: "UNIQUE constraint failed".to_string(),
    });
    assert!(eff.is_none());
    assert!(!app.state.is_loading());
    match app.state.error().unwrap() {
        scv::state::Banner::Error(m) => {
            assert_eq!(m, "Failed to create class: UNIQUE constraint failed")
        },
        other => panic!("unexpected banner {:?}", other),
    }
    assert_eq!(
        *app.current_screen.screen_type().variant(),
        ScreenTypeVariant::CreateClass
    );
}

#[test]
fn failed_student_load_clears_loading_and_reports() {
    let mut app = fresh_app();
    app.dispatch(AppEvent::SelectClass(class(1, "CS")));
    app.dispatch(AppEvent::ShowWeekView);
    assert!(app.state.is_loading());
    let eff = app.handle_completion(Completion::StudentsFailed("disk gone".to_string()));
    assert!(eff.is_none());
    assert!(!app.state.is_loading(), "the loading banner never outlives the call");
    match app.state.error().unwrap() {
        scv::state::Banner::Error(m) => assert_eq!(m, "Failed to get students: disk gone"),
        other => panic!("unexpected banner {:?}", other),
    }
}

#[test]
fn repo_operation_outcomes_replace_the_loading_banner() {
    let mut app = fresh_app();
    app.dispatch(AppEvent::SelectClass(class(1, "CS")));
    let eff = app.dispatch(AppEvent::CloneRepo("ada".to_string()));
    assert!(matches!(eff, Some(Effect::RunRepoOp { op: RepoOp::Clone, .. })));
    assert_eq!(
        app.state.loading_message().unwrap(),
        "Cloning repository for ada..."
    );
    let eff = app.handle_completion(Completion::RepoOpDone {
        op: RepoOp::Clone,
        github_username: "ada".to_string(),
        result: Ok(()),
    });
    assert!(eff.is_none());
    assert!(!app.state.is_loading());
    match app.state.error().unwrap() {
        scv::state::Banner::Success(m) => {
            assert_eq!(m, "Successfully cloned repository for ada")
        },
        other => panic!("unexpected banner {:?}", other),
    }
    // And a failure names the student and the cause.
    app.state.set_error(None);
    app.dispatch(AppEvent::PullRepo("bob".to_string()));
    app.handle_completion(Completion::RepoOpDone {
        op: RepoOp::Pull,
        github_username: "bob".to_string(),
        result: Err("no remote".to_string()),
    });
    match app.state.error().unwrap() {
        scv::state::Banner::Error(m) => {
            assert_eq!(m, "Failed to pull repository for bob: no remote")
        },
        other => panic!("unexpected banner {:?}", other),
    }
}

#[test]
fn latest_activity_flow_loads_data_into_the_screen() {
    let mut app = fresh_app();
    app.dispatch(AppEvent::SelectClass(class(1, "CS")));
    let eff = app.dispatch(AppEvent::ShowLatestActivity);
    match eff {
        Some(Effect::LoadStudents { target, .. }) => {
            assert_eq!(target, ScreenTypeVariant::LatestActivity)
        },
        other => panic!("unexpected effect {:?}", other),
    }
    let eff = app.handle_completion(Completion::StudentsLoaded {
        target: ScreenTypeVariant::LatestActivity,
        class: class(1, "CS"),
        students: vec![student(1, 1, "ada")],
        push_current: true,
    });
    assert!(matches!(eff, Some(Effect::LoadLatestActivity)));
    let eff = app.handle_completion(Completion::LatestActivityLoaded(vec![(
        "ada".to_string(),
        Some(1000),
    )]));
    assert!(eff.is_none());
    match &app.current_screen {
        ScreenModel::LatestActivity(s) => {
            assert_eq!(s.latest_activity_data.len(), 1);
            assert!(!s.is_loading);
        },
        other => panic!("expected the latest-activity table, got {:?}", other.screen_type()),
    }
}

#[test]
fn latest_activity_without_a_class_is_an_error() {
    let mut app = fresh_app();
    let eff = app.dispatch(AppEvent::ShowLatestActivity);
    assert!(eff.is_none());
    match app.state.error().unwrap() {
        scv::state::Banner::Error(m) => assert_eq!(m, "No class selected"),
        other => panic!("unexpected banner {:?}", other),
    }
}

#[test]
fn navigating_to_an_unimplemented_screen_fails_fast_with_a_banner() {
    let mut app = fresh_app();
    let eff = app.dispatch(AppEvent::NavigateToScreen(ScreenType::new(
        ScreenTypeVariant::Settings,
    )));
    assert!(eff.is_none());
    assert!(app.state.has_banner());
    // The active screen did not change.
    assert_eq!(*app.current_screen.screen_type().variant(), ScreenTypeVariant::MainMenu);
}
