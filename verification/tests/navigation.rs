use taskify::actions::{Action, Event};
use taskify::app::App;
use taskify::db::projects::Project as Record;
use taskify::error::{AppError, DataError};
use taskify::handler::{dispatch_action, handle_key_events, KeyCode, QUIT_KEY};
use taskify::keybindings::{Keybinding, Keybindings};
use taskify::states::home::Home;
use taskify::states::project::Project;
use taskify::states::{AppState, AppStates, Fetch, Lifecycle, Screen, PAGE_SIZE};

fn records(n: usize) -> Vec<Record> {
    (0..n).map(|i| Record::new(format!("project {i}"), String::new(), "me".to_string())).collect()
}

fn failure() -> DataError {
    DataError { message: "no such table: project".to_string() }
}

fn first_page() -> Fetch {
    Fetch { target: AppStates::Project, page: 0, page_size: 12 }
}

fn home() -> Screen {
    let mut screen = Screen::fresh(AppStates::Home, 0);
    screen.init(Ok(Vec::new())).unwrap();
    screen
}

fn list(page: u64, n: usize) -> Screen {
    let mut screen = Screen::fresh(AppStates::Project, page);
    screen.init(Ok(records(n))).unwrap();
    screen
}

fn on_list(page: u64, n: usize) -> App {
    let mut app = App::new();
    app.set_state(Fetch { target: AppStates::Project, page, page_size: 12 }, Ok(records(n))).unwrap();
    app
}

#[test]
fn new_app_runs_on_the_home_screen() {
    let app = App::new();
    assert!(app.running);
    assert_eq!(app.state, home());
    assert_eq!(app.active(), AppStates::Home);
    assert_eq!(App::default(), app);
}

#[test]
fn p_on_home_opens_the_projects_once_loaded() {
    let mut app = App::new();
    let request = handle_key_events(KeyCode::Char('p'), &mut app);
    assert_eq!(request, Some(first_page()));
    assert_eq!(app, App::new());

    assert_eq!(app.set_state(request.unwrap(), Ok(records(3))), Ok(()));
    assert_eq!(app.active(), AppStates::Project);
    assert!(app.running);
    match &app.state {
        Screen::Project(list) => {
            assert_eq!(list.projects().len(), 3);
            assert_eq!(list.projects(), &records(3));
            assert_eq!(list.db_page(), 0);
        },
        Screen::Home(_) => panic!("the list of projects should be active"),
    }
}

#[test]
fn failed_load_keeps_the_home_screen() {
    let mut app = App::new();
    let request = handle_key_events(KeyCode::Char('p'), &mut app).unwrap();
    let done = app.set_state(request, Err(failure()));
    assert_eq!(done, Err(AppError::DataUnavailable(failure())));
    assert_eq!(app, App::new());
}

#[test]
fn failed_load_keeps_the_previous_list() {
    let mut app = on_list(2, 12);
    let before = app.clone();
    let request = handle_key_events(KeyCode::Char('n'), &mut app).unwrap();
    assert_eq!(request, Fetch { target: AppStates::Project, page: 3, page_size: 12 });
    let done = app.set_state(request, Err(failure()));
    assert_eq!(done, Err(AppError::DataUnavailable(failure())));
    assert_eq!(app, before);
    assert_eq!(app.state, list(2, 12));
}

#[test]
fn q_stops_the_application_from_every_screen() {
    let mut app = App::new();
    assert_eq!(handle_key_events(KeyCode::Char('q'), &mut app), None);
    assert!(!app.running);
    assert_eq!(app.state, home());

    let mut app = on_list(1, 12);
    assert_eq!(handle_key_events(KeyCode::Char(QUIT_KEY), &mut app), None);
    assert!(!app.running);
    assert_eq!(app.state, list(1, 12));
}

#[test]
fn the_quit_action_stops_the_application() {
    let mut app = on_list(3, 12);
    assert!(app.is_wf());
    assert_eq!(dispatch_action(&mut app, Action::Quit), None);
    assert!(!app.running);
    assert_eq!(app.state, list(3, 12));
}

#[test]
fn actions_go_to_the_active_screen() {
    let mut app = App::new();
    assert_eq!(dispatch_action(&mut app, Action::HomeGotoProjects), Some(first_page()));
    assert_eq!(dispatch_action(&mut app, Action::ProjectNextPage), None);
    assert_eq!(dispatch_action(&mut app, Action::Nothing), None);
    assert_eq!(app, App::new());
    let mut app = on_list(3, 12);
    assert_eq!(dispatch_action(&mut app, Action::HomeGotoProjects), None);
    assert_eq!(
        dispatch_action(&mut app, Action::ProjectPreviousPage),
        Some(Fetch { target: AppStates::Project, page: 2, page_size: 12 })
    );
    assert_eq!(app.state, list(3, 12));
}

#[test]
fn screens_tell_whether_they_are_initialised() {
    let mut screen = Screen::fresh(AppStates::Project, 0);
    assert!(!screen.is_initialized());
    assert!(screen.init(Err(failure())).is_err());
    assert!(!screen.is_initialized());
    assert!(screen.init(Ok(records(1))).is_ok());
    assert!(screen.is_initialized());
    assert!(!Screen::fresh(AppStates::Home, 0).is_initialized());
    assert!(home().is_initialized());
    assert!(App::new().is_wf());
    assert!(!App { running: true, state: Screen::fresh(AppStates::Home, 0) }.is_wf());
}

#[test]
fn quit_stops_the_application() {
    let mut app = on_list(0, 2);
    app.quit();
    assert!(!app.running);
    assert_eq!(app.state, list(0, 2));
}

#[test]
fn escape_reaches_the_screen_and_is_inert_on_both() {
    let mut app = App::new();
    assert_eq!(handle_key_events(KeyCode::Esc, &mut app), None);
    assert_eq!(app, App::new());

    let mut app = on_list(1, 12);
    let before = app.clone();
    assert_eq!(handle_key_events(KeyCode::Esc, &mut app), None);
    assert_eq!(app, before);
    assert_eq!(dispatch_action(&mut app, Action::Escape), None);
    assert_eq!(app, before);
}

#[test]
fn unknown_keys_are_ignored() {
    let mut app = App::new();
    assert_eq!(handle_key_events(KeyCode::Char('x'), &mut app), None);
    assert_eq!(handle_key_events(KeyCode::Char('n'), &mut app), None);
    assert_eq!(handle_key_events(KeyCode::Other, &mut app), None);
    assert_eq!(app, App::new());

    let mut app = on_list(0, 3);
    let before = app.clone();
    assert_eq!(handle_key_events(KeyCode::Char('p'), &mut app), None);
    assert_eq!(handle_key_events(KeyCode::Char('n'), &mut app), None);
    assert_eq!(handle_key_events(KeyCode::Char('b'), &mut app), None);
    assert_eq!(app, before);
}

#[test]
fn tick_changes_nothing() {
    let mut app = App::new();
    assert_eq!(app.tick(), None);
    assert_eq!(app, App::new());
    let mut app = on_list(4, 12);
    let before = app.clone();
    assert_eq!(app.tick(), None);
    assert_eq!(app, before);
}

#[test]
fn home_answers() {
    let mut screen = Home::default();
    assert_eq!(screen.init(Err(failure())), Ok(()));
    assert_eq!(screen.display_name(), "HOME");
    assert_eq!(screen.query(), None);
    assert_eq!(screen.action(Action::HomeGotoProjects), Event::Goto(AppStates::Project));
    for action in [
        Action::Nothing,
        Action::Quit,
        Action::Escape,
        Action::ProjectNextPage,
        Action::ProjectPreviousPage,
    ] {
        let before = screen.clone();
        assert_eq!(screen.action(action), Event::Nothing);
        assert_eq!(screen.reload(action), None);
        assert_eq!(screen, before);
    }
    assert_eq!(screen.reload(Action::HomeGotoProjects), None);
    assert_eq!(screen.tick(), Event::Nothing);
}

#[test]
fn list_answers_every_action_with_no_event() {
    let mut screen = Project::at_page(1);
    assert_eq!(screen.query(), Some(Fetch { target: AppStates::Project, page: 1, page_size: PAGE_SIZE }));
    assert_eq!(screen.init(Ok(records(12))), Ok(()));
    assert_eq!(screen.display_name(), "PROJECTS");
    for action in [
        Action::Nothing,
        Action::Quit,
        Action::Escape,
        Action::HomeGotoProjects,
        Action::ProjectNextPage,
        Action::ProjectPreviousPage,
    ] {
        let before = screen.clone();
        assert_eq!(screen.action(action), Event::Nothing);
        assert_eq!(screen, before);
    }
    assert_eq!(screen.tick(), Event::Nothing);
    assert_eq!(screen.reload(Action::ProjectNextPage), Some(2));
    assert_eq!(screen.reload(Action::ProjectPreviousPage), Some(0));
    assert_eq!(screen.reload(Action::Escape), None);
    assert_eq!(screen.reload(Action::HomeGotoProjects), None);
}

#[test]
fn list_init_failure_leaves_the_screen() {
    let mut screen = Project::default();
    let before = screen.clone();
    assert_eq!(screen.init(Err(failure())), Err(AppError::DataUnavailable(failure())));
    assert_eq!(screen, before);
    assert_eq!(screen.db_page(), 0);
    assert!(screen.projects().is_empty());
}

#[test]
fn list_binds_by_its_position() {
    let bound = |page: u64, n: usize| -> Vec<Keybinding> {
        let mut screen = Project::at_page(page);
        screen.init(Ok(records(n))).unwrap();
        screen.keybindings()
    };
    let next = Keybinding { key: 'n', name: "Next Page".to_string(), action: Action::ProjectNextPage };
    let previous =
        Keybinding { key: 'b', name: "Previous Page".to_string(), action: Action::ProjectPreviousPage };
    assert_eq!(bound(0, 3), vec![]);
    assert_eq!(bound(0, 11), vec![]);
    assert_eq!(bound(0, 12), vec![next.clone()]);
    assert_eq!(bound(5, 0), vec![previous.clone()]);
    assert_eq!(bound(5, 12), vec![next.clone(), previous.clone()]);
    assert_eq!(bound(5, 13), vec![next.clone(), previous.clone()]);
    assert_eq!(bound(u64::MAX, 12), vec![previous.clone()]);
}

#[test]
fn turning_pages() {
    let mut app = on_list(0, 12);
    let request = handle_key_events(KeyCode::Char('n'), &mut app).unwrap();
    assert_eq!(request, Fetch { target: AppStates::Project, page: 1, page_size: 12 });
    assert_eq!(app.state, list(0, 12));
    assert_eq!(app.set_state(request, Ok(records(4))), Ok(()));
    assert_eq!(app.state, list(1, 4));

    assert_eq!(handle_key_events(KeyCode::Char('n'), &mut app), None);
    let request = handle_key_events(KeyCode::Char('b'), &mut app).unwrap();
    assert_eq!(request, Fetch { target: AppStates::Project, page: 0, page_size: 12 });
    assert_eq!(app.set_state(request, Ok(records(12))), Ok(()));
    assert_eq!(app.state, list(0, 12));
    assert_eq!(handle_key_events(KeyCode::Char('b'), &mut app), None);
}

#[test]
fn last_page_number_cannot_turn_forward() {
    let mut screen = Project::at_page(u64::MAX);
    screen.init(Ok(records(12))).unwrap();
    assert_eq!(screen.reload(Action::ProjectNextPage), None);
    assert_eq!(screen.reload(Action::ProjectPreviousPage), Some(u64::MAX - 1));
}

#[test]
fn set_state_to_home_needs_no_data() {
    let mut app = on_list(0, 1);
    let request = Fetch { target: AppStates::Home, page: 0, page_size: 12 };
    assert_eq!(app.set_state(request, Err(failure())), Ok(()));
    assert_eq!(app, App::new());
}

#[test]
fn a_load_that_ends_after_quit_is_not_applied() {
    let mut app = App::new();
    let request = handle_key_events(KeyCode::Char('p'), &mut app).unwrap();
    app.quit();
    assert_eq!(app.set_state(request, Ok(records(3))), Ok(()));
    assert!(!app.running);
    assert_eq!(app.state, home());
}

#[test]
fn process_acts_on_goto_alone() {
    let mut app = on_list(2, 12);
    let before = app.clone();
    assert_eq!(app.process(Event::Nothing, None), None);
    assert_eq!(app, before);
    assert_eq!(
        app.process(Event::Nothing, Some(7)),
        Some(Fetch { target: AppStates::Project, page: 7, page_size: 12 })
    );
    assert_eq!(app, before);
    assert_eq!(app.process(Event::Goto(AppStates::Project), Some(7)), Some(first_page()));
    assert_eq!(app, before);
    assert_eq!(app.process(Event::Goto(AppStates::Home), None), None);
    assert_eq!(app, App::new());
}

#[test]
fn goto_home_is_not_applied_after_quit() {
    let mut app = on_list(2, 12);
    app.quit();
    let before = app.clone();
    assert_eq!(app.process(Event::Goto(AppStates::Home), None), None);
    assert_eq!(app, before);
}

#[test]
fn fresh_screens_are_empty() {
    assert_eq!(Screen::fresh(AppStates::Home, 9), Screen::Home(Home::default()));
    assert_eq!(Screen::fresh(AppStates::Project, 9), Screen::Project(Project::at_page(9)));
    assert_eq!(Project::default(), Project::at_page(0));
    assert_eq!(AppStates::default(), AppStates::Home);
    assert_eq!(Event::default(), Event::Nothing);
}

#[test]
fn screen_forwards_to_its_variant() {
    let mut screen = home();
    assert_eq!(screen.display_name(), "HOME");
    assert_eq!(screen.query(), None);
    assert_eq!(screen.action(Action::HomeGotoProjects), Event::Goto(AppStates::Project));
    assert_eq!(screen.keybindings().len(), 1);
    let mut screen = list(3, 12);
    assert_eq!(screen.display_name(), "PROJECTS");
    assert_eq!(screen.query(), Some(Fetch { target: AppStates::Project, page: 3, page_size: 12 }));
    assert_eq!(screen.action(Action::HomeGotoProjects), Event::Nothing);
    assert_eq!(screen.reload(Action::ProjectNextPage), Some(4));
    assert_eq!(screen.tick(), Event::Nothing);
    assert_eq!(screen.keybindings().len(), 2);
}
