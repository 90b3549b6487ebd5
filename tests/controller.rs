use todo_list::{App, AppState, KeyCode, KeyEvent, KeyEventKind, MemoryStore, Request, Task};

fn press(code: KeyCode) -> KeyEvent {
    KeyEvent { code, kind: KeyEventKind::Press }
}

fn sample_tasks() -> Vec<Task> {
    vec![
        Task::new(1, "Buy milk".to_string(), false),
        Task::new(2, "Walk dog".to_string(), true),
    ]
}

fn three_tasks() -> Vec<Task> {
    vec![
        Task::new(1, "a".to_string(), false),
        Task::new(2, "b".to_string(), false),
        Task::new(3, "c".to_string(), true),
    ]
}

fn names(tasks: &[Task]) -> Vec<String> {
    tasks.iter().map(|t| t.name.clone()).collect()
}

#[test]
fn new_app_starts_on_list() {
    let app = App::new(sample_tasks());
    assert_eq!(app.selected_index, 0);
    assert_eq!(app.state, AppState::View);
    assert!(!app.exit);
    assert_eq!(app.task_name, "");
    assert_eq!(names(&app.tasks), vec!["Buy milk", "Walk dog"]);
}

#[test]
fn down_n_times_returns_to_start() {
    for start in 0..3usize {
        let mut app = App::new(three_tasks());
        app.selected_index = start;
        for _ in 0..3 {
            let r = app.handle_key(press(KeyCode::Down));
            assert!(matches!(r, Request::Nothing));
        }
        assert_eq!(app.selected_index, start);
        assert_eq!(app.state, AppState::View);
    }
}

#[test]
fn up_from_first_wraps_to_last() {
    let mut app = App::new(three_tasks());
    app.handle_key(press(KeyCode::Up));
    assert_eq!(app.selected_index, 2);
    app.handle_key(press(KeyCode::Up));
    assert_eq!(app.selected_index, 1);
}

#[test]
fn down_from_last_wraps_to_first() {
    let mut app = App::new(three_tasks());
    app.selected_index = 2;
    app.handle_key(press(KeyCode::Down));
    assert_eq!(app.selected_index, 0);
    app.handle_key(press(KeyCode::Down));
    assert_eq!(app.selected_index, 1);
}

#[test]
fn single_task_selection_stays() {
    let mut app = App::new(vec![Task::new(1, "only".to_string(), false)]);
    app.handle_key(press(KeyCode::Down));
    assert_eq!(app.selected_index, 0);
    app.handle_key(press(KeyCode::Up));
    assert_eq!(app.selected_index, 0);
}

#[test]
fn non_press_events_change_nothing() {
    for kind in [KeyEventKind::Release, KeyEventKind::Repeat] {
        for code in [
            KeyCode::Char('a'),
            KeyCode::Char('q'),
            KeyCode::Up,
            KeyCode::Down,
            KeyCode::Enter,
            KeyCode::Backspace,
            KeyCode::Esc,
        ] {
            let mut app = App::new(three_tasks());
            app.selected_index = 1;
            app.task_name = "draft".to_string();
            let r = app.handle_key(KeyEvent { code, kind });
            assert!(matches!(r, Request::Nothing));
            assert_eq!(app.selected_index, 1);
            assert_eq!(app.state, AppState::View);
            assert!(!app.exit);
            assert_eq!(app.task_name, "draft");
            assert_eq!(names(&app.tasks), vec!["a", "b", "c"]);

            app.state = AppState::Add;
            let r = app.handle_key(KeyEvent { code, kind });
            assert!(matches!(r, Request::Nothing));
            assert_eq!(app.state, AppState::Add);
            assert_eq!(app.task_name, "draft");
        }
    }
}

#[test]
fn enter_toggles_selected_and_refresh_keeps_order() {
    let mut store = MemoryStore::from_tasks(sample_tasks()).unwrap();
    let mut app = App::new(store.get_all_tasks());
    let r = app.handle_key(press(KeyCode::Enter));
    let name = match r {
        Request::Toggle(name) => name,
        other => panic!("unexpected request {:?}", other),
    };
    assert_eq!(name, "Buy milk");
    store.toggle_task(&name);
    app.set_tasks(store.get_all_tasks());
    assert_eq!(names(&app.tasks), vec!["Buy milk", "Walk dog"]);
    assert!(app.tasks[0].checked);
    assert!(app.tasks[1].checked);
    assert_eq!(app.tasks[0].id, 1);
    assert_eq!(app.selected_index, 0);
    assert_eq!(app.state, AppState::View);
}

#[test]
fn add_call_mom_then_back_to_list() {
    let mut store = MemoryStore::from_tasks(sample_tasks()).unwrap();
    let mut app = App::new(store.get_all_tasks());
    assert!(matches!(app.handle_key(press(KeyCode::Char('a'))), Request::Nothing));
    assert_eq!(app.state, AppState::Add);
    for c in "Call mom".chars() {
        assert!(matches!(app.handle_key(press(KeyCode::Char(c))), Request::Nothing));
    }
    assert_eq!(app.task_name, "Call mom");
    let name = match app.handle_key(press(KeyCode::Enter)) {
        Request::Insert(name) => name,
        other => panic!("unexpected request {:?}", other),
    };
    assert_eq!(name, "Call mom");
    assert_eq!(app.state, AppState::View);
    store.add_task(&name).unwrap();
    app.set_tasks(store.get_all_tasks());
    assert_eq!(names(&app.tasks), vec!["Buy milk", "Walk dog", "Call mom"]);
    assert!(!app.tasks[2].checked);
    assert_eq!(app.tasks[2].id, 3);
    // The typed text is kept after submitting.
    assert_eq!(app.task_name, "Call mom");
}

#[test]
fn backspace_removes_last_char_and_ignores_empty() {
    let mut app = App::new(sample_tasks());
    app.handle_key(press(KeyCode::Char('a')));
    app.handle_key(press(KeyCode::Backspace));
    assert_eq!(app.task_name, "");
    app.handle_key(press(KeyCode::Char('h')));
    app.handle_key(press(KeyCode::Char('é')));
    app.handle_key(press(KeyCode::Backspace));
    assert_eq!(app.task_name, "h");
    assert_eq!(app.state, AppState::Add);
}

#[test]
fn escape_leaves_add_without_request() {
    let mut app = App::new(sample_tasks());
    app.handle_key(press(KeyCode::Char('a')));
    app.handle_key(press(KeyCode::Char('x')));
    let r = app.handle_key(press(KeyCode::Esc));
    assert!(matches!(r, Request::Nothing));
    assert_eq!(app.state, AppState::View);
    assert_eq!(app.task_name, "x");
    assert_eq!(names(&app.tasks), vec!["Buy milk", "Walk dog"]);
}

#[test]
fn letters_on_add_screen_are_typed() {
    let mut app = App::new(sample_tasks());
    app.handle_key(press(KeyCode::Char('a')));
    app.handle_key(press(KeyCode::Char('q')));
    app.handle_key(press(KeyCode::Char('e')));
    assert!(!app.exit);
    assert_eq!(app.state, AppState::Add);
    assert_eq!(app.task_name, "qe");
}

#[test]
fn quit_sets_exit() {
    let mut app = App::new(sample_tasks());
    app.handle_key(press(KeyCode::Char('q')));
    assert!(app.exit);
    assert_eq!(app.state, AppState::View);
}

#[test]
fn edit_behaves_like_view() {
    let mut app = App::new(three_tasks());
    app.handle_key(press(KeyCode::Char('e')));
    assert_eq!(app.state, AppState::Edit);
    app.handle_key(press(KeyCode::Down));
    assert_eq!(app.selected_index, 1);
    match app.handle_key(press(KeyCode::Enter)) {
        Request::Toggle(name) => assert_eq!(name, "b"),
        other => panic!("unexpected request {:?}", other),
    }
    app.handle_key(press(KeyCode::Char('a')));
    assert_eq!(app.state, AppState::Add);
}

#[test]
fn other_keys_do_nothing() {
    let mut app = App::new(three_tasks());
    let r = app.handle_key(press(KeyCode::Other));
    assert!(matches!(r, Request::Nothing));
    let r = app.handle_key(press(KeyCode::Char('z')));
    assert!(matches!(r, Request::Nothing));
    assert_eq!(app.selected_index, 0);
    assert_eq!(app.state, AppState::View);
}

#[test]
fn refresh_keeps_selection_past_end() {
    let mut app = App::new(three_tasks());
    app.selected_index = 2;
    app.set_tasks(vec![Task::new(1, "a".to_string(), false)]);
    assert_eq!(app.selected_index, 2);
    assert!(!app.accepts(press(KeyCode::Enter)));
    assert!(app.accepts(press(KeyCode::Down)));
    app.handle_key(press(KeyCode::Down));
    assert_eq!(app.selected_index, 0);
}

#[test]
fn empty_list_refuses_moves_and_enter() {
    let app = App::new(Vec::new());
    assert!(!app.accepts(press(KeyCode::Up)));
    assert!(!app.accepts(press(KeyCode::Down)));
    assert!(!app.accepts(press(KeyCode::Enter)));
    assert!(app.accepts(press(KeyCode::Char('a'))));
    assert!(app.accepts(KeyEvent { code: KeyCode::Enter, kind: KeyEventKind::Release }));
}
