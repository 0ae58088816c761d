use tasktimer::{get_menu_item_title, App, AppTab, KeyCode, TabsState};

#[test]
fn menu_titles() {
    assert_eq!(get_menu_item_title(AppTab::Tasks), "Tasks");
    assert_eq!(get_menu_item_title(AppTab::Timers), "Timers");
}

#[test]
fn tabs_cycle_both_ways() {
    let mut tabs = TabsState::new(vec!["a", "b", "c"]);
    assert_eq!(tabs.index, 0);
    tabs.next();
    assert_eq!(tabs.index, 1);
    tabs.next();
    tabs.next();
    assert_eq!(tabs.index, 0);
    tabs.previous();
    assert_eq!(tabs.index, 2);
    tabs.previous();
    assert_eq!(tabs.index, 1);
}

#[test]
fn new_app_state() {
    let app = App::new("title", true);
    assert_eq!(app.title, "title");
    assert!(app.enhanced_graphics);
    assert!(!app.should_quit);
    assert_eq!(app.tabs.index, 0);
    assert_eq!(app.tabs.titles, vec!["Tasks", "Timers"]);
    assert!(app.task_state.tasks.items.is_empty());
    assert!(app.timer_state.timers.items.is_empty());
}

#[test]
fn popup_holds_back_quit_until_closed() {
    let mut app = App::new("t", false);
    app.on_keycode(KeyCode::Char('n'));
    app.on_keycode(KeyCode::Char('q'));
    assert!(!app.should_quit);
    app.on_keycode(KeyCode::Esc);
    app.on_keycode(KeyCode::Char('q'));
    assert!(app.should_quit);
}

#[test]
fn quit_works_after_commit_on_timer_tab() {
    let mut app = App::new("t", false);
    app.on_keycode(KeyCode::Char('2'));
    app.on_keycode(KeyCode::Char('n'));
    app.on_keycode(KeyCode::Char('q'));
    assert!(!app.should_quit);
    app.on_keycode(KeyCode::Enter);
    assert_eq!(app.timer_state.timers.items.len(), 1);
    assert_eq!(app.timer_state.timers.items[0].title, "q");
    app.on_keycode(KeyCode::Char('q'));
    assert!(app.should_quit);
}

#[test]
fn global_tab_bindings() {
    let mut app = App::new("t", false);
    app.on_keycode(KeyCode::Char('2'));
    assert_eq!(app.tabs.index, 1);
    app.on_keycode(KeyCode::Char('1'));
    assert_eq!(app.tabs.index, 0);
    app.on_keycode(KeyCode::Left);
    assert_eq!(app.tabs.index, 1);
    app.on_keycode(KeyCode::Right);
    assert_eq!(app.tabs.index, 0);
    app.on_right();
    assert_eq!(app.tabs.index, 1);
    app.on_left();
    assert_eq!(app.tabs.index, 0);
}

#[test]
fn keys_go_to_active_feature_only() {
    let mut app = App::new("t", false);
    app.on_keycode(KeyCode::Char('n'));
    app.on_keycode(KeyCode::Char('2'));
    assert_eq!(app.tabs.index, 0);
    app.on_keycode(KeyCode::Enter);
    assert_eq!(app.task_state.tasks.items.len(), 1);
    assert_eq!(app.task_state.tasks.items[0].title, "2");
    assert!(app.timer_state.timers.items.is_empty());
    app.on_tick();
    assert_eq!(app.task_state.tasks.items.len(), 1);
}

#[test]
fn new_app_flags() {
    let app = App::new("t", false);
    assert!(!app.display_debugger);
    assert!(!app.enhanced_graphics);
    assert!(!app.task_state.new_task_popup_enabled);
    assert!(!app.timer_state.new_timer_popup_enabled);
}

#[test]
fn tab_switch_by_method_while_popup_open() {
    let mut app = App::new("t", false);
    app.on_keycode(KeyCode::Char('n'));
    app.on_right();
    assert_eq!(app.tabs.index, 1);
    assert!(app.task_state.new_task_popup_enabled);
    app.on_keycode(KeyCode::Char('q'));
    assert!(app.should_quit);
}
