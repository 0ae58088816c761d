use tasktimer::{KeyCode, Task, TaskState};

fn type_text(state: &mut TaskState, text: &str) {
    for c in text.chars() {
        assert!(state.on_keycode(KeyCode::Char(c)));
    }
}

#[test]
fn task_constructors() {
    let d = Task::default();
    assert_eq!(d.title, "");
    assert!(!d.is_completed);
    let t = Task::new(String::from("Read"));
    assert_eq!(t.title, "Read");
    assert!(!t.is_completed);
}

#[test]
fn create_task_through_popup() {
    let mut state = TaskState::new();
    assert!(state.on_keycode(KeyCode::Char('n')));
    assert!(state.new_task_popup_enabled);
    type_text(&mut state, "Buy milk");
    assert!(state.on_keycode(KeyCode::Enter));
    assert_eq!(state.tasks.items.len(), 1);
    assert_eq!(state.tasks.items[0].title, "Buy milk");
    assert!(!state.tasks.items[0].is_completed);
    assert!(!state.new_task_popup_enabled);
    assert_eq!(state.new_task.title, "");
}

#[test]
fn commit_adds_exactly_one_task_at_the_tail() {
    let mut state = TaskState::new();
    for title in ["a", "bc", ""] {
        let before = state.tasks.items.len();
        state.on_keycode(KeyCode::Char('n'));
        type_text(&mut state, title);
        state.on_keycode(KeyCode::Enter);
        assert_eq!(state.tasks.items.len(), before + 1);
        let last = state.tasks.items.last().unwrap();
        assert_eq!(last.title, title);
        assert!(!last.is_completed);
    }
}

#[test]
fn backspace_edits_draft_and_is_safe_on_empty() {
    let mut state = TaskState::new();
    state.on_keycode(KeyCode::Char('n'));
    assert!(state.on_keycode(KeyCode::Backspace));
    assert_eq!(state.new_task.title, "");
    type_text(&mut state, "abc");
    state.on_keycode(KeyCode::Backspace);
    assert_eq!(state.new_task.title, "ab");
    state.on_keycode(KeyCode::Enter);
    assert_eq!(state.tasks.items[0].title, "ab");
}

#[test]
fn escape_discards_draft() {
    let mut state = TaskState::new();
    state.on_keycode(KeyCode::Char('n'));
    type_text(&mut state, "xyz");
    assert!(state.on_keycode(KeyCode::Esc));
    assert!(!state.new_task_popup_enabled);
    assert!(state.tasks.items.is_empty());
    state.on_keycode(KeyCode::Char('n'));
    assert_eq!(state.new_task.title, "");
}

#[test]
fn popup_takes_every_key() {
    let mut state = TaskState::new();
    state.on_keycode(KeyCode::Char('n'));
    for key in [KeyCode::Left, KeyCode::Right, KeyCode::Up, KeyCode::Tab, KeyCode::Other] {
        assert!(state.on_keycode(key));
    }
    assert!(state.on_keycode(KeyCode::Char('q')));
    assert_eq!(state.new_task.title, "q");
    assert!(state.new_task_popup_enabled);
}

#[test]
fn browsing_leaves_other_keys_to_caller() {
    let mut state = TaskState::new();
    assert!(!state.on_keycode(KeyCode::Char('q')));
    assert!(!state.on_keycode(KeyCode::Left));
    assert!(!state.on_keycode(KeyCode::Char('1')));
    assert!(state.on_keycode(KeyCode::Up));
    assert!(state.on_keycode(KeyCode::Down));
}

#[test]
fn enter_toggles_selected_task_and_d_deletes_it() {
    let mut state = TaskState::new();
    for title in ["one", "two"] {
        state.on_keycode(KeyCode::Char('n'));
        type_text(&mut state, title);
        state.on_keycode(KeyCode::Enter);
    }
    state.on_keycode(KeyCode::Enter);
    assert!(!state.tasks.items[0].is_completed && !state.tasks.items[1].is_completed);
    state.on_keycode(KeyCode::Down);
    state.on_keycode(KeyCode::Down);
    state.on_keycode(KeyCode::Enter);
    assert!(state.tasks.items[1].is_completed);
    assert!(!state.tasks.items[0].is_completed);
    state.on_keycode(KeyCode::Enter);
    assert!(!state.tasks.items[1].is_completed);
    assert!(state.on_keycode(KeyCode::Char('d')));
    assert_eq!(state.tasks.items.len(), 1);
    assert_eq!(state.tasks.items[0].title, "one");
    assert_eq!(state.tasks.selected(), Some(0));
}

#[test]
fn escape_empties_draft_at_once() {
    let mut state = TaskState::new();
    state.on_keycode(KeyCode::Char('n'));
    type_text(&mut state, "gone");
    state.on_keycode(KeyCode::Esc);
    assert_eq!(state.new_task.title, "");
    assert!(!state.new_task.is_completed);
}

#[test]
fn unbound_key_after_commit_changes_nothing() {
    let mut state = TaskState::new();
    state.on_keycode(KeyCode::Char('n'));
    type_text(&mut state, "Buy milk");
    state.on_keycode(KeyCode::Enter);
    assert!(!state.on_keycode(KeyCode::Char('x')));
    assert_eq!(state.tasks.items.len(), 1);
    assert_eq!(state.tasks.items[0].title, "Buy milk");
    assert_eq!(state.tasks.selected(), None);
    assert!(!state.new_task_popup_enabled);
    assert_eq!(state.new_task.title, "");
}
