use clide::component::{Action, Focus};
use clide::editor::Editor;
use clide::editor_tab::EditorTab;
use clide::error::ClideError;
use clide::event::{Event, KeyCode, KeyEvent};

fn lines(e: &Editor) -> edtui::Lines {
    e.state.lines.clone()
}

fn expected(v: &[&str]) -> edtui::Lines {
    edtui::Lines::new(v.iter().map(|l| l.chars().collect::<Vec<char>>()).collect::<Vec<_>>())
}

fn three_tabs() -> EditorTab {
    let mut t = EditorTab::new();
    t.open_tab("/tmp/a.txt", Some("a")).unwrap();
    t.open_tab("/tmp/b.txt", Some("b")).unwrap();
    t.open_tab("/tmp/c.txt", Some("c")).unwrap();
    t
}

#[test]
fn open_then_close_single_tab_leaves_none() {
    let mut t = EditorTab::new();
    assert!(t.open_tab("/tmp/x.txt", Some("hello\nworld\n")).is_ok());
    assert_eq!(t.tab_order, vec!["/tmp/x.txt".to_string()]);
    assert_eq!(t.current_index(), 0);
    let idx = t.current_index();
    assert_eq!(t.close_tab(idx), Ok(()));
    assert!(t.tab_order.is_empty());
    assert!(t.is_empty());
    assert!(t.current_editor().is_none());
}

#[test]
fn open_twice_is_idempotent() {
    let mut t = EditorTab::new();
    t.open_tab("/tmp/x.txt", Some("one\ntwo")).unwrap();
    t.editors[0].state.cursor = edtui::Index2::new(1, 2);
    assert!(t.open_tab("/tmp/x.txt", Some("changed")).is_ok());
    assert_eq!(t.tab_order.len(), 1);
    assert_eq!(t.editors.len(), 1);
    assert_eq!(t.editors[0].state.cursor, edtui::Index2::new(1, 2));
    assert_eq!(lines(&t.editors[0]), expected(&["one", "two"]));
}

#[test]
fn failed_read_changes_nothing() {
    let mut t = EditorTab::new();
    assert_eq!(t.open_tab("/tmp/missing.txt", None), Err(ClideError::Io));
    assert!(t.is_empty());
}

#[test]
fn next_cycles_back_and_prev_undoes_next() {
    let mut t = three_tabs();
    assert_eq!(t.current_index(), 2);
    for _ in 0..3 {
        t.next_editor();
    }
    assert_eq!(t.current_index(), 2);
    t.next_editor();
    assert_eq!(t.current_index(), 0);
    t.prev_editor();
    assert_eq!(t.current_index(), 2);
    t.prev_editor();
    assert_eq!(t.current_index(), 1);
}

#[test]
fn rotation_is_noop_with_one_or_no_tab() {
    let mut t = EditorTab::new();
    t.next_editor();
    t.prev_editor();
    assert_eq!(t.current_index(), 0);
    t.open_tab("/tmp/a.txt", Some("")).unwrap();
    t.next_editor();
    assert_eq!(t.current_index(), 0);
}

#[test]
fn close_invalid_index_fails() {
    let mut t = three_tabs();
    assert_eq!(t.close_tab(3), Err(ClideError::InvalidIndex));
    assert_eq!(t.tab_order.len(), 3);
    let mut e = EditorTab::new();
    assert_eq!(e.close_current_tab(), Err(ClideError::InvalidIndex));
}

#[test]
fn close_first_moves_to_last() {
    let mut t = three_tabs();
    t.close_tab(0).unwrap();
    assert_eq!(t.tab_order, vec!["/tmp/b.txt".to_string(), "/tmp/c.txt".to_string()]);
    assert_eq!(t.current_index(), 1);
    t.close_tab(1).unwrap();
    assert_eq!(t.current_index(), 0);
    assert_eq!(t.get_editor_key(0), Some("/tmp/b.txt".to_string()));
    assert_eq!(t.get_editor_key(1), None);
}

#[test]
fn focus_follows_the_current_tab() {
    let mut t = three_tabs();
    t.set_current_tab_focus(Focus::Active);
    t.next_editor();
    assert_eq!(t.current_index(), 0);
    assert_eq!(t.editors[0].component_state.focus, Focus::Active);
    assert_eq!(t.editors[2].component_state.focus, Focus::Inactive);
    t.close_current_tab().unwrap();
    assert_eq!(t.editors[t.current_index()].component_state.focus, Focus::Active);
    t.clear_focus();
    assert!(t.editors.iter().all(|e| e.component_state.focus == Focus::Inactive));
}

#[test]
fn tab_keys_switch_tabs() {
    let mut t = three_tabs();
    let h = t.handle_event(Event::Key(KeyEvent::alt(KeyCode::Char('h'))));
    assert_eq!(h, Action::Handled);
    assert_eq!(t.current_index(), 1);
    assert_eq!(t.handle_event(Event::Key(KeyEvent::alt(KeyCode::Right))), Action::Handled);
    assert_eq!(t.current_index(), 2);
    assert_eq!(t.handle_event(Event::Key(KeyEvent::control(KeyCode::Char('s')))), Action::Save);
    assert_eq!(t.handle_event(Event::Key(KeyEvent::press(KeyCode::Char('x')))), Action::Pass);
    let mut e = EditorTab::new();
    assert_eq!(e.handle_event(Event::Key(KeyEvent::press(KeyCode::Char('x')))), Action::Noop);
}

#[test]
fn save_joins_lines_and_needs_a_path() {
    let mut e = Editor::new("/tmp/s.txt");
    e.set_contents("/tmp/s.txt", "first\r\nsecond\n");
    assert_eq!(lines(&e), expected(&["first", "second"]));
    assert_eq!(e.save(), Ok(("/tmp/s.txt".to_string(), "first\nsecond".to_string())));
    e.file_path = None;
    assert_eq!(e.save(), Err(ClideError::NoFilePath));
    assert_eq!(e.reload_contents("x"), Err(ClideError::NoFilePath));
}

#[test]
fn reload_resets_cursor() {
    let mut t = EditorTab::new();
    t.open_tab("/tmp/r.txt", Some("a\nb")).unwrap();
    t.editors[0].state.cursor = edtui::Index2::new(1, 1);
    assert_eq!(t.reload_current("new text"), Ok(()));
    assert_eq!(t.editors[0].state.cursor, edtui::Index2::new(0, 0));
    assert_eq!(lines(&t.editors[0]), expected(&["new text"]));
}
