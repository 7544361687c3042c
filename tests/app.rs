use clide::about::About;
use clide::app::{App, AppComponent, Effect, Slot};
use clide::cli::{AppContext, Cli, RunMode};
use clide::component::{
    Action, ComponentState, Focus, FocusState, Visibility, VisibleState,
};
use clide::error::ClideError;
use clide::event::{Event, KeyCode, KeyEvent, KeyEventKind, KeyModifiers, MouseButton, MouseEvent, MouseEventKind};
use clide::logger::{command_for, LogViewEvent};
use clide::tree::FsEntry;

fn file(name: &str) -> FsEntry {
    FsEntry { name: name.to_string(), is_dir: false, listing: None }
}

fn app() -> App {
    App::new("/tmp/proj", true, &Some(vec![file("b.txt"), file("a.txt")])).unwrap()
}

fn active(a: &App) -> usize {
    let ed = a.editor_tabs.current_editor().map_or(false, |e| e.is_active());
    [a.explorer.is_active(), a.logger.is_active(), a.menu_bar.component_state.focus == Focus::Active, ed]
        .iter()
        .filter(|b| **b)
        .count()
}

fn key(a: &mut App, k: KeyEvent) -> clide::app::Step {
    a.handle_event(Event::Key(k))
}

#[test]
fn focus_stays_exclusive() {
    let mut a = app();
    assert_eq!(active(&a), 0);
    assert_eq!(a.finish_open("/tmp/proj/a.txt", Some("text")), Action::Handled);
    for t in [
        AppComponent::AppEditor,
        AppComponent::AppExplorer,
        AppComponent::AppEditor,
        AppComponent::AppLogger,
        AppComponent::AppMenuBar,
        AppComponent::AppEditor,
    ] {
        a.change_focus(t);
        assert_eq!(a.last_active, t);
        assert_eq!(active(&a), 1);
    }
    a.finish_open("/tmp/proj/b.txt", Some("other"));
    a.change_focus(AppComponent::AppExplorer);
    a.dispatch(Action::CloseTab);
    assert!(active(&a) <= 1);
    assert!(a.explorer.is_active());
}

#[test]
fn global_shortcuts_come_first() {
    let mut a = app();
    let s = key(&mut a, KeyEvent::alt(KeyCode::Char('q')));
    assert_eq!(s.action, Action::Handled);
    assert_eq!(a.last_active, AppComponent::AppExplorer);
    assert!(a.explorer.is_active());
    let s = key(&mut a, KeyEvent::alt(KeyCode::Char('r')));
    assert_eq!(s.action, Action::Handled);
    assert!(a.menu_bar.component_state.focus == Focus::Active);
    assert!(!a.explorer.is_active());
    let s = key(&mut a, KeyEvent::control(KeyCode::Char('c')));
    assert_eq!(s.action, Action::Quit);
    let release = KeyEvent { code: KeyCode::Char('c'), modifiers: KeyModifiers::control_only(), kind: KeyEventKind::Release };
    assert_ne!(key(&mut a, release).action, Action::Quit);
}

#[test]
fn about_overlay_toggles_and_closes() {
    let mut a = app();
    assert_eq!(a.dispatch(Action::ShowHideAbout).action, Action::Handled);
    assert!(a.about);
    let s = key(&mut a, KeyEvent::press(KeyCode::Esc));
    assert_eq!(s.action, Action::Handled);
    assert!(!a.about);
}

#[test]
fn menu_drives_the_coordinator() {
    let mut a = app();
    a.change_focus(AppComponent::AppMenuBar);
    key(&mut a, KeyEvent::press(KeyCode::Right));
    key(&mut a, KeyEvent::press(KeyCode::Enter));
    let s = key(&mut a, KeyEvent::press(KeyCode::Enter));
    assert_eq!(s.action, Action::Handled);
    assert_eq!(a.explorer.component_state.vis, Visibility::Hidden);
    assert_eq!(a.horizontal_slots(), vec![Slot::Fill(1)]);
    key(&mut a, KeyEvent::press(KeyCode::Down));
    key(&mut a, KeyEvent::press(KeyCode::Enter));
    assert_eq!(a.logger.component_state.vis, Visibility::Hidden);
    assert_eq!(a.vertical_slots(), vec![Slot::Length(3), Slot::Fill(1), Slot::Length(3)]);
}

#[test]
fn open_save_and_reload_ask_for_file_work() {
    let mut a = app();
    a.change_focus(AppComponent::AppExplorer);
    a.explorer.tree_state.select(vec!["/tmp/proj/a.txt".to_string()]);
    let s = key(&mut a, KeyEvent::press(KeyCode::Enter));
    match s.effect {
        Effect::ReadForOpen { path } => assert_eq!(path, "/tmp/proj/a.txt"),
        other => panic!("unexpected {:?}", other),
    }
    assert_eq!(a.finish_open("/tmp/proj/a.txt", None), Action::Noop);
    assert!(a.editor_tabs.is_empty());
    assert_eq!(a.finish_open("/tmp/proj/a.txt", Some("l1\nl2\n")), Action::Handled);
    a.change_focus(AppComponent::AppEditor);
    let s = key(&mut a, KeyEvent::control(KeyCode::Char('s')));
    match s.effect {
        Effect::Write { path, contents } => {
            assert_eq!(path, "/tmp/proj/a.txt");
            assert_eq!(contents, "l1\nl2");
        }
        other => panic!("unexpected {:?}", other),
    }
    assert_eq!(App::save_outcome(true), Action::Handled);
    assert_eq!(App::save_outcome(false), Action::Noop);
    match a.dispatch(Action::ReloadFile).effect {
        Effect::ReadForReload { path } => assert_eq!(path, "/tmp/proj/a.txt"),
        other => panic!("unexpected {:?}", other),
    }
    assert_eq!(a.finish_reload(Some("fresh")), Action::Handled);
    assert_eq!(a.finish_reload(None), Action::Noop);
    let s = key(&mut a, KeyEvent::press(KeyCode::Char('i')));
    assert!(matches!(s.effect, Effect::ForwardToEditor));
    assert_eq!(a.dispatch(Action::CloseTab).action, Action::Handled);
    assert_eq!(a.dispatch(Action::CloseTab).action, Action::Noop);
    assert!(matches!(a.dispatch(Action::Save).effect, Effect::Nothing));
    assert_eq!(a.help_text(), None);
}

#[test]
fn pointer_press_reaches_explorer_without_focus() {
    let mut a = app();
    let m = MouseEvent { kind: MouseEventKind::Down(MouseButton::Left), column: 0, row: 0 };
    let s = a.handle_event(Event::Mouse(m));
    assert_eq!(s.action, Action::Noop);
    assert!(matches!(s.effect, Effect::Nothing));
}

#[test]
fn component_state_flags() {
    let s = ComponentState::default();
    assert_eq!(s.focus, Focus::Inactive);
    assert_eq!(s.vis, Visibility::Visible);
    let mut s = ComponentState::new().with_help_text("help");
    assert_eq!(s.focus, Focus::Active);
    assert_eq!(s.help_text, "help");
    s.toggle_focus();
    assert_eq!(s.focus, Focus::Inactive);
    s.togget_visible();
    assert_eq!(s.vis, Visibility::Hidden);
    let s = s.with_focus(Focus::Active);
    assert_eq!(s.vis, Visibility::Visible);
    let s = s.with_visible(Visibility::Hidden);
    assert_eq!(s.focus, Focus::Active);
    assert_eq!(ComponentState::id(), "ComponentState");
    assert_eq!(About::id(), "About");
    let _ = About::new();
    assert_eq!(App::id(), "App");
}

#[test]
fn run_mode_from_flags() {
    let cli = |tui, gui| Cli { path: None, tui, gui };
    assert_eq!(cli(false, false).run_mode(), Ok(RunMode::Gui));
    assert_eq!(cli(true, false).run_mode(), Ok(RunMode::Tui));
    assert_eq!(cli(false, true).run_mode(), Ok(RunMode::GuiAttached));
    assert_eq!(cli(true, true).run_mode(), Err(ClideError::MultipleRunModes));
    let c = AppContext::new("/tmp".to_string(), &cli(true, false)).unwrap();
    assert_eq!(c.path, "/tmp");
    assert_eq!(c.run_mode, RunMode::Tui);
    assert_eq!(RunMode::default(), RunMode::Gui);
}

#[test]
fn logger_keys_map_to_view_commands() {
    assert_eq!(command_for(KeyCode::Char('v')), Some(LogViewEvent::Space));
    assert_eq!(command_for(KeyCode::Char(' ')), Some(LogViewEvent::Hide));
    assert_eq!(command_for(KeyCode::PageDown), Some(LogViewEvent::NextPage));
    assert_eq!(command_for(KeyCode::Char('z')), None);
    let mut a = app();
    a.change_focus(AppComponent::AppLogger);
    let s = key(&mut a, KeyEvent::press(KeyCode::Char('k')));
    assert_eq!(s.action, Action::Noop);
    assert!(a.logger.is_active());
}

#[test]
fn bad_root_fails() {
    assert_eq!(App::new("/", true, &Some(vec![])).err(), Some(ClideError::NoFileName));
    assert_eq!(App::new("/tmp/proj", true, &None).err(), Some(ClideError::Io));
}
