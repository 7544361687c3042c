use clide::component::Action;
use clide::event::{KeyCode, KeyEvent};
use clide::menu_bar::{MenuBar, MenuBarItem, MenuBarItemOption, MENU_DEFAULT_HELP, MENU_DROP_DOWN_HELP};

fn press(m: &mut MenuBar, code: KeyCode) -> Action {
    m.handle_key_events(KeyEvent::press(code))
}

#[test]
fn right_saturates_at_help() {
    let mut m = MenuBar::new();
    assert_eq!(m.selected, MenuBarItem::File);
    assert_eq!(press(&mut m, KeyCode::Right), Action::Handled);
    assert_eq!(press(&mut m, KeyCode::Right), Action::Handled);
    assert_eq!(m.selected, MenuBarItem::Help);
    assert_eq!(press(&mut m, KeyCode::Right), Action::Handled);
    assert_eq!(m.selected, MenuBarItem::Help);
    assert!(m.opened.is_none());
}

#[test]
fn left_saturates_at_file() {
    let mut m = MenuBar::new();
    assert_eq!(press(&mut m, KeyCode::Char('h')), Action::Handled);
    assert_eq!(m.selected, MenuBarItem::File);
    press(&mut m, KeyCode::Char('l'));
    assert_eq!(m.selected, MenuBarItem::View);
    press(&mut m, KeyCode::Left);
    assert_eq!(m.selected, MenuBarItem::File);
}

#[test]
fn item_next_prev_and_names() {
    assert_eq!(MenuBarItem::File.next(), MenuBarItem::View);
    assert_eq!(MenuBarItem::Help.next(), MenuBarItem::Help);
    assert_eq!(MenuBarItem::File.prev(), MenuBarItem::File);
    assert_eq!(MenuBarItem::Help.prev(), MenuBarItem::View);
    assert_eq!(MenuBarItem::View.id(), "View");
    assert_eq!(MenuBarItemOption::ShowHideLogger.id(), "Show / hide logger");
    assert_eq!(
        MenuBarItem::File.options(),
        vec![
            MenuBarItemOption::Save,
            MenuBarItemOption::CloseTab,
            MenuBarItemOption::Reload,
            MenuBarItemOption::Exit
        ]
    );
    assert_eq!(MenuBarItem::Help.options(), vec![MenuBarItemOption::About]);
}

#[test]
fn drop_down_wraps_and_confirms_without_closing() {
    let mut m = MenuBar::new();
    assert_eq!(press(&mut m, KeyCode::Enter), Action::Handled);
    assert_eq!(m.opened, Some(MenuBarItem::File));
    assert_eq!(m.option_cursor, 0);
    assert_eq!(m.component_state.help_text, MENU_DROP_DOWN_HELP);
    assert_eq!(press(&mut m, KeyCode::Up), Action::Handled);
    assert_eq!(m.option_cursor, 3);
    assert_eq!(press(&mut m, KeyCode::Enter), Action::Quit);
    assert_eq!(m.opened, Some(MenuBarItem::File));
    assert_eq!(press(&mut m, KeyCode::Char('j')), Action::Handled);
    assert_eq!(m.option_cursor, 0);
    assert_eq!(press(&mut m, KeyCode::Enter), Action::Save);
    press(&mut m, KeyCode::Down);
    assert_eq!(press(&mut m, KeyCode::Enter), Action::CloseTab);
    press(&mut m, KeyCode::Down);
    assert_eq!(press(&mut m, KeyCode::Enter), Action::ReloadFile);
}

#[test]
fn cancel_returns_to_title_bar() {
    let mut m = MenuBar::new();
    press(&mut m, KeyCode::Right);
    press(&mut m, KeyCode::Enter);
    press(&mut m, KeyCode::Down);
    assert_eq!(m.option_cursor, 1);
    assert_eq!(press(&mut m, KeyCode::Enter), Action::ShowHideLogger);
    assert_eq!(press(&mut m, KeyCode::Esc), Action::Handled);
    assert!(m.opened.is_none());
    assert_eq!(m.option_cursor, 0);
    assert_eq!(m.component_state.help_text, MENU_DEFAULT_HELP);
    assert_eq!(m.selected, MenuBarItem::View);
    assert_eq!(press(&mut m, KeyCode::Char('x')), Action::Noop);
}

#[test]
fn help_menu_opens_about() {
    let mut m = MenuBar::new();
    press(&mut m, KeyCode::Right);
    press(&mut m, KeyCode::Right);
    press(&mut m, KeyCode::Enter);
    press(&mut m, KeyCode::Down);
    assert_eq!(m.option_cursor, 0);
    assert_eq!(press(&mut m, KeyCode::Enter), Action::ShowHideAbout);
    assert_eq!(press(&mut m, KeyCode::Char('q')), Action::Handled);
    assert!(m.opened.is_none());
}
