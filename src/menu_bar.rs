use vstd::prelude::*;
use crate::component::{Action, ComponentState, Focus};
use crate::event::{Event, KeyCode, KeyEvent};

verus! {

/// The entries of the title bar, in display order.
#[derive(Debug, Clone, Copy, PartialEq, Eq, Structural)]
pub enum MenuBarItem {
    File,
    View,
    Help,
}

/// The options of the drop-down menus.
#[derive(Debug, Clone, Copy, PartialEq, Eq, Structural)]
pub enum MenuBarItemOption {
    Save,
    CloseTab,
    Reload,
    Exit,
    ShowHideExplorer,
    ShowHideLogger,
    About,
}

/// The position of an item in the title bar.
pub open spec fn item_index(item: MenuBarItem) -> nat {
    match item {
        MenuBarItem::File => 0,
        MenuBarItem::View => 1,
        MenuBarItem::Help => 2,
    }
}

/// The option list of each title bar entry.
pub open spec fn options_of(item: MenuBarItem) -> Seq<MenuBarItemOption> {
    match item {
        MenuBarItem::File => seq![
            MenuBarItemOption::Save,
            MenuBarItemOption::CloseTab,
            MenuBarItemOption::Reload,
            MenuBarItemOption::Exit,
        ],
        MenuBarItem::View => seq![
            MenuBarItemOption::ShowHideExplorer,
            MenuBarItemOption::ShowHideLogger,
        ],
        MenuBarItem::Help => seq![MenuBarItemOption::About],
    }
}

/// The intent that choosing an option stands for.
pub open spec fn option_action(option: MenuBarItemOption) -> Action {
    match option {
        MenuBarItemOption::Save => Action::Save,
        MenuBarItemOption::Exit => Action::Quit,
        MenuBarItemOption::Reload => Action::ReloadFile,
        MenuBarItemOption::ShowHideExplorer => Action::ShowHideExplorer,
        MenuBarItemOption::ShowHideLogger => Action::ShowHideLogger,
        MenuBarItemOption::About => Action::ShowHideAbout,
        MenuBarItemOption::CloseTab => Action::CloseTab,
    }
}

impl MenuBarItemOption {
    pub fn id(&self) -> (r: &'static str)
        ensures
            *self == MenuBarItemOption::Save ==> r@ == "Save"@,
            *self == MenuBarItemOption::Reload ==> r@ == "Reload"@,
            *self == MenuBarItemOption::Exit ==> r@ == "Exit"@,
            *self == MenuBarItemOption::ShowHideExplorer ==> r@ == "Show / hide explorer"@,
            *self == MenuBarItemOption::ShowHideLogger ==> r@ == "Show / hide logger"@,
            *self == MenuBarItemOption::About ==> r@ == "About"@,
            *self == MenuBarItemOption::CloseTab ==> r@ == "Close tab"@,
    {
        match self {
            MenuBarItemOption::Save => "Save",
            MenuBarItemOption::Reload => "Reload",
            MenuBarItemOption::Exit => "Exit",
            MenuBarItemOption::ShowHideExplorer => "Show / hide explorer",
            MenuBarItemOption::ShowHideLogger => "Show / hide logger",
            MenuBarItemOption::About => "About",
            MenuBarItemOption::CloseTab => "Close tab",
        }
    }

    /// The intent that choosing this option raises.
    pub fn action(&self) -> (r: Action)
        ensures
            r == option_action(*self),
    {
        match self {
            MenuBarItemOption::Save => Action::Save,
            MenuBarItemOption::Exit => Action::Quit,
            MenuBarItemOption::Reload => Action::ReloadFile,
            MenuBarItemOption::ShowHideExplorer => Action::ShowHideExplorer,
            MenuBarItemOption::ShowHideLogger => Action::ShowHideLogger,
            MenuBarItemOption::About => Action::ShowHideAbout,
            MenuBarItemOption::CloseTab => Action::CloseTab,
        }
    }
}

impl MenuBarItem {
    /// The entry to the right; the last entry stays where it is.
    pub fn next(self) -> (r: MenuBarItem)
        ensures
            r == self.next_spec(),
            item_index(r) == if item_index(self) < 2 { item_index(self) + 1 } else { 2 },
    {
        match self {
            MenuBarItem::File => MenuBarItem::View,
            MenuBarItem::View => MenuBarItem::Help,
            MenuBarItem::Help => MenuBarItem::Help,
        }
    }

    /// The entry to the left; the first entry stays where it is.
    pub fn prev(self) -> (r: MenuBarItem)
        ensures
            r == self.prev_spec(),
            item_index(r) == if item_index(self) > 0 { item_index(self) - 1 } else { 0 },
    {
        match self {
            MenuBarItem::File => MenuBarItem::File,
            MenuBarItem::View => MenuBarItem::File,
            MenuBarItem::Help => MenuBarItem::View,
        }
    }

    pub fn id(&self) -> (r: &'static str)
        ensures
            *self == MenuBarItem::File ==> r@ == "File"@,
            *self == MenuBarItem::View ==> r@ == "View"@,
            *self == MenuBarItem::Help ==> r@ == "Help"@,
    {
        match self {
            MenuBarItem::File => "File",
            MenuBarItem::View => "View",
            MenuBarItem::Help => "Help",
        }
    }

    pub fn options(&self) -> (r: Vec<MenuBarItemOption>)
        ensures
            r@ == options_of(*self),
    {
        match self {
            MenuBarItem::File => vec![
                MenuBarItemOption::Save,
                MenuBarItemOption::CloseTab,
                MenuBarItemOption::Reload,
                MenuBarItemOption::Exit,
            ],
            MenuBarItem::View => vec![
                MenuBarItemOption::ShowHideExplorer,
                MenuBarItemOption::ShowHideLogger,
            ],
            MenuBarItem::Help => vec![MenuBarItemOption::About],
        }
    }
}

/// `handle_key_events(key)` takes the menu `s` to `t` and returns `r`.
pub open spec fn menu_key_step(s: MenuBar, key: KeyEvent, t: MenuBar, r: Action) -> bool {
    &&& t.wf()
    &&& t.component_state.focus == s.component_state.focus
    &&& t.component_state.vis == s.component_state.vis
    &&& match s.opened {
        None => match key.code {
            KeyCode::Left | KeyCode::Char('h') => {
                &&& r == Action::Handled
                &&& t.selected == s.selected.prev_spec()
                &&& t.opened is None
                &&& t.component_state == s.component_state
            },
            KeyCode::Right | KeyCode::Char('l') => {
                &&& r == Action::Handled
                &&& t.selected == s.selected.next_spec()
                &&& t.opened is None
                &&& t.component_state == s.component_state
            },
            KeyCode::Enter => {
                &&& r == Action::Handled
                &&& t.selected == s.selected
                &&& t.opened == Some(s.selected)
                &&& t.option_cursor == 0
                &&& t.component_state.help_text@ == MENU_DROP_DOWN_HELP@
            },
            _ => r == Action::Noop && t == s,
        },
        Some(item) => {
            let n = options_of(item).len() as int;
            match key.code {
                KeyCode::Up | KeyCode::Char('k') => {
                    &&& r == Action::Handled
                    &&& t.selected == s.selected
                    &&& t.opened == s.opened
                    &&& t.component_state == s.component_state
                    &&& t.option_cursor == if s.option_cursor == 0 {
                        n - 1
                    } else {
                        s.option_cursor - 1
                    }
                },
                KeyCode::Down | KeyCode::Char('j') => {
                    &&& r == Action::Handled
                    &&& t.selected == s.selected
                    &&& t.opened == s.opened
                    &&& t.component_state == s.component_state
                    &&& t.option_cursor == (s.option_cursor + 1) % n
                },
                KeyCode::Enter => {
                    &&& r == option_action(options_of(item)[s.option_cursor as int])
                    &&& t == s
                },
                KeyCode::Esc | KeyCode::Char('q') => {
                    &&& r == Action::Handled
                    &&& t.selected == s.selected
                    &&& t.opened is None
                    &&& t.option_cursor == 0
                    &&& t.component_state.help_text@ == MENU_DEFAULT_HELP@
                },
                _ => r == Action::Noop && t == s,
            }
        },
    }
}

/// `handle_event(event)` takes the menu `s` to `t` and returns `r`: keys as
/// `handle_key_events` handles them, nothing else.
pub open spec fn menu_event_step(s: MenuBar, event: Event, t: MenuBar, r: Action) -> bool {
    match event {
        Event::Key(k) => menu_key_step(s, k, t, r),
        _ => r == Action::Noop && t == s,
    }
}

pub const MENU_DEFAULT_HELP: &'static str = "(←/h)/(→/l): Select option | Enter: Choose selection";

pub const MENU_DROP_DOWN_HELP: &'static str =
    "(↑/k)/(↓/j): Select option | Enter: Choose selection | ESC/Q: Close drop-down menu";

/// The two-level menu: the title bar, and the drop-down of one entry.
pub struct MenuBar {
    pub selected: MenuBarItem,
    pub opened: Option<MenuBarItem>,
    pub option_cursor: usize,
    pub component_state: ComponentState,
}

impl MenuBar {
    /// In a drop-down the opened entry is the selected one, and the option
    /// cursor lies within its option list.
    pub open spec fn wf(&self) -> bool {
        match self.opened {
            Some(item) => item == self.selected && self.option_cursor < options_of(item).len(),
            None => self.option_cursor == 0,
        }
    }

    /// A title bar on `File`, no drop-down open, with the default help text.
    pub fn new() -> (r: MenuBar)
        ensures
            r.wf(),
            r.selected == MenuBarItem::File,
            r.opened is None,
            r.option_cursor == 0,
            r.component_state.help_text@ == MENU_DEFAULT_HELP@,
            r.component_state.focus == Focus::Inactive,
    {
        MenuBar {
            selected: MenuBarItem::File,
            opened: None,
            option_cursor: 0,
            component_state: ComponentState::default().with_help_text(MENU_DEFAULT_HELP),
        }
    }

    /// Handles a key in either mode.
    ///
    /// On the title bar, left and right move the selection without wrapping,
    /// and confirm opens the drop-down of the selected entry with the cursor
    /// on its first option. In a drop-down, up and down move the cursor with
    /// wraparound, confirm returns the highlighted option's intent and leaves
    /// the drop-down open, and cancel goes back to the title bar.
    pub fn handle_key_events(&mut self, key: KeyEvent) -> (r: Action)
        requires
            old(self).wf(),
        ensures
            menu_key_step(*old(self), key, *final(self), r),
    {
        match self.opened {
            Some(item) => {
                let options = item.options();
                let n = options.len();
                match key.code {
                    KeyCode::Up | KeyCode::Char('k') => {
                        if self.option_cursor == 0 {
                            self.option_cursor = n - 1;
                        } else {
                            self.option_cursor = self.option_cursor - 1;
                        }
                        Action::Handled
                    },
                    KeyCode::Down | KeyCode::Char('j') => {
                        self.option_cursor = (self.option_cursor + 1) % n;
                        Action::Handled
                    },
                    KeyCode::Enter => options[self.option_cursor].action(),
                    KeyCode::Esc | KeyCode::Char('q') => {
                        self.opened = None;
                        self.option_cursor = 0;
                        self.component_state.help_text = MENU_DEFAULT_HELP.to_owned();
                        Action::Handled
                    },
                    _ => Action::Noop,
                }
            },
            None => match key.code {
                KeyCode::Left | KeyCode::Char('h') => {
                    self.selected = self.selected.prev();
                    Action::Handled
                },
                KeyCode::Right | KeyCode::Char('l') => {
                    self.selected = self.selected.next();
                    Action::Handled
                },
                KeyCode::Enter => {
                    self.opened = Some(self.selected);
                    self.option_cursor = 0;
                    self.component_state.help_text = MENU_DROP_DOWN_HELP.to_owned();
                    Action::Handled
                },
                _ => Action::Noop,
            },
        }
    }
}

impl MenuBar {
    /// Keys go to `handle_key_events`; other events are not handled.
    pub fn handle_event(&mut self, event: Event) -> (r: Action)
        requires
            old(self).wf(),
        ensures
            menu_event_step(*old(self), event, *final(self), r),
    {
        match event {
            Event::Key(k) => self.handle_key_events(k),
            _ => Action::Noop,
        }
    }

    pub fn is_active(&self) -> (r: bool)
        ensures
            r == (self.component_state.focus == Focus::Active),
    {
        self.component_state.focus == Focus::Active
    }
}

impl MenuBarItem {
    pub open spec fn next_spec(self) -> MenuBarItem {
        match self {
            MenuBarItem::File => MenuBarItem::View,
            _ => MenuBarItem::Help,
        }
    }

    pub open spec fn prev_spec(self) -> MenuBarItem {
        match self {
            MenuBarItem::Help => MenuBarItem::View,
            _ => MenuBarItem::File,
        }
    }
}

} // verus!
