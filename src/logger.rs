use vstd::prelude::*;
use tui_logger::{LevelFilter, TuiWidgetEvent, TuiWidgetState};
use crate::component::{Action, ComponentState, Focus};
use crate::event::{Event, KeyCode, KeyEvent};

verus! {

#[verifier::external_type_specification]
#[verifier::external_body]
pub struct ExTuiWidgetState(TuiWidgetState);

/// The commands of the log view, one for each key it binds.
#[derive(Debug, Clone, Copy, PartialEq, Eq, Structural)]
pub enum LogViewEvent {
    Space,
    Up,
    Down,
    Left,
    Right,
    Plus,
    Minus,
    Hide,
    Focus,
    PrevPage,
    NextPage,
    Escape,
}

/// Relies on `TuiWidgetState::new`: a fresh log view state.
#[verifier::external_body]
fn new_widget_state() -> (r: TuiWidgetState) {
    TuiWidgetState::new()
}

/// Relies on `TuiWidgetState::set_level_for_target`: messages of `target`
/// are no longer shown.
#[verifier::external_body]
fn silence_target(state: TuiWidgetState, target: &str) -> (r: TuiWidgetState) {
    state.set_level_for_target(target, LevelFilter::Off)
}

/// Relies on `TuiWidgetState::transition`: the log view reacts to one of
/// its key commands.
#[verifier::external_body]
fn transition(state: &TuiWidgetState, event: LogViewEvent) {
    state.transition(match event {
        LogViewEvent::Space => TuiWidgetEvent::SpaceKey,
        LogViewEvent::Up => TuiWidgetEvent::UpKey,
        LogViewEvent::Down => TuiWidgetEvent::DownKey,
        LogViewEvent::Left => TuiWidgetEvent::LeftKey,
        LogViewEvent::Right => TuiWidgetEvent::RightKey,
        LogViewEvent::Plus => TuiWidgetEvent::PlusKey,
        LogViewEvent::Minus => TuiWidgetEvent::MinusKey,
        LogViewEvent::Hide => TuiWidgetEvent::HideKey,
        LogViewEvent::Focus => TuiWidgetEvent::FocusKey,
        LogViewEvent::PrevPage => TuiWidgetEvent::PrevPageKey,
        LogViewEvent::NextPage => TuiWidgetEvent::NextPageKey,
        LogViewEvent::Escape => TuiWidgetEvent::EscapeKey,
    })
}

/// The log view command bound to a key, if any.
pub open spec fn log_command(code: KeyCode) -> Option<LogViewEvent> {
    match code {
        KeyCode::Char('v') => Some(LogViewEvent::Space),
        KeyCode::Esc => Some(LogViewEvent::Escape),
        KeyCode::PageUp => Some(LogViewEvent::PrevPage),
        KeyCode::PageDown => Some(LogViewEvent::NextPage),
        KeyCode::Up | KeyCode::Char('k') => Some(LogViewEvent::Up),
        KeyCode::Down | KeyCode::Char('j') => Some(LogViewEvent::Down),
        KeyCode::Left | KeyCode::Char('h') => Some(LogViewEvent::Left),
        KeyCode::Right | KeyCode::Char('l') => Some(LogViewEvent::Right),
        KeyCode::Char('+') => Some(LogViewEvent::Plus),
        KeyCode::Char('-') => Some(LogViewEvent::Minus),
        KeyCode::Char(' ') => Some(LogViewEvent::Hide),
        KeyCode::Char('f') => Some(LogViewEvent::Focus),
        _ => None,
    }
}

/// The log view command bound to a key, as `log_command` states.
pub fn command_for(code: KeyCode) -> (r: Option<LogViewEvent>)
    ensures
        r == log_command(code),
{
    match code {
        KeyCode::Char('v') => Some(LogViewEvent::Space),
        KeyCode::Esc => Some(LogViewEvent::Escape),
        KeyCode::PageUp => Some(LogViewEvent::PrevPage),
        KeyCode::PageDown => Some(LogViewEvent::NextPage),
        KeyCode::Up | KeyCode::Char('k') => Some(LogViewEvent::Up),
        KeyCode::Down | KeyCode::Char('j') => Some(LogViewEvent::Down),
        KeyCode::Left | KeyCode::Char('h') => Some(LogViewEvent::Left),
        KeyCode::Right | KeyCode::Char('l') => Some(LogViewEvent::Right),
        KeyCode::Char('+') => Some(LogViewEvent::Plus),
        KeyCode::Char('-') => Some(LogViewEvent::Minus),
        KeyCode::Char(' ') => Some(LogViewEvent::Hide),
        KeyCode::Char('f') => Some(LogViewEvent::Focus),
        _ => None,
    }
}

pub const LOGGER_HELP: &'static str =
    "Space: Hide/show logging target selector panel | (↑/k)/(↓/j): Select target | (←/h)/(→/l): Display level | f: Focus target | +/-: Filter level | v: Toggle filtered targets visibility | PageUp/Down: Scroll | Esc: Cancel scroll";

/// The log viewer panel: the log view's state and the panel's focus state.
pub struct Logger {
    pub state: TuiWidgetState,
    pub component_state: ComponentState,
}

impl Logger {
    /// A log viewer with its target selector hidden and two noisy targets
    /// silenced.
    pub fn new() -> (r: Logger)
        ensures
            r.component_state.focus == Focus::Inactive,
            r.component_state.vis == crate::component::Visibility::Visible,
            r.component_state.help_text@ == LOGGER_HELP@,
    {
        let state = new_widget_state();
        transition(&state, LogViewEvent::Hide);
        let state = silence_target(state, "arboard::platform::linux::x11");
        let state = silence_target(state, "mio::poll");
        Logger { state, component_state: ComponentState::default().with_help_text(LOGGER_HELP) }
    }

    /// Hands the key's command, if it has one, to the log view; always
    /// `Pass`.
    pub fn handle_key_events(&mut self, key: KeyEvent) -> (r: Action)
        ensures
            r == Action::Pass,
            *final(self) == *old(self),
    {
        match command_for(key.code) {
            Some(c) => transition(&self.state, c),
            None => {},
        }
        Action::Pass
    }

    /// Keys go to `handle_key_events`; other events are not handled.
    pub fn handle_event(&mut self, event: Event) -> (r: Action)
        ensures
            r == if event is Key {
                Action::Pass
            } else {
                Action::Noop
            },
            *final(self) == *old(self),
    {
        match event {
            Event::Key(k) => self.handle_key_events(k),
            _ => Action::Noop,
        }
    }

    pub fn is_active(&self) -> (r: bool)
        ensures
            r == (self.component_state.focus == Focus::Active),
    {
        self.component_state.focus == Focus::Active
    }
}

} // verus!
