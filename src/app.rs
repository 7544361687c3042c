use vstd::prelude::*;
use crate::component::{Action, Focus, FocusState, Visibility, VisibleState};
use crate::editor::editor_lines;
use crate::editor_tab::{
    EditorTab, active_at, any_active, close_post, single_focus, tab_event_step, with_focus,
};
use crate::error::ClideError;
use crate::event::{Event, KeyCode, KeyEvent, KeyEventKind, MouseButton, MouseEventKind};
use crate::explorer::{Explorer, explorer_event_step, explorer_mouse_step};
use crate::logger::Logger;
use crate::menu_bar::{MenuBar, menu_event_step};
use crate::path::file_name_of;
use crate::text::{join_lines, lines_of};
use crate::tree::{FsEntry, built_root, valid_listing};

verus! {

/// The top-level panels.
#[derive(Debug, Clone, Copy, PartialEq, Eq, Structural)]
pub enum AppComponent {
    AppEditor,
    AppExplorer,
    AppLogger,
    AppMenuBar,
}

/// Outside work that an input step asks of the program around the library.
#[derive(Debug)]
pub enum Effect {
    /// Nothing to do.
    Nothing,
    /// Hand the input event to the current editor's editing engine.
    ForwardToEditor,
    /// Write `contents` to the file at `path`, then report with `save_outcome`.
    Write { path: String, contents: String },
    /// Read the file at `path`, then report with `finish_open`.
    ReadForOpen { path: String },
    /// Read the file at `path`, then report with `finish_reload`.
    ReadForReload { path: String },
}

/// The outcome of one input step: the intent it resolved to and the outside
/// work it asks for.
#[derive(Debug)]
pub struct Step {
    pub action: Action,
    pub effect: Effect,
}

/// The coordinator: one instance of each panel, the panel with focus, and
/// whether the about overlay is shown.
pub struct App {
    pub editor_tabs: EditorTab,
    pub explorer: Explorer,
    pub logger: Logger,
    pub menu_bar: MenuBar,
    pub last_active: AppComponent,
    pub about: bool,
}

/// The step that resolves to `action` with no outside work.
pub open spec fn plain(r: Step, action: Action) -> bool {
    r.action == action && r.effect is Nothing
}

/// Escape or `q` closes the about overlay when it is shown.
pub open spec fn closes_about(k: KeyEvent) -> bool {
    k.code == KeyCode::Esc || k.code == KeyCode::Char('q')
}

/// The panel that a global focus shortcut (Alt with q, w, e or r) names.
pub open spec fn focus_target(k: KeyEvent) -> Option<AppComponent> {
    if k.kind == KeyEventKind::Press && k.modifiers.is_alt() {
        match k.code {
            KeyCode::Char('q') => Some(AppComponent::AppExplorer),
            KeyCode::Char('w') => Some(AppComponent::AppEditor),
            KeyCode::Char('e') => Some(AppComponent::AppLogger),
            KeyCode::Char('r') => Some(AppComponent::AppMenuBar),
            _ => None,
        }
    } else {
        None
    }
}

/// Control with c quits.
pub open spec fn is_quit(k: KeyEvent) -> bool {
    k.kind == KeyEventKind::Press && k.modifiers.is_control() && k.code == KeyCode::Char('c')
}

/// The panel that a global focus shortcut names, as `focus_target` states.
pub fn focus_shortcut(k: KeyEvent) -> (r: Option<AppComponent>)
    ensures
        r == focus_target(k),
{
    if k.kind == KeyEventKind::Press && k.modifiers.only_alt() {
        match k.code {
            KeyCode::Char('q') => Some(AppComponent::AppExplorer),
            KeyCode::Char('w') => Some(AppComponent::AppEditor),
            KeyCode::Char('e') => Some(AppComponent::AppLogger),
            KeyCode::Char('r') => Some(AppComponent::AppMenuBar),
            _ => None,
        }
    } else {
        None
    }
}

/// A layout slot of the screen, top to bottom and left to right.
#[derive(Debug, Clone, Copy, PartialEq, Eq, Structural)]
pub enum Slot {
    /// A fixed number of rows or columns.
    Length(u16),
    /// A share of the space, in percent.
    Percentage(u16),
    /// At most this many rows or columns.
    Max(u16),
    /// What is left, by weight.
    Fill(u16),
}

/// The focus flag for a panel that gains focus (`true`) or loses it.
pub open spec fn flag(active: bool) -> Focus {
    if active {
        Focus::Active
    } else {
        Focus::Inactive
    }
}

/// `t` is `s` with the explorer's, the logger's and the menu's focus set to
/// `fx`, `fl` and `fm`, every editor losing focus but the one at `editor`
/// (pass `-1` for none), which gains it; nothing else changes but
/// `last_active`.
pub open spec fn focus_moved(s: App, fx: Focus, fl: Focus, fm: Focus, editor: int, t: App) -> bool {
    &&& t.explorer == (Explorer {
        component_state: s.explorer.component_state.set_focus_spec(fx),
        ..s.explorer
    })
    &&& t.logger == (Logger { component_state: s.logger.component_state.set_focus_spec(fl), ..s.logger })
    &&& t.menu_bar == (MenuBar {
        component_state: s.menu_bar.component_state.set_focus_spec(fm),
        ..s.menu_bar
    })
    &&& t.editor_tabs.tab_order == s.editor_tabs.tab_order
    &&& t.editor_tabs.current_editor == s.editor_tabs.current_editor
    &&& t.editor_tabs.editors@.len() == s.editor_tabs.editors@.len()
    &&& forall|i: int|
        0 <= i < s.editor_tabs.editors@.len() ==> #[trigger] t.editor_tabs.editors@[i] == with_focus(
            s.editor_tabs.editors@[i],
            flag(i == editor),
        )
    &&& t.about == s.about
}

/// What `change_focus(focus)` does to `s`: the panel named by `focus` gains
/// focus (for the editor area, its current tab, if any) and every other
/// panel and editor loses it; tabs, buffers, the explorer's selection, the
/// menu's state and every panel's visibility stay as they were.
pub open spec fn change_focus_post(s: App, focus: AppComponent, t: App) -> bool {
    &&& t.wf()
    &&& t.last_active == focus
    &&& focus_moved(
        s,
        flag(focus == AppComponent::AppExplorer),
        flag(focus == AppComponent::AppLogger),
        flag(focus == AppComponent::AppMenuBar),
        if focus == AppComponent::AppEditor && s.editor_tabs.len() > 0 {
            s.editor_tabs.current_editor as int
        } else {
            -1
        },
        t,
    )
}

/// Whether the application's own bindings take the key.
pub open spec fn global_takes(s: App, k: KeyEvent) -> bool {
    (s.about && closes_about(k)) || focus_target(k) is Some || is_quit(k)
}

/// What `handle_key_events(k)` does to `s`, giving `t` and `r`.
pub open spec fn global_key_post(s: App, k: KeyEvent, t: App, r: Action) -> bool {
    &&& t.wf()
    &&& if s.about && closes_about(k) {
        r == Action::Handled && t == (App { about: false, ..s })
    } else {
        match focus_target(k) {
            Some(f) => r == Action::Handled && change_focus_post(s, f, t),
            None => if is_quit(k) {
                r == Action::Quit && t == s
            } else {
                r == Action::Noop && t == s
            },
        }
    }
}

/// What `dispatch(action)` does to `s`, giving `t` and the step `r`.
pub open spec fn dispatch_post(s: App, action: Action, t: App, r: Step) -> bool {
    &&& t.wf()
    &&& t.last_active == s.last_active
    &&& match action {
        Action::Quit => plain(r, Action::Quit) && t == s,
        Action::Handled => plain(r, Action::Handled) && t == s,
        Action::Save => {
            &&& t == s
            &&& r.action == Action::Noop
            &&& if s.editor_tabs.len() > 0
                && s.editor_tabs.editors@[s.editor_tabs.current_editor as int].file_path is Some {
                let e = s.editor_tabs.editors@[s.editor_tabs.current_editor as int];
                r.effect matches Effect::Write { path, contents } && e.has_path(path@)
                    && contents@ == join_lines(editor_lines(e.state))
            } else {
                r.effect is Nothing
            }
        },
        Action::OpenTab => {
            &&& t == s
            &&& r.action == Action::Noop
            &&& if s.explorer.selection().len() > 0 {
                r.effect matches Effect::ReadForOpen { path } && path@ == s.explorer.selection().last()
            } else {
                r.effect is Nothing
            }
        },
        Action::ReloadFile => {
            &&& t == s
            &&& r.action == Action::Noop
            &&& if s.editor_tabs.len() > 0
                && s.editor_tabs.editors@[s.editor_tabs.current_editor as int].file_path is Some {
                let e = s.editor_tabs.editors@[s.editor_tabs.current_editor as int];
                r.effect matches Effect::ReadForReload { path } && e.has_path(path@)
            } else {
                r.effect is Nothing
            }
        },
        Action::CloseTab => if s.editor_tabs.len() > 0 {
            &&& plain(r, Action::Handled)
            &&& close_post(s.editor_tabs, s.editor_tabs.current_editor as int, t.editor_tabs, Ok(()))
            &&& t == (App { editor_tabs: t.editor_tabs, ..s })
        } else {
            plain(r, Action::Noop) && t == s
        },
        Action::ShowHideLogger => {
            &&& plain(r, Action::Handled)
            &&& t == (App {
                logger: Logger {
                    component_state: s.logger.component_state.toggle_visible_spec(),
                    ..s.logger
                },
                ..s
            })
        },
        Action::ShowHideExplorer => {
            &&& plain(r, Action::Handled)
            &&& t == (App {
                explorer: Explorer {
                    component_state: s.explorer.component_state.toggle_visible_spec(),
                    ..s.explorer
                },
                ..s
            })
        },
        Action::ShowHideAbout => plain(r, Action::Handled) && t == (App { about: !s.about, ..s }),
        Action::Pass => {
            &&& t == s
            &&& if s.last_active == AppComponent::AppEditor && s.editor_tabs.len() > 0 {
                r.action == Action::Pass && r.effect is ForwardToEditor
            } else {
                plain(r, Action::Noop)
            }
        },
        Action::Noop => plain(r, Action::Noop) && t == s,
    }
}

/// The focused panel's `handle_event` takes `s` to `m` and returns `a`;
/// nothing outside that panel changes.
pub open spec fn panel_step(s: App, event: Event, m: App, a: Action) -> bool {
    match s.last_active {
        AppComponent::AppEditor => tab_event_step(s.editor_tabs, event, m.editor_tabs, a) && m == (
        App { editor_tabs: m.editor_tabs, ..s }),
        AppComponent::AppExplorer => explorer_event_step(s.explorer, event, m.explorer, a) && m == (
        App { explorer: m.explorer, ..s }),
        AppComponent::AppLogger => m == s && a == if event is Key {
            Action::Pass
        } else {
            Action::Noop
        },
        AppComponent::AppMenuBar => menu_event_step(s.menu_bar, event, m.menu_bar, a) && m == (App {
            menu_bar: m.menu_bar,
            ..s
        }),
    }
}

/// A left button press also reaches the explorer when it does not have
/// focus, taking `m` to `m2`; otherwise nothing changes.
pub open spec fn fan_out(m: App, event: Event, m2: App) -> bool {
    match event {
        Event::Mouse(ev) => if ev.kind == MouseEventKind::Down(MouseButton::Left) && m.last_active
            != AppComponent::AppExplorer {
            &&& m2 == (App { explorer: m2.explorer, ..m })
            &&& exists|a2: Action| explorer_mouse_step(m.explorer, ev, m2.explorer, a2)
        } else {
            m2 == m
        },
        _ => m2 == m,
    }
}

/// Whether the application's own bindings take the event.
pub open spec fn taken_globally(s: App, event: Event) -> bool {
    match event {
        Event::Key(k) => global_takes(s, k),
        _ => false,
    }
}

/// What `handle_event(event)` does to `s`, giving `t` and the step `r`:
/// the application's own bindings when they take the event; otherwise the
/// focused panel's step, the pointer fan-out, and `dispatch` of the
/// panel's intent.
pub open spec fn event_post(s: App, event: Event, t: App, r: Step) -> bool {
    &&& t.wf()
    &&& if taken_globally(s, event) {
        &&& event matches Event::Key(k) && global_key_post(s, k, t, r.action)
        &&& r.effect is Nothing
    } else {
        exists|m: App, a: Action, m2: App|
            #![trigger panel_step(s, event, m, a), fan_out(m, event, m2)]
            panel_step(s, event, m, a) && fan_out(m, event, m2) && dispatch_post(m2, a, t, r)
    }
}

impl App {
    pub open spec fn explorer_active(&self) -> bool {
        self.explorer.component_state.focus == Focus::Active
    }

    pub open spec fn logger_active(&self) -> bool {
        self.logger.component_state.focus == Focus::Active
    }

    pub open spec fn menu_active(&self) -> bool {
        self.menu_bar.component_state.focus == Focus::Active
    }

    /// The editor area reports focus when its current tab has it.
    pub open spec fn editor_active(&self) -> bool {
        self.editor_tabs.len() > 0 && active_at(
            self.editor_tabs.editors@,
            self.editor_tabs.current_editor as int,
        )
    }

    /// How many top-level panels report focus.
    pub open spec fn active_panel_count(&self) -> nat {
        (if self.explorer_active() { 1nat } else { 0nat }) + (if self.logger_active() {
            1nat
        } else {
            0nat
        }) + (if self.menu_active() { 1nat } else { 0nat }) + (if self.editor_active() {
            1nat
        } else {
            0nat
        })
    }

    /// Only the panel named by `last_active` may have focus, and at most
    /// one editor has it.
    pub open spec fn focus_ok(&self) -> bool {
        &&& single_focus(self.editor_tabs.editors@)
        &&& self.explorer_active() ==> self.last_active == AppComponent::AppExplorer
        &&& self.logger_active() ==> self.last_active == AppComponent::AppLogger
        &&& self.menu_active() ==> self.last_active == AppComponent::AppMenuBar
        &&& any_active(self.editor_tabs.editors@) ==> self.last_active == AppComponent::AppEditor
    }

    pub open spec fn wf(&self) -> bool {
        &&& self.editor_tabs.wf()
        &&& self.menu_bar.wf()
        &&& self.focus_ok()
    }

    pub fn id() -> (r: &'static str)
        ensures
            r@ == "App"@,
    {
        "App"
    }

    /// The application for the directory `root_path` (see
    /// `Explorer::new`): no tabs, no panel with focus, the editor area
    /// named as the last focused panel, the about overlay hidden.
    pub fn new(root_path: &str, is_dir: bool, listing: &Option<Vec<FsEntry>>) -> (r: Result<
        App,
        ClideError,
    >)
        ensures
            file_name_of(root_path@) is None ==> r == Err::<App, ClideError>(ClideError::NoFileName),
            file_name_of(root_path@) is Some && listing is None ==> r == Err::<App, ClideError>(
                ClideError::Io,
            ),
            file_name_of(root_path@) is Some && listing is Some && valid_listing(listing->0@) ==> r is Ok,
            r matches Ok(a) ==> {
                &&& a.wf()
                &&& built_root(a.explorer.root, root_path@, is_dir, listing->0@)
                &&& a.editor_tabs.len() == 0
                &&& a.last_active == AppComponent::AppEditor
                &&& !a.about
                &&& a.active_panel_count() == 0
            },
    {
        let explorer = match Explorer::new(root_path, is_dir, listing) {
            Ok(x) => x,
            Err(e) => {
                return Err(e);
            },
        };
        let app = App {
            editor_tabs: EditorTab::new(),
            explorer,
            logger: Logger::new(),
            menu_bar: MenuBar::new(),
            last_active: AppComponent::AppEditor,
            about: false,
        };
        Ok(app)
    }

    /// Takes focus from every panel and every editor.
    pub fn clear_focus(&mut self)
        requires
            old(self).editor_tabs.wf(),
        ensures
            final(self).editor_tabs.wf(),
            focus_moved(*old(self), Focus::Inactive, Focus::Inactive, Focus::Inactive, -1, *final(self)),
            final(self).last_active == old(self).last_active,
    {
        self.explorer.component_state.set_focus(Focus::Inactive);
        self.logger.component_state.set_focus(Focus::Inactive);
        self.menu_bar.component_state.set_focus(Focus::Inactive);
        self.editor_tabs.clear_focus();
    }

    /// Moves focus to `focus`: every panel and editor loses it first, then
    /// the destination gains it (for the editor area, its current tab).
    pub fn change_focus(&mut self, focus: AppComponent)
        requires
            old(self).wf(),
        ensures
            change_focus_post(*old(self), focus, *final(self)),
    {
        self.clear_focus();
        let ghost cleared = self.editor_tabs.editors@;
        match focus {
            AppComponent::AppEditor => {
                self.editor_tabs.set_current_tab_focus(Focus::Active);
            },
            AppComponent::AppExplorer => self.explorer.component_state.set_focus(Focus::Active),
            AppComponent::AppLogger => self.logger.component_state.set_focus(Focus::Active),
            AppComponent::AppMenuBar => self.menu_bar.component_state.set_focus(Focus::Active),
        }
        self.last_active = focus;
        proof {
            let eds = self.editor_tabs.editors@;
            assert forall|i: int| 0 <= i < cleared.len() implies !#[trigger] active_at(cleared, i) by {}
            assert forall|i: int, j: int|
                0 <= i < eds.len() && 0 <= j < eds.len() && #[trigger] active_at(eds, i)
                    && #[trigger] active_at(eds, j) implies i == j by {
                assert(!active_at(cleared, i));
                assert(!active_at(cleared, j));
            }
            if any_active(eds) {
                let i = choose|i: int| 0 <= i < eds.len() && #[trigger] active_at(eds, i);
                assert(!active_at(cleared, i));
            }
        }
    }

    /// The application's own key bindings, checked before any panel's:
    /// Escape or `q` closes the about overlay, Alt with q, w, e or r moves
    /// focus to the explorer, the editor area, the logger or the menu bar,
    /// Control with c quits.
    pub fn handle_key_events(&mut self, key: KeyEvent) -> (r: Action)
        requires
            old(self).wf(),
        ensures
            global_key_post(*old(self), key, *final(self), r),
    {
        if self.about && (key.code == KeyCode::Esc || key.code == KeyCode::Char('q')) {
            self.about = false;
            return Action::Handled;
        }
        match focus_shortcut(key) {
            Some(t) => {
                self.change_focus(t);
                Action::Handled
            },
            None => {
                if key.kind == KeyEventKind::Press && key.modifiers.only_control() && key.code
                    == KeyCode::Char('c') {
                    Action::Quit
                } else {
                    Action::Noop
                }
            },
        }
    }

    /// Carries out an intent that a panel returned. `Quit` and `Handled`
    /// end the step; save, open and reload ask for the file work they need
    /// (`Noop` when there is nothing to work on); closing a tab and the
    /// visibility toggles are done here; `Pass` from the editor area hands
    /// the input to the editing engine; anything else is `Noop`.
    pub fn dispatch(&mut self, action: Action) -> (r: Step)
        requires
            old(self).wf(),
        ensures
            dispatch_post(*old(self), action, *final(self), r),
    {
        match action {
            Action::Quit => Step { action: Action::Quit, effect: Effect::Nothing },
            Action::Handled => Step { action: Action::Handled, effect: Effect::Nothing },
            Action::Save => match self.editor_tabs.current_editor() {
                None => Step { action: Action::Noop, effect: Effect::Nothing },
                Some(editor) => match editor.save() {
                    Ok((path, contents)) => Step {
                        action: Action::Noop,
                        effect: Effect::Write { path, contents },
                    },
                    Err(_) => Step { action: Action::Noop, effect: Effect::Nothing },
                },
            },
            Action::OpenTab => match self.explorer.selected() {
                Ok(path) => Step { action: Action::Noop, effect: Effect::ReadForOpen { path } },
                Err(_) => Step { action: Action::Noop, effect: Effect::Nothing },
            },
            Action::CloseTab => match self.editor_tabs.close_current_tab() {
                Ok(_) => Step { action: Action::Handled, effect: Effect::Nothing },
                Err(_) => Step { action: Action::Noop, effect: Effect::Nothing },
            },
            Action::ReloadFile => match self.editor_tabs.current_editor() {
                None => Step { action: Action::Noop, effect: Effect::Nothing },
                Some(editor) => match &editor.file_path {
                    Some(p) => Step {
                        action: Action::Noop,
                        effect: Effect::ReadForReload { path: p.clone() },
                    },
                    None => Step { action: Action::Noop, effect: Effect::Nothing },
                },
            },
            Action::ShowHideLogger => {
                self.logger.component_state.togget_visible();
                Step { action: Action::Handled, effect: Effect::Nothing }
            },
            Action::ShowHideExplorer => {
                self.explorer.component_state.togget_visible();
                Step { action: Action::Handled, effect: Effect::Nothing }
            },
            Action::ShowHideAbout => {
                self.about = !self.about;
                Step { action: Action::Handled, effect: Effect::Nothing }
            },
            Action::Pass => {
                if self.last_active == AppComponent::AppEditor && !self.editor_tabs.is_empty() {
                    Step { action: Action::Pass, effect: Effect::ForwardToEditor }
                } else {
                    Step { action: Action::Noop, effect: Effect::Nothing }
                }
            },
            Action::Noop => Step { action: Action::Noop, effect: Effect::Nothing },
        }
    }

    /// Routes one input event. The application's own bindings come first
    /// and end the step when they handle it; otherwise the panel with focus
    /// handles the event, a left button press also reaches the explorer when
    /// it does not have focus, and the intent that results is carried out
    /// by `dispatch`.
    pub fn handle_event(&mut self, event: Event) -> (r: Step)
        requires
            old(self).wf(),
        ensures
            event_post(*old(self), event, *final(self), r),
    {
        match event {
            Event::Key(k) => {
                let a = self.handle_key_events(k);
                if a == Action::Quit || a == Action::Handled {
                    return Step { action: a, effect: Effect::Nothing };
                }
            },
            _ => {},
        }
        let ghost s0 = *self;
        let action = match self.last_active {
            AppComponent::AppEditor => self.editor_tabs.handle_event(event),
            AppComponent::AppExplorer => self.explorer.handle_event(event),
            AppComponent::AppLogger => self.logger.handle_event(event),
            AppComponent::AppMenuBar => self.menu_bar.handle_event(event),
        };
        let ghost m = *self;
        proof {
            assert(s0 == *old(self));
            assert(panel_step(*old(self), event, m, action));
            assert(m.wf()) by {
                if old(self).last_active == AppComponent::AppEditor {
                    assert(any_active(m.editor_tabs.editors@) ==> any_active(old(self).editor_tabs.editors@));
                }
            }
        }
        match event {
            Event::Mouse(ev) => {
                if ev.kind == MouseEventKind::Down(MouseButton::Left) && self.last_active
                    != AppComponent::AppExplorer {
                    let a2 = self.explorer.handle_mouse_events(ev);
                    assert(explorer_mouse_step(m.explorer, ev, self.explorer, a2));
                }
            },
            _ => {},
        }
        let ghost m2 = *self;
        assert(fan_out(m, event, m2));
        let r = self.dispatch(action);
        assert(dispatch_post(m2, action, *self, r));
        r
    }

    /// The intent after the file read for `ReadForOpen` (`None` when the
    /// read failed): `Handled` once the tab is open (or was open already),
    /// `Noop` when the read failed, with nothing changed.
    pub fn finish_open(&mut self, path: &str, contents: Option<&str>) -> (r: Action)
        requires
            old(self).wf(),
        ensures
            final(self).wf(),
            final(self).last_active == old(self).last_active,
            r == if old(self).editor_tabs.contains(path@) || contents is Some {
                Action::Handled
            } else {
                Action::Noop
            },
            old(self).editor_tabs.contains(path@) || contents is None ==> *final(self) == *old(
                self,
            ),
            !old(self).editor_tabs.contains(path@) && contents is Some ==> {
                &&& final(self).editor_tabs.order() == old(self).editor_tabs.order().push(path@)
                &&& final(self).editor_tabs.current_editor == old(self).editor_tabs.len()
                &&& editor_lines(final(self).editor_tabs.editors@.last().state) == lines_of(
                    contents->0@,
                )
            },
    {
        let ghost before = self.editor_tabs.editors@;
        let res = self.editor_tabs.open_tab(path, contents);
        proof {
            let after = self.editor_tabs.editors@;
            if after != before {
                assert(after.drop_last() == before);
                assert forall|i: int| 0 <= i < after.len() - 1 implies #[trigger] active_at(after, i)
                    == active_at(before, i) by {
                    assert(after[i] == after.drop_last()[i]);
                }
                assert(!active_at(after, after.len() - 1));
                if any_active(after) {
                    let i = choose|i: int| 0 <= i < after.len() && #[trigger] active_at(after, i);
                    assert(active_at(before, i));
                }
            }
        }
        match res {
            Ok(_) => Action::Handled,
            Err(_) => Action::Noop,
        }
    }

    /// The intent after the file read for `ReadForReload` (`None` when the
    /// read failed): `Handled` once the current editor holds the fresh
    /// contents, `Noop` otherwise, with nothing changed.
    pub fn finish_reload(&mut self, contents: Option<&str>) -> (r: Action)
        requires
            old(self).wf(),
        ensures
            final(self).wf(),
            final(self).last_active == old(self).last_active,
            r == Action::Handled || r == Action::Noop,
            r == Action::Handled <==> contents is Some && old(self).editor_tabs.len() > 0 && old(
                self,
            ).editor_tabs.editors@[old(self).editor_tabs.current_editor as int].file_path is Some,
            r == Action::Noop ==> *final(self) == *old(self),
            r == Action::Handled ==> editor_lines(
                final(self).editor_tabs.editors@[old(self).editor_tabs.current_editor as int].state,
            ) == lines_of(contents->0@),
    {
        match contents {
            None => Action::Noop,
            Some(text) => match self.editor_tabs.reload_current(text) {
                Ok(_) => Action::Handled,
                Err(_) => Action::Noop,
            },
        }
    }

    /// The intent after the write for `Write`: `Handled` when the file was
    /// written, `Noop` when the write failed.
    pub fn save_outcome(written: bool) -> (r: Action)
        ensures
            r == if written {
                Action::Handled
            } else {
                Action::Noop
            },
    {
        if written {
            Action::Handled
        } else {
            Action::Noop
        }
    }

    /// The rows of the screen, top to bottom: the menu bar, the explorer and
    /// editor row, the logger when it is visible, and the status bar.
    pub fn vertical_slots(&self) -> (r: Vec<Slot>)
        ensures
            self.logger.component_state.vis == Visibility::Visible ==> r@ == seq![
                Slot::Length(3),
                Slot::Percentage(70),
                Slot::Fill(1),
                Slot::Length(3),
            ],
            self.logger.component_state.vis == Visibility::Hidden ==> r@ == seq![
                Slot::Length(3),
                Slot::Fill(1),
                Slot::Length(3),
            ],
    {
        match self.logger.component_state.vis {
            Visibility::Visible => vec![
                Slot::Length(3),
                Slot::Percentage(70),
                Slot::Fill(1),
                Slot::Length(3),
            ],
            Visibility::Hidden => vec![Slot::Length(3), Slot::Fill(1), Slot::Length(3)],
        }
    }

    /// The columns of the middle row, left to right: the explorer when it
    /// is visible, and the editor area.
    pub fn horizontal_slots(&self) -> (r: Vec<Slot>)
        ensures
            self.explorer.component_state.vis == Visibility::Visible ==> r@ == seq![
                Slot::Max(30),
                Slot::Fill(1),
            ],
            self.explorer.component_state.vis == Visibility::Hidden ==> r@ == seq![Slot::Fill(1)],
    {
        match self.explorer.component_state.vis {
            Visibility::Visible => vec![Slot::Max(30), Slot::Fill(1)],
            Visibility::Hidden => vec![Slot::Fill(1)],
        }
    }

    /// The help text of the panel that last had focus; `None` for the
    /// editor area without tabs.
    pub fn help_text(&self) -> (r: Option<String>)
        requires
            self.editor_tabs.wf(),
        ensures
            r is None <==> self.last_active == AppComponent::AppEditor && self.editor_tabs.len()
                == 0,
            r matches Some(t) ==> t@ == match self.last_active {
                AppComponent::AppEditor => self.editor_tabs.editors@[self.editor_tabs.current_editor as int].component_state.help_text@,
                AppComponent::AppExplorer => self.explorer.component_state.help_text@,
                AppComponent::AppLogger => self.logger.component_state.help_text@,
                AppComponent::AppMenuBar => self.menu_bar.component_state.help_text@,
            },
    {
        match self.last_active {
            AppComponent::AppEditor => match self.editor_tabs.current_editor() {
                Some(e) => Some(e.component_state.help_text.clone()),
                None => None,
            },
            AppComponent::AppExplorer => Some(self.explorer.component_state.help_text.clone()),
            AppComponent::AppLogger => Some(self.logger.component_state.help_text.clone()),
            AppComponent::AppMenuBar => Some(self.menu_bar.component_state.help_text.clone()),
        }
    }
}

/// Whatever the application went through, at most one top-level panel
/// reports focus: the invariant that every operation of `App` keeps
/// allows no more.
pub proof fn lemma_focus_exclusive(app: App)
    requires
        app.wf(),
    ensures
        app.active_panel_count() <= 1,
{
    if app.editor_active() {
        assert(any_active(app.editor_tabs.editors@));
    }
}

} // verus!
