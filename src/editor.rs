use vstd::prelude::*;
use edtui::{EditorEventHandler, EditorState, Index2, Lines};
use crate::component::{Action, ComponentState, Focus};
use crate::error::ClideError;
use crate::event::{Event, KeyCode, KeyEvent};
use crate::text::{char_views, join_lines, lines_of, split_lines};

verus! {

#[verifier::external_type_specification]
#[verifier::external_body]
pub struct ExEditorState(EditorState);

#[verifier::external_type_specification]
#[verifier::external_body]
pub struct ExEditorEventHandler(EditorEventHandler);

/// The lines that an editing engine's state holds.
pub uninterp spec fn editor_lines(state: EditorState) -> Seq<Seq<char>>;

/// The (row, column) of an editing engine's cursor.
pub uninterp spec fn editor_cursor(state: EditorState) -> (nat, nat);

/// Relies on `EditorState::default`: no lines, cursor at the origin.
#[verifier::external_body]
fn new_editor_state() -> (r: EditorState)
    ensures
        editor_lines(r) == Seq::<Seq<char>>::empty(),
        editor_cursor(r) == (0nat, 0nat),
{
    EditorState::default()
}

/// Relies on `EditorEventHandler::default`, the vim key bindings.
#[verifier::external_body]
fn new_event_handler() -> (r: EditorEventHandler) {
    EditorEventHandler::default()
}

/// Relies on `Lines::new` and the public `lines` field of `EditorState`:
/// the state then holds exactly the given lines; the cursor stays.
#[verifier::external_body]
fn load_lines(state: &mut EditorState, lines: Vec<Vec<char>>)
    ensures
        editor_lines(*final(state)) == char_views(lines@),
        editor_cursor(*final(state)) == editor_cursor(*old(state)),
{
    state.lines = Lines::new(lines);
}

/// Relies on `Index2::new` and the public `cursor` field of `EditorState`:
/// the cursor is then at (`row`, `col`); the lines stay.
#[verifier::external_body]
fn set_cursor(state: &mut EditorState, row: usize, col: usize)
    ensures
        editor_cursor(*final(state)) == (row as nat, col as nat),
        editor_lines(*final(state)) == editor_lines(*old(state)),
{
    state.cursor = Index2::new(row, col);
}

/// Relies on `Lines::to_string`: the lines joined with `'\n'`.
#[verifier::external_body]
fn serialize_lines(state: &EditorState) -> (r: String)
    ensures
        r@ == join_lines(editor_lines(*state)),
{
    state.lines.to_string()
}

pub const EDITOR_HELP: &'static str =
    "CTRL+S: Save file | ALT+(←/h): Previous tab | ALT+(l/→): Next tab | All other input is handled by vim";

/// One open file: the editing engine's state, the path it belongs to and
/// the panel's focus state.
pub struct Editor {
    pub state: EditorState,
    pub event_handler: EditorEventHandler,
    pub file_path: Option<String>,
    pub component_state: ComponentState,
}

impl Editor {
    /// Whether the editor's path is `p`.
    pub open spec fn has_path(&self, p: Seq<char>) -> bool {
        self.file_path matches Some(q) && q@ == p
    }

    /// An empty, inactive editor for `path`.
    pub fn new(path: &str) -> (r: Editor)
        ensures
            r.has_path(path@),
            editor_lines(r.state) == Seq::<Seq<char>>::empty(),
            editor_cursor(r.state) == (0nat, 0nat),
            r.component_state.focus == Focus::Inactive,
            r.component_state.help_text@ == EDITOR_HELP@,
    {
        Editor {
            state: new_editor_state(),
            event_handler: new_event_handler(),
            file_path: Some(path.to_owned()),
            component_state: ComponentState::default().with_help_text(EDITOR_HELP),
        }
    }

    /// Replaces the buffer with the lines of `contents`, read from `path`,
    /// and puts the cursor at the origin.
    pub fn set_contents(&mut self, path: &str, contents: &str)
        ensures
            final(self).has_path(path@),
            editor_lines(final(self).state) == lines_of(contents@),
            editor_cursor(final(self).state) == (0nat, 0nat),
            final(self).component_state == old(self).component_state,
    {
        let lines = split_lines(contents);
        load_lines(&mut self.state, lines);
        set_cursor(&mut self.state, 0, 0);
        self.file_path = Some(path.to_owned());
    }

    /// Replaces the buffer with `contents`, freshly read from the editor's
    /// own path; fails with `NoFilePath` when it has none.
    pub fn reload_contents(&mut self, contents: &str) -> (r: Result<(), ClideError>)
        ensures
            old(self).file_path is None <==> r == Err::<(), ClideError>(ClideError::NoFilePath),
            old(self).file_path is Some <==> r is Ok,
            r is Err ==> *final(self) == *old(self),
            r is Ok ==> {
                &&& final(self).file_path == old(self).file_path
                &&& editor_lines(final(self).state) == lines_of(contents@)
                &&& editor_cursor(final(self).state) == (0nat, 0nat)
                &&& final(self).component_state == old(self).component_state
            },
    {
        match &self.file_path {
            None => Err(ClideError::NoFilePath),
            Some(_) => {
                let lines = split_lines(contents);
                load_lines(&mut self.state, lines);
                set_cursor(&mut self.state, 0, 0);
                Ok(())
            },
        }
    }

    /// What saving writes: the editor's path and its lines joined with
    /// `'\n'`; fails with `NoFilePath` when it has no path.
    pub fn save(&self) -> (r: Result<(String, String), ClideError>)
        ensures
            self.file_path is None <==> r == Err::<(String, String), ClideError>(
                ClideError::NoFilePath,
            ),
            self.file_path is Some <==> r is Ok,
            r matches Ok((p, text)) ==> self.has_path(p@) && text@ == join_lines(
                editor_lines(self.state),
            ),
    {
        match &self.file_path {
            None => Err(ClideError::NoFilePath),
            Some(p) => Ok((p.clone(), serialize_lines(&self.state))),
        }
    }

    /// Control+S asks the coordinator to save; every other key is left to
    /// the editing engine.
    pub fn handle_key_events(&self, key: KeyEvent) -> (r: Action)
        ensures
            r == if key.code == KeyCode::Char('s') && key.modifiers.is_control() {
                Action::Save
            } else {
                Action::Noop
            },
    {
        if key.code == KeyCode::Char('s') && key.modifiers.only_control() {
            Action::Save
        } else {
            Action::Noop
        }
    }

    /// `Save` for Control+S; otherwise `Pass`: the event goes on to the
    /// editing engine.
    pub fn handle_event(&self, event: Event) -> (r: Action)
        ensures
            r == match event {
                Event::Key(k) => if k.code == KeyCode::Char('s') && k.modifiers.is_control() {
                    Action::Save
                } else {
                    Action::Pass
                },
                _ => Action::Pass,
            },
    {
        match event {
            Event::Key(k) => match self.handle_key_events(k) {
                Action::Noop => Action::Pass,
                a => a,
            },
            _ => Action::Pass,
        }
    }

    pub fn is_active(&self) -> (r: bool)
        ensures
            r == (self.component_state.focus == Focus::Active),
    {
        self.component_state.focus == Focus::Active
    }
}

} // verus!
