use vstd::prelude::*;

verus! {

/// An intent returned from input handling, naming what should happen next.
#[derive(Debug, Clone, Copy, PartialEq, Eq, Structural)]
pub enum Action {
    /// Exit the application.
    Quit,
    /// The input was checked by the component and had no effect.
    Noop,
    /// The input was partly consumed (for instance by the editing engine);
    /// it may still carry implications for the coordinator.
    Pass,
    /// Save the current file.
    Save,
    /// The input was handled and must not be passed on.
    Handled,
    /// Open the explorer's selection in a new editor tab.
    OpenTab,
    /// Re-read the current editor's file.
    ReloadFile,
    /// Toggle the explorer's visibility.
    ShowHideExplorer,
    /// Toggle the logger's visibility.
    ShowHideLogger,
    /// Toggle the about overlay.
    ShowHideAbout,
    /// Close the current editor tab.
    CloseTab,
}

impl Action {
    /// The intents that name an action but leave its execution to the coordinator.
    pub open spec fn is_cross_cutting(self) -> bool {
        match self {
            Action::Save | Action::OpenTab | Action::CloseTab | Action::ReloadFile
            | Action::ShowHideExplorer | Action::ShowHideLogger | Action::ShowHideAbout => true,
            _ => false,
        }
    }

    /// `Quit` and `Handled` end the routing of one input.
    pub open spec fn is_terminal(self) -> bool {
        self == Action::Quit || self == Action::Handled
    }
}

/// Whether a panel owns keyboard focus.
#[derive(Debug, Clone, Copy, PartialEq, Eq, Structural)]
pub enum Focus {
    Active,
    Inactive,
}

impl Focus {
    pub open spec fn toggled(self) -> Focus {
        match self {
            Focus::Active => Focus::Inactive,
            Focus::Inactive => Focus::Active,
        }
    }
}

impl Default for Focus {
    fn default() -> (r: Focus)
        ensures
            r == Focus::Inactive,
    {
        Focus::Inactive
    }
}

/// Whether a panel takes part in the layout.
#[derive(Debug, Clone, Copy, PartialEq, Eq, Structural)]
pub enum Visibility {
    Visible,
    Hidden,
}

impl Visibility {
    pub open spec fn toggled(self) -> Visibility {
        match self {
            Visibility::Visible => Visibility::Hidden,
            Visibility::Hidden => Visibility::Visible,
        }
    }
}

impl Default for Visibility {
    fn default() -> (r: Visibility)
        ensures
            r == Visibility::Visible,
    {
        Visibility::Visible
    }
}

/// The focus and visibility flags that every panel owns, with its help text.
#[derive(Debug, Clone)]
pub struct ComponentState {
    pub focus: Focus,
    pub vis: Visibility,
    pub help_text: String,
}

impl Default for ComponentState {
    /// An inactive, visible state with no help text.
    fn default() -> (r: ComponentState)
        ensures
            r.focus == Focus::Inactive,
            r.vis == Visibility::Visible,
            r.help_text@ == Seq::<char>::empty(),
    {
        ComponentState { focus: Focus::Inactive, vis: Visibility::Visible, help_text: String::new() }
    }
}

impl ComponentState {
    pub fn id() -> (r: &'static str)
        ensures
            r@ == "ComponentState"@,
    {
        "ComponentState"
    }

    /// An active, visible state with no help text.
    pub fn new() -> (r: ComponentState)
        ensures
            r.focus == Focus::Active,
            r.vis == Visibility::Visible,
            r.help_text@ == Seq::<char>::empty(),
    {
        ComponentState { focus: Focus::Active, vis: Visibility::Visible, help_text: String::new() }
    }

    /// The same state with its help text replaced.
    pub fn with_help_text(self, help_text: &str) -> (r: ComponentState)
        ensures
            r.focus == self.focus,
            r.vis == self.vis,
            r.help_text@ == help_text@,
    {
        ComponentState { focus: self.focus, vis: self.vis, help_text: help_text.to_owned() }
    }
}

/// A value that carries a focus flag.
pub trait FocusState: Sized {
    /// The state after `with_focus(focus)`.
    spec fn with_focus_spec(self, focus: Focus) -> Self;

    /// The state after `set_focus(focus)`.
    spec fn set_focus_spec(self, focus: Focus) -> Self;

    /// The state after `toggle_focus()`.
    spec fn toggle_focus_spec(self) -> Self;

    fn with_focus(self, focus: Focus) -> (r: Self)
        ensures
            r == self.with_focus_spec(focus),
    ;

    fn set_focus(&mut self, focus: Focus)
        ensures
            *final(self) == old(self).set_focus_spec(focus),
    ;

    fn toggle_focus(&mut self)
        ensures
            *final(self) == old(self).toggle_focus_spec(),
    ;
}

impl FocusState for ComponentState {
    /// Sets the focus and makes the panel visible.
    open spec fn with_focus_spec(self, focus: Focus) -> ComponentState {
        ComponentState { focus, vis: Visibility::Visible, help_text: self.help_text }
    }

    open spec fn set_focus_spec(self, focus: Focus) -> ComponentState {
        ComponentState { focus, ..self }
    }

    open spec fn toggle_focus_spec(self) -> ComponentState {
        ComponentState { focus: self.focus.toggled(), ..self }
    }

    fn with_focus(self, focus: Focus) -> (r: ComponentState) {
        ComponentState { focus, vis: Visibility::Visible, help_text: self.help_text }
    }

    fn set_focus(&mut self, focus: Focus) {
        self.focus = focus;
    }

    fn toggle_focus(&mut self) {
        match self.focus {
            Focus::Active => self.set_focus(Focus::Inactive),
            Focus::Inactive => self.set_focus(Focus::Active),
        }
    }
}

/// A value that carries a visibility flag.
pub trait VisibleState: Sized {
    /// The state after `with_visible(vis)`.
    spec fn with_visible_spec(self, vis: Visibility) -> Self;

    /// The state after `set_visible(vis)`.
    spec fn set_visible_spec(self, vis: Visibility) -> Self;

    /// The state after `togget_visible()`.
    spec fn toggle_visible_spec(self) -> Self;

    fn with_visible(self, vis: Visibility) -> (r: Self)
        ensures
            r == self.with_visible_spec(vis),
    ;

    fn set_visible(&mut self, vis: Visibility)
        ensures
            *final(self) == old(self).set_visible_spec(vis),
    ;

    fn togget_visible(&mut self)
        ensures
            *final(self) == old(self).toggle_visible_spec(),
    ;
}

impl VisibleState for ComponentState {
    open spec fn with_visible_spec(self, vis: Visibility) -> ComponentState {
        ComponentState { vis, ..self }
    }

    open spec fn set_visible_spec(self, vis: Visibility) -> ComponentState {
        ComponentState { vis, ..self }
    }

    open spec fn toggle_visible_spec(self) -> ComponentState {
        ComponentState { vis: self.vis.toggled(), ..self }
    }

    fn with_visible(self, vis: Visibility) -> (r: ComponentState) {
        ComponentState { focus: self.focus, vis, help_text: self.help_text }
    }

    fn set_visible(&mut self, vis: Visibility) {
        self.vis = vis;
    }

    fn togget_visible(&mut self) {
        match self.vis {
            Visibility::Visible => self.set_visible(Visibility::Hidden),
            Visibility::Hidden => self.set_visible(Visibility::Visible),
        }
    }
}

} // verus!
