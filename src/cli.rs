use vstd::prelude::*;
use crate::error::ClideError;

verus! {

/// How the program runs: the graphical editor in a separate process (the
/// default), the graphical editor in this process, or the terminal editor.
#[derive(Debug, Clone, Copy, PartialEq, Eq, Structural)]
pub enum RunMode {
    Gui,
    GuiAttached,
    Tui,
}

impl Default for RunMode {
    fn default() -> (r: RunMode)
        ensures
            r == RunMode::Gui,
    {
        RunMode::Gui
    }
}

/// The command line: an optional root directory and the two mode flags.
#[derive(Debug, Clone)]
pub struct Cli {
    pub path: Option<String>,
    pub tui: bool,
    pub gui: bool,
}

impl Cli {
    /// The run mode that the flags select: `Tui` for the terminal flag,
    /// `GuiAttached` for the graphical one, `Gui` for neither; both at
    /// once fail with `MultipleRunModes`.
    pub fn run_mode(&self) -> (r: Result<RunMode, ClideError>)
        ensures
            self.tui && self.gui <==> r == Err::<RunMode, ClideError>(ClideError::MultipleRunModes),
            self.tui && !self.gui ==> r == Ok::<RunMode, ClideError>(RunMode::Tui),
            !self.tui && self.gui ==> r == Ok::<RunMode, ClideError>(RunMode::GuiAttached),
            !self.tui && !self.gui ==> r == Ok::<RunMode, ClideError>(RunMode::Gui),
    {
        if self.tui && self.gui {
            Err(ClideError::MultipleRunModes)
        } else if self.tui {
            Ok(RunMode::Tui)
        } else if self.gui {
            Ok(RunMode::GuiAttached)
        } else {
            Ok(RunMode::Gui)
        }
    }
}

/// What the program was started with: the absolute root directory and the
/// run mode.
#[derive(Debug, Clone)]
pub struct AppContext {
    pub path: String,
    pub run_mode: RunMode,
}

impl AppContext {
    /// The context for the absolute root directory `path` and the command
    /// line `cli`; fails as `run_mode` does.
    pub fn new(path: String, cli: &Cli) -> (r: Result<AppContext, ClideError>)
        ensures
            r is Err <==> cli.tui && cli.gui,
            r is Err ==> r == Err::<AppContext, ClideError>(ClideError::MultipleRunModes),
            r matches Ok(c) ==> c.path@ == path@ && Ok::<RunMode, ClideError>(c.run_mode)
                == cli.run_mode_spec(),
    {
        match cli.run_mode() {
            Ok(run_mode) => Ok(AppContext { path, run_mode }),
            Err(e) => Err(e),
        }
    }
}

impl Cli {
    pub open spec fn run_mode_spec(&self) -> Result<RunMode, ClideError> {
        if self.tui && self.gui {
            Err(ClideError::MultipleRunModes)
        } else if self.tui {
            Ok(RunMode::Tui)
        } else if self.gui {
            Ok(RunMode::GuiAttached)
        } else {
            Ok(RunMode::Gui)
        }
    }
}

} // verus!
