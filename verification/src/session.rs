//! The session state: the input mode, the typed characters, and the
//! outcome of the most recent validation of exactly those characters.

use vstd::prelude::*;

use crate::eval::{spec_validate, validate, Outcome};

verus! {

/// Which keys are meaningful: `Normal` commands or `Editing` text entry.
#[derive(Clone, Copy, Debug, PartialEq, Eq, Structural, Default)]
pub enum InputMode {
    /// Printable keys are appended to the input.
    Editing,
    /// Keys are commands: edit, quit, copy.
    #[default]
    Normal,
}

/// The help text shown for a mode: the keys that are available in it.
pub open spec fn help_text(m: InputMode) -> Seq<char> {
    match m {
        InputMode::Normal => " i or e          to edit\n q or esc        to quit\n y               to copy balanced equation"@,
        InputMode::Editing => " esc or ctrl-[   leave editing mode\n"@,
    }
}

impl InputMode {
    /// The static help text enumerating the keys available in this mode.
    pub fn to_help(&self) -> (s: &'static str)
        ensures
            s@ == help_text(*self),
    {
        match self {
            Self::Normal => " i or e          to edit\n q or esc        to quit\n y               to copy balanced equation",
            Self::Editing => " esc or ctrl-[   leave editing mode\n",
        }
    }
}

/// The session state, owned by the session loop for the life of one
/// interactive session.
pub struct App {
    /// Governs which keys are meaningful.
    pub input_mode: InputMode,
    /// The characters the user has typed, appended at the end and removed
    /// one at a time from the end.
    pub input: Vec<char>,
    /// The outcome of the most recent validation; absent while the input
    /// is empty.
    pub output: Option<Outcome>,
}

impl App {
    /// The state is well formed when the stored outcome is exactly the
    /// validation of the current input: no stale outcome survives an edit,
    /// and an empty input never shows an error.
    pub open spec fn wf(self) -> bool {
        self.output == spec_validate(self.input@)
    }

    /// A fresh session: `Normal` mode, empty input, no outcome yet.
    pub fn new() -> (app: App)
        ensures
            app.input_mode == InputMode::Normal,
            app.input@ == Seq::<char>::empty(),
            app.output is None,
            app.wf(),
    {
        App { input_mode: InputMode::Normal, input: Vec::new(), output: None }
    }

    /// Re-run validation on the current input and store the outcome, so
    /// that what is displayed is never stale.
    pub fn update_eq(&mut self)
        ensures
            final(self).input_mode == old(self).input_mode,
            final(self).input == old(self).input,
            final(self).output == spec_validate(old(self).input@),
            final(self).wf(),
    {
        self.output = validate(&self.input);
    }
}

impl Default for App {
    /// The state a session starts in, equal to `App::new`.
    fn default() -> (app: App)
        ensures
            app.input_mode == InputMode::Normal,
            app.input@ == Seq::<char>::empty(),
            app.output is None,
            app.wf(),
    {
        App::new()
    }
}

} // verus!
