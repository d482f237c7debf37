//! The key dispatcher: maps one (mode, key event) pair to its single
//! effect — a quit signal, a copy action, a mode change, or an input edit
//! followed by re-validation — and the laws that hold of the session as
//! key events are applied.

use vstd::prelude::*;

use crate::eval::{spec_validate, Outcome};
use crate::session::{App, InputMode};

verus! {

/// The keys the dispatcher distinguishes, as plain values.
#[derive(Clone, Copy, Debug, PartialEq, Eq, Structural)]
pub enum KeyCode {
    /// A character key.
    Char(char),
    /// The escape key.
    Esc,
    /// The backspace key.
    Backspace,
    /// Any other key; always a no-op.
    Other,
}

/// One key event: the key itself, and whether the control modifier alone
/// was held with it.
#[derive(Clone, Copy, Debug, PartialEq, Eq, Structural)]
pub struct KeyEvent {
    /// The key that was pressed.
    pub code: KeyCode,
    /// True when the control modifier, and no other, was held.
    pub ctrl: bool,
}

/// What the session loop must do after a dispatch, besides rendering.
#[derive(Debug)]
pub enum Action {
    /// Nothing beyond rendering the new state.
    Idle,
    /// End the session.
    Quit,
    /// Write this text to the clipboard.
    Copy(String),
}

/// The event ends the session: control-c in any mode, or `q` or escape in
/// `Normal` mode.
pub open spec fn quits(m: InputMode, k: KeyEvent) -> bool {
    (k.ctrl && k.code == KeyCode::Char('c')) || (m == InputMode::Normal && (k.code
        == KeyCode::Char('q') || k.code == KeyCode::Esc))
}

/// The event switches `Normal` mode to `Editing`: `i` or `e`.
pub open spec fn enters_editing(m: InputMode, k: KeyEvent) -> bool {
    &&& m == InputMode::Normal
    &&& !quits(m, k)
    &&& (k.code == KeyCode::Char('i') || k.code == KeyCode::Char('e'))
}

/// The event switches `Editing` mode back to `Normal`: escape or
/// control-[.
pub open spec fn leaves_editing(m: InputMode, k: KeyEvent) -> bool {
    &&& m == InputMode::Editing
    &&& !quits(m, k)
    &&& (k.code == KeyCode::Esc || (k.ctrl && k.code == KeyCode::Char('[')))
}

/// The event asks for the last successful balance to be copied: `y` in
/// `Normal` mode.
pub open spec fn copies(m: InputMode, k: KeyEvent) -> bool {
    m == InputMode::Normal && !quits(m, k) && k.code == KeyCode::Char('y')
}

/// The event appends its character to the input: any character key in
/// `Editing` mode that neither quits nor leaves the mode.
pub open spec fn appends(m: InputMode, k: KeyEvent) -> bool {
    &&& m == InputMode::Editing
    &&& !quits(m, k)
    &&& !leaves_editing(m, k)
    &&& (k.code matches KeyCode::Char(_))
}

/// The event removes the last input character: backspace in `Editing`
/// mode.
pub open spec fn erases(m: InputMode, k: KeyEvent) -> bool {
    m == InputMode::Editing && !quits(m, k) && k.code == KeyCode::Backspace
}

/// The mode after the event: changed only by the two mode-transition
/// rules.
pub open spec fn next_mode(m: InputMode, k: KeyEvent) -> InputMode {
    if enters_editing(m, k) {
        InputMode::Editing
    } else if leaves_editing(m, k) {
        InputMode::Normal
    } else {
        m
    }
}

/// The input after the event: appended to, shortened by one (a no-op when
/// already empty), or untouched.
pub open spec fn next_input(m: InputMode, input: Seq<char>, k: KeyEvent) -> Seq<char> {
    if appends(m, k) {
        input.push(k.code->Char_0)
    } else if erases(m, k) {
        if input.len() > 0 {
            input.drop_last()
        } else {
            input
        }
    } else {
        input
    }
}

/// A session state as pure mathematics: the mode, the typed characters,
/// and the displayed outcome.
#[verifier::ext_equal]
pub ghost struct Model {
    pub mode: InputMode,
    pub input: Seq<char>,
    pub output: Option<Outcome>,
}

/// A model is well formed when its outcome is the validation of its input.
pub open spec fn wf_model(m: Model) -> bool {
    m.output == spec_validate(m.input)
}

impl App {
    /// The state this session is in, as a model.
    pub open spec fn model(self) -> Model {
        Model { mode: self.input_mode, input: self.input@, output: self.output }
    }
}

/// One key event applied to a session model: the mode and input move by
/// the dispatch rules, and the outcome is re-validated against the new
/// input.
pub open spec fn step(m: Model, k: KeyEvent) -> Model {
    Model {
        mode: next_mode(m.mode, k),
        input: next_input(m.mode, m.input, k),
        output: spec_validate(next_input(m.mode, m.input, k)),
    }
}

/// A whole sequence of key events applied in order.
pub open spec fn run(m: Model, ks: Seq<KeyEvent>) -> Model
    decreases ks.len(),
{
    if ks.len() == 0 {
        m
    } else {
        run(step(m, ks[0]), ks.drop_first())
    }
}

/// Dispatch one key event. Exactly one rule applies: quit, copy, a mode
/// transition, an input edit with re-validation, or a no-op. The returned
/// action tells the session loop what remains to be done outside the
/// state.
pub fn dispatch(app: &mut App, key: KeyEvent) -> (act: Action)
    requires
        old(app).wf(),
    ensures
        final(app).wf(),
        final(app).model() == step(old(app).model(), key),
        final(app).input_mode == next_mode(old(app).input_mode, key),
        final(app).input@ == next_input(old(app).input_mode, old(app).input@, key),
        final(app).output == spec_validate(final(app).input@),
        (act is Quit) <==> quits(old(app).input_mode, key),
        (act is Copy) <==> (copies(old(app).input_mode, key) && (old(app).output matches Some(
            Outcome::Success(_),
        ))),
        (act matches Action::Copy(text) ==> (old(app).output matches Some(Outcome::Success(b))
            && text@ == b.text@)),
{
    let ctrl = key.ctrl;
    let act = match (app.input_mode, key.code) {
        (_, KeyCode::Char('c')) if ctrl => Action::Quit,
        (InputMode::Normal, KeyCode::Char('q')) | (InputMode::Normal, KeyCode::Esc) => Action::Quit,
        (InputMode::Normal, KeyCode::Char('i')) | (InputMode::Normal, KeyCode::Char('e')) => {
            app.input_mode = InputMode::Editing;
            Action::Idle
        },
        (InputMode::Normal, KeyCode::Char('y')) => {
            match &app.output {
                Some(Outcome::Success(b)) => Action::Copy(b.text.clone()),
                _ => Action::Idle,
            }
        },
        (InputMode::Editing, KeyCode::Esc) => {
            app.input_mode = InputMode::Normal;
            Action::Idle
        },
        (InputMode::Editing, KeyCode::Char('[')) if ctrl => {
            app.input_mode = InputMode::Normal;
            Action::Idle
        },
        (InputMode::Editing, KeyCode::Char(c)) => {
            app.input.push(c);
            app.update_eq();
            Action::Idle
        },
        (InputMode::Editing, KeyCode::Backspace) => {
            let _ = app.input.pop();
            app.update_eq();
            Action::Idle
        },
        _ => Action::Idle,
    };
    proof {
        assert(app.model() =~= step(old(app).model(), key));
    }
    act
}

/// After any sequence of key events from a well-formed state, the
/// displayed outcome is the validation of the input exactly as it then
/// stands: no staleness, and an emptied input shows nothing.
pub proof fn lemma_no_staleness(m: Model, ks: Seq<KeyEvent>)
    requires
        wf_model(m),
    ensures
        wf_model(run(m, ks)),
    decreases ks.len(),
{
    if ks.len() > 0 {
        lemma_no_staleness(step(m, ks[0]), ks.drop_first());
    }
}

/// A mode transition changes the mode alone: the input and the displayed
/// outcome survive it unchanged.
pub proof fn lemma_mode_transition_preserves(m: Model, k: KeyEvent)
    requires
        wf_model(m),
        enters_editing(m.mode, k) || leaves_editing(m.mode, k),
    ensures
        step(m, k).input == m.input,
        step(m, k).output == m.output,
{
}

/// The backspace event, `n` times over.
pub open spec fn backspaces(n: nat) -> Seq<KeyEvent> {
    Seq::new(n, |i: int| KeyEvent { code: KeyCode::Backspace, ctrl: false })
}

/// Emptying the input by repeated backspace always yields the absent
/// outcome: once at least as many backspaces as input characters have
/// been dispatched in `Editing` mode, the input is empty and nothing is
/// shown.
pub proof fn lemma_backspaces_yield_absent(m: Model, n: nat)
    requires
        wf_model(m),
        m.mode == InputMode::Editing,
        n >= m.input.len(),
    ensures
        run(m, backspaces(n)).input.len() == 0,
        run(m, backspaces(n)).output is None,
    decreases n,
{
    if n == 0 {
    } else {
        let m1 = step(m, backspaces(n)[0]);
        assert(backspaces(n).drop_first() =~= backspaces((n - 1) as nat));
        lemma_backspaces_yield_absent(m1, (n - 1) as nat);
    }
}

} // verus!
