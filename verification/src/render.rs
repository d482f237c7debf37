//! The render engine: a pure projection of the session state into a frame
//! of fixed-height regions — title, input box, output box, help box — and
//! a cursor position.

use vstd::prelude::*;

use crate::eval::{chars_of, Outcome};
use crate::session::{help_text, App, InputMode};

verus! {

/// Rows of the title region.
pub const TITLE_ROWS: u16 = 1;

/// Rows of the bordered input box.
pub const INPUT_ROWS: u16 = 3;

/// Rows of the bordered output box.
pub const OUTPUT_ROWS: u16 = 3;

/// Rows of the bordered help box.
pub const HELP_ROWS: u16 = 5;

/// The colours the renderer distinguishes.
#[derive(Clone, Copy, Debug, PartialEq, Eq, Structural)]
pub enum TextColor {
    /// The active input colour.
    Yellow,
    /// The muted, inactive colour.
    DarkGray,
    /// The affirmative colour of a successful balance.
    Green,
    /// The negative colour of a failure message.
    Red,
}

/// The input region: its text and the colours of text and border.
pub struct InputView {
    /// The placeholder or the literal typed text.
    pub text: Vec<char>,
    /// Colour of the text.
    pub text_color: TextColor,
    /// Colour of the border.
    pub border_color: TextColor,
}

/// The output region: its text and its colour.
pub struct OutputView {
    /// The waiting placeholder, the balanced equation, or a failure
    /// message.
    pub text: Vec<char>,
    /// Colour of text and border.
    pub color: TextColor,
}

/// One rendered frame: a fixed vertical stack of regions, top to bottom,
/// with the `*_ROWS` constants as their heights and at least one unused
/// row below.
pub struct Frame {
    /// Centered, bold, static title text.
    pub title: &'static str,
    /// The input box.
    pub input: InputView,
    /// The output box.
    pub output: OutputView,
    /// The mode-specific help text.
    pub help: &'static str,
    /// Cursor column inside the input box, one past the end of the typed
    /// text; absent when the cursor is hidden.
    pub cursor: Option<usize>,
}

/// The title text of every frame.
pub open spec fn title_text() -> Seq<char> {
    "Chemical Equation Balancer"@
}

/// The input box text: a placeholder while nothing is typed, else the
/// literal input.
pub open spec fn input_text(app: App) -> Seq<char> {
    if app.input@.len() == 0 {
        "Input equation..."@
    } else {
        app.input@
    }
}

/// The input text colour: active only in `Editing` mode with text typed,
/// muted otherwise.
pub open spec fn input_text_color(app: App) -> TextColor {
    if app.input_mode == InputMode::Editing && app.input@.len() > 0 {
        TextColor::Yellow
    } else {
        TextColor::DarkGray
    }
}

/// The input border colour: active exactly while `Editing`.
pub open spec fn input_border_color(app: App) -> TextColor {
    if app.input_mode == InputMode::Editing {
        TextColor::Yellow
    } else {
        TextColor::DarkGray
    }
}

/// The output box text, one wording per outcome kind.
pub open spec fn output_text(o: Option<Outcome>) -> Seq<char> {
    match o {
        None => "Waiting for equation..."@,
        Some(Outcome::Success(b)) => b.text@,
        Some(Outcome::ParseFailure) => "Couldn't parse equation"@,
        Some(Outcome::InvalidEquation) => "Equation was not valid"@,
        Some(Outcome::BalanceFailure(msg)) => msg@,
    }
}

/// The output box colour: muted while waiting, affirmative on success,
/// negative on any failure.
pub open spec fn output_color(o: Option<Outcome>) -> TextColor {
    match o {
        None => TextColor::DarkGray,
        Some(Outcome::Success(_)) => TextColor::Green,
        Some(_) => TextColor::Red,
    }
}

/// Where the cursor stands: hidden in `Normal` mode, one column past the
/// end of the input text in `Editing` mode.
pub open spec fn cursor_of(app: App) -> Option<usize> {
    if app.input_mode == InputMode::Editing {
        Some((app.input@.len() + 1) as usize)
    } else {
        None
    }
}

/// A fresh copy of a character vector.
fn copied_chars(v: &Vec<char>) -> (r: Vec<char>)
    ensures
        r@ == v@,
{
    let mut r: Vec<char> = Vec::new();
    let mut i: usize = 0;
    while i < v.len()
        invariant
            i <= v@.len(),
            r@ == v@.subrange(0, i as int),
        decreases v@.len() - i,
    {
        r.push(v[i]);
        proof {
            assert(r@ =~= v@.subrange(0, i + 1 as int));
        }
        i += 1;
    }
    proof {
        assert(r@ =~= v@);
    }
    r
}

impl App {
    /// The input box for this state: placeholder or typed text, drawn in
    /// the active colours only while `Editing`.
    pub fn input_body(&self) -> (v: InputView)
        ensures
            v.text@ == input_text(*self),
            v.text_color == input_text_color(*self),
            v.border_color == input_border_color(*self),
    {
        let text: Vec<char> = if self.input.len() == 0 {
            chars_of("Input equation...")
        } else {
            copied_chars(&self.input)
        };
        let editing = matches!(self.input_mode, InputMode::Editing);
        let text_color = if editing && self.input.len() > 0 {
            TextColor::Yellow
        } else {
            TextColor::DarkGray
        };
        let border_color = if editing {
            TextColor::Yellow
        } else {
            TextColor::DarkGray
        };
        InputView { text, text_color, border_color }
    }

    /// The output box for this state: one wording and one colour per
    /// outcome kind.
    pub fn output_body(&self) -> (v: OutputView)
        ensures
            v.text@ == output_text(self.output),
            v.color == output_color(self.output),
    {
        match &self.output {
            None => OutputView { text: chars_of("Waiting for equation..."), color: TextColor::DarkGray },
            Some(Outcome::Success(b)) => OutputView {
                text: chars_of(b.text.as_str()),
                color: TextColor::Green,
            },
            Some(Outcome::ParseFailure) => OutputView {
                text: chars_of("Couldn't parse equation"),
                color: TextColor::Red,
            },
            Some(Outcome::InvalidEquation) => OutputView {
                text: chars_of("Equation was not valid"),
                color: TextColor::Red,
            },
            Some(Outcome::BalanceFailure(msg)) => OutputView {
                text: chars_of(msg.as_str()),
                color: TextColor::Red,
            },
        }
    }
}

/// Project the session state into one frame. Pure: the state is read, the
/// frame returned, nothing mutated.
pub fn ui(app: &App) -> (f: Frame)
    requires
        app.input@.len() < usize::MAX,
    ensures
        f.title@ == title_text(),
        f.input.text@ == input_text(*app),
        f.input.text_color == input_text_color(*app),
        f.input.border_color == input_border_color(*app),
        f.output.text@ == output_text(app.output),
        f.output.color == output_color(app.output),
        f.help@ == help_text(app.input_mode),
        f.cursor == cursor_of(*app),
{
    let cursor = if matches!(app.input_mode, InputMode::Editing) {
        Some(app.input.len() + 1)
    } else {
        None
    };
    Frame {
        title: "Chemical Equation Balancer",
        input: app.input_body(),
        output: app.output_body(),
        help: app.input_mode.to_help(),
        cursor,
    }
}

} // verus!
