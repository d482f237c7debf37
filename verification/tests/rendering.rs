use chem_tui::keys::{dispatch, KeyCode, KeyEvent};
use chem_tui::render::{ui, TextColor, HELP_ROWS, INPUT_ROWS, OUTPUT_ROWS, TITLE_ROWS};
use chem_tui::session::{App, InputMode};

fn key(c: char) -> KeyEvent {
    KeyEvent { code: KeyCode::Char(c), ctrl: false }
}

fn chars(s: &str) -> Vec<char> {
    s.chars().collect()
}

#[test]
fn cursor_hidden_in_normal_mode() {
    let app = App::new();
    let frame = ui(&app);
    assert!(frame.cursor.is_none());
}

#[test]
fn cursor_sits_one_past_the_input_in_editing_mode() {
    let mut app = App::new();
    let _ = dispatch(&mut app, key('i'));
    let frame = ui(&app);
    assert_eq!(frame.cursor, Some(1));
    for c in "H2O".chars() {
        let _ = dispatch(&mut app, key(c));
    }
    let frame = ui(&app);
    assert_eq!(frame.cursor, Some(4));
}

#[test]
fn empty_input_shows_muted_placeholder() {
    let app = App::new();
    let frame = ui(&app);
    assert_eq!(frame.input.text, chars("Input equation..."));
    assert!(matches!(frame.input.text_color, TextColor::DarkGray));
    assert!(matches!(frame.input.border_color, TextColor::DarkGray));
    assert_eq!(frame.output.text, chars("Waiting for equation..."));
    assert!(matches!(frame.output.color, TextColor::DarkGray));
}

#[test]
fn editing_mode_uses_the_active_colours() {
    let mut app = App::new();
    let _ = dispatch(&mut app, key('i'));
    // placeholder stays muted even while editing
    let frame = ui(&app);
    assert!(matches!(frame.input.text_color, TextColor::DarkGray));
    assert!(matches!(frame.input.border_color, TextColor::Yellow));
    let _ = dispatch(&mut app, key('H'));
    let frame = ui(&app);
    assert_eq!(frame.input.text, chars("H"));
    assert!(matches!(frame.input.text_color, TextColor::Yellow));
    assert!(matches!(frame.input.border_color, TextColor::Yellow));
}

#[test]
fn leaving_editing_mutes_the_input_box() {
    let mut app = App::new();
    let _ = dispatch(&mut app, key('i'));
    let _ = dispatch(&mut app, key('H'));
    let _ = dispatch(&mut app, KeyEvent { code: KeyCode::Esc, ctrl: false });
    let frame = ui(&app);
    assert_eq!(frame.input.text, chars("H"));
    assert!(matches!(frame.input.text_color, TextColor::DarkGray));
    assert!(matches!(frame.input.border_color, TextColor::DarkGray));
}

#[test]
fn title_is_static_and_regions_have_fixed_heights() {
    let app = App::new();
    let frame = ui(&app);
    assert_eq!(frame.title, "Chemical Equation Balancer");
    assert_eq!(TITLE_ROWS, 1);
    assert_eq!(INPUT_ROWS, 3);
    assert_eq!(OUTPUT_ROWS, 3);
    assert_eq!(HELP_ROWS, 5);
}

#[test]
fn help_text_follows_the_mode() {
    let mut app = App::new();
    let frame = ui(&app);
    assert_eq!(
        frame.help,
        " i or e          to edit\n q or esc        to quit\n y               to copy balanced equation"
    );
    assert_eq!(InputMode::Normal.to_help(), frame.help);
    let _ = dispatch(&mut app, key('i'));
    let frame = ui(&app);
    assert_eq!(frame.help, " esc or ctrl-[   leave editing mode\n");
    assert_eq!(InputMode::Editing.to_help(), frame.help);
}
