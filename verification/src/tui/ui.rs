//! The input surface: the keys the session understands and what each of
//! them does. Reading keys and drawing frames is left to the caller.

use crate::tui::app::{Action, ActionView, AppState, AppView};
use vstd::prelude::*;

verus! {

/// A key press.
#[derive(Debug, Clone, Copy, PartialEq, Eq, Structural)]
pub enum Key {
    Up,
    Down,
    Enter,
    Esc,
    Tab,
    Backspace,
    /// A printable character.
    Char(char),
    /// Any other key.
    Other,
}

/// The value of `c` as a decimal digit, if it is one of `0` to `9`.
pub open spec fn digit_value(c: char) -> Option<u8> {
    if 0x30 <= c as u32 <= 0x39 {
        Some((c as u32 - 0x30) as u8)
    } else {
        None
    }
}

/// The session after a printable character: with an open edit buffer the
/// character is typed; otherwise a digit is taken as a section number and
/// any other character is ignored.
pub open spec fn after_char(app: AppView, c: char) -> AppView {
    if app.pane.is_editing {
        app.handle_text_input(c)
    } else {
        match digit_value(c) {
            Some(num) => app.handle_number_input(num),
            None => app,
        }
    }
}

/// The session after a key press: up and down move, enter activates,
/// escape cancels, tab moves the focus, backspace and printable characters
/// edit, and every other key is ignored.
pub open spec fn after_key(app: AppView, key: Key) -> AppView {
    match key {
        Key::Up => app.previous_menu(),
        Key::Down => app.next_menu(),
        Key::Enter => app.select_current_menu(),
        Key::Esc => app.cancel(),
        Key::Tab => app.switch_focus(),
        Key::Backspace => app.handle_backspace(),
        Key::Char(c) => after_char(app, c),
        Key::Other => app,
    }
}

/// The outside work that a key press asks for.
pub open spec fn key_action(app: AppView, key: Key) -> ActionView {
    match key {
        Key::Enter => app.select_action(),
        Key::Esc => app.cancel_action(),
        _ => ActionView::Nothing,
    }
}

/// The value of `c` as a decimal digit, if it is one.
pub fn to_digit(c: char) -> (digit: Option<u8>)
    ensures
        digit == digit_value(c),
{
    let code: u32 = c as u32;
    if 0x30 <= code && code <= 0x39 {
        Some((code - 0x30) as u8)
    } else {
        None
    }
}

/// Handles one key press and says what outside work it asks for.
pub fn handle_key(app: &mut AppState, key: Key) -> (action: Action)
    requires
        old(app).wf(),
    ensures
        final(app).wf(),
        final(app)@ == after_key(old(app)@, key),
        action@ == key_action(old(app)@, key),
{
    match key {
        Key::Up => {
            app.previous_menu();
            Action::Nothing
        },
        Key::Down => {
            app.next_menu();
            Action::Nothing
        },
        Key::Enter => app.select_current_menu(),
        Key::Esc => app.cancel(),
        Key::Tab => {
            app.switch_focus();
            Action::Nothing
        },
        Key::Backspace => {
            app.handle_backspace();
            Action::Nothing
        },
        Key::Char(c) => {
            if app.content_pane.is_editing() {
                app.handle_text_input(c);
            } else if let Some(num) = to_digit(c) {
                app.handle_number_input(num);
            }
            Action::Nothing
        },
        Key::Other => Action::Nothing,
    }
}

/// No key press breaks the invariant of the session.
pub proof fn lemma_after_key_keeps_invariant(app: AppView, key: Key)
    requires
        app.wf(),
    ensures
        after_key(app, key).wf(),
{
    match key {
        Key::Enter => {
            lemma_select_keeps_invariant(app);
        },
        Key::Esc => {
            lemma_select_keeps_invariant(app.abandon());
        },
        _ => {},
    }
}

/// "Activate" keeps the invariant of the session.
pub proof fn lemma_select_keeps_invariant(app: AppView)
    requires
        app.wf(),
    ensures
        app.select_current_menu().wf(),
{
}

} // verus!
