//! The key map: which action an input event stands for in each mode.
//!
//! In normal mode:
//! - `q` and Esc quit;
//! - `k`, Up and `j`, Down scroll by a line, PageUp and PageDown by a page;
//! - `g` and `G` go to the top and to the bottom;
//! - `H` and `L` switch to the tab on the left and on the right;
//! - `:` starts a command;
//! - no other key does anything.
//!
//! While the help is shown, `q`, Esc and `?` leave it, and no other key
//! does anything.
//!
//! While a command or a query is typed, Esc and Ctrl-c cancel, Enter
//! submits, Backspace erases, and a space or a visible ASCII character
//! joins the line.
//!
//! A resize is passed on in every mode.

use crate::platform::{Event, KeyCode};
use crate::session::{Action, Mode};
use crate::state::ModeView;
use vstd::prelude::*;

verus! {

/// A space or a visible ASCII character.
pub open spec fn is_printable(value: char) -> bool {
    0x20 <= value as u32 <= 0x7e
}

/// What a key does in normal mode.
pub open spec fn normal_key(code: KeyCode) -> Option<Action> {
    match code {
        KeyCode::Char(value) => if value == 'q' {
            Some(Action::Quit)
        } else if value == 'k' {
            Some(Action::ScrollUp(1))
        } else if value == 'j' {
            Some(Action::ScrollDown(1))
        } else if value == 'g' {
            Some(Action::GoTop)
        } else if value == 'G' {
            Some(Action::GoBottom)
        } else if value == 'H' {
            Some(Action::TabLeft)
        } else if value == 'L' {
            Some(Action::TabRight)
        } else if value == ':' {
            Some(Action::EnterCommandMode)
        } else {
            None
        },
        KeyCode::Up => Some(Action::ScrollUp(1)),
        KeyCode::Down => Some(Action::ScrollDown(1)),
        KeyCode::PageUp => Some(Action::PageUp),
        KeyCode::PageDown => Some(Action::PageDown),
        KeyCode::Esc => Some(Action::Quit),
        KeyCode::Ctrl(_) => None,
        KeyCode::Enter => None,
        KeyCode::Backspace => None,
    }
}

/// What a key does while the help is shown.
pub open spec fn help_key(code: KeyCode) -> Option<Action> {
    if code == KeyCode::Esc || code == KeyCode::Char('q') || code == KeyCode::Char('?') {
        Some(Action::ExitHelpMode)
    } else {
        None
    }
}

/// What a key does while a command is typed.
pub open spec fn command_key(code: KeyCode) -> Option<Action> {
    match code {
        KeyCode::Esc => Some(Action::CommandCancel),
        KeyCode::Ctrl(value) => if value == 'c' {
            Some(Action::CommandCancel)
        } else {
            None
        },
        KeyCode::Enter => Some(Action::CommandSubmit),
        KeyCode::Backspace => Some(Action::CommandBackspace),
        KeyCode::Char(value) => if is_printable(value) {
            Some(Action::CommandChar(value))
        } else {
            None
        },
        _ => None,
    }
}

/// What a key does while a query is typed.
pub open spec fn search_key(code: KeyCode) -> Option<Action> {
    match code {
        KeyCode::Esc => Some(Action::SearchCancel),
        KeyCode::Ctrl(value) => if value == 'c' {
            Some(Action::SearchCancel)
        } else {
            None
        },
        KeyCode::Enter => Some(Action::SearchSubmit),
        KeyCode::Backspace => Some(Action::SearchBackspace),
        KeyCode::Char(value) => if is_printable(value) {
            Some(Action::SearchChar(value))
        } else {
            None
        },
        _ => None,
    }
}

/// The action that an event stands for in a mode.
pub open spec fn mapped(event: Event, mode: ModeView) -> Option<Action> {
    match event {
        Event::Resize(width, height) => Some(Action::Resize(width, height)),
        Event::Key(code) => match mode {
            ModeView::Normal => normal_key(code),
            ModeView::Help => help_key(code),
            ModeView::Command { line } => command_key(code),
            ModeView::Search { line, previous } => search_key(code),
        },
        Event::Unsupported => None,
    }
}

/// Tells whether a character may join an input line.
fn printable(value: char) -> (r: bool)
    ensures
        r == is_printable(value),
{
    ' ' <= value && value <= '~'
}

/// Maps an input event to the action that it stands for in `mode`, if any.
pub fn map_event(event: Event, mode: &Mode) -> (action: Option<Action>)
    ensures
        action == mapped(event, mode@),
{
    match event {
        Event::Resize(width, height) => Some(Action::Resize(width, height)),
        Event::Key(code) => match mode {
            Mode::Normal => match code {
                KeyCode::Char('q') => Some(Action::Quit),
                KeyCode::Char('k') => Some(Action::ScrollUp(1)),
                KeyCode::Char('j') => Some(Action::ScrollDown(1)),
                KeyCode::Char('g') => Some(Action::GoTop),
                KeyCode::Char('G') => Some(Action::GoBottom),
                KeyCode::Char('H') => Some(Action::TabLeft),
                KeyCode::Char('L') => Some(Action::TabRight),
                KeyCode::Char(':') => Some(Action::EnterCommandMode),
                KeyCode::Up => Some(Action::ScrollUp(1)),
                KeyCode::Down => Some(Action::ScrollDown(1)),
                KeyCode::PageUp => Some(Action::PageUp),
                KeyCode::PageDown => Some(Action::PageDown),
                KeyCode::Esc => Some(Action::Quit),
                _ => None,
            },
            Mode::Help => match code {
                KeyCode::Esc => Some(Action::ExitHelpMode),
                KeyCode::Char('q') => Some(Action::ExitHelpMode),
                KeyCode::Char('?') => Some(Action::ExitHelpMode),
                _ => None,
            },
            Mode::Command { .. } => match code {
                KeyCode::Esc => Some(Action::CommandCancel),
                KeyCode::Ctrl('c') => Some(Action::CommandCancel),
                KeyCode::Enter => Some(Action::CommandSubmit),
                KeyCode::Backspace => Some(Action::CommandBackspace),
                KeyCode::Char(value) => if printable(value) {
                    Some(Action::CommandChar(value))
                } else {
                    None
                },
                _ => None,
            },
            Mode::Search { .. } => match code {
                KeyCode::Esc => Some(Action::SearchCancel),
                KeyCode::Ctrl('c') => Some(Action::SearchCancel),
                KeyCode::Enter => Some(Action::SearchSubmit),
                KeyCode::Backspace => Some(Action::SearchBackspace),
                KeyCode::Char(value) => if printable(value) {
                    Some(Action::SearchChar(value))
                } else {
                    None
                },
                _ => None,
            },
        },
        Event::Unsupported => None,
    }
}

} // verus!
