//! The input events that the session understands, as plain values.

use core::time::Duration;
use vstd::prelude::*;

verus! {

/// A key press.
#[derive(Debug, Clone, Copy, PartialEq, Eq)]
pub enum KeyCode {
    Char(char),
    Ctrl(char),
    Up,
    Down,
    PageUp,
    PageDown,
    Enter,
    Backspace,
    Esc,
}

/// An input event.
#[derive(Debug, Clone, Copy, PartialEq, Eq)]
pub enum Event {
    Key(KeyCode),
    Resize(u16, u16),
    Unsupported,
}

/// What one wait for input ends with: an event, or the end of the wait.
#[derive(Debug, Clone, Copy, PartialEq, Eq)]
pub enum PlatformEvent {
    Input(Event),
    Tick,
}

/// The key that a character stands for: with the control key held down it
/// is `Ctrl`, without it `Char`.
pub fn char_key(value: char, control: bool) -> (code: KeyCode)
    ensures
        code == if control {
            KeyCode::Ctrl(value)
        } else {
            KeyCode::Char(value)
        },
{
    if control {
        KeyCode::Ctrl(value)
    } else {
        KeyCode::Char(value)
    }
}

/// How long one wait for input lasts.
#[derive(Debug, Clone, Copy)]
pub struct EventStream {
    pub(crate) tick_rate: Duration,
}

impl EventStream {
    /// The length of one wait.
    pub open(crate) spec fn rate(&self) -> Duration {
        self.tick_rate
    }

    pub fn new(tick_rate: Duration) -> (stream: Self)
        ensures
            stream.rate() == tick_rate,
    {
        Self { tick_rate }
    }

    pub fn tick_rate(&self) -> (rate: Duration)
        ensures
            rate == self.rate(),
    {
        self.tick_rate
    }
}

} // verus!
