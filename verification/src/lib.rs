//! A tabbed pager for manual pages: the session behind the screen.
//!
//! The session holds the open pages as tabs, the scroll position and the
//! search of each, the mode that the keyboard is in, and a status message.
//! Every key press and every change of the window becomes an [`Action`],
//! and [`App::update`] applies it. Pages are rendered by a
//! [`ManRenderer`], which the caller supplies.

pub mod args;
pub mod command;
pub mod input;
pub mod laws;
pub mod man;
pub mod platform;
pub mod render;
pub mod search;
pub mod session;
pub mod state;
pub mod text;
pub mod ui;

pub use crate::args::{
    classify_args, ArgsInterpretation, PagesOnly, SectionProbe, ValidationError,
};
pub use crate::command::{parse_command, ParsedCommand};
pub use crate::input::map_event;
pub use crate::man::{ManPage, RenderCache};
pub use crate::platform::{Event, EventStream, KeyCode, PlatformEvent};
pub use crate::render::{ManRenderer, RenderError};
pub use crate::search::SearchMatch;
pub use crate::session::{Action, App, Mode, UpdateOutcome};
pub use crate::ui::content_height;
