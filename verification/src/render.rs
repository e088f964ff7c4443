//! The renderer that turns a page's name into display lines, and the errors
//! it reports.

use vstd::prelude::*;

verus! {

/// Why a page could not be rendered.
///
/// `CommandFailed` means that the page does not exist or could not be
/// formatted: the session goes on and shows the message. `Io` and `Utf8`
/// mean that the renderer itself is broken: the session hands them to its
/// caller.
#[derive(Debug, Clone, PartialEq, Eq)]
pub enum RenderError {
    Io(String),
    Utf8(String),
    CommandFailed(String),
}

/// A `RenderError` with its texts as character sequences.
pub enum RenderFault {
    Io(Seq<char>),
    Utf8(Seq<char>),
    CommandFailed(Seq<char>),
}

impl View for RenderError {
    type V = RenderFault;

    open spec fn view(&self) -> RenderFault {
        match self {
            RenderError::Io(text) => RenderFault::Io(text@),
            RenderError::Utf8(text) => RenderFault::Utf8(text@),
            RenderError::CommandFailed(text) => RenderFault::CommandFailed(text@),
        }
    }
}

impl RenderFault {
    /// The session survives this fault.
    pub open spec fn recoverable(self) -> bool {
        self is CommandFailed
    }

    /// The text shown for this fault.
    pub open spec fn message(self) -> Seq<char> {
        match self {
            RenderFault::Io(text) => "io error: "@ + text,
            RenderFault::Utf8(text) => "utf8 error: "@ + text,
            RenderFault::CommandFailed(text) => "command failed: "@ + text,
        }
    }
}

impl RenderError {
    /// Tells whether the session survives this error.
    pub fn is_recoverable(&self) -> (r: bool)
        ensures
            r == self@.recoverable(),
    {
        match self {
            RenderError::CommandFailed(_) => true,
            _ => false,
        }
    }

    /// The text shown for this error.
    pub fn message(&self) -> (text: String)
        ensures
            text@ == self@.message(),
    {
        match self {
            RenderError::Io(detail) => "io error: ".to_owned().concat(detail.as_str()),
            RenderError::Utf8(detail) => "utf8 error: ".to_owned().concat(detail.as_str()),
            RenderError::CommandFailed(detail) => "command failed: ".to_owned().concat(
                detail.as_str(),
            ),
        }
    }
}

/// What a renderer answers: the display lines, or a fault.
pub type RenderReply = Result<Seq<Seq<char>>, RenderFault>;

/// The answer of a renderer as character sequences.
pub open spec fn reply_of(answer: Result<Vec<String>, RenderError>) -> RenderReply {
    match answer {
        Ok(lines) => Ok(crate::text::texts(lines@)),
        Err(error) => Err(error@),
    }
}

/// Produces the display lines of a page at a given width.
///
/// The session asks for a width of at least one column. It makes no
/// assumption about what an implementation returns: `answers` says which
/// replies a renderer may give, and unless an implementation narrows it,
/// every reply is one.
pub trait ManRenderer {
    /// `reply` is an answer that this renderer may give when it is asked
    /// for page `name` of `section` at `width`.
    open spec fn answers(
        &self,
        name: Seq<char>,
        section: Option<Seq<char>>,
        width: int,
        reply: RenderReply,
    ) -> bool {
        true
    }

    fn render(&self, name: &str, section: Option<&str>, width: u16) -> (answer: Result<
        Vec<String>,
        RenderError,
    >)
        requires
            width >= 1,
        ensures
            self.answers(name@, crate::text::opt_str(section), width as int, reply_of(answer)),
    ;
}

/// The message for a formatter that ended without success: what it wrote
/// as its complaint, without the whitespace around it, or, if it wrote
/// nothing, `man exited with` and the status it ended with.
pub open spec fn failure_text(complaint: Seq<char>, status: Seq<char>) -> Seq<char> {
    if crate::text::trimmed(complaint).len() == 0 {
        "man exited with "@ + status
    } else {
        crate::text::trimmed(complaint)
    }
}

/// The error for a formatter that ended without success. `complaint` is
/// what it wrote to its error stream, `status` the status it ended with.
pub fn command_failure(complaint: &str, status: &str) -> (error: RenderError)
    ensures
        error@ == RenderFault::CommandFailed(failure_text(complaint@, status@)),
{
    let message = crate::text::trim_text(complaint);
    if message.as_str().unicode_len() == 0 {
        RenderError::CommandFailed("man exited with ".to_owned().concat(status))
    } else {
        RenderError::CommandFailed(message)
    }
}

/// The width that the renderer is asked for: at least one column.
pub fn safe_width(width: u16) -> (safe: u16)
    ensures
        safe == crate::man::larger(1, width as int),
{
    if width < 1 {
        1
    } else {
        width
    }
}

} // verus!
