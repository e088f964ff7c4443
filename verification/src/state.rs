//! What a session is, and what every action makes of it.
//!
//! An [`AppView`] is the value of a session: its pages, the index of the
//! active one, the mode and the status message. Each action is a function
//! from `AppView` to `AppView`. Where an action asks the renderer or the
//! probe, the function takes what they answered as an argument, so that it
//! says what the session becomes for every answer.

use crate::args::ProbeReply;
use crate::command::{parsed, Command};
use crate::man::{larger, PageView};
use crate::render::{ManRenderer, RenderError, RenderFault, RenderReply};
use crate::session::{Action, UpdateOutcome};
use vstd::prelude::*;

verus! {

/// A `Mode` with its texts as character sequences.
pub enum ModeView {
    Normal,
    Help,
    Command { line: Seq<char> },
    Search { line: Seq<char>, previous: Option<Seq<char>> },
}

/// `line` without its last character; an empty line stays empty.
pub open spec fn erased(line: Seq<char>) -> Seq<char> {
    if line.len() == 0 {
        line
    } else {
        line.drop_last()
    }
}

/// The reply with index `i` in a list of replies. Past the end of the list
/// it is a reply without lines.
pub open spec fn reply_at(renders: Seq<RenderReply>, i: int) -> RenderReply {
    if 0 <= i < renders.len() {
        renders[i]
    } else {
        Ok(Seq::empty())
    }
}

/// What a session is: the mathematical value that the contracts speak of.
pub struct AppView {
    pub tabs: Seq<PageView>,
    pub active: int,
    pub mode: ModeView,
    pub status: Option<Seq<char>>,
}

impl AppView {
    /// The session is consistent: the active index names a tab, or is 0
    /// where there is no tab, and every page is consistent.
    pub open spec fn wf(self) -> bool {
        &&& if self.tabs.len() == 0 {
            self.active == 0
        } else {
            0 <= self.active < self.tabs.len()
        }
        &&& forall|i: int| 0 <= i < self.tabs.len() ==> (#[trigger] self.tabs[i]).wf()
    }

    /// There is an active page.
    pub open spec fn has_page(self) -> bool {
        0 <= self.active < self.tabs.len()
    }

    /// The active page.
    pub open spec fn page(self) -> PageView {
        self.tabs[self.active]
    }

    /// The session with `page` in place of the active page; without an
    /// active page it is the session itself.
    pub open spec fn with_page(self, page: PageView) -> AppView {
        if self.has_page() {
            AppView { tabs: self.tabs.update(self.active, page), ..self }
        } else {
            self
        }
    }

    /// The session in another mode.
    pub open spec fn in_mode(self, mode: ModeView) -> AppView {
        AppView { mode, ..self }
    }

    /// The session with another status message.
    pub open spec fn with_status(self, status: Option<Seq<char>>) -> AppView {
        AppView { status, ..self }
    }

    /// The scroll position of the active page fills a viewport of
    /// `viewport_height` rows. A session without a page fits any viewport.
    pub open spec fn fits(self, viewport_height: int) -> bool {
        self.has_page() ==> self.page().fits(viewport_height)
    }

    /// The largest scroll position of the active page, 0 without one.
    pub open spec fn max_scroll(self, viewport_height: int) -> int {
        if self.has_page() {
            self.page().max_scroll(viewport_height)
        } else {
            0
        }
    }

    /// The session with its active page scrolled up by `amount` lines.
    pub open spec fn scrolled_up(self, amount: int) -> AppView {
        self.with_page(self.page().scrolled_up(amount))
    }

    /// The session with its active page scrolled down by `amount` lines,
    /// not past the largest scroll position.
    pub open spec fn scrolled_down(self, amount: int, viewport_height: int) -> AppView {
        self.with_page(self.page().scrolled_down(amount, viewport_height))
    }

    /// Half a viewport, and at least one line.
    pub open spec fn half_page(viewport_height: int) -> int {
        larger(1, viewport_height / 2)
    }

    /// The session with its active page at the first line.
    pub open spec fn at_top(self) -> AppView {
        self.with_page(self.page().at(0))
    }

    /// The session with its active page at the largest scroll position.
    pub open spec fn at_bottom(self, viewport_height: int) -> AppView {
        self.with_page(self.page().at(self.page().max_scroll(viewport_height)))
    }

    /// The session with the scroll position of its active page brought down
    /// to what fills the viewport.
    pub open spec fn fitted(self, viewport_height: int) -> AppView {
        self.with_page(self.page().fitted(viewport_height))
    }

    /// The session with line `line` of its active page in the middle of the
    /// viewport, as far as the ends of the page allow.
    pub open spec fn centered(self, line: int, viewport_height: int) -> AppView {
        self.with_page(self.page().centered(line, viewport_height))
    }

    /// The session with the current hit of the active page, if it has one,
    /// in the middle of the viewport.
    pub open spec fn landed(self, viewport_height: int) -> AppView {
        if self.has_page() {
            match self.page().current_line() {
                Some(line) => self.centered(line, viewport_height),
                None => self,
            }
        } else {
            self
        }
    }

    /// The session after a search for `query` on the active page, anchored
    /// at its scroll position, with the hit that became current in the
    /// middle of the viewport.
    pub open spec fn searched(self, query: Seq<char>, viewport_height: int) -> AppView {
        self.with_page(self.page().searched(Some(query), self.page().scroll)).landed(
            viewport_height,
        )
    }

    /// The session with the next hit of its active page current and in the
    /// middle of the viewport.
    pub open spec fn search_next(self, viewport_height: int) -> AppView {
        self.with_page(self.page().advanced()).landed(viewport_height)
    }

    /// The session with the previous hit of its active page current and in
    /// the middle of the viewport.
    pub open spec fn search_prev(self, viewport_height: int) -> AppView {
        self.with_page(self.page().retreated()).landed(viewport_height)
    }

    /// The session without a search on its active page.
    pub open spec fn search_cleared(self) -> AppView {
        self.with_page(self.page().cleared())
    }

    /// Command mode, with an empty line.
    pub open spec fn command_entered(self) -> AppView {
        self.in_mode(ModeView::Command { line: Seq::empty() })
    }

    /// In command mode the character joins the line.
    pub open spec fn command_typed(self, value: char) -> AppView {
        match self.mode {
            ModeView::Command { line } => self.in_mode(ModeView::Command { line: line.push(value) }),
            _ => self,
        }
    }

    /// In command mode the last character leaves the line.
    pub open spec fn command_erased(self) -> AppView {
        match self.mode {
            ModeView::Command { line } => self.in_mode(ModeView::Command { line: erased(line) }),
            _ => self,
        }
    }

    /// The query of the active page.
    pub open spec fn query(self) -> Option<Seq<char>> {
        if self.has_page() {
            self.page().query
        } else {
            None
        }
    }

    /// Search mode, with an empty line; the query that the active page has
    /// is kept for a cancel.
    pub open spec fn search_entered(self) -> AppView {
        self.in_mode(ModeView::Search { line: Seq::empty(), previous: self.query() })
    }

    /// In search mode the character joins the line, and the page is
    /// searched for the line at once.
    pub open spec fn search_typed(self, value: char, viewport_height: int) -> AppView {
        match self.mode {
            ModeView::Search { line, previous } => self.in_mode(
                ModeView::Search { line: line.push(value), previous },
            ).searched(line.push(value), viewport_height),
            _ => self,
        }
    }

    /// In search mode the last character leaves the line, and the page is
    /// searched for the line at once.
    pub open spec fn search_erased(self, viewport_height: int) -> AppView {
        match self.mode {
            ModeView::Search { line, previous } => self.in_mode(
                ModeView::Search { line: erased(line), previous },
            ).searched(erased(line), viewport_height),
            _ => self,
        }
    }

    /// In search mode the line becomes the query, and the mode is normal
    /// again.
    pub open spec fn search_submitted(self, viewport_height: int) -> AppView {
        match self.mode {
            ModeView::Search { line, previous } => self.searched(line, viewport_height).in_mode(
                ModeView::Normal,
            ),
            _ => self,
        }
    }

    /// In search mode the query from before comes back, or the search ends
    /// if there was none, and the mode is normal again.
    pub open spec fn search_cancelled(self, viewport_height: int) -> AppView {
        match self.mode {
            ModeView::Search { line, previous } => match previous {
                Some(query) => self.searched(query, viewport_height).in_mode(ModeView::Normal),
                None => self.search_cleared().in_mode(ModeView::Normal),
            },
            _ => self,
        }
    }

    /// The session showing the help.
    pub open spec fn help_entered(self) -> AppView {
        self.in_mode(ModeView::Help)
    }

    /// The help is left for normal mode; in any other mode nothing changes.
    pub open spec fn help_left(self) -> AppView {
        match self.mode {
            ModeView::Help => self.in_mode(ModeView::Normal),
            _ => self,
        }
    }

    /// The tab to the left is active, the last one from the first.
    pub open spec fn turned_left(self) -> AppView {
        if self.tabs.len() == 0 {
            self
        } else if self.active == 0 {
            AppView { active: self.tabs.len() - 1, ..self }
        } else {
            AppView { active: self.active - 1, ..self }
        }
    }

    /// The tab to the right is active, the first one from the last.
    pub open spec fn turned_right(self) -> AppView {
        if self.tabs.len() == 0 {
            self
        } else if self.active + 1 >= self.tabs.len() {
            AppView { active: 0, ..self }
        } else {
            AppView { active: self.active + 1, ..self }
        }
    }

    /// The part of a fault that ends an action: the fault itself unless it
    /// is recoverable.
    pub open spec fn fatal(fault: Option<RenderFault>) -> Option<RenderFault> {
        match fault {
            Some(fault) => if fault.recoverable() {
                None
            } else {
                Some(fault)
            },
            None => None,
        }
    }

    /// The session with a recoverable fault as its status message; with
    /// any other fault, or none, it is the session itself.
    pub open spec fn noting(self, fault: Option<RenderFault>) -> AppView {
        match fault {
            Some(fault) => if fault.recoverable() {
                self.with_status(Some(fault.message()))
            } else {
                self
            },
            None => self,
        }
    }

    /// The fault, if any, that making the active page ready for `width`
    /// ends with, `reply` being what the renderer answered: the renderer's
    /// own fault, recoverable or not.
    pub open spec fn resize_fault(self, width: int, reply: RenderReply) -> Option<RenderFault> {
        if self.has_page() {
            self.page().render_fault(width, reply)
        } else {
            None
        }
    }

    /// The session after its active page was made ready for `width` and
    /// its scroll position fitted to the viewport, `reply` being what the
    /// renderer answered. Where the renderer failed the session is as
    /// before.
    pub open spec fn resized(self, width: int, viewport_height: int, reply: RenderReply) -> AppView {
        if self.has_page() && self.page().render_fault(width, reply) is None {
            self.with_page(self.page().rendered(width, reply).fitted(viewport_height))
        } else {
            self
        }
    }

    /// The session with the tab active that a tab switch makes active; any
    /// other action leaves the active tab.
    pub open spec fn turned(self, action: Action) -> AppView {
        match action {
            Action::TabLeft => self.turned_left(),
            Action::TabRight => self.turned_right(),
            _ => self,
        }
    }

    /// The unrecoverable fault, if any, that an action ends with which
    /// shows the active page at `width`, `reply` being what the renderer
    /// answered.
    pub open spec fn show_fault(self, width: int, reply: RenderReply) -> Option<RenderFault> {
        Self::fatal(self.resize_fault(width, reply))
    }

    /// The session after an action showed its active page: the page was
    /// made ready for `width`, where the renderer did not fail, and its
    /// scroll position was fitted to the viewport in either case. A
    /// recoverable fault is the status message.
    pub open spec fn shown(self, width: int, viewport_height: int, reply: RenderReply) -> AppView {
        if self.has_page() {
            self.with_page(self.page().rendered(width, reply).fitted(viewport_height)).noting(
                self.page().render_fault(width, reply),
            )
        } else {
            self
        }
    }

    /// The session without its active tab. The tab behind it becomes
    /// active, or the last one if there is none behind it.
    pub open spec fn closed(self) -> AppView {
        if self.has_page() {
            AppView {
                tabs: self.tabs.remove(self.active),
                active: if self.active + 1 < self.tabs.len() {
                    self.active
                } else {
                    larger(0, self.tabs.len() - 2)
                },
                ..self
            }
        } else {
            self
        }
    }

    /// The session with a new, empty page behind its tabs, and that page
    /// active.
    pub open spec fn appended(self, name: Seq<char>, section: Option<Seq<char>>) -> AppView {
        AppView {
            tabs: self.tabs.push(PageView::fresh(name, section)),
            active: self.tabs.len() as int,
            ..self
        }
    }

    /// The session without its last tab, the tab before it active.
    pub open spec fn dropped_last(self) -> AppView {
        AppView {
            tabs: self.tabs.drop_last(),
            active: larger(0, self.tabs.len() - 2),
            ..self
        }
    }

    /// The session after page `name` was opened, `reply` being what the
    /// renderer answered for it. The page is added behind the tabs, made
    /// active, rendered and fitted to the viewport. If it cannot be
    /// rendered and the fault is recoverable, the page is taken away again:
    /// the tabs are as they were, the last of them is active, and the fault
    /// is the status message. With any other fault the page stays as it was
    /// added.
    pub open spec fn opened(
        self,
        name: Seq<char>,
        section: Option<Seq<char>>,
        width: int,
        viewport_height: int,
        reply: RenderReply,
    ) -> AppView {
        let added = self.appended(name, section);
        match reply {
            Ok(lines) => added.with_page(added.page().rendered(width, reply).fitted(viewport_height)),
            Err(fault) => if fault.recoverable() {
                added.dropped_last().with_status(Some(fault.message()))
            } else {
                added
            },
        }
    }

    /// The session after the pages `pages[from..]` were opened one after
    /// the other, `renders[i]` being what the renderer answered for
    /// `pages[i]`. An unrecoverable fault ends the run with the page that
    /// it came for.
    pub open spec fn opened_from(
        self,
        pages: Seq<Seq<char>>,
        from: int,
        section: Option<Seq<char>>,
        width: int,
        viewport_height: int,
        renders: Seq<RenderReply>,
    ) -> AppView
        decreases pages.len() - from,
    {
        if from < 0 || from >= pages.len() {
            self
        } else {
            let next = self.opened(
                pages[from],
                section,
                width,
                viewport_height,
                reply_at(renders, from),
            );
            if Self::open_fault(reply_at(renders, from)) is Some {
                next
            } else {
                next.opened_from(pages, from + 1, section, width, viewport_height, renders)
            }
        }
    }

    /// The fault, if any, that ends the run of opening `count` pages from
    /// page `from` on.
    pub open spec fn batch_fault(count: int, from: int, renders: Seq<RenderReply>) -> Option<
        RenderFault,
    >
        decreases count - from,
    {
        if from < 0 || from >= count {
            None
        } else {
            match Self::open_fault(reply_at(renders, from)) {
                Some(fault) => Some(fault),
                None => Self::batch_fault(count, from + 1, renders),
            }
        }
    }

    /// The fault, if any, that ends a run of opening pages.
    pub open spec fn open_fault(reply: RenderReply) -> Option<RenderFault> {
        match reply {
            Ok(_) => None,
            Err(fault) => if fault.recoverable() {
                None
            } else {
                Some(fault)
            },
        }
    }
}

impl AppView {
    /// `reply` is an answer of `renderer` to what showing the active page
    /// at `width` asks it. Without an active page, and where the page needs
    /// no render, nothing is asked and any reply will do.
    pub open spec fn heard<R: ManRenderer + ?Sized>(
        self,
        renderer: &R,
        width: int,
        reply: RenderReply,
    ) -> bool {
        self.has_page() ==> self.page().heard(renderer, width, reply)
    }

    /// `renders` are the answers of `renderer` to what opening `pages` asks
    /// it: one reply for each page, in order, each for that page under
    /// `section` at a width of at least one column. There is a reply for
    /// every page, unless the last reply is an unrecoverable fault, which
    /// ends the run.
    pub open spec fn batch_heard<R: ManRenderer + ?Sized>(
        renderer: &R,
        pages: Seq<Seq<char>>,
        section: Option<Seq<char>>,
        width: int,
        renders: Seq<RenderReply>,
    ) -> bool {
        &&& renders.len() <= pages.len()
        &&& renders.len() == pages.len() || (renders.len() > 0 && Self::open_fault(
            renders[renders.len() - 1],
        ) is Some)
        &&& forall|i: int|
            0 <= i < renders.len() ==> renderer.answers(
                pages[i],
                section,
                larger(1, width),
                #[trigger] renders[i],
            )
    }

    /// `renders` are answers of `renderer` to what a command asks it.
    pub open spec fn command_heard<R: ManRenderer + ?Sized>(
        self,
        renderer: &R,
        command: Command,
        width: int,
        renders: Seq<RenderReply>,
    ) -> bool {
        match command {
            Command::Man { pages, section } => Self::batch_heard(
                renderer,
                pages,
                section,
                width,
                renders,
            ),
            Command::Wipe => self.closed().heard(renderer, width, reply_at(renders, 0)),
            _ => true,
        }
    }

    /// `renders` are answers of `renderer` to what an action asks it.
    pub open spec fn step_heard<R: ManRenderer + ?Sized>(
        self,
        renderer: &R,
        action: Action,
        width: int,
        probe: ProbeReply,
        renders: Seq<RenderReply>,
    ) -> bool {
        let s = self.cleared_for(action);
        match action {
            Action::Resize(_, _) | Action::TabLeft | Action::TabRight => s.turned(action).heard(
                renderer,
                width,
                reply_at(renders, 0),
            ),
            Action::CommandSubmit => s.in_mode(ModeView::Normal).command_heard(
                renderer,
                parsed(s.command_line(), probe),
                width,
                renders,
            ),
            _ => true,
        }
    }

    /// The line that a submit in this mode hands to the command parser:
    /// the line that is being typed, be it a command or a query, and the
    /// empty line where none is.
    pub open spec fn command_line(self) -> Seq<char> {
        match self.mode {
            ModeView::Command { line } => line,
            ModeView::Search { line, previous } => line,
            _ => Seq::empty(),
        }
    }

    /// The status message for a keyword that is no command.
    pub open spec fn unknown_command(keyword: Seq<char>) -> Seq<char> {
        "unknown command: "@ + keyword
    }

    /// The session after a command, `renders` being what the renderer
    /// answered, in the order in which it was asked.
    pub open spec fn executed(
        self,
        command: Command,
        width: int,
        viewport_height: int,
        renders: Seq<RenderReply>,
    ) -> AppView {
        match command {
            Command::Man { pages, section } => self.opened_from(
                pages,
                0,
                section,
                width,
                viewport_height,
                renders,
            ),
            Command::Help => self.help_entered(),
            Command::Quit => self,
            Command::Wipe => self.closed().shown(width, viewport_height, reply_at(renders, 0)),
            Command::Empty => self,
            Command::Unknown(keyword) => self.with_status(Some(Self::unknown_command(keyword))),
        }
    }

    /// The unrecoverable fault, if any, that a command ends with.
    pub open spec fn execute_fault(
        self,
        command: Command,
        width: int,
        renders: Seq<RenderReply>,
    ) -> Option<RenderFault> {
        match command {
            Command::Man { pages, section } => Self::batch_fault(pages.len() as int, 0, renders),
            Command::Wipe => self.closed().show_fault(width, reply_at(renders, 0)),
            _ => None,
        }
    }

    /// Whether the session goes on after a command.
    pub open spec fn command_outcome(command: Command) -> UpdateOutcome {
        match command {
            Command::Quit => UpdateOutcome::Quit,
            _ => UpdateOutcome::Continue,
        }
    }

    /// The status message stays through this action: a resize and a quit
    /// keep it, every other action clears it.
    pub open spec fn keeps_status(action: Action) -> bool {
        action is Resize || action is Quit
    }

    /// The session as an action finds it: without its status message,
    /// unless the action keeps it.
    pub open spec fn cleared_for(self, action: Action) -> AppView {
        if Self::keeps_status(action) {
            self
        } else {
            self.with_status(None)
        }
    }

    /// The session after an action. `probe` is what the probe answered and
    /// `renders` what the renderer answered, in the order in which it was
    /// asked; an action that asks neither does not depend on them.
    pub open spec fn stepped(
        self,
        action: Action,
        width: int,
        viewport_height: int,
        probe: ProbeReply,
        renders: Seq<RenderReply>,
    ) -> AppView {
        let s = self.cleared_for(action);
        match action {
            Action::Quit => s,
            Action::ScrollUp(amount) => s.scrolled_up(amount as int),
            Action::ScrollDown(amount) => s.scrolled_down(amount as int, viewport_height),
            Action::PageUp => s.scrolled_up(viewport_height),
            Action::PageDown => s.scrolled_down(viewport_height, viewport_height),
            Action::HalfPageUp => s.scrolled_up(Self::half_page(viewport_height)),
            Action::HalfPageDown => s.scrolled_down(
                Self::half_page(viewport_height),
                viewport_height,
            ),
            Action::Resize(_, _) | Action::TabLeft | Action::TabRight => s.turned(action).shown(
                width,
                viewport_height,
                reply_at(renders, 0),
            ),
            Action::GoTop => s.at_top(),
            Action::GoBottom => s.at_bottom(viewport_height),
            Action::EnterCommandMode => s.command_entered(),
            Action::CommandChar(value) => s.command_typed(value),
            Action::CommandBackspace => s.command_erased(),
            Action::CommandSubmit => s.in_mode(ModeView::Normal).executed(
                parsed(s.command_line(), probe),
                width,
                viewport_height,
                renders,
            ),
            Action::CommandCancel => s.in_mode(ModeView::Normal),
            Action::EnterSearchMode => s.search_entered(),
            Action::SearchChar(value) => s.search_typed(value, viewport_height),
            Action::SearchBackspace => s.search_erased(viewport_height),
            Action::SearchSubmit => s.search_submitted(viewport_height),
            Action::SearchCancel => s.search_cancelled(viewport_height),
            Action::SearchNext => s.search_next(viewport_height),
            Action::SearchPrev => s.search_prev(viewport_height),
            Action::SearchClear => s.search_cleared(),
            Action::EnterHelpMode => s.help_entered(),
            Action::ExitHelpMode => s.help_left(),
        }
    }

    /// The unrecoverable fault, if any, that an action ends with.
    pub open spec fn step_fault(
        self,
        action: Action,
        width: int,
        probe: ProbeReply,
        renders: Seq<RenderReply>,
    ) -> Option<RenderFault> {
        let s = self.cleared_for(action);
        match action {
            Action::Resize(_, _) | Action::TabLeft | Action::TabRight => s.turned(
                action,
            ).show_fault(width, reply_at(renders, 0)),
            Action::CommandSubmit => s.in_mode(ModeView::Normal).execute_fault(
                parsed(s.command_line(), probe),
                width,
                renders,
            ),
            _ => None,
        }
    }

    /// Whether the session goes on after an action: it ends with the
    /// action `Quit` and with a submitted `quit` command.
    pub open spec fn step_outcome(self, action: Action, probe: ProbeReply) -> UpdateOutcome {
        match action {
            Action::Quit => UpdateOutcome::Quit,
            Action::CommandSubmit => Self::command_outcome(parsed(self.command_line(), probe)),
            _ => UpdateOutcome::Continue,
        }
    }
}

/// The actions that keep the active page fitted to the viewport: all but
/// the submit of a command, which may make another tab active without
/// showing it.
pub open spec fn keeps_fit(action: Action) -> bool {
    !(action is CommandSubmit)
}

/// The actions after which the active page fits the viewport whatever its
/// scroll position was before.
pub open spec fn refits(action: Action) -> bool {
    ||| action is Resize
    ||| action is TabLeft
    ||| action is TabRight
    ||| action is ScrollDown
    ||| action is PageDown
    ||| action is HalfPageDown
    ||| action is GoTop
    ||| action is GoBottom
}

/// What an update returns, in the terms of the contracts: the outcome, or
/// the fault that ended the action.
pub open spec fn result_of(r: Result<UpdateOutcome, RenderError>) -> Result<
    UpdateOutcome,
    RenderFault,
> {
    match r {
        Ok(outcome) => Ok(outcome),
        Err(error) => Err(error@),
    }
}

/// The result that an outcome and a fault make: the fault if there is one.
pub open spec fn result_from(outcome: UpdateOutcome, fault: Option<RenderFault>) -> Result<
    UpdateOutcome,
    RenderFault,
> {
    match fault {
        Some(fault) => Err(fault),
        None => Ok(outcome),
    }
}

} // verus!
