//! The session: tabs, mode and status message, and the actions that change
//! them.
//!
//! What the session is at any moment is an [`AppView`]. What an action makes
//! of it is written down once, as functions on `AppView` (see
//! [`crate::state`]); the methods of [`App`] are proved to do exactly that.

use crate::args::{probe_heard, ProbeReply, SectionProbe};
use crate::command::{
    line_heard,
    open_targets,
    parse_command,
    parsed,
    targets,
    Command,
    ParsedCommand,
};
use crate::man::{fault_of, larger, ManPage, PageView};
use crate::render::{reply_of, ManRenderer, RenderError, RenderReply};
use crate::state::{
    keeps_fit,
    refits,
    reply_at,
    result_from,
    result_of,
    AppView,
    ModeView,
};
use crate::text::{opt_str, opt_text, texts};
use crate::laws::{
    lemma_closed_wf,
    lemma_executed,
    lemma_fitted_wf,
    lemma_opening,
    lemma_page_put,
    lemma_resized,
    lemma_scrolling,
    lemma_settled,
    lemma_update,
    lemma_with_page_wf,
};
use vstd::prelude::*;

verus! {

/// One step of input, already decoded.
#[derive(Debug, Clone, Copy, PartialEq, Eq)]
pub enum Action {
    /// End the session.
    Quit,
    /// Scroll up by so many lines.
    ScrollUp(usize),
    /// Scroll down by so many lines.
    ScrollDown(usize),
    /// Scroll up by one viewport.
    PageUp,
    /// Scroll down by one viewport.
    PageDown,
    /// Scroll up by half a viewport, and by one line at least.
    HalfPageUp,
    /// Scroll down by half a viewport, and by one line at least.
    HalfPageDown,
    /// The window has a new width and height. The room that the text has
    /// in it comes with the call of `update`, not with the action.
    Resize(u16, u16),
    /// Go to the first line.
    GoTop,
    /// Go to the largest scroll position.
    GoBottom,
    /// Make the tab on the left active.
    TabLeft,
    /// Make the tab on the right active.
    TabRight,
    /// Start typing a command.
    EnterCommandMode,
    /// Add a character to the command.
    CommandChar(char),
    /// Take the last character off the command.
    CommandBackspace,
    /// Carry the command out.
    CommandSubmit,
    /// Drop the command.
    CommandCancel,
    /// Start typing a query.
    EnterSearchMode,
    /// Add a character to the query.
    SearchChar(char),
    /// Take the last character off the query.
    SearchBackspace,
    /// Keep the query.
    SearchSubmit,
    /// Drop the query and go back to the one from before.
    SearchCancel,
    /// Go to the next hit.
    SearchNext,
    /// Go to the previous hit.
    SearchPrev,
    /// End the search.
    SearchClear,
    /// Show the help.
    EnterHelpMode,
    /// Leave the help.
    ExitHelpMode,
}

/// What the keyboard is used for at the moment. Only the two modes that
/// edit a line hold one.
#[derive(Debug, Clone, PartialEq, Eq)]
pub enum Mode {
    Normal,
    Help,
    Command { line: String },
    Search { line: String, previous: Option<String> },
}

/// Whether the session goes on after an action.
#[derive(Debug, Clone, Copy, PartialEq, Eq)]
pub enum UpdateOutcome {
    Continue,
    Quit,
}

impl View for Mode {
    type V = ModeView;

    open spec fn view(&self) -> ModeView {
        match self {
            Mode::Normal => ModeView::Normal,
            Mode::Help => ModeView::Help,
            Mode::Command { line } => ModeView::Command { line: line@ },
            Mode::Search { line, previous } => ModeView::Search {
                line: line@,
                previous: opt_text(*previous),
            },
        }
    }
}

/// The session.
#[derive(Debug)]
pub struct App {
    pub(crate) tabs: Vec<ManPage>,
    pub(crate) active: usize,
    pub(crate) mode: Mode,
    pub(crate) status: Option<String>,
}

/// The pages of a list of tabs.
pub open spec fn pages_of(tabs: Seq<ManPage>) -> Seq<PageView> {
    Seq::new(tabs.len(), |i: int| tabs[i]@)
}

impl View for App {
    type V = AppView;

    open(crate) spec fn view(&self) -> AppView {
        AppView {
            tabs: pages_of(self.tabs@),
            active: self.active as int,
            mode: self.mode@,
            status: opt_text(self.status),
        }
    }
}

impl App {
    /// The session is consistent.
    pub open spec fn wf(&self) -> bool {
        self@.wf()
    }

    /// A session with one tab, not rendered yet.
    pub fn new(name: &str, section: Option<String>) -> (app: Self)
        ensures
            app@ == (AppView {
                tabs: seq![PageView::fresh(name@, opt_text(section))],
                active: 0,
                mode: ModeView::Normal,
                status: None,
            }),
            app.wf(),
    {
        let mut tabs: Vec<ManPage> = Vec::new();
        tabs.push(ManPage::new(name, section));
        let app = Self { tabs, active: 0, mode: Mode::Normal, status: None };
        proof {
            assert(pages_of(app.tabs@) =~= seq![PageView::fresh(name@, opt_text(section))]);
        }
        app
    }

    /// A session without tabs.
    pub fn empty() -> (app: Self)
        ensures
            app@ == (AppView {
                tabs: Seq::empty(),
                active: 0,
                mode: ModeView::Normal,
                status: None,
            }),
            app.wf(),
    {
        let app = Self { tabs: Vec::new(), active: 0, mode: Mode::Normal, status: None };
        proof {
            assert(pages_of(app.tabs@) =~= Seq::<PageView>::empty());
        }
        app
    }

    /// The title of the active page; empty without one.
    pub fn title(&self) -> (title: String)
        ensures
            title@ == if self@.has_page() {
                self@.page().title()
            } else {
                Seq::<char>::empty()
            },
    {
        if self.active < self.tabs.len() {
            self.tabs[self.active].title()
        } else {
            String::new()
        }
    }

    /// The lines of the active page; none without one.
    pub fn lines(&self) -> (lines: &[String])
        ensures
            texts(lines@) == if self@.has_page() {
                self@.page().lines
            } else {
                Seq::<Seq<char>>::empty()
            },
    {
        if self.active < self.tabs.len() {
            self.tabs[self.active].lines()
        } else {
            let none: &[String] = &[];
            assert(texts(none@) =~= Seq::<Seq<char>>::empty());
            none
        }
    }

    /// The scroll position of the active page; 0 without one.
    pub fn scroll(&self) -> (scroll: usize)
        ensures
            scroll == if self@.has_page() {
                self@.page().scroll
            } else {
                0
            },
    {
        if self.active < self.tabs.len() {
            self.tabs[self.active].scroll
        } else {
            0
        }
    }

    pub fn mode(&self) -> (mode: &Mode)
        ensures
            mode@ == self@.mode,
    {
        &self.mode
    }

    pub fn tabs(&self) -> (tabs: &[ManPage])
        ensures
            pages_of(tabs@) == self@.tabs,
    {
        self.tabs.as_slice()
    }

    /// The query of the active page.
    pub fn search_query(&self) -> (query: Option<&str>)
        ensures
            opt_str(query) == self@.query(),
    {
        if self.active < self.tabs.len() {
            self.tabs[self.active].search_query()
        } else {
            None
        }
    }

    pub fn active_index(&self) -> (index: usize)
        ensures
            index == self@.active,
    {
        self.active
    }

    /// The active page.
    pub fn active_page(&self) -> (page: Option<&ManPage>)
        ensures
            match page {
                Some(page) => self@.has_page() && page@ == self@.page(),
                None => !self@.has_page(),
            },
    {
        if self.active < self.tabs.len() {
            Some(&self.tabs[self.active])
        } else {
            None
        }
    }

    /// The status message.
    pub fn status(&self) -> (status: Option<&str>)
        ensures
            opt_str(status) == self@.status,
    {
        match &self.status {
            Some(text) => Some(text.as_str()),
            None => None,
        }
    }

    /// The largest scroll position of the active page that still fills
    /// the viewport.
    pub(crate) fn max_scroll(&self, viewport_height: usize) -> (most: usize)
        ensures
            most == self@.max_scroll(viewport_height as int),
    {
        if self.active >= self.tabs.len() {
            return 0;
        }
        let lines: usize = self.tabs[self.active].line_count();
        if lines == 0 {
            return 0;
        }
        let visible: usize = if viewport_height < 1 { 1 } else { viewport_height };
        if lines >= visible {
            lines - visible
        } else {
            0
        }
    }

    /// Puts the active page at scroll position `scroll`.
    fn set_scroll(&mut self, scroll: usize)
        ensures
            final(self)@ == old(self)@.with_page(old(self)@.page().at(scroll as int)),
    {
        if self.active < self.tabs.len() {
            self.tabs[self.active].scroll = scroll;
            proof {
                assert(self@.tabs =~= old(self)@.tabs.update(
                    old(self)@.active,
                    old(self)@.page().at(scroll as int),
                ));
            }
        }
    }

    pub fn scroll_up(&mut self, amount: usize)
        ensures
            final(self)@ == old(self)@.scrolled_up(amount as int),
            old(self).wf() ==> final(self).wf(),
    {
        proof {
            if old(self).wf() {
                lemma_scrolling(old(self)@, amount as int, 0);
            }
        }
        let current: usize = self.scroll();
        let next: usize = if current >= amount { current - amount } else { 0 };
        self.set_scroll(next);
    }

    pub fn scroll_down(&mut self, amount: usize, viewport_height: usize)
        ensures
            final(self)@ == old(self)@.scrolled_down(amount as int, viewport_height as int),
            old(self).wf() ==> final(self).wf(),
    {
        proof {
            if old(self).wf() {
                lemma_scrolling(old(self)@, amount as int, viewport_height as int);
            }
        }
        let most: usize = self.max_scroll(viewport_height);
        let current: usize = self.scroll();
        let next: usize = if current >= most {
            most
        } else if amount >= most - current {
            most
        } else {
            current + amount
        };
        self.set_scroll(next);
    }

    pub fn page_up(&mut self, viewport_height: usize)
        ensures
            final(self)@ == old(self)@.scrolled_up(viewport_height as int),
            old(self).wf() ==> final(self).wf(),
    {
        self.scroll_up(viewport_height);
    }

    pub fn page_down(&mut self, viewport_height: usize)
        ensures
            final(self)@ == old(self)@.scrolled_down(
                viewport_height as int,
                viewport_height as int,
            ),
            old(self).wf() ==> final(self).wf(),
    {
        self.scroll_down(viewport_height, viewport_height);
    }

    pub fn half_page_up(&mut self, viewport_height: usize)
        ensures
            final(self)@ == old(self)@.scrolled_up(AppView::half_page(viewport_height as int)),
            old(self).wf() ==> final(self).wf(),
    {
        let half: usize = viewport_height / 2;
        let amount: usize = if half < 1 { 1 } else { half };
        self.scroll_up(amount);
    }

    pub fn half_page_down(&mut self, viewport_height: usize)
        ensures
            final(self)@ == old(self)@.scrolled_down(
                AppView::half_page(viewport_height as int),
                viewport_height as int,
            ),
            old(self).wf() ==> final(self).wf(),
    {
        let half: usize = viewport_height / 2;
        let amount: usize = if half < 1 { 1 } else { half };
        self.scroll_down(amount, viewport_height);
    }

    pub fn go_top(&mut self)
        ensures
            final(self)@ == old(self)@.at_top(),
            old(self).wf() ==> final(self).wf(),
    {
        proof {
            if old(self).wf() {
                lemma_scrolling(old(self)@, 0, 0);
            }
        }
        self.set_scroll(0);
    }

    pub fn go_bottom(&mut self, viewport_height: usize)
        ensures
            final(self)@ == old(self)@.at_bottom(viewport_height as int),
            old(self).wf() ==> final(self).wf(),
    {
        proof {
            if old(self).wf() {
                lemma_scrolling(old(self)@, 0, viewport_height as int);
            }
        }
        let most: usize = self.max_scroll(viewport_height);
        self.set_scroll(most);
    }

    /// Brings the scroll position of the active page down to what fills
    /// the viewport.
    pub fn clamp_scroll(&mut self, viewport_height: usize)
        ensures
            final(self)@ == old(self)@.fitted(viewport_height as int),
            old(self).wf() ==> final(self).wf(),
    {
        proof {
            if old(self).wf() {
                if old(self)@.has_page() {
                    lemma_fitted_wf(old(self)@.page(), viewport_height as int);
                    lemma_with_page_wf(old(self)@, old(self)@.page().fitted(viewport_height as int));
                }
            }
        }
        let most: usize = self.max_scroll(viewport_height);
        let current: usize = self.scroll();
        if current > most {
            self.set_scroll(most);
        } else {
            proof {
                assert(self@.tabs =~= self@.fitted(viewport_height as int).tabs);
            }
        }
    }

    /// Hands to the active page what the renderer answered for it.
    fn render_active_with(&mut self, width: u16, answer: Result<Vec<String>, RenderError>) -> (r:
        Result<(), RenderError>)
        requires
            old(self)@.has_page(),
        ensures
            final(self)@ == old(self)@.with_page(
                old(self)@.page().rendered(width as int, reply_of(answer)),
            ),
            fault_of(r) == old(self)@.page().render_fault(width as int, reply_of(answer)),
            final(self).tabs.len() == old(self).tabs.len(),
            final(self).active == old(self).active,
    {
        let r = self.tabs[self.active].apply_render(width, answer);
        proof {
            assert(self@.tabs =~= old(self)@.tabs.update(
                old(self)@.active,
                old(self)@.page().rendered(width as int, reply_of(answer)),
            ));
        }
        r
    }

    /// Makes the active page ready for `width`, asking the renderer if its
    /// cache does not fit.
    fn render_active<R: ManRenderer + ?Sized>(&mut self, renderer: &R, width: u16) -> (r: Result<
        (),
        RenderError,
    >)
        requires
            old(self)@.has_page(),
        ensures
            exists|reply: RenderReply|
                #![trigger old(self)@.page().rendered(width as int, reply)]
                {
                    &&& old(self)@.page().heard(renderer, width as int, reply)
                    &&& final(self)@ == old(self)@.with_page(
                        old(self)@.page().rendered(width as int, reply),
                    )
                    &&& fault_of(r) == old(self)@.page().render_fault(width as int, reply)
                },
            final(self).tabs.len() == old(self).tabs.len(),
            final(self).active == old(self).active,
    {
        let r = self.tabs[self.active].ensure_render(renderer, width);
        proof {
            let reply = choose|reply: RenderReply|
                #![trigger old(self)@.page().rendered(width as int, reply)]
                {
                    &&& old(self)@.page().heard(renderer, width as int, reply)
                    &&& self.tabs@[self.active as int]@ == old(self)@.page().rendered(
                        width as int,
                        reply,
                    )
                    &&& fault_of(r) == old(self)@.page().render_fault(width as int, reply)
                };
            assert(self@.tabs =~= old(self)@.tabs.update(
                old(self)@.active,
                old(self)@.page().rendered(width as int, reply),
            ));
        }
        r
    }

    /// After a render, fits the scroll position of the active page to the
    /// viewport; after an error, leaves the session alone and hands the
    /// error back.
    fn fit_after(&mut self, outcome: Result<(), RenderError>, viewport_height: usize) -> (r:
        Result<(), RenderError>)
        ensures
            final(self)@ == if fault_of(outcome) is None {
                old(self)@.fitted(viewport_height as int)
            } else {
                old(self)@
            },
            fault_of(r) == fault_of(outcome),
    {
        match outcome {
            Ok(()) => {
                self.clamp_scroll(viewport_height);
                Ok(())
            },
            Err(error) => Err(error),
        }
    }

    /// Ends, for an action, the showing of the active page: fits the
    /// scroll position to the viewport, takes a recoverable error for the
    /// status message, and hands any other error back.
    fn settle(&mut self, outcome: Result<(), RenderError>, viewport_height: usize) -> (r: Result<
        (),
        RenderError,
    >)
        ensures
            final(self)@ == old(self)@.fitted(viewport_height as int).noting(fault_of(outcome)),
            fault_of(r) == AppView::fatal(fault_of(outcome)),
    {
        self.clamp_scroll(viewport_height);
        match outcome {
            Ok(()) => Ok(()),
            Err(error) => {
                if error.is_recoverable() {
                    self.status = Some(error.message());
                    Ok(())
                } else {
                    Err(error)
                }
            },
        }
    }

    /// Shows the active page, given what the renderer answered for it.
    ///
    /// The answer goes to the page (see `ManPage::apply_render`). With
    /// lines, or where no render was needed, the scroll position is fitted
    /// to the viewport. An error is handed back, and the session is as
    /// before. Without an active page nothing happens.
    pub fn apply_show(
        &mut self,
        width: u16,
        viewport_height: usize,
        answer: Result<Vec<String>, RenderError>,
    ) -> (r: Result<(), RenderError>)
        ensures
            final(self)@ == old(self)@.resized(
                width as int,
                viewport_height as int,
                reply_of(answer),
            ),
            fault_of(r) == old(self)@.resize_fault(width as int, reply_of(answer)),
            old(self).wf() ==> final(self).wf(),
    {
        if self.active >= self.tabs.len() {
            return Ok(());
        }
        proof {
            lemma_page_put(
                old(self)@,
                old(self)@.page().rendered(width as int, reply_of(answer)),
                viewport_height as int,
            );
            if old(self).wf() {
                lemma_resized(old(self)@, width as int, viewport_height as int, reply_of(answer));
            }
        }
        let outcome = self.render_active_with(width, answer);
        self.fit_after(outcome, viewport_height)
    }

    /// Shows the active page at `width`: renders it if its cache does not
    /// fit, and fits the scroll position to the viewport.
    ///
    /// The session then is what `apply_show` makes of the renderer's
    /// answer: every error of the renderer is handed back, and the session
    /// is then as before.
    pub fn resize_active<R: ManRenderer + ?Sized>(
        &mut self,
        renderer: &R,
        width: u16,
        viewport_height: usize,
    ) -> (r: Result<(), RenderError>)
        ensures
            exists|reply: RenderReply|
                #![trigger old(self)@.resized(width as int, viewport_height as int, reply)]
                {
                    &&& old(self)@.heard(renderer, width as int, reply)
                    &&& final(self)@ == old(self)@.resized(
                        width as int,
                        viewport_height as int,
                        reply,
                    )
                    &&& fault_of(r) == old(self)@.resize_fault(width as int, reply)
                },
            old(self).wf() ==> final(self).wf(),
    {
        if self.active >= self.tabs.len() {
            proof {
                let reply: RenderReply = Ok(Seq::empty());
                assert(self@ == old(self)@.resized(width as int, viewport_height as int, reply));
            }
            return Ok(());
        }
        let outcome = self.render_active(renderer, width);
        let ghost mid = self@;
        let r = self.fit_after(outcome, viewport_height);
        proof {
            let reply = choose|reply: RenderReply|
                #![trigger old(self)@.page().rendered(width as int, reply)]
                {
                    &&& old(self)@.page().heard(renderer, width as int, reply)
                    &&& mid == old(self)@.with_page(
                        old(self)@.page().rendered(width as int, reply),
                    )
                    &&& fault_of(outcome) == old(self)@.page().render_fault(width as int, reply)
                };
            lemma_page_put(
                old(self)@,
                old(self)@.page().rendered(width as int, reply),
                viewport_height as int,
            );
            assert(self@ == old(self)@.resized(width as int, viewport_height as int, reply));
            if old(self).wf() {
                lemma_resized(old(self)@, width as int, viewport_height as int, reply);
            }
        }
        r
    }

    /// Makes the tab on the left active, the last one from the first.
    fn turn_left(&mut self)
        ensures
            final(self)@ == old(self)@.turned_left(),
            old(self).wf() ==> final(self).wf(),
    {
        if self.tabs.len() > 0 {
            if self.active == 0 {
                self.active = self.tabs.len() - 1;
            } else {
                self.active -= 1;
            }
        }
    }

    /// Makes the tab on the right active, the first one from the last.
    fn turn_right(&mut self)
        ensures
            final(self)@ == old(self)@.turned_right(),
            old(self).wf() ==> final(self).wf(),
    {
        if self.tabs.len() > 0 {
            if self.active >= self.tabs.len() - 1 {
                self.active = 0;
            } else {
                self.active += 1;
            }
        }
    }

    /// Switches to the tab on the left and shows it. An error of the
    /// renderer is handed back; the tab is then active as it was left.
    fn switch_tab_left<R: ManRenderer + ?Sized>(
        &mut self,
        renderer: &R,
        width: u16,
        viewport_height: usize,
    ) -> (r: Result<(), RenderError>)
        ensures
            exists|reply: RenderReply|
                #![trigger old(self)@.turned_left().resized(
                    width as int,
                    viewport_height as int,
                    reply,
                )]
                {
                    &&& old(self)@.turned_left().heard(renderer, width as int, reply)
                    &&& final(self)@ == old(self)@.turned_left().resized(
                        width as int,
                        viewport_height as int,
                        reply,
                    )
                    &&& fault_of(r) == old(self)@.turned_left().resize_fault(width as int, reply)
                },
            old(self).wf() ==> final(self).wf(),
    {
        self.turn_left();
        self.resize_active(renderer, width, viewport_height)
    }

    /// Switches to the tab on the right and shows it. An error of the
    /// renderer is handed back; the tab is then active as it was left.
    fn switch_tab_right<R: ManRenderer + ?Sized>(
        &mut self,
        renderer: &R,
        width: u16,
        viewport_height: usize,
    ) -> (r: Result<(), RenderError>)
        ensures
            exists|reply: RenderReply|
                #![trigger old(self)@.turned_right().resized(
                    width as int,
                    viewport_height as int,
                    reply,
                )]
                {
                    &&& old(self)@.turned_right().heard(renderer, width as int, reply)
                    &&& final(self)@ == old(self)@.turned_right().resized(
                        width as int,
                        viewport_height as int,
                        reply,
                    )
                    &&& fault_of(r) == old(self)@.turned_right().resize_fault(width as int, reply)
                },
            old(self).wf() ==> final(self).wf(),
    {
        self.turn_right();
        self.resize_active(renderer, width, viewport_height)
    }

    /// Shows the tab that an action makes active: the tab on the left or on
    /// the right for a tab switch, the active tab for any other action.
    fn show_turned<R: ManRenderer + ?Sized>(
        &mut self,
        action: Action,
        renderer: &R,
        width: u16,
        viewport_height: usize,
    ) -> (r: Result<(), RenderError>)
        ensures
            exists|reply: RenderReply|
                #![trigger old(self)@.turned(action).resized(
                    width as int,
                    viewport_height as int,
                    reply,
                )]
                {
                    &&& old(self)@.turned(action).heard(renderer, width as int, reply)
                    &&& final(self)@ == old(self)@.turned(action).resized(
                        width as int,
                        viewport_height as int,
                        reply,
                    )
                    &&& fault_of(r) == old(self)@.turned(action).resize_fault(width as int, reply)
                },
    {
        match action {
            Action::TabLeft => self.switch_tab_left(renderer, width, viewport_height),
            Action::TabRight => self.switch_tab_right(renderer, width, viewport_height),
            _ => self.resize_active(renderer, width, viewport_height),
        }
    }

    /// Takes the active tab away and makes the tab behind it active, or
    /// the last one if there is none behind it.
    fn remove_active(&mut self)
        ensures
            final(self)@ == old(self)@.closed(),
            old(self).wf() ==> final(self).wf(),
    {
        proof {
            if old(self).wf() {
                lemma_closed_wf(old(self)@);
            }
        }
        if self.active < self.tabs.len() {
            let _ = self.tabs.remove(self.active);
            if self.active >= self.tabs.len() {
                self.active = if self.tabs.len() == 0 { 0 } else { self.tabs.len() - 1 };
            }
            proof {
                assert(self@.tabs =~= old(self)@.tabs.remove(old(self)@.active));
            }
        }
    }

    /// Closes the active tab and shows the tab that becomes active.
    /// Without tabs nothing happens. An error of the renderer is handed
    /// back; the tab is then closed all the same.
    pub fn close_active<R: ManRenderer + ?Sized>(
        &mut self,
        renderer: &R,
        width: u16,
        viewport_height: usize,
    ) -> (r: Result<(), RenderError>)
        ensures
            exists|reply: RenderReply|
                #![trigger old(self)@.closed().resized(width as int, viewport_height as int, reply)]
                {
                    &&& old(self)@.closed().heard(renderer, width as int, reply)
                    &&& final(self)@ == old(self)@.closed().resized(
                        width as int,
                        viewport_height as int,
                        reply,
                    )
                    &&& fault_of(r) == old(self)@.closed().resize_fault(width as int, reply)
                },
            old(self).wf() ==> final(self).wf(),
    {
        self.remove_active();
        self.resize_active(renderer, width, viewport_height)
    }

    /// Puts a new, empty page behind the tabs and makes it active.
    fn append_page(&mut self, name: &str, section: Option<String>)
        ensures
            final(self)@ == old(self)@.appended(name@, opt_text(section)),
            final(self)@.has_page(),
            final(self).tabs.len() > 0,
            final(self).active == final(self).tabs.len() - 1,
    {
        self.tabs.push(ManPage::new(name, section));
        self.active = self.tabs.len() - 1;
        proof {
            assert(self@.tabs =~= old(self)@.tabs.push(
                PageView::fresh(name@, opt_text(section)),
            ));
        }
    }

    /// Ends the opening of a page, which is the last tab and active. After
    /// a render the scroll position is fitted to the viewport. After a
    /// recoverable error the page is taken away again, the last tab is
    /// active, and the error is the status message. Any other error is
    /// handed back.
    fn finish_open(&mut self, outcome: Result<(), RenderError>, viewport_height: usize) -> (r:
        Result<(), RenderError>)
        requires
            old(self).tabs.len() > 0,
            old(self).active == old(self).tabs.len() - 1,
        ensures
            final(self)@ == match fault_of(outcome) {
                None => old(self)@.fitted(viewport_height as int),
                Some(fault) => if fault.recoverable() {
                    old(self)@.dropped_last().with_status(Some(fault.message()))
                } else {
                    old(self)@
                },
            },
            fault_of(r) == AppView::fatal(fault_of(outcome)),
    {
        match outcome {
            Ok(()) => {
                self.clamp_scroll(viewport_height);
                Ok(())
            },
            Err(error) => {
                if error.is_recoverable() {
                    let _ = self.tabs.pop();
                    self.active = if self.tabs.len() == 0 { 0 } else { self.tabs.len() - 1 };
                    proof {
                        assert(self@.tabs =~= old(self)@.tabs.drop_last());
                    }
                    self.status = Some(error.message());
                    Ok(())
                } else {
                    Err(error)
                }
            },
        }
    }

    /// Opens page `name`, given what the renderer answered for it.
    ///
    /// The page is put behind the tabs and made active. With lines it is
    /// rendered and fitted to the viewport. With a recoverable error it is
    /// taken away again: the tabs are as they were, the last of them is
    /// active, and the error is the status message. Any other error is
    /// handed back, and the page stays.
    pub fn apply_open(
        &mut self,
        name: &str,
        section: Option<String>,
        width: u16,
        viewport_height: usize,
        answer: Result<Vec<String>, RenderError>,
    ) -> (r: Result<(), RenderError>)
        ensures
            final(self)@ == old(self)@.opened(
                name@,
                opt_text(section),
                width as int,
                viewport_height as int,
                reply_of(answer),
            ),
            fault_of(r) == AppView::open_fault(reply_of(answer)),
            old(self).wf() ==> final(self).wf(),
    {
        proof {
            lemma_opening(
                old(self)@,
                name@,
                opt_text(section),
                width as int,
                viewport_height as int,
                reply_of(answer),
            );
        }
        self.append_page(name, section);
        let outcome = self.render_active_with(width, answer);
        self.finish_open(outcome, viewport_height)
    }

    /// Opens page `name`: puts it behind the tabs, makes it active and
    /// renders it.
    ///
    /// The renderer is asked once; the session then is what `apply_open`
    /// makes of its answer.
    pub fn open_page<R: ManRenderer + ?Sized>(
        &mut self,
        name: &str,
        section: Option<String>,
        renderer: &R,
        width: u16,
        viewport_height: usize,
    ) -> (r: Result<(), RenderError>)
        ensures
            exists|reply: RenderReply|
                #![trigger old(self)@.opened(
                    name@,
                    opt_text(section),
                    width as int,
                    viewport_height as int,
                    reply,
                )]
                {
                    &&& renderer.answers(name@, opt_text(section), larger(1, width as int), reply)
                    &&& final(self)@ == old(self)@.opened(
                        name@,
                        opt_text(section),
                        width as int,
                        viewport_height as int,
                        reply,
                    )
                    &&& fault_of(r) == AppView::open_fault(reply)
                },
            old(self).wf() ==> final(self).wf(),
    {
        self.append_page(name, section);
        let ghost added = self@;
        let outcome = self.render_active(renderer, width);
        let ghost mid = self@;
        let r = self.finish_open(outcome, viewport_height);
        proof {
            let reply = choose|reply: RenderReply|
                #![trigger added.page().rendered(width as int, reply)]
                {
                    &&& added.page().heard(renderer, width as int, reply)
                    &&& mid == added.with_page(added.page().rendered(width as int, reply))
                    &&& fault_of(outcome) == added.page().render_fault(width as int, reply)
                };
            lemma_opening(
                old(self)@,
                name@,
                opt_text(section),
                width as int,
                viewport_height as int,
                reply,
            );
            assert(self@ == old(self)@.opened(
                name@,
                opt_text(section),
                width as int,
                viewport_height as int,
                reply,
            ));
        }
        r
    }

    /// Opens the pages `pages` one after the other, all under `section`.
    ///
    /// Each page is opened as `open_page` does. A page that is not found
    /// leaves a status message and the run goes on with the next one. An
    /// unrecoverable error ends the run and is handed back.
    pub fn open_pages<R: ManRenderer + ?Sized>(
        &mut self,
        pages: &[String],
        section: Option<String>,
        renderer: &R,
        width: u16,
        viewport_height: usize,
    ) -> (r: Result<(), RenderError>)
        ensures
            exists|renders: Seq<RenderReply>|
                #![trigger old(self)@.opened_from(
                    texts(pages@),
                    0,
                    opt_text(section),
                    width as int,
                    viewport_height as int,
                    renders,
                )]
                {
                    &&& AppView::batch_heard(
                        renderer,
                        texts(pages@),
                        opt_text(section),
                        width as int,
                        renders,
                    )
                    &&& final(self)@ == old(self)@.opened_from(
                        texts(pages@),
                        0,
                        opt_text(section),
                        width as int,
                        viewport_height as int,
                        renders,
                    )
                    &&& fault_of(r) == AppView::batch_fault(pages@.len() as int, 0, renders)
                },
            old(self).wf() ==> final(self).wf(),
    {
        let ghost start = self@;
        let ghost names = texts(pages@);
        let ghost sec = opt_text(section);
        let ghost w = width as int;
        let ghost vh = viewport_height as int;
        let ghost count = pages@.len() as int;
        let ghost mut done: Seq<RenderReply> = Seq::empty();
        let mut i: usize = 0;
        while i < pages.len()
            invariant
                i <= pages.len(),
                done.len() == i,
                start == old(self)@,
                AppView::batch_heard(renderer, names.take(i as int), sec, w, done),
                start.wf() ==> self.wf(),
                names == texts(pages@),
                sec == opt_text(section),
                w == width as int,
                vh == viewport_height as int,
                count == pages@.len(),
                forall|rest: Seq<RenderReply>|
                    #![trigger done + rest]
                    start.opened_from(names, 0, sec, w, vh, done + rest) == self@.opened_from(
                        names,
                        i as int,
                        sec,
                        w,
                        vh,
                        done + rest,
                    ),
                forall|rest: Seq<RenderReply>|
                    #![trigger done + rest]
                    AppView::batch_fault(count, 0, done + rest) == AppView::batch_fault(
                        count,
                        i as int,
                        done + rest,
                    ),
            decreases pages.len() - i,
        {
            let ghost before = self@;
            let ghost prior = done;
            let kept = section.clone();
            let outcome = self.open_page(
                pages[i].as_str(),
                kept,
                renderer,
                width,
                viewport_height,
            );
            let ghost reply = choose|reply: RenderReply|
                #![trigger before.opened(names[i as int], sec, w, vh, reply)]
                {
                    &&& renderer.answers(names[i as int], sec, larger(1, w), reply)
                    &&& self@ == before.opened(names[i as int], sec, w, vh, reply)
                    &&& fault_of(outcome) == AppView::open_fault(reply)
                };
            proof {
                done = prior.push(reply);
                assert forall|rest: Seq<RenderReply>|
                    #![trigger done + rest]
                    start.opened_from(names, 0, sec, w, vh, done + rest) == (if AppView::open_fault(
                        reply,
                    ) is Some {
                        self@
                    } else {
                        self@.opened_from(names, i + 1, sec, w, vh, done + rest)
                    }) && AppView::batch_fault(count, 0, done + rest) == (if AppView::open_fault(
                        reply,
                    ) is Some {
                        AppView::open_fault(reply)
                    } else {
                        AppView::batch_fault(count, i + 1, done + rest)
                    }) by {
                    let tail = seq![reply] + rest;
                    assert(done + rest =~= prior + tail);
                    assert(reply_at(prior + tail, i as int) == reply);
                }
                assert forall|k: int| 0 <= k < done.len() implies renderer.answers(
                    names[k],
                    sec,
                    larger(1, w),
                    #[trigger] done[k],
                ) by {
                    if k < i {
                        assert(done[k] == prior[k]);
                        assert(names.take(i as int)[k] == names[k]);
                    }
                }
                assert(AppView::batch_heard(renderer, names.take(i + 1), sec, w, done)) by {
                    assert forall|k: int| 0 <= k < done.len() implies renderer.answers(
                        names.take(i + 1)[k],
                        sec,
                        larger(1, w),
                        #[trigger] done[k],
                    ) by {
                        assert(names.take(i + 1)[k] == names[k]);
                    }
                }
            }
            match outcome {
                Ok(()) => {},
                Err(error) => {
                    proof {
                        assert(done[done.len() - 1] == reply);
                        assert(AppView::batch_heard(renderer, names, sec, w, done));
                        assert(done + Seq::<RenderReply>::empty() =~= done);
                        assert(self@ == start.opened_from(
                            names,
                            0,
                            sec,
                            w,
                            vh,
                            done + Seq::<RenderReply>::empty(),
                        ));
                    }
                    return Err(error);
                },
            }
            i += 1;
        }
        proof {
            assert(names.take(i as int) =~= names);
            assert(done + Seq::<RenderReply>::empty() =~= done);
            assert(self@ == start.opened_from(
                names,
                0,
                sec,
                w,
                vh,
                done + Seq::<RenderReply>::empty(),
            ));
        }
        Ok(())
    }

    /// Carries out a command.
    ///
    /// `man` opens its pages, `help` shows the help, `wipe` closes the
    /// active tab, `quit` ends the session, and a keyword that is no
    /// command becomes the status message.
    pub fn execute_command<R: ManRenderer + ?Sized>(
        &mut self,
        command: ParsedCommand,
        renderer: &R,
        width: u16,
        viewport_height: usize,
    ) -> (r: Result<UpdateOutcome, RenderError>)
        ensures
            exists|renders: Seq<RenderReply>|
                #![trigger old(self)@.executed(
                    command@,
                    width as int,
                    viewport_height as int,
                    renders,
                )]
                {
                    &&& old(self)@.command_heard(renderer, command@, width as int, renders)
                    &&& final(self)@ == old(self)@.executed(
                        command@,
                        width as int,
                        viewport_height as int,
                        renders,
                    )
                    &&& result_of(r) == result_from(
                        AppView::command_outcome(command@),
                        old(self)@.execute_fault(command@, width as int, renders),
                    )
                },
            old(self).wf() ==> final(self).wf(),
    {
        let ghost w = width as int;
        let ghost vh = viewport_height as int;
        let ghost none = Seq::<RenderReply>::empty();
        match command {
            ParsedCommand::Man { pages, section } => {
                let ghost names = texts(pages@);
                let ghost sec = opt_text(section);
                let opened = self.open_pages(
                    pages.as_slice(),
                    section,
                    renderer,
                    width,
                    viewport_height,
                );
                proof {
                    let renders = choose|renders: Seq<RenderReply>|
                        #![trigger old(self)@.opened_from(names, 0, sec, w, vh, renders)]
                        {
                            &&& AppView::batch_heard(renderer, names, sec, w, renders)
                            &&& self@ == old(self)@.opened_from(names, 0, sec, w, vh, renders)
                            &&& fault_of(opened) == AppView::batch_fault(
                                names.len() as int,
                                0,
                                renders,
                            )
                        };
                    assert(self@ == old(self)@.executed(command@, w, vh, renders));
                }
                match opened {
                    Ok(()) => Ok(UpdateOutcome::Continue),
                    Err(error) => Err(error),
                }
            },
            ParsedCommand::Help => {
                self.mode = Mode::Help;
                assert(self@ == old(self)@.executed(command@, w, vh, none));
                Ok(UpdateOutcome::Continue)
            },
            ParsedCommand::Quit => {
                assert(self@ == old(self)@.executed(command@, w, vh, none));
                Ok(UpdateOutcome::Quit)
            },
            ParsedCommand::Wipe => {
                let closed = self.close_active(renderer, width, viewport_height);
                let ghost mid = self@;
                let settled = self.settle(closed, viewport_height);
                proof {
                    let base = old(self)@.closed();
                    let reply = choose|reply: RenderReply|
                        #![trigger base.resized(w, vh, reply)]
                        {
                            &&& base.heard(renderer, w, reply)
                            &&& mid == base.resized(w, vh, reply)
                            &&& fault_of(closed) == base.resize_fault(w, reply)
                        };
                    lemma_settled(base, w, vh, reply);
                    assert(reply_at(seq![reply], 0) == reply);
                    assert(self@ == old(self)@.executed(command@, w, vh, seq![reply]));
                    if old(self).wf() {
                        lemma_executed(old(self)@, command@, w, vh, seq![reply]);
                    }
                }
                match settled {
                    Ok(()) => Ok(UpdateOutcome::Continue),
                    Err(error) => Err(error),
                }
            },
            ParsedCommand::Empty => {
                assert(self@ == old(self)@.executed(command@, w, vh, none));
                Ok(UpdateOutcome::Continue)
            },
            ParsedCommand::Unknown(keyword) => {
                self.status = Some("unknown command: ".to_owned().concat(keyword.as_str()));
                assert(self@ == old(self)@.executed(command@, w, vh, none));
                Ok(UpdateOutcome::Continue)
            },
        }
    }

    /// Opens what the arguments of the program ask for: nothing without
    /// arguments, one page for one argument, and for more what the probe
    /// makes of them, as the command `man` does.
    pub fn open_args<R: ManRenderer + ?Sized, P: SectionProbe + ?Sized>(
        &mut self,
        args: &[String],
        renderer: &R,
        probe: &P,
        width: u16,
        viewport_height: usize,
    ) -> (r: Result<(), RenderError>)
        ensures
            exists|asked: ProbeReply, renders: Seq<RenderReply>|
                #![trigger old(self)@.executed(
                    targets(texts(args@), asked),
                    width as int,
                    viewport_height as int,
                    renders,
                )]
                {
                    &&& probe_heard(probe, texts(args@), asked)
                    &&& old(self)@.command_heard(
                        renderer,
                        targets(texts(args@), asked),
                        width as int,
                        renders,
                    )
                    &&& final(self)@ == old(self)@.executed(
                        targets(texts(args@), asked),
                        width as int,
                        viewport_height as int,
                        renders,
                    )
                    &&& fault_of(r) == old(self)@.execute_fault(
                        targets(texts(args@), asked),
                        width as int,
                        renders,
                    )
                },
            old(self).wf() ==> final(self).wf(),
    {
        let command = open_targets(args, probe);
        let ghost asked = choose|asked: ProbeReply|
            #![trigger targets(texts(args@), asked)]
            {
                &&& probe_heard(probe, texts(args@), asked)
                &&& command@ == targets(texts(args@), asked)
            };
        let done = self.execute_command(command, renderer, width, viewport_height);
        proof {
            let renders = choose|renders: Seq<RenderReply>|
                #![trigger old(self)@.executed(
                    command@,
                    width as int,
                    viewport_height as int,
                    renders,
                )]
                {
                    &&& old(self)@.command_heard(renderer, command@, width as int, renders)
                    &&& self@ == old(self)@.executed(
                        command@,
                        width as int,
                        viewport_height as int,
                        renders,
                    )
                    &&& result_of(done) == result_from(
                        AppView::command_outcome(command@),
                        old(self)@.execute_fault(command@, width as int, renders),
                    )
                };
            assert(self@ == old(self)@.executed(
                targets(texts(args@), asked),
                width as int,
                viewport_height as int,
                renders,
            ));
        }
        match done {
            Ok(_) => Ok(()),
            Err(error) => Err(error),
        }
    }

    /// Applies one action to the session.
    ///
    /// The status message is cleared first, unless the action is a resize
    /// or a quit. `width` and `viewport_height` are the room that the text
    /// has on the screen. The session ends with `Quit` only after the
    /// action `Quit` and after a submitted `quit` command. A page that is
    /// not found leaves a status message; an error of the renderer that is
    /// not recoverable is handed back.
    pub fn update<R: ManRenderer + ?Sized, P: SectionProbe + ?Sized>(
        &mut self,
        action: Action,
        renderer: &R,
        probe: &P,
        width: u16,
        viewport_height: usize,
    ) -> (r: Result<UpdateOutcome, RenderError>)
        ensures
            exists|asked: ProbeReply, renders: Seq<RenderReply>|
                #![trigger old(self)@.stepped(
                    action,
                    width as int,
                    viewport_height as int,
                    asked,
                    renders,
                )]
                {
                    &&& action is CommandSubmit ==> line_heard(
                        probe,
                        old(self)@.command_line(),
                        asked,
                    )
                    &&& old(self)@.step_heard(renderer, action, width as int, asked, renders)
                    &&& final(self)@ == old(self)@.stepped(
                        action,
                        width as int,
                        viewport_height as int,
                        asked,
                        renders,
                    )
                    &&& result_of(r) == result_from(
                        old(self)@.step_outcome(action, asked),
                        old(self)@.step_fault(action, width as int, asked, renders),
                    )
                },
            old(self).wf() ==> final(self).wf(),
            old(self).wf() && keeps_fit(action) && (old(self)@.fits(viewport_height as int)
                || refits(action)) ==> final(self)@.fits(viewport_height as int),
    {
        let ghost w = width as int;
        let ghost vh = viewport_height as int;
        let ghost start = self@;
        let ghost none = Seq::<RenderReply>::empty();
        let ghost quiet: ProbeReply = Ok(false);
        match action {
            Action::Resize(_, _) => {},
            Action::Quit => {},
            _ => {
                self.status = None;
            },
        }
        let ghost s = self@;
        assert(s == start.cleared_for(action));
        match action {
            Action::Quit => {
                assert(self@ == start.stepped(action, w, vh, quiet, none));
                proof {
                    if start.wf() {
                        lemma_update(start, action, width, viewport_height, quiet, none);
                    }
                }
                return Ok(UpdateOutcome::Quit);
            },
            Action::ScrollUp(amount) => self.scroll_up(amount),
            Action::ScrollDown(amount) => self.scroll_down(amount, viewport_height),
            Action::PageUp => self.page_up(viewport_height),
            Action::PageDown => self.page_down(viewport_height),
            Action::HalfPageUp => self.half_page_up(viewport_height),
            Action::HalfPageDown => self.half_page_down(viewport_height),
            Action::GoTop => self.go_top(),
            Action::GoBottom => self.go_bottom(viewport_height),
            Action::EnterCommandMode => self.enter_command_mode(),
            Action::CommandChar(value) => self.command_char(value),
            Action::CommandBackspace => self.command_backspace(),
            Action::CommandCancel => {
                self.mode = Mode::Normal;
            },
            Action::EnterSearchMode => self.enter_search_mode(),
            Action::SearchChar(value) => self.search_char(value, viewport_height),
            Action::SearchBackspace => self.search_backspace(viewport_height),
            Action::SearchSubmit => self.search_submit(viewport_height),
            Action::SearchCancel => self.search_cancel(viewport_height),
            Action::SearchNext => self.search_next(viewport_height),
            Action::SearchPrev => self.search_prev(viewport_height),
            Action::SearchClear => self.search_clear(),
            Action::EnterHelpMode => {
                self.mode = Mode::Help;
            },
            Action::ExitHelpMode => {
                match &self.mode {
                    Mode::Help => {
                        self.mode = Mode::Normal;
                    },
                    _ => {},
                }
            },
            Action::Resize(_, _) | Action::TabLeft | Action::TabRight => {
                let shown = self.show_turned(action, renderer, width, viewport_height);
                let ghost mid = self@;
                let settled = self.settle(shown, viewport_height);
                proof {
                    let base = s.turned(action);
                    let reply = choose|reply: RenderReply|
                        #![trigger base.resized(w, vh, reply)]
                        {
                            &&& base.heard(renderer, w, reply)
                            &&& mid == base.resized(w, vh, reply)
                            &&& fault_of(shown) == base.resize_fault(w, reply)
                        };
                    lemma_settled(base, w, vh, reply);
                    assert(reply_at(seq![reply], 0) == reply);
                    assert(self@ == start.stepped(action, w, vh, quiet, seq![reply]));
                    if start.wf() {
                        lemma_update(start, action, width, viewport_height, quiet, seq![reply]);
                    }
                }
                return match settled {
                    Ok(()) => Ok(UpdateOutcome::Continue),
                    Err(error) => Err(error),
                };
            },
            Action::CommandSubmit => {
                let line: String = match &self.mode {
                    Mode::Command { line } => line.clone(),
                    Mode::Search { line, previous } => line.clone(),
                    _ => String::new(),
                };
                self.mode = Mode::Normal;
                let ghost cleared = self@;
                let command = parse_command(line.as_str(), probe);
                let ghost asked = choose|asked: ProbeReply|
                    #![trigger parsed(line@, asked)]
                    {
                        &&& line_heard(probe, line@, asked)
                        &&& command@ == parsed(line@, asked)
                    };
                let done = self.execute_command(command, renderer, width, viewport_height);
                proof {
                    let renders = choose|renders: Seq<RenderReply>|
                        #![trigger cleared.executed(command@, w, vh, renders)]
                        {
                            &&& cleared.command_heard(renderer, command@, w, renders)
                            &&& self@ == cleared.executed(command@, w, vh, renders)
                            &&& result_of(done) == result_from(
                                AppView::command_outcome(command@),
                                cleared.execute_fault(command@, w, renders),
                            )
                        };
                    assert(self@ == start.stepped(action, w, vh, asked, renders));
                    if start.wf() {
                        lemma_update(start, action, width, viewport_height, asked, renders);
                    }
                }
                return done;
            },
        }
        assert(self@ == start.stepped(action, w, vh, quiet, none));
        proof {
            if start.wf() {
                lemma_update(start, action, width, viewport_height, quiet, none);
            }
        }
        Ok(UpdateOutcome::Continue)
    }

    /// Puts the current hit of the active page, if it has one, in the
    /// middle of the viewport.
    fn land(&mut self, viewport_height: usize)
        ensures
            final(self)@ == old(self)@.landed(viewport_height as int),
    {
        if self.active < self.tabs.len() {
            match self.tabs[self.active].current_match_line() {
                Some(line) => {
                    self.center_on_line(line, viewport_height);
                },
                None => {},
            }
        }
    }

    /// Searches the active page for `line`, anchored at its scroll
    /// position, and puts the hit that became current in the middle of the
    /// viewport.
    fn apply_search(&mut self, line: &str, viewport_height: usize)
        ensures
            final(self)@ == old(self)@.searched(line@, viewport_height as int),
    {
        if self.active < self.tabs.len() {
            let start_line: usize = self.tabs[self.active].scroll;
            self.tabs[self.active].update_search(Some(line.to_owned()), start_line);
            proof {
                assert(self@.tabs =~= old(self)@.tabs.update(
                    old(self)@.active,
                    old(self)@.page().searched(Some(line@), old(self)@.page().scroll),
                ));
            }
        }
        self.land(viewport_height);
    }

    fn enter_command_mode(&mut self)
        ensures
            final(self)@ == old(self)@.command_entered(),
    {
        self.mode = Mode::Command { line: String::new() };
    }

    fn command_char(&mut self, value: char)
        ensures
            final(self)@ == old(self)@.command_typed(value),
    {
        match &mut self.mode {
            Mode::Command { line } => {
                line.push(value);
            },
            _ => {},
        }
    }

    fn command_backspace(&mut self)
        ensures
            final(self)@ == old(self)@.command_erased(),
    {
        match &mut self.mode {
            Mode::Command { line } => {
                let _ = line.pop();
            },
            _ => {},
        }
    }

    fn enter_search_mode(&mut self)
        ensures
            final(self)@ == old(self)@.search_entered(),
    {
        let previous: Option<String> = match self.search_query() {
            Some(query) => Some(query.to_owned()),
            None => None,
        };
        self.mode = Mode::Search { line: String::new(), previous };
    }

    fn search_char(&mut self, value: char, viewport_height: usize)
        ensures
            final(self)@ == old(self)@.search_typed(value, viewport_height as int),
    {
        let query: String = match &mut self.mode {
            Mode::Search { line, previous } => {
                line.push(value);
                line.clone()
            },
            _ => { return ; },
        };
        self.apply_search(query.as_str(), viewport_height);
    }

    fn search_backspace(&mut self, viewport_height: usize)
        ensures
            final(self)@ == old(self)@.search_erased(viewport_height as int),
    {
        let query: String = match &mut self.mode {
            Mode::Search { line, previous } => {
                let _ = line.pop();
                line.clone()
            },
            _ => { return ; },
        };
        self.apply_search(query.as_str(), viewport_height);
    }

    fn search_submit(&mut self, viewport_height: usize)
        ensures
            final(self)@ == old(self)@.search_submitted(viewport_height as int),
    {
        let query: String = match &self.mode {
            Mode::Search { line, previous } => line.clone(),
            _ => { return ; },
        };
        self.apply_search(query.as_str(), viewport_height);
        self.mode = Mode::Normal;
    }

    fn search_cancel(&mut self, viewport_height: usize)
        ensures
            final(self)@ == old(self)@.search_cancelled(viewport_height as int),
    {
        let previous: Option<String> = match &self.mode {
            Mode::Search { line, previous } => previous.clone(),
            _ => { return ; },
        };
        match previous {
            Some(query) => {
                self.apply_search(query.as_str(), viewport_height);
            },
            None => {
                self.search_clear();
            },
        }
        self.mode = Mode::Normal;
    }

    fn search_next(&mut self, viewport_height: usize)
        ensures
            final(self)@ == old(self)@.search_next(viewport_height as int),
    {
        if self.active < self.tabs.len() {
            let _ = self.tabs[self.active].next_match_line();
            proof {
                assert(self@.tabs =~= old(self)@.tabs.update(
                    old(self)@.active,
                    old(self)@.page().advanced(),
                ));
            }
        }
        self.land(viewport_height);
    }

    fn search_prev(&mut self, viewport_height: usize)
        ensures
            final(self)@ == old(self)@.search_prev(viewport_height as int),
    {
        if self.active < self.tabs.len() {
            let _ = self.tabs[self.active].previous_match_line();
            proof {
                assert(self@.tabs =~= old(self)@.tabs.update(
                    old(self)@.active,
                    old(self)@.page().retreated(),
                ));
            }
        }
        self.land(viewport_height);
    }

    fn search_clear(&mut self)
        ensures
            final(self)@ == old(self)@.search_cleared(),
    {
        if self.active < self.tabs.len() {
            self.tabs[self.active].clear_search();
            proof {
                assert(self@.tabs =~= old(self)@.tabs.update(
                    old(self)@.active,
                    old(self)@.page().cleared(),
                ));
            }
        }
    }

    /// Puts line `line` in the middle of the viewport, as far as the ends
    /// of the page allow.
    fn center_on_line(&mut self, line: usize, viewport_height: usize)
        ensures
            final(self)@ == old(self)@.centered(line as int, viewport_height as int),
    {
        let half: usize = viewport_height / 2;
        let most: usize = self.max_scroll(viewport_height);
        let wanted: usize = if line >= half { line - half } else { 0 };
        let next: usize = if wanted <= most { wanted } else { most };
        self.set_scroll(next);
    }
}

} // verus!
