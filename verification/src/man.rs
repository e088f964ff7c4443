//! One opened page: its identity, its rendered lines, its scroll position
//! and its search state.

use crate::render::{
    reply_of,
    safe_width,
    ManRenderer,
    RenderError,
    RenderFault,
    RenderReply,
};
use crate::search::{all_hits, anchor, anchor_index, collect_matches, hits_of, Hit, SearchMatch};
use crate::text::{opt_str, opt_text, texts};
use vstd::prelude::*;

verus! {

/// The lines of a page as they were rendered for one width. Width 0 means
/// that the page was never rendered.
#[derive(Debug, Clone)]
pub struct RenderCache {
    pub width: u16,
    pub lines: Vec<String>,
}

impl RenderCache {
    /// The cache of a page that was never rendered.
    pub fn empty() -> (cache: Self)
        ensures
            cache.width == 0,
            cache.lines@.len() == 0,
    {
        Self { width: 0, lines: Vec::new() }
    }
}

/// The larger of two integers.
pub open spec fn larger(a: int, b: int) -> int {
    if a >= b {
        a
    } else {
        b
    }
}

/// The smaller of two integers.
pub open spec fn smaller(a: int, b: int) -> int {
    if a <= b {
        a
    } else {
        b
    }
}

/// `value` brought into the range from `low` to `high`.
pub open spec fn clamped(value: int, low: int, high: int) -> int {
    smaller(larger(value, low), high)
}

/// What a page is: the mathematical value that the contracts speak of.
pub struct PageView {
    pub name: Seq<char>,
    pub section: Option<Seq<char>>,
    pub scroll: int,
    pub width: int,
    pub lines: Seq<Seq<char>>,
    pub query: Option<Seq<char>>,
    pub hits: Seq<Hit>,
    pub index: Option<int>,
}

impl PageView {
    /// A page that was just opened: nothing rendered, nothing searched.
    pub open spec fn fresh(name: Seq<char>, section: Option<Seq<char>>) -> PageView {
        PageView {
            name,
            section,
            scroll: 0,
            width: 0,
            lines: Seq::empty(),
            query: None,
            hits: Seq::empty(),
            index: None,
        }
    }

    /// The search state fits the lines: the hits are those of the query,
    /// and one of them is current exactly if there is any.
    pub open spec fn search_wf(self) -> bool {
        &&& match self.query {
            Some(q) => q.len() > 0 && self.hits == all_hits(self.lines, q),
            None => self.hits.len() == 0,
        }
        &&& match self.index {
            Some(i) => 0 <= i < self.hits.len(),
            None => self.hits.len() == 0,
        }
    }

    /// The page is consistent: the scroll position is a line of the page
    /// (or 0 if it has none) and the search state fits the lines.
    pub open spec fn wf(self) -> bool {
        &&& 0 <= self.scroll <= self.last_line()
        &&& self.search_wf()
    }

    /// Index of the last line, or 0 if there is none.
    pub open spec fn last_line(self) -> int {
        larger(0, self.lines.len() - 1)
    }

    /// The title of the page: its name, followed by its section in round
    /// brackets if it has one.
    pub open spec fn title(self) -> Seq<char> {
        match self.section {
            Some(section) => self.name + seq!['('] + section + seq![')'],
            None => self.name,
        }
    }

    /// The largest scroll position that still fills a viewport of
    /// `viewport_height` rows; a viewport of no rows counts as one row.
    pub open spec fn max_scroll(self, viewport_height: int) -> int {
        larger(0, self.lines.len() - larger(1, viewport_height))
    }

    /// The scroll position leaves the viewport filled.
    pub open spec fn fits(self, viewport_height: int) -> bool {
        0 <= self.scroll <= self.max_scroll(viewport_height)
    }

    /// The renderer has to be asked before the page can be shown at `width`.
    pub open spec fn needs_render(self, width: int) -> bool {
        self.width != larger(1, width) || self.lines.len() == 0
    }

    /// The page with another scroll position.
    pub open spec fn at(self, scroll: int) -> PageView {
        PageView { scroll, ..self }
    }

    /// The page with the scroll position brought down to its last line.
    pub open spec fn clamped(self) -> PageView {
        self.at(smaller(self.scroll, self.last_line()))
    }

    /// The page with the scroll position brought down to what fills the
    /// viewport.
    pub open spec fn fitted(self, viewport_height: int) -> PageView {
        self.at(smaller(self.scroll, self.max_scroll(viewport_height)))
    }

    /// The page scrolled up by `amount` lines, not past the top.
    pub open spec fn scrolled_up(self, amount: int) -> PageView {
        self.at(larger(0, self.scroll - amount))
    }

    /// The page scrolled down by `amount` lines, not past `max_scroll`.
    pub open spec fn scrolled_down(self, amount: int, viewport_height: int) -> PageView {
        self.at(smaller(self.scroll + amount, self.max_scroll(viewport_height)))
    }

    /// The page with line `line` in the middle of the viewport, as far as
    /// the ends of the page allow.
    pub open spec fn centered(self, line: int, viewport_height: int) -> PageView {
        self.at(clamped(line - viewport_height / 2, 0, self.max_scroll(viewport_height)))
    }

    /// The page without any search.
    pub open spec fn cleared(self) -> PageView {
        PageView { query: None, hits: Seq::empty(), index: None, ..self }
    }

    /// The page with its hits found anew for the query it has, the current
    /// hit anchored at line `start`.
    pub open spec fn refreshed(self, start: int) -> PageView {
        match self.query {
            Some(q) => PageView {
                hits: all_hits(self.lines, q),
                index: anchor(all_hits(self.lines, q), start),
                ..self
            },
            None => PageView { hits: Seq::empty(), index: None, ..self },
        }
    }

    /// The page after a search for `query` anchored at line `start`. No
    /// query, or an empty one, ends the search.
    pub open spec fn searched(self, query: Option<Seq<char>>, start: int) -> PageView {
        match query {
            Some(q) => if q.len() == 0 {
                self.cleared()
            } else {
                PageView { query: Some(q), ..self }.refreshed(start)
            },
            None => self.cleared(),
        }
    }

    /// The page with the next hit current, the first one after the last.
    pub open spec fn advanced(self) -> PageView {
        if self.hits.len() == 0 {
            PageView { index: None, ..self }
        } else {
            PageView {
                index: Some(
                    match self.index {
                        Some(i) => (i + 1) % (self.hits.len() as int),
                        None => 0,
                    },
                ),
                ..self
            }
        }
    }

    /// The page with the previous hit current, the last one before the
    /// first.
    pub open spec fn retreated(self) -> PageView {
        if self.hits.len() == 0 {
            PageView { index: None, ..self }
        } else {
            PageView {
                index: Some(
                    match self.index {
                        Some(i) => (i + self.hits.len() - 1) % (self.hits.len() as int),
                        None => 0,
                    },
                ),
                ..self
            }
        }
    }

    /// The line of the current hit.
    pub open spec fn current_line(self) -> Option<int> {
        match self.index {
            Some(i) => if 0 <= i < self.hits.len() {
                Some(self.hits[i].line)
            } else {
                None
            },
            None => None,
        }
    }

    /// The page with new lines, rendered at `width`.
    pub open spec fn installed(self, width: int, lines: Seq<Seq<char>>) -> PageView {
        PageView { width, lines, ..self }
    }

    /// The page with its search found anew at the scroll position, and the
    /// scroll position then brought down to its last line.
    pub open spec fn settled(self) -> PageView {
        if self.query is Some {
            self.refreshed(self.scroll).clamped()
        } else {
            self.clamped()
        }
    }

    /// `reply` is an answer of `renderer` to what making the page ready for
    /// `width` asks it: the page by its name and section, at a width of at
    /// least one column. Where no render is needed nothing is asked, and
    /// any reply will do.
    pub open spec fn heard<R: ManRenderer + ?Sized>(
        self,
        renderer: &R,
        width: int,
        reply: RenderReply,
    ) -> bool {
        self.needs_render(width) ==> renderer.answers(
            self.name,
            self.section,
            larger(1, width),
            reply,
        )
    }

    /// The page after it was made ready for `width`, `reply` being what the
    /// renderer answered. Where no render is needed the reply plays no
    /// part; where the renderer failed the page is as before.
    pub open spec fn rendered(self, width: int, reply: RenderReply) -> PageView {
        if !self.needs_render(width) {
            self.settled()
        } else {
            match reply {
                Ok(lines) => self.installed(larger(1, width), lines).settled(),
                Err(_) => self,
            }
        }
    }

    /// The fault that making the page ready for `width` ends with, `reply`
    /// being what the renderer answered.
    pub open spec fn render_fault(self, width: int, reply: RenderReply) -> Option<RenderFault> {
        if self.needs_render(width) {
            match reply {
                Ok(_) => None,
                Err(fault) => Some(fault),
            }
        } else {
            None
        }
    }
}

/// The fault that a result carries.
pub open spec fn fault_of<T>(result: Result<T, RenderError>) -> Option<RenderFault> {
    match result {
        Ok(_) => None,
        Err(error) => Some(error@),
    }
}

/// An optional index as an unbounded integer.
pub open spec fn opt_int(index: Option<usize>) -> Option<int> {
    match index {
        Some(i) => Some(i as int),
        None => None,
    }
}

/// One opened page.
#[derive(Debug, Clone)]
pub struct ManPage {
    pub(crate) name: String,
    pub(crate) section: Option<String>,
    pub scroll: usize,
    pub(crate) cache: RenderCache,
    pub(crate) search_query: Option<String>,
    pub(crate) search_matches: Vec<SearchMatch>,
    pub(crate) search_index: Option<usize>,
}

impl View for ManPage {
    type V = PageView;

    open(crate) spec fn view(&self) -> PageView {
        PageView {
            name: self.name@,
            section: opt_text(self.section),
            scroll: self.scroll as int,
            width: self.cache.width as int,
            lines: texts(self.cache.lines@),
            query: opt_text(self.search_query),
            hits: hits_of(self.search_matches@),
            index: opt_int(self.search_index),
        }
    }
}

impl ManPage {
    /// The page is consistent.
    pub open spec fn wf(&self) -> bool {
        self@.wf()
    }

    /// A page that was just opened.
    pub fn new(name: &str, section: Option<String>) -> (page: Self)
        ensures
            page@ == PageView::fresh(name@, opt_text(section)),
            page.wf(),
    {
        let page = Self {
            name: name.to_owned(),
            section,
            scroll: 0,
            cache: RenderCache::empty(),
            search_query: None,
            search_matches: Vec::new(),
            search_index: None,
        };
        proof {
            assert(texts(page.cache.lines@) =~= Seq::<Seq<char>>::empty());
            assert(hits_of(page.search_matches@) =~= Seq::<Hit>::empty());
        }
        page
    }

    pub fn name(&self) -> (name: &str)
        ensures
            name@ == self@.name,
    {
        self.name.as_str()
    }

    pub fn section(&self) -> (section: Option<&str>)
        ensures
            opt_str(section) == self@.section,
    {
        match &self.section {
            Some(section) => Some(section.as_str()),
            None => None,
        }
    }

    /// The title of the page: `name(section)`, or the name alone.
    pub fn title(&self) -> (title: String)
        ensures
            title@ == self@.title(),
    {
        match &self.section {
            Some(section) => {
                let title = self.name.clone().concat("(").concat(section.as_str()).concat(")");
                proof {
                    reveal_strlit("(");
                    reveal_strlit(")");
                    assert("("@ =~= seq!['(']);
                    assert(")"@ =~= seq![')']);
                }
                title
            },
            None => self.name.clone(),
        }
    }

    pub fn lines(&self) -> (lines: &[String])
        ensures
            texts(lines@) == self@.lines,
    {
        self.cache.lines.as_slice()
    }

    pub fn line_count(&self) -> (count: usize)
        ensures
            count == self@.lines.len(),
    {
        self.cache.lines.len()
    }

    pub fn search_query(&self) -> (query: Option<&str>)
        ensures
            opt_str(query) == self@.query,
    {
        match &self.search_query {
            Some(query) => Some(query.as_str()),
            None => None,
        }
    }

    pub fn search_matches(&self) -> (found: &[SearchMatch])
        ensures
            hits_of(found@) == self@.hits,
    {
        self.search_matches.as_slice()
    }

    pub fn search_index(&self) -> (index: Option<usize>)
        ensures
            opt_int(index) == self@.index,
    {
        self.search_index
    }

    /// Tells whether the renderer has to be asked before the page can be
    /// shown at `width`: the page was rendered for another width, or has no
    /// lines.
    pub fn needs_render(&self, width: u16) -> (needed: bool)
        ensures
            needed == self@.needs_render(width as int),
    {
        self.cache.width != safe_width(width) || self.cache.lines.len() == 0
    }

    /// Finds the hits anew and clamps the scroll position.
    fn settle(&mut self)
        ensures
            final(self)@ == old(self)@.settled(),
    {
        if self.search_query.is_some() {
            self.refresh_search(self.scroll);
        }
        self.clamp_scroll();
    }

    /// Takes what the renderer answered for `width`.
    ///
    /// Where the page needed no render the answer is dropped. Lines replace
    /// the cache; the search is then run again at the scroll position and
    /// the scroll position clamped. An error leaves the page as it is and
    /// is handed back.
    pub fn apply_render(&mut self, width: u16, answer: Result<Vec<String>, RenderError>) -> (r:
        Result<(), RenderError>)
        ensures
            final(self)@ == old(self)@.rendered(width as int, reply_of(answer)),
            fault_of(r) == old(self)@.render_fault(width as int, reply_of(answer)),
            old(self).wf() ==> final(self).wf(),
    {
        if !self.needs_render(width) {
            self.settle();
            return Ok(());
        }
        match answer {
            Ok(lines) => {
                self.cache = RenderCache { width: safe_width(width), lines };
                self.settle();
                Ok(())
            },
            Err(error) => Err(error),
        }
    }

    /// Makes the page ready to be shown at `width`, asking the renderer if
    /// the cache does not fit.
    ///
    /// The renderer is asked exactly if `needs_render(width)` holds; the
    /// page then is what `apply_render` makes of its answer.
    pub fn ensure_render<R: ManRenderer + ?Sized>(&mut self, renderer: &R, width: u16) -> (r: Result<
        (),
        RenderError,
    >)
        ensures
            exists|reply: RenderReply|
                #![trigger old(self)@.rendered(width as int, reply)]
                {
                    &&& old(self)@.heard(renderer, width as int, reply)
                    &&& final(self)@ == old(self)@.rendered(width as int, reply)
                    &&& fault_of(r) == old(self)@.render_fault(width as int, reply)
                },
            old(self).wf() ==> final(self).wf(),
    {
        let ghost before = self@;
        if self.needs_render(width) {
            let answer = renderer.render(self.name.as_str(), self.section(), safe_width(width));
            let ghost reply = reply_of(answer);
            let r = self.apply_render(width, answer);
            proof {
                assert(self@ == before.rendered(width as int, reply));
            }
            r
        } else {
            self.settle();
            proof {
                let reply: RenderReply = Ok(Seq::empty());
                assert(self@ == before.rendered(width as int, reply));
            }
            Ok(())
        }
    }

    /// Brings the scroll position down to the last line of the page.
    pub fn clamp_scroll(&mut self)
        ensures
            final(self)@ == old(self)@.clamped(),
            old(self)@.search_wf() ==> final(self).wf(),
    {
        if self.cache.lines.len() == 0 {
            self.scroll = 0;
            return ;
        }
        let max_scroll: usize = self.cache.lines.len() - 1;
        if self.scroll > max_scroll {
            self.scroll = max_scroll;
        }
    }

    /// Starts a search for `query`, the current hit anchored at
    /// `start_line`. No query, or an empty one, ends the search.
    pub fn update_search(&mut self, query: Option<String>, start_line: usize)
        ensures
            final(self)@ == old(self)@.searched(opt_text(query), start_line as int),
            old(self).wf() ==> final(self).wf(),
    {
        proof {
            if old(self).wf() {
                crate::laws::lemma_searched_wf(old(self)@, opt_text(query), start_line as int);
            }
        }
        match query {
            None => {
                self.clear_search();
            },
            Some(query) => {
                if query.as_str().unicode_len() == 0 {
                    self.clear_search();
                } else {
                    self.search_query = Some(query);
                    self.refresh_search(start_line);
                }
            },
        }
    }

    /// Ends the search.
    pub fn clear_search(&mut self)
        ensures
            final(self)@ == old(self)@.cleared(),
            old(self).wf() ==> final(self).wf(),
    {
        self.search_query = None;
        self.search_matches.clear();
        self.search_index = None;
        proof {
            assert(hits_of(self.search_matches@) =~= Seq::<Hit>::empty());
        }
    }

    /// Makes the next hit current, the first one after the last, and
    /// returns its line. Without hits there is none.
    pub fn next_match_line(&mut self) -> (line: Option<usize>)
        ensures
            final(self)@ == old(self)@.advanced(),
            opt_int(line) == final(self)@.current_line(),
            old(self).wf() ==> final(self).wf(),
    {
        let count: usize = self.search_matches.len();
        if count == 0 {
            self.search_index = None;
            return None;
        }
        let next: usize = match self.search_index {
            Some(index) => {
                let place: usize = index % count;
                proof {
                    lemma_step_forward(place as int, count as int);
                    vstd::arithmetic::div_mod::lemma_add_mod_noop(index as int, 1, count as int);
                    vstd::arithmetic::div_mod::lemma_add_mod_noop(place as int, 1, count as int);
                    vstd::arithmetic::div_mod::lemma_mod_twice(index as int, count as int);
                }
                if place + 1 == count {
                    0
                } else {
                    place + 1
                }
            },
            None => 0,
        };
        self.search_index = Some(next);
        Some(self.search_matches[next].line)
    }

    /// Makes the previous hit current, the last one before the first, and
    /// returns its line. Without hits there is none.
    pub fn previous_match_line(&mut self) -> (line: Option<usize>)
        ensures
            final(self)@ == old(self)@.retreated(),
            opt_int(line) == final(self)@.current_line(),
            old(self).wf() ==> final(self).wf(),
    {
        let count: usize = self.search_matches.len();
        if count == 0 {
            self.search_index = None;
            return None;
        }
        let next: usize = match self.search_index {
            Some(index) => {
                let place: usize = index % count;
                proof {
                    lemma_step_back(place as int, count as int);
                    vstd::arithmetic::div_mod::lemma_add_mod_noop(
                        index as int,
                        count - 1,
                        count as int,
                    );
                    vstd::arithmetic::div_mod::lemma_add_mod_noop(
                        place as int,
                        count - 1,
                        count as int,
                    );
                    vstd::arithmetic::div_mod::lemma_mod_twice(index as int, count as int);
                }
                if place == 0 {
                    count - 1
                } else {
                    place - 1
                }
            },
            None => 0,
        };
        self.search_index = Some(next);
        Some(self.search_matches[next].line)
    }

    /// The line of the current hit.
    pub fn current_match_line(&self) -> (line: Option<usize>)
        ensures
            opt_int(line) == self@.current_line(),
    {
        match self.search_index {
            Some(index) => if index < self.search_matches.len() {
                Some(self.search_matches[index].line)
            } else {
                None
            },
            None => None,
        }
    }

    /// Finds the hits of the query anew and anchors the current one at
    /// `start_line`.
    fn refresh_search(&mut self, start_line: usize)
        ensures
            final(self)@ == old(self)@.refreshed(start_line as int),
    {
        match &self.search_query {
            None => {
                self.search_matches.clear();
                self.search_index = None;
                proof {
                    assert(hits_of(self.search_matches@) =~= Seq::<Hit>::empty());
                }
            },
            Some(query) => {
                let found = collect_matches(self.cache.lines.as_slice(), query.as_str());
                let index = anchor_index(&found, start_line);
                self.search_matches = found;
                self.search_index = index;
            },
        }
    }
}

/// Going one step forward in a ring of `count` places.
pub proof fn lemma_step_forward(index: int, count: int)
    requires
        0 <= index < count,
    ensures
        (index + 1) % count == if index + 1 == count {
            0
        } else {
            index + 1
        },
{
    if index + 1 == count {
        assert(count % count == 0) by (nonlinear_arith)
            requires
                count > 0,
        ;
    } else {
        assert((index + 1) % count == index + 1) by (nonlinear_arith)
            requires
                0 <= index + 1 < count,
        ;
    }
}

/// Going one step back in a ring of `count` places.
pub proof fn lemma_step_back(index: int, count: int)
    requires
        0 <= index < count,
    ensures
        (index + count - 1) % count == if index == 0 {
            count - 1
        } else {
            index - 1
        },
{
    if index == 0 {
        assert((count - 1) % count == count - 1) by (nonlinear_arith)
            requires
                count > 0,
        ;
    } else {
        assert((index + count - 1) % count == index - 1) by (nonlinear_arith)
            requires
                0 < index < count,
        ;
    }
}

} // verus!
