//! What holds of every page and every session, proved once over the values
//! that the contracts speak of.

use crate::args::ProbeReply;
use crate::command::Command;
use crate::man::{clamped, larger, PageView};
use crate::render::RenderReply;
use crate::search::{all_hits, anchor, first_from, line_hits, occurs_at, Hit};
use crate::session::{Action, UpdateOutcome};
use crate::state::{erased, keeps_fit, refits, reply_at, AppView, ModeView};
use crate::text::{is_space, word_end, word_start, words_from};
use vstd::prelude::*;

verus! {

/// `first_from` returns the first hit from `from` on whose line is `start`
/// or later, or the length of the list where there is none.
pub proof fn lemma_first_from(hits: Seq<Hit>, start: int, from: int)
    requires
        0 <= from <= hits.len(),
    ensures
        from <= first_from(hits, start, from) <= hits.len(),
        first_from(hits, start, from) < hits.len() ==> hits[first_from(hits, start, from)].line
            >= start,
        forall|k: int| from <= k < first_from(hits, start, from) ==> (#[trigger] hits[k]).line < start,
    decreases hits.len() - from,
{
    if from < hits.len() && hits[from].line < start {
        lemma_first_from(hits, start, from + 1);
    }
}

/// An anchored search has a current hit exactly if there is any hit. The
/// current hit is the first one whose line is `start` or later; where no
/// hit is that far down, it is the first hit of all.
pub proof fn lemma_anchor(hits: Seq<Hit>, start: int)
    ensures
        match anchor(hits, start) {
            Some(i) => {
                &&& 0 <= i < hits.len()
                &&& forall|k: int| 0 <= k < i ==> (#[trigger] hits[k]).line < start
                &&& hits[i].line >= start || (i == 0 && forall|k: int|
                    0 <= k < hits.len() ==> (#[trigger] hits[k]).line < start)
            },
            None => hits.len() == 0,
        },
{
    lemma_first_from(hits, start, 0);
}

/// Every hit of a line scan lies in that line, behind the place where the
/// scan began, and covers an occurrence of the query; the hits come in
/// rising order and do not overlap.
pub proof fn lemma_line_hits(line: Seq<char>, query: Seq<char>, row: int, from: int)
    requires
        0 <= from,
    ensures
        forall|k: int|
            0 <= k < line_hits(line, query, row, from).len() ==> {
                let hit = #[trigger] line_hits(line, query, row, from)[k];
                &&& hit.line == row
                &&& from <= hit.start
                &&& hit.end == hit.start + query.len()
                &&& hit.end <= line.len()
                &&& occurs_at(line, query, hit.start)
            },
        forall|j: int, k: int|
            0 <= j < k < line_hits(line, query, row, from).len() ==> (#[trigger] line_hits(
                line,
                query,
                row,
                from,
            )[j]).end <= (#[trigger] line_hits(line, query, row, from)[k]).start,
    decreases line.len() - from,
{
    let hits = line_hits(line, query, row, from);
    if query.len() == 0 || from + query.len() > line.len() {
    } else if occurs_at(line, query, from) {
        let rest = line_hits(line, query, row, from + query.len());
        lemma_line_hits(line, query, row, from + query.len());
        assert forall|k: int| 0 <= k < hits.len() implies {
            let hit = #[trigger] hits[k];
            &&& hit.line == row
            &&& from <= hit.start
            &&& hit.end == hit.start + query.len()
            &&& hit.end <= line.len()
            &&& occurs_at(line, query, hit.start)
        } by {
            if k > 0 {
                assert(hits[k] == rest[k - 1]);
            }
        }
        assert forall|j: int, k: int| 0 <= j < k < hits.len() implies (#[trigger] hits[j]).end <= (
        #[trigger] hits[k]).start by {
            assert(hits[k] == rest[k - 1]);
            if j > 0 {
                assert(hits[j] == rest[j - 1]);
            }
        }
    } else {
        lemma_line_hits(line, query, row, from + 1);
        assert(hits == line_hits(line, query, row, from + 1));
    }
}

/// No occurrence is lost: one that a line scan does not report as a hit
/// begins inside a hit that it reports.
pub proof fn lemma_line_hits_complete(
    line: Seq<char>,
    query: Seq<char>,
    row: int,
    from: int,
    at: int,
)
    requires
        0 <= from <= at,
        query.len() > 0,
        occurs_at(line, query, at),
    ensures
        exists|k: int|
            0 <= k < line_hits(line, query, row, from).len() && (#[trigger] line_hits(
                line,
                query,
                row,
                from,
            )[k]).start <= at < line_hits(line, query, row, from)[k].end,
    decreases line.len() - from,
{
    let hits = line_hits(line, query, row, from);
    if occurs_at(line, query, from) {
        let rest = line_hits(line, query, row, from + query.len());
        if at < from + query.len() {
            assert(hits[0].start <= at < hits[0].end);
        } else {
            lemma_line_hits_complete(line, query, row, from + query.len(), at);
            let k = choose|k: int| 0 <= k < rest.len() && (#[trigger] rest[k]).start <= at < rest[k].end;
            assert(hits[k + 1] == rest[k]);
        }
    } else {
        lemma_line_hits_complete(line, query, row, from + 1, at);
    }
}

/// Every hit of a document lies on one of its lines and covers an
/// occurrence of the query there; the hits are ordered by line.
pub proof fn lemma_all_hits(lines: Seq<Seq<char>>, query: Seq<char>)
    ensures
        forall|k: int|
            0 <= k < all_hits(lines, query).len() ==> {
                let hit = #[trigger] all_hits(lines, query)[k];
                &&& 0 <= hit.line < lines.len()
                &&& 0 <= hit.start < hit.end <= lines[hit.line].len()
                &&& occurs_at(lines[hit.line], query, hit.start)
            },
        forall|j: int, k: int|
            0 <= j < k < all_hits(lines, query).len() ==> {
                let a = #[trigger] all_hits(lines, query)[j];
                let b = #[trigger] all_hits(lines, query)[k];
                a.line < b.line || (a.line == b.line && a.end <= b.start)
            },
    decreases lines.len(),
{
    let hits = all_hits(lines, query);
    if lines.len() > 0 {
        let head = all_hits(lines.drop_last(), query);
        let tail = line_hits(lines.last(), query, lines.len() - 1, 0);
        lemma_all_hits(lines.drop_last(), query);
        lemma_line_hits(lines.last(), query, lines.len() - 1, 0);
        assert forall|k: int| 0 <= k < hits.len() implies {
            let hit = #[trigger] hits[k];
            &&& 0 <= hit.line < lines.len()
            &&& 0 <= hit.start < hit.end <= lines[hit.line].len()
            &&& occurs_at(lines[hit.line], query, hit.start)
        } by {
            if k < head.len() {
                assert(hits[k] == head[k]);
                assert(lines.drop_last()[head[k].line] == lines[head[k].line]);
            } else {
                assert(hits[k] == tail[k - head.len()]);
            }
        }
        assert forall|j: int, k: int| 0 <= j < k < hits.len() implies {
            let a = #[trigger] hits[j];
            let b = #[trigger] hits[k];
            a.line < b.line || (a.line == b.line && a.end <= b.start)
        } by {
            if k < head.len() {
                assert(hits[k] == head[k]);
                assert(hits[j] == head[j]);
            } else if j < head.len() {
                assert(hits[j] == head[j]);
                assert(hits[k] == tail[k - head.len()]);
            } else {
                assert(hits[j] == tail[j - head.len()]);
                assert(hits[k] == tail[k - head.len()]);
            }
        }
    }
}

/// Every word of a line is a run of one or more characters none of which
/// is whitespace.
pub proof fn lemma_words(line: Seq<char>, from: int)
    requires
        0 <= from,
    ensures
        forall|i: int|
            0 <= i < words_from(line, from).len() ==> {
                let word = #[trigger] words_from(line, from)[i];
                &&& word.len() > 0
                &&& forall|k: int| 0 <= k < word.len() ==> !is_space(#[trigger] word[k])
            },
    decreases line.len() - from,
{
    if from <= line.len() {
        crate::text::lemma_word_start_bounds(line, from);
        let a = word_start(line, from);
        if a < line.len() {
            crate::text::lemma_word_end_bounds(line, a);
            let b = word_end(line, a);
            lemma_words(line, b);
            let all = words_from(line, from);
            let rest = words_from(line, b);
            assert forall|i: int| 0 <= i < all.len() implies {
                let word = #[trigger] all[i];
                &&& word.len() > 0
                &&& forall|k: int| 0 <= k < word.len() ==> !is_space(#[trigger] word[k])
            } by {
                if i == 0 {
                    assert(all[0] == line.subrange(a, b));
                    assert forall|k: int| 0 <= k < all[0].len() implies !is_space(
                        #[trigger] all[0][k],
                    ) by {
                        assert(all[0][k] == line[a + k]);
                    }
                } else {
                    assert(all[i] == rest[i - 1]);
                }
            }
        }
    }
}

/// A search anchored anywhere leaves a consistent page.
pub proof fn lemma_searched_wf(page: PageView, query: Option<Seq<char>>, start: int)
    requires
        page.wf(),
    ensures
        page.searched(query, start).wf(),
{
    if let Some(q) = query {
        lemma_anchor(all_hits(page.lines, q), start);
    }
}

/// Going to the next or the previous hit leaves a consistent page.
pub proof fn lemma_navigation_wf(page: PageView)
    requires
        page.wf(),
    ensures
        page.advanced().wf(),
        page.retreated().wf(),
{
    let count = page.hits.len() as int;
    if count > 0 {
        let i = page.index->0;
        crate::man::lemma_step_forward(i, count);
        crate::man::lemma_step_back(i, count);
    }
}

/// Whatever the renderer answers, a consistent page stays consistent.
pub proof fn lemma_rendered_wf(page: PageView, width: int, reply: RenderReply)
    requires
        page.wf(),
    ensures
        page.rendered(width, reply).wf(),
{
    if let Some(q) = page.query {
        lemma_anchor(all_hits(page.lines, q), page.scroll);
        if let Ok(lines) = reply {
            lemma_anchor(all_hits(lines, q), page.scroll);
        }
    }
}

/// The page after `steps` times `advanced`.
pub open spec fn advanced_by(page: PageView, steps: nat) -> PageView
    decreases steps,
{
    if steps == 0 {
        page
    } else {
        advanced_by(page, (steps - 1) as nat).advanced()
    }
}

/// Going forward `steps` times from hit `i` of `count` ends on the hit
/// `(i + steps) % count`.
proof fn lemma_advanced_by(page: PageView, steps: nat)
    requires
        page.wf(),
        page.hits.len() > 0,
    ensures
        advanced_by(page, steps) == (PageView {
            index: Some((page.index->0 + steps) % (page.hits.len() as int)),
            ..page
        }),
    decreases steps,
{
    let count = page.hits.len() as int;
    let i = page.index->0;
    if steps == 0 {
        vstd::arithmetic::div_mod::lemma_small_mod(i as nat, count as nat);
    } else {
        lemma_advanced_by(page, (steps - 1) as nat);
        let j = (i + steps - 1) % count;
        vstd::arithmetic::div_mod::lemma_mod_pos_bound(i + steps - 1, count);
        vstd::arithmetic::div_mod::lemma_add_mod_noop_right(1, i + steps - 1, count);
        assert(1 + (i + steps - 1) == i + steps);
    }
}

/// Search wraps around: on a page with `k >= 1` hits, going to the next hit
/// `k` times comes back to the hit one started from, and going to the
/// previous hit from the first one lands on the last.
pub proof fn lemma_search_wraps(page: PageView)
    requires
        page.wf(),
        page.hits.len() >= 1,
    ensures
        advanced_by(page, page.hits.len()) == page,
        page.index == Some(0int) ==> page.retreated().index == Some(page.hits.len() - 1),
        page.index == Some(page.hits.len() - 1) ==> page.advanced().index == Some(0int),
{
    let count = page.hits.len() as int;
    let i = page.index->0;
    lemma_advanced_by(page, page.hits.len());
    vstd::arithmetic::div_mod::lemma_mod_add_multiples_vanish(i, count);
    vstd::arithmetic::div_mod::lemma_small_mod(i as nat, count as nat);
    assert(i + count == count + i);
    crate::man::lemma_step_back(i, count);
    crate::man::lemma_step_forward(i, count);
}

/// The cache is used again: once a page has lines for a width, the
/// renderer is not asked for that width any more, and it is asked for any
/// other width. (A render without lines is never kept: the renderer is
/// asked again.)
pub proof fn lemma_cache_reuse(page: PageView, width: u16, other: u16, reply: RenderReply)
    requires
        page.needs_render(width as int) ==> reply is Ok && reply->Ok_0.len() > 0,
    ensures
        !page.rendered(width as int, reply).needs_render(width as int),
        page.rendered(width as int, reply).rendered(width as int, reply).lines == page.rendered(
            width as int,
            reply,
        ).lines,
        larger(1, other as int) != larger(1, width as int) ==> page.rendered(
            width as int,
            reply,
        ).needs_render(other as int),
{
}

/// Centering: a page put on line `line` has that line in the middle of
/// the viewport, as far as the ends of the page allow, and the viewport is
/// filled.
pub proof fn lemma_centered(page: PageView, line: int, viewport_height: usize)
    requires
        0 <= line < page.lines.len(),
    ensures
        page.centered(line, viewport_height as int).scroll == clamped(
            line - (viewport_height as int) / 2,
            0,
            page.max_scroll(viewport_height as int),
        ),
        page.centered(line, viewport_height as int).fits(viewport_height as int),
        page.lines.len() >= viewport_height ==> {
            let scroll = page.centered(line, viewport_height as int).scroll;
            scroll <= line && (viewport_height > 0 ==> line < scroll + viewport_height)
        },
{
}

/// Putting a consistent page in the place of the active one leaves a
/// consistent session.
pub proof fn lemma_with_page_wf(s: AppView, page: PageView)
    requires
        s.wf(),
        page.wf(),
    ensures
        s.with_page(page).wf(),
        s.with_page(page).has_page() == s.has_page(),
{
}

/// A page that fits a viewport, or was fitted to it, is consistent.
pub proof fn lemma_fitted_wf(page: PageView, viewport_height: int)
    requires
        page.wf(),
    ensures
        page.fitted(viewport_height).wf(),
        page.fitted(viewport_height).fits(viewport_height),
{
}

/// Showing the active page leaves a consistent session whose active page
/// fits the viewport, whatever the renderer answers.
pub proof fn lemma_shown(s: AppView, width: int, viewport_height: int, reply: RenderReply)
    requires
        s.wf(),
    ensures
        s.shown(width, viewport_height, reply).wf(),
        s.shown(width, viewport_height, reply).fits(viewport_height),
{
    if s.has_page() {
        lemma_rendered_wf(s.page(), width, reply);
        lemma_fitted_wf(s.page().rendered(width, reply), viewport_height);
        lemma_with_page_wf(s, s.page().rendered(width, reply).fitted(viewport_height));
    }
}

/// Putting a page in the place of the active one and fitting it is putting
/// the fitted page there; putting the active page in its own place changes
/// nothing.
pub proof fn lemma_page_put(s: AppView, page: PageView, viewport_height: int)
    ensures
        s.with_page(page).fitted(viewport_height) == s.with_page(page.fitted(viewport_height)),
        s.has_page() ==> s.with_page(s.page()) == s,
{
    if s.has_page() {
        assert(s.with_page(page).fitted(viewport_height).tabs =~= s.with_page(
            page.fitted(viewport_height),
        ).tabs);
        assert(s.with_page(s.page()).tabs =~= s.tabs);
    }
}

/// What an action makes of a page that was made ready: it fits the scroll
/// position to the viewport, also where the renderer failed, takes a
/// recoverable fault for the status message and hands any other fault
/// back.
pub proof fn lemma_settled(s: AppView, width: int, viewport_height: int, reply: RenderReply)
    ensures
        s.resized(width, viewport_height, reply).fitted(viewport_height).noting(
            s.resize_fault(width, reply),
        ) == s.shown(width, viewport_height, reply),
        AppView::fatal(s.resize_fault(width, reply)) == s.show_fault(width, reply),
{
    if s.has_page() {
        let page = s.page().rendered(width, reply);
        lemma_page_put(s, page.fitted(viewport_height), viewport_height);
        lemma_page_put(s, page, viewport_height);
        assert(page.fitted(viewport_height).fitted(viewport_height) == page.fitted(
            viewport_height,
        ));
    }
}

/// Making the active page ready leaves a consistent session, whatever the
/// renderer answers.
pub proof fn lemma_resized(s: AppView, width: int, viewport_height: int, reply: RenderReply)
    requires
        s.wf(),
    ensures
        s.resized(width, viewport_height, reply).wf(),
{
    if s.has_page() {
        lemma_rendered_wf(s.page(), width, reply);
        lemma_fitted_wf(s.page().rendered(width, reply), viewport_height);
        lemma_with_page_wf(s, s.page().rendered(width, reply).fitted(viewport_height));
    }
}

/// Closing the active tab leaves a consistent session.
pub proof fn lemma_closed_wf(s: AppView)
    requires
        s.wf(),
    ensures
        s.closed().wf(),
{
    if s.has_page() {
        let t = s.closed();
        assert forall|i: int| 0 <= i < t.tabs.len() implies (#[trigger] t.tabs[i]).wf() by {
            if i < s.active {
                assert(t.tabs[i] == s.tabs[i]);
            } else {
                assert(t.tabs[i] == s.tabs[i + 1]);
            }
        }
    }
}

/// Opening a page leaves a consistent session, whatever the renderer
/// answers. A page that is not found leaves the tabs as they were, and the
/// last of them active.
pub proof fn lemma_opened(
    s: AppView,
    name: Seq<char>,
    section: Option<Seq<char>>,
    width: int,
    viewport_height: int,
    reply: RenderReply,
)
    requires
        s.wf(),
    ensures
        s.opened(name, section, width, viewport_height, reply).wf(),
        reply is Err && reply->Err_0.recoverable() ==> {
            &&& s.opened(name, section, width, viewport_height, reply).tabs == s.tabs
            &&& s.opened(name, section, width, viewport_height, reply).active == larger(
                0,
                s.tabs.len() - 1,
            )
        },
{
    let added = s.appended(name, section);
    let fresh = PageView::fresh(name, section);
    assert(added.wf()) by {
        assert forall|i: int| 0 <= i < added.tabs.len() implies (#[trigger] added.tabs[i]).wf() by {
            if i < s.tabs.len() {
                assert(added.tabs[i] == s.tabs[i]);
            }
        }
    }
    match reply {
        Ok(lines) => {
            lemma_rendered_wf(fresh, width, reply);
            lemma_fitted_wf(fresh.rendered(width, reply), viewport_height);
            lemma_with_page_wf(added, fresh.rendered(width, reply).fitted(viewport_height));
        },
        Err(fault) => {
            if fault.recoverable() {
                assert(added.dropped_last().tabs =~= s.tabs);
            }
        },
    }
}

/// How a page is opened, step by step: it is added, the answer goes to it,
/// and the opening is ended. With lines the page is fitted to the viewport;
/// after a recoverable fault it is taken away again; after any other fault
/// it stays as it was added. The session is consistent in every case.
pub proof fn lemma_opening(
    s: AppView,
    name: Seq<char>,
    section: Option<Seq<char>>,
    width: int,
    viewport_height: int,
    reply: RenderReply,
)
    ensures
        ({
            let added = s.appended(name, section);
            let fault = added.page().render_fault(width, reply);
            let mid = added.with_page(added.page().rendered(width, reply));
            &&& fault == (match reply {
                Ok(_) => None,
                Err(fault) => Some(fault),
            })
            &&& AppView::fatal(fault) == AppView::open_fault(reply)
            &&& s.opened(name, section, width, viewport_height, reply) == (match fault {
                None => mid.fitted(viewport_height),
                Some(fault) => if fault.recoverable() {
                    mid.dropped_last().with_status(Some(fault.message()))
                } else {
                    mid
                },
            })
        }),
        s.wf() ==> s.opened(name, section, width, viewport_height, reply).wf(),
{
    let added = s.appended(name, section);
    let page = added.page().rendered(width, reply);
    lemma_page_put(added, page, viewport_height);
    lemma_page_put(added, added.page(), viewport_height);
    assert(added.with_page(page).dropped_last().tabs =~= added.dropped_last().tabs);
    if s.wf() {
        lemma_opened(s, name, section, width, viewport_height, reply);
    }
}

/// Opening pages one after the other leaves a consistent session.
pub proof fn lemma_opened_from(
    s: AppView,
    pages: Seq<Seq<char>>,
    from: int,
    section: Option<Seq<char>>,
    width: int,
    viewport_height: int,
    renders: Seq<RenderReply>,
)
    requires
        s.wf(),
        0 <= from,
    ensures
        s.opened_from(pages, from, section, width, viewport_height, renders).wf(),
    decreases pages.len() - from,
{
    if from < pages.len() {
        let next = s.opened(pages[from], section, width, viewport_height, reply_at(renders, from));
        lemma_opened(s, pages[from], section, width, viewport_height, reply_at(renders, from));
        if AppView::open_fault(reply_at(renders, from)) is None {
            lemma_opened_from(next, pages, from + 1, section, width, viewport_height, renders);
        }
    }
}

/// A search on the active page leaves a consistent session; its active
/// page fits the viewport if it did before.
pub proof fn lemma_searched(s: AppView, query: Seq<char>, viewport_height: int)
    requires
        s.wf(),
    ensures
        s.searched(query, viewport_height).wf(),
        s.fits(viewport_height) ==> s.searched(query, viewport_height).fits(viewport_height),
        s.searched(query, viewport_height).mode == s.mode,
{
    if s.has_page() {
        let found = s.page().searched(Some(query), s.page().scroll);
        lemma_searched_wf(s.page(), Some(query), s.page().scroll);
        lemma_with_page_wf(s, found);
        lemma_landed(s.with_page(found), viewport_height);
    }
}

/// Landing on the current hit leaves a consistent session; its active page
/// fits the viewport if it did before.
pub proof fn lemma_landed(s: AppView, viewport_height: int)
    requires
        s.wf(),
    ensures
        s.landed(viewport_height).wf(),
        s.fits(viewport_height) ==> s.landed(viewport_height).fits(viewport_height),
        s.landed(viewport_height).mode == s.mode,
{
    if s.has_page() {
        if let Some(line) = s.page().current_line() {
            lemma_with_page_wf(s, s.page().centered(line, viewport_height));
        }
    }
}

/// The tab index stays valid: every action leaves a consistent session,
/// in which the active index names a tab or there is no tab, whatever the
/// probe and the renderer answer.
pub proof fn lemma_update_keeps_wf(
    s: AppView,
    action: Action,
    width: u16,
    viewport_height: usize,
    asked: ProbeReply,
    renders: Seq<RenderReply>,
)
    requires
        s.wf(),
    ensures
        s.stepped(action, width as int, viewport_height as int, asked, renders).wf(),
{
    lemma_update(s, action, width, viewport_height, asked, renders);
}

/// The scroll bound stays: after every action but the submit of a
/// command, the scroll position of the active page is at most
/// `max(0, line_count - max(1, viewport_height))`, if it was so before the
/// action or the action is one that fits the page anew.
pub proof fn lemma_update_keeps_fit(
    s: AppView,
    action: Action,
    width: u16,
    viewport_height: usize,
    asked: ProbeReply,
    renders: Seq<RenderReply>,
)
    requires
        s.wf(),
        keeps_fit(action),
        s.fits(viewport_height as int) || refits(action),
    ensures
        s.stepped(action, width as int, viewport_height as int, asked, renders).fits(
            viewport_height as int,
        ),
{
    lemma_update(s, action, width, viewport_height, asked, renders);
}

/// Scrolling leaves a consistent session. The active page fits the
/// viewport after scrolling down, to the top or to the bottom, and after
/// scrolling up if it did before.
pub proof fn lemma_scrolling(s: AppView, amount: int, viewport_height: int)
    requires
        s.wf(),
        0 <= amount,
    ensures
        s.scrolled_up(amount).wf(),
        s.fits(viewport_height) ==> s.scrolled_up(amount).fits(viewport_height),
        s.scrolled_down(amount, viewport_height).wf(),
        s.scrolled_down(amount, viewport_height).fits(viewport_height),
        s.at_top().wf(),
        s.at_top().fits(viewport_height),
        s.at_bottom(viewport_height).wf(),
        s.at_bottom(viewport_height).fits(viewport_height),
{
    if s.has_page() {
        let page = s.page();
        lemma_with_page_wf(s, page.scrolled_up(amount));
        lemma_with_page_wf(s, page.scrolled_down(amount, viewport_height));
        lemma_with_page_wf(s, page.at(0));
        lemma_with_page_wf(s, page.at(page.max_scroll(viewport_height)));
    }
}

/// Typing, erasing, submitting and cancelling a query leave a consistent
/// session; its active page fits the viewport if it did before.
pub proof fn lemma_search_line(s: AppView, value: char, viewport_height: int)
    requires
        s.wf(),
    ensures
        s.search_typed(value, viewport_height).wf(),
        s.search_erased(viewport_height).wf(),
        s.search_submitted(viewport_height).wf(),
        s.search_cancelled(viewport_height).wf(),
        s.fits(viewport_height) ==> {
            &&& s.search_typed(value, viewport_height).fits(viewport_height)
            &&& s.search_erased(viewport_height).fits(viewport_height)
            &&& s.search_submitted(viewport_height).fits(viewport_height)
            &&& s.search_cancelled(viewport_height).fits(viewport_height)
        },
{
    if let ModeView::Search { line, previous } = s.mode {
        lemma_searched(
            s.in_mode(ModeView::Search { line: line.push(value), previous }),
            line.push(value),
            viewport_height,
        );
        lemma_searched(
            s.in_mode(ModeView::Search { line: erased(line), previous }),
            erased(line),
            viewport_height,
        );
        lemma_searched(s, line, viewport_height);
        if let Some(query) = previous {
            lemma_searched(s, query, viewport_height);
        } else if s.has_page() {
            lemma_with_page_wf(s, s.page().cleared());
        }
    }
}

/// Going to the next or the previous hit and ending the search leave a
/// consistent session; its active page fits the viewport if it did before.
pub proof fn lemma_search_moves(s: AppView, viewport_height: int)
    requires
        s.wf(),
    ensures
        s.search_next(viewport_height).wf(),
        s.search_prev(viewport_height).wf(),
        s.search_cleared().wf(),
        s.fits(viewport_height) ==> {
            &&& s.search_next(viewport_height).fits(viewport_height)
            &&& s.search_prev(viewport_height).fits(viewport_height)
            &&& s.search_cleared().fits(viewport_height)
        },
{
    if s.has_page() {
        lemma_navigation_wf(s.page());
        lemma_with_page_wf(s, s.page().advanced());
        lemma_landed(s.with_page(s.page().advanced()), viewport_height);
        lemma_with_page_wf(s, s.page().retreated());
        lemma_landed(s.with_page(s.page().retreated()), viewport_height);
        lemma_with_page_wf(s, s.page().cleared());
    }
}

/// A command leaves a consistent session.
pub proof fn lemma_executed(
    s: AppView,
    command: Command,
    width: int,
    viewport_height: int,
    renders: Seq<RenderReply>,
)
    requires
        s.wf(),
    ensures
        s.executed(command, width, viewport_height, renders).wf(),
{
    match command {
        Command::Man { pages, section } => {
            lemma_opened_from(s, pages, 0, section, width, viewport_height, renders);
        },
        Command::Wipe => {
            lemma_closed_wf(s);
            lemma_shown(s.closed(), width, viewport_height, reply_at(renders, 0));
        },
        _ => {},
    }
}

/// What every action keeps.
pub proof fn lemma_update(
    s: AppView,
    action: Action,
    width: u16,
    viewport_height: usize,
    asked: ProbeReply,
    renders: Seq<RenderReply>,
)
    requires
        s.wf(),
    ensures
        s.stepped(action, width as int, viewport_height as int, asked, renders).wf(),
        keeps_fit(action) && (s.fits(viewport_height as int) || refits(action)) ==> s.stepped(
            action,
            width as int,
            viewport_height as int,
            asked,
            renders,
        ).fits(viewport_height as int),
{
    let w = width as int;
    let vh = viewport_height as int;
    let c = s.cleared_for(action);
    assert(c.wf());
    assert(c.fits(vh) == s.fits(vh));
    match action {
        Action::ScrollUp(amount) => {
            lemma_scrolling(c, amount as int, vh);
        },
        Action::ScrollDown(amount) => {
            lemma_scrolling(c, amount as int, vh);
        },
        Action::PageUp => {
            lemma_scrolling(c, vh, vh);
        },
        Action::PageDown => {
            lemma_scrolling(c, vh, vh);
        },
        Action::HalfPageUp => {
            lemma_scrolling(c, AppView::half_page(vh), vh);
        },
        Action::HalfPageDown => {
            lemma_scrolling(c, AppView::half_page(vh), vh);
        },
        Action::GoTop => {
            lemma_scrolling(c, 0, vh);
        },
        Action::GoBottom => {
            lemma_scrolling(c, 0, vh);
        },
        Action::Resize(_, _) | Action::TabLeft | Action::TabRight => {
            lemma_shown(c.turned(action), w, vh, reply_at(renders, 0));
        },
        Action::CommandSubmit => {
            lemma_executed(
                c.in_mode(ModeView::Normal),
                crate::command::parsed(c.command_line(), asked),
                w,
                vh,
                renders,
            );
        },
        Action::SearchChar(value) => {
            lemma_search_line(c, value, vh);
        },
        Action::SearchBackspace => {
            lemma_search_line(c, ' ', vh);
        },
        Action::SearchSubmit => {
            lemma_search_line(c, ' ', vh);
        },
        Action::SearchCancel => {
            lemma_search_line(c, ' ', vh);
        },
        Action::SearchNext => {
            lemma_search_moves(c, vh);
        },
        Action::SearchPrev => {
            lemma_search_moves(c, vh);
        },
        Action::SearchClear => {
            lemma_search_moves(c, vh);
        },
        _ => {},
    }
}

/// One action together with the room on the screen and with what the
/// probe and the renderer answer while it is applied.
pub struct Step {
    pub action: Action,
    pub width: u16,
    pub viewport_height: usize,
    pub asked: ProbeReply,
    pub renders: Seq<RenderReply>,
}

/// The session after a run of steps.
pub open spec fn run(s: AppView, steps: Seq<Step>) -> AppView
    decreases steps.len(),
{
    if steps.len() == 0 {
        s
    } else {
        run(s, steps.drop_last()).stepped(
            steps.last().action,
            steps.last().width as int,
            steps.last().viewport_height as int,
            steps.last().asked,
            steps.last().renders,
        )
    }
}

/// The height of the viewport changes only with an action that fits the
/// page anew, as a resize does, and no step submits a command.
pub open spec fn steady(steps: Seq<Step>) -> bool {
    &&& forall|i: int| 0 <= i < steps.len() ==> keeps_fit((#[trigger] steps[i]).action)
    &&& forall|i: int|
        0 < i < steps.len() ==> (#[trigger] steps[i]).viewport_height == steps[i
            - 1].viewport_height || refits(steps[i].action)
}

/// Over a whole run, whatever its steps: after each step the session is
/// consistent, which is to say that the active index names a tab, or that
/// there is no tab.
pub proof fn lemma_run_keeps_wf(s: AppView, steps: Seq<Step>)
    requires
        s.wf(),
    ensures
        run(s, steps).wf(),
    decreases steps.len(),
{
    if steps.len() > 0 {
        lemma_run_keeps_wf(s, steps.drop_last());
        let last = steps.last();
        lemma_update(
            run(s, steps.drop_last()),
            last.action,
            last.width,
            last.viewport_height,
            last.asked,
            last.renders,
        );
    }
}

/// Over a run of scrolls, resizes and any other steps but submitted
/// commands: after each step the scroll position of the active page is at
/// most `max(0, line_count - max(1, viewport_height))`, provided the run
/// starts from a consistent session that fits the first viewport, and the
/// viewport changes only with a resize or another action that fits the
/// page anew.
pub proof fn lemma_run_keeps_fit(s: AppView, steps: Seq<Step>, done: int)
    requires
        s.wf(),
        steady(steps),
        0 < done <= steps.len(),
        s.fits(steps[0].viewport_height as int) || refits(steps[0].action),
    ensures
        run(s, steps.take(done)).fits(steps[done - 1].viewport_height as int),
    decreases done,
{
    let prefix = steps.take(done);
    let last = steps[done - 1];
    assert(prefix.last() == last);
    assert(prefix.drop_last() =~= steps.take(done - 1));
    let before = run(s, steps.take(done - 1));
    lemma_run_keeps_wf(s, steps.take(done - 1));
    if done == 1 {
        assert(before == s);
    } else {
        lemma_run_keeps_fit(s, steps, done - 1);
        assert(steps[done - 1].viewport_height == steps[done - 2].viewport_height || refits(
            steps[done - 1].action,
        ));
    }
    lemma_update(before, last.action, last.width, last.viewport_height, last.asked, last.renders);
}

/// Centering: after a search was submitted, and after going to the next or
/// the previous hit, the line of the current hit is in the middle of the
/// viewport: the scroll position is that line less half the viewport,
/// brought into the range from 0 to the largest scroll position. Without a
/// hit the scroll position stays.
pub proof fn lemma_search_centers(s: AppView, viewport_height: usize)
    requires
        s.wf(),
        s.has_page(),
    ensures
        centered_on_hit(s.page(), s.search_next(viewport_height as int).page(), viewport_height as int),
        centered_on_hit(s.page(), s.search_prev(viewport_height as int).page(), viewport_height as int),
        s.mode is Search ==> centered_on_hit(
            s.page(),
            s.search_submitted(viewport_height as int).page(),
            viewport_height as int,
        ),
{
}

/// `after` shows its current hit in the middle of the viewport, or has no
/// hit and the scroll position of `before`.
pub open spec fn centered_on_hit(before: PageView, after: PageView, viewport_height: int) -> bool {
    match after.current_line() {
        Some(line) => after.scroll == clamped(
            line - viewport_height / 2,
            0,
            after.max_scroll(viewport_height),
        ),
        None => after.scroll == before.scroll,
    }
}

/// Only a quit ends the session: an action ends it exactly if it is
/// `Quit`, or a submit of a command line whose first word is `quit` or `q`.
pub proof fn lemma_quit_only(s: AppView, action: Action, asked: ProbeReply)
    ensures
        s.step_outcome(action, asked) == UpdateOutcome::Quit <==> action is Quit || (action
            is CommandSubmit && crate::text::words(s.command_line()).len() > 0 && (
        crate::text::words(s.command_line())[0] == "quit"@ || crate::text::words(
            s.command_line(),
        )[0] == "q"@)),
{
    reveal_strlit("quit");
    reveal_strlit("q");
    reveal_strlit("man");
    reveal_strlit("help");
    reveal_strlit("h");
    reveal_strlit("wipe");
    reveal_strlit("w");
    let words = crate::text::words(s.command_line());
    if words.len() > 0 {
        if words[0] == "quit"@ {
            assert(words[0].len() == 4);
            assert(words[0][0] == 'q');
        }
        if words[0] == "q"@ {
            assert(words[0].len() == 1);
            assert(words[0][0] == 'q');
        }
        if words[0] == "man"@ {
            assert(words[0][0] == 'm');
        }
        if words[0] == "help"@ {
            assert(words[0][0] == 'h');
        }
        if words[0] == "h"@ {
            assert(words[0][0] == 'h');
        }
    }
}

} // verus!
