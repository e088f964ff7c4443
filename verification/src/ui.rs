//! What the screen shows besides the text: how many rows the text gets, the
//! labels of the tabs, the status line, and where the cursor of an input
//! line stands.

use crate::man::ManPage;
use crate::session::{App, Mode};
use crate::state::{AppView, ModeView};
use vstd::prelude::*;

verus! {

/// Number of rows left for document text once the tab bar and the status
/// line have taken one row each.
pub fn content_height(height: u16) -> (rows: usize)
    ensures
        rows == if height >= 2 {
            height - 2
        } else {
            0
        },
{
    if height >= 2 {
        (height - 2) as usize
    } else {
        0
    }
}

/// The column of the cursor on an input line that starts at column `left`
/// and is `width` columns wide, after `typed` characters behind the prompt
/// sign.
pub open spec fn cursor_at(left: int, width: int, typed: int) -> int {
    let wanted = left + 1 + typed;
    let last = left + if width >= 1 {
        width - 1
    } else {
        0
    };
    let column = if wanted <= last {
        wanted
    } else {
        last
    };
    if column <= u16::MAX {
        column
    } else {
        u16::MAX as int
    }
}

/// Places the cursor behind the typed text, and on the last column of the
/// line if the text is longer than the line. A column past the largest
/// number a `u16` holds becomes that number.
pub fn cursor_column(left: u16, width: u16, typed: usize) -> (column: u16)
    ensures
        column == cursor_at(left as int, width as int, typed as int),
{
    let room: u16 = if width >= 1 { width - 1 } else { 0 };
    let reach: u16 = if room <= u16::MAX - left { left + room } else { u16::MAX };
    if typed >= (reach - left) as usize {
        reach
    } else {
        left + 1 + typed as u16
    }
}

/// The character for a digit.
pub open spec fn digit_char(digit: int) -> char {
    if digit == 0 {
        '0'
    } else if digit == 1 {
        '1'
    } else if digit == 2 {
        '2'
    } else if digit == 3 {
        '3'
    } else if digit == 4 {
        '4'
    } else if digit == 5 {
        '5'
    } else if digit == 6 {
        '6'
    } else if digit == 7 {
        '7'
    } else if digit == 8 {
        '8'
    } else {
        '9'
    }
}

/// A number written in decimal, without leading zeros.
pub open spec fn decimal(n: nat) -> Seq<char>
    decreases n,
{
    if n < 10 {
        seq![digit_char(n as int)]
    } else {
        decimal(n / 10).push(digit_char((n % 10) as int))
    }
}

/// The character for the digit `value`.
fn digit(value: u128) -> (c: char)
    requires
        value < 10,
    ensures
        c == digit_char(value as int),
{
    if value == 0 {
        '0'
    } else if value == 1 {
        '1'
    } else if value == 2 {
        '2'
    } else if value == 3 {
        '3'
    } else if value == 4 {
        '4'
    } else if value == 5 {
        '5'
    } else if value == 6 {
        '6'
    } else if value == 7 {
        '7'
    } else if value == 8 {
        '8'
    } else {
        '9'
    }
}

/// Writes a number in decimal.
pub fn format_number(n: u128) -> (text: String)
    ensures
        text@ == decimal(n as nat),
{
    let mut low: Vec<char> = Vec::new();
    let mut rest: u128 = n;
    proof {
        assert(decimal(rest as nat) + low@.reverse() =~= decimal(n as nat));
    }
    while rest >= 10
        invariant
            decimal(n as nat) == decimal(rest as nat) + low@.reverse(),
        decreases rest,
    {
        let ghost before = low@;
        let ghost prior = rest;
        low.push(digit(rest % 10));
        rest = rest / 10;
        proof {
            let d = digit_char((prior % 10) as int);
            assert(decimal(prior as nat) == decimal(rest as nat).push(d));
            assert(low@.reverse() =~= seq![d] + before.reverse());
            assert(decimal(rest as nat).push(d) + before.reverse() =~= decimal(rest as nat) + (
            seq![d] + before.reverse()));
        }
    }
    let mut text = String::new();
    text.push(digit(rest));
    let mut i: usize = low.len();
    proof {
        assert(text@ =~= decimal(rest as nat));
        assert(text@ =~= decimal(rest as nat) + low@.reverse().subrange(0, 0));
    }
    while i > 0
        invariant
            i <= low.len(),
            text@ == decimal(rest as nat) + low@.reverse().subrange(0, low.len() - i),
        decreases i,
    {
        i -= 1;
        let ghost before = text@;
        text.push(low[i]);
        proof {
            let turned = low@.reverse();
            assert(turned[low.len() - 1 - i] == low@[i as int]);
            assert(turned.subrange(0, low.len() - i) =~= turned.subrange(0, low.len() - 1 - i).push(
                low@[i as int],
            ));
            assert(text@ =~= decimal(rest as nat) + turned.subrange(0, low.len() - i));
        }
    }
    proof {
        assert(low@.reverse().subrange(0, low.len() as int) =~= low@.reverse());
    }
    text
}

/// The label of a page on the tab bar: its title between two spaces.
pub fn tab_label(page: &ManPage) -> (label: String)
    ensures
        label@ == seq![' '] + page@.title() + seq![' '],
{
    let label = " ".to_owned().concat(page.title().as_str()).concat(" ");
    proof {
        reveal_strlit(" ");
        assert(" "@ =~= seq![' ']);
    }
    label
}

/// One label of the tab bar.
#[derive(Debug, Clone, PartialEq, Eq)]
pub struct TabLabel {
    pub text: String,
    pub active: bool,
}

/// The label that the tab bar shows for the tab with index `index`.
pub open spec fn label_at(s: AppView, index: int) -> (Seq<char>, bool) {
    (seq![' '] + s.tabs[index].title() + seq![' '], index == s.active)
}

/// The labels of the tab bar: one for each tab, in order, the one of the
/// active tab marked.
pub fn tab_bar(app: &App) -> (labels: Vec<TabLabel>)
    ensures
        labels@.len() == app@.tabs.len(),
        forall|i: int|
            0 <= i < labels@.len() ==> (#[trigger] labels@[i].text@, labels@[i].active) == label_at(
                app@,
                i,
            ),
{
    let tabs = app.tabs();
    let active: usize = app.active_index();
    let mut labels: Vec<TabLabel> = Vec::new();
    let mut i: usize = 0;
    while i < tabs.len()
        invariant
            i <= tabs.len(),
            crate::session::pages_of(tabs@) == app@.tabs,
            active == app@.active,
            labels@.len() == i,
            forall|k: int|
                0 <= k < i ==> (#[trigger] labels@[k].text@, labels@[k].active) == label_at(app@, k),
        decreases tabs.len() - i,
    {
        let label = TabLabel { text: tab_label(&tabs[i]), active: i == active };
        proof {
            assert(crate::session::pages_of(tabs@)[i as int] == tabs@[i as int]@);
        }
        labels.push(label);
        i += 1;
    }
    labels
}

/// What the status line shows. While a line is typed it is the line
/// behind its prompt sign, `:` for a command and `/` for a search.
/// Otherwise it is the status message if there is one, and else the title
/// of the active page, two spaces, the word `line` and the number of the
/// first line on the screen, counted from 1.
pub open spec fn status_text(s: AppView) -> Seq<char> {
    match s.mode {
        ModeView::Command { line } => seq![':'] + line,
        ModeView::Search { line, previous } => seq!['/'] + line,
        _ => match s.status {
            Some(message) => message,
            None => (if s.has_page() {
                s.page().title()
            } else {
                Seq::empty()
            }) + "  line "@ + decimal(
                (if s.has_page() {
                    s.page().scroll + 1
                } else {
                    1
                }) as nat,
            ),
        },
    }
}

/// Writes the status line.
pub fn status_line(app: &App) -> (text: String)
    ensures
        text@ == status_text(app@),
{
    proof {
        reveal_strlit(":");
        reveal_strlit("/");
        assert(":"@ =~= seq![':']);
        assert("/"@ =~= seq!['/']);
    }
    match app.mode() {
        Mode::Command { line } => ":".to_owned().concat(line.as_str()),
        Mode::Search { line, previous } => "/".to_owned().concat(line.as_str()),
        _ => match app.status() {
            Some(message) => message.to_owned(),
            None => {
                let first: u128 = app.scroll() as u128 + 1;
                let number = format_number(first);
                app.title().concat("  line ").concat(number.as_str())
            },
        },
    }
}

} // verus!
