//! Literal text search over the lines of a document.
//!
//! A query is looked for line by line, left to right. Once an occurrence is
//! found the scan goes on behind its end, so reported occurrences never
//! overlap.

use crate::text::{texts, to_chars};
use vstd::prelude::*;

verus! {

/// One occurrence of the query: the line it is on and the half-open range of
/// character positions it covers in that line.
#[derive(Debug, Clone, Copy, PartialEq, Eq, Structural)]
pub struct SearchMatch {
    pub line: usize,
    pub start: usize,
    pub end: usize,
}

/// A `SearchMatch` in unbounded integers.
pub struct Hit {
    pub line: int,
    pub start: int,
    pub end: int,
}

impl View for SearchMatch {
    type V = Hit;

    open spec fn view(&self) -> Hit {
        Hit { line: self.line as int, start: self.start as int, end: self.end as int }
    }
}

/// The matches of a list as hits.
pub open spec fn hits_of(found: Seq<SearchMatch>) -> Seq<Hit> {
    Seq::new(found.len(), |i: int| found[i]@)
}

/// `query` stands in `line` at position `at`.
pub open spec fn occurs_at(line: Seq<char>, query: Seq<char>, at: int) -> bool {
    &&& 0 <= at
    &&& at + query.len() <= line.len()
    &&& line.subrange(at, at + query.len()) == query
}

/// The occurrences of `query` in one line that a scan starting at `from`
/// reports, `row` being the line's index.
pub open spec fn line_hits(line: Seq<char>, query: Seq<char>, row: int, from: int) -> Seq<Hit>
    decreases line.len() - from,
{
    if query.len() == 0 || from < 0 || from + query.len() > line.len() {
        Seq::empty()
    } else if occurs_at(line, query, from) {
        seq![Hit { line: row, start: from, end: from + query.len() }] + line_hits(
            line,
            query,
            row,
            from + query.len(),
        )
    } else {
        line_hits(line, query, row, from + 1)
    }
}

/// The occurrences of `query` in a document, ordered by line and then by
/// position within the line.
pub open spec fn all_hits(lines: Seq<Seq<char>>, query: Seq<char>) -> Seq<Hit>
    decreases lines.len(),
{
    if lines.len() == 0 {
        Seq::empty()
    } else {
        all_hits(lines.drop_last(), query) + line_hits(lines.last(), query, lines.len() - 1, 0)
    }
}

/// Index of the first hit at or after position `from` in the list whose line
/// is `start` or later; the length of the list if there is none.
pub open spec fn first_from(hits: Seq<Hit>, start: int, from: int) -> int
    decreases hits.len() - from,
{
    if from < 0 || from >= hits.len() {
        hits.len() as int
    } else if hits[from].line >= start {
        from
    } else {
        first_from(hits, start, from + 1)
    }
}

/// The hit that becomes current when a search is anchored at line `start`:
/// the first one on that line or later, else the first one of the document,
/// and none if the document has no hit.
pub open spec fn anchor(hits: Seq<Hit>, start: int) -> Option<int> {
    if hits.len() == 0 {
        None
    } else if first_from(hits, start, 0) < hits.len() {
        Some(first_from(hits, start, 0))
    } else {
        Some(0)
    }
}

/// Tells whether `query` stands in `line` at position `at`.
fn occurs(line: &Vec<char>, query: &Vec<char>, at: usize) -> (r: bool)
    requires
        at + query.len() <= line.len(),
    ensures
        r == occurs_at(line@, query@, at as int),
{
    let mut k: usize = 0;
    while k < query.len()
        invariant
            at + query.len() <= line.len(),
            k <= query.len(),
            forall|j: int| 0 <= j < k ==> line@[at + j] == query@[j],
        decreases query.len() - k,
    {
        if line[at + k] != query[k] {
            assert(line@.subrange(at as int, at + query.len())[k as int] == line@[at + k]);
            return false;
        }
        k += 1;
    }
    assert(line@.subrange(at as int, at + query.len()) =~= query@);
    true
}

/// Appends to `found` the occurrences of `query` in `line`, the line with
/// index `row`.
fn scan_line(found: &mut Vec<SearchMatch>, line: &Vec<char>, query: &Vec<char>, row: usize)
    requires
        query.len() > 0,
    ensures
        hits_of(final(found)@) == hits_of(old(found)@) + line_hits(
            line@,
            query@,
            row as int,
            0,
        ),
{
    let ghost before = hits_of(found@);
    let n: usize = line.len();
    let m: usize = query.len();
    let mut offset: usize = 0;
    assert(before + line_hits(line@, query@, row as int, 0) == before + line_hits(
        line@,
        query@,
        row as int,
        offset as int,
    ));
    while m <= n && offset <= n - m
        invariant
            n == line.len(),
            m == query.len(),
            m > 0,
            hits_of(found@) + line_hits(line@, query@, row as int, offset as int) == before
                + line_hits(line@, query@, row as int, 0),
        decreases n + 1 - offset,
    {
        if occurs(line, query, offset) {
            let ghost prior = hits_of(found@);
            let ghost hit = Hit { line: row as int, start: offset as int, end: offset + m };
            found.push(SearchMatch { line: row, start: offset, end: offset + m });
            proof {
                assert(hits_of(found@) =~= prior.push(hit));
                assert(prior.push(hit) + line_hits(line@, query@, row as int, offset + m) =~= prior
                    + (seq![hit] + line_hits(line@, query@, row as int, offset + m)));
            }
            offset = offset + m;
        } else {
            offset = offset + 1;
        }
    }
    proof {
        assert(line_hits(line@, query@, row as int, offset as int) =~= Seq::<Hit>::empty());
        assert(hits_of(found@) + Seq::<Hit>::empty() =~= hits_of(found@));
    }
}

/// Finds every occurrence of `query` in `lines`. An empty query has none.
pub fn collect_matches(lines: &[String], query: &str) -> (found: Vec<SearchMatch>)
    ensures
        hits_of(found@) == all_hits(texts(lines@), query@),
{
    let mut found: Vec<SearchMatch> = Vec::new();
    let needle = to_chars(query);
    let mut row: usize = 0;
    assert(texts(lines@).take(0) =~= Seq::<Seq<char>>::empty());
    assert(hits_of(found@) =~= Seq::<Hit>::empty());
    while row < lines.len()
        invariant
            row <= lines.len(),
            needle@ == query@,
            hits_of(found@) == all_hits(texts(lines@).take(row as int), query@),
        decreases lines.len() - row,
    {
        let line = to_chars(lines[row].as_str());
        let ghost prefix = texts(lines@).take(row + 1);
        proof {
            assert(prefix.drop_last() =~= texts(lines@).take(row as int));
            assert(prefix.last() == line@);
        }
        if needle.len() > 0 {
            scan_line(&mut found, &line, &needle, row);
        } else {
            assert(hits_of(found@) + Seq::<Hit>::empty() =~= hits_of(found@));
        }
        row += 1;
    }
    assert(texts(lines@).take(row as int) =~= texts(lines@));
    found
}

/// Picks the match that becomes current when a search is anchored at line
/// `start_line`.
pub fn anchor_index(found: &Vec<SearchMatch>, start_line: usize) -> (index: Option<usize>)
    ensures
        match index {
            Some(i) => anchor(hits_of(found@), start_line as int) == Some(i as int),
            None => anchor(hits_of(found@), start_line as int) is None,
        },
{
    if found.len() == 0 {
        return None;
    }
    let ghost hits = hits_of(found@);
    let mut i: usize = 0;
    while i < found.len()
        invariant
            i <= found.len(),
            hits == hits_of(found@),
            first_from(hits, start_line as int, 0) == first_from(hits, start_line as int, i as int),
        decreases found.len() - i,
    {
        if found[i].line >= start_line {
            return Some(i);
        }
        i += 1;
    }
    Some(0)
}

} // verus!
