//! Character-level helpers: the text of a string as a sequence of characters,
//! whitespace, and splitting a line into words.

use vstd::prelude::*;

verus! {

/// `String::push` appends exactly the given character.
pub assume_specification[ String::push ](text: &mut String, ch: char)
    ensures
        final(text)@ == old(text)@.push(ch),
;

/// `String::pop` removes the last character and hands it back; an empty
/// string stays empty and gives `None`.
pub assume_specification[ String::pop ](text: &mut String) -> (last: Option<char>)
    ensures
        old(text)@.len() == 0 ==> last is None && final(text)@ == old(text)@,
        old(text)@.len() > 0 ==> last == Some(old(text)@.last()) && final(text)@ == old(
            text,
        )@.drop_last(),
;

/// The texts of a list of strings, one character sequence per string.
pub open spec fn texts(items: Seq<String>) -> Seq<Seq<char>> {
    Seq::new(items.len(), |i: int| items[i]@)
}

/// The text of an optional string.
pub open spec fn opt_text(item: Option<String>) -> Option<Seq<char>> {
    match item {
        Some(s) => Some(s@),
        None => None,
    }
}

/// The text of an optional string slice.
pub open spec fn opt_str(item: Option<&str>) -> Option<Seq<char>> {
    match item {
        Some(s) => Some(s@),
        None => None,
    }
}

/// Characters with the Unicode `White_Space` property.
pub open spec fn is_space(c: char) -> bool {
    let n = c as u32;
    ||| 0x09 <= n <= 0x0d
    ||| n == 0x20
    ||| n == 0x85
    ||| n == 0xa0
    ||| n == 0x1680
    ||| 0x2000 <= n <= 0x200a
    ||| n == 0x2028
    ||| n == 0x2029
    ||| n == 0x202f
    ||| n == 0x205f
    ||| n == 0x3000
}

/// Tells whether `c` is whitespace.
pub fn is_whitespace(c: char) -> (r: bool)
    ensures
        r == is_space(c),
{
    let n: u32 = c as u32;
    (0x09 <= n && n <= 0x0d) || n == 0x20 || n == 0x85 || n == 0xa0 || n == 0x1680 || (0x2000 <= n
        && n <= 0x200a) || n == 0x2028 || n == 0x2029 || n == 0x202f || n == 0x205f || n == 0x3000
}

/// First position at or after `from` that holds a character which is not
/// whitespace, or the length of `s` if there is none.
pub open spec fn word_start(s: Seq<char>, from: int) -> int
    decreases s.len() - from,
{
    if from < 0 || from >= s.len() {
        s.len() as int
    } else if !is_space(s[from]) {
        from
    } else {
        word_start(s, from + 1)
    }
}

/// First position at or after `from` that holds whitespace, or the length
/// of `s` if there is none.
pub open spec fn word_end(s: Seq<char>, from: int) -> int
    decreases s.len() - from,
{
    if from < 0 || from >= s.len() {
        s.len() as int
    } else if is_space(s[from]) {
        from
    } else {
        word_end(s, from + 1)
    }
}

/// The words of `s` that begin at or after `from`: the maximal runs of
/// characters that are not whitespace, in order.
pub open spec fn words_from(s: Seq<char>, from: int) -> Seq<Seq<char>>
    decreases s.len() - from,
    via words_from_terminates
{
    let a = word_start(s, from);
    let b = word_end(s, a);
    if from < 0 || a >= s.len() {
        Seq::empty()
    } else {
        seq![s.subrange(a, b)] + words_from(s, b)
    }
}

#[via_fn]
proof fn words_from_terminates(s: Seq<char>, from: int) {
    if 0 <= from <= s.len() {
        lemma_word_start_bounds(s, from);
        let a = word_start(s, from);
        if a < s.len() {
            lemma_word_end_bounds(s, a);
        }
    }
}

/// The words of a line.
pub open spec fn words(s: Seq<char>) -> Seq<Seq<char>> {
    words_from(s, 0)
}

pub proof fn lemma_word_start_bounds(s: Seq<char>, from: int)
    requires
        0 <= from <= s.len(),
    ensures
        from <= word_start(s, from) <= s.len(),
        word_start(s, from) < s.len() ==> !is_space(s[word_start(s, from)]),
        forall|k: int| from <= k < word_start(s, from) ==> is_space(#[trigger] s[k]),
    decreases s.len() - from,
{
    if from < s.len() && is_space(s[from]) {
        lemma_word_start_bounds(s, from + 1);
    }
}

pub proof fn lemma_word_end_bounds(s: Seq<char>, from: int)
    requires
        0 <= from <= s.len(),
    ensures
        from <= word_end(s, from) <= s.len(),
        word_end(s, from) < s.len() ==> is_space(s[word_end(s, from)]),
        forall|k: int| from <= k < word_end(s, from) ==> !is_space(#[trigger] s[k]),
        from < s.len() && !is_space(s[from]) ==> from < word_end(s, from),
    decreases s.len() - from,
{
    if from < s.len() && !is_space(s[from]) {
        lemma_word_end_bounds(s, from + 1);
    }
}

/// The characters of a string slice, in order.
pub fn to_chars(s: &str) -> (v: Vec<char>)
    ensures
        v@ == s@,
{
    let mut v: Vec<char> = Vec::new();
    for c in it: s.chars()
        invariant
            v@ == it.seq().take(it.index()),
    {
        v.push(c);
    }
    v
}

/// A string made of the characters `chars[from..to]`.
pub fn string_of(chars: &Vec<char>, from: usize, to: usize) -> (s: String)
    requires
        from <= to <= chars.len(),
    ensures
        s@ == chars@.subrange(from as int, to as int),
{
    let mut s = String::new();
    let mut i: usize = from;
    while i < to
        invariant
            from <= i <= to <= chars.len(),
            s@ == chars@.subrange(from as int, i as int),
        decreases to - i,
    {
        s.push(chars[i]);
        i += 1;
        assert(s@ =~= chars@.subrange(from as int, i as int));
    }
    s
}

/// Splits a line into its words.
pub fn split_words(line: &str) -> (out: Vec<String>)
    ensures
        texts(out@) == words(line@),
{
    let chars = to_chars(line);
    let n: usize = chars.len();
    let mut out: Vec<String> = Vec::new();
    let mut pos: usize = 0;
    loop
        invariant_except_break
            chars@ == line@,
            n == chars.len(),
            pos <= n,
            texts(out@) + words_from(line@, pos as int) == words(line@),
        ensures
            texts(out@) == words(line@),
        decreases n - pos,
    {
        let mut a: usize = pos;
        while a < n && is_whitespace(chars[a])
            invariant
                chars@ == line@,
                n == chars.len(),
                pos <= a <= n,
                word_start(line@, pos as int) == word_start(line@, a as int),
            decreases n - a,
        {
            a += 1;
        }
        if a >= n {
            assert(words_from(line@, pos as int) =~= Seq::<Seq<char>>::empty());
            assert(texts(out@) + Seq::<Seq<char>>::empty() =~= texts(out@));
            break;
        }
        let mut b: usize = a + 1;
        while b < n && !is_whitespace(chars[b])
            invariant
                chars@ == line@,
                n == chars.len(),
                a < b <= n,
                !is_space(line@[a as int]),
                word_end(line@, a as int) == word_end(line@, b as int),
            decreases n - b,
        {
            b += 1;
        }
        let word = string_of(&chars, a, b);
        proof {
            let ghost before = texts(out@);
            assert(word_start(line@, pos as int) == a);
            assert(word_end(line@, a as int) == b);
            assert(words_from(line@, pos as int) == seq![line@.subrange(a as int, b as int)]
                + words_from(line@, b as int));
        }
        let ghost before = texts(out@);
        out.push(word);
        proof {
            assert(texts(out@) =~= before.push(line@.subrange(a as int, b as int)));
            assert(before.push(line@.subrange(a as int, b as int)) + words_from(line@, b as int)
                =~= before + (seq![line@.subrange(a as int, b as int)] + words_from(
                line@,
                b as int,
            )));
        }
        pos = b;
    }
    out
}

/// First position at or after `from` that holds a line feed, or the length
/// of `s` if there is none.
pub open spec fn line_end(s: Seq<char>, from: int) -> int
    decreases s.len() - from,
{
    if from < 0 || from >= s.len() {
        s.len() as int
    } else if s[from] == '\n' {
        from
    } else {
        line_end(s, from + 1)
    }
}

pub proof fn lemma_line_end_bounds(s: Seq<char>, from: int)
    requires
        0 <= from <= s.len(),
    ensures
        from <= line_end(s, from) <= s.len(),
        line_end(s, from) < s.len() ==> s[line_end(s, from)] == '\n',
        forall|k: int| from <= k < line_end(s, from) ==> #[trigger] s[k] != '\n',
    decreases s.len() - from,
{
    if from < s.len() && s[from] != '\n' {
        lemma_line_end_bounds(s, from + 1);
    }
}

/// `line` without the carriage return at its end, if it has one.
pub open spec fn without_cr(line: Seq<char>) -> Seq<char> {
    if line.len() > 0 && line.last() == '\r' {
        line.drop_last()
    } else {
        line
    }
}

/// The lines of `s` from position `from` on. A line ends with a line feed,
/// or with a carriage return and a line feed; neither belongs to the line.
/// The last line needs no line ending, and text that ends with one has no
/// empty line behind it.
pub open spec fn lines_from(s: Seq<char>, from: int) -> Seq<Seq<char>>
    decreases s.len() - from,
    via lines_from_terminates
{
    let end = line_end(s, from);
    if from < 0 || from >= s.len() {
        Seq::empty()
    } else if end < s.len() {
        seq![without_cr(s.subrange(from, end))] + lines_from(s, end + 1)
    } else {
        seq![s.subrange(from, end)]
    }
}

#[via_fn]
proof fn lines_from_terminates(s: Seq<char>, from: int) {
    if 0 <= from <= s.len() {
        lemma_line_end_bounds(s, from);
    }
}

/// The lines of a text.
pub open spec fn lines(s: Seq<char>) -> Seq<Seq<char>> {
    lines_from(s, 0)
}

/// Splits a text into its lines.
pub fn split_lines(text: &str) -> (out: Vec<String>)
    ensures
        texts(out@) == lines(text@),
{
    let chars = to_chars(text);
    let n: usize = chars.len();
    let mut out: Vec<String> = Vec::new();
    let mut pos: usize = 0;
    while pos < n
        invariant
            chars@ == text@,
            n == chars.len(),
            pos <= n,
            texts(out@) + lines_from(text@, pos as int) == lines(text@),
        decreases n - pos,
    {
        let mut end: usize = pos;
        while end < n && chars[end] != '\n'
            invariant
                chars@ == text@,
                n == chars.len(),
                pos <= end <= n,
                line_end(text@, pos as int) == line_end(text@, end as int),
            decreases n - end,
        {
            end += 1;
        }
        let ghost before = texts(out@);
        if end < n {
            let stop: usize = if end > pos && chars[end - 1] == '\r' { end - 1 } else { end };
            let line = string_of(&chars, pos, stop);
            proof {
                let raw = text@.subrange(pos as int, end as int);
                assert(without_cr(raw) =~= text@.subrange(pos as int, stop as int));
            }
            out.push(line);
            proof {
                let item = text@.subrange(pos as int, stop as int);
                assert(texts(out@) =~= before.push(item));
                assert(before.push(item) + lines_from(text@, end + 1) =~= before + (seq![item]
                    + lines_from(text@, end + 1)));
            }
            pos = end + 1;
        } else {
            let line = string_of(&chars, pos, end);
            out.push(line);
            proof {
                let item = text@.subrange(pos as int, end as int);
                assert(texts(out@) =~= before.push(item));
                assert(lines_from(text@, n as int) =~= Seq::<Seq<char>>::empty());
                assert(before.push(item) + lines_from(text@, n as int) =~= before + seq![item]);
            }
            pos = n;
        }
    }
    proof {
        assert(lines_from(text@, pos as int) =~= Seq::<Seq<char>>::empty());
        assert(texts(out@) + Seq::<Seq<char>>::empty() =~= texts(out@));
    }
    out
}

/// The position behind the last character of `s[..end]` that is not
/// whitespace; 0 if there is none.
pub open spec fn text_end(s: Seq<char>, end: int) -> int
    decreases end,
{
    if end <= 0 || end > s.len() {
        0
    } else if !is_space(s[end - 1]) {
        end
    } else {
        text_end(s, end - 1)
    }
}

/// `s` without the whitespace at its two ends.
pub open spec fn trimmed(s: Seq<char>) -> Seq<char> {
    if word_start(s, 0) >= text_end(s, s.len() as int) {
        Seq::empty()
    } else {
        s.subrange(word_start(s, 0), text_end(s, s.len() as int))
    }
}

/// A text without the whitespace at its two ends.
pub fn trim_text(text: &str) -> (out: String)
    ensures
        out@ == trimmed(text@),
{
    let chars = to_chars(text);
    let n: usize = chars.len();
    let mut first: usize = 0;
    while first < n && is_whitespace(chars[first])
        invariant
            chars@ == text@,
            n == chars.len(),
            first <= n,
            word_start(text@, 0) == word_start(text@, first as int),
        decreases n - first,
    {
        first += 1;
    }
    let mut last: usize = n;
    while last > 0 && is_whitespace(chars[last - 1])
        invariant
            chars@ == text@,
            n == chars.len(),
            last <= n,
            text_end(text@, n as int) == text_end(text@, last as int),
        decreases last,
    {
        last -= 1;
    }
    if first >= last {
        String::new()
    } else {
        string_of(&chars, first, last)
    }
}

/// Tells whether `text` holds the character `wanted`.
pub fn has_char(text: &str, wanted: char) -> (r: bool)
    ensures
        r == text@.contains(wanted),
{
    let chars = to_chars(text);
    let mut i: usize = 0;
    while i < chars.len()
        invariant
            chars@ == text@,
            i <= chars.len(),
            forall|k: int| 0 <= k < i ==> chars@[k] != wanted,
        decreases chars.len() - i,
    {
        if chars[i] == wanted {
            return true;
        }
        i += 1;
    }
    false
}

} // verus!
