//! Text handling: strings as sequences of characters.

use vstd::prelude::*;

verus! {

/// Whether `c` is white space: whether it has the Unicode property
/// `White_Space`, as `char::is_whitespace` tells.
pub open spec fn whitespace(c: char) -> bool {
    ||| '\u{9}' <= c <= '\u{d}'
    ||| c == ' '
    ||| c == '\u{85}'
    ||| c == '\u{a0}'
    ||| c == '\u{1680}'
    ||| '\u{2000}' <= c <= '\u{200a}'
    ||| c == '\u{2028}'
    ||| c == '\u{2029}'
    ||| c == '\u{202f}'
    ||| c == '\u{205f}'
    ||| c == '\u{3000}'
}

/// Calls `String::push`, which appends the character to the string.
#[verifier::external_body]
fn push_char(s: &mut String, c: char)
    ensures
        final(s)@ == old(s)@.push(c),
{
    s.push(c);
}

/// Whether `c` is white space.
pub fn is_whitespace(c: char) -> (b: bool)
    ensures
        b == whitespace(c),
{
    ('\u{9}' <= c && c <= '\u{d}') || c == ' ' || c == '\u{85}' || c == '\u{a0}' || c
        == '\u{1680}' || ('\u{2000}' <= c && c <= '\u{200a}') || c == '\u{2028}' || c
        == '\u{2029}' || c == '\u{202f}' || c == '\u{205f}' || c == '\u{3000}'
}

/// Whether two strings hold the same characters.
pub fn same_text(a: &str, b: &str) -> (same: bool)
    ensures
        same == (a@ == b@),
{
    a.to_owned() == b.to_owned()
}

/// The characters of a string, in order.
pub fn chars_of(s: &str) -> (chars: Vec<char>)
    ensures
        chars@ == s@,
{
    let mut chars: Vec<char> = Vec::new();
    for c in it: s.chars()
        invariant
            it.seq() == s@,
            chars@ == s@.take(it.index() as int),
    {
        chars.push(c);
    }
    chars
}

/// Appends the characters `chars[from..to]` to `s`.
pub fn append_chars(s: &mut String, chars: &Vec<char>, from: usize, to: usize)
    requires
        from <= to <= chars@.len(),
    ensures
        final(s)@ == old(s)@ + chars@.subrange(from as int, to as int),
{
    let mut i: usize = from;
    while i < to
        invariant
            from <= i <= to <= chars@.len(),
            s@ == old(s)@ + chars@.subrange(from as int, i as int),
        decreases to - i,
    {
        push_char(s, chars[i]);
        i += 1;
    }
}

/// The string that holds the characters `chars[from..to]`.
pub fn string_of(chars: &Vec<char>, from: usize, to: usize) -> (s: String)
    requires
        from <= to <= chars@.len(),
    ensures
        s@ == chars@.subrange(from as int, to as int),
{
    let mut s = String::new();
    append_chars(&mut s, chars, from, to);
    s
}

/// Whether `pattern` occurs in `text` at position `at`.
pub open spec fn occurs_at(text: Seq<char>, at: int, pattern: Seq<char>) -> bool {
    &&& 0 <= at
    &&& at + pattern.len() <= text.len()
    &&& text.subrange(at, at + pattern.len()) == pattern
}

/// Whether `pattern` occurs somewhere in `text`.
pub open spec fn occurs_in(text: Seq<char>, pattern: Seq<char>) -> bool {
    exists|at: int| occurs_at(text, at, pattern)
}

/// Whether `pattern` occurs in `text` at position `at`.
pub fn matches_at(text: &Vec<char>, at: usize, pattern: &Vec<char>) -> (found: bool)
    ensures
        found == occurs_at(text@, at as int, pattern@),
{
    let n = pattern.len();
    if at > text.len() || n > text.len() - at {
        return false;
    }
    let mut k: usize = 0;
    while k < n
        invariant
            k <= n,
            n == pattern@.len(),
            at + n <= text@.len() <= usize::MAX,
            forall|j: int| 0 <= j < k ==> text@[at + j] == pattern@[j],
        decreases n - k,
    {
        if text[at + k] != pattern[k] {
            return false;
        }
        k += 1;
    }
    assert(text@.subrange(at as int, at + n) =~= pattern@);
    true
}

/// Whether `pattern` occurs somewhere in `text`.
pub fn contains_text(text: &str, pattern: &str) -> (found: bool)
    ensures
        found == occurs_in(text@, pattern@),
{
    let source = chars_of(text);
    let wanted = chars_of(pattern);
    let mut at: usize = 0;
    while at < source.len()
        invariant
            at <= source@.len(),
            source@ == text@,
            wanted@ == pattern@,
            forall|j: int| 0 <= j < at ==> !occurs_at(text@, j, pattern@),
        decreases source@.len() - at,
    {
        if matches_at(&source, at, &wanted) {
            return true;
        }
        at += 1;
    }
    matches_at(&source, at, &wanted)
}

/// What is left of `text` once `prefix` has been taken off its front;
/// `None` where `text` does not begin with `prefix`.
pub open spec fn without_prefix(text: Seq<char>, prefix: Seq<char>) -> Option<Seq<char>> {
    if occurs_at(text, 0, prefix) {
        Some(text.skip(prefix.len() as int))
    } else {
        None
    }
}

/// Takes `prefix` off the front of `text`.
pub fn strip_prefix(text: &str, prefix: &str) -> (rest: Option<String>)
    ensures
        match rest {
            Some(r) => without_prefix(text@, prefix@) == Some(r@),
            None => without_prefix(text@, prefix@) is None,
        },
{
    let source = chars_of(text);
    let wanted = chars_of(prefix);
    if matches_at(&source, 0, &wanted) {
        let rest = string_of(&source, wanted.len(), source.len());
        Some(rest)
    } else {
        None
    }
}

/// `text` with every occurrence of `pattern` replaced by `with`, going from
/// left to right and never looking again at what has been replaced. An
/// empty pattern occurs nowhere.
pub open spec fn replaced(text: Seq<char>, pattern: Seq<char>, with: Seq<char>) -> Seq<char>
    decreases text.len(),
{
    if pattern.len() == 0 || text.len() == 0 {
        text
    } else if occurs_at(text, 0, pattern) {
        with + replaced(text.skip(pattern.len() as int), pattern, with)
    } else {
        seq![text[0]] + replaced(text.skip(1), pattern, with)
    }
}

/// Replaces every occurrence of `pattern` in `text` by `with`.
pub fn replace_all(text: &str, pattern: &str, with: &str) -> (out: String)
    ensures
        out@ == replaced(text@, pattern@, with@),
{
    let source = chars_of(text);
    let wanted = chars_of(pattern);
    let filler = chars_of(with);
    let mut out = String::new();
    if wanted.len() == 0 {
        append_chars(&mut out, &source, 0, source.len());
        return out;
    }
    let mut at: usize = 0;
    assert(source@.skip(0) =~= source@);
    while at < source.len()
        invariant
            at <= source@.len(),
            pattern@.len() > 0,
            source@ == text@,
            wanted@ == pattern@,
            filler@ == with@,
            replaced(source@, pattern@, with@) == out@ + replaced(
                source@.skip(at as int),
                pattern@,
                with@,
            ),
        decreases source@.len() - at,
    {
        let ghost rest = source@.skip(at as int);
        if matches_at(&source, at, &wanted) {
            assert(rest.subrange(0, pattern@.len() as int) =~= source@.subrange(
                at as int,
                at + pattern@.len(),
            ));
            append_chars(&mut out, &filler, 0, filler.len());
            assert(rest.skip(pattern@.len() as int) =~= source@.skip(at + pattern@.len()));
            at += wanted.len();
        } else {
            assert(!occurs_at(rest, 0, pattern@)) by {
                if occurs_at(rest, 0, pattern@) {
                    assert(rest.subrange(0, pattern@.len() as int) =~= source@.subrange(
                        at as int,
                        at + pattern@.len(),
                    ));
                }
            }
            push_char(&mut out, source[at]);
            assert(rest.skip(1) =~= source@.skip(at + 1));
            at += 1;
        }
    }
    out
}

/// Whether every character of `text` is white space; true of the empty text.
pub open spec fn blank(text: Seq<char>) -> bool {
    forall|i: int| 0 <= i < text.len() ==> whitespace(#[trigger] text[i])
}

/// Whether nothing but white space is in `text`.
pub fn is_blank(text: &str) -> (b: bool)
    ensures
        b == blank(text@),
{
    let chars = chars_of(text);
    let mut i: usize = 0;
    while i < chars.len()
        invariant
            i <= chars@.len(),
            chars@ == text@,
            forall|j: int| 0 <= j < i ==> whitespace(#[trigger] chars@[j]),
        decreases chars@.len() - i,
    {
        if !is_whitespace(chars[i]) {
            return false;
        }
        i += 1;
    }
    true
}

/// The position of the first line feed in `text`, or the length of `text`
/// where it holds none.
pub open spec fn line_end(text: Seq<char>) -> int
    decreases text.len(),
{
    if text.len() == 0 || text[0] == '\n' {
        0
    } else {
        1 + line_end(text.drop_first())
    }
}

/// A line without the carriage return that may stand at its end.
pub open spec fn without_carriage_return(line: Seq<char>) -> Seq<char> {
    if line.len() > 0 && line.last() == '\r' {
        line.drop_last()
    } else {
        line
    }
}

/// The lines of `text`. A line ends at a line feed, or at a carriage return
/// directly before a line feed; neither belongs to the line. What follows
/// the last line feed is a line too, unless it is empty.
pub open spec fn lines_of(text: Seq<char>) -> Seq<Seq<char>>
    decreases text.len(),
{
    if text.len() == 0 {
        Seq::empty()
    } else {
        let end = line_end(text);
        if 0 <= end < text.len() {
            seq![without_carriage_return(text.take(end))] + lines_of(text.skip(end + 1))
        } else {
            seq![text]
        }
    }
}

/// The first line feed of `text` is at `end` if none comes before it.
pub proof fn lemma_line_end(text: Seq<char>, end: int)
    requires
        0 <= end <= text.len(),
        forall|k: int| 0 <= k < end ==> text[k] != '\n',
        end < text.len() ==> text[end] == '\n',
    ensures
        line_end(text) == end,
    decreases end,
{
    if end > 0 {
        let rest = text.drop_first();
        assert forall|k: int| 0 <= k < end - 1 implies rest[k] != '\n' by {}
        lemma_line_end(rest, end - 1);
    }
}

/// The texts that a vector of strings holds.
pub open spec fn texts_of(strings: Seq<String>) -> Seq<Seq<char>> {
    strings.map_values(|s: String| s@)
}

/// Splits `text` into its lines.
pub fn split_lines(text: &str) -> (lines: Vec<String>)
    ensures
        texts_of(lines@) == lines_of(text@),
{
    let chars = chars_of(text);
    let n = chars.len();
    let mut lines: Vec<String> = Vec::new();
    let mut start: usize = 0;
    assert(chars@.skip(0) =~= chars@);
    while start < n
        invariant
            start <= n,
            n == chars@.len(),
            lines_of(chars@) == texts_of(lines@) + lines_of(chars@.skip(start as int)),
        decreases n - start,
    {
        let ghost rest = chars@.skip(start as int);
        let mut end: usize = start;
        while end < n && chars[end] != '\n'
            invariant
                start <= end <= n,
                n == chars@.len(),
                forall|k: int| start <= k < end ==> chars@[k] != '\n',
            decreases n - end,
        {
            end += 1;
        }
        proof {
            assert forall|k: int| 0 <= k < end - start implies rest[k] != '\n' by {}
            lemma_line_end(rest, end - start);
        }
        if end == n {
            let line = string_of(&chars, start, n);
            lines.push(line);
            start = n;
        } else {
            let stop = if end > start && chars[end - 1] == '\r' {
                end - 1
            } else {
                end
            };
            let line = string_of(&chars, start, stop);
            proof {
                let raw = rest.take(end - start);
                assert(raw =~= chars@.subrange(start as int, end as int));
                if end > start && chars@[end - 1] == '\r' {
                    assert(raw.drop_last() =~= chars@.subrange(start as int, stop as int));
                }
                assert(rest.skip(end - start + 1) =~= chars@.skip(end + 1));
            }
            lines.push(line);
            start = end + 1;
        }
    }
    lines
}

/// The texts of `parts` in a row, with `separator` between every two.
pub open spec fn joined(parts: Seq<Seq<char>>, separator: Seq<char>) -> Seq<char>
    decreases parts.len(),
{
    if parts.len() == 0 {
        Seq::empty()
    } else if parts.len() == 1 {
        parts[0]
    } else {
        joined(parts.drop_last(), separator) + separator + parts.last()
    }
}

/// Joins `parts` with `separator` between every two of them.
pub fn join(parts: &Vec<String>, separator: &str) -> (out: String)
    ensures
        out@ == joined(texts_of(parts@), separator@),
{
    let mut out = String::new();
    let mut i: usize = 0;
    while i < parts.len()
        invariant
            i <= parts@.len(),
            out@ == joined(texts_of(parts@).take(i as int), separator@),
        decreases parts@.len() - i,
    {
        let ghost before = texts_of(parts@).take(i as int);
        let ghost after = texts_of(parts@).take(i + 1);
        assert(after.drop_last() =~= before);
        if i > 0 {
            out.append(separator);
        }
        out.append(parts[i].as_str());
        i += 1;
    }
    assert(texts_of(parts@).take(parts@.len() as int) =~= texts_of(parts@));
    out
}

} // verus!
