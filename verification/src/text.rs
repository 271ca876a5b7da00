//! Strings as sequences of characters.

use vstd::prelude::*;

verus! {

/// The Unicode property `White_Space`.
pub open spec fn is_white_space(c: char) -> bool {
    ||| '\u{9}' <= c <= '\u{d}'
    ||| c == ' '
    ||| c == '\u{85}'
    ||| c == '\u{a0}'
    ||| c == '\u{1680}'
    ||| '\u{2000}' <= c <= '\u{200a}'
    ||| c == '\u{2028}'
    ||| c == '\u{2029}'
    ||| c == '\u{202f}'
    ||| c == '\u{205f}'
    ||| c == '\u{3000}'
}

/// `s` without its leading white space.
pub open spec fn trimmed_start(s: Seq<char>) -> Seq<char>
    decreases s.len(),
{
    if s.len() > 0 && is_white_space(s[0]) {
        trimmed_start(s.drop_first())
    } else {
        s
    }
}

/// `s` without its trailing white space.
pub open spec fn trimmed_end(s: Seq<char>) -> Seq<char>
    decreases s.len(),
{
    if s.len() > 0 && is_white_space(s.last()) {
        trimmed_end(s.drop_last())
    } else {
        s
    }
}

/// `s` without white space at either end.
pub open spec fn trimmed(s: Seq<char>) -> Seq<char> {
    trimmed_end(trimmed_start(s))
}

/// `str::trim` returns the slice without leading and trailing characters of the
/// property `White_Space`.
pub assume_specification[ str::trim ](s: &str) -> (r: &str)
    ensures
        r@ == trimmed(s@),
;

/// `String::push` appends one character.
pub assume_specification[ String::push ](s: &mut String, c: char)
    ensures
        final(s)@ == old(s)@.push(c),
;

/// `String::pop` removes the last character and returns it, or returns `None`
/// on an empty string.
pub assume_specification[ String::pop ](s: &mut String) -> (r: Option<char>)
    ensures
        old(s)@.len() == 0 ==> r is None && final(s)@ == old(s)@,
        old(s)@.len() > 0 ==> r == Some(old(s)@.last()) && final(s)@ == old(s)@.drop_last(),
;

/// The ASCII lower case of a character; other characters stay as they are.
pub open spec fn ascii_lower(c: char) -> char {
    if 'A' <= c <= 'Z' {
        (c as u32 + 32) as char
    } else {
        c
    }
}

/// Whether two texts agree up to the case of their ASCII letters.
pub open spec fn same_ignoring_case(a: Seq<char>, b: Seq<char>) -> bool {
    a.len() == b.len() && forall|i: int|
        0 <= i < a.len() ==> ascii_lower(#[trigger] a[i]) == ascii_lower(b[i])
}

/// `str::eq_ignore_ascii_case` compares two strings, treating ASCII letters of
/// either case as equal.
pub assume_specification[ str::eq_ignore_ascii_case ](s: &str, other: &str) -> (r: bool)
    ensures
        r == same_ignoring_case(s@, other@),
;

/// The Unicode upper case of a text.
pub uninterp spec fn uppercase(s: Seq<char>) -> Seq<char>;

/// `str::to_uppercase` returns the upper case of the string, which depends on
/// its characters alone.
pub assume_specification[ str::to_uppercase ](s: &str) -> (r: String)
    ensures
        r@ == uppercase(s@),
;

/// The text that bytes stand for, with U+FFFD in place of what is not UTF-8.
pub uninterp spec fn utf8_lossy(bytes: Seq<u8>) -> Seq<char>;

/// `String::from_utf8_lossy` decodes bytes; valid UTF-8 comes out as it is.
#[verifier::external_body]
pub(crate) fn lossy_text(bytes: &[u8]) -> (r: String)
    ensures
        r@ == utf8_lossy(bytes@),
        vstd::utf8::valid_utf8(bytes@) ==> r@ == vstd::utf8::decode_utf8(bytes@),
{
    String::from_utf8_lossy(bytes).into_owned()
}

/// The decimal digit of `d`, for `d` below ten.
pub open spec fn digit(d: nat) -> char {
    ('0' as u32 + d) as char
}

/// `n` in decimal, without leading zeros.
pub open spec fn decimal(n: nat) -> Seq<char>
    decreases n,
{
    if n < 10 {
        seq![digit(n)]
    } else {
        decimal(n / 10).push(digit(n % 10))
    }
}

/// Appends `n` in decimal.
pub fn push_decimal(s: &mut String, n: u64)
    ensures
        final(s)@ == old(s)@ + decimal(n as nat),
    decreases n,
{
    let ghost before = s@;
    if n >= 10 {
        push_decimal(s, n / 10);
    }
    let d: u8 = 48 + (n % 10) as u8;
    s.push(d as char);
    assert(s@ =~= before + decimal(n as nat));
}

/// `parts` one after the other, with `sep` between neighbours.
pub open spec fn joined(parts: Seq<Seq<char>>, sep: Seq<char>) -> Seq<char>
    decreases parts.len(),
{
    if parts.len() == 0 {
        Seq::empty()
    } else if parts.len() == 1 {
        parts[0]
    } else {
        joined(parts.drop_last(), sep) + sep + parts.last()
    }
}

/// The contents of a list of strings.
pub open spec fn texts(list: Seq<String>) -> Seq<Seq<char>> {
    list.map_values(|s: String| s@)
}

/// Joins strings with a separator.
pub fn join(parts: &Vec<String>, sep: &str) -> (r: String)
    ensures
        r@ == joined(texts(parts@), sep@),
{
    let mut r = String::new();
    let mut i: usize = 0;
    while i < parts.len()
        invariant
            i <= parts.len(),
            r@ == joined(texts(parts@).take(i as int), sep@),
        decreases parts.len() - i,
    {
        let ghost next = texts(parts@).take(i + 1);
        assert(next.drop_last() =~= texts(parts@).take(i as int));
        if i > 0 {
            r.append(sep);
        } else {
            assert(r@ =~= Seq::empty());
        }
        r.append(parts[i].as_str());
        assert(r@ =~= joined(next, sep@));
        i += 1;
    }
    assert(texts(parts@).take(i as int) =~= texts(parts@));
    r
}

/// `unit` written `n` times.
pub open spec fn repeated(unit: Seq<char>, n: nat) -> Seq<char>
    decreases n,
{
    if n == 0 {
        Seq::empty()
    } else {
        repeated(unit, (n - 1) as nat) + unit
    }
}

/// Writes `unit` `n` times.
pub fn repeat(unit: &str, n: usize) -> (r: String)
    ensures
        r@ == repeated(unit@, n as nat),
{
    let mut r = String::new();
    let mut i: usize = 0;
    while i < n
        invariant
            i <= n,
            r@ == repeated(unit@, i as nat),
        decreases n - i,
    {
        r.append(unit);
        i += 1;
    }
    r
}

/// The pieces of `s` between its newlines: one more than there are newlines.
pub open spec fn split_newlines(s: Seq<char>) -> Seq<Seq<char>>
    decreases s.len(),
{
    if s.len() == 0 {
        seq![Seq::empty()]
    } else {
        let before = split_newlines(s.drop_last());
        if s.last() == '\n' {
            before.push(Seq::empty())
        } else {
            before.drop_last().push(before.last().push(s.last()))
        }
    }
}

/// Splitting gives at least one piece.
pub proof fn lemma_split_nonempty(s: Seq<char>)
    ensures
        split_newlines(s).len() > 0,
    decreases s.len(),
{
    if s.len() > 0 {
        lemma_split_nonempty(s.drop_last());
    }
}

/// Splits a text at its newlines.
pub fn split_lines(text: &str) -> (r: Vec<String>)
    ensures
        texts(r@) == split_newlines(text@),
        r@.len() > 0,
{
    let mut done: Vec<String> = Vec::new();
    let mut current = String::new();
    assert(split_newlines(text@.take(0)) =~= texts(done@).push(current@));
    for ch in it: text.chars()
        invariant
            it.seq() == text@,
            split_newlines(text@.take(it.index() as int)) == texts(done@).push(current@),
    {
        let ghost i = it.index() as int;
        let ghost pieces = texts(done@).push(current@);
        assert(text@.take(i + 1).drop_last() =~= text@.take(i));
        if ch == '\n' {
            done.push(current);
            current = String::new();
            assert(texts(done@) =~= pieces);
        } else {
            current.push(ch);
            assert(pieces.drop_last() =~= texts(done@));
        }
    }
    assert(text@.take(text@.len() as int) =~= text@);
    let ghost pieces = texts(done@).push(current@);
    done.push(current);
    assert(texts(done@) =~= pieces);
    done
}

/// The row and the column behind the last character of `text`: how many
/// newlines it holds, and how many characters follow the last of them.
pub open spec fn end_position(text: Seq<char>) -> (nat, nat) {
    ((split_newlines(text).len() - 1) as nat, split_newlines(text).last().len())
}

/// The row and the column of a cursor behind the last character of `text`.
pub fn cursor_for_multiline(text: &str) -> (r: (usize, usize))
    ensures
        r.0 == end_position(text@).0,
        r.1 == end_position(text@).1,
{
    let total: usize = text.unicode_len();
    let mut line: usize = 0;
    let mut col: usize = 0;
    let mut seen: usize = 0;
    assert(text@.take(0) =~= Seq::empty());
    for ch in it: text.chars()
        invariant
            it.seq() == text@,
            total == text@.len(),
            seen == it.index(),
            line + col <= seen,
            split_newlines(text@.take(it.index() as int)).len() == line + 1,
            split_newlines(text@.take(it.index() as int)).last().len() == col,
    {
        let ghost i = it.index() as int;
        assert(text@.take(i + 1).drop_last() =~= text@.take(i));
        if ch == '\n' {
            line += 1;
            col = 0;
        } else {
            col += 1;
        }
        seen += 1;
    }
    assert(text@.take(text@.len() as int) =~= text@);
    (line, col)
}

/// `line` without one carriage return at its end.
pub open spec fn without_return(line: Seq<char>) -> Seq<char> {
    if line.len() > 0 && line.last() == '\r' {
        line.drop_last()
    } else {
        line
    }
}

/// The lines of a text: each ends at a newline, or at a carriage return and a
/// newline, and the newline of the last one may be missing.
pub open spec fn lines_of(s: Seq<char>) -> Seq<Seq<char>> {
    let pieces = split_newlines(s);
    let ended = pieces.drop_last().map_values(|line: Seq<char>| without_return(line));
    if pieces.last().len() == 0 {
        ended
    } else {
        ended.push(pieces.last())
    }
}

/// The last of `lines` that starts with `prefix`.
pub open spec fn last_with_prefix(lines: Seq<Seq<char>>, prefix: Seq<char>) -> Option<Seq<char>>
    decreases lines.len(),
{
    if lines.len() == 0 {
        None
    } else if prefix.is_prefix_of(lines.last()) {
        Some(lines.last())
    } else {
        last_with_prefix(lines.drop_last(), prefix)
    }
}

/// Whether `text` starts with `prefix`.
pub fn starts_with(text: &str, prefix: &str) -> (r: bool)
    ensures
        r == prefix@.is_prefix_of(text@),
{
    let n: usize = prefix.unicode_len();
    if text.unicode_len() < n {
        return false;
    }
    let mut i: usize = 0;
    while i < n
        invariant
            i <= n,
            n == prefix@.len(),
            n <= text@.len(),
            prefix@.take(i as int) =~= text@.take(i as int),
        decreases n - i,
    {
        if prefix.get_char(i) != text.get_char(i) {
            assert(text@.subrange(0, n as int)[i as int] != prefix@[i as int]);
            return false;
        }
        assert(prefix@.take(i + 1) =~= prefix@.take(i as int).push(prefix@[i as int]));
        assert(text@.take(i + 1) =~= text@.take(i as int).push(text@[i as int]));
        i += 1;
    }
    assert(prefix@.take(n as int) =~= prefix@);
    true
}

/// Finds the last line that starts with `prefix`.
pub fn find_last_line(text: &str, prefix: &str) -> (r: Option<String>)
    ensures
        r is Some == last_with_prefix(lines_of(text@), prefix@) is Some,
        r matches Some(line) ==> last_with_prefix(lines_of(text@), prefix@) == Some(line@),
{
    let pieces = split_lines(text);
    let ghost lines = lines_of(text@);
    let last: usize = pieces.len() - 1;
    if !pieces[last].as_str().is_empty() {
        assert(lines.drop_last() =~= lines.take(last as int));
        if starts_with(pieces[last].as_str(), prefix) {
            return Some(pieces[last].clone());
        }
    } else {
        assert(lines =~= lines.take(last as int));
    }
    let mut i: usize = last;
    while i > 0
        invariant
            i <= last,
            last < pieces.len(),
            pieces.len() == last + 1,
            texts(pieces@) == split_newlines(text@),
            lines == lines_of(text@),
            last_with_prefix(lines, prefix@) == last_with_prefix(lines.take(i as int), prefix@),
        decreases i,
    {
        i -= 1;
        let mut line = pieces[i].clone();
        if let Some(c) = line.pop() {
            if c != '\r' {
                line.push(c);
            }
        }
        assert(texts(pieces@)[i as int] == pieces[i as int]@);
        assert(line@ =~= lines[i as int]);
        assert(lines.take(i + 1).drop_last() =~= lines.take(i as int));
        if starts_with(line.as_str(), prefix) {
            return Some(line);
        }
    }
    None
}

} // verus!
