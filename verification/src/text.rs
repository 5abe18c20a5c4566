//! Text as a sequence of characters: the few operations on it that the agent
//! needs, each with an exact meaning.
use vstd::prelude::*;

verus! {

/// `String::push` appends the character at the end of the string.
pub assume_specification[ String::push ](s: &mut String, c: char)
    ensures
        final(s)@ == old(s)@.push(c),
;

/// The characters of `s`, in order.
pub fn chars_of(s: &str) -> (chars: Vec<char>)
    ensures
        chars@ == s@,
{
    let mut chars: Vec<char> = Vec::new();
    for c in it: s.chars()
        invariant
            it.seq() == s@,
            chars@ == it.seq().take(it.index() as int),
    {
        chars.push(c);
    }
    chars
}

/// The text made of the characters of `chars` from `from` up to `to`.
pub fn text_of(chars: &[char], from: usize, to: usize) -> (text: String)
    requires
        from <= to <= chars@.len(),
    ensures
        text@ == chars@.subrange(from as int, to as int),
{
    let mut text = String::new();
    let mut i: usize = from;
    while i < to
        invariant
            from <= i <= to <= chars@.len(),
            text@ == chars@.subrange(from as int, i as int),
        decreases to - i,
    {
        text.push(chars[i]);
        i = i + 1;
    }
    text
}

/// Whether two texts are the same, character by character.
pub fn same_text(a: &str, b: &str) -> (same: bool)
    ensures
        same == (a@ == b@),
{
    a.to_owned() == b.to_owned()
}

/// The texts that a sequence of strings holds.
pub open spec fn texts(strings: Seq<String>) -> Seq<Seq<char>> {
    Seq::new(strings.len(), |i: int| strings[i]@)
}

/// Whether `c` has the Unicode property White_Space.
pub open spec fn is_white(c: char) -> bool {
    ||| '\u{9}' <= c <= '\u{d}'
    ||| c == '\u{20}'
    ||| c == '\u{85}'
    ||| c == '\u{a0}'
    ||| c == '\u{1680}'
    ||| '\u{2000}' <= c <= '\u{200a}'
    ||| c == '\u{2028}'
    ||| c == '\u{2029}'
    ||| c == '\u{202f}'
    ||| c == '\u{205f}'
    ||| c == '\u{3000}'
}

/// Decides [`is_white`].
pub fn is_whitespace(c: char) -> (white: bool)
    ensures
        white == is_white(c),
{
    ('\u{9}' <= c && c <= '\u{d}') || c == '\u{20}' || c == '\u{85}' || c == '\u{a0}'
        || c == '\u{1680}' || ('\u{2000}' <= c && c <= '\u{200a}') || c == '\u{2028}'
        || c == '\u{2029}' || c == '\u{202f}' || c == '\u{205f}' || c == '\u{3000}'
}

/// `s` without the white space that it starts with.
pub open spec fn trimmed_start(s: Seq<char>) -> Seq<char>
    decreases s.len(),
{
    if s.len() > 0 && is_white(s.first()) {
        trimmed_start(s.drop_first())
    } else {
        s
    }
}

/// `s` without the white space that it ends with.
pub open spec fn trimmed_end(s: Seq<char>) -> Seq<char>
    decreases s.len(),
{
    if s.len() > 0 && is_white(s.last()) {
        trimmed_end(s.drop_last())
    } else {
        s
    }
}

/// `s` without the white space at either end.
pub open spec fn trimmed(s: Seq<char>) -> Seq<char> {
    trimmed_end(trimmed_start(s))
}

/// Removes the white space at both ends of `s`.
pub fn trim(s: &str) -> (text: String)
    ensures
        text@ == trimmed(s@),
{
    let chars = chars_of(s);
    let n: usize = chars.len();
    let mut start: usize = 0;
    assert(chars@.skip(0) == chars@);
    while start < n && is_whitespace(chars[start])
        invariant
            n == chars@.len(),
            start <= n,
            trimmed_start(chars@) == trimmed_start(chars@.skip(start as int)),
        decreases n - start,
    {
        assert(chars@.skip(start as int).drop_first() == chars@.skip(start + 1));
        start = start + 1;
    }
    assert(trimmed_start(chars@) == chars@.skip(start as int));
    let mut end: usize = n;
    assert(chars@.subrange(start as int, n as int) == chars@.skip(start as int));
    while end > start && is_whitespace(chars[end - 1])
        invariant
            n == chars@.len(),
            start <= end <= n,
            trimmed(chars@) == trimmed_end(chars@.subrange(start as int, end as int)),
        decreases end,
    {
        assert(chars@.subrange(start as int, end as int).drop_last() == chars@.subrange(
            start as int,
            end - 1,
        ));
        end = end - 1;
    }
    text_of(chars.as_slice(), start, end)
}

/// The first `n` characters of `s`, or all of them where it has fewer.
pub open spec fn first_chars(s: Seq<char>, n: nat) -> Seq<char> {
    if s.len() <= n {
        s
    } else {
        s.take(n as int)
    }
}

/// Keeps at most the first `n` characters of `s`.
pub fn take_chars(s: &str, n: usize) -> (text: String)
    ensures
        text@ == first_chars(s@, n as nat),
{
    let chars = chars_of(s);
    let end: usize = if chars.len() <= n { chars.len() } else { n };
    text_of(chars.as_slice(), 0, end)
}

/// Whether `pattern` stands in `s` from position `at` on.
pub open spec fn stands_at(s: Seq<char>, pattern: Seq<char>, at: int) -> bool {
    &&& 0 <= at
    &&& at + pattern.len() <= s.len()
    &&& s.subrange(at, at + pattern.len()) == pattern
}

/// Whether `pattern` stands somewhere in `s`.
pub open spec fn has_text(s: Seq<char>, pattern: Seq<char>) -> bool {
    exists|at: int| stands_at(s, pattern, at)
}

/// Decides [`has_text`].
pub fn contains(s: &str, pattern: &str) -> (found: bool)
    ensures
        found == has_text(s@, pattern@),
{
    let chars = chars_of(s);
    let wanted = chars_of(pattern);
    if wanted.len() > chars.len() {
        return false;
    }
    let n: usize = chars.len();
    let last: usize = n - wanted.len();
    let mut at: usize = 0;
    while at <= last
        invariant
            chars@ == s@,
            wanted@ == pattern@,
            last + wanted@.len() == n == chars@.len(),
            at <= last + 1,
            forall|k: int| 0 <= k < at ==> !#[trigger] stands_at(s@, pattern@, k),
        decreases last + 1 - at,
    {
        let mut i: usize = 0;
        while i < wanted.len() && chars[at + i] == wanted[i]
            invariant
                chars@ == s@,
                wanted@ == pattern@,
                at <= last,
                last + wanted@.len() == n == chars@.len(),
                i <= wanted@.len(),
                s@.subrange(at as int, at + i) == pattern@.take(i as int),
            decreases wanted.len() - i,
        {
            assert(s@.subrange(at as int, at + i + 1) == s@.subrange(at as int, at + i).push(
                s@[at + i],
            ));
            assert(pattern@.take(i + 1) == pattern@.take(i as int).push(pattern@[i as int]));
            i = i + 1;
        }
        if i == wanted.len() {
            assert(pattern@.take(i as int) == pattern@);
            assert(stands_at(s@, pattern@, at as int));
            return true;
        }
        assert(!stands_at(s@, pattern@, at as int)) by {
            assert(s@.subrange(at as int, at + pattern@.len())[i as int] == s@[at + i]);
        }
        if at == last {
            return false;
        }
        at = at + 1;
    }
    false
}

/// `s` with every `from` turned into `to`.
pub open spec fn replaced(s: Seq<char>, from: char, to: char) -> Seq<char> {
    Seq::new(
        s.len(),
        |i: int|
            if s[i] == from {
                to
            } else {
                s[i]
            },
    )
}

/// Turns every `from` in `s` into `to`.
pub fn replace_char(s: &str, from: char, to: char) -> (text: String)
    ensures
        text@ == replaced(s@, from, to),
{
    let chars = chars_of(s);
    let mut text = String::new();
    let mut i: usize = 0;
    while i < chars.len()
        invariant
            chars@ == s@,
            i <= chars@.len(),
            text@ == replaced(s@.take(i as int), from, to),
        decreases chars.len() - i,
    {
        text.push(
            if chars[i] == from {
                to
            } else {
                chars[i]
            },
        );
        i = i + 1;
    }
    assert(s@.take(i as int) == s@);
    text
}

/// Where `c` first stands in `s`; the length of `s` where it does not.
pub open spec fn first_at(s: Seq<char>, c: char) -> int
    decreases s.len(),
{
    if s.len() == 0 || s.first() == c {
        0
    } else {
        1 + first_at(s.drop_first(), c)
    }
}

/// [`first_at`] lies in `0..=s.len()`, and is the position of the first `c`.
proof fn lemma_first_at(s: Seq<char>, c: char)
    ensures
        0 <= first_at(s, c) <= s.len(),
        forall|i: int| 0 <= i < first_at(s, c) ==> s[i] != c,
        first_at(s, c) < s.len() ==> s[first_at(s, c)] == c,
    decreases s.len(),
{
    if s.len() > 0 && s.first() != c {
        lemma_first_at(s.drop_first(), c);
        assert forall|i: int| 0 <= i < first_at(s, c) implies s[i] != c by {
            if i > 0 {
                assert(s[i] == s.drop_first()[i - 1]);
            }
        }
    }
}

/// A position before which no `c` stands, and at which one stands or `s` ends,
/// is [`first_at`].
pub proof fn lemma_first_at_is(s: Seq<char>, c: char, at: int)
    requires
        0 <= at <= s.len(),
        forall|i: int| 0 <= i < at ==> s[i] != c,
        at < s.len() ==> s[at] == c,
    ensures
        first_at(s, c) == at,
{
    lemma_first_at(s, c);
}

/// A line without the carriage return that stands before its line feed.
pub open spec fn without_return(line: Seq<char>) -> Seq<char> {
    if line.len() > 0 && line.last() == '\r' {
        line.drop_last()
    } else {
        line
    }
}

/// The lines of `s`: each ends at a line feed, with or without a carriage
/// return before it, or at the end of `s`. Nothing after the last line feed is
/// no line.
pub open spec fn lines_of(s: Seq<char>) -> Seq<Seq<char>>
    decreases s.len(),
{
    let at = first_at(s, '\n');
    if s.len() == 0 {
        Seq::empty()
    } else if at < 0 || at >= s.len() {
        seq![s]
    } else {
        seq![without_return(s.take(at))] + lines_of(s.skip(at + 1))
    }
}

/// Splits `s` into its lines.
pub fn lines(s: &str) -> (found: Vec<String>)
    ensures
        texts(found@) == lines_of(s@),
{
    let chars = chars_of(s);
    let n: usize = chars.len();
    let mut found: Vec<String> = Vec::new();
    let mut start: usize = 0;
    assert(s@.skip(0) == s@);
    assert(texts(found@) + lines_of(s@) == lines_of(s@));
    while start < n
        invariant
            chars@ == s@,
            n == chars@.len(),
            start <= n,
            texts(found@) + lines_of(s@.skip(start as int)) == lines_of(s@),
        decreases n - start,
    {
        let ghost rest = s@.skip(start as int);
        let ghost before = found@;
        let mut end: usize = start;
        while end < n && chars[end] != '\n'
            invariant
                chars@ == s@,
                n == chars@.len(),
                start <= end <= n,
                rest == s@.skip(start as int),
                forall|i: int| 0 <= i < end - start ==> rest[i] != '\n',
            decreases n - end,
        {
            end = end + 1;
        }
        proof {
            lemma_first_at_is(rest, '\n', end - start);
        }
        if end == n {
            found.push(text_of(chars.as_slice(), start, end));
            start = n;
            proof {
                assert(s@.subrange(start as int, end as int) == Seq::<char>::empty());
                assert(lines_of(rest) == seq![rest]);
                assert(found@.last()@ == rest);
                assert(texts(found@) == texts(before) + seq![rest]);
                assert(s@.skip(start as int) == Seq::<char>::empty());
                assert(texts(found@) + lines_of(s@.skip(start as int)) == texts(before) + lines_of(
                    rest,
                ));
            }
        } else {
            let stop: usize = if end > start && chars[end - 1] == '\r' { end - 1 } else { end };
            found.push(text_of(chars.as_slice(), start, stop));
            proof {
                assert(rest.take(end - start) == s@.subrange(start as int, end as int));
                assert(found@.last()@ == without_return(rest.take(end - start)));
                assert(rest.skip(end - start + 1) == s@.skip(end + 1));
                assert(texts(found@) == texts(before) + seq![found@.last()@]);
                assert(texts(found@) + lines_of(s@.skip(end + 1)) == texts(before) + lines_of(rest));
            }
            start = end + 1;
        }
    }
    assert(s@.skip(start as int) == Seq::<char>::empty());
    assert(texts(found@) + lines_of(s@.skip(start as int)) == texts(found@));
    found
}

/// What follows the last `c` in `s`; all of `s` where no `c` stands in it.
pub open spec fn after_last(s: Seq<char>, c: char) -> Seq<char>
    decreases s.len(),
{
    if s.len() == 0 || s.last() == c {
        Seq::empty()
    } else {
        after_last(s.drop_last(), c).push(s.last())
    }
}

/// The part of `s` behind the last `c` in it.
pub fn last_field(s: &str, c: char) -> (field: String)
    ensures
        field@ == after_last(s@, c),
{
    let chars = chars_of(s);
    let n: usize = chars.len();
    let mut start: usize = n;
    assert(s@.take(n as int) == s@);
    assert(after_last(s@, c) == after_last(s@.take(n as int), c) + s@.skip(n as int));
    while start > 0 && chars[start - 1] != c
        invariant
            chars@ == s@,
            n == chars@.len(),
            start <= n,
            after_last(s@, c) == after_last(s@.take(start as int), c) + s@.skip(start as int),
        decreases start,
    {
        proof {
            let head = s@.take(start as int);
            assert(head.drop_last() == s@.take(start - 1));
            assert(after_last(head, c) == after_last(s@.take(start - 1), c).push(s@[start - 1]));
            assert(after_last(head, c) + s@.skip(start as int) == after_last(s@.take(start - 1), c)
                + s@.skip(start - 1));
        }
        start = start - 1;
    }
    assert(after_last(s@.take(start as int), c) == Seq::<char>::empty());
    assert(s@.subrange(start as int, n as int) == s@.skip(start as int));
    text_of(chars.as_slice(), start, n)
}

/// Trimming leaves no white space at either end.
pub proof fn law_trimmed_ends(s: Seq<char>)
    ensures
        trimmed(s).len() > 0 ==> !is_white(trimmed(s).first()) && !is_white(trimmed(s).last()),
{
    lemma_trimmed_start(s);
    lemma_trimmed_end(trimmed_start(s));
}

/// Trimming what is trimmed changes nothing.
pub proof fn law_trim_twice(s: Seq<char>)
    ensures
        trimmed(trimmed(s)) == trimmed(s),
{
    law_trimmed_ends(s);
}

proof fn lemma_trimmed_start(s: Seq<char>)
    ensures
        trimmed_start(s).len() > 0 ==> !is_white(trimmed_start(s).first()),
    decreases s.len(),
{
    if s.len() > 0 && is_white(s.first()) {
        lemma_trimmed_start(s.drop_first());
    }
}

proof fn lemma_trimmed_end(s: Seq<char>)
    ensures
        trimmed_end(s).len() > 0 ==> !is_white(trimmed_end(s).last()) && trimmed_end(s).first()
            == s.first(),
    decreases s.len(),
{
    if s.len() > 0 && is_white(s.last()) {
        lemma_trimmed_end(s.drop_last());
    }
}

/// Whether `s` is white space alone.
pub open spec fn all_white(s: Seq<char>) -> bool {
    forall|i: int| 0 <= i < s.len() ==> is_white(#[trigger] s[i])
}

/// Whether `s` has no white space at its ends.
pub open spec fn is_bare(s: Seq<char>) -> bool {
    s.len() > 0 ==> !is_white(s.first()) && !is_white(s.last())
}

/// Whether `c` stands nowhere in `s`.
pub open spec fn lacks(s: Seq<char>, c: char) -> bool {
    forall|i: int| 0 <= i < s.len() ==> #[trigger] s[i] != c
}

/// White space, by code point.
pub proof fn law_white_space(c: char)
    ensures
        is_white(c) <==> {
            let code = c as u32;
            9 <= code <= 13 || code == 32 || code == 133 || code == 160 || code == 5760 || 8192
                <= code <= 8202 || code == 8232 || code == 8233 || code == 8239 || code == 8287
                || code == 12288
        },
{
}

/// Trimming finds a text again, whatever white space surrounds it.
pub proof fn law_trim_finds_the_text(before: Seq<char>, core: Seq<char>, after: Seq<char>)
    requires
        all_white(before),
        is_bare(core),
        all_white(after),
    ensures
        trimmed(before + core + after) == core,
{
    assert(before + core + after == before + (core + after));
    lemma_white_before(before, core + after);
    if core.len() == 0 {
        assert(core + after == after + Seq::empty());
        lemma_white_before(after, Seq::empty());
    } else {
        assert((core + after).first() == core.first());
        lemma_white_after(core, after);
    }
}

proof fn lemma_white_before(before: Seq<char>, rest: Seq<char>)
    requires
        all_white(before),
    ensures
        trimmed_start(before + rest) == trimmed_start(rest),
    decreases before.len(),
{
    if before.len() == 0 {
        assert(before + rest == rest);
    } else {
        assert(is_white(before[0]));
        assert((before + rest).drop_first() == before.drop_first() + rest);
        assert forall|i: int| 0 <= i < before.drop_first().len() implies is_white(
            #[trigger] before.drop_first()[i],
        ) by {
            assert(before.drop_first()[i] == before[i + 1]);
        }
        lemma_white_before(before.drop_first(), rest);
    }
}

proof fn lemma_white_after(rest: Seq<char>, after: Seq<char>)
    requires
        all_white(after),
        rest.len() > 0,
        !is_white(rest.last()),
    ensures
        trimmed_end(rest + after) == rest,
    decreases after.len(),
{
    if after.len() == 0 {
        assert(rest + after == rest);
    } else {
        assert(is_white(after[after.len() - 1]));
        assert((rest + after).drop_last() == rest + after.drop_last());
        lemma_white_after(rest, after.drop_last());
    }
}

/// Cutting a text keeps its beginning: all of it where it is short enough, and
/// no character beyond the limit.
pub proof fn law_cut_keeps_the_beginning(head: Seq<char>, rest: Seq<char>)
    ensures
        first_chars(head + rest, head.len()) == head,
        forall|n: nat| n >= head.len() ==> #[trigger] first_chars(head, n) == head,
{
    assert((head + rest).take(head.len() as int) == head);
    if rest.len() == 0 {
        assert(head + rest == head);
    }
}

/// A text is found exactly where something before it and something after it
/// make up the whole.
pub proof fn law_found_text_is_there(s: Seq<char>, pattern: Seq<char>)
    ensures
        has_text(s, pattern) <==> exists|before: Seq<char>, after: Seq<char>|
            s == #[trigger] (before + pattern + after),
{
    if has_text(s, pattern) {
        let at = choose|at: int| stands_at(s, pattern, at);
        let before = s.take(at);
        let after = s.skip(at + pattern.len());
        assert forall|i: int| 0 <= i < s.len() implies s[i] == (before + pattern + after)[i] by {
            if at <= i < at + pattern.len() {
                assert(s.subrange(at, at + pattern.len())[i - at] == s[i]);
            }
        }
        assert(s == before + pattern + after);
    }
    if exists|before: Seq<char>, after: Seq<char>| s == #[trigger] (before + pattern + after) {
        let (before, after) = choose|before: Seq<char>, after: Seq<char>|
            s == #[trigger] (before + pattern + after);
        let at = before.len() as int;
        assert(s.subrange(at, at + pattern.len()) == pattern);
        assert(stands_at(s, pattern, at));
    }
}

/// Replacing a character turns it alone, in every place, and nothing else.
pub proof fn law_replacing_keeps_the_rest(s: Seq<char>, from: char, to: char)
    ensures
        replaced(s, from, to).len() == s.len(),
        forall|i: int|
            0 <= i < s.len() ==> {
                &&& s[i] == from ==> #[trigger] replaced(s, from, to)[i] == to
                &&& s[i] != from ==> replaced(s, from, to)[i] == s[i]
            },
{
}

/// A line that is put before a text becomes its first line, with either ending.
pub proof fn law_lines_come_apart(line: Seq<char>, rest: Seq<char>)
    requires
        lacks(line, '\n'),
    ensures
        line.len() == 0 || line.last() != '\r' ==> lines_of(line + seq!['\n'] + rest) == seq![line]
            + lines_of(rest),
        lines_of(line + seq!['\r', '\n'] + rest) == seq![line] + lines_of(rest),
        line.len() > 0 ==> lines_of(line) == seq![line],
        lines_of(Seq::empty()) == Seq::<Seq<char>>::empty(),
{
    let s = line + seq!['\n'] + rest;
    let n = line.len() as int;
    lemma_first_at_is(s, '\n', n);
    assert(s.take(n) == line);
    assert(s.skip(n + 1) == rest);
    let returned = line.push('\r');
    let r = line + seq!['\r', '\n'] + rest;
    assert forall|i: int| 0 <= i < n + 1 implies r[i] != '\n' by {
        if i < n {
            assert(r[i] == line[i]);
        }
    }
    lemma_first_at_is(r, '\n', n + 1);
    assert(r.take(n + 1) == returned);
    assert(returned.drop_last() == line);
    assert(r.skip(n + 2) == rest);
    lemma_first_at_is(line, '\n', n);
}

/// The last field is what was put behind the last separator.
pub proof fn law_last_field_is_behind(head: Seq<char>, field: Seq<char>, c: char)
    requires
        lacks(field, c),
    ensures
        after_last(head + seq![c] + field, c) == field,
        after_last(field, c) == field,
    decreases field.len(),
{
    let s = head + seq![c] + field;
    if field.len() == 0 {
        assert(s.last() == c);
    } else {
        assert(s.drop_last() == head + seq![c] + field.drop_last());
        law_last_field_is_behind(head, field.drop_last(), c);
        assert(s.last() == field.last());
        assert(field[field.len() - 1] != c);
        assert(field.drop_last().push(field.last()) == field);
    }
}

/// The texts of strings are theirs, one for one.
pub proof fn law_texts_are_those_of_the_strings(strings: Seq<String>)
    ensures
        texts(strings).len() == strings.len(),
        forall|i: int| 0 <= i < strings.len() ==> #[trigger] texts(strings)[i] == strings[i]@,
{
}

} // verus!
