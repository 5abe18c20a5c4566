//! How a service reads what the agent writes: JSON objects without objects or
//! arrays inside, and without white space between their parts.
//!
//! A string is read up to the next double quote, as it stands: what the agent
//! writes has no escapes.
use vstd::prelude::*;

use crate::text;

verus! {

/// The value of a member.
#[verifier::ext_equal]
pub enum FlatValue {
    /// A string, without its quotes.
    Text(Seq<char>),
    /// A number, `true` or `false`, as it is written.
    Bare(Seq<char>),
}

/// A member: its name and its value.
pub type FlatMember = (Seq<char>, FlatValue);

/// The string that `s` starts with, and what follows it.
pub open spec fn text_at(s: Seq<char>) -> Option<(Seq<char>, Seq<char>)> {
    let at = text::first_at(s.drop_first(), '"');
    if s.len() > 0 && s.first() == '"' && 0 <= at < s.len() - 1 {
        Some((s.subrange(1, 1 + at), s.skip(at + 2)))
    } else {
        None
    }
}

/// How many characters stand in `s` before the end of a member.
pub open spec fn bare_len(s: Seq<char>) -> nat
    decreases s.len(),
{
    if s.len() == 0 || s.first() == ',' || s.first() == '}' {
        0
    } else {
        1 + bare_len(s.drop_first())
    }
}

/// The value that `s` starts with, and what follows it.
pub open spec fn value_at(s: Seq<char>) -> Option<(FlatValue, Seq<char>)> {
    if s.len() > 0 && s.first() == '"' {
        match text_at(s) {
            Some((text, rest)) => Some((FlatValue::Text(text), rest)),
            None => None,
        }
    } else if 0 < bare_len(s) <= s.len() {
        Some((FlatValue::Bare(s.take(bare_len(s) as int)), s.skip(bare_len(s) as int)))
    } else {
        None
    }
}

/// The members that `s` holds up to the brace at its end, in order.
#[verifier::opaque]
pub open spec fn members_at(s: Seq<char>) -> Option<Seq<FlatMember>>
    decreases s.len(),
{
    match text_at(s) {
        Some((name, after)) if after.len() > 0 && after.first() == ':' => match value_at(
            after.drop_first(),
        ) {
            Some((value, rest)) => if rest == seq!['}'] {
                Some(seq![(name, value)])
            } else if rest.len() > 0 && rest.first() == ',' {
                match members_at(rest.drop_first()) {
                    Some(more) => Some(seq![(name, value)] + more),
                    None => None,
                }
            } else {
                None
            },
            None => None,
        },
        _ => None,
    }
}

/// The members of the object that `s` is, if it is one.
pub open spec fn object(s: Seq<char>) -> Option<Seq<FlatMember>> {
    if s.len() > 0 && s.first() == '{' {
        members_at(s.drop_first())
    } else {
        None
    }
}

/// A value as it is written.
pub open spec fn written(value: FlatValue) -> Seq<char> {
    match value {
        FlatValue::Text(text) => seq!['"'] + text + seq!['"'],
        FlatValue::Bare(text) => text,
    }
}

/// A member as it is written.
pub open spec fn written_member(name: Seq<char>, value: FlatValue) -> Seq<char> {
    seq!['"'] + name + seq!['"', ':'] + written(value)
}

/// Whether a value can be read back: a string without quotes, and anything else
/// without what ends a member.
pub open spec fn readable(value: FlatValue) -> bool {
    match value {
        FlatValue::Text(text) => text::lacks(text, '"'),
        FlatValue::Bare(text) => text.len() > 0 && text.first() != '"' && text::lacks(text, ',')
            && text::lacks(text, '}'),
    }
}

proof fn lemma_text_at(text: Seq<char>, rest: Seq<char>)
    requires
        text::lacks(text, '"'),
    ensures
        text_at(seq!['"'] + text + seq!['"'] + rest) == Some((text, rest)),
{
    let s = seq!['"'] + text + seq!['"'] + rest;
    let n = text.len() as int;
    assert forall|i: int| 0 <= i < n implies s.drop_first()[i] != '"' by {
        assert(s.drop_first()[i] == text[i]);
    }
    assert(s.drop_first()[n] == '"');
    text::lemma_first_at_is(s.drop_first(), '"', n);
    assert(s.subrange(1, 1 + n) == text);
    assert(s.skip(n + 2) == rest);
}

proof fn lemma_bare_len(text: Seq<char>, rest: Seq<char>)
    requires
        text::lacks(text, ','),
        text::lacks(text, '}'),
        rest.len() > 0,
        rest.first() == ',' || rest.first() == '}',
    ensures
        bare_len(text + rest) == text.len(),
    decreases text.len(),
{
    if text.len() == 0 {
        assert(text + rest == rest);
    } else {
        let shorter = text.drop_first();
        assert((text + rest).drop_first() == shorter + rest);
        assert((text + rest).first() == text[0]);
        assert forall|i: int| 0 <= i < shorter.len() implies #[trigger] shorter[i] != ','
            && shorter[i] != '}' by {
            assert(shorter[i] == text[i + 1]);
        }
        lemma_bare_len(shorter, rest);
    }
}

proof fn lemma_value_at(value: FlatValue, rest: Seq<char>)
    requires
        readable(value),
        rest.len() > 0,
        rest.first() == ',' || rest.first() == '}',
    ensures
        value_at(written(value) + rest) == Some((value, rest)),
{
    let s = written(value) + rest;
    match value {
        FlatValue::Text(text) => {
            lemma_text_at(text, rest);
            assert(s.first() == '"');
        },
        FlatValue::Bare(text) => {
            lemma_bare_len(text, rest);
            assert(s.first() == text.first());
            assert(s.take(text.len() as int) == text);
            assert(s.skip(text.len() as int) == rest);
        },
    }
}

proof fn lemma_member(name: Seq<char>, value: FlatValue, rest: Seq<char>)
    requires
        text::lacks(name, '"'),
        readable(value),
        rest.len() > 0,
        rest.first() == ',' || rest.first() == '}',
    ensures
        ({
            let s = written_member(name, value) + rest;
            text_at(s) matches Some((found, after)) && found == name && after.len() > 0
                && after.first() == ':' && value_at(after.drop_first()) == Some((value, rest))
        }),
{
    let s = written_member(name, value) + rest;
    let after = seq![':'] + (written(value) + rest);
    assert(s == seq!['"'] + name + seq!['"'] + after);
    lemma_text_at(name, after);
    assert(after.drop_first() == written(value) + rest);
    lemma_value_at(value, rest);
}

/// A member before others is read first.
pub proof fn law_first_member_is_read(name: Seq<char>, value: FlatValue, more: Seq<char>)
    requires
        text::lacks(name, '"'),
        readable(value),
        members_at(more) is Some,
    ensures
        members_at(written_member(name, value) + seq![','] + more) == Some(
            seq![(name, value)] + members_at(more)->0,
        ),
{
    reveal(members_at);
    let rest = seq![','] + more;
    assert(written_member(name, value) + seq![','] + more == written_member(name, value) + rest);
    lemma_member(name, value, rest);
    assert(rest.drop_first() == more);
}

/// The last member is read.
pub proof fn law_last_member_is_read(name: Seq<char>, value: FlatValue)
    requires
        text::lacks(name, '"'),
        readable(value),
    ensures
        members_at(written_member(name, value) + seq!['}']) == Some(seq![(name, value)]),
{
    reveal(members_at);
    lemma_member(name, value, seq!['}']);
}

} // verus!
