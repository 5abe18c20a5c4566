//! Base64 with padding (RFC 4648, section 4), in which screenshots travel.
use vstd::prelude::*;

verus! {

/// The symbol for the six-bit number `v`.
pub open spec fn symbol(v: int) -> char {
    if v < 26 {
        ('A' as u32 + v) as char
    } else if v < 52 {
        ('a' as u32 + (v - 26)) as char
    } else if v < 62 {
        ('0' as u32 + (v - 52)) as char
    } else if v == 62 {
        '+'
    } else {
        '/'
    }
}

/// The Base64 text of `bytes`: four symbols for each three bytes; a last group
/// of one or two bytes is filled up with zero bits, and its text with `=`.
pub open spec fn base64_text(bytes: Seq<u8>) -> Seq<char>
    decreases bytes.len(),
{
    if bytes.len() == 0 {
        Seq::empty()
    } else if bytes.len() == 1 {
        seq![symbol(bytes[0] as int / 4), symbol(bytes[0] % 4 * 16), '=', '=']
    } else if bytes.len() == 2 {
        seq![
            symbol(bytes[0] as int / 4),
            symbol(bytes[0] % 4 * 16 + bytes[1] / 16),
            symbol(bytes[1] % 16 * 4),
            '=',
        ]
    } else {
        seq![
            symbol(bytes[0] as int / 4),
            symbol(bytes[0] % 4 * 16 + bytes[1] / 16),
            symbol(bytes[1] % 16 * 4 + bytes[2] / 64),
            symbol(bytes[2] as int % 64),
        ] + base64_text(bytes.skip(3))
    }
}

/// The six-bit number of a symbol; none for any other character.
pub open spec fn symbol_value(c: char) -> Option<int> {
    if 'A' <= c <= 'Z' {
        Some(c as u32 - 'A' as u32)
    } else if 'a' <= c <= 'z' {
        Some(c as u32 - 'a' as u32 + 26)
    } else if '0' <= c <= '9' {
        Some(c as u32 - '0' as u32 + 52)
    } else if c == '+' {
        Some(62)
    } else if c == '/' {
        Some(63)
    } else {
        None
    }
}

/// The bytes that a Base64 text stands for, where it is one.
pub open spec fn base64_bytes(text: Seq<char>) -> Option<Seq<u8>>
    decreases text.len(),
{
    if text.len() == 0 {
        Some(Seq::empty())
    } else if text.len() < 4 {
        None
    } else {
        match (
            symbol_value(text[0]),
            symbol_value(text[1]),
            symbol_value(text[2]),
            symbol_value(text[3]),
        ) {
            (Some(a), Some(b), Some(c), Some(d)) => match base64_bytes(text.skip(4)) {
                Some(rest) => Some(
                    seq![
                        (a * 4 + b / 16) as u8,
                        (b % 16 * 16 + c / 4) as u8,
                        (c % 4 * 64 + d) as u8,
                    ] + rest,
                ),
                None => None,
            },
            (Some(a), Some(b), Some(c), None) if text.len() == 4 && text[3] == '=' => Some(
                seq![(a * 4 + b / 16) as u8, (b % 16 * 16 + c / 4) as u8],
            ),
            (Some(a), Some(b), None, None) if text.len() == 4 && text[2] == '=' && text[3] == '='
                => Some(seq![(a * 4 + b / 16) as u8]),
            _ => None,
        }
    }
}

/// The symbol for `v`.
fn symbol_of(v: u32) -> (c: char)
    requires
        v < 64,
    ensures
        c == symbol(v as int),
{
    let code: u8 = if v < 26 {
        65 + v as u8
    } else if v < 52 {
        97 + (v - 26) as u8
    } else if v < 62 {
        48 + (v - 52) as u8
    } else if v == 62 {
        43
    } else {
        47
    };
    code as char
}

/// The four six-bit numbers that three bytes, joined into one number, hold.
proof fn lemma_sextets(b0: u32, b1: u32, b2: u32, n: u32)
    requires
        b0 < 256,
        b1 < 256,
        b2 < 256,
        n == (b0 << 16) | (b1 << 8) | b2,
    ensures
        n >> 18 == b0 / 4,
        (n >> 12) & 63 == b0 % 4 * 16 + b1 / 16,
        (n >> 6) & 63 == b1 % 16 * 4 + b2 / 64,
        n & 63 == b2 % 64,
{
    assert(n >> 18 == b0 / 4 && (n >> 12) & 63 == b0 % 4 * 16 + b1 / 16 && (n >> 6) & 63 == b1 % 16
        * 4 + b2 / 64 && n & 63 == b2 % 64) by (bit_vector)
        requires
            b0 < 256,
            b1 < 256,
            b2 < 256,
            n == (b0 << 16) | (b1 << 8) | b2,
    ;
}

/// Encodes `input` in Base64.
pub fn base64_encode(input: &[u8]) -> (out: String)
    ensures
        out@ == base64_text(input@),
{
    let len: usize = input.len();
    let mut out = String::new();
    let mut at: usize = 0;
    assert(input@.skip(0) == input@);
    assert(out@ + base64_text(input@) == base64_text(input@));
    while at < len
        invariant
            len == input@.len(),
            at <= len,
            out@ + base64_text(input@.skip(at as int)) == base64_text(input@),
        decreases len - at,
    {
        let ghost rest = input@.skip(at as int);
        let ghost before = out@;
        let left: usize = len - at;
        let b0: u32 = input[at] as u32;
        let b1: u32 = if left > 1 { input[at + 1] as u32 } else { 0 };
        let b2: u32 = if left > 2 { input[at + 2] as u32 } else { 0 };
        let n: u32 = (b0 << 16) | (b1 << 8) | b2;
        proof {
            lemma_sextets(b0, b1, b2, n);
        }
        out.push(symbol_of(n >> 18));
        out.push(symbol_of((n >> 12) & 63));
        out.push(
            if left > 1 {
                symbol_of((n >> 6) & 63)
            } else {
                '='
            },
        );
        out.push(
            if left > 2 {
                symbol_of(n & 63)
            } else {
                '='
            },
        );
        let ghost next: int = if left < 3 { len as int } else { at + 3 };
        proof {
            assert(rest[0] == input@[at as int]);
            if left < 3 {
                assert(input@.skip(next) == Seq::<u8>::empty());
            } else {
                assert(rest.skip(3) == input@.skip(next));
            }
            assert(out@ + base64_text(input@.skip(next)) == before + base64_text(rest));
        }
        at = if left < 3 { len } else { at + 3 };
    }
    assert(input@.skip(at as int) == Seq::<u8>::empty());
    assert(out@ + base64_text(input@.skip(at as int)) == out@);
    out
}

/// A six-bit number is found again from its symbol, which is not the padding.
proof fn lemma_symbol(v: int)
    requires
        0 <= v < 64,
    ensures
        symbol_value(symbol(v)) == Some(v),
        symbol(v) != '=',
        symbol(v) != '"',
        symbol(v) != '\\',
{
}

/// Decoding what was encoded gives the bytes back.
pub proof fn law_base64_is_read_back(bytes: Seq<u8>)
    ensures
        base64_bytes(base64_text(bytes)) == Some(bytes),
    decreases bytes.len(),
{
    let text = base64_text(bytes);
    if bytes.len() == 0 {
    } else {
        let b0 = bytes[0] as int;
        let b1 = if bytes.len() > 1 { bytes[1] as int } else { 0 };
        let b2 = if bytes.len() > 2 { bytes[2] as int } else { 0 };
        lemma_symbol(b0 / 4);
        lemma_symbol(b0 % 4 * 16 + b1 / 16);
        lemma_symbol(b1 % 16 * 4 + b2 / 64);
        lemma_symbol(b2 % 64);
        if bytes.len() >= 3 {
            law_base64_is_read_back(bytes.skip(3));
            assert(text.skip(4) == base64_text(bytes.skip(3)));
            assert(bytes == seq![bytes[0], bytes[1], bytes[2]] + bytes.skip(3));
        } else if bytes.len() == 2 {
            assert(bytes == seq![bytes[0], bytes[1]]);
        } else {
            assert(bytes == seq![bytes[0]]);
        }
    }
}

/// Different bytes have different Base64 texts.
pub proof fn law_base64_is_injective(a: Seq<u8>, b: Seq<u8>)
    requires
        base64_text(a) == base64_text(b),
    ensures
        a == b,
{
    law_base64_is_read_back(a);
    law_base64_is_read_back(b);
}

/// The text takes four characters for each three bytes begun.
pub proof fn law_base64_length(bytes: Seq<u8>)
    ensures
        base64_text(bytes).len() == (bytes.len() + 2) / 3 * 4,
    decreases bytes.len(),
{
    if bytes.len() >= 3 {
        law_base64_length(bytes.skip(3));
    }
}

/// The text holds symbols and padding alone, so it can stand between the quotes
/// of a JSON string as it is.
pub proof fn law_base64_alphabet(bytes: Seq<u8>)
    ensures
        forall|i: int|
            0 <= i < base64_text(bytes).len() ==> {
                let c = #[trigger] base64_text(bytes)[i];
                (symbol_value(c) is Some || c == '=') && c != '"' && c != '\\'
            },
    decreases bytes.len(),
{
    if bytes.len() > 0 {
        let b0 = bytes[0] as int;
        let b1 = if bytes.len() > 1 { bytes[1] as int } else { 0 };
        let b2 = if bytes.len() > 2 { bytes[2] as int } else { 0 };
        lemma_symbol(b0 / 4);
        lemma_symbol(b0 % 4 * 16 + b1 / 16);
        lemma_symbol(b1 % 16 * 4 + b2 / 64);
        lemma_symbol(b2 % 64);
        if bytes.len() >= 3 {
            law_base64_alphabet(bytes.skip(3));
            let rest = base64_text(bytes.skip(3));
            assert forall|i: int| 0 <= i < base64_text(bytes).len() implies {
                let c = #[trigger] base64_text(bytes)[i];
                (symbol_value(c) is Some || c == '=') && c != '"' && c != '\\'
            } by {
                if i >= 4 {
                    assert(base64_text(bytes)[i] == rest[i - 4]);
                }
            }
        }
    }
}

/// The symbols, in the order of their numbers.
pub open spec fn alphabet() -> Seq<char> {
    "ABCDEFGHIJKLMNOPQRSTUVWXYZabcdefghijklmnopqrstuvwxyz0123456789+/"@
}

/// The number of a symbol is its place in the alphabet.
pub proof fn law_base64_symbols(v: int)
    requires
        0 <= v < 64,
    ensures
        symbol(v) == alphabet()[v],
        symbol_value(alphabet()[v]) == Some(v),
{
    reveal_strlit("ABCDEFGHIJKLMNOPQRSTUVWXYZabcdefghijklmnopqrstuvwxyz0123456789+/");
    assert forall|k: int| 0 <= k < 64 implies #[trigger] symbol(k) == alphabet()[k] by {}
    lemma_symbol(v);
}

/// The number that `n` symbols of a text stand for, from the first on.
pub open spec fn joined_values(text: Seq<char>, n: int) -> int
    decreases n,
{
    if n <= 0 {
        0
    } else {
        joined_values(text, n - 1) * 64 + match symbol_value(text[n - 1]) {
            Some(v) => v,
            None => 0,
        }
    }
}

/// Four symbols hold the 24 bits of three bytes, in order; behind one or two
/// last bytes zero bits follow, and padding stands for what is missing.
pub proof fn law_base64_holds_the_bits(b0: u8, b1: u8, b2: u8, rest: Seq<u8>)
    ensures
        ({
            let text = base64_text(seq![b0, b1, b2] + rest);
            &&& joined_values(text, 4) == b0 * 0x1_0000 + b1 * 0x100 + b2
            &&& forall|i: int| 0 <= i < 4 ==> symbol_value(#[trigger] text[i]) is Some
            &&& text.skip(4) == base64_text(rest)
        }),
        ({
            let text = base64_text(seq![b0, b1]);
            &&& joined_values(text, 3) == (b0 * 0x100 + b1) * 4
            &&& text.len() == 4 && text[3] == '='
            &&& forall|i: int| 0 <= i < 3 ==> symbol_value(#[trigger] text[i]) is Some
        }),
        ({
            let text = base64_text(seq![b0]);
            &&& joined_values(text, 2) == b0 * 16
            &&& text.len() == 4 && text[2] == '=' && text[3] == '='
            &&& forall|i: int| 0 <= i < 2 ==> symbol_value(#[trigger] text[i]) is Some
        }),
        base64_text(Seq::empty()) == Seq::<char>::empty(),
{
    reveal_with_fuel(joined_values, 5);
    lemma_symbol(b0 as int / 4);
    lemma_symbol(b0 % 4 * 16 + b1 / 16);
    lemma_symbol(b1 % 16 * 4 + b2 / 64);
    lemma_symbol(b2 as int % 64);
    lemma_symbol(b0 % 4 * 16);
    lemma_symbol(b1 % 16 * 4);
    let bytes = seq![b0, b1, b2] + rest;
    assert(bytes.skip(3) == rest);
    assert(base64_text(bytes).skip(4) == base64_text(rest));
}

} // verus!
