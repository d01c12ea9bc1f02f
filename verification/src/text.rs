//! Text helpers shared by the decoders: bytes read as characters, UTF-8
//! decoding, and joining of name segments.

use vstd::prelude::*;
use vstd::utf8::*;

verus! {

/// `String::from_utf8`: `Some` of the text whose UTF-8 encoding is `bytes`
/// when `bytes` is valid UTF-8, `None` (the outside error dropped) when it is
/// not.
#[verifier::external_body]
pub(crate) fn string_from_utf8(bytes: Vec<u8>) -> (r: Option<String>)
    ensures
        r is Some <==> valid_utf8(bytes@),
        r matches Some(s) ==> s@ == decode_utf8(bytes@),
{
    match String::from_utf8(bytes) {
        Ok(s) => Some(s),
        Err(_) => None,
    }
}

/// `String::push`: appends one character to the end of `s`.
#[verifier::external_body]
pub(crate) fn push_char(s: &mut String, c: char)
    ensures
        final(s)@ == old(s)@.push(c),
{
    s.push(c)
}

/// Whether `c` is alphabetic or numeric in the sense of the Unicode
/// character database that the standard library carries.
pub uninterp spec fn char_is_alphanumeric(c: char) -> bool;

/// Whether `c` belongs to one of the Unicode general categories for numbers.
pub uninterp spec fn char_is_numeric(c: char) -> bool;

/// Whether `c` is one of the ASCII letters `A` to `Z` and `a` to `z`.
pub open spec fn is_ascii_letter(c: char) -> bool {
    ('A' <= c && c <= 'Z') || ('a' <= c && c <= 'z')
}

/// Whether `c` is one of the ASCII digits `0` to `9`.
pub open spec fn is_ascii_digit(c: char) -> bool {
    '0' <= c && c <= '9'
}

/// `char::is_alphanumeric`: the standard library's classification of `c`.
/// Among the ASCII characters the Unicode character database gives the
/// alphabetic property to the letters alone and a number category to the
/// digits alone, so there the result is known: true of letters and digits,
/// false of every other character, `$`, `;` and `/` among them.
#[verifier::external_body]
pub(crate) fn is_alphanumeric(c: char) -> (r: bool)
    ensures
        r == char_is_alphanumeric(c),
        c <= '\u{7f}' ==> r == (is_ascii_letter(c) || is_ascii_digit(c)),
{
    c.is_alphanumeric()
}

/// `char::is_numeric`: the standard library's classification of `c`. Among
/// the ASCII characters the Unicode character database gives a number
/// category to the digits alone, so there the result is known: true of
/// digits, false of every other character, the letters among them.
#[verifier::external_body]
pub(crate) fn is_numeric(c: char) -> (r: bool)
    ensures
        r == char_is_numeric(c),
        c <= '\u{7f}' ==> r == is_ascii_digit(c),
{
    c.is_numeric()
}

/// The character with the same code point as the byte `b` (its Latin-1
/// reading).
pub open spec fn byte_char(b: u8) -> char {
    b as char
}

/// The segments of `parts` with `sep` between each two neighbours.
pub open spec fn join(parts: Seq<Seq<char>>, sep: Seq<char>) -> Seq<char>
    decreases parts.len(),
{
    if parts.len() == 0 {
        Seq::empty()
    } else if parts.len() == 1 {
        parts[0]
    } else {
        join(parts.drop_last(), sep) + sep + parts.last()
    }
}

/// The view of each string of `v`.
pub open spec fn strings_view(v: Seq<String>) -> Seq<Seq<char>> {
    v.map_values(|s: String| s@)
}

/// Joins `parts` with `sep` between each two neighbours.
pub fn join_strings(parts: &Vec<String>, sep: &str) -> (r: String)
    ensures
        r@ == join(strings_view(parts@), sep@),
{
    let mut out = String::new();
    let mut i: usize = 0;
    while i < parts.len()
        invariant
            i <= parts.len(),
            out@ == join(strings_view(parts@).take(i as int), sep@),
        decreases parts.len() - i,
    {
        assert(strings_view(parts@).take(i + 1).drop_last() =~= strings_view(parts@).take(
            i as int,
        ));
        if i > 0 {
            out.append(sep);
        }
        out.append(parts[i].as_str());
        i += 1;
    }
    assert(strings_view(parts@).take(parts@.len() as int) =~= strings_view(parts@));
    out
}

/// Whether two strings hold the same text, decided on their UTF-8 bytes.
pub fn str_eq(a: &str, b: &str) -> (r: bool)
    ensures
        r == (a@ == b@),
{
    let x = a.as_bytes();
    let y = b.as_bytes();
    proof {
        encode_utf8_decode_utf8(a@);
        encode_utf8_decode_utf8(b@);
    }
    if x.len() != y.len() {
        return false;
    }
    let mut i: usize = 0;
    while i < x.len()
        invariant
            i <= x.len(),
            x@.len() == y@.len(),
            x@ == encode_utf8(a@),
            y@ == encode_utf8(b@),
            forall|j: int| 0 <= j < i ==> x@[j] == y@[j],
        decreases x.len() - i,
    {
        if x[i] != y[i] {
            return false;
        }
        i += 1;
    }
    assert(x@ =~= y@);
    true
}

/// A copy of each string of `v`, in order.
pub fn clone_strings(v: &Vec<String>) -> (r: Vec<String>)
    ensures
        strings_view(r@) == strings_view(v@),
{
    let mut out: Vec<String> = Vec::new();
    let mut i: usize = 0;
    while i < v.len()
        invariant
            i <= v.len(),
            out@.len() == i,
            strings_view(out@) == strings_view(v@).take(i as int),
        decreases v.len() - i,
    {
        out.push(v[i].clone());
        assert(strings_view(out@) =~= strings_view(v@).take(i + 1));
        i += 1;
    }
    out
}

/// The pieces of `s` between the occurrences of `sep`, scanning from `pos`
/// with the pieces `done` closed so far and `token` open. There is always a
/// last piece, and pieces may be empty.
pub open spec fn spec_split_from(
    s: Seq<char>,
    sep: char,
    pos: int,
    done: Seq<Seq<char>>,
    token: Seq<char>,
) -> Seq<Seq<char>>
    decreases s.len() - pos,
{
    if pos < 0 || pos >= s.len() {
        done.push(token)
    } else if s[pos] == sep {
        spec_split_from(s, sep, pos + 1, done.push(token), Seq::empty())
    } else {
        spec_split_from(s, sep, pos + 1, done, token.push(s[pos]))
    }
}

/// The pieces of `s` between the occurrences of `sep`.
pub open spec fn spec_split(s: Seq<char>, sep: char) -> Seq<Seq<char>> {
    spec_split_from(s, sep, 0, Seq::empty(), Seq::empty())
}

/// Splitting always gives at least one piece.
pub proof fn lemma_split_not_empty(
    s: Seq<char>,
    sep: char,
    pos: int,
    done: Seq<Seq<char>>,
    token: Seq<char>,
)
    ensures
        spec_split_from(s, sep, pos, done, token).len() > 0,
    decreases s.len() - pos,
{
    if 0 <= pos < s.len() {
        if s[pos] == sep {
            lemma_split_not_empty(s, sep, pos + 1, done.push(token), Seq::empty());
        } else {
            lemma_split_not_empty(s, sep, pos + 1, done, token.push(s[pos]));
        }
    }
}

/// Splits `s` at every occurrence of `sep`.
pub fn split(s: &str, sep: char) -> (r: Vec<String>)
    ensures
        strings_view(r@) == spec_split(s@, sep),
{
    let mut done: Vec<String> = Vec::new();
    let mut token = String::new();
    assert(strings_view(done@) =~= Seq::empty());
    for c in it: s.chars()
        invariant
            it.seq() == s@,
            spec_split(s@, sep) == spec_split_from(
                s@,
                sep,
                it.index() as int,
                strings_view(done@),
                token@,
            ),
    {
        if c == sep {
            let ghost before = done@;
            done.push(token);
            token = String::new();
            assert(strings_view(done@) =~= strings_view(before).push(done@.last()@));
        } else {
            push_char(&mut token, c);
        }
    }
    done.push(token);
    done
}

/// The text `unit` written `count` times in a row.
pub open spec fn spec_repeat(unit: Seq<char>, count: nat) -> Seq<char>
    decreases count,
{
    if count == 0 {
        Seq::empty()
    } else {
        spec_repeat(unit, (count - 1) as nat) + unit
    }
}

/// Writes `unit` `count` times in a row.
pub fn repeat_str(unit: &str, count: usize) -> (r: String)
    ensures
        r@ == spec_repeat(unit@, count as nat),
{
    let mut out = String::new();
    let mut i: usize = 0;
    while i < count
        invariant
            i <= count,
            out@ == spec_repeat(unit@, i as nat),
        decreases count - i,
    {
        out.append(unit);
        i += 1;
    }
    out
}

/// The decimal digit of a value below 10.
pub open spec fn spec_digit(d: int) -> char {
    byte_char((48 + d) as u8)
}

/// The decimal numeral of `n`, without leading zeros.
pub open spec fn spec_decimal(n: nat) -> Seq<char>
    decreases n,
{
    if n < 10 {
        seq![spec_digit(n as int)]
    } else {
        spec_decimal(n / 10).push(spec_digit((n % 10) as int))
    }
}

/// The decimal numeral of `n`, without leading zeros.
pub fn decimal(n: usize) -> (r: String)
    ensures
        r@ == spec_decimal(n as nat),
    decreases n,
{
    if n < 10 {
        let mut out = String::new();
        let digit: u8 = 48 + (n as u8);
        push_char(&mut out, digit as char);
        out
    } else {
        let mut out = decimal(n / 10);
        let digit: u8 = 48 + ((n % 10) as u8);
        push_char(&mut out, digit as char);
        out
    }
}

/// The upper-case hexadecimal digit of a value below 16.
pub open spec fn spec_hex_digit(d: int) -> char {
    if d < 10 {
        byte_char((48 + d) as u8)
    } else {
        byte_char((55 + d) as u8)
    }
}

/// The upper-case hexadecimal numeral of `n`, without leading zeros.
pub open spec fn spec_hex(n: u8) -> Seq<char> {
    if n < 16 {
        seq![spec_hex_digit(n as int)]
    } else {
        seq![spec_hex_digit(n as int / 16), spec_hex_digit(n as int % 16)]
    }
}

/// The upper-case hexadecimal digit of a value below 16.
fn hex_digit(d: u8) -> (c: char)
    requires
        d < 16,
    ensures
        c == spec_hex_digit(d as int),
{
    if d < 10 {
        (48 + d) as char
    } else {
        (55 + d) as char
    }
}

/// The upper-case hexadecimal numeral of `n`, without leading zeros.
pub fn hex(n: u8) -> (r: String)
    ensures
        r@ == spec_hex(n),
{
    let mut out = String::new();
    if n >= 16 {
        push_char(&mut out, hex_digit(n / 16));
    }
    push_char(&mut out, hex_digit(n % 16));
    out
}

/// Whether two lists hold the same strings in the same order.
pub fn strings_eq(a: &Vec<String>, b: &Vec<String>) -> (r: bool)
    ensures
        r == (strings_view(a@) == strings_view(b@)),
{
    if a.len() != b.len() {
        return false;
    }
    let mut i: usize = 0;
    while i < a.len()
        invariant
            i <= a.len(),
            a@.len() == b@.len(),
            forall|j: int| 0 <= j < i ==> a@[j]@ == b@[j]@,
        decreases a.len() - i,
    {
        if !str_eq(a[i].as_str(), b[i].as_str()) {
            assert(strings_view(a@)[i as int] != strings_view(b@)[i as int]);
            return false;
        }
        i += 1;
    }
    assert(strings_view(a@) =~= strings_view(b@));
    true
}

/// The characters of `s`.
pub fn chars_of(s: &str) -> (r: Vec<char>)
    ensures
        r@ == s@,
{
    let mut out: Vec<char> = Vec::new();
    for c in it: s.chars()
        invariant
            it.seq() == s@,
            out@ == s@.take(it.index() as int),
    {
        out.push(c);
    }
    out
}

/// The text of the characters of `chars` from `from` to `to`.
pub fn text_of(chars: &Vec<char>, from: usize, to: usize) -> (r: String)
    requires
        from <= to <= chars@.len(),
    ensures
        r@ == chars@.subrange(from as int, to as int),
{
    let mut out = String::new();
    let mut i: usize = from;
    while i < to
        invariant
            from <= i <= to <= chars@.len(),
            out@ == chars@.subrange(from as int, i as int),
        decreases to - i,
    {
        push_char(&mut out, chars[i]);
        i += 1;
    }
    out
}

} // verus!
