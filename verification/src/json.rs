//! Compact JSON text: the members of one object, written without white space.
//!
//! The model is a list of members, each a key with a string or a number as
//! its value. `render_members` gives the text of such a list; the writers
//! below append that text to a `String` piece by piece.

use vstd::prelude::*;
use vstd::std_specs::iter::IteratorSpec;

verus! {

/// A value that a member of an object can carry.
pub enum JsonScalar {
    Text(Seq<char>),
    Number(nat),
}

/// One member of an object: a key and its value.
pub struct JsonMember {
    pub key: Seq<char>,
    pub value: JsonScalar,
}

/// The lower-case hexadecimal digit of a value below sixteen.
pub open spec fn hex_digit(n: int) -> char {
    if n == 0 {
        '0'
    } else if n == 1 {
        '1'
    } else if n == 2 {
        '2'
    } else if n == 3 {
        '3'
    } else if n == 4 {
        '4'
    } else if n == 5 {
        '5'
    } else if n == 6 {
        '6'
    } else if n == 7 {
        '7'
    } else if n == 8 {
        '8'
    } else if n == 9 {
        '9'
    } else if n == 10 {
        'a'
    } else if n == 11 {
        'b'
    } else if n == 12 {
        'c'
    } else if n == 13 {
        'd'
    } else if n == 14 {
        'e'
    } else {
        'f'
    }
}

/// The text that stands for one character inside a string literal: the quote,
/// the backslash and the control characters are escaped, everything else is
/// written as it is.
pub open spec fn escape_char(c: char) -> Seq<char> {
    if c == '"' {
        seq!['\\', '"']
    } else if c == '\\' {
        seq!['\\', '\\']
    } else if c == '\u{8}' {
        seq!['\\', 'b']
    } else if c == '\u{c}' {
        seq!['\\', 'f']
    } else if c == '\n' {
        seq!['\\', 'n']
    } else if c == '\r' {
        seq!['\\', 'r']
    } else if c == '\t' {
        seq!['\\', 't']
    } else if (c as u32) < 0x20 {
        seq!['\\', 'u', '0', '0', hex_digit(c as int / 16), hex_digit(c as int % 16)]
    } else {
        seq![c]
    }
}

/// The escaped text of a whole string, without the quotes around it.
pub open spec fn escape_text(s: Seq<char>) -> Seq<char>
    decreases s.len(),
{
    if s.len() == 0 {
        Seq::empty()
    } else {
        escape_text(s.drop_last()) + escape_char(s.last())
    }
}

/// A string literal: the escaped text between two quotes.
pub open spec fn json_string(s: Seq<char>) -> Seq<char> {
    seq!['"'] + escape_text(s) + seq!['"']
}

/// The decimal digit of a value below ten.
pub open spec fn decimal_digit(n: int) -> char {
    hex_digit(n % 10)
}

/// A number in decimal, without sign or leading zeros.
pub open spec fn decimal(n: nat) -> Seq<char>
    decreases n,
{
    if n < 10 {
        seq![decimal_digit(n as int)]
    } else {
        decimal(n / 10) + seq![decimal_digit(n as int)]
    }
}

/// The text of a value.
pub open spec fn render_scalar(v: JsonScalar) -> Seq<char> {
    match v {
        JsonScalar::Text(s) => json_string(s),
        JsonScalar::Number(n) => decimal(n),
    }
}

/// The text of a member: its key as a string literal, a colon, its value.
pub open spec fn render_member(m: JsonMember) -> Seq<char> {
    json_string(m.key) + seq![':'] + render_scalar(m.value)
}

/// The text of a list of members, with a comma between neighbours.
pub open spec fn render_members(ms: Seq<JsonMember>) -> Seq<char>
    decreases ms.len(),
{
    if ms.len() == 0 {
        Seq::empty()
    } else if ms.len() == 1 {
        render_member(ms[0])
    } else {
        render_members(ms.drop_last()) + seq![','] + render_member(ms.last())
    }
}

/// The text of an object: its members between braces.
pub open spec fn render_object(ms: Seq<JsonMember>) -> Seq<char> {
    seq!['{'] + render_members(ms) + seq!['}']
}

/// The value stored under a key: that of the first member with this key.
pub open spec fn member_value(ms: Seq<JsonMember>, key: Seq<char>) -> Option<JsonScalar>
    decreases ms.len(),
{
    if ms.len() == 0 {
        None
    } else if ms[0].key == key {
        Some(ms[0].value)
    } else {
        member_value(ms.drop_first(), key)
    }
}

/// `String::push` of the standard library, which appends the given character
/// to the end of the string. Nothing else about the string changes.
pub assume_specification[ String::push ](s: &mut String, c: char)
    ensures
        final(s)@ == old(s)@.push(c),
;

/// The hexadecimal digit of `n`, for `n` below sixteen.
fn hex_digit_char(n: u32) -> (c: char)
    requires
        n < 16,
    ensures
        c == hex_digit(n as int),
{
    if n == 0 {
        '0'
    } else if n == 1 {
        '1'
    } else if n == 2 {
        '2'
    } else if n == 3 {
        '3'
    } else if n == 4 {
        '4'
    } else if n == 5 {
        '5'
    } else if n == 6 {
        '6'
    } else if n == 7 {
        '7'
    } else if n == 8 {
        '8'
    } else if n == 9 {
        '9'
    } else if n == 10 {
        'a'
    } else if n == 11 {
        'b'
    } else if n == 12 {
        'c'
    } else if n == 13 {
        'd'
    } else if n == 14 {
        'e'
    } else {
        'f'
    }
}

/// Appends a backslash and the letter that names an escaped character.
fn push_short_escape(out: &mut String, letter: char)
    ensures
        final(out)@ == old(out)@ + seq!['\\', letter],
{
    out.push('\\');
    out.push(letter);
}

/// Appends the text that stands for `c` inside a string literal.
pub fn write_escaped_char(out: &mut String, c: char)
    ensures
        final(out)@ == old(out)@ + escape_char(c),
{
    let code: u32 = c as u32;
    if c == '"' {
        push_short_escape(out, '"');
    } else if c == '\\' {
        push_short_escape(out, '\\');
    } else if c == '\u{8}' {
        push_short_escape(out, 'b');
    } else if c == '\u{c}' {
        push_short_escape(out, 'f');
    } else if c == '\n' {
        push_short_escape(out, 'n');
    } else if c == '\r' {
        push_short_escape(out, 'r');
    } else if c == '\t' {
        push_short_escape(out, 't');
    } else if code < 0x20 {
        push_short_escape(out, 'u');
        out.push('0');
        out.push('0');
        out.push(hex_digit_char(code / 16));
        out.push(hex_digit_char(code % 16));
    } else {
        out.push(c);
    }
}

/// Appends `s` as a string literal.
pub fn write_string(out: &mut String, s: &str)
    ensures
        final(out)@ == old(out)@ + json_string(s@),
{
    out.push('"');
    let mut rest = s.chars();
    let ghost mut done: int = 0;
    loop
        invariant
            0 <= done <= s@.len(),
            rest.remaining() == s@.skip(done),
            out@ == old(out)@ + seq!['"'] + escape_text(s@.take(done)),
        ensures
            out@ == old(out)@ + seq!['"'] + escape_text(s@),
        decreases s@.len() - done,
    {
        match rest.next() {
            None => {
                assert(s@.take(done) == s@);
                break ;
            },
            Some(c) => {
                write_escaped_char(out, c);
                proof {
                    assert(s@.take(done + 1).drop_last() == s@.take(done));
                    assert(s@.take(done + 1).last() == c);
                    done = done + 1;
                }
            },
        }
    }
    out.push('"');
}

/// Appends `n` in decimal.
pub fn write_number(out: &mut String, n: u64)
    ensures
        final(out)@ == old(out)@ + decimal(n as nat),
    decreases n,
{
    if n >= 10 {
        write_number(out, n / 10);
    }
    let digit: u32 = (n % 10) as u32;
    out.push(hex_digit_char(digit));
}

/// The comma that stands before every member of a list but the first.
pub open spec fn separator(first: bool) -> Seq<char> {
    if first {
        Seq::empty()
    } else {
        seq![',']
    }
}

/// Appends a member whose value is a string, after a comma unless it is the
/// first of its object.
pub fn write_text_member(out: &mut String, first: bool, key: &str, value: &str)
    ensures
        final(out)@ == old(out)@ + separator(first) + render_member(
            JsonMember { key: key@, value: JsonScalar::Text(value@) },
        ),
{
    if !first {
        out.push(',');
    }
    write_string(out, key);
    out.push(':');
    write_string(out, value);
}

/// Appends a member whose value is a number, after a comma unless it is the
/// first of its object.
pub fn write_number_member(out: &mut String, first: bool, key: &str, value: u64)
    ensures
        final(out)@ == old(out)@ + separator(first) + render_member(
            JsonMember { key: key@, value: JsonScalar::Number(value as nat) },
        ),
{
    if !first {
        out.push(',');
    }
    write_string(out, key);
    out.push(':');
    write_number(out, value);
}

/// The text of the members that follow the first one of an object.
pub open spec fn render_tail(ms: Seq<JsonMember>) -> Seq<char> {
    if ms.len() == 0 {
        Seq::empty()
    } else {
        seq![','] + render_members(ms)
    }
}

/// Adding a member at the end of a list adds a comma and the member's text, or
/// the member's text alone where the list was empty.
pub proof fn lemma_render_members_push(ms: Seq<JsonMember>, m: JsonMember)
    ensures
        render_members(ms.push(m)) == render_members(ms) + separator(ms.len() == 0)
            + render_member(m),
{
    let extended = ms.push(m);
    assert(extended.drop_last() == ms);
    assert(extended.last() == m);
    if ms.len() == 0 {
        assert(extended[0] == m);
    }
}

/// The text of a list that continues a non-empty one is the text of the first,
/// then a comma and the text of the second where there is a second.
pub proof fn lemma_render_members_concat(first: Seq<JsonMember>, second: Seq<JsonMember>)
    requires
        first.len() > 0,
    ensures
        render_members(first + second) == render_members(first) + render_tail(second),
    decreases second.len(),
{
    if second.len() == 0 {
        assert(first + second == first);
        assert(render_members(first) + Seq::<char>::empty() == render_members(first));
    } else {
        let whole = first + second;
        assert(whole.drop_last() == first + second.drop_last());
        assert(whole.last() == second.last());
        lemma_render_members_concat(first, second.drop_last());
        if second.len() == 1 {
            assert(second.drop_last().len() == 0);
            assert(second[0] == second.last());
            assert(render_members(whole) == render_members(first) + (seq![','] + render_member(
                second.last(),
            )));
        } else {
            assert(render_members(whole) == render_members(first) + (seq![','] + (render_members(
                second.drop_last(),
            ) + seq![','] + render_member(second.last()))));
        }
    }
}

} // verus!
