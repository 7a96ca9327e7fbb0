//! JSON text can be read in one way only.
//!
//! A string literal ends where its closing quote stands, a number where its
//! digits end, a member where its value ends. So two lists of members with the
//! same text are the same list: nothing is lost in writing.

use crate::json::{
    decimal, escape_char, escape_text, hex_digit, json_string, lemma_render_members_concat,
    render_member, render_members, render_object, render_scalar, render_tail, JsonMember,
    JsonScalar,
};
use vstd::prelude::*;

verus! {

/// One of the ten decimal digits.
pub open spec fn is_digit(c: char) -> bool {
    c == '0' || c == '1' || c == '2' || c == '3' || c == '4' || c == '5' || c == '6' || c == '7'
        || c == '8' || c == '9'
}

/// A text that begins with something other than a digit, as whatever follows a
/// number does.
pub open spec fn ends_number(rest: Seq<char>) -> bool {
    rest.len() > 0 && !is_digit(rest[0])
}

/// What follows a common beginning is the same where the wholes are.
pub proof fn lemma_same_rest(head: Seq<char>, x: Seq<char>, y: Seq<char>)
    requires
        head + x == head + y,
    ensures
        x == y,
{
    assert(x == (head + x).subrange(head.len() as int, (head + x).len() as int));
    assert(y == (head + y).subrange(head.len() as int, (head + y).len() as int));
}

/// The escaped text of two strings joined is their escaped texts joined.
pub proof fn lemma_escape_text_concat(a: Seq<char>, b: Seq<char>)
    ensures
        escape_text(a + b) == escape_text(a) + escape_text(b),
    decreases b.len(),
{
    if b.len() == 0 {
        assert(a + b == a);
        assert(escape_text(a) + escape_text(b) == escape_text(a));
    } else {
        assert((a + b).drop_last() == a + b.drop_last());
        assert((a + b).last() == b.last());
        lemma_escape_text_concat(a, b.drop_last());
        assert(escape_text(a + b) == escape_text(a) + (escape_text(b.drop_last()) + escape_char(
            b.last(),
        )));
    }
}

/// The escaped text of a string begins with that of its first character.
pub proof fn lemma_escape_text_front(s: Seq<char>)
    requires
        s.len() > 0,
    ensures
        escape_text(s) == escape_char(s[0]) + escape_text(s.drop_first()),
{
    let first = seq![s[0]];
    assert(first + s.drop_first() == s);
    lemma_escape_text_concat(first, s.drop_first());
    assert(escape_text(first) == escape_char(s[0])) by {
        assert(first.drop_last() == Seq::<char>::empty());
        assert(escape_text(first.drop_last()) == Seq::<char>::empty());
        assert(first.last() == s[0]);
        assert(Seq::<char>::empty() + escape_char(s[0]) == escape_char(s[0]));
    }
}

/// No two characters have escaped texts of which one begins the other: where
/// two texts begin with an escaped character each and are the same, the
/// characters are the same, and so is what follows them.
pub proof fn lemma_escape_char_unique(c: char, d: char, x: Seq<char>, y: Seq<char>)
    requires
        escape_char(c) + x == escape_char(d) + y,
    ensures
        c == d,
        x == y,
{
    let u = escape_char(c);
    let v = escape_char(d);
    let w = u + x;
    assert(w == v + y);
    assert(w[0] == u[0]);
    assert(w[0] == v[0]);
    if u.len() == 1 {
        assert(v.len() == 1);
        assert(c == d);
    } else {
        assert(v.len() > 1);
        assert(w[1] == u[1]);
        assert(w[1] == v[1]);
        if u.len() == 6 {
            assert(v.len() == 6);
            assert(w[4] == u[4]);
            assert(w[4] == v[4]);
            assert(w[5] == u[5]);
            assert(w[5] == v[5]);
            assert(c as int / 16 == d as int / 16);
            assert(c as int % 16 == d as int % 16);
            assert(c as int == d as int);
            assert(c == d);
        } else {
            assert(v.len() == 2);
            assert(c == d);
        }
    }
    lemma_same_rest(u, x, y);
}

/// An escaped text ends where the closing quote stands: where two texts
/// begin with an escaped string and a quote each and are the same, the strings
/// are the same, and so is what follows the quote.
pub proof fn lemma_escaped_unique(a: Seq<char>, b: Seq<char>, x: Seq<char>, y: Seq<char>)
    requires
        escape_text(a) + seq!['"'] + x == escape_text(b) + seq!['"'] + y,
    ensures
        a == b,
        x == y,
    decreases a.len(),
{
    let left = escape_text(a) + seq!['"'] + x;
    let right = escape_text(b) + seq!['"'] + y;
    if a.len() == 0 {
        assert(left[0] == '"');
        if b.len() > 0 {
            lemma_escape_text_front(b);
            assert(right[0] == escape_char(b[0])[0]);
            assert(false);
        }
        assert(a == b);
        assert(x == left.subrange(1, left.len() as int));
        assert(y == right.subrange(1, right.len() as int));
    } else {
        lemma_escape_text_front(a);
        if b.len() == 0 {
            assert(right[0] == '"');
            assert(left[0] == escape_char(a[0])[0]);
            assert(false);
        }
        lemma_escape_text_front(b);
        let rest_a = escape_text(a.drop_first()) + seq!['"'] + x;
        let rest_b = escape_text(b.drop_first()) + seq!['"'] + y;
        assert(left == escape_char(a[0]) + rest_a);
        assert(right == escape_char(b[0]) + rest_b);
        lemma_escape_char_unique(a[0], b[0], rest_a, rest_b);
        lemma_escaped_unique(a.drop_first(), b.drop_first(), x, y);
        assert(a == seq![a[0]] + a.drop_first());
        assert(b == seq![b[0]] + b.drop_first());
    }
}

/// A string literal can be read in one way only.
pub proof fn lemma_string_unique(a: Seq<char>, b: Seq<char>, x: Seq<char>, y: Seq<char>)
    requires
        json_string(a) + x == json_string(b) + y,
    ensures
        a == b,
        x == y,
{
    let rest_a = escape_text(a) + seq!['"'] + x;
    let rest_b = escape_text(b) + seq!['"'] + y;
    assert(json_string(a) + x == seq!['"'] + rest_a);
    assert(json_string(b) + y == seq!['"'] + rest_b);
    lemma_same_rest(seq!['"'], rest_a, rest_b);
    lemma_escaped_unique(a, b, x, y);
}

/// Two values below sixteen with the same digit are the same value.
pub proof fn lemma_hex_digit_injective(a: int, b: int)
    requires
        0 <= a < 16,
        0 <= b < 16,
        hex_digit(a) == hex_digit(b),
    ensures
        a == b,
{
}

/// A number is written with digits only, and with one at least.
pub proof fn lemma_decimal_digits(n: nat)
    ensures
        decimal(n).len() >= 1,
        forall|i: int| 0 <= i < decimal(n).len() ==> is_digit(#[trigger] decimal(n)[i]),
    decreases n,
{
    if n >= 10 {
        lemma_decimal_digits(n / 10);
    }
}

/// Two numbers with the same digits are the same number.
pub proof fn lemma_decimal_injective(n: nat, m: nat)
    requires
        decimal(n) == decimal(m),
    ensures
        n == m,
    decreases n,
{
    lemma_decimal_digits(n / 10);
    lemma_decimal_digits(m / 10);
    if n < 10 {
        assert(decimal(n).len() == 1);
        assert(m < 10);
        assert(decimal(n)[0] == hex_digit(n as int % 10));
        assert(decimal(m)[0] == hex_digit(m as int % 10));
        lemma_hex_digit_injective(n as int % 10, m as int % 10);
    } else {
        assert(decimal(n).len() >= 2);
        assert(m >= 10);
        let front_n = decimal(n / 10);
        let front_m = decimal(m / 10);
        assert(decimal(n).last() == decimal(m).last());
        assert(decimal(n).drop_last() == front_n);
        assert(decimal(m).drop_last() == front_m);
        lemma_decimal_injective(n / 10, m / 10);
        assert(decimal(n).last() == hex_digit(n as int % 10));
        assert(decimal(m).last() == hex_digit(m as int % 10));
        lemma_hex_digit_injective(n as int % 10, m as int % 10);
    }
}

/// A number ends where its digits end: where two texts begin with a number
/// each, go on with something other than a digit and are the same, the numbers
/// are the same, and so is what follows them.
pub proof fn lemma_number_unique(n: nat, m: nat, x: Seq<char>, y: Seq<char>)
    requires
        decimal(n) + x == decimal(m) + y,
        ends_number(x),
        ends_number(y),
    ensures
        n == m,
        x == y,
{
    let whole = decimal(n) + x;
    lemma_decimal_digits(n);
    lemma_decimal_digits(m);
    let len_n = decimal(n).len() as int;
    let len_m = decimal(m).len() as int;
    if len_n < len_m {
        assert(whole[len_n] == x[0]);
        assert((decimal(m) + y)[len_n] == decimal(m)[len_n]);
        assert(false);
    }
    if len_m < len_n {
        assert((decimal(m) + y)[len_m] == y[0]);
        assert(whole[len_m] == decimal(n)[len_m]);
        assert(false);
    }
    assert(decimal(n) == whole.subrange(0, len_n));
    assert(decimal(m) == (decimal(m) + y).subrange(0, len_m));
    lemma_decimal_injective(n, m);
    lemma_same_rest(decimal(n), x, y);
}

/// A value can be read in one way only.
pub proof fn lemma_scalar_unique(v: JsonScalar, w: JsonScalar, x: Seq<char>, y: Seq<char>)
    requires
        render_scalar(v) + x == render_scalar(w) + y,
        ends_number(x),
        ends_number(y),
    ensures
        v == w,
        x == y,
{
    let whole = render_scalar(v) + x;
    match (v, w) {
        (JsonScalar::Text(a), JsonScalar::Text(b)) => {
            lemma_string_unique(a, b, x, y);
        },
        (JsonScalar::Number(n), JsonScalar::Number(m)) => {
            lemma_number_unique(n, m, x, y);
        },
        (JsonScalar::Text(a), JsonScalar::Number(m)) => {
            lemma_decimal_digits(m);
            assert(whole[0] == '"');
            assert((decimal(m) + y)[0] == decimal(m)[0]);
            assert(false);
        },
        (JsonScalar::Number(n), JsonScalar::Text(b)) => {
            lemma_decimal_digits(n);
            assert(whole[0] == decimal(n)[0]);
            assert((json_string(b) + y)[0] == '"');
            assert(false);
        },
    }
}

/// A member can be read in one way only.
pub proof fn lemma_member_unique(m1: JsonMember, m2: JsonMember, x: Seq<char>, y: Seq<char>)
    requires
        render_member(m1) + x == render_member(m2) + y,
        ends_number(x),
        ends_number(y),
    ensures
        m1 == m2,
        x == y,
{
    let after_key_1 = seq![':'] + (render_scalar(m1.value) + x);
    let after_key_2 = seq![':'] + (render_scalar(m2.value) + y);
    assert(render_member(m1) + x == json_string(m1.key) + after_key_1);
    assert(render_member(m2) + y == json_string(m2.key) + after_key_2);
    lemma_string_unique(m1.key, m2.key, after_key_1, after_key_2);
    lemma_same_rest(seq![':'], render_scalar(m1.value) + x, render_scalar(m2.value) + y);
    lemma_scalar_unique(m1.value, m2.value, x, y);
}

/// The text of a list of members begins with the first member; the members
/// that follow it come after.
pub proof fn lemma_render_tail_front(ms: Seq<JsonMember>)
    requires
        ms.len() > 0,
    ensures
        render_members(ms) == render_member(ms[0]) + render_tail(ms.drop_first()),
{
    let first = seq![ms[0]];
    assert(first + ms.drop_first() == ms);
    lemma_render_members_concat(first, ms.drop_first());
}

/// A non-empty list of members before the closing brace can be read in one way
/// only: where two texts begin with such a list and the brace, and are the
/// same, the lists are the same, and so is what follows the brace.
pub proof fn lemma_members_unique(
    ms1: Seq<JsonMember>,
    ms2: Seq<JsonMember>,
    x: Seq<char>,
    y: Seq<char>,
)
    requires
        ms1.len() > 0,
        ms2.len() > 0,
        render_members(ms1) + seq!['}'] + x == render_members(ms2) + seq!['}'] + y,
    ensures
        ms1 == ms2,
        x == y,
    decreases ms1.len(), 0nat,
{
    lemma_render_tail_front(ms1);
    lemma_render_tail_front(ms2);
    let rest_1 = render_tail(ms1.drop_first()) + seq!['}'] + x;
    let rest_2 = render_tail(ms2.drop_first()) + seq!['}'] + y;
    assert(render_members(ms1) + seq!['}'] + x == render_member(ms1[0]) + rest_1);
    assert(render_members(ms2) + seq!['}'] + y == render_member(ms2[0]) + rest_2);
    assert(ends_number(rest_1)) by {
        assert(rest_1[0] == ',' || rest_1[0] == '}');
    }
    assert(ends_number(rest_2)) by {
        assert(rest_2[0] == ',' || rest_2[0] == '}');
    }
    lemma_member_unique(ms1[0], ms2[0], rest_1, rest_2);
    lemma_tail_unique(ms1.drop_first(), ms2.drop_first(), x, y);
    assert(ms1 == seq![ms1[0]] + ms1.drop_first());
    assert(ms2 == seq![ms2[0]] + ms2.drop_first());
}

/// The rest of an object can be read in one way only: where two texts begin
/// with the members that follow the first and the closing brace, and are the
/// same, the members are the same, and so is what follows the brace.
pub proof fn lemma_tail_unique(
    ms1: Seq<JsonMember>,
    ms2: Seq<JsonMember>,
    x: Seq<char>,
    y: Seq<char>,
)
    requires
        render_tail(ms1) + seq!['}'] + x == render_tail(ms2) + seq!['}'] + y,
    ensures
        ms1 == ms2,
        x == y,
    decreases ms1.len(), 1nat,
{
    let left = render_tail(ms1) + seq!['}'] + x;
    let right = render_tail(ms2) + seq!['}'] + y;
    if ms1.len() == 0 || ms2.len() == 0 {
        assert(left[0] == if ms1.len() == 0 { '}' } else { ',' });
        assert(right[0] == if ms2.len() == 0 { '}' } else { ',' });
        assert(ms1 == ms2);
        assert(x == left.subrange(1, left.len() as int));
        assert(y == right.subrange(1, right.len() as int));
    } else {
        let inner_1 = render_members(ms1) + seq!['}'] + x;
        let inner_2 = render_members(ms2) + seq!['}'] + y;
        assert(left == seq![','] + inner_1);
        assert(right == seq![','] + inner_2);
        lemma_same_rest(seq![','], inner_1, inner_2);
        lemma_members_unique(ms1, ms2, x, y);
    }
}

/// An object can be read in one way only.
pub proof fn lemma_object_unique(
    ms1: Seq<JsonMember>,
    ms2: Seq<JsonMember>,
    x: Seq<char>,
    y: Seq<char>,
)
    requires
        render_object(ms1) + x == render_object(ms2) + y,
    ensures
        ms1 == ms2,
        x == y,
{
    let inner_1 = render_members(ms1) + seq!['}'] + x;
    let inner_2 = render_members(ms2) + seq!['}'] + y;
    assert(render_object(ms1) + x == seq!['{'] + inner_1);
    assert(render_object(ms2) + y == seq!['{'] + inner_2);
    lemma_same_rest(seq!['{'], inner_1, inner_2);
    if ms1.len() == 0 || ms2.len() == 0 {
        if ms1.len() > 0 {
            lemma_render_tail_front(ms1);
        }
        if ms2.len() > 0 {
            lemma_render_tail_front(ms2);
        }
        assert(inner_1[0] == if ms1.len() == 0 { '}' } else { '"' });
        assert(inner_2[0] == if ms2.len() == 0 { '}' } else { '"' });
        assert(ms1 == ms2);
        assert(x == inner_1.subrange(1, inner_1.len() as int));
        assert(y == inner_2.subrange(1, inner_2.len() as int));
    } else {
        lemma_members_unique(ms1, ms2, x, y);
    }
}

} // verus!
