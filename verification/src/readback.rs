//! Reading back what `text` wrote: the digits of a number give the number,
//! and escaped bytes give the bytes.

use vstd::prelude::*;
use crate::text::{decimal, decimal_digits, digit_char, escape_byte, escape_bytes};

verus! {

/// The number that a digit character stands for.
pub open spec fn digit_value(c: char) -> int {
    if c as int <= 57 {
        c as int - 48
    } else {
        c as int - 87
    }
}

/// Whether `c` is one of `0` to `9`.
pub open spec fn is_decimal_digit(c: char) -> bool {
    48 <= c as int <= 57
}

/// A digit character stands for the digit it was made from.
pub proof fn lemma_digit_value(d: int)
    requires
        0 <= d < 16,
    ensures
        digit_value(digit_char(d)) == d,
        d < 10 ==> is_decimal_digit(digit_char(d)),
        d >= 10 ==> 97 <= digit_char(d) as int <= 102,
{
}

/// The number that a sequence of decimal digits stands for.
pub open spec fn digits_value(digits: Seq<char>) -> int
    decreases digits.len(),
{
    if digits.len() == 0 {
        0
    } else {
        digits_value(digits.drop_last()) * 10 + digit_value(digits.last())
    }
}

/// The decimal digits of a number are digits, at least one of them, and
/// stand for the number.
pub proof fn lemma_digits_value(n: nat)
    ensures
        decimal_digits(n).len() > 0,
        forall|i: int|
            0 <= i < decimal_digits(n).len() ==> is_decimal_digit(#[trigger] decimal_digits(n)[i]),
        digits_value(decimal_digits(n)) == n,
    decreases n,
{
    if n < 10 {
        lemma_digit_value(n as int);
        let digits = decimal_digits(n);
        assert(digits.drop_last() =~= Seq::<char>::empty());
        assert(digits_value(digits.drop_last()) == 0);
    } else {
        lemma_digits_value(n / 10);
        lemma_digit_value((n % 10) as int);
        let digits = decimal_digits(n);
        assert(digits.drop_last() =~= decimal_digits(n / 10));
        assert(digits.last() == digit_char((n % 10) as int));
    }
}

/// The number that a decimal text stands for.
pub open spec fn decimal_value(text: Seq<char>) -> int {
    if text.len() > 0 && text[0] == '-' {
        -digits_value(text.skip(1))
    } else {
        digits_value(text)
    }
}

/// The decimal form of a number is a `-` or a digit followed by digits, and
/// stands for the number.
pub proof fn lemma_decimal_value(n: int)
    ensures
        decimal(n).len() > 0,
        forall|i: int|
            0 <= i < decimal(n).len() ==> {
                let c = #[trigger] decimal(n)[i];
                is_decimal_digit(c) || c == '-'
            },
        decimal_value(decimal(n)) == n,
{
    if n < 0 {
        lemma_digits_value((-n) as nat);
        let digits = decimal_digits((-n) as nat);
        assert(decimal(n).skip(1) =~= digits);
        assert forall|i: int| 0 <= i < decimal(n).len() implies {
            let c = #[trigger] decimal(n)[i];
            is_decimal_digit(c) || c == '-'
        } by {
            if i > 0 {
                assert(decimal(n)[i] == digits[i - 1]);
            }
        }
    } else {
        lemma_digits_value(n as nat);
        assert(is_decimal_digit(decimal(n)[0]));
    }
}

/// Numbers with the same decimal form are the same number.
pub proof fn lemma_decimal_injective(m: int, n: int)
    requires
        decimal(m) == decimal(n),
    ensures
        m == n,
{
    lemma_decimal_value(m);
    lemma_decimal_value(n);
}

/// How many characters the first escaped byte of `text` takes.
pub open spec fn escape_len(text: Seq<char>) -> int {
    if text[0] != '\\' {
        1
    } else if text[1] == 'x' {
        4
    } else {
        2
    }
}

/// The byte that the first escaped byte of `text` stands for.
pub open spec fn escape_value(text: Seq<char>) -> int {
    if text[0] != '\\' {
        text[0] as int
    } else if text[1] == 't' {
        0x09
    } else if text[1] == 'n' {
        0x0a
    } else if text[1] == 'r' {
        0x0d
    } else if text[1] == 'x' {
        digit_value(text[2]) * 16 + digit_value(text[3])
    } else {
        text[1] as int
    }
}

/// An escaped byte can be read back from the front of any text: its first
/// characters tell how long it is and which byte it stands for. It never
/// starts with a double quote.
pub proof fn lemma_escape_head(b: u8, rest: Seq<char>)
    ensures
        escape_byte(b).len() > 0,
        escape_len(escape_byte(b) + rest) == escape_byte(b).len(),
        escape_value(escape_byte(b) + rest) == b,
        (escape_byte(b) + rest)[0] != '"',
{
    lemma_digit_value((b / 16) as int);
    lemma_digit_value((b % 16) as int);
    let head = escape_byte(b);
    let text = head + rest;
    assert(text[0] == head[0]);
    if head.len() > 1 {
        assert(text[1] == head[1]);
    }
    if head.len() > 3 {
        assert(text[2] == head[2]);
        assert(text[3] == head[3]);
    }
}

/// The escaped form of some bytes is the escaped form of the first byte,
/// followed by that of the others.
pub proof fn lemma_escape_bytes_first(bytes: Seq<u8>)
    requires
        bytes.len() > 0,
    ensures
        escape_bytes(bytes) == escape_byte(bytes[0]) + escape_bytes(bytes.drop_first()),
    decreases bytes.len(),
{
    let init = bytes.drop_last();
    let tail = bytes.drop_first();
    if bytes.len() == 1 {
        assert(escape_bytes(init) =~= Seq::<char>::empty());
        assert(escape_bytes(tail) =~= Seq::<char>::empty());
        assert(escape_bytes(bytes) =~= escape_byte(bytes[0]) + escape_bytes(tail));
    } else {
        lemma_escape_bytes_first(init);
        assert(init.drop_first() =~= tail.drop_last());
        assert(init[0] == bytes[0]);
        assert(tail.last() == bytes.last());
        assert(escape_bytes(bytes) =~= escape_byte(bytes[0]) + escape_bytes(tail));
    }
}

/// Escaped bytes, followed by anything, start with the first byte in its
/// escaped form and so with something other than a double quote.
pub proof fn lemma_starts_with_escaped_byte(bytes: Seq<u8>, after: Seq<char>)
    requires
        bytes.len() > 0,
    ensures
        escape_bytes(bytes) + after == escape_byte(bytes[0]) + (escape_bytes(bytes.drop_first())
            + after),
        (escape_bytes(bytes) + after).len() > 0,
        (escape_bytes(bytes) + after)[0] != '"',
{
    lemma_escape_bytes_first(bytes);
    lemma_escape_head(bytes[0], escape_bytes(bytes.drop_first()) + after);
    assert(escape_bytes(bytes) + after =~= escape_byte(bytes[0]) + (escape_bytes(
        bytes.drop_first(),
    ) + after));
}

/// Two texts that are the same and start with an escaped byte each start
/// with the same byte and go on in the same way.
pub proof fn lemma_escape_head_unique(a: u8, b: u8, rest_a: Seq<char>, rest_b: Seq<char>)
    requires
        escape_byte(a) + rest_a == escape_byte(b) + rest_b,
    ensures
        a == b,
        rest_a == rest_b,
{
    let text = escape_byte(a) + rest_a;
    lemma_escape_head(a, rest_a);
    lemma_escape_head(b, rest_b);
    assert(rest_a =~= text.skip(escape_len(text)));
    assert(rest_b =~= text.skip(escape_len(text)));
}

/// Escaped bytes can be told apart from what follows them, as long as that
/// is nothing or starts with a double quote: two such texts are the same
/// only if the bytes are the same and what follows is the same.
pub proof fn lemma_escape_unique(
    a: Seq<u8>,
    b: Seq<u8>,
    after_a: Seq<char>,
    after_b: Seq<char>,
)
    requires
        after_a.len() == 0 || after_a[0] == '"',
        after_b.len() == 0 || after_b[0] == '"',
        escape_bytes(a) + after_a == escape_bytes(b) + after_b,
    ensures
        a == b,
        after_a == after_b,
    decreases a.len(),
{
    if a.len() == 0 {
        assert(escape_bytes(a) + after_a =~= after_a);
        if b.len() == 0 {
            assert(escape_bytes(b) + after_b =~= after_b);
            assert(a =~= b);
        } else {
            lemma_starts_with_escaped_byte(b, after_b);
        }
    } else if b.len() == 0 {
        assert(escape_bytes(b) + after_b =~= after_b);
        lemma_starts_with_escaped_byte(a, after_a);
    } else {
        let rest_a = escape_bytes(a.drop_first()) + after_a;
        let rest_b = escape_bytes(b.drop_first()) + after_b;
        lemma_starts_with_escaped_byte(a, after_a);
        lemma_starts_with_escaped_byte(b, after_b);
        lemma_escape_head_unique(a[0], b[0], rest_a, rest_b);
        lemma_escape_unique(a.drop_first(), b.drop_first(), after_a, after_b);
        assert(a =~= seq![a[0]] + a.drop_first());
        assert(b =~= seq![b[0]] + b.drop_first());
    }
}

/// Bytes with the same escaped form are the same bytes.
pub proof fn lemma_escape_injective(a: Seq<u8>, b: Seq<u8>)
    requires
        escape_bytes(a) == escape_bytes(b),
    ensures
        a == b,
{
    lemma_escape_unique(a, b, Seq::empty(), Seq::empty());
}

/// Two texts that are the same, each made of a part without `mark` and a
/// part that starts with `mark`, are made of the same parts.
pub proof fn lemma_split_at_mark(
    mark: char,
    before_a: Seq<char>,
    after_a: Seq<char>,
    before_b: Seq<char>,
    after_b: Seq<char>,
)
    requires
        forall|i: int| 0 <= i < before_a.len() ==> before_a[i] != mark,
        forall|i: int| 0 <= i < before_b.len() ==> before_b[i] != mark,
        after_a.len() > 0 && after_a[0] == mark,
        after_b.len() > 0 && after_b[0] == mark,
        before_a + after_a == before_b + after_b,
    ensures
        before_a == before_b,
        after_a == after_b,
{
    let text = before_a + after_a;
    if before_a.len() < before_b.len() {
        assert(text[before_a.len() as int] == after_a[0]);
        assert(text[before_a.len() as int] == before_b[before_a.len() as int]);
    } else if before_b.len() < before_a.len() {
        assert(text[before_b.len() as int] == after_b[0]);
        assert(text[before_b.len() as int] == before_a[before_b.len() as int]);
    } else {
        assert(before_a =~= text.take(before_a.len() as int));
        assert(before_b =~= text.take(before_a.len() as int));
        assert(after_a =~= text.skip(before_a.len() as int));
        assert(after_b =~= text.skip(before_a.len() as int));
    }
}

} // verus!
