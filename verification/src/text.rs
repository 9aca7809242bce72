//! The text of messages: decimal rendering of integers, and folding a text
//! into a single line.

use vstd::prelude::*;

verus! {

/// The character that stands for a single decimal digit.
pub open spec fn digit_char(d: nat) -> char
    recommends
        d < 10,
{
    if d == 0 {
        '0'
    } else if d == 1 {
        '1'
    } else if d == 2 {
        '2'
    } else if d == 3 {
        '3'
    } else if d == 4 {
        '4'
    } else if d == 5 {
        '5'
    } else if d == 6 {
        '6'
    } else if d == 7 {
        '7'
    } else if d == 8 {
        '8'
    } else {
        '9'
    }
}

/// The decimal digits of a natural number, most significant first, without
/// leading zeros (zero itself is the single digit `0`).
pub open spec fn decimal_digits(n: nat) -> Seq<char>
    decreases n,
{
    if n < 10 {
        seq![digit_char(n)]
    } else {
        decimal_digits(n / 10).push(digit_char(n % 10))
    }
}

/// The decimal rendering of an integer: a minus sign for a negative number,
/// then the digits of its magnitude.
pub open spec fn decimal(i: int) -> Seq<char> {
    if i < 0 {
        seq!['-'] + decimal_digits((-i) as nat)
    } else {
        decimal_digits(i as nat)
    }
}

/// The one-character string for a decimal digit.
fn digit_str(d: u32) -> (s: &'static str)
    requires
        d < 10,
    ensures
        s@ == seq![digit_char(d as nat)],
{
    proof {
        reveal_strlit("0");
        reveal_strlit("1");
        reveal_strlit("2");
        reveal_strlit("3");
        reveal_strlit("4");
        reveal_strlit("5");
        reveal_strlit("6");
        reveal_strlit("7");
        reveal_strlit("8");
        reveal_strlit("9");
    }
    let s = if d == 0 {
        "0"
    } else if d == 1 {
        "1"
    } else if d == 2 {
        "2"
    } else if d == 3 {
        "3"
    } else if d == 4 {
        "4"
    } else if d == 5 {
        "5"
    } else if d == 6 {
        "6"
    } else if d == 7 {
        "7"
    } else if d == 8 {
        "8"
    } else {
        "9"
    };
    assert(s@ =~= seq![digit_char(d as nat)]);
    s
}

/// Appends the decimal digits of `n` to `out`.
pub fn push_decimal_digits(out: &mut String, n: u32)
    ensures
        final(out)@ == old(out)@ + decimal_digits(n as nat),
    decreases n,
{
    if n >= 10 {
        push_decimal_digits(out, n / 10);
    }
    out.append(digit_str(n % 10));
}

/// Appends the decimal rendering of `i` to `out`.
pub fn push_decimal(out: &mut String, i: i32)
    ensures
        final(out)@ == old(out)@ + decimal(i as int),
{
    if i < 0 {
        out.append("-");
        proof {
            reveal_strlit("-");
        }
        let magnitude: u32 = (-(i as i64)) as u32;
        push_decimal_digits(out, magnitude);
    } else {
        push_decimal_digits(out, i as u32);
    }
}

/// Every character of a number's digits is a decimal digit.
pub proof fn lemma_digits_are_digits(n: nat)
    ensures
        decimal_digits(n).len() >= 1,
        forall|i: int|
            0 <= i < decimal_digits(n).len() ==> '0' <= #[trigger] decimal_digits(n)[i] <= '9',
    decreases n,
{
    if n >= 10 {
        lemma_digits_are_digits(n / 10);
    }
}

/// The decimal rendering of an integer holds no line break.
pub proof fn lemma_decimal_is_one_line(i: int)
    ensures
        !decimal(i).contains('\n'),
        !decimal(i).contains('\r'),
{
    let magnitude = if i < 0 {
        (-i) as nat
    } else {
        i as nat
    };
    lemma_digits_are_digits(magnitude);
}

/// Whether a character ends a line.
pub open spec fn is_line_break(c: char) -> bool {
    c == '\n' || c == '\r'
}

/// The text with a space in place of every line break.
pub open spec fn one_line(text: Seq<char>) -> Seq<char> {
    Seq::new(
        text.len(),
        |i: int|
            if is_line_break(text[i]) {
                ' '
            } else {
                text[i]
            },
    )
}

/// Copies a text, with a space in place of every line break.
pub fn to_one_line(text: &str) -> (line: String)
    ensures
        line@ == one_line(text@),
{
    let length = text.unicode_len();
    let mut line = String::new();
    let mut i: usize = 0;
    while i < length
        invariant
            length == text@.len(),
            i <= length,
            line@ == one_line(text@).subrange(0, i as int),
        decreases length - i,
    {
        let c = text.get_char(i);
        let ghost before = line@;
        if c == '\n' || c == '\r' {
            proof {
                reveal_strlit(" ");
            }
            line.append(" ");
            assert(line@ =~= before.push(' '));
        } else {
            line.append(text.substring_char(i, i + 1));
            assert(line@ =~= before.push(c));
        }
        assert(line@ =~= one_line(text@).subrange(0, i + 1));
        i += 1;
    }
    assert(line@ =~= one_line(text@));
    line
}

/// A text that went through [`one_line`] holds no line break.
pub proof fn lemma_one_line_has_no_break(text: Seq<char>)
    ensures
        !one_line(text).contains('\n'),
        !one_line(text).contains('\r'),
{
}

/// A text without line breaks goes through [`one_line`] unchanged.
pub proof fn lemma_one_line_keeps_a_line(text: Seq<char>)
    requires
        !text.contains('\n'),
        !text.contains('\r'),
    ensures
        one_line(text) == text,
{
    assert forall|i: int| 0 <= i < text.len() implies one_line(text)[i] == text[i] by {
        assert(text.contains(text[i]));
    }
    assert(one_line(text) =~= text);
}

/// Folding a text into one line a second time changes nothing.
pub proof fn lemma_one_line_is_idempotent(text: Seq<char>)
    ensures
        one_line(one_line(text)) == one_line(text),
{
    assert(one_line(one_line(text)) =~= one_line(text));
}

} // verus!