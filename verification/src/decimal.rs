//! Numbers written in decimal digits.

use vstd::prelude::*;

verus! {

/// Whether `c` is one of the digits from 0 to 9.
pub open spec fn is_digit(c: char) -> bool {
    '0' <= c <= '9'
}

/// Whether `text` holds nothing but digits.
pub open spec fn all_digits(text: Seq<char>) -> bool {
    forall|i: int| 0 <= i < text.len() ==> is_digit(#[trigger] text[i])
}

/// The number that the digit `c` stands for.
pub open spec fn digit_value(c: char) -> nat {
    (c as u32 - '0' as u32) as nat
}

/// The digit that stands for `d`, a number below ten.
pub open spec fn digit_char(d: nat) -> char {
    ('0' as u8 + d) as u8 as char
}

/// The number that a text of digits stands for, the last digit counting
/// least. The empty text stands for zero.
pub open spec fn digits_value(text: Seq<char>) -> nat
    decreases text.len(),
{
    if text.len() == 0 {
        0
    } else {
        digits_value(text.drop_last()) * 10 + digit_value(text.last())
    }
}

/// The digits of `n`, without leading zeros; the digit 0 for zero.
pub open spec fn decimal(n: nat) -> Seq<char>
    decreases n,
{
    if n < 10 {
        seq![digit_char(n)]
    } else {
        decimal(n / 10).push(digit_char(n % 10))
    }
}

/// `count` times the digit 0.
pub open spec fn zeros(count: nat) -> Seq<char> {
    Seq::new(count, |i: int| '0')
}

/// The digits of `n`, with zeros in front where they are fewer than
/// `width`.
pub open spec fn padded(n: nat, width: nat) -> Seq<char> {
    let digits = decimal(n);
    if digits.len() >= width {
        digits
    } else {
        zeros((width - digits.len()) as nat) + digits
    }
}

/// The number that `text` stands for, if it is one or more digits and the
/// number fits in 32 bits.
pub open spec fn number_of(text: Seq<char>) -> Option<u32> {
    if text.len() > 0 && all_digits(text) && digits_value(text) <= u32::MAX {
        Some(digits_value(text) as u32)
    } else {
        None
    }
}

/// A text of digits stands for at least as much as each of its beginnings.
pub proof fn lemma_value_grows(text: Seq<char>, cut: int)
    requires
        0 <= cut <= text.len(),
    ensures
        digits_value(text.take(cut)) <= digits_value(text),
    decreases text.len(),
{
    if cut == text.len() {
        assert(text.take(cut) =~= text);
    } else {
        assert(text.drop_last().take(cut) =~= text.take(cut));
        lemma_value_grows(text.drop_last(), cut);
    }
}

/// The digits of a number are digits, at least one, and stand for the
/// number.
pub proof fn lemma_decimal(n: nat)
    ensures
        decimal(n).len() >= 1,
        all_digits(decimal(n)),
        digits_value(decimal(n)) == n,
    decreases n,
{
    if n < 10 {
        let text = decimal(n);
        assert(digits_value(text.drop_last()) == 0);
    } else {
        lemma_decimal(n / 10);
        let text = decimal(n);
        assert(text.drop_last() =~= decimal(n / 10));
    }
}

/// Zeros in front of a text of digits do not change the number it stands
/// for.
pub proof fn lemma_leading_zeros(count: nat, text: Seq<char>)
    ensures
        digits_value(zeros(count) + text) == digits_value(text),
    decreases text.len(), count,
{
    let whole = zeros(count) + text;
    if text.len() > 0 {
        assert(whole.drop_last() =~= zeros(count) + text.drop_last());
        lemma_leading_zeros(count, text.drop_last());
    } else if count > 0 {
        assert(whole.drop_last() =~= zeros((count - 1) as nat) + text);
        lemma_leading_zeros((count - 1) as nat, text);
    }
}

/// A number written with zeros in front is digits, at least one and at
/// least `width`, and stands for the number.
pub proof fn lemma_padded(n: nat, width: nat)
    ensures
        padded(n, width).len() >= 1,
        padded(n, width).len() >= width,
        all_digits(padded(n, width)),
        number_of(padded(n, width)) == (if n <= u32::MAX {
            Some(n as u32)
        } else {
            None
        }),
        digits_value(padded(n, width)) == n,
{
    lemma_decimal(n);
    let digits = decimal(n);
    if digits.len() < width {
        lemma_leading_zeros((width - digits.len()) as nat, digits);
    }
}

/// The digit that stands for `d`.
pub fn digit_of(d: u32) -> (c: char)
    requires
        d < 10,
    ensures
        c == digit_char(d as nat),
        is_digit(c),
        digit_value(c) == d,
{
    ('0' as u8 + d as u8) as char
}

/// The digits of `n`, without leading zeros.
pub fn decimal_chars(n: u32) -> (digits: Vec<char>)
    ensures
        digits@ == decimal(n as nat),
    decreases n,
{
    if n < 10 {
        let mut digits: Vec<char> = Vec::new();
        digits.push(digit_of(n));
        digits
    } else {
        let mut digits = decimal_chars(n / 10);
        digits.push(digit_of(n % 10));
        digits
    }
}

/// Appends the digits of `n` to `out`, with zeros in front where they are
/// fewer than `width`.
pub fn push_padded(out: &mut String, n: u32, width: usize)
    ensures
        final(out)@ == old(out)@ + padded(n as nat, width as nat),
{
    let digits = decimal_chars(n);
    let ghost start = out@;
    let mut written: usize = digits.len();
    while written < width
        invariant
            digits.len() <= written <= width || written == digits.len(),
            out@ == start + zeros((written - digits.len()) as nat),
        decreases width - written,
    {
        out.push('0');
        written += 1;
    }
    let ghost fill = out@;
    let mut i: usize = 0;
    while i < digits.len()
        invariant
            i <= digits.len(),
            out@ == fill + digits@.take(i as int),
        decreases digits.len() - i,
    {
        out.push(digits[i]);
        i += 1;
    }
}

/// The number that the characters from `from` up to `to` stand for, if
/// they are one or more digits and the number fits in 32 bits.
pub fn parse_number(chars: &Vec<char>, from: usize, to: usize) -> (number: Option<u32>)
    requires
        from <= to <= chars.len(),
    ensures
        number == number_of(chars@.subrange(from as int, to as int)),
{
    let ghost text = chars@.subrange(from as int, to as int);
    if from == to {
        return None;
    }
    let mut value: u64 = 0;
    let mut i: usize = from;
    while i < to
        invariant
            from <= i <= to <= chars.len(),
            text == chars@.subrange(from as int, to as int),
            all_digits(text.take(i - from)),
            value == digits_value(text.take(i - from)),
            value <= u32::MAX,
        decreases to - i,
    {
        let c = chars[i];
        assert(c == text[i - from]);
        if !('0' <= c && c <= '9') {
            return None;
        }
        let ghost before = text.take(i - from);
        let ghost after = text.take(i - from + 1);
        assert(after.drop_last() =~= before);
        value = value * 10 + (c as u32 - '0' as u32) as u64;
        i += 1;
        if value > u32::MAX as u64 {
            proof {
                lemma_value_grows(text, i - from);
            }
            return None;
        }
    }
    assert(text.take(i - from) =~= text);
    Some(value as u32)
}

} // verus!
