//! Decimal numbers and padded fields as text.

use vstd::prelude::*;

verus! {

/// `String::push` appends one character to the end of the string.
pub assume_specification[ String::push ](s: &mut String, ch: char)
    ensures
        final(s)@ == old(s)@.push(ch),
;

/// The character of one decimal digit.
pub open spec fn digit_char(d: nat) -> char
    recommends
        d < 10,
{
    if d == 0 {
        '0'
    } else if d == 1 {
        '1'
    } else if d == 2 {
        '2'
    } else if d == 3 {
        '3'
    } else if d == 4 {
        '4'
    } else if d == 5 {
        '5'
    } else if d == 6 {
        '6'
    } else if d == 7 {
        '7'
    } else if d == 8 {
        '8'
    } else {
        '9'
    }
}

/// A number in decimal, without sign or leading zeros; zero is "0".
pub open spec fn decimal(n: nat) -> Seq<char>
    decreases n,
{
    if n < 10 {
        seq![digit_char(n)]
    } else {
        decimal(n / 10).push(digit_char(n % 10))
    }
}

/// `count` copies of `fill`.
pub open spec fn filler(fill: char, count: nat) -> Seq<char> {
    Seq::new(count, |i: int| fill)
}

/// `text` moved to the right end of a field of `width` characters, the
/// front filled with `fill`. A text longer than the field stays whole.
pub open spec fn pad_left(text: Seq<char>, width: nat, fill: char) -> Seq<char> {
    if text.len() >= width {
        text
    } else {
        filler(fill, (width - text.len()) as nat) + text
    }
}

/// `text` at the left end of a field of `width` characters, the rest filled
/// with spaces. A text longer than the field stays whole.
pub open spec fn pad_right(text: Seq<char>, width: nat) -> Seq<char> {
    if text.len() >= width {
        text
    } else {
        text + filler(' ', (width - text.len()) as nat)
    }
}

/// The digit that a character stands for; zero for any other character.
pub open spec fn digit_value(c: char) -> nat {
    if c == '1' {
        1
    } else if c == '2' {
        2
    } else if c == '3' {
        3
    } else if c == '4' {
        4
    } else if c == '5' {
        5
    } else if c == '6' {
        6
    } else if c == '7' {
        7
    } else if c == '8' {
        8
    } else if c == '9' {
        9
    } else {
        0
    }
}

/// The number that a sequence of digits stands for, read in decimal.
pub open spec fn decimal_value(digits: Seq<char>) -> nat
    decreases digits.len(),
{
    if digits.len() == 0 {
        0
    } else {
        decimal_value(digits.drop_last()) * 10 + digit_value(digits.last())
    }
}

/// Reading back what `decimal` wrote gives the number.
pub proof fn law_decimal_reads_back(n: nat)
    ensures
        decimal_value(decimal(n)) == n,
    decreases n,
{
    if n < 10 {
        assert(decimal(n).drop_last() =~= Seq::<char>::empty());
        assert(decimal_value(decimal(n).drop_last()) == 0);
    } else {
        law_decimal_reads_back(n / 10);
        assert(decimal(n).drop_last() =~= decimal(n / 10));
    }
}

/// Zeros in front of digits do not change the number they stand for.
pub proof fn law_leading_zeros(count: nat, digits: Seq<char>)
    ensures
        decimal_value(filler('0', count) + digits) == decimal_value(digits),
    decreases digits.len(), count,
{
    let all = filler('0', count) + digits;
    if digits.len() > 0 {
        law_leading_zeros(count, digits.drop_last());
        assert(all.drop_last() =~= filler('0', count) + digits.drop_last());
        assert(all.last() == digits.last());
    } else if count > 0 {
        law_leading_zeros((count - 1) as nat, digits);
        assert(all.drop_last() =~= filler('0', (count - 1) as nat) + digits);
        assert(all.last() == '0');
    } else {
        assert(all =~= digits);
    }
}

/// A number below a power of ten has no more digits than the power has
/// zeros, and every number has one digit at least.
pub proof fn law_decimal_len(n: nat)
    ensures
        decimal(n).len() >= 1,
        n < 10 ==> decimal(n).len() == 1,
        10 <= n < 100 ==> decimal(n).len() == 2,
        100 <= n < 1000 ==> decimal(n).len() == 3,
{
    reveal_with_fuel(decimal, 4);
}

/// The character of the decimal digit `d`.
pub fn digit(d: u8) -> (c: char)
    requires
        d < 10,
    ensures
        c == digit_char(d as nat),
{
    if d == 0 {
        '0'
    } else if d == 1 {
        '1'
    } else if d == 2 {
        '2'
    } else if d == 3 {
        '3'
    } else if d == 4 {
        '4'
    } else if d == 5 {
        '5'
    } else if d == 6 {
        '6'
    } else if d == 7 {
        '7'
    } else if d == 8 {
        '8'
    } else {
        '9'
    }
}

/// Appends the digits of `n` to `out`.
fn push_digits(out: &mut Vec<char>, n: u64)
    ensures
        final(out)@ == old(out)@ + decimal(n as nat),
    decreases n,
{
    if n >= 10 {
        push_digits(out, n / 10);
    }
    let d: u8 = (n % 10) as u8;
    out.push(digit(d));
    assert(out@ =~= old(out)@ + decimal(n as nat));
}

/// The digits of `n` in decimal.
pub fn decimal_digits(n: u64) -> (v: Vec<char>)
    ensures
        v@ == decimal(n as nat),
{
    let mut v: Vec<char> = Vec::new();
    push_digits(&mut v, n);
    assert(v@ =~= decimal(n as nat));
    v
}

/// Appends `chars` to `out`.
pub fn push_chars(out: &mut String, chars: &[char])
    ensures
        final(out)@ == old(out)@ + chars@,
{
    let mut i: usize = 0;
    assert(out@ =~= old(out)@ + chars@.take(0));
    while i < chars.len()
        invariant
            i <= chars@.len(),
            out@ == old(out)@ + chars@.take(i as int),
        decreases chars@.len() - i,
    {
        out.push(chars[i]);
        i += 1;
        assert(out@ =~= old(out)@ + chars@.take(i as int));
    }
    assert(chars@.take(i as int) =~= chars@);
}

/// Appends `count` copies of `fill` to `out`.
pub fn push_filler(out: &mut String, fill: char, count: usize)
    ensures
        final(out)@ == old(out)@ + filler(fill, count as nat),
{
    let mut i: usize = 0;
    assert(out@ =~= old(out)@ + filler(fill, 0));
    while i < count
        invariant
            i <= count,
            out@ == old(out)@ + filler(fill, i as nat),
        decreases count - i,
    {
        out.push(fill);
        i += 1;
        assert(out@ =~= old(out)@ + filler(fill, i as nat));
    }
}

/// Appends `n` in decimal to `out`.
pub fn push_decimal(out: &mut String, n: u64)
    ensures
        final(out)@ == old(out)@ + decimal(n as nat),
{
    let digits: Vec<char> = decimal_digits(n);
    push_chars(out, digits.as_slice());
}

/// Appends `n` in decimal to `out`, at the right end of a field of `width`
/// characters whose front is filled with `fill`.
pub fn push_decimal_field(out: &mut String, n: u64, width: usize, fill: char)
    ensures
        final(out)@ == old(out)@ + pad_left(decimal(n as nat), width as nat, fill),
{
    let digits: Vec<char> = decimal_digits(n);
    if digits.len() < width {
        push_filler(out, fill, width - digits.len());
    }
    push_chars(out, digits.as_slice());
    assert(out@ =~= old(out)@ + pad_left(decimal(n as nat), width as nat, fill));
}

/// Appends `name` to `out`, at the left end of a field of `width`
/// characters whose rest is filled with spaces.
pub fn push_name_field(out: &mut String, name: &str, width: usize)
    ensures
        final(out)@ == old(out)@ + pad_right(name@, width as nat),
{
    let len: usize = name.unicode_len();
    out.append(name);
    if len < width {
        push_filler(out, ' ', width - len);
    }
    assert(out@ =~= old(out)@ + pad_right(name@, width as nat));
}

} // verus!
