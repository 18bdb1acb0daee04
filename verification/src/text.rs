//! Numbers as text: the lower-case hexadecimal and the decimal forms that the
//! state dump is made of.

use vstd::prelude::*;
use vstd::string::*;

verus! {

/// The character of one digit; `n` is below 16.
pub open spec fn digit_char(n: int) -> char {
    if n == 0 {
        '0'
    } else if n == 1 {
        '1'
    } else if n == 2 {
        '2'
    } else if n == 3 {
        '3'
    } else if n == 4 {
        '4'
    } else if n == 5 {
        '5'
    } else if n == 6 {
        '6'
    } else if n == 7 {
        '7'
    } else if n == 8 {
        '8'
    } else if n == 9 {
        '9'
    } else if n == 10 {
        'a'
    } else if n == 11 {
        'b'
    } else if n == 12 {
        'c'
    } else if n == 13 {
        'd'
    } else if n == 14 {
        'e'
    } else {
        'f'
    }
}

/// The digits of `value` in the given base (10 or 16), most significant
/// first, without leading zeros; zero is the single digit `0`.
pub open spec fn digits(value: nat, base: nat) -> Seq<char>
    decreases value,
{
    if value < base || base < 2 {
        seq![digit_char(value as int)]
    } else {
        proof {
            assert(value / base < value) by (nonlinear_arith)
                requires
                    base >= 2,
                    value >= base,
            ;
        }
        digits(value / base, base).push(digit_char((value % base) as int))
    }
}

/// `count` zeros.
pub open spec fn zeros(count: nat) -> Seq<char> {
    Seq::new(count, |i: int| '0')
}

/// `value` in lower-case hexadecimal, padded on the left with zeros to at
/// least `width` characters. A value with more digits than `width` is
/// written in full.
pub open spec fn hex(value: u64, width: nat) -> Seq<char> {
    let significant = digits(value as nat, 16);
    if significant.len() < width {
        zeros((width - significant.len()) as nat) + significant
    } else {
        significant
    }
}

/// `value` in decimal.
pub open spec fn decimal(value: u32) -> Seq<char> {
    digits(value as nat, 10)
}

/// A number has at least one digit, and in base 16 a 64-bit number has at
/// most sixteen of them.
pub proof fn lemma_digits_len(value: nat, base: nat)
    ensures
        digits(value, base).len() >= 1,
        base == 16 && value <= u64::MAX ==> digits(value, base).len() <= 16,
{
    reveal_with_fuel(digits, 17);
}

/// The value of one digit character; zero for any other character.
pub open spec fn digit_value(c: char) -> nat {
    if c == '1' {
        1
    } else if c == '2' {
        2
    } else if c == '3' {
        3
    } else if c == '4' {
        4
    } else if c == '5' {
        5
    } else if c == '6' {
        6
    } else if c == '7' {
        7
    } else if c == '8' {
        8
    } else if c == '9' {
        9
    } else if c == 'a' {
        10
    } else if c == 'b' {
        11
    } else if c == 'c' {
        12
    } else if c == 'd' {
        13
    } else if c == 'e' {
        14
    } else if c == 'f' {
        15
    } else {
        0
    }
}

/// The number that a text of digits stands for in the given base.
pub open spec fn number_of(text: Seq<char>, base: nat) -> nat
    decreases text.len(),
{
    if text.len() == 0 {
        0
    } else {
        number_of(text.drop_last(), base) * base + digit_value(text.last())
    }
}

/// The digits of a number stand for that number, in base 10 and in base 16.
pub proof fn lemma_digits_read_back(value: nat, base: nat)
    requires
        base == 10 || base == 16,
    ensures
        number_of(digits(value, base), base) == value,
    decreases value,
{
    if value < base {
        let text = digits(value, base);
        assert(text.drop_last() =~= Seq::<char>::empty());
        assert(number_of(text.drop_last(), base) == 0);
        assert(number_of(text.drop_last(), base) * base == 0) by (nonlinear_arith)
            requires
                number_of(text.drop_last(), base) == 0,
        ;
    } else {
        let shorter = digits(value / base, base);
        let text = shorter.push(digit_char((value % base) as int));
        assert(text.drop_last() =~= shorter);
        lemma_digits_read_back(value / base, base);
        assert((value / base) * base + value % base == value) by (nonlinear_arith)
            requires
                base > 0,
        ;
    }
}

/// Leading zeros leave the number that a text stands for as it is.
pub proof fn lemma_zeros_read_back(count: nat, text: Seq<char>, base: nat)
    ensures
        number_of(zeros(count) + text, base) == number_of(text, base),
    decreases text.len(),
{
    let whole = zeros(count) + text;
    if text.len() == 0 {
        assert(whole =~= zeros(count));
        lemma_only_zeros(count, base);
    } else {
        assert(whole.drop_last() =~= zeros(count) + text.drop_last());
        lemma_zeros_read_back(count, text.drop_last(), base);
    }
}

proof fn lemma_only_zeros(count: nat, base: nat)
    ensures
        number_of(zeros(count), base) == 0,
    decreases count,
{
    if count > 0 {
        assert(zeros(count).drop_last() =~= zeros((count - 1) as nat));
        lemma_only_zeros((count - 1) as nat, base);
        assert(number_of(zeros((count - 1) as nat), base) * base == 0) by (nonlinear_arith)
            requires
                number_of(zeros((count - 1) as nat), base) == 0,
        ;
    }
}

/// The hexadecimal text of a value stands for that value, whatever the
/// width, and the decimal text of a number for that number.
pub proof fn lemma_text_reads_back(value: u64, width: nat, number: u32)
    ensures
        number_of(hex(value, width), 16) == value,
        number_of(decimal(number), 10) == number,
{
    lemma_digits_read_back(value as nat, 16);
    lemma_digits_read_back(number as nat, 10);
    let significant = digits(value as nat, 16);
    if significant.len() < width {
        lemma_zeros_read_back((width - significant.len()) as nat, significant, 16);
    }
}

fn digit_str(n: u64) -> (s: &'static str)
    requires
        n < 16,
    ensures
        s@ == seq![digit_char(n as int)],
{
    proof {
        reveal_strlit("0");
        reveal_strlit("1");
        reveal_strlit("2");
        reveal_strlit("3");
        reveal_strlit("4");
        reveal_strlit("5");
        reveal_strlit("6");
        reveal_strlit("7");
        reveal_strlit("8");
        reveal_strlit("9");
        reveal_strlit("a");
        reveal_strlit("b");
        reveal_strlit("c");
        reveal_strlit("d");
        reveal_strlit("e");
        reveal_strlit("f");
    }
    let s: &'static str = if n == 0 {
        "0"
    } else if n == 1 {
        "1"
    } else if n == 2 {
        "2"
    } else if n == 3 {
        "3"
    } else if n == 4 {
        "4"
    } else if n == 5 {
        "5"
    } else if n == 6 {
        "6"
    } else if n == 7 {
        "7"
    } else if n == 8 {
        "8"
    } else if n == 9 {
        "9"
    } else if n == 10 {
        "a"
    } else if n == 11 {
        "b"
    } else if n == 12 {
        "c"
    } else if n == 13 {
        "d"
    } else if n == 14 {
        "e"
    } else {
        "f"
    };
    assert(s@ =~= seq![digit_char(n as int)]);
    s
}

/// Appends the digits of `value` in base 10 or 16 to `out`.
fn push_digits(out: &mut String, value: u64, base: u64)
    requires
        base == 10 || base == 16,
    ensures
        final(out)@ == old(out)@ + digits(value as nat, base as nat),
    decreases value,
{
    if value < base {
        out.append(digit_str(value));
        assert(digits(value as nat, base as nat) == seq![digit_char(value as int)]);
    } else {
        push_digits(out, value / base, base);
        out.append(digit_str(value % base));
        assert(old(out)@ + digits((value / base) as nat, base as nat) + seq![
            digit_char((value % base) as int),
        ] =~= old(out)@ + digits(value as nat, base as nat));
    }
}

/// The number of hexadecimal digits of `value`.
fn hex_digit_count(value: u64) -> (count: usize)
    ensures
        count == digits(value as nat, 16).len(),
        1 <= count <= 16,
    decreases value,
{
    proof {
        lemma_digits_len(value as nat, 16);
    }
    if value < 16 {
        1
    } else {
        let rest: usize = hex_digit_count(value / 16);
        rest + 1
    }
}

/// Appends `value` to `out` in lower-case hexadecimal, padded on the left
/// with zeros to at least `width` characters.
pub fn push_hex(out: &mut String, value: u64, width: usize)
    ensures
        final(out)@ == old(out)@ + hex(value, width as nat),
{
    let count: usize = hex_digit_count(value);
    let mut written: usize = count;
    while written < width
        invariant
            count <= written,
            written <= width || written == count,
            out@ == old(out)@ + zeros((written - count) as nat),
        decreases width - written,
    {
        proof {
            reveal_strlit("0");
        }
        out.append("0");
        written = written + 1;
        assert(out@ =~= old(out)@ + zeros((written - count) as nat));
    }
    push_digits(out, value, 16);
    assert(final(out)@ =~= old(out)@ + hex(value, width as nat));
}

/// `value` in lower-case hexadecimal, padded on the left with zeros to at
/// least `width` characters.
pub fn to_hex(value: u64, width: usize) -> (text: String)
    ensures
        text@ == hex(value, width as nat),
{
    let mut text = String::new();
    push_hex(&mut text, value, width);
    assert(text@ =~= hex(value, width as nat));
    text
}

/// Appends `value` to `out` in decimal.
pub fn push_decimal(out: &mut String, value: u32)
    ensures
        final(out)@ == old(out)@ + decimal(value),
{
    push_digits(out, value as u64, 10);
}

/// `value` in decimal.
pub fn to_decimal(value: u32) -> (text: String)
    ensures
        text@ == decimal(value),
{
    let mut text = String::new();
    push_decimal(&mut text, value);
    assert(text@ =~= decimal(value));
    text
}

} // verus!
