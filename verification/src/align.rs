//! Decimal numbers and right alignment, as text.

use vstd::prelude::*;

verus! {

/// The character of a decimal digit.
pub open spec fn digit(d: nat) -> char {
    if d == 0 {
        '0'
    } else if d == 1 {
        '1'
    } else if d == 2 {
        '2'
    } else if d == 3 {
        '3'
    } else if d == 4 {
        '4'
    } else if d == 5 {
        '5'
    } else if d == 6 {
        '6'
    } else if d == 7 {
        '7'
    } else if d == 8 {
        '8'
    } else {
        '9'
    }
}

/// `n` in decimal, without sign or leading zeros.
pub open spec fn decimal(n: nat) -> Seq<char>
    decreases n,
{
    if n < 10 {
        seq![digit(n)]
    } else {
        decimal(n / 10).push(digit(n % 10))
    }
}

/// The digit that a character stands for.
pub open spec fn digit_value(c: char) -> nat {
    if c == '1' {
        1
    } else if c == '2' {
        2
    } else if c == '3' {
        3
    } else if c == '4' {
        4
    } else if c == '5' {
        5
    } else if c == '6' {
        6
    } else if c == '7' {
        7
    } else if c == '8' {
        8
    } else if c == '9' {
        9
    } else {
        0
    }
}

/// The number that a text of decimal digits stands for.
pub open spec fn decimal_value(text: Seq<char>) -> nat
    decreases text.len(),
{
    if text.len() == 0 {
        0
    } else {
        10 * decimal_value(text.drop_last()) + digit_value(text.last())
    }
}

/// `count` spaces.
pub open spec fn padding(count: nat) -> Seq<char> {
    Seq::new(count, |i: int| ' ')
}

/// `text` behind as many spaces as it takes to fill `width` characters;
/// `text` alone where it is as long as that or longer.
pub open spec fn right_aligned(text: Seq<char>, width: nat) -> Seq<char> {
    if text.len() < width {
        padding((width - text.len()) as nat) + text
    } else {
        text
    }
}

/// The text of a number whose digits are given from the lowest up.
spec fn digits_text(digits: Seq<u8>) -> Seq<char> {
    Seq::new(digits.len(), |i: int| digit(digits[digits.len() - 1 - i] as nat))
}

/// Right-aligned text fills its width, and is cut nowhere.
pub proof fn lemma_right_aligned_len(text: Seq<char>, width: nat)
    ensures
        right_aligned(text, width).len() == if text.len() < width {
            width
        } else {
            text.len()
        },
{
}

/// The decimal text of a number stands for that number.
pub proof fn lemma_decimal_value(n: nat)
    ensures
        decimal_value(decimal(n)) == n,
    decreases n,
{
    let text = decimal(n);
    if n < 10 {
        assert(text.drop_last() =~= Seq::<char>::empty());
        assert(digit_value(text.last()) == n);
    } else {
        lemma_decimal_value(n / 10);
        assert(text.drop_last() =~= decimal(n / 10));
        assert(digit_value(text.last()) == n % 10);
    }
    assert(decimal_value(text) == 10 * decimal_value(text.drop_last()) + digit_value(text.last()));
}

fn digit_str(d: u8) -> (s: &'static str)
    requires
        d < 10,
    ensures
        s@ == seq![digit(d as nat)],
{
    proof {
        reveal_strlit("0");
        reveal_strlit("1");
        reveal_strlit("2");
        reveal_strlit("3");
        reveal_strlit("4");
        reveal_strlit("5");
        reveal_strlit("6");
        reveal_strlit("7");
        reveal_strlit("8");
        reveal_strlit("9");
    }
    let s = match d {
        0 => "0",
        1 => "1",
        2 => "2",
        3 => "3",
        4 => "4",
        5 => "5",
        6 => "6",
        7 => "7",
        8 => "8",
        _ => "9",
    };
    assert(s@ =~= seq![digit(d as nat)]);
    s
}

/// Appends `count` spaces to `out`.
pub fn push_padding(out: &mut String, count: usize)
    ensures
        final(out)@ == old(out)@ + padding(count as nat),
{
    let mut done: usize = 0;
    assert(out@ =~= old(out)@ + padding(0));
    while done < count
        invariant
            done <= count,
            out@ == old(out)@ + padding(done as nat),
        decreases count - done,
    {
        proof {
            reveal_strlit(" ");
        }
        out.append(" ");
        done += 1;
        assert(out@ =~= old(out)@ + padding(done as nat));
    }
}

/// Appends `n` in decimal to `out`, right-aligned in `width` characters.
pub fn push_number(out: &mut String, n: u128, width: usize)
    ensures
        final(out)@ == old(out)@ + right_aligned(decimal(n as nat), width as nat),
{
    let mut digits: Vec<u8> = Vec::new();
    digits.push((n % 10) as u8);
    let mut rest: u128 = n / 10;
    assert(digits_text(digits@) =~= seq![digit((n % 10) as nat)]);
    while rest > 0
        invariant
            1 <= digits.len(),
            forall|k: int| 0 <= k < digits.len() ==> digits[k] < 10,
            rest > 0 ==> decimal(n as nat) == decimal(rest as nat) + digits_text(digits@),
            rest == 0 ==> decimal(n as nat) == digits_text(digits@),
        decreases rest,
    {
        let d = (rest % 10) as u8;
        let ghost before = digits@;
        digits.push(d);
        assert(digits_text(digits@) =~= seq![digit(d as nat)] + digits_text(before));
        rest = rest / 10;
    }
    let len = digits.len();
    if len < width {
        push_padding(out, width - len);
    }
    let ghost prefix = out@;
    let mut left: usize = len;
    assert(out@ =~= prefix + digits_text(digits@).take(0));
    while left > 0
        invariant
            left <= len,
            len == digits.len(),
            forall|k: int| 0 <= k < digits.len() ==> digits[k] < 10,
            out@ == prefix + digits_text(digits@).take(len - left),
        decreases left,
    {
        left -= 1;
        out.append(digit_str(digits[left]));
        assert(out@ =~= prefix + digits_text(digits@).take(len - left));
    }
    assert(digits_text(digits@).take(len as int) =~= digits_text(digits@));
}

} // verus!
