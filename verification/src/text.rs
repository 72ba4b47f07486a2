//! Text forms of numbers and bytes.

use vstd::prelude::*;
use vstd::string::*;

verus! {

/// The digit that stands for `value`, in bases up to sixteen.
pub open spec fn digit(value: int) -> char {
    "0123456789abcdef"@[value]
}

/// The number that a digit stands for.
pub open spec fn digit_value(c: char) -> nat {
    if c <= '9' {
        (c as int - '0' as int) as nat
    } else {
        (c as int - 'a' as int + 10) as nat
    }
}

/// `n` in base ten, without leading zeros.
pub open spec fn decimal(n: nat) -> Seq<char>
    decreases n,
{
    if n < 10 {
        seq![digit(n as int)]
    } else {
        decimal(n / 10).push(digit((n % 10) as int))
    }
}

/// The number that base ten digits stand for.
pub open spec fn decimal_value(text: Seq<char>) -> nat
    decreases text.len(),
{
    if text.len() == 0 {
        0
    } else {
        10 * decimal_value(text.drop_last()) + digit_value(text.last())
    }
}

/// Every byte as two base sixteen digits, the high one first.
pub open spec fn hex(bytes: Seq<u8>) -> Seq<char> {
    Seq::new(
        2 * bytes.len(),
        |i: int|
            if i % 2 == 0 {
                digit(bytes[i / 2] as int / 16)
            } else {
                digit(bytes[i / 2] as int % 16)
            },
    )
}

/// The digit that stands for `value`, as a text of its own.
fn digit_text(value: usize) -> (text: &'static str)
    requires
        value < 16,
    ensures
        text@ == seq![digit(value as int)],
{
    proof {
        reveal_strlit("0123456789abcdef");
    }
    let digits: &'static str = "0123456789abcdef";
    let text = digits.substring_ascii(value, value + 1);
    assert(text@ =~= seq![digit(value as int)]);
    text
}

/// Appends `n` in base ten.
pub fn push_decimal(text: &mut String, n: u128)
    ensures
        final(text)@ == old(text)@ + decimal(n as nat),
    decreases n,
{
    if n >= 10 {
        push_decimal(text, n / 10);
    }
    text.append(digit_text((n % 10) as usize));
    assert(text@ =~= old(text)@ + decimal(n as nat));
}

/// Every byte as two lower case base sixteen digits.
pub fn lower_hex(bytes: &[u8]) -> (text: String)
    ensures
        text@ == hex(bytes@),
{
    let mut text = String::new();
    let mut i: usize = 0;
    while i < bytes.len()
        invariant
            i <= bytes.len(),
            text@ == hex(bytes@.take(i as int)),
        decreases bytes.len() - i,
    {
        text.append(digit_text((bytes[i] / 16) as usize));
        text.append(digit_text((bytes[i] % 16) as usize));
        i = i + 1;
        assert(text@ =~= hex(bytes@.take(i as int)));
    }
    assert(bytes@.take(i as int) =~= bytes@);
    text
}

/// Whether two texts are the same.
pub fn same_text(a: &str, b: &str) -> (same: bool)
    ensures
        same == (a@ == b@),
{
    a.to_owned() == b.to_owned()
}

/// Every digit stands for the number it was made from.
proof fn lemma_digit_value(value: int)
    requires
        0 <= value < 16,
    ensures
        digit_value(digit(value)) == value,
{
    reveal_strlit("0123456789abcdef");
}

/// Law: a number written in base ten reads back as the same number.
pub proof fn decimal_reads_back(n: nat)
    ensures
        decimal_value(decimal(n)) == n,
        decimal(n).len() > 0,
    decreases n,
{
    if n < 10 {
        lemma_digit_value(n as int);
        assert(decimal(n).drop_last() =~= Seq::<char>::empty());
        assert(decimal_value(decimal(n).drop_last()) == 0);
    } else {
        decimal_reads_back(n / 10);
        lemma_digit_value((n % 10) as int);
        assert(decimal(n).drop_last() =~= decimal(n / 10));
    }
}

/// Law: bytes can be read back from their base sixteen digits, so different
/// bytes have different digits.
pub proof fn hex_reads_back(bytes: Seq<u8>, i: int)
    requires
        0 <= i < bytes.len(),
    ensures
        hex(bytes).len() == 2 * bytes.len(),
        bytes[i] == 16 * digit_value(hex(bytes)[2 * i]) + digit_value(hex(bytes)[2 * i + 1]),
{
    lemma_digit_value(bytes[i] as int / 16);
    lemma_digit_value(bytes[i] as int % 16);
    assert((2 * i) % 2 == 0 && (2 * i) / 2 == i);
    assert((2 * i + 1) % 2 == 1 && (2 * i + 1) / 2 == i);
}

} // verus!
