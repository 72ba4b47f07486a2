//! What holds of the text forms of numbers and bytes.

use crate::text::{decimal, decimal_reads_back, digit, hex, lower_hex, push_decimal, same_text};
use vstd::prelude::*;

verus! {

/// Whether a character is a base ten digit.
pub open spec fn is_decimal_digit(c: char) -> bool {
    '0' <= c <= '9'
}

/// Whether a character is a lower case base sixteen digit.
pub open spec fn is_hex_digit(c: char) -> bool {
    '0' <= c <= '9' || 'a' <= c <= 'f'
}

/// The number that a base sixteen digit stands for.
pub open spec fn hex_digit_value(c: char) -> int {
    if c <= '9' {
        c as int - '0' as int
    } else {
        c as int - 'a' as int + 10
    }
}

/// The number that base ten digits stand for.
pub open spec fn read_decimal(digits: Seq<char>) -> int
    decreases digits.len(),
{
    if digits.len() == 0 {
        0
    } else {
        10 * read_decimal(digits.drop_last()) + (digits.last() as int - '0' as int)
    }
}

/// Every digit is the character that people read.
proof fn lemma_digits()
    ensures
        forall|v: int| 0 <= v < 10 ==> (#[trigger] digit(v)) as int == '0' as int + v,
        forall|v: int| 10 <= v < 16 ==> (#[trigger] digit(v)) as int == 'a' as int + v - 10,
{
    reveal_strlit("0123456789abcdef");
}

/// A number in base ten has base ten digits only, has no leading zero, and reads
/// back.
pub proof fn lemma_decimal(n: nat)
    ensures
        decimal(n).len() > 0,
        forall|i: int| 0 <= i < decimal(n).len() ==> is_decimal_digit(#[trigger] decimal(n)[i]),
        n > 0 ==> decimal(n)[0] != '0',
        n == 0 ==> decimal(n) == seq!['0'],
        read_decimal(decimal(n)) == n,
    decreases n,
{
    lemma_digits();
    decimal_reads_back(n);
    if n < 10 {
        assert(decimal(n).drop_last() =~= Seq::<char>::empty());
        assert(read_decimal(decimal(n).drop_last()) == 0);
        assert(digit(n as int) as int == '0' as int + n);
        assert(decimal(n)[0] == digit(n as int));
    } else {
        lemma_decimal(n / 10);
        let last = (n % 10) as int;
        assert(digit(last) as int == '0' as int + last);
        assert(decimal(n).drop_last() =~= decimal(n / 10));
        assert(decimal(n)[0] == decimal(n / 10)[0]);
    }
}

/// Law: writing a number keeps the text before it and adds base ten digits that
/// read as the number, without leading zeros.
pub proof fn numbers_are_written_in_base_ten(text: &mut String, n: u128)
    requires
        call_ensures(push_decimal, (text, n), ()),
    ensures
        ({
            let before = old(text)@;
            let after = final(text)@;
            let digits = after.skip(before.len() as int);
            &&& before.is_prefix_of(after)
            &&& digits.len() > 0
            &&& forall|i: int| 0 <= i < digits.len() ==> is_decimal_digit(#[trigger] digits[i])
            &&& n > 0 ==> digits[0] != '0'
            &&& n == 0 ==> digits == seq!['0']
            &&& read_decimal(digits) == n
        }),
{
    lemma_decimal(n as nat);
    let before = old(text)@;
    let after = final(text)@;
    assert(after.skip(before.len() as int) =~= decimal(n as nat));
    assert(after.subrange(0, before.len() as int) =~= before);
}

/// Law: bytes are written as two lower case base sixteen digits each, the high
/// one first, from which the bytes can be read.
pub proof fn bytes_are_written_in_base_sixteen(bytes: &[u8], text: String)
    requires
        call_ensures(lower_hex, (bytes,), text),
    ensures
        text@.len() == 2 * bytes@.len(),
        forall|i: int| 0 <= i < text@.len() ==> is_hex_digit(#[trigger] text@[i]),
        forall|i: int|
            0 <= i < bytes@.len() ==> #[trigger] bytes@[i] == 16 * hex_digit_value(text@[2 * i])
                + hex_digit_value(text@[2 * i + 1]),
{
    lemma_hex(bytes@);
}

/// Every byte has two digits that stand for it.
pub proof fn lemma_hex(bytes: Seq<u8>)
    ensures
        hex(bytes).len() == 2 * bytes.len(),
        forall|i: int| 0 <= i < hex(bytes).len() ==> is_hex_digit(#[trigger] hex(bytes)[i]),
        forall|i: int|
            0 <= i < bytes.len() ==> #[trigger] bytes[i] == 16 * hex_digit_value(hex(bytes)[2 * i])
                + hex_digit_value(hex(bytes)[2 * i + 1]),
{
    lemma_digits();
    assert forall|i: int| 0 <= i < hex(bytes).len() implies is_hex_digit(
        #[trigger] hex(bytes)[i],
    ) by {
        let byte = bytes[i / 2] as int;
        assert(0 <= digit(byte / 16) as int && 0 <= digit(byte % 16) as int);
    }
    assert forall|i: int| 0 <= i < bytes.len() implies #[trigger] bytes[i] == 16 * hex_digit_value(
        hex(bytes)[2 * i],
    ) + hex_digit_value(hex(bytes)[2 * i + 1]) by {
        assert((2 * i) % 2 == 0 && (2 * i) / 2 == i);
        assert((2 * i + 1) % 2 == 1 && (2 * i + 1) / 2 == i);
        let byte = bytes[i] as int;
        assert(hex(bytes)[2 * i] == digit(byte / 16));
        assert(hex(bytes)[2 * i + 1] == digit(byte % 16));
    }
}

/// Law: texts are the same where their characters are.
pub proof fn texts_are_compared_by_characters(a: &str, b: &str, same: bool)
    requires
        call_ensures(same_text, (a, b), same),
    ensures
        same <==> a@ =~= b@,
{
}

} // verus!
