//! Numbers as text.

use vstd::prelude::*;

verus! {

/// `String::push`: appends the character to the text.
pub assume_specification[ String::push ](s: &mut String, c: char)
    ensures
        final(s)@ == old(s)@.push(c),
;

/// The lower-case digit for a value below 16.
pub open spec fn lower_digit(value: int) -> char {
    if value < 10 {
        ('0' as int + value) as char
    } else {
        ('a' as int + value - 10) as char
    }
}

/// The upper-case digit for a value below 16.
pub open spec fn upper_digit(value: int) -> char {
    if value < 10 {
        ('0' as int + value) as char
    } else {
        ('A' as int + value - 10) as char
    }
}

/// The `width` lowest digits of `value`, in lower case and the highest digit first.
pub open spec fn lower_hex(value: int, width: nat) -> Seq<char>
    decreases width,
{
    if width == 0 {
        Seq::empty()
    } else {
        lower_hex(value / 16, (width - 1) as nat).push(lower_digit(value % 16))
    }
}

/// The number of digits of `value` without leading zeros.
pub open spec fn hex_width(value: int) -> nat
    decreases value,
{
    if value < 16 {
        1
    } else {
        1 + hex_width(value / 16)
    }
}

/// The two upper-case digits of a byte.
pub open spec fn upper_hex_byte(byte: u8) -> Seq<char> {
    seq![upper_digit(byte as int / 16), upper_digit(byte as int % 16)]
}

/// The two upper-case digits of each byte, in order.
pub open spec fn upper_hex(bytes: Seq<u8>) -> Seq<char>
    decreases bytes.len(),
{
    if bytes.len() == 0 {
        Seq::empty()
    } else {
        upper_hex(bytes.drop_last()) + upper_hex_byte(bytes.last())
    }
}

/// The text has two digits per byte.
pub proof fn lemma_upper_hex_len(bytes: Seq<u8>)
    ensures
        upper_hex(bytes).len() == 2 * bytes.len(),
    decreases bytes.len(),
{
    if bytes.len() > 0 {
        lemma_upper_hex_len(bytes.drop_last());
    }
}

/// Different bytes of the same length give different texts.
pub proof fn lemma_upper_hex_injective(a: Seq<u8>, b: Seq<u8>)
    requires
        upper_hex(a) == upper_hex(b),
    ensures
        a == b,
    decreases a.len(),
{
    lemma_upper_hex_len(a);
    lemma_upper_hex_len(b);
    if a.len() > 0 {
        let x = upper_hex(a);
        let n = x.len() as int;
        assert(x.subrange(0, n - 2) =~= upper_hex(a.drop_last()));
        assert(x.subrange(0, n - 2) =~= upper_hex(b.drop_last()));
        lemma_upper_hex_injective(a.drop_last(), b.drop_last());
        assert(x[n - 2] == upper_digit(a.last() as int / 16));
        assert(x[n - 2] == upper_digit(b.last() as int / 16));
        assert(x[n - 1] == upper_digit(a.last() as int % 16));
        assert(x[n - 1] == upper_digit(b.last() as int % 16));
        assert(a.last() == b.last());
        assert(a =~= a.drop_last().push(a.last()));
        assert(b =~= b.drop_last().push(b.last()));
    } else {
        assert(a =~= b);
    }
}

/// The digits up to `width` determine the value below `16^width`; stated for four digits,
/// as a name built from them stands for one value only.
pub proof fn lemma_lower_hex_injective(a: u16, b: u16)
    requires
        lower_hex(a as int, 4) == lower_hex(b as int, 4),
    ensures
        a == b,
{
    reveal_with_fuel(lower_hex, 5);
    let x = lower_hex(a as int, 4);
    assert(x[3] == lower_digit(a as int % 16));
    assert(x[2] == lower_digit(a as int / 16 % 16));
    assert(x[1] == lower_digit(a as int / 16 / 16 % 16));
    assert(x[0] == lower_digit(a as int / 16 / 16 / 16 % 16));
    assert(x[3] == lower_digit(b as int % 16));
    assert(x[2] == lower_digit(b as int / 16 % 16));
    assert(x[1] == lower_digit(b as int / 16 / 16 % 16));
    assert(x[0] == lower_digit(b as int / 16 / 16 / 16 % 16));
}

/// The lower-case digit for a value below 16.
pub fn lower_digit_char(value: u8) -> (c: char)
    requires
        value < 16,
    ensures
        c == lower_digit(value as int),
{
    if value < 10 {
        (0x30 + value) as char
    } else {
        (0x61 + (value - 10)) as char
    }
}

/// The upper-case digit for a value below 16.
pub fn upper_digit_char(value: u8) -> (c: char)
    requires
        value < 16,
    ensures
        c == upper_digit(value as int),
{
    if value < 10 {
        (0x30 + value) as char
    } else {
        (0x41 + (value - 10)) as char
    }
}

/// Append the `width` lowest digits of `value` in lower case.
pub fn append_lower_hex(text: &mut String, value: u64, width: u64)
    ensures
        final(text)@ == old(text)@ + lower_hex(value as int, width as nat),
    decreases width,
{
    if width > 0 {
        append_lower_hex(text, value / 16, width - 1);
        text.push(lower_digit_char((value % 16) as u8));
        proof {
            let head = lower_hex(value as int / 16, (width - 1) as nat);
            let digit = lower_digit(value as int % 16);
            assert((old(text)@ + head).push(digit) =~= old(text)@ + head.push(digit));
        }
    } else {
        assert(old(text)@ + lower_hex(value as int, 0) =~= old(text)@);
    }
}

/// Append the digits of `value` in lower case, with leading zeros up to `min_width` digits.
pub fn append_padded_lower_hex(text: &mut String, value: u64, min_width: u64)
    ensures
        final(text)@ == old(text)@ + lower_hex(
            value as int,
            if min_width > hex_width(value as int) { min_width as nat } else {
                hex_width(value as int)
            },
        ),
{
    let mut width: u64 = 1;
    let mut left: u64 = value;
    while left >= 16
        invariant
            hex_width(value as int) == width - 1 + hex_width(left as int),
            1 <= width,
            width + left <= 1 + value,
        decreases left,
    {
        left = left / 16;
        width = width + 1;
    }
    let width: u64 = if min_width > width {
        min_width
    } else {
        width
    };
    append_lower_hex(text, value, width);
}

/// The decimal digits of `value` without leading zeros, the highest one first.
pub open spec fn decimal(value: int) -> Seq<char>
    decreases value,
{
    if value < 10 {
        seq![lower_digit(value)]
    } else {
        decimal(value / 10).push(lower_digit(value % 10))
    }
}

/// Append the decimal digits of `value`.
pub fn append_decimal(text: &mut String, value: u64)
    ensures
        final(text)@ == old(text)@ + decimal(value as int),
    decreases value,
{
    if value < 10 {
        text.push(lower_digit_char(value as u8));
        assert(text@ =~= old(text)@ + decimal(value as int));
    } else {
        append_decimal(text, value / 10);
        text.push(lower_digit_char((value % 10) as u8));
        assert(text@ =~= old(text)@ + decimal(value as int));
    }
}

/// Append the two upper-case hexadecimal digits of a byte.
pub fn append_upper_hex_byte(text: &mut String, byte: u8)
    ensures
        final(text)@ == old(text)@ + upper_hex_byte(byte),
{
    text.push(upper_digit_char(byte / 16));
    text.push(upper_digit_char(byte % 16));
    assert(text@ =~= old(text)@ + upper_hex_byte(byte));
}

} // verus!
