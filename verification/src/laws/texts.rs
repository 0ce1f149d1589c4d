//! Texts can be read back.

use vstd::arithmetic::power::{lemma_pow0, lemma_pow1, lemma_pow_adds, pow};
use vstd::prelude::*;

use crate::digits::{
    decimal, hex_width, lemma_upper_hex_len, lower_digit, lower_hex, upper_digit, upper_hex,
    upper_hex_byte,
};

verus! {

/// The value of an upper-case digit.
pub open spec fn upper_value(c: char) -> Option<int> {
    let code = c as int;
    if 0x30 <= code <= 0x39 {
        Some(code - 0x30)
    } else if 0x41 <= code <= 0x46 {
        Some(code - 0x41 + 10)
    } else {
        None
    }
}

/// The value of a lower-case digit.
pub open spec fn lower_value(c: char) -> Option<int> {
    let code = c as int;
    if 0x30 <= code <= 0x39 {
        Some(code - 0x30)
    } else if 0x61 <= code <= 0x66 {
        Some(code - 0x61 + 10)
    } else {
        None
    }
}

/// The number with the given digits in the given base, if they are digits of this base.
pub open spec fn number(text: Seq<char>, base: int) -> Option<int>
    decreases text.len(),
{
    if text.len() == 0 {
        Some(0)
    } else {
        match (number(text.drop_last(), base), lower_value(text.last())) {
            (Some(high), Some(low)) => if low < base {
                Some(high * base + low)
            } else {
                None
            },
            _ => None,
        }
    }
}

/// Each byte can be read back from its two digits, the higher one first.
pub proof fn lemma_upper_hex_is_read_back(bytes: Seq<u8>, i: int)
    requires
        0 <= i < bytes.len(),
    ensures
        upper_hex(bytes).len() == 2 * bytes.len(),
        upper_value(upper_hex(bytes)[2 * i]) is Some,
        upper_value(upper_hex(bytes)[2 * i + 1]) is Some,
        upper_value(upper_hex(bytes)[2 * i])->Some_0 * 16 + upper_value(
            upper_hex(bytes)[2 * i + 1],
        )->Some_0 == bytes[i],
    decreases bytes.len(),
{
    lemma_upper_hex_len(bytes);
    let front = bytes.drop_last();
    lemma_upper_hex_len(front);
    if i < bytes.len() - 1 {
        lemma_upper_hex_is_read_back(front, i);
        assert(upper_hex(bytes)[2 * i] == upper_hex(front)[2 * i]);
        assert(upper_hex(bytes)[2 * i + 1] == upper_hex(front)[2 * i + 1]);
    } else {
        let last = upper_hex_byte(bytes[i]);
        assert(upper_hex(bytes)[2 * i] == last[0]);
        assert(upper_hex(bytes)[2 * i + 1] == last[1]);
    }
}

/// So can a single byte.
pub proof fn lemma_upper_hex_byte_is_read_back(byte: u8)
    ensures
        upper_hex_byte(byte).len() == 2,
        upper_value(upper_hex_byte(byte)[0]) is Some,
        upper_value(upper_hex_byte(byte)[1]) is Some,
        upper_value(upper_hex_byte(byte)[0])->Some_0 * 16 + upper_value(
            upper_hex_byte(byte)[1],
        )->Some_0 == byte,
{
}

/// A number can be read back from its hexadecimal digits, of which there are as many as asked for,
/// if these are enough for it.
pub proof fn lemma_lower_hex_is_read_back(value: int, width: nat)
    requires
        0 <= value < pow(16, width),
    ensures
        lower_hex(value, width).len() == width,
        number(lower_hex(value, width), 16) == Some(value),
    decreases width,
{
    if width == 0 {
        lemma_pow0(16);
    } else {
        let rest = (width - 1) as nat;
        lemma_pow_adds(16, 1, rest);
        lemma_pow1(16);
        assert(pow(16, width) == 16 * pow(16, rest));
        lemma_lower_hex_is_read_back(value / 16, rest);
        let text = lower_hex(value, width);
        assert(text.drop_last() =~= lower_hex(value / 16, rest));
        assert(text.last() == lower_digit(value % 16));
        assert(value / 16 * 16 + value % 16 == value);
    }
}

/// As many digits as the number has are enough for it, and no fewer are.
pub proof fn lemma_hex_width(value: int)
    requires
        0 <= value,
    ensures
        hex_width(value) >= 1,
        value < pow(16, hex_width(value)),
        hex_width(value) > 1 ==> value >= pow(16, (hex_width(value) - 1) as nat),
    decreases value,
{
    lemma_pow1(16);
    if value >= 16 {
        let width = hex_width(value / 16);
        lemma_hex_width(value / 16);
        lemma_pow_adds(16, 1, width);
        assert(pow(16, hex_width(value)) == 16 * pow(16, width));
        if width > 1 {
            lemma_pow_adds(16, 1, (width - 1) as nat);
        }
    }
}

/// A number can be read back from its decimal digits, which do not start with a zero unless there
/// is only this one.
pub proof fn lemma_decimal_is_read_back(value: int)
    requires
        0 <= value,
    ensures
        decimal(value).len() > 0,
        number(decimal(value), 10) == Some(value),
        decimal(value).len() > 1 ==> decimal(value)[0] != '0',
        decimal(value).len() == 1 ==> value < 10,
    decreases value,
{
    let text = decimal(value);
    if value < 10 {
        assert(text.drop_last() =~= Seq::<char>::empty());
        assert(number(text.drop_last(), 10) == Some(0int));
    } else {
        lemma_decimal_is_read_back(value / 10);
        assert(text.drop_last() =~= decimal(value / 10));
        assert(text.last() == lower_digit(value % 10));
        assert(value / 10 * 10 + value % 10 == value);
        if value / 10 < 10 {
            assert(text[0] == lower_digit(value / 10));
        } else {
            assert(text[0] == decimal(value / 10)[0]);
        }
    }
}

/// The digits of a value.
pub proof fn lemma_digits(value: int)
    requires
        0 <= value < 16,
    ensures
        upper_value(upper_digit(value)) == Some(value),
        lower_value(lower_digit(value)) == Some(value),
{
}

} // verus!
