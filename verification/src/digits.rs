//! Decimal numerals in ASCII: writing an unsigned number and reading one.

use vstd::prelude::*;

verus! {

/// Whether `b` is one of the ASCII digits `0` to `9`.
pub open spec fn spec_is_digit(b: u8) -> bool {
    48 <= b <= 57
}

/// The decimal numeral of `n`, most significant digit first, without
/// leading zeros.
pub open spec fn spec_decimal(n: nat) -> Seq<u8>
    decreases n,
{
    if n < 10 {
        seq![(48 + n) as u8]
    } else {
        spec_decimal(n / 10).push((48 + n % 10) as u8)
    }
}

/// The decimal numeral of `n` as characters.
pub open spec fn spec_decimal_chars(n: nat) -> Seq<char>
    decreases n,
{
    if n < 10 {
        seq![spec_digit_char(n)]
    } else {
        spec_decimal_chars(n / 10).push(spec_digit_char(n % 10))
    }
}

/// The character of the digit `d`.
pub open spec fn spec_digit_char(d: nat) -> char {
    if d == 0 {
        '0'
    } else if d == 1 {
        '1'
    } else if d == 2 {
        '2'
    } else if d == 3 {
        '3'
    } else if d == 4 {
        '4'
    } else if d == 5 {
        '5'
    } else if d == 6 {
        '6'
    } else if d == 7 {
        '7'
    } else if d == 8 {
        '8'
    } else {
        '9'
    }
}

/// The number that a sequence of digits denotes.
pub open spec fn spec_digits_value(digits: Seq<u8>) -> nat
    decreases digits.len(),
{
    if digits.len() == 0 {
        0
    } else {
        spec_digits_value(digits.drop_last()) * 10 + (digits.last() - 48) as nat
    }
}

/// Whether every byte is a digit.
pub open spec fn spec_all_digits(bytes: Seq<u8>) -> bool {
    forall|i: int| 0 <= i < bytes.len() ==> spec_is_digit(#[trigger] bytes[i])
}

/// Reading an unsigned 32-bit number: an optional `+`, then one or more
/// digits and nothing else, denoting a value that fits.
pub open spec fn spec_parse_u32(bytes: Seq<u8>) -> Option<u32> {
    let digits = if bytes.len() > 0 && bytes[0] == 43 {
        bytes.subrange(1, bytes.len() as int)
    } else {
        bytes
    };
    if digits.len() > 0 && spec_all_digits(digits) && spec_digits_value(digits) <= u32::MAX {
        Some(spec_digits_value(digits) as u32)
    } else {
        None
    }
}

/// A numeral is never empty and consists of digits.
pub proof fn lemma_decimal_digits(n: nat)
    ensures
        spec_decimal(n).len() >= 1,
        spec_all_digits(spec_decimal(n)),
    decreases n,
{
    if n >= 10 {
        lemma_decimal_digits(n / 10);
    }
}

/// Reading a numeral gives back the number that was written.
pub proof fn lemma_decimal_value(n: nat)
    ensures
        spec_digits_value(spec_decimal(n)) == n,
    decreases n,
{
    if n < 10 {
        let d = spec_decimal(n);
        assert(d.drop_last().len() == 0);
        assert(spec_digits_value(d.drop_last()) == 0);
    } else {
        lemma_decimal_value(n / 10);
        let d = spec_decimal(n);
        assert(d.drop_last() =~= spec_decimal(n / 10));
    }
}

/// Writing a 32-bit number and reading it again gives the same number.
pub proof fn lemma_parse_decimal(n: u32)
    ensures
        spec_parse_u32(spec_decimal(n as nat)) == Some(n),
{
    lemma_decimal_digits(n as nat);
    lemma_decimal_value(n as nat);
}

/// A longer numeral with the same leading digits denotes no smaller number.
proof fn lemma_digits_value_grows(digits: Seq<u8>, k: int)
    requires
        0 <= k <= digits.len(),
        spec_all_digits(digits),
    ensures
        spec_digits_value(digits.subrange(0, k)) <= spec_digits_value(digits),
    decreases digits.len(),
{
    if k < digits.len() {
        let shorter = digits.drop_last();
        lemma_digits_value_grows(shorter, k);
        assert(shorter.subrange(0, k) =~= digits.subrange(0, k));
        assert(spec_is_digit(digits[digits.len() - 1]));
    } else {
        assert(digits.subrange(0, k) =~= digits);
    }
}

/// Append the decimal numeral of `n` to `out`.
pub fn push_decimal(out: &mut Vec<u8>, n: u64)
    ensures
        final(out)@ == old(out)@ + spec_decimal(n as nat),
    decreases n,
{
    if n >= 10 {
        push_decimal(out, n / 10);
    }
    let digit: u8 = (48 + n % 10) as u8;
    out.push(digit);
    assert(out@ =~= old(out)@ + spec_decimal(n as nat));
}

/// The one-character string of the digit `d`.
pub fn digit_str(d: u64) -> (s: &'static str)
    requires
        d < 10,
    ensures
        s@ == seq![spec_digit_char(d as nat)],
{
    proof {
        reveal_strlit("0");
        reveal_strlit("1");
        reveal_strlit("2");
        reveal_strlit("3");
        reveal_strlit("4");
        reveal_strlit("5");
        reveal_strlit("6");
        reveal_strlit("7");
        reveal_strlit("8");
        reveal_strlit("9");
    }
    let s: &'static str = if d == 0 {
        "0"
    } else if d == 1 {
        "1"
    } else if d == 2 {
        "2"
    } else if d == 3 {
        "3"
    } else if d == 4 {
        "4"
    } else if d == 5 {
        "5"
    } else if d == 6 {
        "6"
    } else if d == 7 {
        "7"
    } else if d == 8 {
        "8"
    } else {
        "9"
    };
    assert(s@ =~= seq![spec_digit_char(d as nat)]);
    s
}

/// Append the decimal numeral of `n` to the string `out`.
pub fn append_decimal(out: &mut String, n: u64)
    ensures
        final(out)@ == old(out)@ + spec_decimal_chars(n as nat),
    decreases n,
{
    if n >= 10 {
        append_decimal(out, n / 10);
    }
    out.append(digit_str(n % 10));
    assert(out@ =~= old(out)@ + spec_decimal_chars(n as nat));
}

/// Read an unsigned 32-bit number from `bytes[from..to]`.
pub fn parse_u32(bytes: &[u8], from: usize, to: usize) -> (value: Option<u32>)
    requires
        from <= to <= bytes@.len(),
    ensures
        value == spec_parse_u32(bytes@.subrange(from as int, to as int)),
{
    let ghost input = bytes@.subrange(from as int, to as int);
    let start: usize = if from < to && bytes[from] == 43 {
        from + 1
    } else {
        from
    };
    let ghost digits = bytes@.subrange(start as int, to as int);
    assert(digits =~= if input.len() > 0 && input[0] == 43 {
        input.subrange(1, input.len() as int)
    } else {
        input
    });
    let ghost expected = spec_parse_u32(input);
    assert(expected == if digits.len() > 0 && spec_all_digits(digits) && spec_digits_value(digits)
        <= u32::MAX {
        Some(spec_digits_value(digits) as u32)
    } else {
        None
    });
    if start == to {
        return None;
    }
    let mut value: u64 = 0;
    let mut i: usize = start;
    while i < to
        invariant
            start <= i <= to <= bytes@.len(),
            digits == bytes@.subrange(start as int, to as int),
            input == bytes@.subrange(from as int, to as int),
            spec_parse_u32(input) == if digits.len() > 0 && spec_all_digits(digits)
                && spec_digits_value(digits) <= u32::MAX {
                Some(spec_digits_value(digits) as u32)
            } else {
                None
            },
            spec_all_digits(digits.subrange(0, i - start)),
            value == spec_digits_value(digits.subrange(0, i - start)),
            value <= u32::MAX,
        decreases to - i,
    {
        let b: u8 = bytes[i];
        if b < 48 || b > 57 {
            assert(!spec_is_digit(digits[i - start]));
            return None;
        }
        let ghost next = digits.subrange(0, i - start + 1);
        assert(next.drop_last() =~= digits.subrange(0, i - start));
        assert(next.last() == b);
        assert(spec_all_digits(next)) by {
            assert forall|j: int| 0 <= j < next.len() implies spec_is_digit(#[trigger] next[j]) by {
                if j < next.len() - 1 {
                    assert(next[j] == digits.subrange(0, i - start)[j]);
                }
            }
        }
        value = value * 10 + ((b - 48) as u64);
        if value > u32::MAX as u64 {
            proof {
                let rest = digits;
                if spec_all_digits(rest) {
                    lemma_digits_value_grows(rest, i - start + 1);
                }
            }
            return None;
        }
        i = i + 1;
    }
    assert(digits.subrange(0, to - start) =~= digits);
    Some(value as u32)
}

} // verus!
