//! Fixed-point numbers with three decimal places.
//!
//! Every fractional quantity of a scene script (durations, start times,
//! scale factors, volumes) is carried as a whole number of thousandths, so
//! that all arithmetic on it is exact.

use vstd::prelude::*;
use crate::digits::{append_decimal, digit_str, spec_decimal_chars, spec_digit_char};

verus! {

/// A signed fixed-point number: `millis` thousandths.
#[derive(Clone, Copy, Debug, PartialEq, Eq, PartialOrd, Ord, Structural)]
pub struct Decimal {
    pub millis: i64,
}

/// `floor(millis / 1000 * n)` for a non-negative quantity, and 0 for a
/// negative one.
pub open spec fn spec_scaled_floor(millis: int, n: int) -> int {
    if millis <= 0 || n <= 0 {
        0
    } else {
        (millis * n) / 1000
    }
}

/// The value `x`, cut off at zero and at the largest `u32`.
pub open spec fn spec_clamp_u32(x: int) -> int {
    if x < 0 {
        0
    } else if x > u32::MAX as int {
        u32::MAX as int
    } else {
        x
    }
}

/// Ten to the power `k`.
pub open spec fn spec_pow10(k: nat) -> int
    decreases k,
{
    if k == 0 {
        1
    } else {
        10 * spec_pow10((k - 1) as nat)
    }
}

/// `n / unit` rounded to the nearest whole number, a tie going to the even
/// neighbour.
pub open spec fn spec_round_div(n: int, unit: int) -> int {
    let q = n / unit;
    let r = n % unit;
    if 2 * r < unit || (2 * r == unit && q % 2 == 0) {
        q
    } else {
        q + 1
    }
}

/// The last `places` decimal digits of `n`, with leading zeros.
pub open spec fn spec_padded_chars(n: nat, places: nat) -> Seq<char>
    decreases places,
{
    if places == 0 {
        Seq::empty()
    } else {
        spec_padded_chars(n / 10, (places - 1) as nat).push(spec_digit_char(n % 10))
    }
}

/// The number `millis / 1000` written with `places` digits behind the
/// point, rounded to the nearest such number, a tie going to the even
/// neighbour. A negative number has a minus sign, also where it rounds to
/// zero; with no places there is no point.
pub open spec fn spec_fixed_chars(millis: int, places: nat) -> Seq<char> {
    let magnitude = if millis < 0 {
        -millis
    } else {
        millis
    };
    let rounded = spec_round_div(magnitude, spec_pow10((3 - places) as nat));
    let scale = spec_pow10(places);
    let sign = if millis < 0 {
        seq!['-']
    } else {
        Seq::<char>::empty()
    };
    let whole = spec_decimal_chars((rounded / scale) as nat);
    if places == 0 {
        sign + whole
    } else {
        sign + whole + seq!['.'] + spec_padded_chars((rounded % scale) as nat, places)
    }
}

/// `percent` hundredths of `millis`, rounded towards zero.
pub open spec fn spec_percent(millis: int, percent: int) -> int {
    if millis >= 0 {
        (millis * percent) / 100
    } else {
        -(((-millis) * percent) / 100)
    }
}

/// The value `x`, cut off at the smallest and the largest `i64`.
pub open spec fn spec_clamp_i64(x: int) -> int {
    if x < i64::MIN as int {
        i64::MIN as int
    } else if x > i64::MAX as int {
        i64::MAX as int
    } else {
        x
    }
}

/// The number `millis / 1000` written as briefly as it can be written
/// exactly: without trailing zeros behind the point, and without a point
/// where there is nothing behind it.
pub open spec fn spec_shortest_chars(millis: int) -> Seq<char> {
    let magnitude = if millis < 0 {
        -millis
    } else {
        millis
    };
    let sign = if millis < 0 {
        seq!['-']
    } else {
        Seq::<char>::empty()
    };
    let whole = spec_decimal_chars((magnitude / 1000) as nat);
    let fraction = (magnitude % 1000) as nat;
    if fraction == 0 {
        sign + whole
    } else if fraction % 100 == 0 {
        sign + whole + seq!['.'] + spec_padded_chars(fraction / 100, 1)
    } else if fraction % 10 == 0 {
        sign + whole + seq!['.'] + spec_padded_chars(fraction / 10, 2)
    } else {
        sign + whole + seq!['.'] + spec_padded_chars(fraction, 3)
    }
}

impl Decimal {
    /// The number `millis / 1000`.
    pub fn from_millis(millis: i64) -> (d: Decimal)
        ensures
            d.millis == millis,
    {
        Decimal { millis }
    }

    /// The whole number `units`.
    pub fn from_units(units: i32) -> (d: Decimal)
        ensures
            d.millis == units * 1000,
    {
        Decimal { millis: (units as i64) * 1000 }
    }

    /// `percent` hundredths of this number, rounded towards zero to a whole
    /// number of thousandths.
    pub fn percent(&self, percent: u8) -> (part: Decimal)
        requires
            percent <= 100,
        ensures
            part.millis == spec_percent(self.millis as int, percent as int),
    {
        let negative: bool = self.millis < 0;
        let magnitude: u128 = if negative {
            (-(self.millis as i128)) as u128
        } else {
            self.millis as u128
        };
        assert(0 <= magnitude * percent <= magnitude * 100) by (nonlinear_arith)
            requires
                0 <= magnitude,
                0 <= percent <= 100,
        ;
        let scaled: u128 = (magnitude * (percent as u128)) / 100;
        if negative {
            Decimal { millis: (-(scaled as i128)) as i64 }
        } else {
            Decimal { millis: scaled as i64 }
        }
    }

    /// The larger of this number and `other`.
    pub fn max(self, other: Decimal) -> (larger: Decimal)
        ensures
            larger.millis == if self.millis >= other.millis {
                self.millis
            } else {
                other.millis
            },
    {
        if self.millis >= other.millis {
            self
        } else {
            other
        }
    }

    /// The sum of this number and `other`, cut off at the ends of the range.
    pub fn saturating_add(&self, other: Decimal) -> (sum: Decimal)
        ensures
            sum.millis == spec_clamp_i64(self.millis + other.millis),
    {
        let wide: i128 = (self.millis as i128) + (other.millis as i128);
        if wide < i64::MIN as i128 {
            Decimal { millis: i64::MIN }
        } else if wide > i64::MAX as i128 {
            Decimal { millis: i64::MAX }
        } else {
            Decimal { millis: wide as i64 }
        }
    }

    /// This number less `other`, cut off at the ends of the range.
    pub fn saturating_sub(&self, other: Decimal) -> (difference: Decimal)
        ensures
            difference.millis == spec_clamp_i64(self.millis - other.millis),
    {
        let wide: i128 = (self.millis as i128) - (other.millis as i128);
        if wide < i64::MIN as i128 {
            Decimal { millis: i64::MIN }
        } else if wide > i64::MAX as i128 {
            Decimal { millis: i64::MAX }
        } else {
            Decimal { millis: wide as i64 }
        }
    }

    /// Append the number to `out`, written as briefly as it can be written
    /// exactly.
    pub fn append_shortest(&self, out: &mut String)
        ensures
            final(out)@ == old(out)@ + spec_shortest_chars(self.millis as int),
    {
        let negative: bool = self.millis < 0;
        let magnitude: u64 = if negative {
            ((-(self.millis as i128)) as u64)
        } else {
            self.millis as u64
        };
        if negative {
            proof {
                reveal_strlit("-");
            }
            out.append("-");
        }
        let ghost signed = out@;
        assert(signed =~= old(out)@ + if self.millis < 0 {
            seq!['-']
        } else {
            Seq::<char>::empty()
        });
        append_decimal(out, magnitude / 1000);
        let fraction: u64 = magnitude % 1000;
        if fraction != 0 {
            proof {
                reveal_strlit(".");
            }
            out.append(".");
            if fraction % 100 == 0 {
                append_padded(out, fraction / 100, 1);
            } else if fraction % 10 == 0 {
                append_padded(out, fraction / 10, 2);
            } else {
                append_padded(out, fraction, 3);
            }
        }
        assert(out@ =~= old(out)@ + spec_shortest_chars(self.millis as int));
    }

    /// Append the number to `out` with `places` digits behind the point.
    pub fn append_fixed(&self, out: &mut String, places: u8)
        requires
            places <= 3,
        ensures
            final(out)@ == old(out)@ + spec_fixed_chars(self.millis as int, places as nat),
    {
        let negative: bool = self.millis < 0;
        let magnitude: u64 = if negative {
            ((-(self.millis as i128)) as u64)
        } else {
            self.millis as u64
        };
        let unit: u64 = pow10(3 - places);
        let scale: u64 = pow10(places);
        let rounded: u64 = round_div(magnitude, unit);
        if negative {
            proof {
                reveal_strlit("-");
            }
            out.append("-");
        }
        let ghost signed = out@;
        assert(signed =~= old(out)@ + if self.millis < 0 {
            seq!['-']
        } else {
            Seq::<char>::empty()
        });
        append_decimal(out, rounded / scale);
        if places >= 1 {
            proof {
                reveal_strlit(".");
            }
            out.append(".");
            append_padded(out, rounded % scale, places);
        }
        assert(out@ =~= old(out)@ + spec_fixed_chars(self.millis as int, places as nat));
    }

    /// The product of this number and `n`, rounded towards zero, negative
    /// values counted as zero and large ones cut off at `u32::MAX`.
    pub fn scale_u32(&self, n: u32) -> (r: u32)
        ensures
            r == spec_clamp_u32(spec_scaled_floor(self.millis as int, n as int)),
    {
        if self.millis <= 0 || n == 0 {
            return 0;
        }
        assert(0 < self.millis * n <= i64::MAX * u32::MAX) by (nonlinear_arith)
            requires
                0 < self.millis <= i64::MAX,
                0 < n <= u32::MAX,
        ;
        let wide: i128 = (self.millis as i128) * (n as i128);
        let q: i128 = wide / 1000;
        if q > u32::MAX as i128 {
            u32::MAX
        } else {
            q as u32
        }
    }
}

/// Ten to the power `k`.
fn pow10(k: u8) -> (p: u64)
    requires
        k <= 3,
    ensures
        p == spec_pow10(k as nat),
        1 <= p <= 1000,
{
    proof {
        reveal_with_fuel(spec_pow10, 5);
    }
    if k == 0 {
        1
    } else if k == 1 {
        10
    } else if k == 2 {
        100
    } else {
        1000
    }
}

/// `n / unit`, rounded to the nearest whole number, ties to even.
fn round_div(n: u64, unit: u64) -> (rounded: u64)
    requires
        1 <= unit <= 1000,
        n <= 0x8000_0000_0000_0000,
    ensures
        rounded == spec_round_div(n as int, unit as int),
{
    let q: u64 = n / unit;
    let r: u64 = n % unit;
    if 2 * r < unit || (2 * r == unit && q % 2 == 0) {
        q
    } else {
        q + 1
    }
}

/// Append the last `places` decimal digits of `n`, with leading zeros.
fn append_padded(out: &mut String, n: u64, places: u8)
    ensures
        final(out)@ == old(out)@ + spec_padded_chars(n as nat, places as nat),
    decreases places,
{
    if places > 0 {
        append_padded(out, n / 10, places - 1);
        out.append(digit_str(n % 10));
    }
    assert(out@ =~= old(out)@ + spec_padded_chars(n as nat, places as nat));
}

/// A scaled quantity is never negative.
pub proof fn lemma_scaled_floor_nonnegative(millis: int, n: int)
    ensures
        spec_scaled_floor(millis, n) >= 0,
{
    if millis > 0 && n > 0 {
        assert(millis * n >= 0) by (nonlinear_arith)
            requires
                millis > 0,
                n > 0,
        ;
    }
}

} // verus!
