//! Exact durations in seconds and their human-readable rendering.
//!
//! A duration is the rational number `num / den` of seconds.  The formatter
//! walks a fixed cascade of tiers (seconds, minutes, hours, days, months,
//! years, thousands/millions/billions/trillions of years) and renders the
//! first tier whose bound holds, flooring the magnitude and raising it to the
//! tier's minimum.  The unit word is always the plural form; only the first
//! tier uses the dedicated literal `1 second`.

use vstd::prelude::*;

use crate::decimal::decimal_digits;
use crate::decimal::u128_to_decimal;

verus! {

/// `v`, raised to `lo` if it falls below it.
pub open spec fn at_least(v: int, lo: int) -> int {
    if v < lo {
        lo
    } else {
        v
    }
}

/// The rendered text for a duration of `num / den` seconds (`num >= 0`,
/// `den >= 1`): the first tier of the cascade whose bound holds.
///
/// A tier's bound is stated in the unit of the previous tier (59 minutes,
/// 23 hours, 30 days, 11 months, 999 years, ...), and the non-integer unit
/// constants are carried exactly: one month is 30.41666666666666 days, that
/// is `2627999999999999424 / 10^12` seconds, and one year is 365.242374 days,
/// that is `315569411136 / 10^4` seconds.  Every comparison and floor below
/// is the exact rational one, scaled to integers.  The trillions magnitude is
/// capped at the largest 64-bit value.
pub open spec fn duration_text(num: int, den: int) -> Seq<char> {
    if num < 2 * den {
        "1 second"@
    } else if num < 60 * den {
        // whole seconds, at least 2
        decimal_digits(at_least(num / den, 2) as nat) + " seconds"@
    } else if num <= 3540 * den {
        // minutes = seconds / 60, shown while at most 59
        decimal_digits(at_least(num / (60 * den), 1) as nat) + " minutes"@
    } else if num <= 82800 * den {
        // hours = minutes / 60, shown while at most 23
        decimal_digits(at_least(num / (3600 * den), 1) as nat) + " hours"@
    } else if num <= 2592000 * den {
        // days = hours / 24, shown while at most 30
        decimal_digits(at_least(num / (86400 * den), 1) as nat) + " days"@
    } else if num * 1000000000000 <= 28907999999999993664 * den {
        // months = days / 30.41666666666666, shown while at most 11
        decimal_digits(at_least((num * 1000000000000) / (2627999999999999424 * den), 1) as nat)
            + " months"@
    } else if num * 10000 <= 315253841724864 * den {
        // years = days / 365.242374, shown while at most 999
        decimal_digits(at_least((num * 10000) / (315569411136 * den), 1) as nat) + " years"@
    } else if num * 10 <= 315253841724864 * den {
        // thousands of years, shown while at most 999
        decimal_digits(at_least((num * 10) / (315569411136 * den), 1) as nat) + " thousand years"@
    } else if num <= 31525384172486400 * den {
        // millions of years, shown while at most 999
        decimal_digits(at_least(num / (31556941113600 * den), 1) as nat) + " million years"@
    } else if num <= 31525384172486400000 * den {
        // billions of years, shown while at most 999
        decimal_digits(at_least(num / (31556941113600000 * den), 1) as nat) + " billion years"@
    } else {
        // trillions of years, the magnitude capped at the largest 64-bit value
        decimal_digits(
            vstd::math::min(
                at_least(num / (31556941113600000000 * den), 1),
                0xffffffffffffffff,
            ) as nat,
        ) + " trillion years"@
    }
}

/// A non-negative duration, held exactly as the rational `num / den` seconds.
pub struct Seconds {
    pub num: u128,
    pub den: u128,
}

impl Seconds {
    /// A representable duration: the denominator is positive and small enough
    /// that every scaled comparison of the formatter fits in 128 bits.
    pub open spec fn wf(&self) -> bool {
        1 <= self.den <= 10_000_000_000_000
    }

    pub fn new(num: u128, den: u128) -> (s: Seconds)
        requires
            1 <= den <= 10_000_000_000_000,
        ensures
            s.wf(),
            s.num == num,
            s.den == den,
    {
        Seconds { num, den }
    }

    /// Renders the duration as its tier string.
    pub fn format(&self) -> (r: String)
        requires
            self.wf(),
        ensures
            r@ == duration_text(self.num as int, self.den as int),
    {
        let num = self.num;
        let den = self.den;
        if num < 2 * den {
            String::from_str("1 second")
        } else if num < 60 * den {
            let q = num / den;
            let v = if q < 2 {
                2
            } else {
                q
            };
            let mut r = u128_to_decimal(v);
            r.append(" seconds");
            r
        } else if num <= 3540 * den {
            let q = num / (60 * den);
            let v = if q < 1 {
                1
            } else {
                q
            };
            let mut r = u128_to_decimal(v);
            r.append(" minutes");
            r
        } else if num <= 82800 * den {
            let q = num / (3600 * den);
            let v = if q < 1 {
                1
            } else {
                q
            };
            let mut r = u128_to_decimal(v);
            r.append(" hours");
            r
        } else if num <= 2592000 * den {
            let q = num / (86400 * den);
            let v = if q < 1 {
                1
            } else {
                q
            };
            let mut r = u128_to_decimal(v);
            r.append(" days");
            r
        } else if num < 28908000 * den && num * 1000000000000 <= 28907999999999993664 * den {
            let q = (num * 1000000000000) / (2627999999999999424 * den);
            let v = if q < 1 {
                1
            } else {
                q
            };
            let mut r = u128_to_decimal(v);
            r.append(" months");
            r
        } else if num < 31525384173 * den && num * 10000 <= 315253841724864 * den {
            let q = (num * 10000) / (315569411136 * den);
            let v = if q < 1 {
                1
            } else {
                q
            };
            let mut r = u128_to_decimal(v);
            r.append(" years");
            r
        } else if num < 31525384172487 * den && num * 10 <= 315253841724864 * den {
            let q = (num * 10) / (315569411136 * den);
            let v = if q < 1 {
                1
            } else {
                q
            };
            let mut r = u128_to_decimal(v);
            r.append(" thousand years");
            r
        } else if num <= 31525384172486400 * den {
            let q = num / (31556941113600 * den);
            let v = if q < 1 {
                1
            } else {
                q
            };
            let mut r = u128_to_decimal(v);
            r.append(" million years");
            r
        } else if num <= 31525384172486400000 * den {
            let q = num / (31556941113600000 * den);
            let v = if q < 1 {
                1
            } else {
                q
            };
            let mut r = u128_to_decimal(v);
            r.append(" billion years");
            r
        } else {
            let q = num / (31556941113600000000 * den);
            proof {
                assert(num as int / (31556941113600000000 * den as int) <= num as int
                    / 31556941113600000000) by {
                    vstd::arithmetic::div_mod::lemma_div_is_ordered_by_denominator(
                        num as int,
                        31556941113600000000,
                        31556941113600000000 * den as int,
                    );
                }
                assert(num as int / 31556941113600000000 <= u128::MAX as int
                    / 31556941113600000000) by {
                    vstd::arithmetic::div_mod::lemma_div_is_ordered(
                        num as int,
                        u128::MAX as int,
                        31556941113600000000,
                    );
                }
            }
            let v = if q < 1 {
                1
            } else {
                q
            };
            let mut r = u128_to_decimal(v);
            r.append(" trillion years");
            r
        }
    }
}

} // verus!
