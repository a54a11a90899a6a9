//! Brute-force crack-time estimation for a passphrase of dictionary words.
//!
//! The keyspace of an `n`-word passphrase over the 7776-word dictionary holds
//! `7776^n` phrases, and a uniform brute-force search is expected to try half
//! of it, `0.5 * 7776^n` guesses.  Two fixed adversary profiles divide that
//! guess count by their hash rate: `Budget` at `20.6e9` guesses per second
//! and `WellFunded` at one hundred times that.  Both estimates are therefore
//! the exact rationals `7776^n / 41200000000` and `7776^n / 4120000000000`
//! seconds, derived from the same guess count.

use vstd::arithmetic::div_mod::lemma_fundamental_div_mod;
use vstd::arithmetic::div_mod::lemma_fundamental_div_mod_converse;
use vstd::arithmetic::power::lemma_pow_increases;
use vstd::arithmetic::power::lemma_pow_positive;
use vstd::arithmetic::power::lemma_pow_strictly_increases;
use vstd::arithmetic::power::pow;
use vstd::prelude::*;

use crate::decimal::u128_to_decimal;
use crate::duration::at_least;
use crate::duration::duration_text;
use crate::duration::Seconds;

verus! {

/// Twice the Budget adversary's hash rate: dividing `7776^n` by it gives the
/// expected seconds to crack, `0.5 * 7776^n / 20.6e9`.
pub const BUDGET_RATE_DOUBLED: u128 = 41_200_000_000;

/// Twice the WellFunded adversary's hash rate, one hundred times the Budget
/// one.
pub const WELL_FUNDED_RATE_DOUBLED: u128 = 4_120_000_000_000;

/// The numerator of the expected crack time in seconds for an `n`-word
/// passphrase, over the denominator `BUDGET_RATE_DOUBLED` for the Budget
/// profile or `WELL_FUNDED_RATE_DOUBLED` for the WellFunded one.  Zero words
/// mean an empty keyspace and zero guesses, a boundary special case.
pub open spec fn crack_seconds_num(n: nat) -> int {
    if n == 0 {
        0
    } else {
        pow(7776, n)
    }
}

/// Law: the crack time strictly grows with the word count.  Both profile
/// estimates share their denominator across word counts, so the rational
/// seconds values compare exactly as their numerators do.
pub proof fn lemma_crack_time_strictly_monotonic(n1: nat, n2: nat)
    requires
        n1 < n2,
    ensures
        crack_seconds_num(n1) < crack_seconds_num(n2),
{
    if n1 == 0 {
        lemma_pow_positive(7776, n2);
    } else {
        lemma_pow_strictly_increases(7776, n1, n2);
    }
}

/// Law: the WellFunded estimate is exactly one hundredth of the Budget one,
/// for every word count, because both are derived from the same guess count:
/// as rationals, `num / (100 * BUDGET_RATE_DOUBLED)` and
/// `num / WELL_FUNDED_RATE_DOUBLED` are the same number.
pub proof fn lemma_well_funded_is_budget_over_100(n: nat)
    ensures
        crack_seconds_num(n) * (100 * BUDGET_RATE_DOUBLED as int) == crack_seconds_num(n)
            * WELL_FUNDED_RATE_DOUBLED as int,
{
}

/// The exact powers of 7776 around the 128-bit limit.
proof fn lemma_pow_7776_bounds()
    ensures
        pow(7776, 9) == 103945637534048876111514866313854976,
        pow(7776, 10) > 340282366920938463463374607431768211455,
{
    assert(pow(7776, 0) == 1) by {
        reveal_with_fuel(pow, 1);
    }
    assert(pow(7776, 1) == 7776) by {
        reveal_with_fuel(pow, 2);
    }
    assert(pow(7776, 2) == 60466176) by {
        reveal_with_fuel(pow, 3);
    }
    assert(pow(7776, 3) == 470184984576) by {
        reveal_with_fuel(pow, 4);
    }
    assert(pow(7776, 4) == 3656158440062976) by {
        reveal_with_fuel(pow, 5);
    }
    assert(pow(7776, 5) == 28430288029929701376) by {
        reveal_with_fuel(pow, 6);
    }
    assert(pow(7776, 6) == 221073919720733357899776) by {
        reveal_with_fuel(pow, 7);
    }
    assert(pow(7776, 7) == 1719070799748422591028658176) by {
        reveal_with_fuel(pow, 8);
    }
    assert(pow(7776, 8) == 13367494538843734067838845976576) by {
        reveal_with_fuel(pow, 9);
    }
    assert(pow(7776, 9) == 103945637534048876111514866313854976) by {
        reveal_with_fuel(pow, 10);
    }
    assert(pow(7776, 10) == 808281277464764060643139600456536293376) by {
        reveal_with_fuel(pow, 11);
    }
}

/// `7776^e` for a small exponent, exactly.
fn pow_7776(e: u8) -> (p: u128)
    requires
        e <= 9,
    ensures
        p as int == pow(7776, e as nat),
{
    proof {
        reveal(pow);
    }
    let mut p: u128 = 1;
    let mut i: u8 = 0;
    while i < e
        invariant
            i <= e <= 9,
            p as int == pow(7776, i as nat),
        decreases e - i,
    {
        proof {
            assert(pow(7776, (i + 1) as nat) == 7776 * pow(7776, i as nat)) by {
                reveal(pow);
            }
            lemma_pow_7776_bounds();
            lemma_pow_increases(7776, (i + 1) as nat, 9);
        }
        p = p * 7776;
        i = i + 1;
    }
    p
}

/// How many whole trillions of years `7776^word_count / den` seconds are,
/// capped at the largest 64-bit value: the quotient is carried one factor of
/// 7776 at a time, so the power itself never has to fit a machine word.
fn trillions_capped(word_count: u8, den: u128) -> (t: u128)
    requires
        10 <= word_count,
        1 <= den <= 10_000_000_000_000,
    ensures
        t as int == vstd::math::min(
            at_least(pow(7776, word_count as nat) / (31556941113600000000 * den as int), 1),
            0xffffffffffffffff,
        ),
{
    proof {
        reveal(pow);
    }
    let m = 31556941113600000000 * den;
    let mut q: u128 = 0;
    let mut r: u128 = 1;
    let ghost mut qt: int = 0;
    let mut i: u8 = 0;
    while i < word_count
        invariant
            i <= word_count,
            1 <= den <= 10_000_000_000_000,
            m == 31556941113600000000 * den,
            m >= 31556941113600000000,
            r < m,
            qt >= 0,
            pow(7776, i as nat) == qt * m + r,
            q as int == vstd::math::min(qt, 0xffffffffffffffff),
        decreases word_count as int - i as int,
    {
        let rr = r * 7776;
        let d = rr / m;
        let r2 = rr % m;
        let qq = q * 7776 + d;
        proof {
            assert(pow(7776, (i + 1) as nat) == 7776 * pow(7776, i as nat)) by {
                reveal(pow);
            }
            lemma_fundamental_div_mod(rr as int, m as int);
            assert(7776 * (qt * m + r) == (7776 * qt + d) * m + r2) by (nonlinear_arith)
                requires
                    rr == 7776 * r,
                    rr == m * d + r2,
            ;
            if qt > 0xffffffffffffffff {
                assert(7776 * qt >= qt) by (nonlinear_arith)
                    requires
                        qt >= 0,
                ;
            }
            qt = 7776 * qt + d;
        }
        q = if qq > 0xffffffffffffffff {
            0xffffffffffffffff
        } else {
            qq
        };
        r = r2;
        i = i + 1;
    }
    proof {
        lemma_fundamental_div_mod_converse(pow(7776, word_count as nat), m as int, qt, r as int);
        lemma_pow_7776_bounds();
        lemma_pow_increases(7776, 10, word_count as nat);
    }
    q
}

/// Past nine words the estimate always lands in the last tier: the seconds
/// value exceeds every earlier tier bound.
proof fn lemma_big_count_is_trillions(n: nat, den: int)
    requires
        n >= 10,
        1 <= den <= 10_000_000_000_000,
    ensures
        duration_text(crack_seconds_num(n), den) == crate::decimal::decimal_digits(
            vstd::math::min(
                at_least(pow(7776, n) / (31556941113600000000 * den), 1),
                0xffffffffffffffff,
            ) as nat,
        ) + " trillion years"@,
{
    lemma_pow_7776_bounds();
    lemma_pow_increases(7776, 10, n);
    let num = pow(7776, n);
    assert(num > 31525384172486400000 * den);
    assert(num * 10 > 315253841724864 * den);
    assert(num * 10000 > 315253841724864 * den);
    assert(num * 1000000000000 > 28907999999999993664 * den);
}

/// The expected crack times for a `word_count`-word passphrase, rendered as
/// duration strings for the Budget and the WellFunded adversary, in that
/// order.  Both are computed from the same guess count, `0.5 * 7776^n`; zero
/// words give zero seconds.
pub fn estimate_crack_times(word_count: u8) -> (r: (String, String))
    ensures
        r.0@ == duration_text(crack_seconds_num(word_count as nat), BUDGET_RATE_DOUBLED as int),
        r.1@ == duration_text(
            crack_seconds_num(word_count as nat),
            WELL_FUNDED_RATE_DOUBLED as int,
        ),
{
    if word_count <= 9 {
        let num = if word_count == 0 {
            0
        } else {
            pow_7776(word_count)
        };
        let budget = Seconds::new(num, BUDGET_RATE_DOUBLED).format();
        let well_funded = Seconds::new(num, WELL_FUNDED_RATE_DOUBLED).format();
        (budget, well_funded)
    } else {
        proof {
            lemma_big_count_is_trillions(word_count as nat, BUDGET_RATE_DOUBLED as int);
            lemma_big_count_is_trillions(word_count as nat, WELL_FUNDED_RATE_DOUBLED as int);
        }
        let mut budget = u128_to_decimal(trillions_capped(word_count, BUDGET_RATE_DOUBLED));
        budget.append(" trillion years");
        let mut well_funded = u128_to_decimal(
            trillions_capped(word_count, WELL_FUNDED_RATE_DOUBLED),
        );
        well_funded.append(" trillion years");
        (budget, well_funded)
    }
}

} // verus!
