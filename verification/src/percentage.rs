//! Charge level, in percent.
//!
//! The power service reports a level as an IEEE 754 binary64 number. This
//! module never computes with such a number: it takes the number's bit pattern
//! and works on it with integer arithmetic, and it states what it computes over
//! the exact value that the pattern stands for.
//!
//! A pattern has a sign bit, an exponent field of 11 bits and a fraction field
//! of 52 bits. Without its sign it stands for `fraction * 2^-1074` where the
//! exponent field is zero, and for `(2^52 + fraction) * 2^(exponent - 1075)`
//! elsewhere. Every such value is a whole number of *steps* of `2^-1074`, and
//! the contracts count steps.

use vstd::arithmetic::div_mod::*;
use vstd::arithmetic::mul::*;
use vstd::arithmetic::power2::*;
use vstd::prelude::*;

verus! {

/// Number of values that the fraction field takes: 2^52.
pub const FRACTIONS: u64 = 0x10_0000_0000_0000;

/// The sign bit. Patterns below it stand for values that are not negative.
pub const SIGN: u64 = 0x8000_0000_0000_0000;

/// The exponent field of infinities and of patterns that stand for no number.
pub const EXPONENT_SPECIAL: u64 = 2047;

/// The pattern of one hundred.
pub const FULL: u64 = 0x4059_0000_0000_0000;

/// A pattern without its sign bit.
pub open spec fn magnitude(bits: u64) -> u64 {
    bits % SIGN
}

/// The exponent field of a pattern without sign.
pub open spec fn exponent(magnitude: u64) -> nat {
    (magnitude / FRACTIONS) as nat
}

/// The fraction field of a pattern.
pub open spec fn fraction(magnitude: u64) -> nat {
    (magnitude % FRACTIONS) as nat
}

/// The value of a pattern without sign, counted in steps of 2^-1074.
pub open spec fn steps(magnitude: u64) -> nat {
    if exponent(magnitude) == 0 {
        fraction(magnitude)
    } else {
        ((FRACTIONS + fraction(magnitude)) * pow2((exponent(magnitude) - 1) as nat)) as nat
    }
}

/// The number of steps in one percent: 2^1074.
pub open spec fn one_percent() -> nat {
    pow2(1074)
}

/// Whether `bits` is the pattern of a number from zero to one hundred. That
/// leaves out what is no number, the infinities, and every negative value; it
/// keeps negative zero, which is zero.
pub open spec fn is_level(bits: u64) -> bool {
    &&& exponent(magnitude(bits)) < EXPONENT_SPECIAL
    &&& bits >= SIGN ==> steps(magnitude(bits)) == 0
    &&& steps(magnitude(bits)) <= 100 * one_percent()
}

/// A larger pattern without sign stands for a larger value.
pub proof fn lemma_steps_increase(low: u64, high: u64)
    requires
        low < high,
    ensures
        steps(low) < steps(high),
{
    let span = FRACTIONS as int;
    let low_exponent = exponent(low);
    let high_exponent = exponent(high);
    let low_fraction = fraction(low) as int;
    let high_fraction = fraction(high) as int;
    assert(low == low_exponent * span + low_fraction);
    assert(high == high_exponent * span + high_fraction);
    assert(low_exponent <= high_exponent);
    if low_exponent == high_exponent {
        assert(low_fraction < high_fraction);
        if low_exponent > 0 {
            let weight = pow2((low_exponent - 1) as nat) as int;
            lemma_pow2_pos((low_exponent - 1) as nat);
            lemma_mul_strict_inequality(span + low_fraction, span + high_fraction, weight);
        }
    } else {
        // Everything with the exponent of `low` lies under `span * 2^low_exponent`,
        // and nothing with a larger exponent does.
        let bound = span * pow2(low_exponent);
        assert(steps(low) < bound) by {
            if low_exponent == 0 {
                lemma2_to64();
            } else {
                let weight = pow2((low_exponent - 1) as nat) as int;
                lemma_pow2_pos((low_exponent - 1) as nat);
                lemma_pow2_unfold(low_exponent);
                lemma_mul_strict_inequality(span + low_fraction, 2 * span, weight);
                assert((2 * span) * weight == span * (2 * weight)) by (nonlinear_arith);
            }
        }
        let high_weight = pow2((high_exponent - 1) as nat) as int;
        assert(pow2(low_exponent) <= high_weight) by {
            if low_exponent < high_exponent - 1 {
                lemma_pow2_strictly_increases(low_exponent, (high_exponent - 1) as nat);
            }
        }
        assert(bound <= steps(high)) by {
            lemma_mul_inequality(pow2(low_exponent) as int, high_weight, span);
            lemma_mul_inequality(span, span + high_fraction, high_weight);
            assert(pow2(low_exponent) * span == span * pow2(low_exponent)) by (nonlinear_arith);
            assert(high_weight * span == span * high_weight) by (nonlinear_arith);
        }
    }
}

/// The pattern `(1023 + k) * 2^52 + (n - 2^k) * 2^(52 - k)`, where `2^k` is the
/// largest power of two that is not above `n`, stands for the whole number `n`.
pub proof fn lemma_whole_steps(n: nat, k: nat, bits: u64)
    requires
        k <= 52,
        pow2(k) <= n < 2 * pow2(k),
        bits == (1023 + k) * FRACTIONS + (n - pow2(k)) * pow2((52 - k) as nat),
    ensures
        exponent(bits) == 1023 + k,
        steps(bits) == n * one_percent(),
{
    let top = pow2(k) as int;
    let scale = pow2((52 - k) as nat) as int;
    let rest = (n - top) * scale;
    let span = FRACTIONS as int;
    lemma2_to64_rest();
    lemma_pow2_adds(k, (52 - k) as nat);
    lemma_pow2_pos((52 - k) as nat);
    assert(top * scale == span);
    assert(0 <= rest < span) by {
        lemma_mul_strict_inequality(n - top, top, scale);
        lemma_mul_nonnegative(n - top, scale);
    }
    lemma_fundamental_div_mod_converse(bits as int, span, (1023 + k) as int, rest);
    assert(span + rest == n * scale) by (nonlinear_arith)
        requires
            rest == (n - top) * scale,
            top * scale == span,
    ;
    let weight = pow2((1022 + k) as nat) as int;
    lemma_pow2_adds((52 - k) as nat, (1022 + k) as nat);
    assert(scale * weight == one_percent());
    lemma_mul_is_associative(n as int, scale, weight);
}

/// One hundred is `FULL`.
pub proof fn lemma_full_steps()
    ensures
        steps(FULL) == 100 * one_percent(),
{
    lemma2_to64();
    lemma2_to64_rest();
    lemma_whole_steps(100, 6, FULL);
}

/// Only the pattern zero stands for zero.
pub proof fn lemma_steps_zero(magnitude: u64)
    ensures
        steps(magnitude) == 0 <==> magnitude == 0,
{
    if magnitude > 0 {
        lemma_steps_increase(0, magnitude);
    }
}

/// The patterns of the numbers from zero to one hundred are those up to
/// `FULL`, and negative zero.
pub proof fn lemma_levels(bits: u64)
    ensures
        is_level(bits) <==> bits <= FULL || bits == SIGN,
{
    lemma_full_steps();
    lemma_steps_zero(magnitude(bits));
    if bits < SIGN {
        if bits < FULL {
            lemma_steps_increase(bits, FULL);
        }
        if bits > FULL {
            lemma_steps_increase(FULL, bits);
        }
    }
}

/// The whole number of `unit`s that is nearest to `amount`; where two are
/// equally near, the even one.
pub open spec fn nearest(amount: nat, unit: nat) -> nat
    recommends
        unit > 0,
{
    let whole = amount / unit;
    let rest = amount % unit;
    if 2 * rest < unit || (2 * rest == unit && whole % 2 == 0) {
        whole
    } else {
        whole + 1
    }
}

/// Rounding does not depend on the scale in which amount and unit are given.
pub proof fn lemma_nearest_scaled(amount: nat, unit: nat, scale: nat)
    requires
        unit > 0,
        scale > 0,
    ensures
        nearest(amount * scale, unit * scale) == nearest(amount, unit),
{
    let whole = (amount / unit) as int;
    let rest = (amount % unit) as int;
    let scaled_rest = scale * rest;
    lemma_fundamental_div_mod(amount as int, unit as int);
    lemma_mod_bound(amount as int, unit as int);
    assert(0 <= scaled_rest < unit * scale && amount * scale == whole * (unit * scale)
        + scaled_rest) by (nonlinear_arith)
        requires
            amount == unit * whole + rest,
            0 <= rest < unit,
            scale > 0,
            scaled_rest == scale * rest,
    ;
    lemma_fundamental_div_mod_converse(
        (amount * scale) as int,
        (unit * scale) as int,
        whole,
        scaled_rest,
    );
    assert(2 * scaled_rest < unit * scale <==> 2 * rest < unit) by (nonlinear_arith)
        requires
            scale > 0,
            scaled_rest == scale * rest,
    ;
    assert(2 * scaled_rest == unit * scale <==> 2 * rest == unit) by (nonlinear_arith)
        requires
            scale > 0,
            scaled_rest == scale * rest,
    ;
}

/// An amount of at most `limit` units rounds to at most `limit`.
pub proof fn lemma_nearest_bounded(amount: nat, unit: nat, limit: nat)
    requires
        unit > 0,
        amount <= limit * unit,
    ensures
        nearest(amount, unit) <= limit,
{
    let whole = (amount / unit) as int;
    let rest = (amount % unit) as int;
    lemma_fundamental_div_mod(amount as int, unit as int);
    lemma_mod_bound(amount as int, unit as int);
    assert(whole < limit || (whole == limit && rest == 0)) by (nonlinear_arith)
        requires
            amount == unit * whole + rest,
            0 <= rest < unit,
            amount <= limit * unit,
    ;
}

/// A pattern up to `FULL` stands for at most one hundred.
pub proof fn lemma_steps_bounded(bits: u64)
    requires
        bits <= FULL,
    ensures
        steps(bits) <= 100 * one_percent(),
{
    lemma_full_steps();
    if bits < FULL {
        lemma_steps_increase(bits, FULL);
    }
}

/// A charge level from 0 to 100 percent.
#[derive(Debug, Clone, Copy, PartialEq, Eq, Structural)]
pub struct Percentage {
    bits: u64,
}

impl View for Percentage {
    type V = nat;

    /// The level in steps: `one_percent()` of them make one percent.
    closed spec fn view(&self) -> nat {
        steps(self.bits)
    }
}

impl Percentage {
    /// Holds of every level that the constructors give out.
    #[verifier::type_invariant]
    pub closed spec fn valid(self) -> bool {
        self.bits <= FULL
    }

    /// Two levels of one value are one level.
    pub proof fn lemma_value_tells_apart(self, other: Percentage)
        requires
            self.valid(),
            other.valid(),
            self@ == other@,
        ensures
            self == other,
    {
        if self.bits < other.bits {
            lemma_steps_increase(self.bits, other.bits);
        }
        if other.bits < self.bits {
            lemma_steps_increase(other.bits, self.bits);
        }
    }

    /// No level is above one hundred percent.
    pub proof fn lemma_at_most_full(self)
        requires
            self.valid(),
        ensures
            self@ <= 100 * one_percent(),
    {
        lemma_steps_bounded(self.bits);
    }

    /// The level whose binary64 pattern is `bits`, if `bits` is the pattern
    /// of a number from zero to one hundred.
    pub fn from_bits(bits: u64) -> (level: Option<Percentage>)
        ensures
            level is Some <==> is_level(bits),
            level matches Some(p) ==> p.valid() && p@ == steps(magnitude(bits)),
    {
        proof {
            lemma_levels(bits);
        }
        if bits == SIGN {
            Some(Percentage { bits: 0 })
        } else if bits <= FULL {
            Some(Percentage { bits })
        } else {
            None
        }
    }

    /// The binary64 pattern of the level: the one without sign.
    pub fn to_bits(&self) -> (bits: u64)
        ensures
            bits < SIGN,
            is_level(bits),
            steps(bits) == self@,
    {
        proof {
            use_type_invariant(self);
            lemma_levels(self.bits);
        }
        self.bits
    }

    /// Whether this level is lower than `other`.
    pub fn is_below(&self, other: &Percentage) -> (below: bool)
        ensures
            below == (self@ < other@),
    {
        proof {
            if self.bits < other.bits {
                lemma_steps_increase(self.bits, other.bits);
            }
            if other.bits < self.bits {
                lemma_steps_increase(other.bits, self.bits);
            }
        }
        self.bits < other.bits
    }

    /// The level of `n` percent, for `n` up to one hundred.
    pub fn whole(n: u8) -> (level: Option<Percentage>)
        ensures
            level is Some <==> n <= 100,
            level matches Some(p) ==> p.valid() && p@ == n * one_percent(),
    {
        if n > 100 {
            return None;
        }
        if n == 0 {
            return Some(Percentage { bits: 0 });
        }
        // `top` becomes the largest power of two that is not above `n`.
        let mut k: u64 = 0;
        let mut top: u64 = 1;
        proof {
            lemma2_to64();
        }
        while 2 * top <= n as u64
            invariant
                top == pow2(k as nat),
                1 <= top <= n <= 100,
                k <= 6,
            decreases n - top,
        {
            proof {
                lemma2_to64();
                lemma_pow2_unfold((k + 1) as nat);
                if k + 1 > 7 {
                    lemma_pow2_strictly_increases(7, (k + 1) as nat);
                }
            }
            top = 2 * top;
            k = k + 1;
        }
        let scale: u64 = power_of_two(52 - k);
        proof {
            lemma2_to64_rest();
            lemma_pow2_adds(k as nat, (52 - k) as nat);
            lemma_mul_strict_inequality(n - top, top as int, scale as int);
            lemma_mul_nonnegative(n - top, scale as int);
        }
        let bits: u64 = (1023 + k) * FRACTIONS + (n as u64 - top) * scale;
        proof {
            lemma_whole_steps(n as nat, k as nat, bits);
            lemma_full_steps();
            lemma_mul_inequality(n as int, 100, one_percent() as int);
            if bits > FULL {
                lemma_steps_increase(FULL, bits);
            }
        }
        Some(Percentage { bits })
    }

    /// The level as a whole number of percent: the nearest one, and halfway
    /// between two the even one.
    pub fn rounded(&self) -> (percent: u8)
        ensures
            percent == nearest(self@, one_percent()),
            percent <= 100,
    {
        proof {
            use_type_invariant(self);
            lemma_steps_bounded(self.bits);
            lemma_pow2_pos(1074);
            lemma_nearest_bounded(self@, one_percent(), 100);
        }
        let exponent: u64 = self.bits / FRACTIONS;
        let fraction: u64 = self.bits % FRACTIONS;
        if exponent < 1022 {
            proof {
                lemma_below_half(self.bits);
            }
            return 0;
        }
        let unit: u64 = power_of_two(1075 - exponent);
        let amount: u64 = FRACTIONS + fraction;
        proof {
            lemma2_to64_rest();
            lemma_pow2_pos((1075 - exponent) as nat);
            if exponent > 1022 {
                lemma_pow2_strictly_increases((1075 - exponent) as nat, 53);
            }
        }
        let whole: u64 = amount / unit;
        let rest: u64 = amount % unit;
        proof {
            let weight = pow2((exponent - 1) as nat);
            lemma_pow2_pos((exponent - 1) as nat);
            lemma_pow2_adds((1075 - exponent) as nat, (exponent - 1) as nat);
            lemma_nearest_scaled(amount as nat, unit as nat, weight);
        }
        if 2 * rest > unit || (2 * rest == unit && whole % 2 == 1) {
            (whole + 1) as u8
        } else {
            whole as u8
        }
    }
}

/// Two to the power `k`.
fn power_of_two(k: u64) -> (power: u64)
    requires
        k <= 63,
    ensures
        power == pow2(k as nat),
{
    let mut power: u64 = 1;
    let mut done: u64 = 0;
    proof {
        lemma2_to64();
    }
    while done < k
        invariant
            done <= k <= 63,
            power == pow2(done as nat),
        decreases k - done,
    {
        proof {
            lemma2_to64();
            lemma_pow2_unfold((done + 1) as nat);
            lemma_pow2_strictly_increases((done + 1) as nat, 64);
        }
        power = 2 * power;
        done = done + 1;
    }
    power
}

/// A pattern whose exponent field is under 1022 stands for less than half a
/// percent, which rounds to zero.
proof fn lemma_below_half(bits: u64)
    requires
        exponent(bits) < 1022,
    ensures
        nearest(steps(bits), one_percent()) == 0,
{
    let span = FRACTIONS as int;
    let field = exponent(bits);
    lemma2_to64_rest();
    lemma_pow2_unfold(1074);
    assert(steps(bits) < pow2(1073)) by {
        if field == 0 {
            lemma_pow2_strictly_increases(52, 1073);
        } else {
            let weight = pow2((field - 1) as nat) as int;
            lemma_pow2_pos((field - 1) as nat);
            lemma_mul_strict_inequality(span + fraction(bits), 2 * span, weight);
            lemma_pow2_adds(53, (field - 1) as nat);
            if field + 52 < 1073 {
                lemma_pow2_strictly_increases(field + 52, 1073);
            }
        }
    }
    lemma_basic_div(steps(bits) as int, one_percent() as int);
    lemma_small_mod(steps(bits), one_percent());
}

} // verus!
