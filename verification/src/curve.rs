//! The speed curve: a cubic ease-in from "fan off" at the target temperature
//! to full speed at the threshold, rounded to whole percent.

use vstd::prelude::*;
use vstd::arithmetic::div_mod::lemma_fundamental_div_mod;
use vstd::arithmetic::div_mod::lemma_div_is_ordered;

verus! {

/// First temperature of the preview table, in degrees.
pub const PREVIEW_FIRST: u16 = 20;

/// Last temperature of the preview table, in degrees.
pub const PREVIEW_LAST: u16 = 100;

/// Highest value a fixed-speed request may carry, in percent.
pub const MAX_PERCENTAGE: u16 = 100;

/// The third power of `x`.
pub open spec fn cube(x: nat) -> nat {
    x * x * x
}

/// The fraction `numerator / denominator` rounded to the nearest whole
/// number, a fraction of exactly one half going up.
pub open spec fn round_div(numerator: nat, denominator: nat) -> nat
    recommends
        denominator > 0,
{
    ((2 * numerator + denominator) / (2 * denominator)) as nat
}

/// The fan speed for a temperature reading.
///
/// At or below `target_temperature` the fan is off. Above it, at or above
/// `threshold`, the fan runs at `max_fan_speed`. In between, with
/// `ratio = (temperature - target_temperature) / (threshold - target_temperature)`,
/// the speed is `ratio^3 * max_fan_speed`, rounded to the nearest whole number.
///
/// The function is total. Where `threshold <= target_temperature` the band in
/// between is empty and the curve is a step at `target_temperature`.
pub open spec fn curve(
    temperature: nat,
    target_temperature: nat,
    threshold: nat,
    max_fan_speed: nat,
) -> nat {
    if temperature <= target_temperature {
        0
    } else if temperature >= threshold {
        max_fan_speed
    } else {
        round_div(
            cube((temperature - target_temperature) as nat) * max_fan_speed,
            cube((threshold - target_temperature) as nat),
        )
    }
}

/// The cube grows with its argument.
pub proof fn lemma_cube_monotonic(a: nat, b: nat)
    requires
        a <= b,
    ensures
        cube(a) <= cube(b),
{
    assert(a * a * a <= b * b * b) by (nonlinear_arith)
        requires
            0 <= a <= b,
    ;
}

/// The cube of a positive number is positive.
pub proof fn lemma_cube_positive(a: nat)
    requires
        a > 0,
    ensures
        cube(a) > 0,
{
    assert(a * a * a > 0) by (nonlinear_arith)
        requires
            a > 0,
    ;
}

/// `round_div` names the whole number nearest to the fraction: the result
/// `r` is the one number with `r - 1/2 <= numerator / denominator < r + 1/2`.
pub proof fn lemma_round_div_nearest(numerator: nat, denominator: nat)
    requires
        denominator > 0,
    ensures
        (2 * round_div(numerator, denominator) - 1) * denominator <= 2 * numerator,
        2 * numerator < (2 * round_div(numerator, denominator) + 1) * denominator,
{
    let x: int = (2 * numerator + denominator) as int;
    let d: int = (2 * denominator) as int;
    let q: int = x / d;
    lemma_fundamental_div_mod(x, d);
    assert(0 <= x % d < d);
    assert(q >= 0) by (nonlinear_arith)
        requires
            x == d * q + x % d,
            0 <= x % d < d,
            x >= 0,
            d > 0,
    ;
    assert(d * q == 2 * q * denominator) by (nonlinear_arith)
        requires
            d == 2 * denominator,
    ;
    assert((2 * q - 1) * denominator == 2 * q * denominator - denominator) by (nonlinear_arith);
    assert((2 * q + 1) * denominator == 2 * q * denominator + denominator) by (nonlinear_arith);
}

/// `round_div` grows with its numerator.
pub proof fn lemma_round_div_monotonic(x: nat, y: nat, denominator: nat)
    requires
        x <= y,
        denominator > 0,
    ensures
        round_div(x, denominator) <= round_div(y, denominator),
{
    lemma_div_is_ordered(
        (2 * x + denominator) as int,
        (2 * y + denominator) as int,
        (2 * denominator) as int,
    );
    lemma_round_div_nearest(x, denominator);
    lemma_round_div_nearest(y, denominator);
}

/// Rounding a fraction of at most `bound` gives at most `bound`.
pub proof fn lemma_round_div_bounded(numerator: nat, denominator: nat, bound: nat)
    requires
        denominator > 0,
        numerator <= bound * denominator,
    ensures
        round_div(numerator, denominator) <= bound,
{
    let r = round_div(numerator, denominator);
    lemma_round_div_nearest(numerator, denominator);
    if r > bound {
        assert((2 * r - 1) * denominator >= (2 * bound + 1) * denominator) by (nonlinear_arith)
            requires
                r >= bound + 1,
                denominator > 0,
        ;
        assert((2 * bound + 1) * denominator == 2 * (bound * denominator) + denominator)
            by (nonlinear_arith);
    }
}

/// The curve never asks for more than `max_fan_speed`.
pub proof fn lemma_curve_bounded(
    temperature: nat,
    target_temperature: nat,
    threshold: nat,
    max_fan_speed: nat,
)
    ensures
        curve(temperature, target_temperature, threshold, max_fan_speed) <= max_fan_speed,
{
    if target_temperature < temperature && temperature < threshold {
        let n = (temperature - target_temperature) as nat;
        let d = (threshold - target_temperature) as nat;
        lemma_cube_monotonic(n, d);
        lemma_cube_positive(d);
        assert(cube(n) * max_fan_speed <= max_fan_speed * cube(d)) by (nonlinear_arith)
            requires
                cube(n) <= cube(d),
        ;
        lemma_round_div_bounded(cube(n) * max_fan_speed, cube(d), max_fan_speed);
    }
}

/// At or below the target temperature the fan is off.
pub proof fn lemma_curve_idle(
    temperature: nat,
    target_temperature: nat,
    threshold: nat,
    max_fan_speed: nat,
)
    requires
        temperature <= target_temperature,
    ensures
        curve(temperature, target_temperature, threshold, max_fan_speed) == 0,
{
}

/// At or above the threshold the fan runs at full speed. A reading that is
/// also at or below the target temperature counts as idle, so it is left out
/// unless full speed is zero anyway.
pub proof fn lemma_curve_full(
    temperature: nat,
    target_temperature: nat,
    threshold: nat,
    max_fan_speed: nat,
)
    requires
        temperature >= threshold,
        temperature > target_temperature || max_fan_speed == 0,
    ensures
        curve(temperature, target_temperature, threshold, max_fan_speed) == max_fan_speed,
{
}

/// The curve never falls as the temperature rises, whatever the parameters.
pub proof fn lemma_curve_monotonic(
    lower: nat,
    higher: nat,
    target_temperature: nat,
    threshold: nat,
    max_fan_speed: nat,
)
    requires
        lower <= higher,
    ensures
        curve(lower, target_temperature, threshold, max_fan_speed) <= curve(
            higher,
            target_temperature,
            threshold,
            max_fan_speed,
        ),
{
    lemma_curve_bounded(lower, target_temperature, threshold, max_fan_speed);
    if target_temperature < lower && higher < threshold {
        let a = (lower - target_temperature) as nat;
        let b = (higher - target_temperature) as nat;
        let d = (threshold - target_temperature) as nat;
        lemma_cube_monotonic(a, b);
        lemma_cube_positive(d);
        assert(cube(a) * max_fan_speed <= cube(b) * max_fan_speed) by (nonlinear_arith)
            requires
                cube(a) <= cube(b),
        ;
        lemma_round_div_monotonic(cube(a) * max_fan_speed, cube(b) * max_fan_speed, cube(d));
    }
}

/// Computes the fan speed for a temperature reading: `curve` on machine
/// integers. Every input is accepted and the result never exceeds
/// `max_fan_speed`.
pub fn calc_speed(
    temperature: u16,
    target_temperature: u16,
    threshold: u16,
    max_fan_speed: u16,
) -> (speed: u16)
    ensures
        speed == curve(
            temperature as nat,
            target_temperature as nat,
            threshold as nat,
            max_fan_speed as nat,
        ),
        speed <= max_fan_speed,
        temperature <= target_temperature ==> speed == 0,
        temperature > target_temperature && temperature >= threshold ==> speed == max_fan_speed,
{
    if temperature <= target_temperature {
        0
    } else if temperature >= threshold {
        max_fan_speed
    } else {
        let n: u128 = (temperature - target_temperature) as u128;
        let d: u128 = (threshold - target_temperature) as u128;
        let m: u128 = max_fan_speed as u128;
        proof {
            assert(n * n <= 0xffff * 0xffff && n * n * n <= 0xffff * 0xffff * 0xffff)
                by (nonlinear_arith)
                requires
                    0 <= n <= 0xffff,
            ;
            assert(d * d <= 0xffff * 0xffff && d * d * d <= 0xffff * 0xffff * 0xffff)
                by (nonlinear_arith)
                requires
                    0 <= d <= 0xffff,
            ;
            assert(n * n * n * m <= 0xffff * 0xffff * 0xffff * 0xffff) by (nonlinear_arith)
                requires
                    0 <= n * n * n <= 0xffff * 0xffff * 0xffff,
                    0 <= m <= 0xffff,
            ;
            lemma_cube_positive(d as nat);
        }
        let n3: u128 = n * n * n;
        let d3: u128 = d * d * d;
        let scaled: u128 = n3 * m;
        let q: u128 = (2 * scaled + d3) / (2 * d3);
        proof {
            assert(n3 == cube(n as nat));
            assert(d3 == cube(d as nat));
            lemma_curve_bounded(
                temperature as nat,
                target_temperature as nat,
                threshold as nat,
                max_fan_speed as nat,
            );
        }
        q as u16
    }
}

/// Clamps a requested fixed speed to a percentage.
pub fn fixed_speed(value: u16) -> (speed: u16)
    ensures
        speed == if value > MAX_PERCENTAGE {
            MAX_PERCENTAGE
        } else {
            value
        },
{
    if value > MAX_PERCENTAGE {
        MAX_PERCENTAGE
    } else {
        value
    }
}

/// The preview table: one row for each whole temperature from
/// `PREVIEW_FIRST` to `PREVIEW_LAST`, in rising order, each row holding the
/// temperature and the speed the curve gives it.
pub fn all_speeds(target_temperature: u16, threshold: u16, max_fan_speed: u16) -> (table: Vec<
    (u16, u16),
>)
    ensures
        table@.len() == PREVIEW_LAST - PREVIEW_FIRST + 1,
        forall|i: int|
            0 <= i < table@.len() ==> (#[trigger] table@[i]).0 == PREVIEW_FIRST + i
                && table@[i].1 == curve(
                (PREVIEW_FIRST + i) as nat,
                target_temperature as nat,
                threshold as nat,
                max_fan_speed as nat,
            ),
{
    let mut table: Vec<(u16, u16)> = Vec::new();
    let mut temperature: u16 = PREVIEW_FIRST;
    while temperature <= PREVIEW_LAST
        invariant
            PREVIEW_FIRST <= temperature <= PREVIEW_LAST + 1,
            table@.len() == temperature - PREVIEW_FIRST,
            forall|i: int|
                0 <= i < table@.len() ==> (#[trigger] table@[i]).0 == PREVIEW_FIRST + i
                    && table@[i].1 == curve(
                    (PREVIEW_FIRST + i) as nat,
                    target_temperature as nat,
                    threshold as nat,
                    max_fan_speed as nat,
                ),
        decreases PREVIEW_LAST + 1 - temperature,
    {
        let speed: u16 = calc_speed(temperature, target_temperature, threshold, max_fan_speed);
        table.push((temperature, speed));
        temperature = temperature + 1;
    }
    table
}

} // verus!
