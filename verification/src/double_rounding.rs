use vstd::prelude::*;

use crate::text::rounded_quotient;

verus! {

/// `2^e`.
pub open spec fn two_to(e: nat) -> nat
    decreases e,
{
    if e == 0 {
        1
    } else {
        2 * two_to((e - 1) as nat)
    }
}

pub proof fn lemma_two_to_positive(e: nat)
    ensures
        two_to(e) >= 1,
    decreases e,
{
    if e > 0 {
        lemma_two_to_positive((e - 1) as nat);
    }
}

/// The distance between neighbouring double-precision numbers around `n`:
/// 1 below 2^53, doubling with each further binary digit.
pub open spec fn double_spacing(n: nat) -> nat
    decreases n,
{
    if n < 0x20_0000_0000_0000 {
        1
    } else {
        2 * double_spacing(n / 2)
    }
}

/// The double-precision number nearest to `n`, ties to an even significand.
pub open spec fn nearest_double(n: nat) -> nat {
    rounded_quotient(n, double_spacing(n)) * double_spacing(n)
}

/// How far `numerator * scale` is below `2^52 * denominator`.
pub open spec fn scale_gap(numerator: nat, denominator: nat, scale: nat) -> nat {
    if numerator * scale < 0x10_0000_0000_0000 * denominator {
        (0x10_0000_0000_0000 * denominator - numerator * scale) as nat
    } else {
        0
    }
}

/// The least `e` from `e` on at which `numerator / denominator` scaled by
/// `2^e` reaches 2^52: the scale of the double nearest to the ratio.
pub open spec fn ratio_exponent_from(numerator: nat, denominator: nat, e: nat) -> nat
    decreases scale_gap(numerator, denominator, two_to(e)),
{
    if numerator == 0 || numerator * two_to(e) >= 0x10_0000_0000_0000 * denominator {
        e
    } else {
        proof {
            lemma_two_to_positive(e);
            assert(two_to(e + 1) == 2 * two_to(e));
            assert(numerator * two_to(e + 1) == 2 * (numerator * two_to(e))) by (nonlinear_arith)
                requires
                    two_to(e + 1) == 2 * two_to(e),
            ;
            assert(numerator * two_to(e) >= 1) by (nonlinear_arith)
                requires
                    numerator >= 1,
                    two_to(e) >= 1,
            ;
        }
        ratio_exponent_from(numerator, denominator, e + 1)
    }
}

pub open spec fn ratio_exponent(numerator: nat, denominator: nat) -> nat {
    ratio_exponent_from(numerator, denominator, 0)
}

/// The significand of the double nearest to `numerator / denominator`, at
/// the scale `2^ratio_exponent`.
pub open spec fn ratio_significand(numerator: nat, denominator: nat) -> nat {
    rounded_quotient(numerator * two_to(ratio_exponent(numerator, denominator)), denominator)
}

/// `value` times the decimal ratio `numerator / denominator` as a program
/// computes it in double precision and then rounds to an integer: the ratio
/// is taken as its nearest double, the product is rounded to the nearest
/// double, and the result is rounded half away from zero.
pub open spec fn double_ratio_round(value: nat, numerator: nat, denominator: nat) -> nat {
    let scale = two_to(ratio_exponent(numerator, denominator));
    (nearest_double(value * ratio_significand(numerator, denominator)) + scale / 2) / scale
}

proof fn lemma_ratio_exponent_from(numerator: nat, denominator: nat, e: nat)
    requires
        numerator >= 1,
        denominator >= 1,
        numerator * two_to(e) < 0x20_0000_0000_0000 * denominator,
    ensures
        numerator * two_to(ratio_exponent_from(numerator, denominator, e))
            >= 0x10_0000_0000_0000 * denominator,
        numerator * two_to(ratio_exponent_from(numerator, denominator, e))
            < 0x20_0000_0000_0000 * denominator,
    decreases scale_gap(numerator, denominator, two_to(e)),
{
    if numerator * two_to(e) < 0x10_0000_0000_0000 * denominator {
        lemma_two_to_positive(e);
        assert(two_to(e + 1) == 2 * two_to(e));
        assert(numerator * two_to(e + 1) == 2 * (numerator * two_to(e))) by (nonlinear_arith)
            requires
                two_to(e + 1) == 2 * two_to(e),
        ;
        assert(numerator * two_to(e) >= 1) by (nonlinear_arith)
            requires
                numerator >= 1,
                two_to(e) >= 1,
        ;
        lemma_ratio_exponent_from(numerator, denominator, e + 1);
    }
}

proof fn lemma_double_spacing(n: nat)
    ensures
        double_spacing(n) >= 1,
        double_spacing(n) == 1 || double_spacing(n) * 0x10_0000_0000_0000 <= n,
        double_spacing(n) <= n || n < 0x20_0000_0000_0000,
    decreases n,
{
    if n >= 0x20_0000_0000_0000 {
        lemma_double_spacing(n / 2);
    }
}

proof fn lemma_nearest_double(n: nat)
    ensures
        2 * nearest_double(n) <= 2 * n + double_spacing(n),
{
    let spacing = double_spacing(n);
    lemma_double_spacing(n);
    let quotient = n / spacing;
    let remainder = n % spacing;
    vstd::arithmetic::div_mod::lemma_fundamental_div_mod(n as int, spacing as int);
    if remainder * 2 > spacing || (remainder * 2 == spacing && quotient % 2 == 1) {
        assert(2 * ((quotient + 1) * spacing) <= 2 * n + spacing) by (nonlinear_arith)
            requires
                n == spacing * quotient + remainder,
                remainder * 2 >= spacing,
        ;
    } else {
        assert(2 * (quotient * spacing) <= 2 * n + spacing) by (nonlinear_arith)
            requires
                n == spacing * quotient + remainder,
                remainder >= 0,
                spacing >= 1,
        ;
    }
}

/// The doubled ratio never rounds above the exact ratio rounded half up.
pub proof fn lemma_double_ratio_round_at_most(value: nat, numerator: nat, denominator: nat)
    requires
        value <= u32::MAX,
        1 <= numerator < 2 * denominator,
        denominator <= 100_000,
    ensures
        double_ratio_round(value, numerator, denominator) <= (value * numerator + denominator / 2)
            / denominator,
{
    let e = ratio_exponent(numerator, denominator);
    let scale = two_to(e);
    assert(two_to(0) == 1);
    assert(numerator * two_to(0) < 0x20_0000_0000_0000 * denominator);
    lemma_ratio_exponent_from(numerator, denominator, 0);
    lemma_two_to_positive(e);
    let scaled = numerator * scale;
    let significand = ratio_significand(numerator, denominator);
    // The significand rounds `scaled / denominator` to the nearest integer.
    let quotient = scaled / denominator;
    let remainder = scaled % denominator;
    vstd::arithmetic::div_mod::lemma_fundamental_div_mod(scaled as int, denominator as int);
    assert(2 * significand * denominator <= 2 * scaled + denominator) by {
        if remainder * 2 > denominator || (remainder * 2 == denominator && quotient % 2 == 1) {
            assert(2 * (quotient + 1) * denominator <= 2 * scaled + denominator) by (nonlinear_arith)
                requires
                    scaled == denominator * quotient + remainder,
                    remainder * 2 >= denominator,
            ;
        } else {
            assert(2 * quotient * denominator <= 2 * scaled + denominator) by (nonlinear_arith)
                requires
                    scaled == denominator * quotient + remainder,
                    remainder >= 0,
            ;
        }
    }
    assert(significand <= 0x20_0000_0000_0000) by {
        assert(quotient < 0x20_0000_0000_0000) by (nonlinear_arith)
            requires
                scaled == denominator * quotient + remainder,
                remainder >= 0,
                scaled < 0x20_0000_0000_0000 * denominator,
                denominator >= 1,
        ;
    }
    assert(scale > 0x8_0000_0000_0000) by (nonlinear_arith)
        requires
            scaled == numerator * scale,
            scaled >= 0x10_0000_0000_0000 * denominator,
            numerator < 2 * denominator,
            denominator >= 1,
    ;
    let product = value * significand;
    let spacing = double_spacing(product);
    let nearest = nearest_double(product);
    lemma_double_spacing(product);
    lemma_nearest_double(product);
    assert(product <= 0xFFFF_FFFF * 0x20_0000_0000_0000) by (nonlinear_arith)
        requires
            product == value * significand,
            value <= 0xFFFF_FFFF,
            significand <= 0x20_0000_0000_0000,
    ;
    assert(spacing <= 0x2_0000_0000) by (nonlinear_arith)
        requires
            spacing == 1 || spacing * 0x10_0000_0000_0000 <= product,
            product <= 0xFFFF_FFFF * 0x20_0000_0000_0000,
    ;
    assert(value * denominator + spacing * denominator < scale) by (nonlinear_arith)
        requires
            value <= 0xFFFF_FFFF,
            spacing <= 0x2_0000_0000,
            denominator <= 100_000,
            scale > 0x8_0000_0000_0000,
    ;
    let exact = (value * numerator + denominator / 2) / denominator;
    let exact_remainder = (value * numerator + denominator / 2) % denominator;
    vstd::arithmetic::div_mod::lemma_fundamental_div_mod(
        (value * numerator + denominator / 2) as int,
        denominator as int,
    );
    // 2 (exact + 1) denominator exceeds 2 value numerator + denominator.
    assert((exact + 1) * 2 * denominator >= 2 * value * numerator + denominator + 1) by (nonlinear_arith)
        requires
            value * numerator + denominator / 2 == denominator * exact + exact_remainder,
            exact_remainder < denominator,
            denominator / 2 * 2 + 1 >= denominator,
    ;
    assert(2 * nearest * denominator <= (2 * product + spacing) * denominator) by (nonlinear_arith)
        requires
            2 * nearest <= 2 * product + spacing,
            denominator >= 1,
    ;
    assert(2 * product * denominator <= value * (2 * scaled + denominator)) by (nonlinear_arith)
        requires
            product == value * significand,
            2 * significand * denominator <= 2 * scaled + denominator,
            value >= 0,
    ;
    assert(value * (2 * scaled + denominator) == 2 * value * numerator * scale + value
        * denominator) by (nonlinear_arith)
        requires
            scaled == numerator * scale,
    ;
    assert(scale * (2 * value * numerator + denominator + 1) <= 2 * (exact + 1) * scale
        * denominator) by (nonlinear_arith)
        requires
            (exact + 1) * 2 * denominator >= 2 * value * numerator + denominator + 1,
            scale >= 0,
    ;
    assert(scale * (2 * value * numerator + denominator + 1) == 2 * value * numerator * scale
        + scale * denominator + scale) by (nonlinear_arith);
    assert(spacing * denominator + 0 == denominator * spacing);
    assert((2 * nearest + scale) * denominator == 2 * nearest * denominator + scale * denominator)
        by (nonlinear_arith);
    assert((2 * product + spacing) * denominator == 2 * product * denominator + spacing
        * denominator) by (nonlinear_arith);
    assert((2 * nearest + scale) * denominator < 2 * (exact + 1) * scale * denominator);
    assert(2 * nearest + scale < 2 * (exact + 1) * scale) by (nonlinear_arith)
        requires
            (2 * nearest + scale) * denominator < 2 * (exact + 1) * scale * denominator,
            denominator >= 1,
    ;
    assert((nearest + scale / 2) / scale <= exact) by (nonlinear_arith)
        requires
            2 * nearest + scale < 2 * (exact + 1) * scale,
            scale >= 2,
    ;
}

/// The double nearest to `n`.
pub(crate) fn nearest_double_exec(n: u128) -> (nearest: u128)
    requires
        n < 0x1_0000_0000_0000_0000_0000_0000,
    ensures
        nearest == nearest_double(n as nat),
        nearest <= 0x20_0000_0000_0000 * 0x1000_0000_0000,
{
    proof {
        lemma_double_spacing(n as nat);
    }
    let mut reduced: u128 = n;
    let mut spacing: u128 = 1;
    while reduced >= 0x20_0000_0000_0000
        invariant
            spacing > 0,
            spacing <= 0x1_0000_0000_0000_0000_0000_0000,
            n < 0x1_0000_0000_0000_0000_0000_0000,
            reduced as nat == n as nat / spacing as nat,
            double_spacing(n as nat) == spacing * double_spacing(reduced as nat),
        decreases reduced,
    {
        proof {
            vstd::arithmetic::div_mod::lemma_div_denominator(n as int, spacing as int, 2);
            vstd::arithmetic::div_mod::lemma_fundamental_div_mod(n as int, spacing as int);
            assert(spacing * 2 <= n) by (nonlinear_arith)
                requires
                    n == spacing * reduced + n as int % spacing as int,
                    n as int % spacing as int >= 0,
                    reduced >= 2,
                    spacing > 0,
            ;
            assert(spacing * (2 * double_spacing((reduced / 2) as nat)) == (spacing * 2)
                * double_spacing((reduced / 2) as nat)) by (nonlinear_arith);
        }
        reduced = reduced / 2;
        spacing = spacing * 2;
    }
    assert(double_spacing(reduced as nat) == 1);
    assert(spacing * double_spacing(reduced as nat) == spacing) by (nonlinear_arith)
        requires
            double_spacing(reduced as nat) == 1,
    ;
    assert(double_spacing(n as nat) == spacing);
    assert(spacing <= 0x1000_0000_0000) by (nonlinear_arith)
        requires
            spacing == 1 || spacing * 0x10_0000_0000_0000 <= n,
            n < 0x1_0000_0000_0000_0000_0000_0000,
    ;
    let quotient = n / spacing;
    let remainder = n % spacing;
    let rounded = if remainder * 2 > spacing || (remainder * 2 == spacing && quotient % 2 == 1) {
        quotient + 1
    } else {
        quotient
    };
    assert(quotient == reduced);
    assert(rounded * spacing <= 0x20_0000_0000_0000 * 0x1000_0000_0000) by (nonlinear_arith)
        requires
            rounded <= 0x20_0000_0000_0000,
            spacing <= 0x1000_0000_0000,
    ;
    rounded * spacing
}

/// `value` times `numerator / denominator`, computed and rounded as in
/// double precision.
pub(crate) fn double_ratio_round_exec(value: u32, numerator: u32, denominator: u32) -> (result: u64)
    requires
        1 <= numerator < 2 * denominator,
        denominator <= 100_000,
    ensures
        result == double_ratio_round(value as nat, numerator as nat, denominator as nat),
        result <= (value as int * numerator as int + denominator as int / 2) / denominator as int,
{
    proof {
        assert(two_to(0) == 1);
        assert(numerator as nat * two_to(0) < 0x20_0000_0000_0000 * denominator as nat);
        lemma_ratio_exponent_from(numerator as nat, denominator as nat, 0);
        lemma_double_ratio_round_at_most(value as nat, numerator as nat, denominator as nat);
    }
    let ghost target = ratio_exponent(numerator as nat, denominator as nat);
    let mut e: Ghost<nat> = Ghost(0);
    let mut scale: u128 = 1;
    while (numerator as u128) * scale < 0x10_0000_0000_0000 * (denominator as u128)
        invariant
            1 <= numerator < 2 * denominator,
            denominator <= 100_000,
            scale == two_to(e@),
            numerator * two_to(e@) < 0x20_0000_0000_0000 * denominator,
            ratio_exponent_from(numerator as nat, denominator as nat, e@) == target,
        decreases scale_gap(numerator as nat, denominator as nat, scale as nat),
    {
        proof {
            lemma_two_to_positive(e@);
            assert(numerator * two_to(e@ + 1) == 2 * (numerator * two_to(e@))) by (nonlinear_arith)
                requires
                    two_to(e@ + 1) == 2 * two_to(e@),
            ;
            assert(numerator * (scale * 2) == 2 * (numerator * scale)) by (nonlinear_arith);
            assert(numerator * scale >= 1) by (nonlinear_arith)
                requires
                    numerator >= 1,
                    scale >= 1,
            ;
            assert(scale < 0x10_0000_0000_0000 * 100_000) by (nonlinear_arith)
                requires
                    numerator * scale < 0x10_0000_0000_0000 * denominator,
                    numerator >= 1,
                    denominator <= 100_000,
            ;
        }
        scale = scale * 2;
        e = Ghost(e@ + 1);
    }
    assert(e@ == target);
    let scaled: u128 = numerator as u128 * scale;
    let quotient = scaled / denominator as u128;
    let remainder = scaled % denominator as u128;
    let significand = if remainder * 2 > denominator as u128 || (remainder * 2
        == denominator as u128 && quotient % 2 == 1) {
        quotient + 1
    } else {
        quotient
    };
    assert(significand == ratio_significand(numerator as nat, denominator as nat));
    proof {
        vstd::arithmetic::div_mod::lemma_fundamental_div_mod(scaled as int, denominator as int);
        assert(quotient < 0x20_0000_0000_0000) by (nonlinear_arith)
            requires
                scaled == denominator * quotient + remainder,
                remainder >= 0,
                scaled < 0x20_0000_0000_0000 * denominator,
                denominator >= 1,
        ;
        assert(value as int * significand as int <= 0xFFFF_FFFF * 0x20_0000_0000_0000) by (
        nonlinear_arith)
            requires
                value <= 0xFFFF_FFFF,
                significand <= 0x20_0000_0000_0000,
        ;
    }
    let nearest = nearest_double_exec(value as u128 * significand);
    proof {
        lemma_two_to_positive(e@);
        assert(scale < 0x20_0000_0000_0000 * 100_000) by (nonlinear_arith)
            requires
                numerator * scale < 0x20_0000_0000_0000 * denominator,
                numerator >= 1,
                denominator <= 100_000,
        ;
    }
    let rounded = (nearest + scale / 2) / scale;
    assert(rounded == double_ratio_round(value as nat, numerator as nat, denominator as nat));
    assert((value as int * numerator as int + denominator as int / 2) / denominator as int
        <= 0x4_0000_0000) by (nonlinear_arith)
        requires
            value <= 0xFFFF_FFFF,
            numerator < 2 * denominator,
            denominator >= 1,
    ;
    rounded as u64
}

} // verus!
