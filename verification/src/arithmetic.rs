//! The scalar arithmetic that the integrator is carried out in.

use vstd::prelude::*;
use vstd::arithmetic::power2::{lemma2_to64, lemma2_to64_rest, lemma_pow2_adds, pow2};
use vstd::math::abs;

verus! {

/// Newton's constant of gravitation, 6.67408e-11, by its IEEE 754 binary64
/// encoding.
pub const G: u64 = 0x3DD2_5877_5E37_FA03;

/// The number two, by its IEEE 754 binary64 encoding.
pub const TWO: u64 = 0x4000_0000_0000_0000;

/// The mass of a star, in Earth masses.
pub const STAR_MASS: i32 = 333000;

/// The mass of the planet, in Earth masses.
pub const EARTH_MASS: i32 = 1;

/// One elementary operation on scalars of type `T`.
pub enum Operation<T> {
    /// The scalar whose IEEE 754 binary64 encoding is the given word.
    Constant(u64),
    /// The first operand plus the second.
    Add(T, T),
    /// The first operand minus the second.
    Sub(T, T),
    /// The first operand times the second.
    Mul(T, T),
    /// The first operand divided by the second.
    Div(T, T),
    /// The first operand raised to the integer power that the second gives.
    Powi(T, i32),
    /// The square root of the operand.
    Sqrt(T),
    /// The angle of the point whose ordinate is the first operand and whose
    /// abscissa is the second.
    Atan2(T, T),
    /// The sine of the operand.
    Sin(T),
    /// The cosine of the operand.
    Cos(T),
}

/// `calc` may be called on every operation.
pub open spec fn is_total<T, C: Fn(Operation<T>) -> T>(calc: &C) -> bool {
    forall|op: Operation<T>| #[trigger] calc.requires((op,))
}

/// Whatever `calc` returns for an operation is the value that `f` gives it.
pub open spec fn computes<T, C: Fn(Operation<T>) -> T>(
    calc: &C,
    f: spec_fn(Operation<T>) -> T,
) -> bool {
    forall|op: Operation<T>, r: T| #[trigger] calc.ensures((op,), r) ==> r == f(op)
}

/// The exponent field of a binary64 word: its bits 52 to 62.
pub open spec fn exponent_field(bits: u64) -> int {
    (bits as int / 0x10_0000_0000_0000) % 0x800
}

/// The significand of a normal binary64 word: its low 52 bits under a leading
/// one.
pub open spec fn significand(bits: u64) -> int {
    0x10_0000_0000_0000 + bits as int % 0x10_0000_0000_0000
}

/// `bits` encodes a positive normal number below 2^53, which is
/// `significand * 2^(exponent_field - 1075)`, and that number differs from
/// `numerator / denominator` by less than half a unit in its last place.
pub open spec fn encodes_nearest(bits: u64, numerator: nat, denominator: nat) -> bool {
    let scale = pow2((1075 - exponent_field(bits)) as nat);
    &&& bits < 0x8000_0000_0000_0000
    &&& 0 < exponent_field(bits) <= 1075
    &&& denominator > 0
    &&& 2 * abs(significand(bits) * denominator - numerator * scale) < denominator
}

/// `G` lies within half a unit in its last place of 667408 / 10^16: it encodes
/// the binary64 number nearest to the decimal constant.
pub proof fn lemma_g_encodes_nearest()
    ensures
        encodes_nearest(G, 667408, 10_000_000_000_000_000),
{
    lemma2_to64();
    lemma2_to64_rest();
    lemma_pow2_adds(64, 22);
    assert(exponent_field(G) == 989);
    assert(significand(G) == 5163819285871107);
    assert(pow2(86) == 77371252455336267181195264);
}

/// `TWO` encodes the number two, exactly.
pub proof fn lemma_two_encodes_two()
    ensures
        encodes_nearest(TWO, 2, 1),
{
    lemma2_to64();
    lemma2_to64_rest();
    assert(exponent_field(TWO) == 1024);
    assert(significand(TWO) == 0x10_0000_0000_0000);
}

} // verus!
