//! Fixed-point amounts and their arithmetic.

use vstd::prelude::*;

verus! {

/// An amount in billionths: `UNIT` stands for one.
pub type Value = i64;

/// The fixed-point representation of one.
pub const UNIT: i64 = 1_000_000_000;

/// The nearest amount that can be held to an exact number.
pub open spec fn clamp(x: int) -> int {
    if x < i64::MIN {
        i64::MIN as int
    } else if x > i64::MAX {
        i64::MAX as int
    } else {
        x
    }
}

/// The size of a number.
pub open spec fn magnitude(x: int) -> int {
    if x < 0 {
        -x
    } else {
        x
    }
}

/// Division that rounds towards zero; by zero it gives zero.
pub open spec fn quotient(a: int, b: int) -> int {
    if b == 0 {
        0
    } else if (a >= 0) == (b > 0) {
        magnitude(a) / magnitude(b)
    } else {
        -(magnitude(a) / magnitude(b))
    }
}

/// The fixed-point product of two amounts.
pub open spec fn product(a: int, b: int) -> int {
    clamp(quotient(a * b, UNIT as int))
}

/// The fixed-point ratio of two amounts; zero where the divisor is zero.
pub open spec fn proportion(a: int, b: int) -> int {
    clamp(quotient(a * UNIT, b))
}

/// The exact sum of a list of amounts.
pub open spec fn total(s: Seq<i64>) -> int
    decreases s.len(),
{
    if s.len() == 0 {
        0
    } else {
        total(s.drop_last()) + s.last()
    }
}

/// A sum of `n` amounts lies within `n` times the range of one.
pub proof fn lemma_total_bounds(s: Seq<i64>)
    ensures
        -(s.len() * 0x8000_0000_0000_0000) <= total(s) <= s.len() * 0x7fff_ffff_ffff_ffff,
    decreases s.len(),
{
    if s.len() > 0 {
        lemma_total_bounds(s.drop_last());
    }
}

/// The nearest amount to `x`.
pub fn narrow(x: i128) -> (r: Value)
    ensures
        r == clamp(x as int),
{
    if x < -0x8000_0000_0000_0000 {
        i64::MIN
    } else if x > 0x7fff_ffff_ffff_ffff {
        i64::MAX
    } else {
        x as i64
    }
}

/// `a / b`, rounded towards zero.
pub fn divide(a: i128, b: i128) -> (r: i128)
    requires
        b != 0,
        a > i128::MIN,
        b > i128::MIN,
    ensures
        r == quotient(a as int, b as int),
{
    let ma: i128 = if a < 0 { -a } else { a };
    let mb: i128 = if b < 0 { -b } else { b };
    let q: i128 = ma / mb;
    assert(0 <= q <= ma) by (nonlinear_arith)
        requires
            q == ma / mb,
            ma >= 0,
            mb > 0,
    ;
    if (a >= 0) == (b > 0) {
        q
    } else {
        -q
    }
}

/// The sum of two amounts.
pub fn plus(a: Value, b: Value) -> (r: Value)
    ensures
        r == clamp(a + b),
{
    let s: i128 = a as i128 + b as i128;
    narrow(s)
}

/// The difference of two amounts.
pub fn minus(a: Value, b: Value) -> (r: Value)
    ensures
        r == clamp(a - b),
{
    let s: i128 = a as i128 - b as i128;
    narrow(s)
}

/// The negation of an amount.
pub fn negate(a: Value) -> (r: Value)
    ensures
        r == clamp(-a),
{
    let s: i128 = -(a as i128);
    narrow(s)
}

/// The fixed-point product of two amounts.
pub fn times(a: Value, b: Value) -> (r: Value)
    ensures
        r == product(a as int, b as int),
{
    let wide_a: i128 = a as i128;
    let wide_b: i128 = b as i128;
    assert(-0x4000_0000_0000_0000_0000_0000_0000_0000 <= wide_a * wide_b
        <= 0x4000_0000_0000_0000_0000_0000_0000_0000) by (nonlinear_arith)
        requires
            -0x8000_0000_0000_0000 <= wide_a <= 0x7fff_ffff_ffff_ffff,
            -0x8000_0000_0000_0000 <= wide_b <= 0x7fff_ffff_ffff_ffff,
    ;
    let p: i128 = wide_a * wide_b;
    narrow(divide(p, UNIT as i128))
}

/// The fixed-point ratio of two amounts; zero where the divisor is zero.
pub fn ratio(a: Value, b: Value) -> (r: Value)
    ensures
        r == proportion(a as int, b as int),
{
    if b == 0 {
        0
    } else {
        let wide_a: i128 = a as i128;
        assert(-0x8000_0000_0000_0000_0000_0000 <= wide_a * 1_000_000_000
            <= 0x8000_0000_0000_0000_0000_0000);
        narrow(divide(wide_a * (UNIT as i128), b as i128))
    }
}

/// The sum of a list of amounts.
pub fn sum(values: &Vec<Value>) -> (r: Value)
    ensures
        r == clamp(total(values@)),
{
    let mut acc: i128 = 0;
    let mut i: usize = 0;
    while i < values.len()
        invariant
            i <= values.len(),
            acc == total(values@.take(i as int)),
        decreases values.len() - i,
    {
        proof {
            lemma_total_bounds(values@.take(i as int));
            assert(values@.take(i + 1).drop_last() =~= values@.take(i as int));
        }
        acc = acc + values[i] as i128;
        i += 1;
    }
    assert(values@.take(i as int) =~= values@);
    narrow(acc)
}

} // verus!
