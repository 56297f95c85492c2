use crate::scalar::Scalar;
use vstd::prelude::*;

verus! {

/// How many raw units make one.
pub const SCALE: i64 = 1_000_000;

/// The greatest raw value that an operation returns; the least is its
/// negative.
pub const LIMIT: i64 = 0x7fff_ffff_ffff_ffff;

/// A decimal fixed-point number: `raw` millionths.
///
/// Every operation is exact up to the last digit, which is cut off
/// towards zero, and saturates at `LIMIT` and `-LIMIT` in place of
/// overflowing. A division by zero saturates by the sign of the
/// dividend. The logarithms are computed bit by bit, to thirty-two
/// binary digits of the logarithm to base two.
#[derive(Debug, Clone, Copy, PartialEq, Eq, Structural)]
pub struct Fixed {
    pub raw: i64,
}

/// `x` held between `-LIMIT` and `LIMIT`.
pub open spec fn saturated(x: int) -> i64 {
    if x > LIMIT {
        LIMIT
    } else if x < -LIMIT {
        (-LIMIT) as i64
    } else {
        x as i64
    }
}

/// The quotient of `x` by `d`, cut off towards zero.
pub open spec fn quotient(x: int, d: int) -> int {
    if d == 0 {
        0
    } else if (x < 0) == (d < 0) {
        (if x < 0 {
            -x
        } else {
            x
        }) / (if d < 0 {
            -d
        } else {
            d
        })
    } else {
        -((if x < 0 {
            -x
        } else {
            x
        }) / (if d < 0 {
            -d
        } else {
            d
        }))
    }
}

/// What a division by zero gives: the limit on the side of the dividend.
pub open spec fn overflowed(x: int) -> i64 {
    if x > 0 {
        LIMIT
    } else if x < 0 {
        (-LIMIT) as i64
    } else {
        0
    }
}

/// The quotient of `x` by `d` as a raw value.
pub open spec fn divided(x: int, d: int) -> i64 {
    if d == 0 {
        overflowed(x)
    } else {
        saturated(quotient(x, d))
    }
}

/// Whether `r` is the whole part of the square root of `n`.
pub open spec fn is_root_of(n: int, r: int) -> bool {
    0 <= r && r * r <= n < (r + 1) * (r + 1)
}

/// The whole part of the square root of `n`.
pub open spec fn root_of(n: int) -> int {
    choose|r: int| is_root_of(n, r)
}

/// The number of times that `t` can be halved before it is below two.
pub open spec fn halvings(t: int) -> int
    decreases t,
{
    if t < 2 {
        0
    } else {
        1 + halvings(t / 2)
    }
}

/// Two to the power of `e`.
pub open spec fn power_of_two(e: int) -> int
    decreases e,
{
    if e <= 0 {
        1
    } else {
        2 * power_of_two(e - 1)
    }
}

/// What scales a number between one and two to sixty-two binary digits.
pub const UNIT: u128 = 0x4000_0000_0000_0000;

/// The number `y / UNIT`, between one and two, after `steps` squarings,
/// each brought back between one and two by halving where it reaches
/// two.
pub open spec fn reduced(y: int, steps: int) -> int
    decreases steps,
{
    if steps <= 0 {
        y
    } else {
        let before = reduced(y, steps - 1);
        let square = (before * before) / (UNIT as int);
        if square >= 2 * UNIT {
            square / 2
        } else {
            square
        }
    }
}

/// The first `steps` binary digits behind the point of the logarithm to
/// base two of `y / UNIT`, a number between one and two: squaring the
/// number doubles its logarithm, and the next digit is set where the
/// square reaches two.
pub open spec fn log2_digits(y: int, steps: int) -> int
    decreases steps,
{
    if steps <= 0 {
        0
    } else {
        let before = reduced(y, steps - 1);
        log2_digits(y, steps - 1) * 2 + (if (before * before) / (UNIT as int) >= 2 * UNIT {
            1int
        } else {
            0int
        })
    }
}

/// The logarithm to base two of a raw value above zero, in units of
/// `2^-32`.
pub open spec fn log2_of(raw: int) -> int {
    let e = halvings(raw);
    e * 0x1_0000_0000 + log2_digits(raw * power_of_two(62 - e), 32)
}

/// The logarithm to base two of `SCALE`, in units of `2^-32`.
pub const LOG2_SCALE: i128 = 85_605_435_192;

/// The natural logarithm of two, in raw units.
pub const LN_2: i128 = 693_147;

/// The logarithm to base ten of two, in raw units.
pub const LOG10_2: i128 = 301_030;

/// A logarithm of a raw value: the logarithm to base two of the value it
/// stands for, times `factor`. Of a value that is not above zero it is
/// `-LIMIT`.
pub open spec fn logarithm(raw: int, factor: int) -> i64 {
    if raw <= 0 {
        (-LIMIT) as i64
    } else {
        saturated(quotient((log2_of(raw) - LOG2_SCALE) * factor, 0x1_0000_0000))
    }
}

fn saturate(x: i128) -> (r: i64)
    ensures
        r == saturated(x as int),
{
    if x > LIMIT as i128 {
        LIMIT
    } else if x < -(LIMIT as i128) {
        -LIMIT
    } else {
        x as i64
    }
}

fn divide(x: i128, d: i128) -> (r: i64)
    requires
        -0x4000_0000_0000_0000_0000_0000_0000_0000 <= x <= 0x4000_0000_0000_0000_0000_0000_0000_0000,
        -0x4000_0000_0000_0000_0000_0000_0000_0000 <= d <= 0x4000_0000_0000_0000_0000_0000_0000_0000,
    ensures
        r == divided(x as int, d as int),
{
    if d == 0 {
        if x > 0 {
            LIMIT
        } else if x < 0 {
            -LIMIT
        } else {
            0
        }
    } else {
        let size: i128 = if x < 0 {
            -x
        } else {
            x
        };
        let by: i128 = if d < 0 {
            -d
        } else {
            d
        };
        let q: i128 = size / by;
        if (x < 0) == (d < 0) {
            saturate(q)
        } else {
            saturate(-q)
        }
    }
}

proof fn lemma_root_unique(n: int, a: int, b: int)
    requires
        is_root_of(n, a),
        is_root_of(n, b),
    ensures
        a == b,
{
    if a < b {
        assert((a + 1) * (a + 1) <= b * b) by (nonlinear_arith)
            requires
                0 <= a,
                a + 1 <= b,
        ;
    } else if b < a {
        assert((b + 1) * (b + 1) <= a * a) by (nonlinear_arith)
            requires
                0 <= b,
                b + 1 <= a,
        ;
    }
}

/// The whole part of the square root of `n`.
fn whole_root(n: u128) -> (r: u128)
    requires
        n < 0x1_0000_0000_0000_0000_0000_0000,
    ensures
        is_root_of(n as int, r as int),
        r == root_of(n as int),
        r < 0x1_0000_0000_0000,
{
    let mut lo: u128 = 0;
    let mut hi: u128 = 0xffff_ffff_ffff;
    assert((hi + 1) * (hi + 1) > n) by (nonlinear_arith)
        requires
            hi == 0xffff_ffff_ffff,
            n < 0x1_0000_0000_0000_0000_0000_0000,
    ;
    while lo < hi
        invariant
            lo <= hi <= 0xffff_ffff_ffff,
            lo * lo <= n,
            (hi + 1) * (hi + 1) > n,
        decreases hi - lo,
    {
        let mid: u128 = hi - (hi - lo) / 2;
        assert(mid * mid <= 0xffff_ffff_ffff * 0xffff_ffff_ffff) by (nonlinear_arith)
            requires
                mid <= 0xffff_ffff_ffff,
        ;
        if mid * mid <= n {
            lo = mid;
        } else {
            hi = mid - 1;
        }
    }
    proof {
        assert(is_root_of(n as int, lo as int));
        lemma_root_unique(n as int, lo as int, root_of(n as int));
    }
    lo
}

proof fn lemma_halvings(t: int, e: int)
    requires
        1 <= t,
        0 <= e,
        t < power_of_two(e + 1),
    ensures
        0 <= halvings(t) <= e,
        power_of_two(halvings(t)) <= t < power_of_two(halvings(t) + 1),
    decreases t,
{
    if t >= 2 {
        reveal_with_fuel(power_of_two, 2);
        if e == 0 {
            assert(power_of_two(1) == 2);
        } else {
            lemma_halvings(t / 2, e - 1);
        }
    } else {
        reveal_with_fuel(power_of_two, 2);
    }
}

proof fn lemma_halvings_count(t: int)
    ensures
        halvings(t) >= 0,
    decreases t,
{
    if t >= 2 {
        lemma_halvings_count(t / 2);
    }
}

proof fn lemma_power_of_two_adds(a: int, b: int)
    requires
        0 <= a,
        0 <= b,
    ensures
        power_of_two(a + b) == power_of_two(a) * power_of_two(b),
        power_of_two(a) >= 1,
    decreases a,
{
    if a > 0 {
        lemma_power_of_two_adds(a - 1, b);
        assert(2 * (power_of_two(a - 1) * power_of_two(b)) == (2 * power_of_two(a - 1))
            * power_of_two(b)) by (nonlinear_arith);
    } else {
        assert(power_of_two(0) * power_of_two(b) == power_of_two(b)) by (nonlinear_arith)
            requires
                power_of_two(0) == 1,
        ;
    }
}

proof fn lemma_power_of_two_63()
    ensures
        power_of_two(62) == 0x4000_0000_0000_0000,
        power_of_two(63) == 0x8000_0000_0000_0000,
{
    reveal_with_fuel(power_of_two, 9);
    assert(power_of_two(8) == 256);
    lemma_power_of_two_adds(8, 8);
    lemma_power_of_two_adds(16, 16);
    lemma_power_of_two_adds(32, 16);
    lemma_power_of_two_adds(48, 8);
    assert(power_of_two(6) == 64);
    assert(power_of_two(7) == 128);
    lemma_power_of_two_adds(56, 6);
    lemma_power_of_two_adds(56, 7);
}

/// The logarithm to base two of a raw value above zero, in units of
/// `2^-32`.
fn log2(raw: i64) -> (r: i128)
    requires
        raw > 0,
    ensures
        r == log2_of(raw as int),
        0 <= r < 0x40_0000_0000,
{
    let mut whole: u32 = 0;
    let mut t: u128 = raw as u128;
    let mut scale: u128 = UNIT;
    proof {
        lemma_power_of_two_63();
        lemma_halvings(raw as int, 62);
        lemma_halvings_count(raw as int);
    }
    while t >= 2
        invariant
            1 <= t,
            whole + halvings(t as int) == halvings(raw as int),
            0 <= halvings(t as int),
            halvings(raw as int) <= 62,
            scale == power_of_two(62 - whole),
            whole <= 62,
        decreases t,
    {
        proof {
            reveal_with_fuel(power_of_two, 2);
            assert(halvings(t as int) == 1 + halvings(t as int / 2));
            lemma_halvings_count(t as int / 2);
        }
        t = t / 2;
        whole = whole + 1;
        scale = scale / 2;
    }
    proof {
        lemma_halvings(raw as int, 62);
        lemma_power_of_two_adds(whole as int, 62 - whole);
        lemma_power_of_two_adds(62 - whole, 0);
        reveal_with_fuel(power_of_two, 2);
        assert(raw * scale < 0x8000_0000_0000_0000 && raw * scale >= UNIT) by (nonlinear_arith)
            requires
                power_of_two(whole as int) <= raw < power_of_two(whole + 1),
                power_of_two(whole + 1) == 2 * power_of_two(whole as int),
                power_of_two(whole as int) * scale == 0x4000_0000_0000_0000,
                scale >= 1,
                UNIT == 0x4000_0000_0000_0000,
        ;
    }
    let start: u128 = raw as u128 * scale;
    let mut y: u128 = start;
    let mut digits: u64 = 0;
    let mut step: u32 = 0;
    while step < 32
        invariant
            step <= 32,
            UNIT <= y < 2 * UNIT,
            UNIT == 0x4000_0000_0000_0000,
            y == reduced(start as int, step as int),
            digits == log2_digits(start as int, step as int),
            digits < power_of_two(step as int),
            power_of_two(step as int) <= 0x1_0000_0000,
        decreases 32 - step,
    {
        proof {
            assert(y * y < 0x4000_0000_0000_0000_0000_0000_0000_0000int && y * y
                >= 0x1000_0000_0000_0000_0000_0000_0000_0000int) by (nonlinear_arith)
                requires
                    0x4000_0000_0000_0000 <= y < 0x8000_0000_0000_0000,
            ;
            reveal_with_fuel(power_of_two, 2);
            lemma_power_of_two_adds(step as int + 1, 31 - step);
            lemma_power_of_two_adds(16, 16);
            reveal_with_fuel(power_of_two, 17);
            assert(power_of_two(32) == 0x1_0000_0000) by {
                assert(power_of_two(16) == 65536);
            }
            assert(power_of_two(step as int + 1) <= 0x1_0000_0000) by (nonlinear_arith)
                requires
                    power_of_two(step as int + 1) * power_of_two(31 - step) == 0x1_0000_0000,
                    power_of_two(31 - step) >= 1,
                    power_of_two(step as int + 1) >= 1,
            ;
        }
        let square: u128 = (y * y) / UNIT;
        if square >= 2 * UNIT {
            digits = digits * 2 + 1;
            y = square / 2;
        } else {
            digits = digits * 2;
            y = square;
        }
        step = step + 1;
    }
    proof {
        lemma_power_of_two_adds(16, 16);
        reveal_with_fuel(power_of_two, 17);
        assert(power_of_two(16) == 65536);
        assert(whole == halvings(raw as int)) by {
            assert(halvings(t as int) == 0);
        }
    }
    (whole as i128) * 0x1_0000_0000 + digits as i128
}

fn log_times(raw: i64, factor: i128) -> (r: i64)
    requires
        0 < factor < 1_000_000,
    ensures
        r == logarithm(raw as int, factor as int),
{
    if raw <= 0 {
        -LIMIT
    } else {
        let above = log2(raw) - LOG2_SCALE;
        assert(-0x1_0000_0000_0000_0000 < above * factor < 0x1_0000_0000_0000_0000)
            by (nonlinear_arith)
            requires
                -85_605_435_192 <= above < 0x40_0000_0000,
                0 < factor < 1_000_000,
        ;
        divide(above * factor, 0x1_0000_0000)
    }
}

impl Scalar for Fixed {
    open spec fn from_count_spec(n: usize) -> Fixed {
        Fixed { raw: saturated(n * SCALE) }
    }

    open spec fn from_ratio_spec(num: i64, den: i64) -> Fixed {
        Fixed { raw: divided(num * SCALE, den as int) }
    }

    open spec fn epsilon_spec() -> Fixed {
        Fixed { raw: 1 }
    }

    open spec fn infinity_spec() -> Fixed {
        Fixed { raw: LIMIT }
    }

    open spec fn neg_infinity_spec() -> Fixed {
        Fixed { raw: (-LIMIT) as i64 }
    }

    open spec fn lowest_spec() -> Fixed {
        Fixed { raw: (-LIMIT) as i64 }
    }

    open spec fn highest_spec() -> Fixed {
        Fixed { raw: LIMIT }
    }

    open spec fn plus_spec(self, rhs: Fixed) -> Fixed {
        Fixed { raw: saturated(self.raw + rhs.raw) }
    }

    open spec fn minus_spec(self, rhs: Fixed) -> Fixed {
        Fixed { raw: saturated(self.raw - rhs.raw) }
    }

    open spec fn times_spec(self, rhs: Fixed) -> Fixed {
        Fixed { raw: divided(self.raw * rhs.raw, SCALE as int) }
    }

    open spec fn over_spec(self, rhs: Fixed) -> Fixed {
        Fixed { raw: divided(self.raw * SCALE, rhs.raw as int) }
    }

    open spec fn negated_spec(self) -> Fixed {
        Fixed { raw: saturated(-self.raw) }
    }

    open spec fn magnitude_spec(self) -> Fixed {
        Fixed {
            raw: saturated(
                if self.raw < 0 {
                    -self.raw
                } else {
                    self.raw as int
                },
            ),
        }
    }

    open spec fn root_spec(self) -> Fixed {
        Fixed {
            raw: if self.raw <= 0 {
                0
            } else {
                root_of(self.raw * SCALE) as i64
            },
        }
    }

    open spec fn ln_spec(self) -> Fixed {
        Fixed { raw: logarithm(self.raw as int, LN_2 as int) }
    }

    open spec fn log10_spec(self) -> Fixed {
        Fixed { raw: logarithm(self.raw as int, LOG10_2 as int) }
    }

    open spec fn larger_spec(self, rhs: Fixed) -> Fixed {
        if self.raw < rhs.raw {
            rhs
        } else {
            self
        }
    }

    open spec fn smaller_spec(self, rhs: Fixed) -> Fixed {
        if rhs.raw < self.raw {
            rhs
        } else {
            self
        }
    }

    open spec fn below_spec(self, rhs: Fixed) -> bool {
        self.raw < rhs.raw
    }

    open spec fn at_most_spec(self, rhs: Fixed) -> bool {
        self.raw <= rhs.raw
    }

    open spec fn same_spec(self, rhs: Fixed) -> bool {
        self.raw == rhs.raw
    }

    fn from_count(n: usize) -> (r: Fixed) {
        assert(n * SCALE < 0x4000_0000_0000_0000_0000_0000_0000_0000) by (nonlinear_arith)
            requires
                n <= 0xffff_ffff_ffff_ffff,
                SCALE == 1_000_000,
        ;
        Fixed { raw: saturate(n as i128 * SCALE as i128) }
    }

    fn from_ratio(num: i64, den: i64) -> (r: Fixed) {
        assert(-0x4000_0000_0000_0000_0000_0000_0000_0000 < num * SCALE
            < 0x4000_0000_0000_0000_0000_0000_0000_0000) by (nonlinear_arith)
            requires
                -0x8000_0000_0000_0000 <= num <= 0x7fff_ffff_ffff_ffff,
                SCALE == 1_000_000,
        ;
        Fixed { raw: divide(num as i128 * SCALE as i128, den as i128) }
    }

    fn epsilon() -> (r: Fixed) {
        Fixed { raw: 1 }
    }

    fn infinity() -> (r: Fixed) {
        Fixed { raw: LIMIT }
    }

    fn neg_infinity() -> (r: Fixed) {
        Fixed { raw: -LIMIT }
    }

    fn lowest() -> (r: Fixed) {
        Fixed { raw: -LIMIT }
    }

    fn highest() -> (r: Fixed) {
        Fixed { raw: LIMIT }
    }

    fn plus(self, rhs: Fixed) -> (r: Fixed) {
        Fixed { raw: saturate(self.raw as i128 + rhs.raw as i128) }
    }

    fn minus(self, rhs: Fixed) -> (r: Fixed) {
        Fixed { raw: saturate(self.raw as i128 - rhs.raw as i128) }
    }

    fn times(self, rhs: Fixed) -> (r: Fixed) {
        assert(-0x4000_0000_0000_0000_0000_0000_0000_0000 <= self.raw * rhs.raw
            <= 0x4000_0000_0000_0000_0000_0000_0000_0000) by (nonlinear_arith)
            requires
                -0x8000_0000_0000_0000 <= self.raw <= 0x7fff_ffff_ffff_ffff,
                -0x8000_0000_0000_0000 <= rhs.raw <= 0x7fff_ffff_ffff_ffff,
        ;
        Fixed { raw: divide(self.raw as i128 * rhs.raw as i128, SCALE as i128) }
    }

    fn over(self, rhs: Fixed) -> (r: Fixed) {
        assert(-0x4000_0000_0000_0000_0000_0000_0000_0000 < self.raw * SCALE
            < 0x4000_0000_0000_0000_0000_0000_0000_0000) by (nonlinear_arith)
            requires
                -0x8000_0000_0000_0000 <= self.raw <= 0x7fff_ffff_ffff_ffff,
                SCALE == 1_000_000,
        ;
        Fixed { raw: divide(self.raw as i128 * SCALE as i128, rhs.raw as i128) }
    }

    fn negated(self) -> (r: Fixed) {
        Fixed { raw: saturate(-(self.raw as i128)) }
    }

    fn magnitude(self) -> (r: Fixed) {
        if self.raw < 0 {
            Fixed { raw: saturate(-(self.raw as i128)) }
        } else {
            Fixed { raw: self.raw }
        }
    }

    fn root(self) -> (r: Fixed) {
        if self.raw <= 0 {
            Fixed { raw: 0 }
        } else {
            assert(self.raw * SCALE < 0x1_0000_0000_0000_0000_0000_0000) by (nonlinear_arith)
                requires
                    0 < self.raw <= 0x7fff_ffff_ffff_ffff,
                    SCALE == 1_000_000,
            ;
            Fixed { raw: whole_root(self.raw as u128 * SCALE as u128) as i64 }
        }
    }

    fn ln(self) -> (r: Fixed) {
        Fixed { raw: log_times(self.raw, LN_2) }
    }

    fn log10(self) -> (r: Fixed) {
        Fixed { raw: log_times(self.raw, LOG10_2) }
    }

    fn larger(self, rhs: Fixed) -> (r: Fixed) {
        if self.raw < rhs.raw {
            rhs
        } else {
            self
        }
    }

    fn smaller(self, rhs: Fixed) -> (r: Fixed) {
        if rhs.raw < self.raw {
            rhs
        } else {
            self
        }
    }

    fn below(self, rhs: Fixed) -> (r: bool) {
        self.raw < rhs.raw
    }

    fn at_most(self, rhs: Fixed) -> (r: bool) {
        self.raw <= rhs.raw
    }

    fn same(self, rhs: Fixed) -> (r: bool) {
        self.raw == rhs.raw
    }
}

} // verus!
