//! The spread of inter-action intervals: whether their population variance
//! is below 100 ms² (too regular) or above 100000 ms² (too erratic).
//!
//! The variance of `n` intervals is `(n * Σx² - (Σx)²) / n²`. The rules only
//! compare it with whole bounds, so everything is stated and computed on
//! `n * Σx² - (Σx)²`, without a division.

use vstd::prelude::*;

verus! {

/// A variance below this bound, in ms², marks intervals as too regular.
pub const REGULAR_VARIANCE_BOUND: u64 = 100;

/// A variance above this bound, in ms², marks intervals as too erratic.
pub const ERRATIC_VARIANCE_BOUND: u64 = 100000;

/// How widely a series of intervals is spread.
#[derive(Clone, Copy, PartialEq, Eq, Debug)]
pub enum Spread {
    /// The variance is below [`REGULAR_VARIANCE_BOUND`].
    Regular,
    /// The variance is within both bounds.
    Natural,
    /// The variance is above [`ERRATIC_VARIANCE_BOUND`].
    Erratic,
}

/// The sum of `xs`.
pub open spec fn sum(xs: Seq<i64>) -> int
    decreases xs.len(),
{
    if xs.len() == 0 {
        0
    } else {
        sum(xs.drop_last()) + xs.last()
    }
}

/// The sum of the squares of `xs`.
pub open spec fn sum_squares(xs: Seq<i64>) -> int
    decreases xs.len(),
{
    if xs.len() == 0 {
        0
    } else {
        sum_squares(xs.drop_last()) + xs.last() * xs.last()
    }
}

/// The population variance of `xs` times the square of its length.
pub open spec fn scaled_variance(xs: Seq<i64>) -> int {
    xs.len() * sum_squares(xs) - sum(xs) * sum(xs)
}

/// The population variance of `xs` is less than `bound`.
pub open spec fn variance_below(xs: Seq<i64>, bound: int) -> bool {
    scaled_variance(xs) < bound * (xs.len() * xs.len())
}

/// The population variance of `xs` is more than `bound`.
pub open spec fn variance_above(xs: Seq<i64>, bound: int) -> bool {
    scaled_variance(xs) > bound * (xs.len() * xs.len())
}

/// The spread of `xs`.
pub open spec fn spread_of(xs: Seq<i64>) -> Spread {
    if variance_below(xs, REGULAR_VARIANCE_BOUND as int) {
        Spread::Regular
    } else if variance_above(xs, ERRATIC_VARIANCE_BOUND as int) {
        Spread::Erratic
    } else {
        Spread::Natural
    }
}

/// The sum of the distances of `xs` from `q`.
spec fn dev_sum(xs: Seq<i64>, q: int) -> int
    decreases xs.len(),
{
    if xs.len() == 0 {
        0
    } else {
        dev_sum(xs.drop_last(), q) + (xs.last() - q)
    }
}

/// The sum of the squared distances of `xs` from `q`.
spec fn dev_squares(xs: Seq<i64>, q: int) -> int
    decreases xs.len(),
{
    if xs.len() == 0 {
        0
    } else {
        dev_squares(xs.drop_last(), q) + (xs.last() - q) * (xs.last() - q)
    }
}

proof fn lemma_square_expand(x: int, q: int)
    ensures
        (x - q) * (x - q) == x * x - 2 * q * x + q * q,
{
    assert((x - q) * (x - q) == x * x - 2 * q * x + q * q) by (nonlinear_arith);
}

/// Distances from `q` in terms of the plain sums.
proof fn lemma_shift(xs: Seq<i64>, q: int)
    ensures
        dev_sum(xs, q) == sum(xs) - xs.len() * q,
        dev_squares(xs, q) == sum_squares(xs) - 2 * q * sum(xs) + xs.len() * (q * q),
    decreases xs.len(),
{
    if xs.len() > 0 {
        let init = xs.drop_last();
        let x = xs.last() as int;
        lemma_shift(init, q);
        lemma_square_expand(x, q);
        assert(xs.len() * q == init.len() * q + q) by (nonlinear_arith)
            requires
                xs.len() == init.len() + 1,
        ;
        assert(xs.len() * (q * q) == init.len() * (q * q) + q * q) by (nonlinear_arith)
            requires
                xs.len() == init.len() + 1,
        ;
        assert(2 * q * sum(xs) == 2 * q * sum(init) + 2 * q * x) by (nonlinear_arith)
            requires
                sum(xs) == sum(init) + x,
        ;
    }
}

/// The scaled variance does not change when every value is moved by `q`.
proof fn lemma_variance_shift(xs: Seq<i64>, q: int)
    ensures
        xs.len() * dev_squares(xs, q) - dev_sum(xs, q) * dev_sum(xs, q) == scaled_variance(xs),
{
    lemma_shift(xs, q);
    let n = xs.len() as int;
    let s = sum(xs);
    let t = sum_squares(xs);
    assert(n * (t - 2 * q * s + n * (q * q)) - (s - n * q) * (s - n * q) == n * t - s * s)
        by (nonlinear_arith);
}

/// A squared distance is never negative, so the sum over a prefix is at
/// most the sum over the whole.
proof fn lemma_dev_squares_prefix(xs: Seq<i64>, q: int, k: int)
    requires
        0 <= k <= xs.len(),
    ensures
        0 <= dev_squares(xs.take(k), q) <= dev_squares(xs, q),
    decreases xs.len() - k,
{
    if k == xs.len() {
        assert(xs.take(k) =~= xs);
        lemma_dev_squares_nonnegative(xs, q);
    } else {
        lemma_dev_squares_prefix(xs, q, k + 1);
        let d = xs[k] - q;
        assert(xs.take(k + 1).drop_last() =~= xs.take(k));
        assert(d * d >= 0) by (nonlinear_arith);
        lemma_dev_squares_nonnegative(xs.take(k), q);
    }
}

proof fn lemma_dev_squares_nonnegative(xs: Seq<i64>, q: int)
    ensures
        0 <= dev_squares(xs, q),
    decreases xs.len(),
{
    if xs.len() > 0 {
        lemma_dev_squares_nonnegative(xs.drop_last(), q);
        let d = xs.last() - q;
        assert(d * d >= 0) by (nonlinear_arith);
    }
}

/// With a sum of squared distances of at least `100001 * n` and a sum of
/// distances below `n`, the variance is above the erratic bound.
proof fn lemma_large_squares_erratic(xs: Seq<i64>, q: int)
    requires
        xs.len() > 0,
        0 <= dev_sum(xs, q) < xs.len(),
        dev_squares(xs, q) >= 100001 * xs.len(),
    ensures
        spread_of(xs) == Spread::Erratic,
{
    lemma_variance_shift(xs, q);
    let n = xs.len() as int;
    let r = dev_sum(xs, q);
    let d2 = dev_squares(xs, q);
    assert(n * d2 - r * r > 100000 * (n * n) && n * d2 - r * r >= 100 * (n * n))
        by (nonlinear_arith)
        requires
            n > 0,
            0 <= r < n,
            d2 >= 100001 * n,
    ;
}

/// Compares the scaled variance `n * d2 - r * r` with `bound * n * n`.
/// Returns -1, 0 or 1 as it is smaller, equal or larger.
fn compare_scaled(n: u128, d2: u128, r: u128, bound: u128) -> (sign: i8)
    requires
        0 < n <= 0xffff_ffff_ffff_ffff,
        r < n,
        d2 < 100001 * n,
        bound <= 100000,
    ensures
        sign == -1 <==> n * d2 - r * r < bound * (n * n),
        sign == 0 <==> n * d2 - r * r == bound * (n * n),
        sign == 1 <==> n * d2 - r * r > bound * (n * n),
        -1 <= sign <= 1,
{
    assert(bound * n <= 100000 * 0xffff_ffff_ffff_ffff) by (nonlinear_arith)
        requires
            bound <= 100000,
            n <= 0xffff_ffff_ffff_ffff,
    ;
    let scaled_bound: u128 = bound * n;
    assert(r * r < n * n && n * n <= 0xffff_ffff_ffff_ffff * 0xffff_ffff_ffff_ffff)
        by (nonlinear_arith)
        requires
            r < n,
            0 < n <= 0xffff_ffff_ffff_ffff,
    ;
    let r2: u128 = r * r;
    if d2 < scaled_bound {
        // n * (d2 - bound * n) <= -n < 0 <= r * r
        assert(n * d2 - r * r < bound * (n * n)) by (nonlinear_arith)
            requires
                d2 < scaled_bound,
                scaled_bound == bound * n,
                n > 0,
                r2 == r * r,
        ;
        -1
    } else {
        let excess: u128 = d2 - scaled_bound;
        if excess >= n {
            assert(n * d2 - r * r > bound * (n * n)) by (nonlinear_arith)
                requires
                    d2 - bound * n >= n,
                    n > 0,
                    0 <= r < n,
            ;
            1
        } else {
            assert(n * excess < n * n) by (nonlinear_arith)
                requires
                    excess < n,
                    n > 0,
            ;
            let lhs: u128 = n * excess;
            assert(n * d2 - bound * (n * n) == lhs) by (nonlinear_arith)
                requires
                    lhs == n * excess,
                    excess == d2 - bound * n,
            ;
            if lhs < r2 {
                -1
            } else if lhs == r2 {
                0
            } else {
                1
            }
        }
    }
}

/// Classifies the spread of `xs`. A series without values is natural.
pub fn classify_spread(xs: &[i64]) -> (spread: Spread)
    ensures
        spread == spread_of(xs@),
{
    let len: usize = xs.len();
    if len == 0 {
        return Spread::Natural;
    }
    let n: u128 = len as u128;
    // The sum of all values.
    let mut total: i128 = 0;
    let mut i: usize = 0;
    while i < len
        invariant
            i <= len == xs@.len(),
            total == sum(xs@.take(i as int)),
            -(i * 0x8000_0000_0000_0000) <= total <= i * 0x8000_0000_0000_0000,
        decreases len - i,
    {
        proof {
            assert(xs@.take(i + 1).drop_last() =~= xs@.take(i as int));
            assert((i + 1) * 0x8000_0000_0000_0000 == i * 0x8000_0000_0000_0000
                + 0x8000_0000_0000_0000 && (i + 1) * 0x8000_0000_0000_0000
                <= 0xffff_ffff_ffff_ffff * 0x8000_0000_0000_0000) by (nonlinear_arith)
                requires
                    0 <= i,
                    i + 1 <= 0xffff_ffff_ffff_ffff,
            ;
        }
        total = total + xs[i] as i128;
        i = i + 1;
    }
    assert(xs@.take(len as int) =~= xs@);
    // The mean, rounded down, and what is left: total == q * n + r.
    let q: i128;
    let r: u128;
    assert(n * 0x8000_0000_0000_0000 <= 0xffff_ffff_ffff_ffff * 0x8000_0000_0000_0000)
        by (nonlinear_arith)
        requires
            n <= 0xffff_ffff_ffff_ffff,
    ;
    if total >= 0 {
        let t: u128 = total as u128;
        let whole: u128 = t / n;
        r = t % n;
        assert(t == whole * n + r && whole <= 0x8000_0000_0000_0000) by (nonlinear_arith)
            requires
                whole == t / n,
                r == t % n,
                n > 0,
                t <= n * 0x8000_0000_0000_0000,
        ;
        q = whole as i128;
    } else {
        let m: u128 = (-total) as u128;
        let whole: u128 = m / n;
        let rest: u128 = m % n;
        assert(m == whole * n + rest && whole <= 0x8000_0000_0000_0000 && (rest > 0 ==> whole
            < 0x8000_0000_0000_0000)) by (nonlinear_arith)
            requires
                whole == m / n,
                rest == m % n,
                n > 0,
                m <= n * 0x8000_0000_0000_0000,
        ;
        if rest == 0 {
            q = -(whole as i128);
            r = 0;
        } else {
            q = -(whole as i128) - 1;
            r = n - rest;
        }
        assert(total == q * n + r) by (nonlinear_arith)
            requires
                m == whole * n + rest,
                total == -m,
                rest == 0 ==> q == -whole && r == 0,
                rest != 0 ==> q == -whole - 1 && r == n - rest,
        ;
    }
    proof {
        lemma_shift(xs@, q as int);
        assert(n * q == q * n) by (nonlinear_arith);
    }
    // The sum of the squared distances from q, given up as soon as it shows
    // that the variance is above the erratic bound.
    assert(100001 * n <= 100001 * 0xffff_ffff_ffff_ffff) by (nonlinear_arith)
        requires
            n <= 0xffff_ffff_ffff_ffff,
    ;
    let limit: u128 = 100001 * n;
    let mut squares: u128 = 0;
    let mut k: usize = 0;
    while k < len
        invariant
            k <= len == xs@.len(),
            n == len,
            limit == 100001 * n,
            limit <= 100001 * 0xffff_ffff_ffff_ffff,
            -0x8000_0000_0000_0000 <= q <= 0x8000_0000_0000_0000,
            0 <= dev_sum(xs@, q as int) < n,
            squares == dev_squares(xs@.take(k as int), q as int),
            squares < limit,
        decreases len - k,
    {
        let d: i128 = xs[k] as i128 - q;
        let distance: u128 = if d < 0 {
            (-d) as u128
        } else {
            d as u128
        };
        proof {
            assert(xs@.take(k + 1).drop_last() =~= xs@.take(k as int));
            assert(distance * distance == d * d) by (nonlinear_arith)
                requires
                    distance == d || distance == -d,
            ;
            lemma_dev_squares_prefix(xs@, q as int, k + 1);
        }
        if distance >= 0x200_0000_0000 {
            proof {
                assert(distance * distance >= 0x200_0000_0000 * 0x200_0000_0000)
                    by (nonlinear_arith)
                    requires
                        distance >= 0x200_0000_0000,
                ;
                lemma_dev_squares_nonnegative(xs@.take(k as int), q as int);
                lemma_large_squares_erratic(xs@, q as int);
            }
            return Spread::Erratic;
        }
        assert(distance * distance <= 0x200_0000_0000 * 0x200_0000_0000) by (nonlinear_arith)
            requires
                distance < 0x200_0000_0000,
        ;
        squares = squares + distance * distance;
        if squares >= limit {
            proof {
                lemma_large_squares_erratic(xs@, q as int);
            }
            return Spread::Erratic;
        }
        k = k + 1;
    }
    proof {
        lemma_variance_shift(xs@, q as int);
    }
    if compare_scaled(n, squares, r, REGULAR_VARIANCE_BOUND as u128) < 0 {
        Spread::Regular
    } else if compare_scaled(n, squares, r, ERRATIC_VARIANCE_BOUND as u128) > 0 {
        Spread::Erratic
    } else {
        Spread::Natural
    }
}

} // verus!
