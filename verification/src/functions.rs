//! Functions: arguments passed by mutable reference, closures that capture
//! their surroundings, and functions that make or take other functions.

use vstd::prelude::*;

verus! {

/// Adds one to the integer behind the reference.
pub fn increase(x: &mut i32)
    requires
        *old(x) < i32::MAX,
    ensures
        *final(x) == *old(x) + 1,
{
    *x += 1;
}

/// Adds `a` to `x`: what a closure that has captured `a` does with its
/// argument.
pub fn plus_a(a: i32, x: i32) -> (z: i32)
    requires
        i32::MIN <= x + a <= i32::MAX,
    ensures
        z == x + a,
{
    let mut z = x;
    z += a;
    z
}

/// Whether `x` has reached `limit`: what a closure that has captured `limit`
/// tells of its argument.
pub fn greater_than(limit: i32, x: i32) -> (reached: bool)
    ensures
        reached == (x >= limit),
{
    x >= limit
}

/// Whether a number is divisible by two.
pub fn is_even(x: i32) -> (even: bool)
    ensures
        even == (x % 2 == 0),
{
    x % 2 == 0
}

/// The sum of the even squares below `limit`, over the numbers from `i` on.
pub open spec fn even_square_sum(i: nat, limit: int) -> int
    decreases limit - i,
{
    if i * i < limit {
        proof {
            assert(i <= i * i) by (nonlinear_arith);
        }
        let term = if (i * i) % 2 == 0 {
            i * i
        } else {
            0
        };
        term + even_square_sum(i + 1, limit)
    } else {
        0
    }
}

/// The largest number whose square fits an `i32`.
pub const LARGEST_ROOT: i32 = 46340;

/// No term of the sum is negative, so neither is the sum.
pub proof fn lemma_even_square_sum_nonnegative(i: nat, limit: int)
    ensures
        even_square_sum(i, limit) >= 0,
    decreases limit - i,
{
    if i * i < limit {
        assert(i <= i * i) by (nonlinear_arith);
        lemma_even_square_sum_nonnegative(i + 1, limit);
    }
}

/// The sum from `i` on holds the term for any later `j` whose square is
/// below the limit, and on top of it all that comes after `j`.
proof fn lemma_even_square_sum_holds_term(i: nat, j: nat, limit: int)
    requires
        i <= j,
        j * j < limit,
    ensures
        even_square_sum(i, limit) >= (if (j * j) % 2 == 0 {
            j * j
        } else {
            0
        }) + even_square_sum(j + 1, limit),
    decreases j - i,
{
    if i < j {
        assert(i * i <= j * j) by (nonlinear_arith)
            requires
                i <= j,
        ;
        lemma_even_square_sum_holds_term(i + 1, j, limit);
    }
}

/// A sum that fits an `i32` has a limit of at most the square of
/// `LARGEST_ROOT`: beyond that limit the two largest even squares that fit
/// are both below it, and together they do not fit.
pub proof fn lemma_fitting_sum_bounds_limit(limit: int)
    requires
        even_square_sum(0, limit) <= i32::MAX,
    ensures
        limit <= LARGEST_ROOT * LARGEST_ROOT,
{
    if limit > LARGEST_ROOT * LARGEST_ROOT {
        lemma_even_square_sum_holds_term(0, 46338, limit);
        lemma_even_square_sum_holds_term(46339, 46340, limit);
        lemma_even_square_sum_nonnegative(46341, limit);
    }
}

/// Up to a limit of one million fewer than a thousand squares lie below the
/// limit, and each is smaller than the limit.
proof fn lemma_even_square_sum_bound(i: nat, limit: int)
    requires
        limit <= 1_000_000,
    ensures
        even_square_sum(i, limit) <= if i < 1000 {
            (1000 - i) * 1_000_000
        } else {
            0
        },
    decreases limit - i,
{
    if i * i < limit {
        assert(i <= i * i) by (nonlinear_arith);
        assert(i < 1000) by (nonlinear_arith)
            requires
                i * i < 1_000_000,
        ;
        lemma_even_square_sum_bound(i + 1, limit);
    }
}

/// Up to a limit of one million the sum of the even squares below the limit
/// fits an `i32`.
pub proof fn lemma_even_square_sum_fits(limit: int)
    requires
        limit <= 1_000_000,
    ensures
        even_square_sum(0, limit) <= i32::MAX,
{
    lemma_even_square_sum_bound(0, limit);
}

/// Adds up the even squares below `limit`: the squares of 0, 1, 2 and so on
/// are tried in turn until one reaches the limit.
pub fn sum_even_squares_below(limit: i32) -> (sum: i32)
    requires
        even_square_sum(0, limit as int) <= i32::MAX,
    ensures
        sum == even_square_sum(0, limit as int),
{
    proof {
        lemma_fitting_sum_bounds_limit(limit as int);
    }
    let mut sum: i32 = 0;
    let mut i: i32 = 0;
    loop
        invariant
            0 <= i <= LARGEST_ROOT,
            limit <= LARGEST_ROOT * LARGEST_ROOT,
            even_square_sum(0, limit as int) <= i32::MAX,
            0 <= sum,
            sum + even_square_sum(i as nat, limit as int) == even_square_sum(0, limit as int),
        ensures
            sum == even_square_sum(0, limit as int),
        decreases LARGEST_ROOT - i,
    {
        assert(0 <= i * i <= LARGEST_ROOT * LARGEST_ROOT) by (nonlinear_arith)
            requires
                0 <= i <= LARGEST_ROOT,
        ;
        let isq = i * i;
        if greater_than(limit, isq) {
            break ;
        } else if is_even(isq) {
            proof {
                lemma_even_square_sum_nonnegative((i + 1) as nat, limit as int);
            }
            sum += isq
        }
        assert(i < LARGEST_ROOT) by (nonlinear_arith)
            requires
                0 <= i <= LARGEST_ROOT,
                i * i < LARGEST_ROOT * LARGEST_ROOT,
        ;
        i += 1;
    }
    sum
}

} // verus!
