//! Types and variables: the width of the machine word and arithmetic on the
//! fixed-width integers.

use vstd::arithmetic::power::pow;
use vstd::layout::layout_of_primitives;
use vstd::prelude::*;

verus! {

/// The width of the machine word in bits: eight for each byte that an
/// `isize` takes up.
pub fn word_bits() -> (bits: usize)
    ensures
        bits == usize::BITS,
{
    broadcast use layout_of_primitives;

    8 * core::mem::size_of::<isize>()
}

/// Every power of minus one is one or minus one.
proof fn lemma_pow_of_minus_one(e: nat)
    ensures
        pow(-1, e) == 1 || pow(-1, e) == -1,
    decreases e,
{
    reveal(pow);
    if e > 0 {
        lemma_pow_of_minus_one((e - 1) as nat);
    }
}

/// Where a power of a nonzero base fits an `i32`, so does every earlier power
/// of it.
proof fn lemma_earlier_power_fits(b: int, e: nat, f: nat)
    requires
        b != 0,
        e <= f,
        i32::MIN <= pow(b, f) <= i32::MAX,
    ensures
        i32::MIN <= pow(b, e) <= i32::MAX,
    decreases f - e,
{
    if e < f {
        let p = pow(b, (f - 1) as nat);
        assert(pow(b, f) == b * p) by {
            reveal(pow);
        }
        assert(-0x8000_0000 <= p <= 0x8000_0000 && (p == 0x8000_0000 ==> b == -1))
            by (nonlinear_arith)
            requires
                b != 0,
                -0x8000_0000 <= b * p <= 0x7fff_ffff,
        ;
        if b == -1 {
            lemma_pow_of_minus_one((f - 1) as nat);
        }
        lemma_earlier_power_fits(b, e, (f - 1) as nat);
    }
}

/// Raises `base` to the power `exp` by repeated multiplication.
pub fn power(base: i32, exp: u32) -> (r: i32)
    requires
        i32::MIN <= pow(base as int, exp as nat) <= i32::MAX,
    ensures
        r == pow(base as int, exp as nat),
{
    let mut r: i32 = 1;
    let mut e: u32 = 0;
    proof {
        reveal(pow);
    }
    while e < exp
        invariant
            e <= exp,
            r == pow(base as int, e as nat),
            i32::MIN <= pow(base as int, exp as nat) <= i32::MAX,
        decreases exp - e,
    {
        proof {
            let next = pow(base as int, (e + 1) as nat);
            assert(next == base * pow(base as int, e as nat)) by {
                reveal(pow);
            }
            assert(r * base == base * r) by (nonlinear_arith);
            if base != 0 {
                lemma_earlier_power_fits(base as int, (e + 1) as nat, exp as nat);
            } else {
                assert(base * pow(base as int, e as nat) == 0) by (nonlinear_arith)
                    requires
                        base == 0,
                ;
            }
        }
        r = r * base;
        e += 1;
    }
    r
}

} // verus!
