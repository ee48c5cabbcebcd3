//! Control flow: branching on a condition, looping while a condition holds
//! or until one is met, counting through a range, and matching on a value.

use vstd::arithmetic::power2::lemma_pow2_pos;
use vstd::arithmetic::power2::lemma_pow2_strictly_increases;
use vstd::arithmetic::power2::lemma_pow2_unfold;
use vstd::arithmetic::power2::lemma2_to64;
use vstd::arithmetic::power2::pow2;
use vstd::prelude::*;

verus! {

/// The weather in one word: hot above 30 degrees, cold below 10, nice between.
pub open spec fn weather_word(temp: int) -> Seq<char> {
    if temp > 30 {
        "hot"@
    } else if temp < 10 {
        "cold"@
    } else {
        "nice"@
    }
}

/// The weather in finer steps: freezing and scorching days are told apart
/// from merely cold and hot ones, and a day counts as hot above 20 degrees.
pub open spec fn weather_phrase(temp: int) -> Seq<char> {
    if temp < 0 {
        "super cold!"@
    } else if temp < 10 {
        "cold"@
    } else if temp > 30 {
        "super hot!"@
    } else if temp > 20 {
        "hot"@
    } else {
        "nice"@
    }
}

/// Says in one word what the weather is like at `temp` degrees.
pub fn weather(temp: i32) -> (word: &'static str)
    ensures
        word@ == weather_word(temp as int),
{
    if temp > 30 {
        "hot"
    } else if temp < 10 {
        "cold"
    } else {
        "nice"
    }
}

/// Says what the weather is like at `temp` degrees, in finer steps.
pub fn weather_in_detail(temp: i32) -> (phrase: &'static str)
    ensures
        phrase@ == weather_phrase(temp as int),
{
    if temp < 10 {
        if temp < 0 {
            "super cold!"
        } else {
            "cold"
        }
    } else if temp > 20 {
        if temp > 30 {
            "super hot!"
        } else {
            "hot"
        }
    } else {
        "nice"
    }
}

/// The largest bound for which doubling a number below it stays in range.
pub const DOUBLING_LIMIT: i32 = 0x4000_0000;

/// The numbers met when `x` is doubled for as long as it is below `bound`,
/// each taken after the doubling, with `skipped` left out.
pub open spec fn doubling_run(x: int, bound: int, skipped: int) -> Seq<i32>
    decreases
        if x < bound {
            bound - x
        } else {
            0
        },
{
    if 1 <= x < bound {
        let head = if 2 * x == skipped {
            Seq::<i32>::empty()
        } else {
            seq![(2 * x) as i32]
        };
        head + doubling_run(2 * x, bound, skipped)
    } else {
        Seq::<i32>::empty()
    }
}

/// The powers of two with the exponents `from + 1` to `to`, in rising order.
pub open spec fn powers_of_two(from: nat, to: nat) -> Seq<i32> {
    Seq::new((to - from) as nat, |k: int| pow2((from + 1 + k) as nat) as i32)
}

/// The test that lets every number but `skipped` pass.
pub open spec fn is_not(skipped: int) -> spec_fn(i32) -> bool {
    |v: i32| v as int != skipped
}

/// Doubling a power of two for as long as it is below `bound` meets the
/// powers of two that follow it, up to the first one that reaches `bound`,
/// and each of them once; `skipped` alone is left out. Here `to` is the
/// exponent of that first power of two.
pub proof fn lemma_doubling_run_meets_powers_of_two(from: nat, to: nat, bound: int, skipped: int)
    requires
        from <= to <= 30,
        bound <= pow2(to),
        to > 0 ==> pow2((to - 1) as nat) < bound,
    ensures
        doubling_run(pow2(from) as int, bound, skipped) == powers_of_two(from, to).filter(
            is_not(skipped),
        ),
    decreases to - from,
{
    lemma_pow2_pos(from);
    if from == to {
        assert(powers_of_two(from, to) =~= Seq::<i32>::empty());
        reveal(Seq::filter);
    } else {
        if from < to - 1 {
            lemma_pow2_strictly_increases(from, (to - 1) as nat);
        }
        lemma_pow2_unfold(from + 1);
        lemma_doubling_run_meets_powers_of_two(from + 1, to, bound, skipped);
        let first = pow2(from + 1);
        assert(first < 0x8000_0000) by {
            lemma2_to64();
            lemma_pow2_strictly_increases(from + 1, 31);
        }
        let rest = powers_of_two(from + 1, to);
        assert(powers_of_two(from, to) =~= seq![first as i32] + rest);
        rest.lemma_filter_prepend(first as i32, is_not(skipped));
    }
}

/// Doubles 1 for as long as it is below `bound` and collects the number
/// reached by each doubling, except `skipped`.
pub fn doubles_below(bound: i32, skipped: i32) -> (seen: Vec<i32>)
    requires
        bound <= DOUBLING_LIMIT,
    ensures
        seen@ == doubling_run(1, bound as int, skipped as int),
{
    let mut seen: Vec<i32> = Vec::new();
    let mut x: i32 = 1;
    while x < bound
        invariant
            1 <= x,
            bound <= DOUBLING_LIMIT,
            seen@ + doubling_run(x as int, bound as int, skipped as int) == doubling_run(
                1,
                bound as int,
                skipped as int,
            ),
        decreases
            if x < bound {
                bound - x
            } else {
                0
            },
    {
        x *= 2;
        if x == skipped {
            continue ;
        }
        seen.push(x);
    }
    seen
}

/// Doubles 1 until it equals `target` and collects the number reached by each
/// doubling: the powers of two from 2 up to `target`.
pub fn doubles_until(target: i32) -> (seen: Vec<i32>)
    requires
        exists|k: nat| 1 <= k <= 30 && target == pow2(k),
    ensures
        seen@.len() >= 1,
        forall|i: int| 0 <= i < seen@.len() ==> seen@[i] == pow2((i + 1) as nat),
        seen@.last() == target,
{
    let ghost k = choose|k: nat| 1 <= k <= 30 && target == pow2(k);
    let mut seen: Vec<i32> = Vec::new();
    let mut y: i32 = 1;
    proof {
        lemma2_to64();
    }
    loop
        invariant_except_break
            seen@.len() < k,
            y == pow2(seen@.len()),
        invariant
            1 <= k <= 30,
            target == pow2(k),
            forall|i: int| 0 <= i < seen@.len() ==> seen@[i] == pow2((i + 1) as nat),
        ensures
            seen@.len() >= 1,
            seen@.last() == target,
        decreases k - seen@.len(),
    {
        proof {
            let n = seen@.len();
            lemma_pow2_unfold(n + 1);
            if n + 1 < k {
                lemma_pow2_strictly_increases(n + 1, k);
            }
        }
        y *= 2;
        seen.push(y);
        if y == target {
            break ;
        }
    }
    seen
}

/// Doubles 1 `times` times over.
pub fn double_times(times: u32) -> (y: i32)
    requires
        times <= 30,
    ensures
        y == pow2(times as nat),
{
    let mut y: i32 = 1;
    proof {
        lemma2_to64();
    }
    for x in 0..times
        invariant
            times <= 30,
            y == pow2(x as nat),
    {
        proof {
            lemma2_to64();
            lemma_pow2_unfold((x + 1) as nat);
            lemma_pow2_strictly_increases((x + 1) as nat, 31);
        }
        y *= 2;
    }
    y
}

/// Numbers the integers from `start` up to, but not including, `end`: each
/// comes with its position, counted from zero.
pub fn enumerate_range(start: i32, end: i32) -> (pairs: Vec<(usize, i32)>)
    ensures
        pairs@.len() == if start < end {
            end - start
        } else {
            0
        },
        forall|i: int| 0 <= i < pairs@.len() ==> pairs@[i] == (i as usize, (start + i) as i32),
{
    let mut pairs: Vec<(usize, i32)> = Vec::new();
    let mut i: usize = 0;
    let mut x: i32 = start;
    while x < end
        invariant
            start <= x,
            start < end ==> x <= end,
            start >= end ==> x == start,
            i == x - start,
            pairs@.len() == i,
            forall|j: int| 0 <= j < pairs@.len() ==> pairs@[j] == (j as usize, (start + j) as i32),
        decreases end - x,
    {
        pairs.push((i, x));
        i += 1;
        x += 1;
    }
    pairs
}

/// The country that a calling code belongs to: four codes are known by
/// name, every other code from 1 to 999 is unknown, and the rest are invalid.
pub open spec fn country_of(code: int) -> Seq<char> {
    if code == 44 {
        "UK"@
    } else if code == 46 {
        "Sweden"@
    } else if code == 7 {
        "Russia"@
    } else if code == 1 {
        "USA"@
    } else if 1 <= code <= 999 {
        "unknown"@
    } else {
        "invalid"@
    }
}

/// Names the country with the calling code `country_code`.
pub fn country(country_code: i32) -> (name: &'static str)
    ensures
        name@ == country_of(country_code as int),
{
    match country_code {
        44 => "UK",
        46 => "Sweden",
        7 => "Russia",
        1 => "USA",
        1..=999 => "unknown",
        _ => "invalid",
    }
}

} // verus!
