//! Arithmetic shared with the Java side of the engine.
use vstd::prelude::*;

verus! {

/// Version of the native interface; the Java side checks it before any call.
pub const ABI_VERSION: i32 = 1;

/// `x` clamped to the range of `i32`.
pub open spec fn clamp_i32(x: int) -> i32 {
    if x > i32::MAX {
        i32::MAX
    } else if x < i32::MIN {
        i32::MIN
    } else {
        x as i32
    }
}

/// Adding up `s` from the left, each step saturating at the bounds of `i32`.
pub open spec fn saturating_sum(s: Seq<i32>) -> i32
    decreases s.len(),
{
    if s.len() == 0 {
        0
    } else {
        clamp_i32(saturating_sum(s.drop_last()) + s.last())
    }
}

/// The exact sum of `s`.
pub open spec fn exact_sum(s: Seq<i32>) -> int
    decreases s.len(),
{
    if s.len() == 0 {
        0
    } else {
        exact_sum(s.drop_last()) + s.last()
    }
}

/// Saturating addition of two `i32`.
fn saturating_add_i32(a: i32, b: i32) -> (r: i32)
    ensures
        r == clamp_i32(a + b),
{
    let s = a as i64 + b as i64;
    if s > i32::MAX as i64 {
        i32::MAX
    } else if s < i32::MIN as i64 {
        i32::MIN
    } else {
        s as i32
    }
}

/// Adds up `values` from the left with the same saturation as the Java energy
/// network: each partial sum is clamped to the range of `i32`.
pub fn sum_saturating(values: &[i32]) -> (s: i32)
    ensures
        s == saturating_sum(values@),
{
    let mut acc: i32 = 0;
    let n = values.len();
    let mut i: usize = 0;
    while i < n
        invariant
            n == values@.len(),
            i <= n,
            acc == saturating_sum(values@.take(i as int)),
        decreases n - i,
    {
        proof {
            assert(values@.take(i + 1).drop_last() =~= values@.take(i as int));
        }
        acc = saturating_add_i32(acc, values[i]);
        i += 1;
    }
    proof {
        assert(values@.take(n as int) =~= values@);
    }
    acc
}

/// As long as no partial sum leaves the range of `i32`, saturation never kicks in
/// and the result is the exact sum.
pub proof fn lemma_saturating_sum_is_exact_in_range(s: Seq<i32>)
    requires
        forall|i: int| 0 <= i <= s.len() ==> i32::MIN <= #[trigger] exact_sum(s.take(i)) <= i32::MAX,
    ensures
        saturating_sum(s) == exact_sum(s),
    decreases s.len(),
{
    if s.len() > 0 {
        let p = s.drop_last();
        assert forall|i: int| 0 <= i <= p.len() implies i32::MIN <= #[trigger] exact_sum(p.take(i)) <= i32::MAX by {
            assert(p.take(i) =~= s.take(i));
        }
        lemma_saturating_sum_is_exact_in_range(p);
        assert(s.take(s.len() as int) =~= s);
    }
}

} // verus!
