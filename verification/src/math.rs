//! Shared specification arithmetic: sums over sequences, the clamped
//! minimum, and the small division facts the settlement formulas rest on.

use vstd::prelude::*;
use vstd::arithmetic::div_mod::lemma_fundamental_div_mod;

verus! {

/// Mathematical sum of a sequence of unsigned amounts.
pub open spec fn sum_u64(s: Seq<u64>) -> int
    decreases s.len(),
{
    if s.len() == 0 {
        0
    } else {
        sum_u64(s.drop_last()) + s.last()
    }
}

/// Mathematical sum of a sequence of integers.
pub open spec fn sum_int(s: Seq<int>) -> int
    decreases s.len(),
{
    if s.len() == 0 {
        0
    } else {
        sum_int(s.drop_last()) + s.last()
    }
}

/// The smaller of two integers.
pub open spec fn min_int(a: int, b: int) -> int {
    if a < b {
        a
    } else {
        b
    }
}

/// Extending a prefix by one element adds that element to its sum.
pub proof fn lemma_sum_u64_take_succ(s: Seq<u64>, i: int)
    requires
        0 <= i < s.len(),
    ensures
        sum_u64(s.take(i + 1)) == sum_u64(s.take(i)) + s[i],
{
    assert(s.take(i + 1).drop_last() =~= s.take(i));
    assert(s.take(i + 1).last() == s[i]);
}

/// A prefix sum of unsigned amounts never exceeds the sum of the whole
/// sequence.
pub proof fn lemma_sum_u64_take_le(s: Seq<u64>, i: int)
    requires
        0 <= i <= s.len(),
    ensures
        sum_u64(s.take(i)) <= sum_u64(s),
    decreases s.len() - i,
{
    if i < s.len() {
        lemma_sum_u64_take_succ(s, i);
        lemma_sum_u64_take_le(s, i + 1);
    } else {
        assert(s.take(i) =~= s);
    }
}

/// Pushing an element onto an integer sequence adds it to the sum.
pub proof fn lemma_sum_int_push(s: Seq<int>, x: int)
    ensures
        sum_int(s.push(x)) == sum_int(s) + x,
{
    assert(s.push(x).drop_last() =~= s);
    assert(s.push(x).last() == x);
}

/// A sequence of unsigned amounts read as mathematical integers.
pub open spec fn seq_u64_to_int(s: Seq<u64>) -> Seq<int> {
    s.map_values(|x: u64| x as int)
}

/// Reading a pushed element commutes with reading the sequence.
pub proof fn lemma_seq_u64_to_int_push(s: Seq<u64>, x: u64)
    ensures
        seq_u64_to_int(s.push(x)) == seq_u64_to_int(s).push(x as int),
{
    assert(seq_u64_to_int(s.push(x)) =~= seq_u64_to_int(s).push(x as int));
}

/// Summing unsigned amounts directly or as integers gives the same value.
pub proof fn lemma_sum_u64_eq_sum_int(s: Seq<u64>)
    ensures
        sum_u64(s) == sum_int(seq_u64_to_int(s)),
    decreases s.len(),
{
    if s.len() > 0 {
        lemma_sum_u64_eq_sum_int(s.drop_last());
        assert(seq_u64_to_int(s).drop_last() =~= seq_u64_to_int(s.drop_last()));
    }
}

/// Floor division by a positive divisor stays below the dividend:
/// `d * (x / d) <= x`, and the quotient of a non-negative dividend is
/// non-negative.
pub proof fn lemma_div_mul_le(x: int, d: int)
    requires
        x >= 0,
        d > 0,
    ensures
        d * (x / d) <= x,
        x / d >= 0,
{
    lemma_fundamental_div_mod(x, d);
    assert(x / d >= 0) by (nonlinear_arith)
        requires
            x >= 0,
            d > 0,
            d * (x / d) + x % d == x,
            0 <= x % d < d,
    ;
}

/// A proportional share `(total * part) / whole` with `part <= whole` never
/// exceeds `total` and is never negative.
pub proof fn lemma_proportional_share_le(total: int, part: int, whole: int)
    requires
        total >= 0,
        0 <= part <= whole,
        whole > 0,
    ensures
        0 <= (total * part) / whole <= total,
{
    assert(0 <= total * part <= total * whole) by (nonlinear_arith)
        requires
            total >= 0,
            0 <= part <= whole,
    ;
    let p = total * part;
    lemma_fundamental_div_mod(p, whole);
    assert(0 <= p / whole <= total) by (nonlinear_arith)
        requires
            whole > 0,
            whole * (p / whole) + p % whole == p,
            0 <= p % whole < whole,
            0 <= p <= total * whole,
    ;
}

/// The ceiling fee `(total * rate + 9999) / 10000` with a rate of at most
/// 10000 basis points never exceeds `total` and is never negative.
pub proof fn lemma_ceiling_fee_le(total: int, rate: int)
    requires
        total >= 0,
        0 <= rate <= 10000,
    ensures
        0 <= (total * rate + 9999) / 10000 <= total,
{
    assert(0 <= total * rate <= total * 10000) by (nonlinear_arith)
        requires
            total >= 0,
            0 <= rate <= 10000,
    ;
    let p = total * rate + 9999;
    lemma_fundamental_div_mod(p, 10000);
    assert(0 <= p / 10000 <= total) by (nonlinear_arith)
        requires
            10000 * (p / 10000) + p % 10000 == p,
            0 <= p % 10000 < 10000,
            0 <= p <= total * 10000 + 9999,
    ;
}

} // verus!
