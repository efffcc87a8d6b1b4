use vstd::prelude::*;

verus! {

/// The sum of a sequence of 32-bit prize shares, as a mathematical integer.
pub open spec fn sum_u32(s: Seq<u32>) -> int
    decreases s.len(),
{
    if s.len() == 0 {
        0
    } else {
        s[0] + sum_u32(s.drop_first())
    }
}

/// The sum of a sequence of payout amounts, as a mathematical integer.
pub open spec fn sum_u128(s: Seq<u128>) -> int
    decreases s.len(),
{
    if s.len() == 0 {
        0
    } else {
        s[0] + sum_u128(s.drop_first())
    }
}

/// A sum of prize shares is never negative.
pub proof fn lemma_sum_u32_nonneg(s: Seq<u32>)
    ensures
        sum_u32(s) >= 0,
    decreases s.len(),
{
    if s.len() > 0 {
        lemma_sum_u32_nonneg(s.drop_first());
    }
}

/// Extending a prefix by one element adds that element to its sum.
pub proof fn lemma_sum_u32_take_step(s: Seq<u32>, i: int)
    requires
        0 <= i < s.len(),
    ensures
        sum_u32(s.take(i + 1)) == sum_u32(s.take(i)) + s[i],
    decreases i,
{
    if i == 0 {
        assert(s.take(1).drop_first() =~= Seq::<u32>::empty());
        assert(s.take(0) =~= Seq::<u32>::empty());
    } else {
        lemma_sum_u32_take_step(s.drop_first(), i - 1);
        assert(s.take(i + 1).drop_first() =~= s.drop_first().take(i));
        assert(s.take(i).drop_first() =~= s.drop_first().take(i - 1));
    }
}

/// Extending a prefix by one element adds that element to its sum.
pub proof fn lemma_sum_u128_take_step(s: Seq<u128>, i: int)
    requires
        0 <= i < s.len(),
    ensures
        sum_u128(s.take(i + 1)) == sum_u128(s.take(i)) + s[i],
    decreases i,
{
    if i == 0 {
        assert(s.take(1).drop_first() =~= Seq::<u128>::empty());
        assert(s.take(0) =~= Seq::<u128>::empty());
    } else {
        lemma_sum_u128_take_step(s.drop_first(), i - 1);
        assert(s.take(i + 1).drop_first() =~= s.drop_first().take(i));
        assert(s.take(i).drop_first() =~= s.drop_first().take(i - 1));
    }
}

/// A prefix never sums to more than the whole sequence.
pub proof fn lemma_sum_u32_take_le(s: Seq<u32>, i: int)
    requires
        0 <= i <= s.len(),
    ensures
        sum_u32(s.take(i)) <= sum_u32(s),
    decreases s.len() - i,
{
    if i == s.len() {
        assert(s.take(i) =~= s);
    } else {
        lemma_sum_u32_take_step(s, i);
        lemma_sum_u32_take_le(s, i + 1);
    }
}

/// Every element is bounded by the sum of the whole sequence.
pub proof fn lemma_sum_u32_elem_le(s: Seq<u32>, i: int)
    requires
        0 <= i < s.len(),
    ensures
        s[i] <= sum_u32(s),
    decreases i,
{
    if i == 0 {
        lemma_sum_u32_nonneg(s.drop_first());
    } else {
        lemma_sum_u32_elem_le(s.drop_first(), i - 1);
        lemma_sum_u32_nonneg(s.take(1));
        assert(s[0] >= 0);
    }
}

} // verus!
