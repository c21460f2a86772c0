//! ZallMembersCount: the members of all cached guilds together.
use vstd::prelude::*;
use crate::context::FnOutput;
use crate::decimal::decimal;

verus! {

/// The sum of the counts.
pub open spec fn total(counts: Seq<u64>) -> nat
    decreases counts.len(),
{
    if counts.len() == 0 {
        0
    } else {
        total(counts.drop_last()) + counts.last() as nat
    }
}

proof fn lemma_total_prefix(counts: Seq<u64>, i: int)
    requires
        0 <= i <= counts.len(),
    ensures
        total(counts.take(i)) <= total(counts),
    decreases counts.len(),
{
    if i < counts.len() {
        lemma_total_prefix(counts.drop_last(), i);
        assert(counts.drop_last().take(i) =~= counts.take(i));
    } else {
        assert(counts.take(i) =~= counts);
    }
}

/// The member counts of the cached guilds added up, in decimal.
pub fn run(member_counts: &Vec<u64>) -> (r: FnOutput)
    requires
        total(member_counts@) <= u64::MAX,
    ensures
        r matches FnOutput::Text(t) && t@ == decimal(total(member_counts@)),
{
    let mut sum: u64 = 0;
    let mut i: usize = 0;
    while i < member_counts.len()
        invariant
            i <= member_counts.len(),
            total(member_counts@) <= u64::MAX,
            sum == total(member_counts@.take(i as int)),
        decreases member_counts.len() - i,
    {
        assert(member_counts@.take(i + 1).drop_last() =~= member_counts@.take(i as int));
        proof {
            lemma_total_prefix(member_counts@, i + 1);
        }
        sum = sum + member_counts[i];
        i = i + 1;
    }
    assert(member_counts@.take(member_counts.len() as int) =~= member_counts@);
    FnOutput::Text(crate::decimal::u64_text(sum))
}

} // verus!
