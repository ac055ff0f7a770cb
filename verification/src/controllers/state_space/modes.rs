//! Which modes a state space model keeps.
//!
//! Two verdicts are passed on each mode where the model is built: whether its
//! eigen frequency is within the cutoff, and whether its Hankel singular
//! value exceeds the threshold. The verdicts are numerical and are reached
//! outside of this library; what follows from them is decided here.

use vstd::prelude::*;

verus! {

/// The number of verdicts that are true.
pub open spec fn count(verdicts: Seq<bool>) -> nat
    decreases verdicts.len(),
{
    if verdicts.len() == 0 {
        0
    } else {
        count(verdicts.drop_last()) + if verdicts.last() {
            1nat
        } else {
            0nat
        }
    }
}

/// The modes among the first `n` that are significant, in increasing order.
pub open spec fn significant_below(significant: Seq<bool>, n: int) -> Seq<usize>
    decreases n,
{
    if n <= 0 {
        Seq::empty()
    } else if significant[n - 1] {
        significant_below(significant, n - 1).push((n - 1) as usize)
    } else {
        significant_below(significant, n - 1)
    }
}

/// The modes that are kept. As many of the first modes stay in the running as
/// there are eigen frequencies within the cutoff. Of those, all are kept where
/// no threshold is set, and the significant ones where one is. No mode changes
/// place: the modes that are kept come in increasing order.
pub open spec fn retained(within: Seq<bool>, significant: Option<Seq<bool>>) -> Seq<usize> {
    match significant {
        Some(significant) => significant_below(significant, count(within) as int),
        None => Seq::new(count(within), |k: int| k as usize),
    }
}

/// There are no more true verdicts than verdicts; none where all are false,
/// and as many where all are true.
pub proof fn lemma_count_bounds(verdicts: Seq<bool>)
    ensures
        count(verdicts) <= verdicts.len(),
        count(verdicts) == 0 <==> forall|i: int| 0 <= i < verdicts.len() ==> !verdicts[i],
        count(verdicts) == verdicts.len() <==> forall|i: int|
            0 <= i < verdicts.len() ==> verdicts[i],
    decreases verdicts.len(),
{
    if verdicts.len() > 0 {
        let head = verdicts.drop_last();
        lemma_count_bounds(head);
        assert(forall|i: int| 0 <= i < head.len() ==> head[i] == verdicts[i]);
        assert(verdicts.last() == verdicts[verdicts.len() - 1]);
    }
}

/// A mode is among the significant ones below `n` exactly where it is below
/// `n` and significant; and those modes come in increasing order.
pub proof fn lemma_significant_below(significant: Seq<bool>, n: int)
    requires
        0 <= n <= significant.len(),
        n <= usize::MAX,
    ensures
        significant_below(significant, n).len() <= n,
        forall|m: usize|
            #[trigger] significant_below(significant, n).contains(m) <==> (m < n
                && significant[m as int]),
        forall|i: int, j: int|
            0 <= i < j < significant_below(significant, n).len() ==> significant_below(
                significant,
                n,
            )[i] < significant_below(significant, n)[j],
    decreases n,
{
    let all = significant_below(significant, n);
    if n > 0 {
        lemma_significant_below(significant, n - 1);
        let head = significant_below(significant, n - 1);
        if significant[n - 1] {
            assert(all =~= head.push((n - 1) as usize));
            assert forall|m: usize| #[trigger] all.contains(m) <==> (m < n && significant[m as int]) by {
                if all.contains(m) {
                    let i = choose|i: int| 0 <= i < all.len() && all[i] == m;
                    if i < head.len() {
                        assert(head[i] == m);
                        assert(head.contains(m));
                    } else {
                        assert(m == (n - 1) as usize);
                    }
                }
                if m < n && significant[m as int] {
                    if m == n - 1 {
                        assert(all[head.len() as int] == m);
                    } else {
                        assert(head.contains(m));
                        let i = choose|i: int| 0 <= i < head.len() && head[i] == m;
                        assert(all[i] == m);
                    }
                }
            }
            assert forall|i: int, j: int| 0 <= i < j < all.len() implies all[i] < all[j] by {
                if j == all.len() - 1 {
                    assert(head[i] == all[i]);
                    assert(head.contains(head[i]));
                } else {
                    assert(head[i] == all[i]);
                    assert(head[j] == all[j]);
                }
            }
        } else {
            assert(all == head);
            assert forall|m: usize| #[trigger] all.contains(m) <==> (m < n && significant[m as int]) by {
                assert(head.contains(m) <==> (m < n - 1 && significant[m as int]));
            }
        }
    } else {
        assert forall|m: usize| #[trigger] all.contains(m) <==> (m < n && significant[m as int]) by {
            assert(all.len() == 0);
        }
    }
}

/// The number of eigen frequencies that are within the cutoff.
pub fn n_modes_within(within: &Vec<bool>) -> (n: usize)
    ensures
        n == count(within@),
        n <= within@.len(),
{
    let mut n: usize = 0;
    let mut i: usize = 0;
    while i < within.len()
        invariant
            i <= within.len(),
            n == count(within@.take(i as int)),
            n <= i,
        decreases within.len() - i,
    {
        proof {
            assert(within@.take(i as int + 1).drop_last() =~= within@.take(i as int));
        }
        if within[i] {
            n += 1;
        }
        i += 1;
    }
    proof {
        assert(within@.take(within.len() as int) =~= within@);
    }
    n
}

/// The modes that are kept, given for each mode whether its eigen frequency
/// is within the cutoff and, where a threshold is set, whether its Hankel
/// singular value exceeds it.
pub fn retained_modes(within: &Vec<bool>, significant: Option<&Vec<bool>>) -> (r: Vec<usize>)
    requires
        significant matches Some(verdicts) ==> verdicts@.len() == within@.len(),
    ensures
        r@ == retained(
            within@,
            match significant {
                Some(verdicts) => Some(verdicts@),
                None => None,
            },
        ),
{
    let n = n_modes_within(within);
    let mut r: Vec<usize> = Vec::new();
    let mut k: usize = 0;
    match significant {
        Some(verdicts) => {
            while k < n
                invariant
                    k <= n,
                    n <= verdicts@.len(),
                    r@ == significant_below(verdicts@, k as int),
                decreases n - k,
            {
                if verdicts[k] {
                    r.push(k);
                }
                k += 1;
            }
        },
        None => {
            while k < n
                invariant
                    k <= n,
                    r@ == Seq::new(k as nat, |i: int| i as usize),
                decreases n - k,
            {
                r.push(k);
                k += 1;
                proof {
                    assert(r@ =~= Seq::new(k as nat, |i: int| i as usize));
                }
            }
        },
    }
    r
}

/// Without a threshold every mode that is within the cutoff is kept: the
/// modes that are kept are the first ones, as many as there are eigen
/// frequencies within the cutoff.
pub proof fn lemma_no_threshold_keeps_all(within: Seq<bool>)
    requires
        within.len() <= usize::MAX,
    ensures
        retained(within, None).len() == count(within),
        forall|k: int| 0 <= k < count(within) ==> retained(within, None)[k] == k,
{
    lemma_count_bounds(within);
}

/// A threshold that every mode exceeds keeps what no threshold keeps.
pub proof fn lemma_all_significant_keeps_all(within: Seq<bool>, significant: Seq<bool>)
    requires
        significant.len() == within.len(),
        within.len() <= usize::MAX,
        forall|k: int| 0 <= k < significant.len() ==> significant[k],
    ensures
        retained(within, Some(significant)) == retained(within, None),
{
    lemma_count_bounds(within);
    lemma_all_significant(significant, count(within) as int);
}

proof fn lemma_all_significant(significant: Seq<bool>, n: int)
    requires
        0 <= n <= significant.len(),
        forall|k: int| 0 <= k < significant.len() ==> significant[k],
    ensures
        significant_below(significant, n) == Seq::new(n as nat, |k: int| k as usize),
    decreases n,
{
    if n > 0 {
        lemma_all_significant(significant, n - 1);
    }
    assert(significant_below(significant, n) =~= Seq::new(n as nat, |k: int| k as usize));
}

/// With a cutoff below every eigen frequency no mode is kept.
pub proof fn lemma_cutoff_below_all_keeps_none(within: Seq<bool>, significant: Option<Seq<bool>>)
    requires
        forall|i: int| 0 <= i < within.len() ==> !within[i],
    ensures
        count(within) == 0,
        retained(within, significant).len() == 0,
{
    lemma_count_bounds(within);
}

/// Raising the threshold keeps a subset: where every mode that exceeds the
/// second threshold also exceeds the first, every mode that is kept under the
/// second is kept under the first.
pub proof fn lemma_pruning_is_monotonic(within: Seq<bool>, first: Seq<bool>, second: Seq<bool>)
    requires
        first.len() == within.len(),
        second.len() == within.len(),
        within.len() <= usize::MAX,
        forall|k: int| 0 <= k < within.len() ==> (second[k] ==> first[k]),
    ensures
        forall|m: usize|
            retained(within, Some(second)).contains(m) ==> retained(within, Some(first)).contains(
                m,
            ),
{
    lemma_count_bounds(within);
    let n = count(within) as int;
    lemma_significant_below(first, n);
    lemma_significant_below(second, n);
    assert forall|m: usize| retained(within, Some(second)).contains(m) implies retained(
        within,
        Some(first),
    ).contains(m) by {
        assert(significant_below(second, n).contains(m));
        assert(m < n && second[m as int]);
        assert(first[m as int]);
        assert(significant_below(first, n).contains(m));
    }
}

} // verus!
