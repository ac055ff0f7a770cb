//! What holds of the engine whatever it is fed.

use crate::controllers::state_space::engine::{
    acceptable, column, fan_in, fan_out, first_rejected, is_running_sum, last_payload, slot,
    sums_to, DiscreteModalSolver,
};
use crate::io::{envelopes, Tags, IO};
use vstd::prelude::*;

verus! {

/// No two envelopes of the list bear the same signal.
pub open spec fn one_envelope_per_signal<T>(data: Seq<(Tags, Option<Seq<T>>)>) -> bool {
    forall|i: int, j: int|
        0 <= i < data.len() && 0 <= j < data.len() && i != j ==> (#[trigger] data[i]).0 != (
        #[trigger] data[j]).0
}

/// The two lists hold the same envelopes.
pub open spec fn same_envelopes<T>(
    first: Seq<(Tags, Option<Seq<T>>)>,
    second: Seq<(Tags, Option<Seq<T>>)>,
) -> bool {
    &&& forall|i: int| 0 <= i < first.len() ==> second.contains(#[trigger] first[i])
    &&& forall|j: int| 0 <= j < second.len() ==> first.contains(#[trigger] second[j])
}

proof fn lemma_last_payload_of_only<T>(data: Seq<(Tags, Option<Seq<T>>)>, k: int)
    requires
        one_envelope_per_signal(data),
        0 <= k < data.len(),
    ensures
        last_payload(data, data[k].0) == data[k].1,
    decreases data.len(),
{
    if k < data.len() - 1 {
        let head = data.drop_last();
        assert(data.last() == data[data.len() - 1]);
        assert forall|i: int, j: int|
            0 <= i < head.len() && 0 <= j < head.len() && i != j implies (#[trigger] head[i]).0 != (
        #[trigger] head[j]).0 by {
            assert(head[i] == data[i]);
            assert(head[j] == data[j]);
        }
        assert(head[k] == data[k]);
        lemma_last_payload_of_only(head, k);
    }
}

proof fn lemma_last_payload_of_none<T>(data: Seq<(Tags, Option<Seq<T>>)>, tag: Tags)
    requires
        forall|k: int| 0 <= k < data.len() ==> (#[trigger] data[k]).0 != tag,
    ensures
        last_payload(data, tag) is None,
    decreases data.len(),
{
    if data.len() > 0 {
        let head = data.drop_last();
        assert(data.last() == data[data.len() - 1]);
        assert forall|k: int| 0 <= k < head.len() implies (#[trigger] head[k]).0 != tag by {
            assert(head[k] == data[k]);
        }
        lemma_last_payload_of_none(head, tag);
    }
}

proof fn lemma_same_last_payload<T>(
    first: Seq<(Tags, Option<Seq<T>>)>,
    second: Seq<(Tags, Option<Seq<T>>)>,
    tag: Tags,
)
    requires
        same_envelopes(first, second),
        one_envelope_per_signal(first),
        one_envelope_per_signal(second),
    ensures
        last_payload(first, tag) == last_payload(second, tag),
{
    if exists|k: int| 0 <= k < first.len() && (#[trigger] first[k]).0 == tag {
        let k = choose|k: int| 0 <= k < first.len() && (#[trigger] first[k]).0 == tag;
        assert(second.contains(first[k]));
        let j = choose|j: int| 0 <= j < second.len() && second[j] == first[k];
        lemma_last_payload_of_only(first, k);
        lemma_last_payload_of_only(second, j);
    } else {
        assert forall|j: int| 0 <= j < second.len() implies (#[trigger] second[j]).0 != tag by {
            assert(first.contains(second[j]));
            let k = choose|k: int| 0 <= k < first.len() && first[k] == second[j];
            assert(first[k].0 != tag);
        }
        lemma_last_payload_of_none(first, tag);
        lemma_last_payload_of_none(second, tag);
    }
}

proof fn lemma_none_rejected_of_same<T>(
    first: Seq<(Tags, Option<Seq<T>>)>,
    second: Seq<(Tags, Option<Seq<T>>)>,
    tags: Seq<Tags>,
    sizes: Seq<usize>,
)
    requires
        forall|j: int| 0 <= j < second.len() ==> first.contains(#[trigger] second[j]),
        first_rejected(first, tags, sizes, 0) is None,
    ensures
        first_rejected(second, tags, sizes, 0) is None,
{
    lemma_rejected_is_unacceptable(first, tags, sizes, 0);
    lemma_rejected_is_unacceptable(second, tags, sizes, 0);
    if first_rejected(second, tags, sizes, 0) is Some {
        let j = first_rejected(second, tags, sizes, 0)->0;
        assert(first.contains(second[j]));
        let k = choose|k: int| 0 <= k < first.len() && first[k] == second[j];
        assert(acceptable(first[k], tags, sizes));
    }
}

/// The envelope at the position that is reported cannot be taken in, and
/// where no position is reported every envelope can.
pub proof fn lemma_rejected_is_unacceptable<T>(
    data: Seq<(Tags, Option<Seq<T>>)>,
    tags: Seq<Tags>,
    sizes: Seq<usize>,
    from: int,
)
    requires
        0 <= from,
    ensures
        match first_rejected(data, tags, sizes, from) {
            Some(k) => {
                &&& from <= k < data.len()
                &&& !acceptable(data[k], tags, sizes)
                &&& forall|i: int| from <= i < k ==> acceptable(#[trigger] data[i], tags, sizes)
            },
            None => forall|i: int|
                from <= i < data.len() ==> acceptable(#[trigger] data[i], tags, sizes),
        },
    decreases data.len() - from,
{
    if from < data.len() {
        lemma_rejected_is_unacceptable(data, tags, sizes, from + 1);
    }
}

/// The order in which the envelopes come does not matter: two lists that hold
/// the same envelopes, each signal at most once, are taken in or refused
/// alike, and give the same input samples.
pub proof fn lemma_inputs_order_independent<T>(
    tags: Seq<Tags>,
    sizes: Seq<usize>,
    zero: T,
    first: Seq<(Tags, Option<Seq<T>>)>,
    second: Seq<(Tags, Option<Seq<T>>)>,
)
    requires
        same_envelopes(first, second),
        one_envelope_per_signal(first),
        one_envelope_per_signal(second),
    ensures
        fan_in(tags, sizes, zero, first) == fan_in(tags, sizes, zero, second),
        first_rejected(first, tags, sizes, 0) is None <==> first_rejected(second, tags, sizes, 0)
            is None,
    decreases tags.len(),
{
    if first_rejected(first, tags, sizes, 0) is None {
        lemma_none_rejected_of_same(first, second, tags, sizes);
    }
    if first_rejected(second, tags, sizes, 0) is None {
        lemma_none_rejected_of_same(second, first, tags, sizes);
    }
    if tags.len() > 0 {
        lemma_same_last_payload(first, second, tags.last());
        lemma_fan_in_of_same(tags.drop_last(), sizes.drop_last(), zero, first, second);
        assert(slot(tags.last(), sizes.last(), zero, first) == slot(
            tags.last(),
            sizes.last(),
            zero,
            second,
        ));
    }
}

proof fn lemma_fan_in_of_same<T>(
    tags: Seq<Tags>,
    sizes: Seq<usize>,
    zero: T,
    first: Seq<(Tags, Option<Seq<T>>)>,
    second: Seq<(Tags, Option<Seq<T>>)>,
)
    requires
        same_envelopes(first, second),
        one_envelope_per_signal(first),
        one_envelope_per_signal(second),
    ensures
        fan_in(tags, sizes, zero, first) == fan_in(tags, sizes, zero, second),
    decreases tags.len(),
{
    if tags.len() > 0 {
        lemma_same_last_payload(first, second, tags.last());
        lemma_fan_in_of_same(tags.drop_last(), sizes.drop_last(), zero, first, second);
    }
}

/// Reading the outputs twice with no step in between gives the same
/// envelopes: as many, of the same signals in the same order, with the same
/// samples.
pub proof fn lemma_outputs_repeatable<T, S>(
    engine: DiscreteModalSolver<T, S>,
    first: Seq<IO<Vec<T>>>,
    second: Seq<IO<Vec<T>>>,
)
    requires
        envelopes(first) == fan_out(engine.y_tags@, engine.y_sizes@, engine.y@),
        envelopes(second) == fan_out(engine.y_tags@, engine.y_sizes@, engine.y@),
    ensures
        first.len() == second.len(),
        first.len() == engine.y_tags@.len(),
        forall|i: int|
            0 <= i < first.len() ==> {
                &&& (#[trigger] first[i]).tag == second[i].tag
                &&& first[i].tag == engine.y_tags@[i]
                &&& first[i].data is Some
                &&& second[i].data is Some
                &&& first[i].data->0@ == second[i].data->0@
            },
{
    assert(envelopes(first).len() == first.len());
    assert(envelopes(second).len() == second.len());
    assert forall|i: int| 0 <= i < first.len() implies {
        &&& (#[trigger] first[i]).tag == second[i].tag
        &&& first[i].tag == engine.y_tags@[i]
        &&& first[i].data is Some
        &&& second[i].data is Some
        &&& first[i].data->0@ == second[i].data->0@
    } by {
        assert(envelopes(first)[i] == first[i].view());
        assert(envelopes(second)[i] == second[i].view());
        assert(envelopes(first)[i] == envelopes(second)[i]);
    }
}

/// An engine without modes steps to zero: with no contribution every output
/// sample is zero.
pub proof fn lemma_no_mode_steps_to_zero<T, F: Fn(T, T) -> T>(
    plus: F,
    zero: T,
    contributions: Seq<Vec<T>>,
    i: int,
    sample: T,
)
    requires
        contributions.len() == 0,
        sums_to(plus, zero, column(contributions, i), sample),
    ensures
        sample == zero,
{
    let partial = choose|partial: Seq<T>| #[trigger]
        is_running_sum(plus, zero, column(contributions, i), partial) && partial.last() == sample;
    assert(partial.len() == 1);
}

/// Zero stays zero: where adding zero to zero gives zero, the sum of
/// contributions that are all zero is zero.
pub proof fn lemma_zero_contributions_sum_to_zero<T, F: Fn(T, T) -> T>(
    plus: F,
    zero: T,
    samples: Seq<T>,
    sample: T,
)
    requires
        forall|r: T| call_ensures(plus, (zero, zero), r) ==> r == zero,
        forall|k: int| 0 <= k < samples.len() ==> samples[k] == zero,
        sums_to(plus, zero, samples, sample),
    ensures
        sample == zero,
{
    let partial = choose|partial: Seq<T>| #[trigger]
        is_running_sum(plus, zero, samples, partial) && partial.last() == sample;
    lemma_running_sum_of_zeros(plus, zero, samples, partial, samples.len() as int);
}

proof fn lemma_running_sum_of_zeros<T, F: Fn(T, T) -> T>(
    plus: F,
    zero: T,
    samples: Seq<T>,
    partial: Seq<T>,
    k: int,
)
    requires
        forall|r: T| call_ensures(plus, (zero, zero), r) ==> r == zero,
        forall|k: int| 0 <= k < samples.len() ==> samples[k] == zero,
        is_running_sum(plus, zero, samples, partial),
        0 <= k <= samples.len(),
    ensures
        partial[k] == zero,
    decreases k,
{
    if k > 0 {
        lemma_running_sum_of_zeros(plus, zero, samples, partial, k - 1);
        assert(call_ensures(plus, (partial[k - 1], samples[k - 1]), partial[k - 1 + 1]));
    }
}

/// The same contributions give the same outputs: where the addition gives
/// one result for each pair of samples, a sum is determined by its samples.
pub proof fn lemma_sum_is_determined<T, F: Fn(T, T) -> T>(
    plus: F,
    zero: T,
    samples: Seq<T>,
    first: T,
    second: T,
)
    requires
        forall|a: T, b: T, r: T, s: T|
            call_ensures(plus, (a, b), r) && call_ensures(plus, (a, b), s) ==> r == s,
        sums_to(plus, zero, samples, first),
        sums_to(plus, zero, samples, second),
    ensures
        first == second,
{
    let p = choose|partial: Seq<T>| #[trigger]
        is_running_sum(plus, zero, samples, partial) && partial.last() == first;
    let q = choose|partial: Seq<T>| #[trigger]
        is_running_sum(plus, zero, samples, partial) && partial.last() == second;
    lemma_running_sums_agree(plus, zero, samples, p, q, samples.len() as int);
}

proof fn lemma_running_sums_agree<T, F: Fn(T, T) -> T>(
    plus: F,
    zero: T,
    samples: Seq<T>,
    p: Seq<T>,
    q: Seq<T>,
    k: int,
)
    requires
        forall|a: T, b: T, r: T, s: T|
            call_ensures(plus, (a, b), r) && call_ensures(plus, (a, b), s) ==> r == s,
        is_running_sum(plus, zero, samples, p),
        is_running_sum(plus, zero, samples, q),
        0 <= k <= samples.len(),
    ensures
        p[k] == q[k],
    decreases k,
{
    if k > 0 {
        lemma_running_sums_agree(plus, zero, samples, p, q, k - 1);
        assert(call_ensures(plus, (p[k - 1], samples[k - 1]), p[k - 1 + 1]));
        assert(call_ensures(plus, (q[k - 1], samples[k - 1]), q[k - 1 + 1]));
    }
}

} // verus!
