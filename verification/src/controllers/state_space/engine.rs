//! The engine: the state space model as it is stepped during a simulation.
//!
//! The engine owns the flattened input and output samples, the signals that
//! they belong to with the width of each, and one solver per mode. It fans
//! the envelopes that it is given into its input samples, and fans its output
//! samples out into envelopes. The solvers are of any type: they are advanced
//! by whoever built them.

use crate::controllers::state_space::{lemma_total_push, total, ModalModel};
use crate::error::DOSError;
use crate::io::{envelopes, IOError, Tags, IO};
use crate::samples::{copied, extend, filled};
use crate::{IOTags, DOS};
use vstd::prelude::*;

verus! {

/// The payload of the last envelope of the list that bears the signal.
pub open spec fn last_payload<T>(data: Seq<(Tags, Option<Seq<T>>)>, tag: Tags) -> Option<Seq<T>>
    decreases data.len(),
{
    if data.len() == 0 {
        None
    } else if data.last().0 == tag {
        data.last().1
    } else {
        last_payload(data.drop_last(), tag)
    }
}

/// The samples of one declared signal: the payload of the last envelope that
/// bears it, or as many zeros as the signal is wide where no envelope does.
pub open spec fn slot<T>(tag: Tags, size: usize, zero: T, data: Seq<(Tags, Option<Seq<T>>)>) -> Seq<
    T,
> {
    match last_payload(data, tag) {
        Some(payload) => payload,
        None => Seq::new(size as nat, |i: int| zero),
    }
}

/// The input samples that a list of envelopes gives: the samples of each
/// declared signal in turn, in declaration order.
pub open spec fn fan_in<T>(
    tags: Seq<Tags>,
    sizes: Seq<usize>,
    zero: T,
    data: Seq<(Tags, Option<Seq<T>>)>,
) -> Seq<T>
    decreases tags.len(),
{
    if tags.len() == 0 {
        Seq::empty()
    } else {
        fan_in(tags.drop_last(), sizes.drop_last(), zero, data) + slot(
            tags.last(),
            sizes.last(),
            zero,
            data,
        )
    }
}

/// The envelope can be taken in: it has a payload, as long as each declared
/// signal that it bears is wide.
pub open spec fn acceptable<T>(e: (Tags, Option<Seq<T>>), tags: Seq<Tags>, sizes: Seq<usize>) -> bool {
    &&& e.1 is Some
    &&& forall|i: int| 0 <= i < tags.len() && tags[i] == e.0 ==> e.1->0.len() == #[trigger] sizes[i]
}

/// The position of the first envelope, from `from` on, that cannot be taken in.
pub open spec fn first_rejected<T>(
    data: Seq<(Tags, Option<Seq<T>>)>,
    tags: Seq<Tags>,
    sizes: Seq<usize>,
    from: int,
) -> Option<int>
    decreases data.len() - from,
{
    if from < 0 || from >= data.len() {
        None
    } else if !acceptable(data[from], tags, sizes) {
        Some(from)
    } else {
        first_rejected(data, tags, sizes, from + 1)
    }
}

/// The envelopes that the output samples are fanned out into: one for each
/// declared signal, in declaration order, each with the samples that follow
/// those of the signals before it.
pub open spec fn fan_out<T>(tags: Seq<Tags>, sizes: Seq<usize>, y: Seq<T>) -> Seq<
    (Tags, Option<Seq<T>>),
> {
    Seq::new(
        tags.len(),
        |i: int|
            (
                tags[i],
                Some(
                    y.subrange(
                        total(sizes.take(i)) as int,
                        total(sizes.take(i)) as int + sizes[i] as int,
                    ),
                ),
            ),
    )
}

proof fn lemma_total_take(sizes: Seq<usize>, i: int)
    requires
        0 <= i < sizes.len(),
    ensures
        total(sizes.take(i + 1)) == total(sizes.take(i)) + sizes[i],
        total(sizes.take(i + 1)) <= total(sizes),
    decreases sizes.len() - i,
{
    assert(sizes.take(i).push(sizes[i]) =~= sizes.take(i + 1));
    lemma_total_push(sizes.take(i), sizes[i]);
    if i + 1 < sizes.len() {
        lemma_total_take(sizes, i + 1);
    } else {
        assert(sizes.take(i + 1) =~= sizes);
    }
}

proof fn lemma_none_rejected<T>(
    data: Seq<(Tags, Option<Seq<T>>)>,
    tags: Seq<Tags>,
    sizes: Seq<usize>,
    from: int,
)
    requires
        0 <= from,
        first_rejected(data, tags, sizes, from) is None,
    ensures
        forall|k: int| from <= k < data.len() ==> acceptable(#[trigger] data[k], tags, sizes),
    decreases data.len() - from,
{
    if from < data.len() {
        lemma_none_rejected(data, tags, sizes, from + 1);
    }
}

proof fn lemma_fan_in_push<T>(
    tags: Seq<Tags>,
    sizes: Seq<usize>,
    zero: T,
    data: Seq<(Tags, Option<Seq<T>>)>,
    i: int,
)
    requires
        0 <= i < tags.len(),
        tags.len() == sizes.len(),
    ensures
        fan_in(tags.take(i + 1), sizes.take(i + 1), zero, data) == fan_in(
            tags.take(i),
            sizes.take(i),
            zero,
            data,
        ) + slot(tags[i], sizes[i], zero, data),
{
    assert(tags.take(i + 1).drop_last() =~= tags.take(i));
    assert(sizes.take(i + 1).drop_last() =~= sizes.take(i));
}

/// The payload of the last envelope that bears the signal.
fn last_with_tag<'a, T>(data: &'a Vec<IO<Vec<T>>>, tag: Tags) -> (r: Option<&'a Vec<T>>)
    requires
        forall|k: int| 0 <= k < data@.len() ==> (#[trigger] data@[k]).data is Some,
    ensures
        match r {
            Some(payload) => last_payload(envelopes(data@), tag) == Some(payload@),
            None => last_payload(envelopes(data@), tag) is None,
        },
{
    let ghost ev = envelopes(data@);
    let mut j: usize = data.len();
    proof {
        assert(ev.take(j as int) =~= ev);
    }
    while j > 0
        invariant
            j <= data.len(),
            ev == envelopes(data@),
            forall|k: int| 0 <= k < data@.len() ==> (#[trigger] data@[k]).data is Some,
            last_payload(ev, tag) == last_payload(ev.take(j as int), tag),
        decreases j,
    {
        j -= 1;
        proof {
            assert(ev.take(j as int + 1).drop_last() =~= ev.take(j as int));
            assert(ev.take(j as int + 1).last() == ev[j as int]);
        }
        if data[j].tag == tag {
            match &data[j].data {
                Some(payload) => {
                    return Some(payload);
                },
                None => {
                    proof {
                        assert(data@[j as int].data is Some);
                    }
                },
            }
        }
    }
    None
}

/// The state space model of the structure, ready to be stepped.
pub struct DiscreteModalSolver<T, S> {
    /// The input samples.
    pub u: Vec<T>,
    /// The signals that enter the model, in declaration order.
    pub u_tags: Vec<Tags>,
    /// The width of each signal that enters the model.
    pub u_sizes: Vec<usize>,
    /// The output samples.
    pub y: Vec<T>,
    /// The width of each signal that leaves the model.
    pub y_sizes: Vec<usize>,
    /// The signals that leave the model, in declaration order.
    pub y_tags: Vec<Tags>,
    /// The sample that stands for no signal.
    pub zero: T,
    /// The solvers, one for each mode.
    pub state_space: Vec<S>,
}

impl<T, S> DiscreteModalSolver<T, S> {
    /// The engine is consistent: each declared signal has a width, and there
    /// are as many input samples, and as many output samples, as the widths
    /// of the declared signals add up to.
    pub open spec fn wf(self) -> bool {
        &&& self.u_sizes@.len() == self.u_tags@.len()
        &&& self.y_sizes@.len() == self.y_tags@.len()
        &&& self.u@.len() == total(self.u_sizes@)
        &&& self.y@.len() == total(self.y_sizes@)
    }
}

impl<T: Copy, S> DOS<T> for DiscreteModalSolver<T, S> {
    open spec fn inv(&self) -> bool {
        self.wf()
    }

    /// Takes a list of envelopes in.
    ///
    /// The input samples become those of the declared signals, in the order
    /// of their declaration and not that of the envelopes: for each signal
    /// the payload of the last envelope that bears it, or zeros where none
    /// does. The first envelope without a payload fails the call with
    /// `Missing`, and the first one whose payload is not as long as a declared
    /// signal that it bears is wide fails it with `Inputs`; the input samples
    /// are then left as they were.
    #[verifier::loop_isolation(false)]
    fn inputs(&mut self, data: Vec<IO<Vec<T>>>) -> (r: Result<(), DOSError<IOError>>)
        ensures
            final(self).u_tags == old(self).u_tags,
            final(self).u_sizes == old(self).u_sizes,
            final(self).y == old(self).y,
            final(self).y_tags == old(self).y_tags,
            final(self).y_sizes == old(self).y_sizes,
            final(self).zero == old(self).zero,
            final(self).state_space == old(self).state_space,
            match r {
                Ok(()) => {
                    &&& first_rejected(
                        envelopes(data@),
                        old(self).u_tags@,
                        old(self).u_sizes@,
                        0,
                    ) is None
                    &&& final(self).u@ == fan_in(
                        old(self).u_tags@,
                        old(self).u_sizes@,
                        old(self).zero,
                        envelopes(data@),
                    )
                },
                Err(e) => {
                    &&& final(self).u == old(self).u
                    &&& first_rejected(
                        envelopes(data@),
                        old(self).u_tags@,
                        old(self).u_sizes@,
                        0,
                    ) matches Some(k) && match data@[k].data {
                        None => e matches DOSError::Component(IOError::Missing(name)) && name@
                            == data@[k].tag.canonical_name(),
                        Some(_) => e == DOSError::<IOError>::Inputs,
                    }
                },
            },
    {
        let ghost ev = envelopes(data@);
        let ghost tags = self.u_tags@;
        let ghost sizes = self.u_sizes@;
        let mut k: usize = 0;
        while k < data.len()
            invariant
                k <= data.len(),
                *self == *old(self),
                first_rejected(ev, tags, sizes, 0) == first_rejected(ev, tags, sizes, k as int),
            decreases data.len() - k,
        {
            let envelope = &data[k];
            match &envelope.data {
                None => {
                    return Err(DOSError::Component(IOError::Missing(envelope.tag.name())));
                },
                Some(payload) => {
                    let mut i: usize = 0;
                    while i < self.u_tags.len()
                        invariant
                            i <= self.u_tags.len(),
                            *self == *old(self),
                            forall|j: int|
                                0 <= j < i && tags[j] == envelope.tag ==> payload@.len()
                                    == #[trigger] sizes[j],
                        decreases self.u_tags.len() - i,
                    {
                        if self.u_tags[i] == envelope.tag && payload.len() != self.u_sizes[i] {
                            proof {
                                assert(ev[k as int] == data@[k as int].view());
                                assert(tags[i as int] == ev[k as int].0);
                                assert(ev[k as int].1->0.len() != sizes[i as int]);
                                assert(!acceptable(ev[k as int], tags, sizes));
                            }
                            return Err(DOSError::Inputs);
                        }
                        i += 1;
                    }
                    proof {
                        assert(ev[k as int] == data@[k as int].view());
                        assert(acceptable(ev[k as int], tags, sizes));
                    }
                },
            }
            k += 1;
        }
        proof {
            lemma_none_rejected(ev, tags, sizes, 0);
            assert forall|k: int| 0 <= k < data@.len() implies (#[trigger] data@[k]).data is Some by {
                assert(acceptable(ev[k], tags, sizes));
            }
        }
        let mut u: Vec<T> = Vec::new();
        let mut i: usize = 0;
        while i < self.u_tags.len()
            invariant
                i <= self.u_tags.len(),
                *self == *old(self),
                u@ == fan_in(tags.take(i as int), sizes.take(i as int), self.zero, ev),
                u@.len() == total(sizes.take(i as int)),
            decreases self.u_tags.len() - i,
        {
            proof {
                lemma_fan_in_push(tags, sizes, self.zero, ev, i as int);
                lemma_total_take(sizes, i as int);
                lemma_last_payload_source(ev, tags[i as int]);
            }
            match last_with_tag(&data, self.u_tags[i]) {
                Some(payload) => {
                    extend(&mut u, payload);
                },
                None => {
                    let zeros = filled(self.zero, self.u_sizes[i]);
                    extend(&mut u, &zeros);
                },
            }
            i += 1;
        }
        proof {
            assert(tags.take(tags.len() as int) =~= tags);
            assert(sizes.take(sizes.len() as int) =~= sizes);
        }
        self.u = u;
        Ok(())
    }

    /// The output samples as envelopes: one for each declared signal, in
    /// declaration order, each with a fresh copy of its samples.
    fn outputs(&mut self) -> (r: Option<Vec<IO<Vec<T>>>>)
        ensures
            *final(self) == *old(self),
            r matches Some(list) && envelopes(list@) == fan_out(
                old(self).y_tags@,
                old(self).y_sizes@,
                old(self).y@,
            ),
    {
        let ghost sizes = self.y_sizes@;
        let mut list: Vec<IO<Vec<T>>> = Vec::new();
        let mut pos: usize = 0;
        let mut i: usize = 0;
        while i < self.y_tags.len()
            invariant
                i <= self.y_tags.len(),
                self.wf(),
                sizes == self.y_sizes@,
                pos == total(sizes.take(i as int)),
                pos <= self.y.len(),
                list@.len() == i,
                forall|j: int|
                    0 <= j < i ==> (#[trigger] list@[j]).view() == fan_out(
                        self.y_tags@,
                        sizes,
                        self.y@,
                    )[j],
            decreases self.y_tags.len() - i,
        {
            proof {
                lemma_total_take(sizes, i as int);
            }
            let n = self.y_sizes[i];
            let mut samples: Vec<T> = Vec::new();
            let mut j: usize = 0;
            while j < n
                invariant
                    j <= n,
                    pos + n <= self.y.len(),
                    samples@ == self.y@.subrange(pos as int, pos + j),
                decreases n - j,
            {
                samples.push(self.y[pos + j]);
                j += 1;
                proof {
                    assert(samples@ =~= self.y@.subrange(pos as int, pos + j));
                }
            }
            list.push(IO::with(self.y_tags[i], samples));
            pos = pos + n;
            i += 1;
        }
        proof {
            assert(envelopes(list@) =~= fan_out(self.y_tags@, sizes, self.y@));
        }
        Some(list)
    }
}

/// Where the last envelope that bears a signal is found in the list.
proof fn lemma_last_payload_source<T>(data: Seq<(Tags, Option<Seq<T>>)>, tag: Tags)
    ensures
        last_payload(data, tag) is Some ==> exists|k: int|
            0 <= k < data.len() && (#[trigger] data[k]).0 == tag && data[k].1 == last_payload(
                data,
                tag,
            ),
    decreases data.len(),
{
    if data.len() > 0 {
        if data.last().0 == tag {
            assert(data[data.len() - 1] == data.last());
        } else {
            lemma_last_payload_source(data.drop_last(), tag);
            if last_payload(data, tag) is Some {
                let k = choose|k: int|
                    0 <= k < data.drop_last().len() && (#[trigger] data.drop_last()[k]).0 == tag
                        && data.drop_last()[k].1 == last_payload(data.drop_last(), tag);
                assert(data[k] == data.drop_last()[k]);
            }
        }
    }
}

impl<T: Copy> ModalModel<T> {
    /// The engine of the model, with the solvers of the modes that are kept:
    /// it declares the signals of the model with their widths, and all its
    /// input and output samples are `zero`.
    pub fn into_solver<S>(self, zero: T, state_space: Vec<S>) -> (r: DiscreteModalSolver<T, S>)
        requires
            self.wf(),
        ensures
            r.wf(),
            r.u_tags == self.u_tags,
            r.u_sizes == self.u_sizes,
            r.y_tags == self.y_tags,
            r.y_sizes == self.y_sizes,
            r.zero == zero,
            r.state_space == state_space,
            r.u@ == Seq::new(total(self.u_sizes@), |i: int| zero),
            r.y@ == Seq::new(total(self.y_sizes@), |i: int| zero),
    {
        let n_u = sum(&self.u_sizes);
        let n_y = sum(&self.y_sizes);
        DiscreteModalSolver {
            u: filled(zero, n_u),
            u_tags: self.u_tags,
            u_sizes: self.u_sizes,
            y: filled(zero, n_y),
            y_sizes: self.y_sizes,
            y_tags: self.y_tags,
            zero,
            state_space,
        }
    }
}

/// The number of scalars that the widths cover.
pub fn sum(sizes: &Vec<usize>) -> (n: usize)
    requires
        total(sizes@) <= usize::MAX,
    ensures
        n == total(sizes@),
{
    let mut n: usize = 0;
    let mut i: usize = 0;
    while i < sizes.len()
        invariant
            i <= sizes.len(),
            n == total(sizes@.take(i as int)),
            total(sizes@) <= usize::MAX,
        decreases sizes.len() - i,
    {
        proof {
            lemma_total_take(sizes@, i as int);
        }
        n = n + sizes[i];
        i += 1;
    }
    proof {
        assert(sizes@.take(sizes.len() as int) =~= sizes@);
    }
    n
}

impl<T: Copy, S> IOTags for DiscreteModalSolver<T, S> {
    open spec fn outputs_tags_spec(&self) -> Seq<Tags> {
        self.y_tags@
    }

    open spec fn inputs_tags_spec(&self) -> Seq<Tags> {
        self.u_tags@
    }

    fn outputs_tags(&self) -> (r: Vec<Tags>) {
        copied(&self.y_tags)
    }

    fn inputs_tags(&self) -> (r: Vec<Tags>) {
        copied(&self.u_tags)
    }
}

/// The samples that the modes contribute to output scalar `i`, mode by mode.
pub open spec fn column<T>(contributions: Seq<Vec<T>>, i: int) -> Seq<T> {
    Seq::new(contributions.len(), |k: int| contributions[k]@[i])
}

/// `partial` holds the sums that `plus` can give when the samples of
/// `samples` are added to `zero` one after the other, from the first to the
/// last: it starts with `zero`, and each of its further samples is what
/// `plus` gave for the one before it and the next of `samples`.
pub open spec fn is_running_sum<T, F: Fn(T, T) -> T>(
    plus: F,
    zero: T,
    samples: Seq<T>,
    partial: Seq<T>,
) -> bool {
    &&& partial.len() == samples.len() + 1
    &&& partial[0] == zero
    &&& forall|k: int|
        0 <= k < samples.len() ==> call_ensures(
            plus,
            (partial[k], #[trigger] samples[k]),
            partial[k + 1],
        )
}

/// `acc` is what `plus` can give when the samples of `samples` are added to
/// `zero` one after the other, from the first to the last.
pub open spec fn sums_to<T, F: Fn(T, T) -> T>(plus: F, zero: T, samples: Seq<T>, acc: T) -> bool {
    exists|partial: Seq<T>| #[trigger]
        is_running_sum(plus, zero, samples, partial) && partial.last() == acc
}

/// The sum of no sample is zero.
pub proof fn lemma_sums_to_empty<T, F: Fn(T, T) -> T>(plus: F, zero: T, acc: T)
    ensures
        sums_to(plus, zero, Seq::<T>::empty(), acc) <==> acc == zero,
{
    if acc == zero {
        assert(is_running_sum(plus, zero, Seq::<T>::empty(), seq![zero]));
        assert(seq![zero].last() == acc);
    }
}

/// One more sample extends a sum by one addition.
pub proof fn lemma_sums_to_push<T, F: Fn(T, T) -> T>(
    plus: F,
    zero: T,
    samples: Seq<T>,
    before: T,
    sample: T,
    after: T,
)
    requires
        sums_to(plus, zero, samples, before),
        call_ensures(plus, (before, sample), after),
    ensures
        sums_to(plus, zero, samples.push(sample), after),
{
    let partial = choose|partial: Seq<T>| #[trigger]
        is_running_sum(plus, zero, samples, partial) && partial.last() == before;
    let longer = partial.push(after);
    let more = samples.push(sample);
    assert forall|k: int| 0 <= k < more.len() implies call_ensures(
        plus,
        (longer[k], #[trigger] more[k]),
        longer[k + 1],
    ) by {
        if k < samples.len() {
            assert(more[k] == samples[k]);
            assert(longer[k] == partial[k]);
            assert(longer[k + 1] == partial[k + 1]);
        }
    }
    assert(is_running_sum(plus, zero, more, longer));
    assert(longer.last() == after);
}

/// Every mode contributes one sample to each of the `n` output scalars.
pub open spec fn contributions_fit<T>(contributions: Seq<Vec<T>>, n: nat) -> bool {
    forall|k: int| 0 <= k < contributions.len() ==> (#[trigger] contributions[k])@.len() == n
}

impl<T: Copy, S> DiscreteModalSolver<T, S> {
    /// Gathers what the modes contribute to the outputs of one step.
    ///
    /// Each solver, once advanced by one step, contributes one sample to each
    /// output scalar. The new output samples are the sums of these
    /// contributions, taken mode after mode, in the order of the modes,
    /// starting from zero. The call fails with `Step`, and leaves the output
    /// samples as they were, where there is not one contribution for each
    /// mode, or where a contribution has not one sample for each output scalar.
    pub fn reduce<F: Fn(T, T) -> T>(&mut self, contributions: &Vec<Vec<T>>, plus: F) -> (r: Result<
        (),
        DOSError<()>,
    >)
        requires
            old(self).wf(),
            forall|a: T, b: T| call_requires(plus, (a, b)),
        ensures
            final(self).wf(),
            final(self).u == old(self).u,
            final(self).u_tags == old(self).u_tags,
            final(self).u_sizes == old(self).u_sizes,
            final(self).y_tags == old(self).y_tags,
            final(self).y_sizes == old(self).y_sizes,
            final(self).zero == old(self).zero,
            final(self).state_space == old(self).state_space,
            match r {
                Ok(()) => {
                    &&& contributions@.len() == old(self).state_space@.len()
                    &&& contributions_fit(contributions@, old(self).y@.len())
                    &&& final(self).y@.len() == old(self).y@.len()
                    &&& forall|i: int|
                        0 <= i < final(self).y@.len() ==> sums_to(
                            plus,
                            old(self).zero,
                            column(contributions@, i),
                            #[trigger] final(self).y@[i],
                        )
                },
                Err(e) => {
                    &&& e == DOSError::<()>::Step
                    &&& final(self).y == old(self).y
                    &&& !(contributions@.len() == old(self).state_space@.len() && contributions_fit(
                        contributions@,
                        old(self).y@.len(),
                    ))
                },
            },
    {
        let n = self.y.len();
        if contributions.len() != self.state_space.len() {
            return Err(DOSError::Step);
        }
        let mut k: usize = 0;
        while k < contributions.len()
            invariant
                k <= contributions.len(),
                n == self.y@.len(),
                *self == *old(self),
                old(self).wf(),
                forall|j: int| 0 <= j < k ==> (#[trigger] contributions@[j])@.len() == n,
            decreases contributions.len() - k,
        {
            if contributions[k].len() != n {
                return Err(DOSError::Step);
            }
            k += 1;
        }
        let zero = self.zero;
        let mut y = filled(zero, n);
        let mut k: usize = 0;
        proof {
            assert forall|i: int| 0 <= i < n implies sums_to(
                plus,
                zero,
                column(contributions@.take(0), i),
                #[trigger] y@[i],
            ) by {
                assert(column(contributions@.take(0), i) =~= Seq::<T>::empty());
                lemma_sums_to_empty(plus, zero, y@[i]);
            }
        }
        while k < contributions.len()
            invariant
                k <= contributions.len(),
                y@.len() == n,
                contributions_fit(contributions@, n as nat),
                forall|a: T, b: T| call_requires(plus, (a, b)),
                forall|i: int|
                    0 <= i < n ==> sums_to(
                        plus,
                        zero,
                        column(contributions@.take(k as int), i),
                        #[trigger] y@[i],
                    ),
            decreases contributions.len() - k,
        {
            let contribution = &contributions[k];
            let mut i: usize = 0;
            while i < n
                invariant
                    i <= n,
                    k < contributions.len(),
                    y@.len() == n,
                    contribution@.len() == n,
                    *contribution == contributions@[k as int],
                    forall|a: T, b: T| call_requires(plus, (a, b)),
                    forall|j: int|
                        0 <= j < i ==> sums_to(
                            plus,
                            zero,
                            column(contributions@.take(k as int + 1), j),
                            #[trigger] y@[j],
                        ),
                    forall|j: int|
                        i <= j < n ==> sums_to(
                            plus,
                            zero,
                            column(contributions@.take(k as int), j),
                            #[trigger] y@[j],
                        ),
                decreases n - i,
            {
                let before = y[i];
                let after = plus(before, contribution[i]);
                proof {
                    let longer = column(contributions@.take(k as int + 1), i as int);
                    let shorter = column(contributions@.take(k as int), i as int);
                    lemma_sums_to_push(plus, zero, shorter, before, contribution@[i as int], after);
                    assert(longer =~= shorter.push(contribution@[i as int]));
                }
                y.set(i, after);
                i += 1;
            }
            k += 1;
        }
        proof {
            assert(contributions@.take(contributions.len() as int) =~= contributions@);
        }
        self.y = y;
        Ok(())
    }
}

/// What the solvers give for the inputs `u`: for each mode, in the order of
/// the modes, `solve` can give the solver of `after` and the contribution of
/// `contributions` for the solver of `before`.
pub open spec fn solved<T, S, G: Fn(S, &Vec<T>) -> (S, Vec<T>)>(
    solve: G,
    before: Seq<S>,
    u: &Vec<T>,
    after: Seq<S>,
    contributions: Seq<Vec<T>>,
) -> bool {
    &&& after.len() == before.len()
    &&& contributions.len() == before.len()
    &&& forall|k: int|
        0 <= k < before.len() ==> call_ensures(
            solve,
            (before[k], u),
            (#[trigger] after[k], contributions[k]),
        )
}

impl<T: Copy, S> DiscreteModalSolver<T, S> {
    /// The engine with the input samples `u` in place of its own.
    pub open spec fn fed(self, u: Vec<T>) -> Self {
        DiscreteModalSolver { u, ..self }
    }

    /// The engine `after` is the engine `self` advanced by one step with the
    /// contributions given: its solvers are advanced, and its output samples
    /// are the sums of the contributions, mode after mode, starting from
    /// zero; or, where a contribution has not one sample for each output
    /// scalar, the step failed and its output samples are left as they were.
    pub open spec fn steps_to<G: Fn(S, &Vec<T>) -> (S, Vec<T>), F: Fn(T, T) -> T>(
        self,
        after: Self,
        solve: G,
        plus: F,
        contributions: Seq<Vec<T>>,
        done: bool,
    ) -> bool {
        &&& solved(solve, self.state_space@, &self.u, after.state_space@, contributions)
        &&& if done {
            &&& contributions_fit(contributions, self.y@.len())
            &&& after.y@.len() == self.y@.len()
            &&& forall|i: int|
                0 <= i < after.y@.len() ==> sums_to(
                    plus,
                    self.zero,
                    column(contributions, i),
                    #[trigger] after.y@[i],
                )
        } else {
            &&& !contributions_fit(contributions, self.y@.len())
            &&& after.y == self.y
        }
    }

    /// Advances the model by one step.
    ///
    /// Each solver is advanced once with the input samples, in the order of
    /// the modes, and contributes one sample to each output scalar. The new
    /// output samples are the sums of these contributions, mode after mode,
    /// starting from zero. The call fails with `Step`, and leaves the output
    /// samples as they were, where a solver does not contribute one sample
    /// for each output scalar.
    pub fn step<G: Fn(S, &Vec<T>) -> (S, Vec<T>), F: Fn(T, T) -> T>(
        &mut self,
        solve: G,
        plus: F,
    ) -> (r: Result<(), DOSError<()>>)
        requires
            old(self).wf(),
            forall|solver: S, u: &Vec<T>| call_requires(solve, (solver, u)),
            forall|a: T, b: T| call_requires(plus, (a, b)),
        ensures
            final(self).wf(),
            final(self).u == old(self).u,
            final(self).u_tags == old(self).u_tags,
            final(self).u_sizes == old(self).u_sizes,
            final(self).y_tags == old(self).y_tags,
            final(self).y_sizes == old(self).y_sizes,
            final(self).zero == old(self).zero,
            r matches Err(e) ==> e == DOSError::<()>::Step,
            exists|contributions: Seq<Vec<T>>| #[trigger]
                old(self).steps_to(*final(self), solve, plus, contributions, r is Ok),
    {
        let ghost given = self.state_space@;
        let n = self.state_space.len();
        let mut before: Vec<S> = Vec::new();
        core::mem::swap(&mut self.state_space, &mut before);
        let mut stack: Vec<S> = Vec::new();
        while before.len() > 0
            invariant
                before@.len() <= n,
                n == given.len(),
                before@ == given.take(before@.len() as int),
                stack@.len() == n - before@.len(),
                forall|j: int| 0 <= j < stack@.len() ==> stack@[j] == given[n - 1 - j],
            decreases before@.len(),
        {
            let ghost m = before@.len();
            match before.pop() {
                Some(solver) => {
                    stack.push(solver);
                    proof {
                        assert(before@ =~= given.take(m - 1));
                    }
                },
                None => {},
            }
        }
        let mut contributions: Vec<Vec<T>> = Vec::new();
        let mut k: usize = 0;
        while k < n
            invariant
                k <= n,
                n == given.len(),
                stack@.len() == n - k,
                forall|j: int| 0 <= j < stack@.len() ==> stack@[j] == given[n - 1 - j],
                self.state_space@.len() == k,
                contributions@.len() == k,
                self.u == old(self).u,
                self.u_tags == old(self).u_tags,
                self.u_sizes == old(self).u_sizes,
                self.y == old(self).y,
                self.y_tags == old(self).y_tags,
                self.y_sizes == old(self).y_sizes,
                self.zero == old(self).zero,
                forall|solver: S, u: &Vec<T>| call_requires(solve, (solver, u)),
                forall|j: int|
                    0 <= j < k ==> call_ensures(
                        solve,
                        (given[j], &self.u),
                        (#[trigger] self.state_space@[j], contributions@[j]),
                    ),
            decreases n - k,
        {
            match stack.pop() {
                Some(solver) => {
                    assert(solver == given[k as int]);
                    let (advanced, contribution) = solve(solver, &self.u);
                    self.state_space.push(advanced);
                    contributions.push(contribution);
                },
                None => {},
            }
            k += 1;
        }
        let ghost advanced = *self;
        let r = self.reduce(&contributions, plus);
        proof {
            assert(solved(solve, given, &old(self).u, self.state_space@, contributions@));
            assert(old(self).steps_to(*self, solve, plus, contributions@, r is Ok));
        }
        r
    }

    /// Takes the inputs in, advances the model by one step and hands its
    /// outputs out. The call fails as `inputs` does, and the model is then
    /// left as it was; or with `Step` as `step` does.
    pub fn in_step_out<G: Fn(S, &Vec<T>) -> (S, Vec<T>), F: Fn(T, T) -> T>(
        &mut self,
        data: Vec<IO<Vec<T>>>,
        solve: G,
        plus: F,
    ) -> (r: Result<Option<Vec<IO<Vec<T>>>>, DOSError<IOError>>)
        requires
            old(self).wf(),
            forall|solver: S, u: &Vec<T>| call_requires(solve, (solver, u)),
            forall|a: T, b: T| call_requires(plus, (a, b)),
        ensures
            final(self).wf(),
            final(self).u_tags == old(self).u_tags,
            final(self).u_sizes == old(self).u_sizes,
            final(self).y_tags == old(self).y_tags,
            final(self).y_sizes == old(self).y_sizes,
            final(self).zero == old(self).zero,
            match first_rejected(envelopes(data@), old(self).u_tags@, old(self).u_sizes@, 0) {
                Some(k) => {
                    &&& *final(self) == *old(self)
                    &&& r matches Err(e) && match data@[k].data {
                        None => e matches DOSError::Component(IOError::Missing(name)) && name@
                            == data@[k].tag.canonical_name(),
                        Some(_) => e == DOSError::<IOError>::Inputs,
                    }
                },
                None => {
                    &&& final(self).u@ == fan_in(
                        old(self).u_tags@,
                        old(self).u_sizes@,
                        old(self).zero,
                        envelopes(data@),
                    )
                    &&& exists|contributions: Seq<Vec<T>>| #[trigger]
                        old(self).fed(final(self).u).steps_to(
                            *final(self),
                            solve,
                            plus,
                            contributions,
                            r is Ok,
                        )
                    &&& match r {
                        Ok(out) => out matches Some(list) && envelopes(list@) == fan_out(
                            old(self).y_tags@,
                            old(self).y_sizes@,
                            final(self).y@,
                        ),
                        Err(e) => e == DOSError::<IOError>::Step,
                    }
                },
            },
    {
        match self.inputs(data) {
            Ok(()) => {},
            Err(e) => {
                return Err(e);
            },
        }
        let ghost fed = *self;
        match self.step(solve, plus) {
            Ok(()) => {},
            Err(_) => {
                proof {
                    let contributions = choose|contributions: Seq<Vec<T>>| #[trigger]
                        fed.steps_to(*self, solve, plus, contributions, false);
                    assert(fed == old(self).fed(self.u));
                }
                return Err(DOSError::Step);
            },
        }
        proof {
            let contributions = choose|contributions: Seq<Vec<T>>| #[trigger]
                fed.steps_to(*self, solve, plus, contributions, true);
            assert(fed == old(self).fed(self.u));
        }
        Ok(self.outputs())
    }
}

} // verus!
