//! The adapter of a controller.
//!
//! A controller is a filter of fixed dimensions that was made elsewhere: it
//! reads a vector of input scalars and writes a vector of output scalars. The
//! adapter puts it on the signal bus. It declares which signal goes to which
//! slice of the input scalars, and which slice of the output scalars leaves
//! under which signal; it copies the payloads that it is given into the input
//! scalars, and packs the output scalars into envelopes. The filter itself is
//! run by whoever owns it, between the two.

use crate::error::DOSError;
use crate::io::{envelopes, IOError, Tags, IO};
use crate::samples::{copied, filled};
use vstd::prelude::*;

verus! {

/// A port of an adapter: a signal, and the slice of the scalars of the
/// filter that belongs to it.
#[derive(Clone, Copy, Debug)]
pub struct Port {
    pub tag: Tags,
    /// The place of the first scalar of the slice.
    pub offset: usize,
    /// The number of scalars of the slice.
    pub width: usize,
}

/// The slices of the ports lie within `n` scalars.
pub open spec fn ports_fit(ports: Seq<Port>, n: nat) -> bool {
    forall|i: int| 0 <= i < ports.len() ==> (#[trigger] ports[i]).offset + ports[i].width <= n
}

/// The payload of the last envelope of the list that bears the signal and
/// has a payload.
pub open spec fn last_filled<T>(data: Seq<(Tags, Option<Seq<T>>)>, tag: Tags) -> Option<Seq<T>>
    decreases data.len(),
{
    if data.len() == 0 {
        None
    } else if data.last().0 == tag && data.last().1 is Some {
        data.last().1
    } else {
        last_filled(data.drop_last(), tag)
    }
}

/// The scalars `u` with `payload` written over them from place `offset` on.
pub open spec fn overwritten<T>(u: Seq<T>, offset: int, payload: Seq<T>) -> Seq<T> {
    Seq::new(
        u.len(),
        |i: int|
            if offset <= i < offset + payload.len() {
                payload[i - offset]
            } else {
                u[i]
            },
    )
}

/// The input scalars once a list of envelopes is taken in: for each port in
/// turn, the payload of the last envelope that bears its signal is written
/// over the slice of the port.
pub open spec fn written<T>(u: Seq<T>, ports: Seq<Port>, data: Seq<(Tags, Option<Seq<T>>)>) -> Seq<
    T,
>
    decreases ports.len(),
{
    if ports.len() == 0 {
        u
    } else {
        let before = written(u, ports.drop_last(), data);
        match last_filled(data, ports.last().tag) {
            Some(payload) => overwritten(before, ports.last().offset as int, payload),
            None => before,
        }
    }
}

/// The envelope has a payload that is not as long as a port of its signal is wide.
pub open spec fn misfit<T>(e: (Tags, Option<Seq<T>>), ports: Seq<Port>) -> bool {
    e.1 is Some && exists|i: int|
        0 <= i < ports.len() && (#[trigger] ports[i]).tag == e.0 && e.1->0.len() != ports[i].width
}

/// The position of the first envelope, from `from` on, that does not fit its port.
pub open spec fn first_misfit<T>(data: Seq<(Tags, Option<Seq<T>>)>, ports: Seq<Port>, from: int) -> Option<
    int,
>
    decreases data.len() - from,
{
    if from < 0 || from >= data.len() {
        None
    } else if misfit(data[from], ports) {
        Some(from)
    } else {
        first_misfit(data, ports, from + 1)
    }
}

/// The position of the first port, from `from` on, for which no envelope
/// with a payload came.
pub open spec fn first_unfed<T>(ports: Seq<Port>, data: Seq<(Tags, Option<Seq<T>>)>, from: int) -> Option<
    int,
>
    decreases ports.len() - from,
{
    if from < 0 || from >= ports.len() {
        None
    } else if last_filled(data, ports[from].tag) is None {
        Some(from)
    } else {
        first_unfed(ports, data, from + 1)
    }
}

/// The envelopes that the output scalars are packed into: one for each port,
/// in the order of the ports, with the scalars of its slice.
pub open spec fn packed<T>(y: Seq<T>, ports: Seq<Port>) -> Seq<(Tags, Option<Seq<T>>)> {
    Seq::new(
        ports.len(),
        |i: int|
            (
                ports[i].tag,
                Some(y.subrange(ports[i].offset as int, ports[i].offset + ports[i].width)),
            ),
    )
}

proof fn lemma_no_misfit<T>(data: Seq<(Tags, Option<Seq<T>>)>, ports: Seq<Port>, from: int)
    requires
        0 <= from,
        first_misfit(data, ports, from) is None,
    ensures
        forall|k: int| from <= k < data.len() ==> !misfit(#[trigger] data[k], ports),
    decreases data.len() - from,
{
    if from < data.len() {
        lemma_no_misfit(data, ports, from + 1);
    }
}

proof fn lemma_last_filled_source<T>(data: Seq<(Tags, Option<Seq<T>>)>, tag: Tags)
    ensures
        last_filled(data, tag) is Some ==> exists|k: int|
            0 <= k < data.len() && (#[trigger] data[k]).0 == tag && data[k].1 == last_filled(
                data,
                tag,
            ),
    decreases data.len(),
{
    if data.len() > 0 {
        if data.last().0 == tag && data.last().1 is Some {
            assert(data[data.len() - 1] == data.last());
        } else {
            lemma_last_filled_source(data.drop_last(), tag);
            if last_filled(data, tag) is Some {
                let k = choose|k: int|
                    0 <= k < data.drop_last().len() && (#[trigger] data.drop_last()[k]).0 == tag
                        && data.drop_last()[k].1 == last_filled(data.drop_last(), tag);
                assert(data[k] == data.drop_last()[k]);
            }
        }
    }
}

/// The payload of the last envelope that bears the signal and has a payload.
fn last_filled_with_tag<'a, T>(data: &'a Vec<IO<Vec<T>>>, tag: Tags) -> (r: Option<&'a Vec<T>>)
    ensures
        match r {
            Some(payload) => last_filled(envelopes(data@), tag) == Some(payload@),
            None => last_filled(envelopes(data@), tag) is None,
        },
{
    let ghost ev = envelopes(data@);
    let mut j: usize = data.len();
    proof {
        assert(ev.take(j as int) =~= ev);
    }
    while j > 0
        invariant
            j <= data.len(),
            ev == envelopes(data@),
            last_filled(ev, tag) == last_filled(ev.take(j as int), tag),
        decreases j,
    {
        j -= 1;
        proof {
            assert(ev.take(j as int + 1).drop_last() =~= ev.take(j as int));
            assert(ev.take(j as int + 1).last() == ev[j as int]);
            assert(ev[j as int] == data@[j as int].view());
        }
        if data[j].tag == tag {
            if let Some(payload) = &data[j].data {
                return Some(payload);
            }
        }
    }
    None
}

/// An adapter: the input and output scalars of a filter, with the ports that
/// put them on the signal bus.
pub struct Adapter<T> {
    /// The input scalars of the filter.
    pub u: Vec<T>,
    /// The output scalars of the filter.
    pub y: Vec<T>,
    /// The ports through which signals reach the input scalars.
    pub inputs: Vec<Port>,
    /// The ports through which the output scalars leave.
    pub outputs: Vec<Port>,
}

impl<T> Adapter<T> {
    /// The adapter is consistent: the slice of each port lies within the
    /// scalars that it belongs to.
    pub open spec fn wf(self) -> bool {
        &&& ports_fit(self.inputs@, self.u@.len())
        &&& ports_fit(self.outputs@, self.y@.len())
    }

    /// The signals of a list of ports, port by port.
    pub open spec fn tags_of(ports: Seq<Port>) -> Seq<Tags> {
        Seq::new(ports.len(), |i: int| ports[i].tag)
    }
}

impl<T: Copy> Adapter<T> {
    /// An adapter of a filter of `n_u` input scalars and `n_y` output
    /// scalars, all of them `zero`, with the ports given.
    pub fn new(zero: T, n_u: usize, n_y: usize, inputs: Vec<Port>, outputs: Vec<Port>) -> (r: Self)
        requires
            ports_fit(inputs@, n_u as nat),
            ports_fit(outputs@, n_y as nat),
        ensures
            r.wf(),
            r.u@ == Seq::new(n_u as nat, |i: int| zero),
            r.y@ == Seq::new(n_y as nat, |i: int| zero),
            r.inputs == inputs,
            r.outputs == outputs,
    {
        Adapter { u: filled(zero, n_u), y: filled(zero, n_y), inputs, outputs }
    }

    /// The signals of a list of ports, port by port.
    pub fn tags(ports: &Vec<Port>) -> (r: Vec<Tags>)
        ensures
            r@ == Self::tags_of(ports@),
    {
        let mut r: Vec<Tags> = Vec::new();
        let mut i: usize = 0;
        while i < ports.len()
            invariant
                i <= ports.len(),
                r@.len() == i,
                forall|j: int| 0 <= j < i ==> r@[j] == ports@[j].tag,
            decreases ports.len() - i,
        {
            r.push(ports[i].tag);
            i += 1;
        }
        proof {
            assert(r@ =~= Self::tags_of(ports@));
        }
        r
    }

    /// Takes a list of envelopes in.
    ///
    /// The payload of the last envelope that bears the signal of a port is
    /// copied to the slice of the port; envelopes of other signals, and
    /// envelopes without a payload, are passed over. The call fails with
    /// `Inputs` where a payload is not as long as a port of its signal is
    /// wide, else with `Missing` where no payload came for a port, with the
    /// signal of the first such port; the input scalars are then left as
    /// they were.
    #[verifier::loop_isolation(false)]
    pub fn inputs(&mut self, data: Vec<IO<Vec<T>>>) -> (r: Result<(), DOSError<IOError>>)
        requires
            old(self).wf(),
        ensures
            final(self).wf(),
            final(self).u@.len() == old(self).u@.len(),
            final(self).y == old(self).y,
            final(self).inputs == old(self).inputs,
            final(self).outputs == old(self).outputs,
            match r {
                Ok(()) => {
                    &&& first_misfit(envelopes(data@), old(self).inputs@, 0) is None
                    &&& first_unfed(old(self).inputs@, envelopes(data@), 0) is None
                    &&& final(self).u@ == written(
                        old(self).u@,
                        old(self).inputs@,
                        envelopes(data@),
                    )
                },
                Err(e) => {
                    &&& final(self).u == old(self).u
                    &&& if first_misfit(envelopes(data@), old(self).inputs@, 0) is Some {
                        e == DOSError::<IOError>::Inputs
                    } else {
                        first_unfed(old(self).inputs@, envelopes(data@), 0) matches Some(i) && (
                        e matches DOSError::Component(IOError::Missing(name)) && name@
                            == old(self).inputs@[i].tag.canonical_name())
                    }
                },
            },
    {
        let ghost ev = envelopes(data@);
        let ghost ports = self.inputs@;
        let mut k: usize = 0;
        while k < data.len()
            invariant
                k <= data.len(),
                *self == *old(self),
                first_misfit(ev, ports, 0) == first_misfit(ev, ports, k as int),
            decreases data.len() - k,
        {
            if let Some(payload) = &data[k].data {
                let mut i: usize = 0;
                while i < self.inputs.len()
                    invariant
                        i <= self.inputs.len(),
                        *self == *old(self),
                        forall|j: int|
                            0 <= j < i && (#[trigger] ports[j]).tag == data@[k as int].tag
                                ==> payload@.len() == ports[j].width,
                    decreases self.inputs.len() - i,
                {
                    if self.inputs[i].tag == data[k].tag && payload.len() != self.inputs[i].width {
                        proof {
                            assert(ev[k as int] == data@[k as int].view());
                            assert(ports[i as int].tag == ev[k as int].0);
                            assert(misfit(ev[k as int], ports));
                        }
                        return Err(DOSError::Inputs);
                    }
                    i += 1;
                }
            }
            proof {
                assert(ev[k as int] == data@[k as int].view());
                assert(!misfit(ev[k as int], ports));
            }
            k += 1;
        }
        proof {
            lemma_no_misfit(ev, ports, 0);
        }
        let mut u = copied(&self.u);
        let mut i: usize = 0;
        while i < self.inputs.len()
            invariant
                i <= self.inputs.len(),
                *self == *old(self),
                first_unfed(ports, ev, 0) == first_unfed(ports, ev, i as int),
                u@ == written(self.u@, ports.take(i as int), ev),
                u@.len() == self.u@.len(),
            decreases self.inputs.len() - i,
        {
            let port = self.inputs[i];
            proof {
                assert(ports.take(i as int + 1).drop_last() =~= ports.take(i as int));
                assert(ports.take(i as int + 1).last() == port);
                lemma_last_filled_source(ev, port.tag);
            }
            match last_filled_with_tag(&data, port.tag) {
                Some(payload) => {
                    proof {
                        let k = choose|k: int|
                            0 <= k < ev.len() && (#[trigger] ev[k]).0 == port.tag && ev[k].1
                                == last_filled(ev, port.tag);
                        assert(!misfit(ev[k], ports));
                        assert(ports[i as int].tag == ev[k].0);
                        assert(payload@.len() == port.width);
                    }
                    let ghost before = u@;
                    let mut j: usize = 0;
                    while j < port.width
                        invariant
                            j <= port.width,
                            port.offset + port.width <= u.len(),
                            payload@.len() == port.width,
                            u@.len() == before.len(),
                            forall|m: int|
                                0 <= m < u@.len() ==> u@[m] == if port.offset <= m < port.offset
                                    + j {
                                    payload@[m - port.offset]
                                } else {
                                    before[m]
                                },
                        decreases port.width - j,
                    {
                        u.set(port.offset + j, payload[j]);
                        j += 1;
                    }
                    proof {
                        assert(u@ =~= overwritten(before, port.offset as int, payload@));
                    }
                },
                None => {
                    return Err(DOSError::Component(IOError::Missing(port.tag.name())));
                },
            }
            i += 1;
        }
        proof {
            assert(ports.take(ports.len() as int) =~= ports);
        }
        self.u = u;
        Ok(())
    }

    /// Runs the filter once: the filter reads the input scalars and writes
    /// the output scalars. The call fails with `Step`, and leaves the output
    /// scalars as they were, where the filter did not write one sample for
    /// each output scalar.
    pub fn step<F: FnOnce(&Vec<T>) -> Vec<T>>(&mut self, filter: F) -> (r: Result<
        (),
        DOSError<()>,
    >)
        requires
            old(self).wf(),
            call_requires(filter, (&old(self).u,)),
        ensures
            final(self).wf(),
            final(self).u == old(self).u,
            final(self).inputs == old(self).inputs,
            final(self).outputs == old(self).outputs,
            match r {
                Ok(()) => {
                    &&& call_ensures(filter, (&old(self).u,), final(self).y)
                    &&& final(self).y@.len() == old(self).y@.len()
                },
                Err(e) => {
                    &&& e == DOSError::<()>::Step
                    &&& final(self).y == old(self).y
                    &&& exists|y: Vec<T>|
                        call_ensures(filter, (&old(self).u,), y) && y@.len() != old(self).y@.len()
                },
            },
    {
        let y = filter(&self.u);
        if y.len() != self.y.len() {
            return Err(DOSError::Step);
        }
        self.y = y;
        Ok(())
    }

    /// Takes the inputs in, runs the filter once and hands the outputs out.
    ///
    /// The call fails as `inputs` does, and the filter is then not run; or
    /// with `Step` as `step` does. Else the envelopes are those of the output
    /// scalars that the filter wrote for the input scalars that the envelopes
    /// of `data` give.
    pub fn in_step_out<F: FnOnce(&Vec<T>) -> Vec<T>>(
        &mut self,
        data: Vec<IO<Vec<T>>>,
        filter: F,
    ) -> (r: Result<Option<Vec<IO<Vec<T>>>>, DOSError<IOError>>)
        requires
            old(self).wf(),
            forall|u: &Vec<T>| call_requires(filter, (u,)),
        ensures
            final(self).wf(),
            final(self).u@.len() == old(self).u@.len(),
            final(self).y@.len() == old(self).y@.len(),
            final(self).inputs == old(self).inputs,
            final(self).outputs == old(self).outputs,
            match r {
                Ok(out) => {
                    &&& first_misfit(envelopes(data@), old(self).inputs@, 0) is None
                    &&& first_unfed(old(self).inputs@, envelopes(data@), 0) is None
                    &&& final(self).u@ == written(
                        old(self).u@,
                        old(self).inputs@,
                        envelopes(data@),
                    )
                    &&& call_ensures(filter, (&final(self).u,), final(self).y)
                    &&& final(self).y@.len() == old(self).y@.len()
                    &&& out matches Some(list) && envelopes(list@) == packed(
                        final(self).y@,
                        old(self).outputs@,
                    )
                },
                Err(e) => {
                    &&& final(self).y == old(self).y
                    &&& if first_misfit(envelopes(data@), old(self).inputs@, 0) is Some {
                        e == DOSError::<IOError>::Inputs && final(self).u == old(self).u
                    } else if first_unfed(old(self).inputs@, envelopes(data@), 0) is Some {
                        &&& final(self).u == old(self).u
                        &&& e matches DOSError::Component(IOError::Missing(name)) && name@
                            == old(self).inputs@[first_unfed(
                            old(self).inputs@,
                            envelopes(data@),
                            0,
                        )->0].tag.canonical_name()
                    } else {
                        &&& e == DOSError::<IOError>::Step
                        &&& final(self).u@ == written(
                            old(self).u@,
                            old(self).inputs@,
                            envelopes(data@),
                        )
                        &&& exists|y: Vec<T>|
                            call_ensures(filter, (&final(self).u,), y) && y@.len() != old(
                                self,
                            ).y@.len()
                    }
                },
            },
    {
        match self.inputs(data) {
            Ok(()) => {},
            Err(e) => {
                return Err(e);
            },
        }
        match self.step(filter) {
            Ok(()) => {},
            Err(_) => {
                return Err(DOSError::Step);
            },
        }
        Ok(self.outputs())
    }

    /// The output scalars as envelopes: one for each port, in the order of
    /// the ports, each with a fresh copy of the scalars of its slice.
    pub fn outputs(&self) -> (r: Option<Vec<IO<Vec<T>>>>)
        requires
            self.wf(),
        ensures
            r matches Some(list) && envelopes(list@) == packed(self.y@, self.outputs@),
    {
        let mut list: Vec<IO<Vec<T>>> = Vec::new();
        let mut i: usize = 0;
        while i < self.outputs.len()
            invariant
                i <= self.outputs.len(),
                self.wf(),
                list@.len() == i,
                forall|j: int|
                    0 <= j < i ==> (#[trigger] list@[j]).view() == packed(
                        self.y@,
                        self.outputs@,
                    )[j],
            decreases self.outputs.len() - i,
        {
            let port = self.outputs[i];
            assert(port.offset + port.width <= self.y.len());
            let mut samples: Vec<T> = Vec::new();
            let mut j: usize = 0;
            while j < port.width
                invariant
                    j <= port.width,
                    port.offset + port.width <= self.y.len(),
                    samples@ == self.y@.subrange(port.offset as int, port.offset + j),
                decreases port.width - j,
            {
                samples.push(self.y[port.offset + j]);
                j += 1;
                proof {
                    assert(samples@ =~= self.y@.subrange(port.offset as int, port.offset + j));
                }
            }
            list.push(IO::with(port.tag, samples));
            i += 1;
        }
        proof {
            assert(envelopes(list@) =~= packed(self.y@, self.outputs@));
        }
        Some(list)
    }
}

} // verus!
