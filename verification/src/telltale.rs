//! The log of a simulation.
//!
//! A [`TellTale`] keeps, sample by sample, the envelopes that it is told. It
//! counts the samples: `step` moves on to the next one, and `log` files an
//! envelope under the sample that was reached. `time_series` then follows one
//! signal through the samples.

use crate::error::DOSError;
use crate::io::{envelopes, Tags, IO};
use crate::samples::copied;
use vstd::prelude::*;

verus! {

/// What can fail in a log.
#[derive(Debug)]
pub enum TellTaleError {
    /// The count of the samples cannot go on.
    Step,
    /// An envelope was told before the first sample was reached.
    Tale,
}

/// The first payload among the envelopes, from position `from` on, that
/// bears the signal.
pub open spec fn first_payload<T>(tales: Seq<(Tags, Option<Seq<T>>)>, key: Tags, from: int) -> Option<
    Seq<T>,
>
    decreases tales.len() - from,
{
    if from < 0 || from >= tales.len() {
        None
    } else if tales[from].0 == key && tales[from].1 is Some {
        tales[from].1
    } else {
        first_payload(tales, key, from + 1)
    }
}

/// What a log holds: for each sample that has envelopes, its number and the
/// envelopes that were filed under it, in the order in which they came.
pub open spec fn filed<T>(entries: Seq<(usize, Vec<IO<Vec<T>>>)>) -> Seq<
    (usize, Seq<(Tags, Option<Seq<T>>)>),
> {
    Seq::new(entries.len(), |i: int| (entries[i].0, envelopes(entries[i].1@)))
}

/// The log of a simulation.
pub struct TellTale<T> {
    /// The sampling rate of the log.
    pub sampling_rate: T,
    /// The signals that the log is kept for.
    pub keys: Vec<Tags>,
    /// The samples that have envelopes, each with its number.
    pub entries: Vec<(usize, Vec<IO<Vec<T>>>)>,
    /// The number of the sample that was reached.
    pub index: Option<usize>,
}

/// The builder of a log.
pub struct DataLogging<T> {
    /// The sampling rate of the log.
    pub sampling_rate: T,
    /// The signals that the log is kept for.
    pub keys: Vec<Tags>,
}

impl<T> DataLogging<T> {
    /// A builder of a log with the sampling rate given, kept for no signal yet.
    pub fn new(sampling_rate: T) -> (r: Self)
        ensures
            r.sampling_rate == sampling_rate,
            r.keys@.len() == 0,
    {
        DataLogging { sampling_rate, keys: Vec::new() }
    }

    /// Sets the sampling rate of the log.
    pub fn sampling_rate(self, sampling_rate: T) -> (r: Self)
        ensures
            r.sampling_rate == sampling_rate,
            r.keys == self.keys,
    {
        DataLogging { sampling_rate, ..self }
    }

    /// Adds a signal to those that the log is kept for.
    pub fn key(self, key: Tags) -> (r: Self)
        ensures
            r.sampling_rate == self.sampling_rate,
            r.keys@ == self.keys@.push(key),
    {
        let mut keys = self.keys;
        keys.push(key);
        DataLogging { keys, sampling_rate: self.sampling_rate }
    }

    /// Builds the log: it is empty, and no sample was reached.
    pub fn build(self) -> (r: TellTale<T>)
        ensures
            r.wf(),
            r.sampling_rate == self.sampling_rate,
            r.keys == self.keys,
            r.entries@.len() == 0,
            r.index is None,
    {
        TellTale {
            sampling_rate: self.sampling_rate,
            keys: self.keys,
            entries: Vec::new(),
            index: None,
        }
    }
}

impl<T> TellTale<T> {
    /// The log is in order: the samples that have envelopes come by
    /// increasing number, and none is beyond the sample that was reached.
    pub open spec fn wf(self) -> bool {
        &&& forall|i: int, j: int|
            0 <= i < j < self.entries@.len() ==> (#[trigger] self.entries@[i]).0 < (
            #[trigger] self.entries@[j]).0
        &&& forall|i: int|
            0 <= i < self.entries@.len() ==> self.index is Some && (#[trigger] self.entries@[i]).0
                <= self.index->0
    }

    /// Moves on to the next sample: the first one is sample 0. The call
    /// fails with `Step`, and the log stays where it is, where the count of
    /// the samples is at the end of the machine's integers.
    pub fn step(&mut self) -> (r: Result<(), DOSError<TellTaleError>>)
        requires
            old(self).wf(),
        ensures
            final(self).wf(),
            final(self).sampling_rate == old(self).sampling_rate,
            final(self).keys == old(self).keys,
            final(self).entries == old(self).entries,
            match r {
                Ok(()) => final(self).index == Some(
                    match old(self).index {
                        Some(x) => (x + 1) as usize,
                        None => 0usize,
                    },
                ) && old(self).index != Some(usize::MAX),
                Err(e) => old(self).index == Some(usize::MAX) && final(self).index == old(
                    self,
                ).index && e == DOSError::Component(TellTaleError::Step),
            },
    {
        match self.index {
            None => {
                self.index = Some(0);
                Ok(())
            },
            Some(x) => {
                if x == usize::MAX {
                    Err(DOSError::Component(TellTaleError::Step))
                } else {
                    self.index = Some(x + 1);
                    Ok(())
                }
            },
        }
    }
}

impl<T: Copy> TellTale<T> {
    /// Files a copy of the envelope under the sample that was reached, after
    /// the envelopes that are filed there. The call fails with `Tale`, and
    /// the log stays as it is, where no sample was reached yet.
    pub fn log(&mut self, tale: &IO<Vec<T>>) -> (r: Result<(), DOSError<TellTaleError>>)
        requires
            old(self).wf(),
        ensures
            final(self).wf(),
            final(self).sampling_rate == old(self).sampling_rate,
            final(self).keys == old(self).keys,
            final(self).index == old(self).index,
            match r {
                Ok(()) => old(self).index matches Some(i) && filed(final(self).entries@) == if old(
                    self,
                ).entries@.len() > 0 && old(self).entries@.last().0 == i {
                    filed(old(self).entries@).drop_last().push(
                        (i, envelopes(old(self).entries@.last().1@).push(tale.view())),
                    )
                } else {
                    filed(old(self).entries@).push((i, seq![tale.view()]))
                },
                Err(e) => old(self).index is None && final(self).entries == old(self).entries && e
                    == DOSError::Component(TellTaleError::Tale),
            },
    {
        let i = match self.index {
            Some(i) => i,
            None => {
                return Err(DOSError::Component(TellTaleError::Tale));
            },
        };
        let copy = tale.duplicate();
        let ghost before = self.entries@;
        let n = self.entries.len();
        if n > 0 && self.entries[n - 1].0 == i {
            let last = self.entries.pop();
            match last {
                Some((number, mut tales)) => {
                    let ghost had = tales@;
                    tales.push(copy);
                    self.entries.push((number, tales));
                    proof {
                        assert(envelopes(tales@) =~= envelopes(had).push(tale.view()));
                        assert(filed(self.entries@) =~= filed(before).drop_last().push(
                            (i, envelopes(before.last().1@).push(tale.view())),
                        ));
                        assert forall|a: int, b: int|
                            0 <= a < b < self.entries@.len() implies (#[trigger] self.entries@[a]).0
                            < (#[trigger] self.entries@[b]).0 by {
                            assert(self.entries@[a].0 == before[a].0);
                            assert(self.entries@[b].0 == before[b].0);
                        }
                        assert forall|a: int| 0 <= a < self.entries@.len() implies (
                        #[trigger] self.entries@[a]).0 <= i by {
                            assert(self.entries@[a].0 == before[a].0);
                        }
                    }
                },
                None => {},
            }
        } else {
            let mut tales: Vec<IO<Vec<T>>> = Vec::new();
            tales.push(copy);
            self.entries.push((i, tales));
            proof {
                assert(envelopes(tales@) =~= seq![tale.view()]);
                assert(filed(self.entries@) =~= filed(before).push((i, seq![tale.view()])));
                assert forall|a: int, b: int|
                    0 <= a < b < self.entries@.len() implies (#[trigger] self.entries@[a]).0 < (
                #[trigger] self.entries@[b]).0 by {
                    if b == before.len() {
                        assert(self.entries@[a] == before[a]);
                        assert(before[a].0 <= i);
                        if n > 0 {
                            assert(before[n - 1].0 != i);
                            if a < n - 1 {
                                assert(before[a].0 < before[n - 1].0);
                            }
                        }
                    } else {
                        assert(self.entries@[a] == before[a]);
                        assert(self.entries@[b] == before[b]);
                    }
                }
                assert forall|a: int| 0 <= a < self.entries@.len() implies (
                #[trigger] self.entries@[a]).0 <= i by {
                    if a < before.len() {
                        assert(self.entries@[a] == before[a]);
                    }
                }
            }
        }
        Ok(())
    }

    /// The first payload among the envelopes that bears the signal.
    fn find(tales: &Vec<IO<Vec<T>>>, key: Tags) -> (r: Option<Vec<T>>)
        ensures
            match r {
                Some(payload) => first_payload(envelopes(tales@), key, 0) == Some(payload@),
                None => first_payload(envelopes(tales@), key, 0) is None,
            },
    {
        let ghost ev = envelopes(tales@);
        let mut j: usize = 0;
        while j < tales.len()
            invariant
                j <= tales.len(),
                ev == envelopes(tales@),
                first_payload(ev, key, 0) == first_payload(ev, key, j as int),
            decreases tales.len() - j,
        {
            proof {
                assert(ev[j as int] == tales@[j as int].view());
            }
            if tales[j].tag == key {
                if let Some(payload) = &tales[j].data {
                    return Some(copied(payload));
                }
            }
            j += 1;
        }
        None
    }

    /// The time series of a signal: for each sample that has envelopes, in
    /// the order of the samples, its number with the first payload that was
    /// filed under it for the signal. The envelope that is returned bears the
    /// signal, and is without payload where a sample has envelopes but no
    /// payload for the signal.
    pub fn time_series(&self, key: Tags) -> (r: IO<Vec<(usize, Vec<T>)>>)
        ensures
            r.tag == key,
            match r.data {
                Some(series) => {
                    &&& series@.len() == self.entries@.len()
                    &&& forall|i: int|
                        0 <= i < series@.len() ==> (#[trigger] series@[i]).0 == self.entries@[i].0
                            && first_payload(envelopes(self.entries@[i].1@), key, 0) == Some(
                            series@[i].1@,
                        )
                },
                None => exists|i: int|
                    0 <= i < self.entries@.len() && first_payload(
                        envelopes((#[trigger] self.entries@[i]).1@),
                        key,
                        0,
                    ) is None,
            },
    {
        let mut series: Vec<(usize, Vec<T>)> = Vec::new();
        let mut i: usize = 0;
        while i < self.entries.len()
            invariant
                i <= self.entries.len(),
                series@.len() == i,
                forall|j: int|
                    0 <= j < i ==> (#[trigger] series@[j]).0 == self.entries@[j].0 && first_payload(
                        envelopes(self.entries@[j].1@),
                        key,
                        0,
                    ) == Some(series@[j].1@),
            decreases self.entries.len() - i,
        {
            match Self::find(&self.entries[i].1, key) {
                Some(payload) => {
                    series.push((self.entries[i].0, payload));
                },
                None => {
                    proof {
                        assert(first_payload(envelopes(self.entries@[i as int].1@), key, 0) is None);
                    }
                    return IO::new(key);
                },
            }
            i += 1;
        }
        IO::with(key, series)
    }
}

} // verus!
