//! The wind loads that are applied to the structure.
//!
//! A record of wind loads holds, for each of seven bodies of the telescope,
//! a time series of forces and moments. A [`WindLoads`] selects which series
//! are applied and under which signal; the [`WindLoading`] that it builds
//! hands the selected series out, one sample of each at every call.

use crate::error::DOSError;
use crate::io::{IOError, Tags, IO};
use crate::samples::{copied, copied_every, copied_range, copied_rows, every, rows};
use crate::{IOTags, DOS};
use vstd::prelude::*;

verus! {

/// What can fail with a record of wind loads.
#[derive(Clone, Debug)]
pub enum WindLoadsError {
    /// The record holds no time series, so it has no length.
    Len,
    /// The record holds no time series for the body that was selected.
    Empty,
    /// The record is not where it was looked for.
    FileNotFound,
    /// The record could not be decoded.
    PickleRead,
    /// The source has no outputs to give.
    Outputs,
}

/// The forces and moments on one body: a time series of load vectors.
#[derive(Debug)]
pub enum Loads<T> {
    /// The top-end.
    OSSTopEnd6F(Vec<Vec<T>>),
    /// The truss.
    OSSTruss6F(Vec<Vec<T>>),
    /// The GIR.
    OSSGIR6F(Vec<Vec<T>>),
    /// The C-rings.
    OSSCRING6F(Vec<Vec<T>>),
    /// The M1 segment cells.
    OSSCellLcl6F(Vec<Vec<T>>),
    /// The M1 segments.
    OSSM1Lcl6F(Vec<Vec<T>>),
    /// The M2 segments.
    MCM2Lcl6F(Vec<Vec<T>>),
}

impl<T> Loads<T> {
    /// The signal of the body.
    pub open spec fn tag(self) -> Tags {
        match self {
            Loads::OSSTopEnd6F(_) => Tags::OSSTopEnd6F,
            Loads::OSSTruss6F(_) => Tags::OSSTruss6F,
            Loads::OSSGIR6F(_) => Tags::OSSGIR6F,
            Loads::OSSCRING6F(_) => Tags::OSSCRING6F,
            Loads::OSSCellLcl6F(_) => Tags::OSSCellLcl6F,
            Loads::OSSM1Lcl6F(_) => Tags::OSSM1Lcl6F,
            Loads::MCM2Lcl6F(_) => Tags::MCM2Lcl6F,
        }
    }

    /// The time series.
    pub open spec fn series(self) -> Seq<Vec<T>> {
        match self {
            Loads::OSSTopEnd6F(io) => io@,
            Loads::OSSTruss6F(io) => io@,
            Loads::OSSGIR6F(io) => io@,
            Loads::OSSCRING6F(io) => io@,
            Loads::OSSCellLcl6F(io) => io@,
            Loads::OSSM1Lcl6F(io) => io@,
            Loads::MCM2Lcl6F(io) => io@,
        }
    }

    /// The signal of the body.
    pub fn kind(&self) -> (r: Tags)
        ensures
            r == self.tag(),
    {
        match self {
            Loads::OSSTopEnd6F(_) => Tags::OSSTopEnd6F,
            Loads::OSSTruss6F(_) => Tags::OSSTruss6F,
            Loads::OSSGIR6F(_) => Tags::OSSGIR6F,
            Loads::OSSCRING6F(_) => Tags::OSSCRING6F,
            Loads::OSSCellLcl6F(_) => Tags::OSSCellLcl6F,
            Loads::OSSM1Lcl6F(_) => Tags::OSSM1Lcl6F,
            Loads::MCM2Lcl6F(_) => Tags::MCM2Lcl6F,
        }
    }

    /// The time series.
    pub fn samples(&self) -> (r: &Vec<Vec<T>>)
        ensures
            r@ == self.series(),
    {
        match self {
            Loads::OSSTopEnd6F(io) => io,
            Loads::OSSTruss6F(io) => io,
            Loads::OSSGIR6F(io) => io,
            Loads::OSSCRING6F(io) => io,
            Loads::OSSCellLcl6F(io) => io,
            Loads::OSSM1Lcl6F(io) => io,
            Loads::MCM2Lcl6F(io) => io,
        }
    }

    /// The number of samples in the time series.
    pub fn len(&self) -> (n: usize)
        ensures
            n == self.series().len(),
    {
        self.samples().len()
    }

    /// The time series, taken out of the record.
    pub fn io(self) -> (r: Vec<Vec<T>>)
        ensures
            r@ == self.series(),
    {
        match self {
            Loads::OSSTopEnd6F(io) => io,
            Loads::OSSTruss6F(io) => io,
            Loads::OSSGIR6F(io) => io,
            Loads::OSSCRING6F(io) => io,
            Loads::OSSCellLcl6F(io) => io,
            Loads::OSSM1Lcl6F(io) => io,
            Loads::MCM2Lcl6F(io) => io,
        }
    }
}

impl Tags {
    /// Matches the signal to the loads on a body: a copy of the time series
    /// where the loads are those of the signal, no match otherwise.
    pub fn data<T: Copy>(&self, wind_loads: &Loads<T>) -> (r: Option<Vec<Vec<T>>>)
        ensures
            match r {
                Some(series) => wind_loads.tag() == *self && rows(series@) == rows(
                    wind_loads.series(),
                ),
                None => wind_loads.tag() != *self,
            },
    {
        if wind_loads.kind() == *self {
            let samples = wind_loads.samples();
            let series = copied_rows(samples, samples.len());
            proof {
                assert(rows(samples@).take(samples@.len() as int) =~= rows(samples@));
            }
            Some(series)
        } else {
            None
        }
    }

    /// Matches the signal to the loads on a body: a copy of the first `n`
    /// samples of the time series where the loads are those of the signal,
    /// no match otherwise.
    pub fn ndata<T: Copy>(&self, wind_loads: &Loads<T>, n: usize) -> (r: Option<Vec<Vec<T>>>)
        requires
            wind_loads.tag() == *self ==> n <= wind_loads.series().len(),
        ensures
            match r {
                Some(series) => wind_loads.tag() == *self && rows(series@) == rows(
                    wind_loads.series(),
                ).take(n as int),
                None => wind_loads.tag() != *self,
            },
    {
        if wind_loads.kind() == *self {
            Some(copied_rows(wind_loads.samples(), n))
        } else {
            None
        }
    }
}

/// The position of the first body of the record, from `from` on.
pub open spec fn first_present<T>(loads: Seq<Option<Loads<T>>>, from: int) -> Option<int>
    decreases loads.len() - from,
{
    if from < 0 || from >= loads.len() {
        None
    } else if loads[from] is Some {
        Some(from)
    } else {
        first_present(loads, from + 1)
    }
}

/// The position of the first body of the record, from `from` on, whose loads
/// are those of the signal.
pub open spec fn first_of<T>(loads: Seq<Option<Loads<T>>>, tag: Tags, from: int) -> Option<int>
    decreases loads.len() - from,
{
    if from < 0 || from >= loads.len() {
        None
    } else if loads[from] matches Some(body) && body.tag() == tag {
        Some(from)
    } else {
        first_of(loads, tag, from + 1)
    }
}

proof fn lemma_present_found<T>(loads: Seq<Option<Loads<T>>>, from: int, i: int)
    requires
        0 <= from <= i < loads.len(),
        loads[i] is Some,
    ensures
        first_present(loads, from) is Some,
    decreases loads.len() - from,
{
    if from < i && loads[from] is None {
        lemma_present_found(loads, from + 1, i);
    }
}

/// What the selected series hold: for each the signal under which it is
/// applied, and its samples.
pub open spec fn streams<T>(tagged_loads: Seq<IO<Vec<Vec<T>>>>) -> Seq<(Tags, Option<Seq<Seq<T>>>)> {
    Seq::new(
        tagged_loads.len(),
        |i: int|
            (
                tagged_loads[i].tag,
                match tagged_loads[i].data {
                    Some(series) => Some(rows(series@)),
                    None => None,
                },
            ),
    )
}

/// The samples that are taken of a series: `n_sample` of them where that is
/// set, else all that follow, from sample `first` on.
pub open spec fn window<T>(series: Seq<Seq<T>>, first: usize, n_sample: Option<usize>) -> Seq<
    Seq<T>,
> {
    series.subrange(
        first as int,
        match n_sample {
            Some(n) => first + n,
            None => series.len() as int,
        },
    )
}

/// The samples of the series that is selected from the loads of the signal
/// `source`: those of the first body of the record whose loads are those of
/// the signal, from sample `first` on, cut to `n_sample` samples where that
/// is set, and of these one in every `decimation`.
pub open spec fn rows_of<T>(
    loads: Seq<Option<Loads<T>>>,
    first: usize,
    n_sample: Option<usize>,
    decimation: usize,
    source: Tags,
) -> Option<Seq<Seq<T>>> {
    match first_of(loads, source, 0) {
        Some(k) => Some(
            every(window(rows(loads[k]->0.series()), first, n_sample), decimation as int),
        ),
        None => None,
    }
}

/// The series that a list of selections adds, each selection a pair of the
/// signal under which the loads are applied and the signal whose loads are
/// taken; `None` where the record lacks the loads of one of them.
pub open spec fn streams_of<T>(
    loads: Seq<Option<Loads<T>>>,
    first: usize,
    n_sample: Option<usize>,
    decimation: usize,
    wanted: Seq<(Tags, Tags)>,
) -> Option<Seq<(Tags, Option<Seq<Seq<T>>>)>>
    decreases wanted.len(),
{
    if wanted.len() == 0 {
        Some(Seq::empty())
    } else {
        match (
            streams_of(loads, first, n_sample, decimation, wanted.drop_last()),
            rows_of(loads, first, n_sample, decimation, wanted.last().1),
        ) {
            (Some(head), Some(series)) => Some(head.push((wanted.last().0, Some(series)))),
            _ => None,
        }
    }
}

/// Where the record lacks the loads of one of the first selections, it lacks
/// those of one of all.
pub proof fn lemma_streams_of_prefix<T>(
    loads: Seq<Option<Loads<T>>>,
    first: usize,
    n_sample: Option<usize>,
    decimation: usize,
    wanted: Seq<(Tags, Tags)>,
    i: int,
)
    requires
        0 <= i <= wanted.len(),
        streams_of(loads, first, n_sample, decimation, wanted.take(i)) is None,
    ensures
        streams_of(loads, first, n_sample, decimation, wanted) is None,
    decreases wanted.len() - i,
{
    if i < wanted.len() {
        assert(wanted.take(i + 1).drop_last() =~= wanted.take(i));
        lemma_streams_of_prefix(loads, first, n_sample, decimation, wanted, i + 1);
    } else {
        assert(wanted.take(i) =~= wanted);
    }
}

/// The builder of a wind loading source.
pub struct WindLoads<T> {
    /// The forces and moments time series, body by body.
    pub loads: Vec<Option<Loads<T>>>,
    /// The time vector.
    pub time: Vec<T>,
    /// The sample from which on samples are taken of each series.
    pub first: usize,
    /// The number of samples that are taken of each series, where it is set.
    pub n_sample: Option<usize>,
    /// Of the samples that are taken, one in every `decimation` is kept.
    pub decimation: usize,
    /// The series that are selected.
    pub tagged_loads: Vec<IO<Vec<Vec<T>>>>,
}

impl<T> WindLoads<T> {
    /// The number of samples of the record: that of its first body.
    pub open spec fn spec_len(self) -> Option<nat> {
        match first_present(self.loads@, 0) {
            Some(k) => Some(self.loads@[k]->0.series().len()),
            None => None,
        }
    }

    /// The record is well formed: the series of all its bodies are of equal
    /// length, the samples that are taken are samples that the record has,
    /// their number, where it is set, is not zero, and the decimation is not
    /// zero.
    pub open spec fn wf(self) -> bool {
        &&& self.decimation > 0
        &&& forall|i: int|
            0 <= i < self.loads@.len() && (#[trigger] self.loads@[i]) is Some
                ==> self.loads@[i]->0.series().len() == self.spec_len()->0
        &&& self.n_sample matches Some(n) ==> 0 < n
        &&& self.spec_len() matches Some(len) ==> self.first + match self.n_sample {
            Some(n) => n as int,
            None => 0,
        } <= len
    }

    /// The samples of the series that is selected from the loads of the
    /// signal `source`: those of the first body of the record whose loads are
    /// those of the signal, cut to the number of samples to take where it is set.
    pub open spec fn source_rows(self, source: Tags) -> Option<Seq<Seq<T>>> {
        rows_of(self.loads@, self.first, self.n_sample, self.decimation, source)
    }

    /// The record and the number of samples to take are those of `other`.
    pub open spec fn same_record(self, other: Self) -> bool {
        &&& self.loads == other.loads
        &&& self.time == other.time
        &&& self.first == other.first
        &&& self.n_sample == other.n_sample
        &&& self.decimation == other.decimation
    }

    /// A builder on a record, with nothing selected.
    pub fn new(loads: Vec<Option<Loads<T>>>, time: Vec<T>) -> (r: Self)
        ensures
            r.loads == loads,
            r.time == time,
            r.first == 0,
            r.n_sample is None,
            r.decimation == 1,
            r.tagged_loads@.len() == 0,
    {
        WindLoads {
            loads,
            time,
            first: 0,
            n_sample: None,
            decimation: 1,
            tagged_loads: Vec::new(),
        }
    }

    /// Keeps one sample in every `factor` of those that are taken of each
    /// series: the first, and from then on each that comes `factor` samples
    /// after the one before.
    pub fn decimate(self, factor: usize) -> (r: Self)
        requires
            factor > 0,
        ensures
            r.decimation == factor,
            r.loads == self.loads,
            r.time == self.time,
            r.first == self.first,
            r.n_sample == self.n_sample,
            r.tagged_loads == self.tagged_loads,
    {
        WindLoads { decimation: factor, ..self }
    }

    /// The number of samples in the time series.
    pub fn len(&self) -> (r: Result<usize, DOSError<WindLoadsError>>)
        ensures
            match r {
                Ok(n) => self.spec_len() == Some(n as nat),
                Err(e) => self.spec_len() is None && e == DOSError::Component(
                    WindLoadsError::Len,
                ),
            },
    {
        let mut i: usize = 0;
        while i < self.loads.len()
            invariant
                i <= self.loads.len(),
                first_present(self.loads@, 0) == first_present(self.loads@, i as int),
            decreases self.loads.len() - i,
        {
            if let Some(body) = &self.loads[i] {
                return Ok(body.len());
            }
            i += 1;
        }
        Err(DOSError::Component(WindLoadsError::Len))
    }

    /// Sets the number of samples that are taken of each series, from the
    /// first sample of the record on.
    pub fn n_sample(self, n_sample: usize) -> (r: Result<Self, DOSError<WindLoadsError>>)
        requires
            n_sample > 0,
            self.spec_len() matches Some(len) ==> n_sample <= len,
        ensures
            self.ranges(r, 0, n_sample),
    {
        self.range(0, n_sample)
    }

    /// Sets the samples that are taken of each series: `n_sample` samples
    /// from sample `first` on. The call fails with `Len` where the record
    /// holds no time series.
    pub fn range(self, first: usize, n_sample: usize) -> (r: Result<Self, DOSError<
        WindLoadsError,
    >>)
        requires
            n_sample > 0,
            self.spec_len() matches Some(len) ==> first + n_sample <= len,
        ensures
            self.ranges(r, first, n_sample),
    {
        match self.len() {
            Ok(_) => Ok(WindLoads { first, n_sample: Some(n_sample), ..self }),
            Err(e) => Err(e),
        }
    }

    /// `r` is what setting the samples that are taken gives: the builder
    /// with `n_sample` samples taken from sample `first` on, or the error
    /// `Len` where the record holds no time series.
    pub open spec fn ranges(
        self,
        r: Result<Self, DOSError<WindLoadsError>>,
        first: usize,
        n_sample: usize,
    ) -> bool {
        match r {
            Ok(set) => {
                &&& self.spec_len() is Some
                &&& set.first == first
                &&& set.n_sample == Some(n_sample)
                &&& set.loads == self.loads
                &&& set.time == self.time
                &&& set.decimation == self.decimation
                &&& set.tagged_loads == self.tagged_loads
                &&& self.wf() ==> set.wf()
            },
            Err(e) => self.spec_len() is None && e == DOSError::Component(WindLoadsError::Len),
        }
    }
}

impl<T: Copy> WindLoads<T> {
    /// The series that is selected from the loads of a signal.
    pub fn tagged_load(&self, io: &Tags) -> (r: Result<Option<Vec<Vec<T>>>, DOSError<
        WindLoadsError,
    >>)
        requires
            self.wf(),
        ensures
            match r {
                Ok(found) => found matches Some(series) && self.source_rows(*io) == Some(
                    rows(series@),
                ),
                Err(e) => self.source_rows(*io) is None && e == DOSError::Component(
                    WindLoadsError::Empty,
                ),
            },
    {
        let mut i: usize = 0;
        while i < self.loads.len()
            invariant
                i <= self.loads.len(),
                self.wf(),
                first_of(self.loads@, *io, 0) == first_of(self.loads@, *io, i as int),
            decreases self.loads.len() - i,
        {
            if let Some(body) = &self.loads[i] {
                if body.kind() == *io {
                    let len = body.len();
                    proof {
                        lemma_present_found(self.loads@, 0, i as int);
                        assert(self.loads@[i as int]->0.series().len() == self.spec_len()->0);
                    }
                    let to = match self.n_sample {
                        Some(n) => self.first + n,
                        None => len,
                    };
                    let taken = copied_range(body.samples(), self.first, to);
                    return Ok(Some(copied_every(&taken, self.decimation)));
                }
            }
            i += 1;
        }
        Err(DOSError::Component(WindLoadsError::Empty))
    }

    /// Selects the loads of the signal `source` and applies them under the
    /// signal `tag`.
    pub fn select(self, tag: Tags, source: Tags) -> (r: Result<Self, DOSError<WindLoadsError>>)
        requires
            self.wf(),
        ensures
            self.selects(r, seq![(tag, source)]),
    {
        proof {
            let wanted = seq![(tag, source)];
            assert(wanted.drop_last() =~= Seq::<(Tags, Tags)>::empty());
            assert(wanted.last() == (tag, source));
            assert(streams_of(self.loads@, self.first, self.n_sample, self.decimation, wanted.drop_last()) == Some(
                Seq::<(Tags, Option<Seq<Seq<T>>>)>::empty(),
            ));
        }
        let data = match self.tagged_load(&source) {
            Ok(data) => data,
            Err(e) => {
                return Err(e);
            },
        };
        let ghost before = self.tagged_loads@;
        let mut selected = self;
        selected.tagged_loads.push(IO { tag, data });
        proof {
            let more = Seq::<(Tags, Option<Seq<Seq<T>>>)>::empty().push(
                (tag, Some(self.source_rows(source)->0)),
            );
            assert(self.selected_streams(seq![(tag, source)]) == Some(more));
            assert(streams(selected.tagged_loads@) =~= streams(before) + more);
        }
        Ok(selected)
    }

    /// Selects the loads on the truss.
    pub fn truss(self) -> (r: Result<Self, DOSError<WindLoadsError>>)
        requires
            self.wf(),
        ensures
            self.selects(r, seq![(Tags::OSSTruss6F, Tags::OSSTruss6F)]),
    {
        self.select(Tags::OSSTruss6F, Tags::OSSTruss6F)
    }

    /// Selects the loads on the top-end.
    pub fn topend(self) -> (r: Result<Self, DOSError<WindLoadsError>>)
        requires
            self.wf(),
        ensures
            self.selects(r, seq![(Tags::OSSTopEnd6F, Tags::OSSTopEnd6F)]),
    {
        self.select(Tags::OSSTopEnd6F, Tags::OSSTopEnd6F)
    }

    /// Selects the loads on the top-end and applies them to the top-end of
    /// the adaptive secondary mirror.
    pub fn m2_asm_topend(self) -> (r: Result<Self, DOSError<WindLoadsError>>)
        requires
            self.wf(),
        ensures
            self.selects(r, seq![(Tags::MCM2TE6F, Tags::OSSTopEnd6F)]),
    {
        self.select(Tags::MCM2TE6F, Tags::OSSTopEnd6F)
    }

    /// Selects the loads on the C-rings.
    pub fn cring(self) -> (r: Result<Self, DOSError<WindLoadsError>>)
        requires
            self.wf(),
        ensures
            self.selects(r, seq![(Tags::OSSCRING6F, Tags::OSSCRING6F)]),
    {
        self.select(Tags::OSSCRING6F, Tags::OSSCRING6F)
    }

    /// Selects the loads on the GIR.
    pub fn gir(self) -> (r: Result<Self, DOSError<WindLoadsError>>)
        requires
            self.wf(),
        ensures
            self.selects(r, seq![(Tags::OSSGIR6F, Tags::OSSGIR6F)]),
    {
        self.select(Tags::OSSGIR6F, Tags::OSSGIR6F)
    }

    /// Selects the loads on the M1 cells.
    pub fn m1_cell(self) -> (r: Result<Self, DOSError<WindLoadsError>>)
        requires
            self.wf(),
        ensures
            self.selects(r, seq![(Tags::OSSCellLcl6F, Tags::OSSCellLcl6F)]),
    {
        self.select(Tags::OSSCellLcl6F, Tags::OSSCellLcl6F)
    }

    /// Selects the loads on the M1 segments.
    pub fn m1_segments(self) -> (r: Result<Self, DOSError<WindLoadsError>>)
        requires
            self.wf(),
        ensures
            self.selects(r, seq![(Tags::OSSM1Lcl6F, Tags::OSSM1Lcl6F)]),
    {
        self.select(Tags::OSSM1Lcl6F, Tags::OSSM1Lcl6F)
    }

    /// Selects the loads on the M2 segments.
    pub fn m2_segments(self) -> (r: Result<Self, DOSError<WindLoadsError>>)
        requires
            self.wf(),
        ensures
            self.selects(r, seq![(Tags::MCM2Lcl6F, Tags::MCM2Lcl6F)]),
    {
        self.select(Tags::MCM2Lcl6F, Tags::MCM2Lcl6F)
    }

    /// Selects the loads on the M2 segments and applies them to the reference
    /// bodies of the adaptive secondary mirror.
    pub fn m2_asm_reference_bodies(self) -> (r: Result<Self, DOSError<WindLoadsError>>)
        requires
            self.wf(),
        ensures
            self.selects(r, seq![(Tags::MCM2RB6F, Tags::MCM2Lcl6F)]),
    {
        self.select(Tags::MCM2RB6F, Tags::MCM2Lcl6F)
    }
}

impl<T> WindLoads<T> {
    /// The series that a list of selections adds; `None` where the record
    /// lacks the loads of one of them.
    pub open spec fn selected_streams(self, wanted: Seq<(Tags, Tags)>) -> Option<
        Seq<(Tags, Option<Seq<Seq<T>>>)>,
    > {
        streams_of(self.loads@, self.first, self.n_sample, self.decimation, wanted)
    }

    /// `r` is what the selections `wanted`, made in turn, give: the builder
    /// with the series that they add after those that it has, or the error
    /// `Empty` where the record lacks the loads of one of them.
    pub open spec fn selects(
        self,
        r: Result<Self, DOSError<WindLoadsError>>,
        wanted: Seq<(Tags, Tags)>,
    ) -> bool {
        match r {
            Ok(selected) => {
                &&& self.selected_streams(wanted) matches Some(more) && streams(
                    selected.tagged_loads@,
                ) == streams(self.tagged_loads@) + more
                &&& selected.tagged_loads@.len() == self.tagged_loads@.len() + wanted.len()
                &&& selected.same_record(self)
                &&& selected.wf()
            },
            Err(e) => self.selected_streams(wanted) is None && e == DOSError::Component(
                WindLoadsError::Empty,
            ),
        }
    }
}

impl<T: Copy> WindLoads<T> {
    /// Makes the selections of a list in turn.
    pub fn select_list(self, wanted: &Vec<(Tags, Tags)>) -> (r: Result<Self, DOSError<
        WindLoadsError,
    >>)
        requires
            self.wf(),
        ensures
            self.selects(r, wanted@),
    {
        let ghost loads = self.loads@;
        let ghost first = self.first;
        let ghost n_sample = self.n_sample;
        let ghost decimation = self.decimation;
        let ghost before = streams(self.tagged_loads@);
        let mut current = self;
        let mut i: usize = 0;
        proof {
            assert(before + Seq::<(Tags, Option<Seq<Seq<T>>>)>::empty() =~= before);
        }
        while i < wanted.len()
            invariant
                i <= wanted.len(),
                loads == self.loads@,
                first == self.first,
                n_sample == self.n_sample,
                decimation == self.decimation,
                before == streams(self.tagged_loads@),
                current.wf(),
                current.same_record(self),
                current.tagged_loads@.len() == self.tagged_loads@.len() + i,
                streams_of(loads, first, n_sample, decimation, wanted@.take(i as int)) matches Some(more) && streams(
                    current.tagged_loads@,
                ) == before + more,
            decreases wanted.len() - i,
        {
            let (tag, source) = wanted[i];
            let ghost had = streams_of(loads, first, n_sample, decimation, wanted@.take(i as int))->0;
            let ghost one = seq![(tag, source)];
            let ghost longer = wanted@.take(i as int + 1);
            proof {
                assert(longer.drop_last() =~= wanted@.take(i as int));
                assert(longer.last() == (tag, source));
                assert(one.drop_last() =~= Seq::<(Tags, Tags)>::empty());
                assert(one.last() == (tag, source));
                assert(streams_of(loads, first, n_sample, decimation, one.drop_last()) == Some(
                    Seq::<(Tags, Option<Seq<Seq<T>>>)>::empty(),
                ));
            }
            match current.select(tag, source) {
                Ok(next) => {
                    proof {
                        assert(rows_of(loads, first, n_sample, decimation, source) is Some);
                        let series = rows_of(loads, first, n_sample, decimation, source)->0;
                        let added = Seq::<(Tags, Option<Seq<Seq<T>>>)>::empty().push(
                            (tag, Some(series)),
                        );
                        assert(streams_of(loads, first, n_sample, decimation, one) == Some(added));
                        assert(streams_of(loads, first, n_sample, decimation, longer) == Some(
                            had.push((tag, Some(series))),
                        ));
                        assert(before + had.push((tag, Some(series))) =~= (before + had) + added);
                    }
                    current = next;
                },
                Err(e) => {
                    proof {
                        assert(streams_of(loads, first, n_sample, decimation, one) is None);
                        assert(rows_of(loads, first, n_sample, decimation, source) is None);
                        assert(streams_of(loads, first, n_sample, decimation, longer) is None);
                        lemma_streams_of_prefix(loads, first, n_sample, decimation, wanted@, i as int + 1);
                    }
                    return Err(e);
                },
            }
            i += 1;
        }
        proof {
            assert(wanted@.take(wanted.len() as int) =~= wanted@);
        }
        Ok(current)
    }

    /// Selects all the loads: those on the top-end, the M2 segments, the
    /// truss, the M1 segments, the M1 cells, the GIR and the C-rings.
    pub fn select_all(self) -> (r: Result<Self, DOSError<WindLoadsError>>)
        requires
            self.wf(),
        ensures
            self.selects(
                r,
                seq![
                    (Tags::OSSTopEnd6F, Tags::OSSTopEnd6F),
                    (Tags::MCM2Lcl6F, Tags::MCM2Lcl6F),
                    (Tags::OSSTruss6F, Tags::OSSTruss6F),
                    (Tags::OSSM1Lcl6F, Tags::OSSM1Lcl6F),
                    (Tags::OSSCellLcl6F, Tags::OSSCellLcl6F),
                    (Tags::OSSGIR6F, Tags::OSSGIR6F),
                    (Tags::OSSCRING6F, Tags::OSSCRING6F),
                ],
            ),
    {
        let wanted = vec![
            (Tags::OSSTopEnd6F, Tags::OSSTopEnd6F),
            (Tags::MCM2Lcl6F, Tags::MCM2Lcl6F),
            (Tags::OSSTruss6F, Tags::OSSTruss6F),
            (Tags::OSSM1Lcl6F, Tags::OSSM1Lcl6F),
            (Tags::OSSCellLcl6F, Tags::OSSCellLcl6F),
            (Tags::OSSGIR6F, Tags::OSSGIR6F),
            (Tags::OSSCRING6F, Tags::OSSCRING6F),
        ];
        self.select_list(&wanted)
    }

    /// Selects all the loads for a telescope with the adaptive secondary
    /// mirror: the loads on the top-end and on the M2 segments are applied to
    /// the top-end and to the reference bodies of that mirror.
    pub fn select_all_with_asm(self) -> (r: Result<Self, DOSError<WindLoadsError>>)
        requires
            self.wf(),
        ensures
            self.selects(
                r,
                seq![
                    (Tags::MCM2TE6F, Tags::OSSTopEnd6F),
                    (Tags::MCM2RB6F, Tags::MCM2Lcl6F),
                    (Tags::OSSTruss6F, Tags::OSSTruss6F),
                    (Tags::OSSM1Lcl6F, Tags::OSSM1Lcl6F),
                    (Tags::OSSCellLcl6F, Tags::OSSCellLcl6F),
                    (Tags::OSSGIR6F, Tags::OSSGIR6F),
                    (Tags::OSSCRING6F, Tags::OSSCRING6F),
                ],
            ),
    {
        let wanted = vec![
            (Tags::MCM2TE6F, Tags::OSSTopEnd6F),
            (Tags::MCM2RB6F, Tags::MCM2Lcl6F),
            (Tags::OSSTruss6F, Tags::OSSTruss6F),
            (Tags::OSSM1Lcl6F, Tags::OSSM1Lcl6F),
            (Tags::OSSCellLcl6F, Tags::OSSCellLcl6F),
            (Tags::OSSGIR6F, Tags::OSSGIR6F),
            (Tags::OSSCRING6F, Tags::OSSCRING6F),
        ];
        self.select_list(&wanted)
    }

    /// Builds the wind loading source: it hands out the series that are
    /// selected, and tells how many samples it was made for.
    pub fn build(self) -> (r: Result<WindLoading<T>, DOSError<WindLoadsError>>)
        ensures
            match r {
                Ok(source) => {
                    &&& self.spec_len() matches Some(len) && source.n_sample == match self.n_sample {
                        Some(n) => n as nat,
                        None => len,
                    }
                    &&& source.loads == self.tagged_loads
                    &&& source.cursor == 0
                },
                Err(e) => self.spec_len() is None && e == DOSError::Component(
                    WindLoadsError::Len,
                ),
            },
    {
        let len = match self.len() {
            Ok(len) => len,
            Err(e) => {
                return Err(e);
            },
        };
        let n_sample = match self.n_sample {
            Some(n) => n,
            None => len,
        };
        Ok(WindLoading { loads: self.tagged_loads, n_sample, cursor: 0 })
    }
}

/// The wind loading source: the time series of the forces and moments that
/// are applied to the structure, and the place that it has reached in them.
pub struct WindLoading<T> {
    /// The series, each under the signal with which it is applied.
    pub loads: Vec<IO<Vec<Vec<T>>>>,
    /// The number of samples that the source was made for.
    pub n_sample: usize,
    /// The number of samples that were handed out of each series.
    pub cursor: usize,
}

impl<T> WindLoading<T> {
    /// One of the series has no sample left.
    pub open spec fn exhausted(self) -> bool {
        exists|i: int|
            0 <= i < self.loads@.len() && match (#[trigger] self.loads@[i]).data {
                Some(series) => series@.len() <= self.cursor,
                None => true,
            }
    }

    /// The envelopes that the source hands out next: for each series, under
    /// its signal, the sample at the place that the source has reached.
    pub open spec fn next_samples(self) -> Seq<(Tags, Option<Seq<T>>)> {
        Seq::new(
            self.loads@.len(),
            |i: int| (self.loads@[i].tag, Some(self.loads@[i].data->0@[self.cursor as int]@)),
        )
    }
}

impl<T: Copy> IOTags for WindLoading<T> {
    open spec fn outputs_tags_spec(&self) -> Seq<Tags> {
        Seq::new(self.loads@.len(), |i: int| self.loads@[i].tag)
    }

    /// The source takes no signal.
    open spec fn inputs_tags_spec(&self) -> Seq<Tags> {
        Seq::empty()
    }

    fn outputs_tags(&self) -> (r: Vec<Tags>) {
        let mut r: Vec<Tags> = Vec::new();
        let mut i: usize = 0;
        while i < self.loads.len()
            invariant
                i <= self.loads.len(),
                r@.len() == i,
                forall|j: int| 0 <= j < i ==> r@[j] == self.loads@[j].tag,
            decreases self.loads.len() - i,
        {
            r.push(self.loads[i].tag);
            i += 1;
        }
        proof {
            assert(r@ =~= self.outputs_tags_spec());
        }
        r
    }

    fn inputs_tags(&self) -> (r: Vec<Tags>) {
        Vec::new()
    }
}

impl<T: Copy> DOS<T> for WindLoading<T> {
    open spec fn inv(&self) -> bool {
        true
    }

    /// Hands out the next sample of each series and moves on by one sample;
    /// or hands out nothing, and stays where it is, once a series has no
    /// sample left.
    fn outputs(&mut self) -> (r: Option<Vec<IO<Vec<T>>>>)
        ensures
            final(self).loads == old(self).loads,
            final(self).n_sample == old(self).n_sample,
            match r {
                Some(list) => {
                    &&& !old(self).exhausted()
                    &&& crate::io::envelopes(list@) == old(self).next_samples()
                    &&& final(self).cursor == if old(self).loads@.len() == 0 {
                        old(self).cursor as int
                    } else {
                        old(self).cursor + 1
                    }
                },
                None => old(self).exhausted() && final(self).cursor == old(self).cursor,
            },
    {
        let mut list: Vec<IO<Vec<T>>> = Vec::new();
        let mut i: usize = 0;
        while i < self.loads.len()
            invariant
                i <= self.loads.len(),
                *self == *old(self),
                list@.len() == i,
                forall|j: int|
                    0 <= j < i ==> match (#[trigger] self.loads@[j]).data {
                        Some(series) => series@.len() > self.cursor,
                        None => false,
                    },
                forall|j: int|
                    0 <= j < i ==> (#[trigger] list@[j]).view() == self.next_samples()[j],
            decreases self.loads.len() - i,
        {
            match &self.loads[i].data {
                Some(series) => {
                    if self.cursor < series.len() {
                        list.push(IO::with(self.loads[i].tag, copied(&series[self.cursor])));
                    } else {
                        return None;
                    }
                },
                None => {
                    return None;
                },
            }
            i += 1;
        }
        proof {
            assert(crate::io::envelopes(list@) =~= self.next_samples());
        }
        if self.loads.len() > 0 {
            proof {
                assert(self.loads@[0].data is Some);
                assert(self.cursor < self.loads@[0].data->0.len());
            }
            self.cursor = self.cursor + 1;
        }
        Some(list)
    }

    /// The source takes no input: the call fails with `Inputs`.
    fn inputs(&mut self, data: Vec<IO<Vec<T>>>) -> (r: Result<(), DOSError<IOError>>)
        ensures
            *final(self) == *old(self),
            r matches Err(e) && e == DOSError::<IOError>::Inputs,
    {
        Err(DOSError::Inputs)
    }
}

impl<T> WindLoads<T> {
    /// Whether the record is well formed.
    pub fn is_well_formed(&self) -> (r: bool)
        ensures
            r == self.wf(),
    {
        let positive = match self.n_sample {
            Some(n) => n > 0,
            None => true,
        };
        let len = match self.len() {
            Ok(len) => len,
            Err(_) => {
                proof {
                    assert forall|i: int| 0 <= i < self.loads@.len() implies (
                    #[trigger] self.loads@[i]) is None by {
                        if self.loads@[i] is Some {
                            lemma_present_found(self.loads@, 0, i);
                        }
                    }
                }
                return self.decimation > 0 && positive;
            },
        };
        let mut i: usize = 0;
        while i < self.loads.len()
            invariant
                i <= self.loads.len(),
                self.spec_len() == Some(len as nat),
                forall|j: int|
                    0 <= j < i && (#[trigger] self.loads@[j]) is Some
                        ==> self.loads@[j]->0.series().len() == len,
            decreases self.loads.len() - i,
        {
            if let Some(body) = &self.loads[i] {
                if body.len() != len {
                    return false;
                }
            }
            i += 1;
        }
        let n = match self.n_sample {
            Some(n) => n,
            None => 0,
        };
        self.decimation > 0 && positive && self.first <= len && n <= len - self.first
    }
}

} // verus!
