//! The drives of the mount.
//!
//! The filter reads the 3 mount commands, then the 20 drive positions: 8 of the
//! azimuth drive, 8 of the elevation drive and 4 of the GIR drive. It writes the
//! 20 drive forces, divided among the drives as the positions are.

use crate::controllers::adapter::{
    first_misfit, first_unfed, packed, written, Adapter, Port,
};
use crate::error::DOSError;
use crate::io::{envelopes, IOError, Tags, IO};
use crate::{IOTags, DOS};
use vstd::prelude::*;

verus! {

/// The number of input scalars of the filter.
pub const N_U: usize = 23;

/// The number of output scalars of the filter.
pub const N_Y: usize = 20;

/// The ports through which signals reach the input scalars of the filter.
pub open spec fn input_ports() -> Seq<Port> {
    seq![
        Port { tag: Tags::MountCmd, offset: 0, width: 3 },
        Port { tag: Tags::OSSAzDriveD, offset: 3, width: 8 },
        Port { tag: Tags::OSSElDriveD, offset: 11, width: 8 },
        Port { tag: Tags::OSSGIRDriveD, offset: 19, width: 4 },
    ]
}

/// The ports through which the output scalars of the filter leave.
pub open spec fn output_ports() -> Seq<Port> {
    seq![
        Port { tag: Tags::OSSAzDriveF, offset: 0, width: 8 },
        Port { tag: Tags::OSSElDriveF, offset: 8, width: 8 },
        Port { tag: Tags::OSSGIRDriveF, offset: 16, width: 4 },
    ]
}

/// The adapter of the filter.
pub struct Controller<T> {
    pub adapter: Adapter<T>,
}

impl<T: Copy> Controller<T> {
    /// The adapter has the scalars and the ports of the filter.
    pub open spec fn wf(self) -> bool {
        &&& self.adapter.u@.len() == N_U
        &&& self.adapter.y@.len() == N_Y
        &&& self.adapter.inputs@ == input_ports()
        &&& self.adapter.outputs@ == output_ports()
    }

    /// An adapter whose input and output scalars are all `zero`.
    pub fn new(zero: T) -> (r: Self)
        ensures
            r.wf(),
            r.adapter.u@ == Seq::new(N_U as nat, |i: int| zero),
            r.adapter.y@ == Seq::new(N_Y as nat, |i: int| zero),
    {
        let inputs = vec![
            Port { tag: Tags::MountCmd, offset: 0, width: 3 },
            Port { tag: Tags::OSSAzDriveD, offset: 3, width: 8 },
            Port { tag: Tags::OSSElDriveD, offset: 11, width: 8 },
            Port { tag: Tags::OSSGIRDriveD, offset: 19, width: 4 },
        ];
        let outputs = vec![
            Port { tag: Tags::OSSAzDriveF, offset: 0, width: 8 },
            Port { tag: Tags::OSSElDriveF, offset: 8, width: 8 },
            Port { tag: Tags::OSSGIRDriveF, offset: 16, width: 4 },
        ];
        proof {
            assert(inputs@ =~= input_ports());
            assert(outputs@ =~= output_ports());
        }
        Controller { adapter: Adapter::new(zero, N_U, N_Y, inputs, outputs) }
    }

    /// Runs the filter once: the filter reads the input scalars and writes
    /// the output scalars. The call fails with `Step`, and leaves the output
    /// scalars as they were, where the filter did not write as many as it has.
    pub fn step<F: FnOnce(&Vec<T>) -> Vec<T>>(&mut self, filter: F) -> (r: Result<
        (),
        DOSError<()>,
    >)
        requires
            old(self).wf(),
            call_requires(filter, (&old(self).adapter.u,)),
        ensures
            final(self).wf(),
            final(self).adapter.u == old(self).adapter.u,
            match r {
                Ok(()) => call_ensures(filter, (&old(self).adapter.u,), final(self).adapter.y),
                Err(e) => {
                    &&& e == DOSError::<()>::Step
                    &&& final(self).adapter.y == old(self).adapter.y
                    &&& exists|y: Vec<T>|
                        call_ensures(filter, (&old(self).adapter.u,), y) && y@.len() != N_Y
                },
            },
    {
        proof {
            assert(self.adapter.wf());
        }
        self.adapter.step(filter)
    }

    /// Takes the inputs in, runs the filter once and hands the outputs out:
    /// the envelopes of the output scalars that the filter wrote for the
    /// input scalars that the envelopes of `data` give. The call fails as
    /// `inputs` does, and the filter is then not run; or with `Step` as
    /// `step` does.
    pub fn in_step_out<F: FnOnce(&Vec<T>) -> Vec<T>>(
        &mut self,
        data: Vec<IO<Vec<T>>>,
        filter: F,
    ) -> (r: Result<Option<Vec<IO<Vec<T>>>>, DOSError<IOError>>)
        requires
            old(self).wf(),
            forall|u: &Vec<T>| call_requires(filter, (u,)),
        ensures
            final(self).wf(),
            match r {
                Ok(out) => {
                    &&& first_misfit(envelopes(data@), input_ports(), 0) is None
                    &&& first_unfed(input_ports(), envelopes(data@), 0) is None
                    &&& final(self).adapter.u@ == written(
                        old(self).adapter.u@,
                        input_ports(),
                        envelopes(data@),
                    )
                    &&& call_ensures(filter, (&final(self).adapter.u,), final(self).adapter.y)
                    &&& out matches Some(list) && envelopes(list@) == packed(
                        final(self).adapter.y@,
                        output_ports(),
                    )
                },
                Err(e) => {
                    &&& final(self).adapter.y == old(self).adapter.y
                    &&& if first_misfit(envelopes(data@), input_ports(), 0) is Some {
                        e == DOSError::<IOError>::Inputs && final(self).adapter.u == old(
                            self,
                        ).adapter.u
                    } else if first_unfed(input_ports(), envelopes(data@), 0) is Some {
                        &&& final(self).adapter.u == old(self).adapter.u
                        &&& e matches DOSError::Component(IOError::Missing(name)) && name@
                            == input_ports()[first_unfed(
                            input_ports(),
                            envelopes(data@),
                            0,
                        )->0].tag.canonical_name()
                    } else {
                        &&& e == DOSError::<IOError>::Step
                        &&& final(self).adapter.u@ == written(
                            old(self).adapter.u@,
                            input_ports(),
                            envelopes(data@),
                        )
                        &&& exists|y: Vec<T>|
                            call_ensures(filter, (&final(self).adapter.u,), y) && y@.len() != N_Y
                    }
                },
            },
    {
        proof {
            assert(self.adapter.wf());
        }
        self.adapter.in_step_out(data, filter)
    }
}

impl<T: Copy> IOTags for Controller<T> {
    open spec fn outputs_tags_spec(&self) -> Seq<Tags> {
        seq![Tags::OSSAzDriveF, Tags::OSSElDriveF, Tags::OSSGIRDriveF]
    }

    open spec fn inputs_tags_spec(&self) -> Seq<Tags> {
        seq![Tags::MountCmd, Tags::OSSAzDriveD, Tags::OSSElDriveD, Tags::OSSGIRDriveD]
    }

    fn outputs_tags(&self) -> (r: Vec<Tags>) {
        vec![Tags::OSSAzDriveF, Tags::OSSElDriveF, Tags::OSSGIRDriveF]
    }

    fn inputs_tags(&self) -> (r: Vec<Tags>) {
        vec![Tags::MountCmd, Tags::OSSAzDriveD, Tags::OSSElDriveD, Tags::OSSGIRDriveD]
    }
}

impl<T: Copy> DOS<T> for Controller<T> {
    open spec fn inv(&self) -> bool {
        self.wf()
    }

    /// Copies the payloads of the envelopes to the input scalars of the
    /// filter, each to the slice of the port of its signal.
    fn inputs(&mut self, data: Vec<IO<Vec<T>>>) -> (r: Result<(), DOSError<IOError>>)
        ensures
            final(self).adapter.y == old(self).adapter.y,
            match r {
                Ok(()) => {
                    &&& first_misfit(envelopes(data@), input_ports(), 0) is None
                    &&& first_unfed(input_ports(), envelopes(data@), 0) is None
                    &&& final(self).adapter.u@ == written(
                        old(self).adapter.u@,
                        input_ports(),
                        envelopes(data@),
                    )
                },
                Err(e) => {
                    &&& final(self).adapter.u == old(self).adapter.u
                    &&& if first_misfit(envelopes(data@), input_ports(), 0) is Some {
                        e == DOSError::<IOError>::Inputs
                    } else {
                        first_unfed(input_ports(), envelopes(data@), 0) matches Some(i) && (
                        e matches DOSError::Component(IOError::Missing(name)) && name@
                            == input_ports()[i].tag.canonical_name())
                    }
                },
            },
    {
        proof {
            assert(self.adapter.wf());
        }
        self.adapter.inputs(data)
    }

    /// Packs the output scalars of the filter into envelopes, one for each
    /// output port.
    fn outputs(&mut self) -> (r: Option<Vec<IO<Vec<T>>>>)
        ensures
            *final(self) == *old(self),
            r matches Some(list) && envelopes(list@) == packed(
                old(self).adapter.y@,
                output_ports(),
            ),
    {
        proof {
            assert(self.adapter.wf());
        }
        self.adapter.outputs()
    }
}

} // verus!
