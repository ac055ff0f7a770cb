//! The signal bus: the closed catalog of signal identities, the envelope that
//! carries a signal between components, and the rules by which a signal is
//! matched to a port of the finite element model.

use crate::fem::{on_indices, FemPort};
use crate::samples::copied;
use vstd::prelude::*;
use vstd::string::StringExecFns;

pub mod names;

verus! {

/// What can go wrong with an envelope or with the record it is read from.
#[derive(Clone, Debug)]
pub enum IOError {
    /// The envelope of the named signal carries no payload.
    Missing(String),
    /// There is no envelope where one is needed.
    Empty,
    /// The record is not where it was looked for.
    FileNotFound,
    /// The record could not be decoded.
    PickleRead,
    /// The component has no outputs to give.
    Outputs,
}

/// The identity of a signal. The catalog is closed: a component names a
/// signal by one of these and by nothing else.
#[derive(Clone, Copy, Debug, PartialEq, Eq, Structural)]
pub enum Tags {
    OSSTopEnd6F,
    MCM2Lcl6F,
    OSSTruss6F,
    OSSM1Lcl6F,
    OSSCellLcl6F,
    OSSGIR6F,
    OSSCRING6F,
    M1DistributedWindf,
    M1Segment1AxialD,
    M1Segment2AxialD,
    M1Segment3AxialD,
    M1Segment4AxialD,
    M1Segment5AxialD,
    M1Segment6AxialD,
    M1Segment7AxialD,
    OSSHarpointDeltaF,
    OSSHardpointD,
    M1ActuatorsSegment1,
    M1ActuatorsSegment2,
    M1ActuatorsSegment3,
    M1ActuatorsSegment4,
    M1actuatorsSegment5,
    M1actuatorsSegment6,
    M1ActuatorsSegment7,
    OSSAzDriveF,
    OSSElDriveF,
    OSSGIRDriveF,
    OSSAzDriveD,
    OSSElDriveD,
    OSSGIRDriveD,
    OSSAzDriveTorque,
    OSSElDriveTorque,
    OSSRotDriveTorque,
    OSSAzEncoderAngle,
    OSSElEncoderAngle,
    OSSRotEncoderAngle,
    SlewTorques,
    OSSM1LOS,
    MCM2LOS6D,
    OSSBASE6F,
    OSSIMUs6d,
    MCM2SmHexF,
    MCM2PMA1F,
    MCM2CP6F,
    MCM2RB6F,
    MCM2CP6D,
    MCM2RB6D,
    MCM2Lcl6D,
    MCM2TE6F,
    MCM2TEIF6F,
    OSSTrussTEIF6f,
    MCM2GravCS0,
    MCM2PZTS1F,
    MCM2PZTS2F,
    MCM2PZTS3F,
    MCM2PZTS4F,
    MCM2PZTS5F,
    MCM2PZTS6F,
    MCM2PZTS7F,
    MCM2SmallS16F,
    MCM2SmallS26F,
    MCM2SmallS36F,
    MCM2SmallS46F,
    MCM2SmallS56F,
    MCM2SmallS66F,
    MCM2SmallS76F,
    OSSGravCS0,
    OSSTrussIF6D,
    OSSGIR6D,
    OSSCRING6D,
    OSSBASE6D,
    OSSM1Lcl,
    OSSTruss6d,
    OSSCellLcl,
    MCM2SmallS16D,
    MCM2PZTS1D,
    MCM2SmallS26D,
    MCM2PZTS2D,
    MCM2SmallS36D,
    MCM2PZTS3D,
    MCM2SmallS46D,
    MCM2PZTS4D,
    MCM2SmallS56D,
    MCM2PZTS5D,
    MCM2SmallS66D,
    MCM2PZTS6D,
    MCM2SmallS76D,
    MCM2PZTS7D,
    M1SurfacesD,
    M1EdgeSensors,
    MCM2CP1D,
    MCM2SmHexD,
    M2edgesensors,
    MCM2TEIF6D,
    MCM2TE6D,
    M2ReferenceBody1AxialD,
    M2ReferenceBody2AxialD,
    M2ReferenceBody3AxialD,
    M2ReferenceBody4AxialD,
    M2ReferenceBody5AxialD,
    M2ReferenceBody6AxialD,
    M2ReferenceBody7AxialD,
    MountCmd,
    M1HPCmd,
    M1HPLC,
    M1CGFM,
}

impl Tags {
    /// The canonical identifier of the signal, by which it is matched to the
    /// ports of a finite element model.
    pub open spec fn canonical_name(self) -> Seq<char> {
        match self {
            Tags::OSSTopEnd6F => "OSSTopEnd6F"@,
            Tags::MCM2Lcl6F => "MCM2Lcl6F"@,
            Tags::OSSTruss6F => "OSSTruss6F"@,
            Tags::OSSM1Lcl6F => "OSSM1Lcl6F"@,
            Tags::OSSCellLcl6F => "OSSCellLcl6F"@,
            Tags::OSSGIR6F => "OSSGIR6F"@,
            Tags::OSSCRING6F => "OSSCRING6F"@,
            Tags::M1DistributedWindf => "M1DistributedWindf"@,
            Tags::M1Segment1AxialD => "M1Segment1AxialD"@,
            Tags::M1Segment2AxialD => "M1Segment2AxialD"@,
            Tags::M1Segment3AxialD => "M1Segment3AxialD"@,
            Tags::M1Segment4AxialD => "M1Segment4AxialD"@,
            Tags::M1Segment5AxialD => "M1Segment5AxialD"@,
            Tags::M1Segment6AxialD => "M1Segment6AxialD"@,
            Tags::M1Segment7AxialD => "M1Segment7AxialD"@,
            Tags::OSSHarpointDeltaF => "OSSHarpointDeltaF"@,
            Tags::OSSHardpointD => "OSSHardpointD"@,
            Tags::M1ActuatorsSegment1 => "M1ActuatorsSegment1"@,
            Tags::M1ActuatorsSegment2 => "M1ActuatorsSegment2"@,
            Tags::M1ActuatorsSegment3 => "M1ActuatorsSegment3"@,
            Tags::M1ActuatorsSegment4 => "M1ActuatorsSegment4"@,
            Tags::M1actuatorsSegment5 => "M1actuatorsSegment5"@,
            Tags::M1actuatorsSegment6 => "M1actuatorsSegment6"@,
            Tags::M1ActuatorsSegment7 => "M1ActuatorsSegment7"@,
            Tags::OSSAzDriveF => "OSSAzDriveF"@,
            Tags::OSSElDriveF => "OSSElDriveF"@,
            Tags::OSSGIRDriveF => "OSSGIRDriveF"@,
            Tags::OSSAzDriveD => "OSSAzDriveD"@,
            Tags::OSSElDriveD => "OSSElDriveD"@,
            Tags::OSSGIRDriveD => "OSSGIRDriveD"@,
            Tags::OSSAzDriveTorque => "OSSAzDriveTorque"@,
            Tags::OSSElDriveTorque => "OSSElDriveTorque"@,
            Tags::OSSRotDriveTorque => "OSSRotDriveTorque"@,
            Tags::OSSAzEncoderAngle => "OSSAzEncoderAngle"@,
            Tags::OSSElEncoderAngle => "OSSElEncoderAngle"@,
            Tags::OSSRotEncoderAngle => "OSSRotEncoderAngle"@,
            Tags::SlewTorques => "SlewTorques"@,
            Tags::OSSM1LOS => "OSSM1LOS"@,
            Tags::MCM2LOS6D => "MCM2LOS6D"@,
            Tags::OSSBASE6F => "OSSBASE6F"@,
            Tags::OSSIMUs6d => "OSSIMUs6d"@,
            Tags::MCM2SmHexF => "MCM2SmHexF"@,
            Tags::MCM2PMA1F => "MCM2PMA1F"@,
            Tags::MCM2CP6F => "MCM2CP6F"@,
            Tags::MCM2RB6F => "MCM2RB6F"@,
            Tags::MCM2CP6D => "MCM2CP6D"@,
            Tags::MCM2RB6D => "MCM2RB6D"@,
            Tags::MCM2Lcl6D => "MCM2Lcl6D"@,
            Tags::MCM2TE6F => "MCM2TE6F"@,
            Tags::MCM2TEIF6F => "MCM2TEIF6F"@,
            Tags::OSSTrussTEIF6f => "OSSTrussTEIF6f"@,
            Tags::MCM2GravCS0 => "MCM2GravCS0"@,
            Tags::MCM2PZTS1F => "MCM2PZTS1F"@,
            Tags::MCM2PZTS2F => "MCM2PZTS2F"@,
            Tags::MCM2PZTS3F => "MCM2PZTS3F"@,
            Tags::MCM2PZTS4F => "MCM2PZTS4F"@,
            Tags::MCM2PZTS5F => "MCM2PZTS5F"@,
            Tags::MCM2PZTS6F => "MCM2PZTS6F"@,
            Tags::MCM2PZTS7F => "MCM2PZTS7F"@,
            Tags::MCM2SmallS16F => "MCM2SmallS16F"@,
            Tags::MCM2SmallS26F => "MCM2SmallS26F"@,
            Tags::MCM2SmallS36F => "MCM2SmallS36F"@,
            Tags::MCM2SmallS46F => "MCM2SmallS46F"@,
            Tags::MCM2SmallS56F => "MCM2SmallS56F"@,
            Tags::MCM2SmallS66F => "MCM2SmallS66F"@,
            Tags::MCM2SmallS76F => "MCM2SmallS76F"@,
            Tags::OSSGravCS0 => "OSSGravCS0"@,
            Tags::OSSTrussIF6D => "OSSTrussIF6D"@,
            Tags::OSSGIR6D => "OSSGIR6D"@,
            Tags::OSSCRING6D => "OSSCRING6D"@,
            Tags::OSSBASE6D => "OSSBASE6D"@,
            Tags::OSSM1Lcl => "OSSM1Lcl"@,
            Tags::OSSTruss6d => "OSSTruss6d"@,
            Tags::OSSCellLcl => "OSSCellLcl"@,
            Tags::MCM2SmallS16D => "MCM2SmallS16D"@,
            Tags::MCM2PZTS1D => "MCM2PZTS1D"@,
            Tags::MCM2SmallS26D => "MCM2SmallS26D"@,
            Tags::MCM2PZTS2D => "MCM2PZTS2D"@,
            Tags::MCM2SmallS36D => "MCM2SmallS36D"@,
            Tags::MCM2PZTS3D => "MCM2PZTS3D"@,
            Tags::MCM2SmallS46D => "MCM2SmallS46D"@,
            Tags::MCM2PZTS4D => "MCM2PZTS4D"@,
            Tags::MCM2SmallS56D => "MCM2SmallS56D"@,
            Tags::MCM2PZTS5D => "MCM2PZTS5D"@,
            Tags::MCM2SmallS66D => "MCM2SmallS66D"@,
            Tags::MCM2PZTS6D => "MCM2PZTS6D"@,
            Tags::MCM2SmallS76D => "MCM2SmallS76D"@,
            Tags::MCM2PZTS7D => "MCM2PZTS7D"@,
            Tags::M1SurfacesD => "M1SurfacesD"@,
            Tags::M1EdgeSensors => "M1EdgeSensors"@,
            Tags::MCM2CP1D => "MCM2CP1D"@,
            Tags::MCM2SmHexD => "MCM2SmHexD"@,
            Tags::M2edgesensors => "M2edgesensors"@,
            Tags::MCM2TEIF6D => "MCM2TEIF6D"@,
            Tags::MCM2TE6D => "MCM2TE6D"@,
            Tags::M2ReferenceBody1AxialD => "M2ReferenceBody1AxialD"@,
            Tags::M2ReferenceBody2AxialD => "M2ReferenceBody2AxialD"@,
            Tags::M2ReferenceBody3AxialD => "M2ReferenceBody3AxialD"@,
            Tags::M2ReferenceBody4AxialD => "M2ReferenceBody4AxialD"@,
            Tags::M2ReferenceBody5AxialD => "M2ReferenceBody5AxialD"@,
            Tags::M2ReferenceBody6AxialD => "M2ReferenceBody6AxialD"@,
            Tags::M2ReferenceBody7AxialD => "M2ReferenceBody7AxialD"@,
            Tags::MountCmd => "MountCmd"@,
            Tags::M1HPCmd => "M1HPCmd"@,
            Tags::M1HPLC => "M1HPLC"@,
            Tags::M1CGFM => "M1CGFM"@,
        }
    }

    /// The signals that a model input can be matched to.
    pub open spec fn is_fem_input(self) -> bool {
        match self {
            Tags::MCM2RB6F
            | Tags::MCM2TE6F
            | Tags::OSSTopEnd6F
            | Tags::OSSTruss6F
            | Tags::OSSGIR6F
            | Tags::OSSCRING6F
            | Tags::OSSCellLcl6F
            | Tags::OSSM1Lcl6F
            | Tags::MCM2Lcl6F
            | Tags::OSSAzDriveF
            | Tags::OSSElDriveF
            | Tags::OSSGIRDriveF
            | Tags::OSSHarpointDeltaF
            | Tags::OSSAzDriveTorque
            | Tags::OSSElDriveTorque
            | Tags::OSSRotDriveTorque => true,
            _ => false,
        }
    }

    /// The signals that a model output can be matched to.
    pub open spec fn is_fem_output(self) -> bool {
        match self {
            Tags::OSSAzDriveD
            | Tags::OSSElDriveD
            | Tags::OSSGIRDriveD
            | Tags::OSSM1Lcl
            | Tags::MCM2Lcl6D
            | Tags::OSSHardpointD
            | Tags::OSSAzEncoderAngle
            | Tags::OSSElEncoderAngle
            | Tags::OSSRotEncoderAngle
            | Tags::MCM2RB6D => true,
            _ => false,
        }
    }

    /// The canonical identifier of the signal.
    pub fn name(&self) -> (r: String)
        ensures
            r@ == self.canonical_name(),
    {
        let s: &str = match self {
            Tags::OSSTopEnd6F => "OSSTopEnd6F",
            Tags::MCM2Lcl6F => "MCM2Lcl6F",
            Tags::OSSTruss6F => "OSSTruss6F",
            Tags::OSSM1Lcl6F => "OSSM1Lcl6F",
            Tags::OSSCellLcl6F => "OSSCellLcl6F",
            Tags::OSSGIR6F => "OSSGIR6F",
            Tags::OSSCRING6F => "OSSCRING6F",
            Tags::M1DistributedWindf => "M1DistributedWindf",
            Tags::M1Segment1AxialD => "M1Segment1AxialD",
            Tags::M1Segment2AxialD => "M1Segment2AxialD",
            Tags::M1Segment3AxialD => "M1Segment3AxialD",
            Tags::M1Segment4AxialD => "M1Segment4AxialD",
            Tags::M1Segment5AxialD => "M1Segment5AxialD",
            Tags::M1Segment6AxialD => "M1Segment6AxialD",
            Tags::M1Segment7AxialD => "M1Segment7AxialD",
            Tags::OSSHarpointDeltaF => "OSSHarpointDeltaF",
            Tags::OSSHardpointD => "OSSHardpointD",
            Tags::M1ActuatorsSegment1 => "M1ActuatorsSegment1",
            Tags::M1ActuatorsSegment2 => "M1ActuatorsSegment2",
            Tags::M1ActuatorsSegment3 => "M1ActuatorsSegment3",
            Tags::M1ActuatorsSegment4 => "M1ActuatorsSegment4",
            Tags::M1actuatorsSegment5 => "M1actuatorsSegment5",
            Tags::M1actuatorsSegment6 => "M1actuatorsSegment6",
            Tags::M1ActuatorsSegment7 => "M1ActuatorsSegment7",
            Tags::OSSAzDriveF => "OSSAzDriveF",
            Tags::OSSElDriveF => "OSSElDriveF",
            Tags::OSSGIRDriveF => "OSSGIRDriveF",
            Tags::OSSAzDriveD => "OSSAzDriveD",
            Tags::OSSElDriveD => "OSSElDriveD",
            Tags::OSSGIRDriveD => "OSSGIRDriveD",
            Tags::OSSAzDriveTorque => "OSSAzDriveTorque",
            Tags::OSSElDriveTorque => "OSSElDriveTorque",
            Tags::OSSRotDriveTorque => "OSSRotDriveTorque",
            Tags::OSSAzEncoderAngle => "OSSAzEncoderAngle",
            Tags::OSSElEncoderAngle => "OSSElEncoderAngle",
            Tags::OSSRotEncoderAngle => "OSSRotEncoderAngle",
            Tags::SlewTorques => "SlewTorques",
            Tags::OSSM1LOS => "OSSM1LOS",
            Tags::MCM2LOS6D => "MCM2LOS6D",
            Tags::OSSBASE6F => "OSSBASE6F",
            Tags::OSSIMUs6d => "OSSIMUs6d",
            Tags::MCM2SmHexF => "MCM2SmHexF",
            Tags::MCM2PMA1F => "MCM2PMA1F",
            Tags::MCM2CP6F => "MCM2CP6F",
            Tags::MCM2RB6F => "MCM2RB6F",
            Tags::MCM2CP6D => "MCM2CP6D",
            Tags::MCM2RB6D => "MCM2RB6D",
            Tags::MCM2Lcl6D => "MCM2Lcl6D",
            Tags::MCM2TE6F => "MCM2TE6F",
            Tags::MCM2TEIF6F => "MCM2TEIF6F",
            Tags::OSSTrussTEIF6f => "OSSTrussTEIF6f",
            Tags::MCM2GravCS0 => "MCM2GravCS0",
            Tags::MCM2PZTS1F => "MCM2PZTS1F",
            Tags::MCM2PZTS2F => "MCM2PZTS2F",
            Tags::MCM2PZTS3F => "MCM2PZTS3F",
            Tags::MCM2PZTS4F => "MCM2PZTS4F",
            Tags::MCM2PZTS5F => "MCM2PZTS5F",
            Tags::MCM2PZTS6F => "MCM2PZTS6F",
            Tags::MCM2PZTS7F => "MCM2PZTS7F",
            Tags::MCM2SmallS16F => "MCM2SmallS16F",
            Tags::MCM2SmallS26F => "MCM2SmallS26F",
            Tags::MCM2SmallS36F => "MCM2SmallS36F",
            Tags::MCM2SmallS46F => "MCM2SmallS46F",
            Tags::MCM2SmallS56F => "MCM2SmallS56F",
            Tags::MCM2SmallS66F => "MCM2SmallS66F",
            Tags::MCM2SmallS76F => "MCM2SmallS76F",
            Tags::OSSGravCS0 => "OSSGravCS0",
            Tags::OSSTrussIF6D => "OSSTrussIF6D",
            Tags::OSSGIR6D => "OSSGIR6D",
            Tags::OSSCRING6D => "OSSCRING6D",
            Tags::OSSBASE6D => "OSSBASE6D",
            Tags::OSSM1Lcl => "OSSM1Lcl",
            Tags::OSSTruss6d => "OSSTruss6d",
            Tags::OSSCellLcl => "OSSCellLcl",
            Tags::MCM2SmallS16D => "MCM2SmallS16D",
            Tags::MCM2PZTS1D => "MCM2PZTS1D",
            Tags::MCM2SmallS26D => "MCM2SmallS26D",
            Tags::MCM2PZTS2D => "MCM2PZTS2D",
            Tags::MCM2SmallS36D => "MCM2SmallS36D",
            Tags::MCM2PZTS3D => "MCM2PZTS3D",
            Tags::MCM2SmallS46D => "MCM2SmallS46D",
            Tags::MCM2PZTS4D => "MCM2PZTS4D",
            Tags::MCM2SmallS56D => "MCM2SmallS56D",
            Tags::MCM2PZTS5D => "MCM2PZTS5D",
            Tags::MCM2SmallS66D => "MCM2SmallS66D",
            Tags::MCM2PZTS6D => "MCM2PZTS6D",
            Tags::MCM2SmallS76D => "MCM2SmallS76D",
            Tags::MCM2PZTS7D => "MCM2PZTS7D",
            Tags::M1SurfacesD => "M1SurfacesD",
            Tags::M1EdgeSensors => "M1EdgeSensors",
            Tags::MCM2CP1D => "MCM2CP1D",
            Tags::MCM2SmHexD => "MCM2SmHexD",
            Tags::M2edgesensors => "M2edgesensors",
            Tags::MCM2TEIF6D => "MCM2TEIF6D",
            Tags::MCM2TE6D => "MCM2TE6D",
            Tags::M2ReferenceBody1AxialD => "M2ReferenceBody1AxialD",
            Tags::M2ReferenceBody2AxialD => "M2ReferenceBody2AxialD",
            Tags::M2ReferenceBody3AxialD => "M2ReferenceBody3AxialD",
            Tags::M2ReferenceBody4AxialD => "M2ReferenceBody4AxialD",
            Tags::M2ReferenceBody5AxialD => "M2ReferenceBody5AxialD",
            Tags::M2ReferenceBody6AxialD => "M2ReferenceBody6AxialD",
            Tags::M2ReferenceBody7AxialD => "M2ReferenceBody7AxialD",
            Tags::MountCmd => "MountCmd",
            Tags::M1HPCmd => "M1HPCmd",
            Tags::M1HPLC => "M1HPLC",
            Tags::M1CGFM => "M1CGFM",
        };
        String::from_str(s)
    }

    /// Whether a model input can be matched to the signal.
    pub fn fem_input(&self) -> (r: bool)
        ensures
            r == self.is_fem_input(),
    {
        match self {
            Tags::MCM2RB6F
            | Tags::MCM2TE6F
            | Tags::OSSTopEnd6F
            | Tags::OSSTruss6F
            | Tags::OSSGIR6F
            | Tags::OSSCRING6F
            | Tags::OSSCellLcl6F
            | Tags::OSSM1Lcl6F
            | Tags::MCM2Lcl6F
            | Tags::OSSAzDriveF
            | Tags::OSSElDriveF
            | Tags::OSSGIRDriveF
            | Tags::OSSHarpointDeltaF
            | Tags::OSSAzDriveTorque
            | Tags::OSSElDriveTorque
            | Tags::OSSRotDriveTorque => true,
            _ => false,
        }
    }

    /// Whether a model output can be matched to the signal.
    pub fn fem_output(&self) -> (r: bool)
        ensures
            r == self.is_fem_output(),
    {
        match self {
            Tags::OSSAzDriveD
            | Tags::OSSElDriveD
            | Tags::OSSGIRDriveD
            | Tags::OSSM1Lcl
            | Tags::MCM2Lcl6D
            | Tags::OSSHardpointD
            | Tags::OSSAzEncoderAngle
            | Tags::OSSElEncoderAngle
            | Tags::OSSRotEncoderAngle
            | Tags::MCM2RB6D => true,
            _ => false,
        }
    }
}

impl Tags {
    /// The signal is matched to a port: it is one that a port of that side of
    /// the model can carry, and the port bears its canonical identifier.
    pub open spec fn matches_port(self, port: FemPort, output: bool) -> bool {
        &&& if output {
            self.is_fem_output()
        } else {
            self.is_fem_input()
        }
        &&& port.name@ == self.canonical_name()
    }

    /// The signal is matched to a model input.
    pub open spec fn matches_fem_input(self, port: FemPort) -> bool {
        self.matches_port(port, false)
    }

    /// The signal is matched to a model output.
    pub open spec fn matches_fem_output(self, port: FemPort) -> bool {
        self.matches_port(port, true)
    }

    /// The scalar indices of the first present port, from position `from` on,
    /// that the signal is matched to; `None` where there is no such port.
    pub open spec fn port_indices_from(
        self,
        ports: Seq<Option<FemPort>>,
        from: int,
        output: bool,
    ) -> Option<Seq<u32>>
        decreases ports.len() - from,
    {
        if from < 0 || from >= ports.len() {
            None
        } else if ports[from] matches Some(port) && self.matches_port(port, output) {
            Some(on_indices(ports[from]->0.io@))
        } else {
            self.port_indices_from(ports, from + 1, output)
        }
    }

    /// Whether the signal is matched to the port.
    pub fn is_matched_to(&self, port: &FemPort, output: bool) -> (r: bool)
        ensures
            r == self.matches_port(*port, output),
    {
        let carried = if output {
            self.fem_output()
        } else {
            self.fem_input()
        };
        carried && self.name() == port.name
    }

    fn match_port(&self, port: &FemPort, output: bool) -> (r: Option<Vec<u32>>)
        ensures
            match r {
                Some(v) => self.matches_port(*port, output) && v@ == on_indices(port.io@),
                None => !self.matches_port(*port, output),
            },
    {
        if self.is_matched_to(port, output) {
            Some(port.indices())
        } else {
            None
        }
    }

    /// Matches the signal to a model input: the scalar indices of the input
    /// where it bears the signal's identifier, no match otherwise.
    pub fn match_fem_inputs(&self, fem_inputs: &FemPort) -> (r: Option<Vec<u32>>)
        ensures
            match r {
                Some(v) => self.matches_fem_input(*fem_inputs) && v@ == on_indices(
                    fem_inputs.io@,
                ),
                None => !self.matches_fem_input(*fem_inputs),
            },
    {
        self.match_port(fem_inputs, false)
    }

    /// Matches the signal to a model output: the scalar indices of the output
    /// where it bears the signal's identifier, no match otherwise.
    pub fn match_fem_outputs(&self, fem_outputs: &FemPort) -> (r: Option<Vec<u32>>)
        ensures
            match r {
                Some(v) => self.matches_fem_output(*fem_outputs) && v@ == on_indices(
                    fem_outputs.io@,
                ),
                None => !self.matches_fem_output(*fem_outputs),
            },
    {
        self.match_port(fem_outputs, true)
    }

    /// The first present port of the list that the signal is matched to.
    pub(crate) fn find_port(&self, ports: &Vec<Option<FemPort>>, output: bool) -> (r: Option<
        Vec<u32>,
    >)
        ensures
            match r {
                Some(v) => self.port_indices_from(ports@, 0, output) == Some(v@),
                None => self.port_indices_from(ports@, 0, output) is None,
            },
    {
        let mut i: usize = 0;
        while i < ports.len()
            invariant
                i <= ports.len(),
                self.port_indices_from(ports@, 0, output) == self.port_indices_from(
                    ports@,
                    i as int,
                    output,
                ),
            decreases ports.len() - i,
        {
            if let Some(port) = &ports[i] {
                if let Some(v) = self.match_port(port, output) {
                    return Some(v);
                }
            }
            i += 1;
        }
        None
    }
}

/// An envelope: the identity of a signal with an optional payload. It is the
/// only thing that travels between the components of a simulation.
#[derive(Debug)]
pub struct IO<T> {
    pub tag: Tags,
    pub data: Option<T>,
}

impl<T> IO<T> {
    /// An envelope of the signal `tag` without payload.
    pub fn new(tag: Tags) -> (r: Self)
        ensures
            r.tag == tag,
            r.data is None,
    {
        IO { tag, data: None }
    }

    /// An envelope of the signal `tag` filled with `data`.
    pub fn with(tag: Tags, data: T) -> (r: Self)
        ensures
            r.tag == tag,
            r.data == Some(data),
    {
        IO { tag, data: Some(data) }
    }

    /// Whether the two envelopes are of the same signal, whatever they carry.
    pub fn same_tag<U>(&self, other: &IO<U>) -> (r: bool)
        ensures
            r == (self.tag == other.tag),
    {
        self.tag == other.tag
    }

    /// The payload, where there is one.
    pub fn into_option(self) -> (r: Option<T>)
        ensures
            r == self.data,
    {
        self.data
    }

    /// The payload; its absence is the error `Missing`, with the canonical
    /// identifier of the signal.
    pub fn payload(self) -> (r: Result<T, IOError>)
        ensures
            match r {
                Ok(data) => self.data == Some(data),
                Err(e) => self.data is None && (e matches IOError::Missing(name) && name@
                    == self.tag.canonical_name()),
            },
    {
        match self.data {
            Some(data) => Ok(data),
            None => Err(IOError::Missing(self.tag.name())),
        }
    }
}

impl IO<usize> {
    /// Puts the length `n` in the envelope.
    pub fn assign(&mut self, n: usize)
        ensures
            final(self).tag == old(self).tag,
            final(self).data == Some(n),
    {
        self.data = Some(n);
    }
}

impl<T> IO<Vec<T>> {
    /// What the envelope holds: the signal, and the samples of the payload.
    pub open spec fn view(self) -> (Tags, Option<Seq<T>>) {
        (
            self.tag,
            match self.data {
                Some(data) => Some(data@),
                None => None,
            },
        )
    }
}

impl<T: Copy> IO<Vec<T>> {
    /// A copy of the envelope, with a copy of its payload.
    pub fn duplicate(&self) -> (r: Self)
        ensures
            r.view() == self.view(),
    {
        IO {
            tag: self.tag,
            data: match &self.data {
                Some(data) => Some(copied(data)),
                None => None,
            },
        }
    }
}

/// What a list of envelopes holds, envelope by envelope.
pub open spec fn envelopes<T>(list: Seq<IO<Vec<T>>>) -> Seq<(Tags, Option<Seq<T>>)> {
    Seq::new(list.len(), |i: int| list[i].view())
}

impl Tags {
    /// The catalog: every signal, once.
    pub open spec fn catalog() -> Seq<Tags> {
        seq![
            Tags::OSSTopEnd6F,
            Tags::MCM2Lcl6F,
            Tags::OSSTruss6F,
            Tags::OSSM1Lcl6F,
            Tags::OSSCellLcl6F,
            Tags::OSSGIR6F,
            Tags::OSSCRING6F,
            Tags::M1DistributedWindf,
            Tags::M1Segment1AxialD,
            Tags::M1Segment2AxialD,
            Tags::M1Segment3AxialD,
            Tags::M1Segment4AxialD,
            Tags::M1Segment5AxialD,
            Tags::M1Segment6AxialD,
            Tags::M1Segment7AxialD,
            Tags::OSSHarpointDeltaF,
            Tags::OSSHardpointD,
            Tags::M1ActuatorsSegment1,
            Tags::M1ActuatorsSegment2,
            Tags::M1ActuatorsSegment3,
            Tags::M1ActuatorsSegment4,
            Tags::M1actuatorsSegment5,
            Tags::M1actuatorsSegment6,
            Tags::M1ActuatorsSegment7,
            Tags::OSSAzDriveF,
            Tags::OSSElDriveF,
            Tags::OSSGIRDriveF,
            Tags::OSSAzDriveD,
            Tags::OSSElDriveD,
            Tags::OSSGIRDriveD,
            Tags::OSSAzDriveTorque,
            Tags::OSSElDriveTorque,
            Tags::OSSRotDriveTorque,
            Tags::OSSAzEncoderAngle,
            Tags::OSSElEncoderAngle,
            Tags::OSSRotEncoderAngle,
            Tags::SlewTorques,
            Tags::OSSM1LOS,
            Tags::MCM2LOS6D,
            Tags::OSSBASE6F,
            Tags::OSSIMUs6d,
            Tags::MCM2SmHexF,
            Tags::MCM2PMA1F,
            Tags::MCM2CP6F,
            Tags::MCM2RB6F,
            Tags::MCM2CP6D,
            Tags::MCM2RB6D,
            Tags::MCM2Lcl6D,
            Tags::MCM2TE6F,
            Tags::MCM2TEIF6F,
            Tags::OSSTrussTEIF6f,
            Tags::MCM2GravCS0,
            Tags::MCM2PZTS1F,
            Tags::MCM2PZTS2F,
            Tags::MCM2PZTS3F,
            Tags::MCM2PZTS4F,
            Tags::MCM2PZTS5F,
            Tags::MCM2PZTS6F,
            Tags::MCM2PZTS7F,
            Tags::MCM2SmallS16F,
            Tags::MCM2SmallS26F,
            Tags::MCM2SmallS36F,
            Tags::MCM2SmallS46F,
            Tags::MCM2SmallS56F,
            Tags::MCM2SmallS66F,
            Tags::MCM2SmallS76F,
            Tags::OSSGravCS0,
            Tags::OSSTrussIF6D,
            Tags::OSSGIR6D,
            Tags::OSSCRING6D,
            Tags::OSSBASE6D,
            Tags::OSSM1Lcl,
            Tags::OSSTruss6d,
            Tags::OSSCellLcl,
            Tags::MCM2SmallS16D,
            Tags::MCM2PZTS1D,
            Tags::MCM2SmallS26D,
            Tags::MCM2PZTS2D,
            Tags::MCM2SmallS36D,
            Tags::MCM2PZTS3D,
            Tags::MCM2SmallS46D,
            Tags::MCM2PZTS4D,
            Tags::MCM2SmallS56D,
            Tags::MCM2PZTS5D,
            Tags::MCM2SmallS66D,
            Tags::MCM2PZTS6D,
            Tags::MCM2SmallS76D,
            Tags::MCM2PZTS7D,
            Tags::M1SurfacesD,
            Tags::M1EdgeSensors,
            Tags::MCM2CP1D,
            Tags::MCM2SmHexD,
            Tags::M2edgesensors,
            Tags::MCM2TEIF6D,
            Tags::MCM2TE6D,
            Tags::M2ReferenceBody1AxialD,
            Tags::M2ReferenceBody2AxialD,
            Tags::M2ReferenceBody3AxialD,
            Tags::M2ReferenceBody4AxialD,
            Tags::M2ReferenceBody5AxialD,
            Tags::M2ReferenceBody6AxialD,
            Tags::M2ReferenceBody7AxialD,
            Tags::MountCmd,
            Tags::M1HPCmd,
            Tags::M1HPLC,
            Tags::M1CGFM,
        ]
    }

    /// The signal that bears the canonical identifier `name`, where there is one.
    pub open spec fn named(name: Seq<char>) -> Option<Tags> {
        if exists|tag: Tags| tag.canonical_name() == name {
            Some(choose|tag: Tags| tag.canonical_name() == name)
        } else {
            None
        }
    }

    /// Every signal is in the catalog.
    pub proof fn lemma_catalog_is_complete(self)
        ensures
            Self::catalog().contains(self),
    {
        match self {
            Tags::OSSTopEnd6F => {
                assert(Self::catalog()[0] == Tags::OSSTopEnd6F);
            },
            Tags::MCM2Lcl6F => {
                assert(Self::catalog()[1] == Tags::MCM2Lcl6F);
            },
            Tags::OSSTruss6F => {
                assert(Self::catalog()[2] == Tags::OSSTruss6F);
            },
            Tags::OSSM1Lcl6F => {
                assert(Self::catalog()[3] == Tags::OSSM1Lcl6F);
            },
            Tags::OSSCellLcl6F => {
                assert(Self::catalog()[4] == Tags::OSSCellLcl6F);
            },
            Tags::OSSGIR6F => {
                assert(Self::catalog()[5] == Tags::OSSGIR6F);
            },
            Tags::OSSCRING6F => {
                assert(Self::catalog()[6] == Tags::OSSCRING6F);
            },
            Tags::M1DistributedWindf => {
                assert(Self::catalog()[7] == Tags::M1DistributedWindf);
            },
            Tags::M1Segment1AxialD => {
                assert(Self::catalog()[8] == Tags::M1Segment1AxialD);
            },
            Tags::M1Segment2AxialD => {
                assert(Self::catalog()[9] == Tags::M1Segment2AxialD);
            },
            Tags::M1Segment3AxialD => {
                assert(Self::catalog()[10] == Tags::M1Segment3AxialD);
            },
            Tags::M1Segment4AxialD => {
                assert(Self::catalog()[11] == Tags::M1Segment4AxialD);
            },
            Tags::M1Segment5AxialD => {
                assert(Self::catalog()[12] == Tags::M1Segment5AxialD);
            },
            Tags::M1Segment6AxialD => {
                assert(Self::catalog()[13] == Tags::M1Segment6AxialD);
            },
            Tags::M1Segment7AxialD => {
                assert(Self::catalog()[14] == Tags::M1Segment7AxialD);
            },
            Tags::OSSHarpointDeltaF => {
                assert(Self::catalog()[15] == Tags::OSSHarpointDeltaF);
            },
            Tags::OSSHardpointD => {
                assert(Self::catalog()[16] == Tags::OSSHardpointD);
            },
            Tags::M1ActuatorsSegment1 => {
                assert(Self::catalog()[17] == Tags::M1ActuatorsSegment1);
            },
            Tags::M1ActuatorsSegment2 => {
                assert(Self::catalog()[18] == Tags::M1ActuatorsSegment2);
            },
            Tags::M1ActuatorsSegment3 => {
                assert(Self::catalog()[19] == Tags::M1ActuatorsSegment3);
            },
            Tags::M1ActuatorsSegment4 => {
                assert(Self::catalog()[20] == Tags::M1ActuatorsSegment4);
            },
            Tags::M1actuatorsSegment5 => {
                assert(Self::catalog()[21] == Tags::M1actuatorsSegment5);
            },
            Tags::M1actuatorsSegment6 => {
                assert(Self::catalog()[22] == Tags::M1actuatorsSegment6);
            },
            Tags::M1ActuatorsSegment7 => {
                assert(Self::catalog()[23] == Tags::M1ActuatorsSegment7);
            },
            Tags::OSSAzDriveF => {
                assert(Self::catalog()[24] == Tags::OSSAzDriveF);
            },
            Tags::OSSElDriveF => {
                assert(Self::catalog()[25] == Tags::OSSElDriveF);
            },
            Tags::OSSGIRDriveF => {
                assert(Self::catalog()[26] == Tags::OSSGIRDriveF);
            },
            Tags::OSSAzDriveD => {
                assert(Self::catalog()[27] == Tags::OSSAzDriveD);
            },
            Tags::OSSElDriveD => {
                assert(Self::catalog()[28] == Tags::OSSElDriveD);
            },
            Tags::OSSGIRDriveD => {
                assert(Self::catalog()[29] == Tags::OSSGIRDriveD);
            },
            Tags::OSSAzDriveTorque => {
                assert(Self::catalog()[30] == Tags::OSSAzDriveTorque);
            },
            Tags::OSSElDriveTorque => {
                assert(Self::catalog()[31] == Tags::OSSElDriveTorque);
            },
            Tags::OSSRotDriveTorque => {
                assert(Self::catalog()[32] == Tags::OSSRotDriveTorque);
            },
            Tags::OSSAzEncoderAngle => {
                assert(Self::catalog()[33] == Tags::OSSAzEncoderAngle);
            },
            Tags::OSSElEncoderAngle => {
                assert(Self::catalog()[34] == Tags::OSSElEncoderAngle);
            },
            Tags::OSSRotEncoderAngle => {
                assert(Self::catalog()[35] == Tags::OSSRotEncoderAngle);
            },
            Tags::SlewTorques => {
                assert(Self::catalog()[36] == Tags::SlewTorques);
            },
            Tags::OSSM1LOS => {
                assert(Self::catalog()[37] == Tags::OSSM1LOS);
            },
            Tags::MCM2LOS6D => {
                assert(Self::catalog()[38] == Tags::MCM2LOS6D);
            },
            Tags::OSSBASE6F => {
                assert(Self::catalog()[39] == Tags::OSSBASE6F);
            },
            Tags::OSSIMUs6d => {
                assert(Self::catalog()[40] == Tags::OSSIMUs6d);
            },
            Tags::MCM2SmHexF => {
                assert(Self::catalog()[41] == Tags::MCM2SmHexF);
            },
            Tags::MCM2PMA1F => {
                assert(Self::catalog()[42] == Tags::MCM2PMA1F);
            },
            Tags::MCM2CP6F => {
                assert(Self::catalog()[43] == Tags::MCM2CP6F);
            },
            Tags::MCM2RB6F => {
                assert(Self::catalog()[44] == Tags::MCM2RB6F);
            },
            Tags::MCM2CP6D => {
                assert(Self::catalog()[45] == Tags::MCM2CP6D);
            },
            Tags::MCM2RB6D => {
                assert(Self::catalog()[46] == Tags::MCM2RB6D);
            },
            Tags::MCM2Lcl6D => {
                assert(Self::catalog()[47] == Tags::MCM2Lcl6D);
            },
            Tags::MCM2TE6F => {
                assert(Self::catalog()[48] == Tags::MCM2TE6F);
            },
            Tags::MCM2TEIF6F => {
                assert(Self::catalog()[49] == Tags::MCM2TEIF6F);
            },
            Tags::OSSTrussTEIF6f => {
                assert(Self::catalog()[50] == Tags::OSSTrussTEIF6f);
            },
            Tags::MCM2GravCS0 => {
                assert(Self::catalog()[51] == Tags::MCM2GravCS0);
            },
            Tags::MCM2PZTS1F => {
                assert(Self::catalog()[52] == Tags::MCM2PZTS1F);
            },
            Tags::MCM2PZTS2F => {
                assert(Self::catalog()[53] == Tags::MCM2PZTS2F);
            },
            Tags::MCM2PZTS3F => {
                assert(Self::catalog()[54] == Tags::MCM2PZTS3F);
            },
            Tags::MCM2PZTS4F => {
                assert(Self::catalog()[55] == Tags::MCM2PZTS4F);
            },
            Tags::MCM2PZTS5F => {
                assert(Self::catalog()[56] == Tags::MCM2PZTS5F);
            },
            Tags::MCM2PZTS6F => {
                assert(Self::catalog()[57] == Tags::MCM2PZTS6F);
            },
            Tags::MCM2PZTS7F => {
                assert(Self::catalog()[58] == Tags::MCM2PZTS7F);
            },
            Tags::MCM2SmallS16F => {
                assert(Self::catalog()[59] == Tags::MCM2SmallS16F);
            },
            Tags::MCM2SmallS26F => {
                assert(Self::catalog()[60] == Tags::MCM2SmallS26F);
            },
            Tags::MCM2SmallS36F => {
                assert(Self::catalog()[61] == Tags::MCM2SmallS36F);
            },
            Tags::MCM2SmallS46F => {
                assert(Self::catalog()[62] == Tags::MCM2SmallS46F);
            },
            Tags::MCM2SmallS56F => {
                assert(Self::catalog()[63] == Tags::MCM2SmallS56F);
            },
            Tags::MCM2SmallS66F => {
                assert(Self::catalog()[64] == Tags::MCM2SmallS66F);
            },
            Tags::MCM2SmallS76F => {
                assert(Self::catalog()[65] == Tags::MCM2SmallS76F);
            },
            Tags::OSSGravCS0 => {
                assert(Self::catalog()[66] == Tags::OSSGravCS0);
            },
            Tags::OSSTrussIF6D => {
                assert(Self::catalog()[67] == Tags::OSSTrussIF6D);
            },
            Tags::OSSGIR6D => {
                assert(Self::catalog()[68] == Tags::OSSGIR6D);
            },
            Tags::OSSCRING6D => {
                assert(Self::catalog()[69] == Tags::OSSCRING6D);
            },
            Tags::OSSBASE6D => {
                assert(Self::catalog()[70] == Tags::OSSBASE6D);
            },
            Tags::OSSM1Lcl => {
                assert(Self::catalog()[71] == Tags::OSSM1Lcl);
            },
            Tags::OSSTruss6d => {
                assert(Self::catalog()[72] == Tags::OSSTruss6d);
            },
            Tags::OSSCellLcl => {
                assert(Self::catalog()[73] == Tags::OSSCellLcl);
            },
            Tags::MCM2SmallS16D => {
                assert(Self::catalog()[74] == Tags::MCM2SmallS16D);
            },
            Tags::MCM2PZTS1D => {
                assert(Self::catalog()[75] == Tags::MCM2PZTS1D);
            },
            Tags::MCM2SmallS26D => {
                assert(Self::catalog()[76] == Tags::MCM2SmallS26D);
            },
            Tags::MCM2PZTS2D => {
                assert(Self::catalog()[77] == Tags::MCM2PZTS2D);
            },
            Tags::MCM2SmallS36D => {
                assert(Self::catalog()[78] == Tags::MCM2SmallS36D);
            },
            Tags::MCM2PZTS3D => {
                assert(Self::catalog()[79] == Tags::MCM2PZTS3D);
            },
            Tags::MCM2SmallS46D => {
                assert(Self::catalog()[80] == Tags::MCM2SmallS46D);
            },
            Tags::MCM2PZTS4D => {
                assert(Self::catalog()[81] == Tags::MCM2PZTS4D);
            },
            Tags::MCM2SmallS56D => {
                assert(Self::catalog()[82] == Tags::MCM2SmallS56D);
            },
            Tags::MCM2PZTS5D => {
                assert(Self::catalog()[83] == Tags::MCM2PZTS5D);
            },
            Tags::MCM2SmallS66D => {
                assert(Self::catalog()[84] == Tags::MCM2SmallS66D);
            },
            Tags::MCM2PZTS6D => {
                assert(Self::catalog()[85] == Tags::MCM2PZTS6D);
            },
            Tags::MCM2SmallS76D => {
                assert(Self::catalog()[86] == Tags::MCM2SmallS76D);
            },
            Tags::MCM2PZTS7D => {
                assert(Self::catalog()[87] == Tags::MCM2PZTS7D);
            },
            Tags::M1SurfacesD => {
                assert(Self::catalog()[88] == Tags::M1SurfacesD);
            },
            Tags::M1EdgeSensors => {
                assert(Self::catalog()[89] == Tags::M1EdgeSensors);
            },
            Tags::MCM2CP1D => {
                assert(Self::catalog()[90] == Tags::MCM2CP1D);
            },
            Tags::MCM2SmHexD => {
                assert(Self::catalog()[91] == Tags::MCM2SmHexD);
            },
            Tags::M2edgesensors => {
                assert(Self::catalog()[92] == Tags::M2edgesensors);
            },
            Tags::MCM2TEIF6D => {
                assert(Self::catalog()[93] == Tags::MCM2TEIF6D);
            },
            Tags::MCM2TE6D => {
                assert(Self::catalog()[94] == Tags::MCM2TE6D);
            },
            Tags::M2ReferenceBody1AxialD => {
                assert(Self::catalog()[95] == Tags::M2ReferenceBody1AxialD);
            },
            Tags::M2ReferenceBody2AxialD => {
                assert(Self::catalog()[96] == Tags::M2ReferenceBody2AxialD);
            },
            Tags::M2ReferenceBody3AxialD => {
                assert(Self::catalog()[97] == Tags::M2ReferenceBody3AxialD);
            },
            Tags::M2ReferenceBody4AxialD => {
                assert(Self::catalog()[98] == Tags::M2ReferenceBody4AxialD);
            },
            Tags::M2ReferenceBody5AxialD => {
                assert(Self::catalog()[99] == Tags::M2ReferenceBody5AxialD);
            },
            Tags::M2ReferenceBody6AxialD => {
                assert(Self::catalog()[100] == Tags::M2ReferenceBody6AxialD);
            },
            Tags::M2ReferenceBody7AxialD => {
                assert(Self::catalog()[101] == Tags::M2ReferenceBody7AxialD);
            },
            Tags::MountCmd => {
                assert(Self::catalog()[102] == Tags::MountCmd);
            },
            Tags::M1HPCmd => {
                assert(Self::catalog()[103] == Tags::M1HPCmd);
            },
            Tags::M1HPLC => {
                assert(Self::catalog()[104] == Tags::M1HPLC);
            },
            Tags::M1CGFM => {
                assert(Self::catalog()[105] == Tags::M1CGFM);
            },
        }
    }

    /// Every signal, once.
    pub fn all() -> (r: Vec<Tags>)
        ensures
            r@ == Self::catalog(),
    {
        let r = vec![
            Tags::OSSTopEnd6F,
            Tags::MCM2Lcl6F,
            Tags::OSSTruss6F,
            Tags::OSSM1Lcl6F,
            Tags::OSSCellLcl6F,
            Tags::OSSGIR6F,
            Tags::OSSCRING6F,
            Tags::M1DistributedWindf,
            Tags::M1Segment1AxialD,
            Tags::M1Segment2AxialD,
            Tags::M1Segment3AxialD,
            Tags::M1Segment4AxialD,
            Tags::M1Segment5AxialD,
            Tags::M1Segment6AxialD,
            Tags::M1Segment7AxialD,
            Tags::OSSHarpointDeltaF,
            Tags::OSSHardpointD,
            Tags::M1ActuatorsSegment1,
            Tags::M1ActuatorsSegment2,
            Tags::M1ActuatorsSegment3,
            Tags::M1ActuatorsSegment4,
            Tags::M1actuatorsSegment5,
            Tags::M1actuatorsSegment6,
            Tags::M1ActuatorsSegment7,
            Tags::OSSAzDriveF,
            Tags::OSSElDriveF,
            Tags::OSSGIRDriveF,
            Tags::OSSAzDriveD,
            Tags::OSSElDriveD,
            Tags::OSSGIRDriveD,
            Tags::OSSAzDriveTorque,
            Tags::OSSElDriveTorque,
            Tags::OSSRotDriveTorque,
            Tags::OSSAzEncoderAngle,
            Tags::OSSElEncoderAngle,
            Tags::OSSRotEncoderAngle,
            Tags::SlewTorques,
            Tags::OSSM1LOS,
            Tags::MCM2LOS6D,
            Tags::OSSBASE6F,
            Tags::OSSIMUs6d,
            Tags::MCM2SmHexF,
            Tags::MCM2PMA1F,
            Tags::MCM2CP6F,
            Tags::MCM2RB6F,
            Tags::MCM2CP6D,
            Tags::MCM2RB6D,
            Tags::MCM2Lcl6D,
            Tags::MCM2TE6F,
            Tags::MCM2TEIF6F,
            Tags::OSSTrussTEIF6f,
            Tags::MCM2GravCS0,
            Tags::MCM2PZTS1F,
            Tags::MCM2PZTS2F,
            Tags::MCM2PZTS3F,
            Tags::MCM2PZTS4F,
            Tags::MCM2PZTS5F,
            Tags::MCM2PZTS6F,
            Tags::MCM2PZTS7F,
            Tags::MCM2SmallS16F,
            Tags::MCM2SmallS26F,
            Tags::MCM2SmallS36F,
            Tags::MCM2SmallS46F,
            Tags::MCM2SmallS56F,
            Tags::MCM2SmallS66F,
            Tags::MCM2SmallS76F,
            Tags::OSSGravCS0,
            Tags::OSSTrussIF6D,
            Tags::OSSGIR6D,
            Tags::OSSCRING6D,
            Tags::OSSBASE6D,
            Tags::OSSM1Lcl,
            Tags::OSSTruss6d,
            Tags::OSSCellLcl,
            Tags::MCM2SmallS16D,
            Tags::MCM2PZTS1D,
            Tags::MCM2SmallS26D,
            Tags::MCM2PZTS2D,
            Tags::MCM2SmallS36D,
            Tags::MCM2PZTS3D,
            Tags::MCM2SmallS46D,
            Tags::MCM2PZTS4D,
            Tags::MCM2SmallS56D,
            Tags::MCM2PZTS5D,
            Tags::MCM2SmallS66D,
            Tags::MCM2PZTS6D,
            Tags::MCM2SmallS76D,
            Tags::MCM2PZTS7D,
            Tags::M1SurfacesD,
            Tags::M1EdgeSensors,
            Tags::MCM2CP1D,
            Tags::MCM2SmHexD,
            Tags::M2edgesensors,
            Tags::MCM2TEIF6D,
            Tags::MCM2TE6D,
            Tags::M2ReferenceBody1AxialD,
            Tags::M2ReferenceBody2AxialD,
            Tags::M2ReferenceBody3AxialD,
            Tags::M2ReferenceBody4AxialD,
            Tags::M2ReferenceBody5AxialD,
            Tags::M2ReferenceBody6AxialD,
            Tags::M2ReferenceBody7AxialD,
            Tags::MountCmd,
            Tags::M1HPCmd,
            Tags::M1HPLC,
            Tags::M1CGFM,
        ];
        proof {
            assert(r@ =~= Self::catalog());
        }
        r
    }

    /// The signal that bears the canonical identifier `name`, where there is one.
    pub fn from_name(name: &str) -> (r: Option<Tags>)
        ensures
            r == Self::named(name@),
    {
        let wanted = String::from_str(name);
        let all = Self::all();
        let mut i: usize = 0;
        while i < all.len()
            invariant
                i <= all.len(),
                all@ == Self::catalog(),
                wanted@ == name@,
                forall|j: int| 0 <= j < i ==> (#[trigger] all@[j]).canonical_name() != name@,
            decreases all.len() - i,
        {
            let tag = all[i];
            if tag.name() == wanted {
                proof {
                    names::lemma_names_are_distinct(tag, Self::named(name@)->0);
                }
                return Some(tag);
            }
            i += 1;
        }
        proof {
            assert forall|tag: Tags| tag.canonical_name() != name@ by {
                tag.lemma_catalog_is_complete();
            }
        }
        None
    }
}

/// A signal is found again by its canonical identifier.
pub proof fn lemma_name_round_trip(tag: Tags)
    ensures
        Tags::named(tag.canonical_name()) == Some(tag),
{
    names::lemma_names_are_distinct(tag, Tags::named(tag.canonical_name())->0);
}

/// The canonical identifiers of a list of signals, signal by signal.
pub open spec fn names_of(tags: Seq<Tags>) -> Seq<Seq<char>> {
    Seq::new(tags.len(), |i: int| tags[i].canonical_name())
}

/// The text of a list of identifiers, identifier by identifier.
pub open spec fn texts(names: Seq<String>) -> Seq<Seq<char>> {
    Seq::new(names.len(), |i: int| names[i]@)
}

/// The canonical identifiers of a list of signals, in the order of the list.
pub fn names(tags: &Vec<Tags>) -> (r: Vec<String>)
    ensures
        texts(r@) == names_of(tags@),
{
    let mut r: Vec<String> = Vec::new();
    let mut i: usize = 0;
    while i < tags.len()
        invariant
            i <= tags.len(),
            r@.len() == i,
            forall|j: int| 0 <= j < i ==> (#[trigger] r@[j])@ == tags@[j].canonical_name(),
        decreases tags.len() - i,
    {
        r.push(tags[i].name());
        i += 1;
    }
    proof {
        assert(texts(r@) =~= names_of(tags@));
    }
    r
}

/// The signals that bear a list of identifiers, in the order of the list;
/// nothing where one of them is the identifier of no signal.
pub fn from_names(names: &Vec<String>) -> (r: Option<Vec<Tags>>)
    ensures
        match r {
            Some(tags) => {
                &&& tags@.len() == names@.len()
                &&& forall|i: int|
                    0 <= i < tags@.len() ==> Tags::named((#[trigger] names@[i])@) == Some(tags@[i])
            },
            None => exists|i: int|
                0 <= i < names@.len() && Tags::named((#[trigger] names@[i])@) is None,
        },
{
    let mut tags: Vec<Tags> = Vec::new();
    let mut i: usize = 0;
    while i < names.len()
        invariant
            i <= names.len(),
            tags@.len() == i,
            forall|j: int| 0 <= j < i ==> Tags::named((#[trigger] names@[j])@) == Some(tags@[j]),
        decreases names.len() - i,
    {
        match Tags::from_name(names[i].as_str()) {
            Some(tag) => {
                tags.push(tag);
            },
            None => {
                return None;
            },
        }
        i += 1;
    }
    Some(tags)
}

/// A list of signals is found again by its identifiers: from the identifiers
/// of a list, `from_names` gives the list back.
pub proof fn lemma_names_round_trip(tags: Seq<Tags>, names: Seq<String>, back: Option<Vec<Tags>>)
    requires
        texts(names) == names_of(tags),
        match back {
            Some(found) => {
                &&& found@.len() == names.len()
                &&& forall|i: int|
                    0 <= i < found@.len() ==> Tags::named((#[trigger] names[i])@) == Some(found@[i])
            },
            None => exists|i: int| 0 <= i < names.len() && Tags::named((#[trigger] names[i])@) is None,
        },
    ensures
        back matches Some(found) && found@ == tags,
{
    assert(texts(names).len() == names.len());
    assert(names_of(tags).len() == tags.len());
    assert forall|i: int| 0 <= i < names.len() implies Tags::named((#[trigger] names[i])@) == Some(
        tags[i],
    ) by {
        assert(texts(names)[i] == names_of(tags)[i]);
        lemma_name_round_trip(tags[i]);
    }
    match back {
        Some(found) => {
            assert forall|i: int| 0 <= i < found@.len() implies found@[i] == tags[i] by {
                assert(Tags::named(names[i]@) == Some(found@[i]));
                assert(Tags::named(names[i]@) == Some(tags[i]));
            }
            assert(found@ =~= tags);
        },
        None => {},
    }
}

} // verus!
