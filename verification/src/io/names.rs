//! The canonical identifiers of the signals are all different.
//!
//! Two identifiers differ in their length or in one of a few characters.
//! What each identifier has there is read off its text, a few signals at a
//! time.

use crate::io::Tags;
use vstd::prelude::*;

verus! {

proof fn lemma_marks_0()
    ensures
        Tags::OSSTopEnd6F.canonical_name().len() == 11,
        Tags::OSSTopEnd6F.canonical_name()[4] == 'o',
        Tags::OSSTopEnd6F.canonical_name()[6] == 'E',
        Tags::OSSTopEnd6F.canonical_name()[7] == 'n',
        Tags::OSSTopEnd6F.canonical_name()[8] == 'd',
        Tags::OSSTopEnd6F.canonical_name()[9] == '6',
        Tags::OSSTopEnd6F.canonical_name()[10] == 'F',
        Tags::MCM2Lcl6F.canonical_name().len() == 9,
        Tags::MCM2Lcl6F.canonical_name()[4] == 'L',
        Tags::MCM2Lcl6F.canonical_name()[6] == 'l',
        Tags::MCM2Lcl6F.canonical_name()[7] == '6',
        Tags::MCM2Lcl6F.canonical_name()[8] == 'F',
        Tags::OSSTruss6F.canonical_name().len() == 10,
        Tags::OSSTruss6F.canonical_name()[4] == 'r',
        Tags::OSSTruss6F.canonical_name()[6] == 's',
        Tags::OSSTruss6F.canonical_name()[7] == 's',
        Tags::OSSTruss6F.canonical_name()[8] == '6',
        Tags::OSSTruss6F.canonical_name()[9] == 'F',
        Tags::OSSM1Lcl6F.canonical_name().len() == 10,
        Tags::OSSM1Lcl6F.canonical_name()[4] == '1',
        Tags::OSSM1Lcl6F.canonical_name()[6] == 'c',
        Tags::OSSM1Lcl6F.canonical_name()[7] == 'l',
        Tags::OSSM1Lcl6F.canonical_name()[8] == '6',
        Tags::OSSM1Lcl6F.canonical_name()[9] == 'F',
        Tags::OSSCellLcl6F.canonical_name().len() == 12,
        Tags::OSSCellLcl6F.canonical_name()[4] == 'e',
        Tags::OSSCellLcl6F.canonical_name()[6] == 'l',
        Tags::OSSCellLcl6F.canonical_name()[7] == 'L',
        Tags::OSSCellLcl6F.canonical_name()[8] == 'c',
        Tags::OSSCellLcl6F.canonical_name()[9] == 'l',
        Tags::OSSCellLcl6F.canonical_name()[10] == '6',
        Tags::OSSCellLcl6F.canonical_name()[11] == 'F',
        Tags::OSSGIR6F.canonical_name().len() == 8,
        Tags::OSSGIR6F.canonical_name()[4] == 'I',
        Tags::OSSGIR6F.canonical_name()[6] == '6',
        Tags::OSSGIR6F.canonical_name()[7] == 'F',
        Tags::OSSCRING6F.canonical_name().len() == 10,
        Tags::OSSCRING6F.canonical_name()[4] == 'R',
        Tags::OSSCRING6F.canonical_name()[6] == 'N',
        Tags::OSSCRING6F.canonical_name()[7] == 'G',
        Tags::OSSCRING6F.canonical_name()[8] == '6',
        Tags::OSSCRING6F.canonical_name()[9] == 'F',
        Tags::M1DistributedWindf.canonical_name().len() == 18,
        Tags::M1DistributedWindf.canonical_name()[4] == 's',
        Tags::M1DistributedWindf.canonical_name()[6] == 'r',
        Tags::M1DistributedWindf.canonical_name()[7] == 'i',
        Tags::M1DistributedWindf.canonical_name()[8] == 'b',
        Tags::M1DistributedWindf.canonical_name()[9] == 'u',
        Tags::M1DistributedWindf.canonical_name()[10] == 't',
        Tags::M1DistributedWindf.canonical_name()[11] == 'e',
        Tags::M1DistributedWindf.canonical_name()[12] == 'd',
        Tags::M1DistributedWindf.canonical_name()[15] == 'n',
        Tags::M1Segment1AxialD.canonical_name().len() == 16,
        Tags::M1Segment1AxialD.canonical_name()[4] == 'g',
        Tags::M1Segment1AxialD.canonical_name()[6] == 'e',
        Tags::M1Segment1AxialD.canonical_name()[7] == 'n',
        Tags::M1Segment1AxialD.canonical_name()[8] == 't',
        Tags::M1Segment1AxialD.canonical_name()[9] == '1',
        Tags::M1Segment1AxialD.canonical_name()[10] == 'A',
        Tags::M1Segment1AxialD.canonical_name()[11] == 'x',
        Tags::M1Segment1AxialD.canonical_name()[12] == 'i',
        Tags::M1Segment1AxialD.canonical_name()[15] == 'D',
        Tags::M1Segment2AxialD.canonical_name().len() == 16,
        Tags::M1Segment2AxialD.canonical_name()[4] == 'g',
        Tags::M1Segment2AxialD.canonical_name()[6] == 'e',
        Tags::M1Segment2AxialD.canonical_name()[7] == 'n',
        Tags::M1Segment2AxialD.canonical_name()[8] == 't',
        Tags::M1Segment2AxialD.canonical_name()[9] == '2',
        Tags::M1Segment2AxialD.canonical_name()[10] == 'A',
        Tags::M1Segment2AxialD.canonical_name()[11] == 'x',
        Tags::M1Segment2AxialD.canonical_name()[12] == 'i',
        Tags::M1Segment2AxialD.canonical_name()[15] == 'D',
{
    reveal_strlit("OSSTopEnd6F");
    assert("OSSTopEnd6F"@.len() == 11);
    assert("OSSTopEnd6F"@[4] == 'o');
    assert("OSSTopEnd6F"@[6] == 'E');
    assert("OSSTopEnd6F"@[7] == 'n');
    assert("OSSTopEnd6F"@[8] == 'd');
    assert("OSSTopEnd6F"@[9] == '6');
    assert("OSSTopEnd6F"@[10] == 'F');
    reveal_strlit("MCM2Lcl6F");
    assert("MCM2Lcl6F"@.len() == 9);
    assert("MCM2Lcl6F"@[4] == 'L');
    assert("MCM2Lcl6F"@[6] == 'l');
    assert("MCM2Lcl6F"@[7] == '6');
    assert("MCM2Lcl6F"@[8] == 'F');
    reveal_strlit("OSSTruss6F");
    assert("OSSTruss6F"@.len() == 10);
    assert("OSSTruss6F"@[4] == 'r');
    assert("OSSTruss6F"@[6] == 's');
    assert("OSSTruss6F"@[7] == 's');
    assert("OSSTruss6F"@[8] == '6');
    assert("OSSTruss6F"@[9] == 'F');
    reveal_strlit("OSSM1Lcl6F");
    assert("OSSM1Lcl6F"@.len() == 10);
    assert("OSSM1Lcl6F"@[4] == '1');
    assert("OSSM1Lcl6F"@[6] == 'c');
    assert("OSSM1Lcl6F"@[7] == 'l');
    assert("OSSM1Lcl6F"@[8] == '6');
    assert("OSSM1Lcl6F"@[9] == 'F');
    reveal_strlit("OSSCellLcl6F");
    assert("OSSCellLcl6F"@.len() == 12);
    assert("OSSCellLcl6F"@[4] == 'e');
    assert("OSSCellLcl6F"@[6] == 'l');
    assert("OSSCellLcl6F"@[7] == 'L');
    assert("OSSCellLcl6F"@[8] == 'c');
    assert("OSSCellLcl6F"@[9] == 'l');
    assert("OSSCellLcl6F"@[10] == '6');
    assert("OSSCellLcl6F"@[11] == 'F');
    reveal_strlit("OSSGIR6F");
    assert("OSSGIR6F"@.len() == 8);
    assert("OSSGIR6F"@[4] == 'I');
    assert("OSSGIR6F"@[6] == '6');
    assert("OSSGIR6F"@[7] == 'F');
    reveal_strlit("OSSCRING6F");
    assert("OSSCRING6F"@.len() == 10);
    assert("OSSCRING6F"@[4] == 'R');
    assert("OSSCRING6F"@[6] == 'N');
    assert("OSSCRING6F"@[7] == 'G');
    assert("OSSCRING6F"@[8] == '6');
    assert("OSSCRING6F"@[9] == 'F');
    reveal_strlit("M1DistributedWindf");
    assert("M1DistributedWindf"@.len() == 18);
    assert("M1DistributedWindf"@[4] == 's');
    assert("M1DistributedWindf"@[6] == 'r');
    assert("M1DistributedWindf"@[7] == 'i');
    assert("M1DistributedWindf"@[8] == 'b');
    assert("M1DistributedWindf"@[9] == 'u');
    assert("M1DistributedWindf"@[10] == 't');
    assert("M1DistributedWindf"@[11] == 'e');
    assert("M1DistributedWindf"@[12] == 'd');
    assert("M1DistributedWindf"@[15] == 'n');
    reveal_strlit("M1Segment1AxialD");
    assert("M1Segment1AxialD"@.len() == 16);
    assert("M1Segment1AxialD"@[4] == 'g');
    assert("M1Segment1AxialD"@[6] == 'e');
    assert("M1Segment1AxialD"@[7] == 'n');
    assert("M1Segment1AxialD"@[8] == 't');
    assert("M1Segment1AxialD"@[9] == '1');
    assert("M1Segment1AxialD"@[10] == 'A');
    assert("M1Segment1AxialD"@[11] == 'x');
    assert("M1Segment1AxialD"@[12] == 'i');
    assert("M1Segment1AxialD"@[15] == 'D');
    reveal_strlit("M1Segment2AxialD");
    assert("M1Segment2AxialD"@.len() == 16);
    assert("M1Segment2AxialD"@[4] == 'g');
    assert("M1Segment2AxialD"@[6] == 'e');
    assert("M1Segment2AxialD"@[7] == 'n');
    assert("M1Segment2AxialD"@[8] == 't');
    assert("M1Segment2AxialD"@[9] == '2');
    assert("M1Segment2AxialD"@[10] == 'A');
    assert("M1Segment2AxialD"@[11] == 'x');
    assert("M1Segment2AxialD"@[12] == 'i');
    assert("M1Segment2AxialD"@[15] == 'D');
}

proof fn lemma_marks_1()
    ensures
        Tags::M1Segment3AxialD.canonical_name().len() == 16,
        Tags::M1Segment3AxialD.canonical_name()[4] == 'g',
        Tags::M1Segment3AxialD.canonical_name()[6] == 'e',
        Tags::M1Segment3AxialD.canonical_name()[7] == 'n',
        Tags::M1Segment3AxialD.canonical_name()[8] == 't',
        Tags::M1Segment3AxialD.canonical_name()[9] == '3',
        Tags::M1Segment3AxialD.canonical_name()[10] == 'A',
        Tags::M1Segment3AxialD.canonical_name()[11] == 'x',
        Tags::M1Segment3AxialD.canonical_name()[12] == 'i',
        Tags::M1Segment3AxialD.canonical_name()[15] == 'D',
        Tags::M1Segment4AxialD.canonical_name().len() == 16,
        Tags::M1Segment4AxialD.canonical_name()[4] == 'g',
        Tags::M1Segment4AxialD.canonical_name()[6] == 'e',
        Tags::M1Segment4AxialD.canonical_name()[7] == 'n',
        Tags::M1Segment4AxialD.canonical_name()[8] == 't',
        Tags::M1Segment4AxialD.canonical_name()[9] == '4',
        Tags::M1Segment4AxialD.canonical_name()[10] == 'A',
        Tags::M1Segment4AxialD.canonical_name()[11] == 'x',
        Tags::M1Segment4AxialD.canonical_name()[12] == 'i',
        Tags::M1Segment4AxialD.canonical_name()[15] == 'D',
        Tags::M1Segment5AxialD.canonical_name().len() == 16,
        Tags::M1Segment5AxialD.canonical_name()[4] == 'g',
        Tags::M1Segment5AxialD.canonical_name()[6] == 'e',
        Tags::M1Segment5AxialD.canonical_name()[7] == 'n',
        Tags::M1Segment5AxialD.canonical_name()[8] == 't',
        Tags::M1Segment5AxialD.canonical_name()[9] == '5',
        Tags::M1Segment5AxialD.canonical_name()[10] == 'A',
        Tags::M1Segment5AxialD.canonical_name()[11] == 'x',
        Tags::M1Segment5AxialD.canonical_name()[12] == 'i',
        Tags::M1Segment5AxialD.canonical_name()[15] == 'D',
        Tags::M1Segment6AxialD.canonical_name().len() == 16,
        Tags::M1Segment6AxialD.canonical_name()[4] == 'g',
        Tags::M1Segment6AxialD.canonical_name()[6] == 'e',
        Tags::M1Segment6AxialD.canonical_name()[7] == 'n',
        Tags::M1Segment6AxialD.canonical_name()[8] == 't',
        Tags::M1Segment6AxialD.canonical_name()[9] == '6',
        Tags::M1Segment6AxialD.canonical_name()[10] == 'A',
        Tags::M1Segment6AxialD.canonical_name()[11] == 'x',
        Tags::M1Segment6AxialD.canonical_name()[12] == 'i',
        Tags::M1Segment6AxialD.canonical_name()[15] == 'D',
        Tags::M1Segment7AxialD.canonical_name().len() == 16,
        Tags::M1Segment7AxialD.canonical_name()[4] == 'g',
        Tags::M1Segment7AxialD.canonical_name()[6] == 'e',
        Tags::M1Segment7AxialD.canonical_name()[7] == 'n',
        Tags::M1Segment7AxialD.canonical_name()[8] == 't',
        Tags::M1Segment7AxialD.canonical_name()[9] == '7',
        Tags::M1Segment7AxialD.canonical_name()[10] == 'A',
        Tags::M1Segment7AxialD.canonical_name()[11] == 'x',
        Tags::M1Segment7AxialD.canonical_name()[12] == 'i',
        Tags::M1Segment7AxialD.canonical_name()[15] == 'D',
        Tags::OSSHarpointDeltaF.canonical_name().len() == 17,
        Tags::OSSHarpointDeltaF.canonical_name()[4] == 'a',
        Tags::OSSHarpointDeltaF.canonical_name()[6] == 'p',
        Tags::OSSHarpointDeltaF.canonical_name()[7] == 'o',
        Tags::OSSHarpointDeltaF.canonical_name()[8] == 'i',
        Tags::OSSHarpointDeltaF.canonical_name()[9] == 'n',
        Tags::OSSHarpointDeltaF.canonical_name()[10] == 't',
        Tags::OSSHarpointDeltaF.canonical_name()[11] == 'D',
        Tags::OSSHarpointDeltaF.canonical_name()[12] == 'e',
        Tags::OSSHarpointDeltaF.canonical_name()[15] == 'a',
        Tags::OSSHardpointD.canonical_name().len() == 13,
        Tags::OSSHardpointD.canonical_name()[4] == 'a',
        Tags::OSSHardpointD.canonical_name()[6] == 'd',
        Tags::OSSHardpointD.canonical_name()[7] == 'p',
        Tags::OSSHardpointD.canonical_name()[8] == 'o',
        Tags::OSSHardpointD.canonical_name()[9] == 'i',
        Tags::OSSHardpointD.canonical_name()[10] == 'n',
        Tags::OSSHardpointD.canonical_name()[11] == 't',
        Tags::OSSHardpointD.canonical_name()[12] == 'D',
        Tags::M1ActuatorsSegment1.canonical_name().len() == 19,
        Tags::M1ActuatorsSegment1.canonical_name()[4] == 't',
        Tags::M1ActuatorsSegment1.canonical_name()[6] == 'a',
        Tags::M1ActuatorsSegment1.canonical_name()[7] == 't',
        Tags::M1ActuatorsSegment1.canonical_name()[8] == 'o',
        Tags::M1ActuatorsSegment1.canonical_name()[9] == 'r',
        Tags::M1ActuatorsSegment1.canonical_name()[10] == 's',
        Tags::M1ActuatorsSegment1.canonical_name()[11] == 'S',
        Tags::M1ActuatorsSegment1.canonical_name()[12] == 'e',
        Tags::M1ActuatorsSegment1.canonical_name()[15] == 'e',
        Tags::M1ActuatorsSegment1.canonical_name()[18] == '1',
        Tags::M1ActuatorsSegment2.canonical_name().len() == 19,
        Tags::M1ActuatorsSegment2.canonical_name()[4] == 't',
        Tags::M1ActuatorsSegment2.canonical_name()[6] == 'a',
        Tags::M1ActuatorsSegment2.canonical_name()[7] == 't',
        Tags::M1ActuatorsSegment2.canonical_name()[8] == 'o',
        Tags::M1ActuatorsSegment2.canonical_name()[9] == 'r',
        Tags::M1ActuatorsSegment2.canonical_name()[10] == 's',
        Tags::M1ActuatorsSegment2.canonical_name()[11] == 'S',
        Tags::M1ActuatorsSegment2.canonical_name()[12] == 'e',
        Tags::M1ActuatorsSegment2.canonical_name()[15] == 'e',
        Tags::M1ActuatorsSegment2.canonical_name()[18] == '2',
        Tags::M1ActuatorsSegment3.canonical_name().len() == 19,
        Tags::M1ActuatorsSegment3.canonical_name()[4] == 't',
        Tags::M1ActuatorsSegment3.canonical_name()[6] == 'a',
        Tags::M1ActuatorsSegment3.canonical_name()[7] == 't',
        Tags::M1ActuatorsSegment3.canonical_name()[8] == 'o',
        Tags::M1ActuatorsSegment3.canonical_name()[9] == 'r',
        Tags::M1ActuatorsSegment3.canonical_name()[10] == 's',
        Tags::M1ActuatorsSegment3.canonical_name()[11] == 'S',
        Tags::M1ActuatorsSegment3.canonical_name()[12] == 'e',
        Tags::M1ActuatorsSegment3.canonical_name()[15] == 'e',
        Tags::M1ActuatorsSegment3.canonical_name()[18] == '3',
{
    reveal_strlit("M1Segment3AxialD");
    assert("M1Segment3AxialD"@.len() == 16);
    assert("M1Segment3AxialD"@[4] == 'g');
    assert("M1Segment3AxialD"@[6] == 'e');
    assert("M1Segment3AxialD"@[7] == 'n');
    assert("M1Segment3AxialD"@[8] == 't');
    assert("M1Segment3AxialD"@[9] == '3');
    assert("M1Segment3AxialD"@[10] == 'A');
    assert("M1Segment3AxialD"@[11] == 'x');
    assert("M1Segment3AxialD"@[12] == 'i');
    assert("M1Segment3AxialD"@[15] == 'D');
    reveal_strlit("M1Segment4AxialD");
    assert("M1Segment4AxialD"@.len() == 16);
    assert("M1Segment4AxialD"@[4] == 'g');
    assert("M1Segment4AxialD"@[6] == 'e');
    assert("M1Segment4AxialD"@[7] == 'n');
    assert("M1Segment4AxialD"@[8] == 't');
    assert("M1Segment4AxialD"@[9] == '4');
    assert("M1Segment4AxialD"@[10] == 'A');
    assert("M1Segment4AxialD"@[11] == 'x');
    assert("M1Segment4AxialD"@[12] == 'i');
    assert("M1Segment4AxialD"@[15] == 'D');
    reveal_strlit("M1Segment5AxialD");
    assert("M1Segment5AxialD"@.len() == 16);
    assert("M1Segment5AxialD"@[4] == 'g');
    assert("M1Segment5AxialD"@[6] == 'e');
    assert("M1Segment5AxialD"@[7] == 'n');
    assert("M1Segment5AxialD"@[8] == 't');
    assert("M1Segment5AxialD"@[9] == '5');
    assert("M1Segment5AxialD"@[10] == 'A');
    assert("M1Segment5AxialD"@[11] == 'x');
    assert("M1Segment5AxialD"@[12] == 'i');
    assert("M1Segment5AxialD"@[15] == 'D');
    reveal_strlit("M1Segment6AxialD");
    assert("M1Segment6AxialD"@.len() == 16);
    assert("M1Segment6AxialD"@[4] == 'g');
    assert("M1Segment6AxialD"@[6] == 'e');
    assert("M1Segment6AxialD"@[7] == 'n');
    assert("M1Segment6AxialD"@[8] == 't');
    assert("M1Segment6AxialD"@[9] == '6');
    assert("M1Segment6AxialD"@[10] == 'A');
    assert("M1Segment6AxialD"@[11] == 'x');
    assert("M1Segment6AxialD"@[12] == 'i');
    assert("M1Segment6AxialD"@[15] == 'D');
    reveal_strlit("M1Segment7AxialD");
    assert("M1Segment7AxialD"@.len() == 16);
    assert("M1Segment7AxialD"@[4] == 'g');
    assert("M1Segment7AxialD"@[6] == 'e');
    assert("M1Segment7AxialD"@[7] == 'n');
    assert("M1Segment7AxialD"@[8] == 't');
    assert("M1Segment7AxialD"@[9] == '7');
    assert("M1Segment7AxialD"@[10] == 'A');
    assert("M1Segment7AxialD"@[11] == 'x');
    assert("M1Segment7AxialD"@[12] == 'i');
    assert("M1Segment7AxialD"@[15] == 'D');
    reveal_strlit("OSSHarpointDeltaF");
    assert("OSSHarpointDeltaF"@.len() == 17);
    assert("OSSHarpointDeltaF"@[4] == 'a');
    assert("OSSHarpointDeltaF"@[6] == 'p');
    assert("OSSHarpointDeltaF"@[7] == 'o');
    assert("OSSHarpointDeltaF"@[8] == 'i');
    assert("OSSHarpointDeltaF"@[9] == 'n');
    assert("OSSHarpointDeltaF"@[10] == 't');
    assert("OSSHarpointDeltaF"@[11] == 'D');
    assert("OSSHarpointDeltaF"@[12] == 'e');
    assert("OSSHarpointDeltaF"@[15] == 'a');
    reveal_strlit("OSSHardpointD");
    assert("OSSHardpointD"@.len() == 13);
    assert("OSSHardpointD"@[4] == 'a');
    assert("OSSHardpointD"@[6] == 'd');
    assert("OSSHardpointD"@[7] == 'p');
    assert("OSSHardpointD"@[8] == 'o');
    assert("OSSHardpointD"@[9] == 'i');
    assert("OSSHardpointD"@[10] == 'n');
    assert("OSSHardpointD"@[11] == 't');
    assert("OSSHardpointD"@[12] == 'D');
    reveal_strlit("M1ActuatorsSegment1");
    assert("M1ActuatorsSegment1"@.len() == 19);
    assert("M1ActuatorsSegment1"@[4] == 't');
    assert("M1ActuatorsSegment1"@[6] == 'a');
    assert("M1ActuatorsSegment1"@[7] == 't');
    assert("M1ActuatorsSegment1"@[8] == 'o');
    assert("M1ActuatorsSegment1"@[9] == 'r');
    assert("M1ActuatorsSegment1"@[10] == 's');
    assert("M1ActuatorsSegment1"@[11] == 'S');
    assert("M1ActuatorsSegment1"@[12] == 'e');
    assert("M1ActuatorsSegment1"@[15] == 'e');
    assert("M1ActuatorsSegment1"@[18] == '1');
    reveal_strlit("M1ActuatorsSegment2");
    assert("M1ActuatorsSegment2"@.len() == 19);
    assert("M1ActuatorsSegment2"@[4] == 't');
    assert("M1ActuatorsSegment2"@[6] == 'a');
    assert("M1ActuatorsSegment2"@[7] == 't');
    assert("M1ActuatorsSegment2"@[8] == 'o');
    assert("M1ActuatorsSegment2"@[9] == 'r');
    assert("M1ActuatorsSegment2"@[10] == 's');
    assert("M1ActuatorsSegment2"@[11] == 'S');
    assert("M1ActuatorsSegment2"@[12] == 'e');
    assert("M1ActuatorsSegment2"@[15] == 'e');
    assert("M1ActuatorsSegment2"@[18] == '2');
    reveal_strlit("M1ActuatorsSegment3");
    assert("M1ActuatorsSegment3"@.len() == 19);
    assert("M1ActuatorsSegment3"@[4] == 't');
    assert("M1ActuatorsSegment3"@[6] == 'a');
    assert("M1ActuatorsSegment3"@[7] == 't');
    assert("M1ActuatorsSegment3"@[8] == 'o');
    assert("M1ActuatorsSegment3"@[9] == 'r');
    assert("M1ActuatorsSegment3"@[10] == 's');
    assert("M1ActuatorsSegment3"@[11] == 'S');
    assert("M1ActuatorsSegment3"@[12] == 'e');
    assert("M1ActuatorsSegment3"@[15] == 'e');
    assert("M1ActuatorsSegment3"@[18] == '3');
}

proof fn lemma_marks_2()
    ensures
        Tags::M1ActuatorsSegment4.canonical_name().len() == 19,
        Tags::M1ActuatorsSegment4.canonical_name()[4] == 't',
        Tags::M1ActuatorsSegment4.canonical_name()[6] == 'a',
        Tags::M1ActuatorsSegment4.canonical_name()[7] == 't',
        Tags::M1ActuatorsSegment4.canonical_name()[8] == 'o',
        Tags::M1ActuatorsSegment4.canonical_name()[9] == 'r',
        Tags::M1ActuatorsSegment4.canonical_name()[10] == 's',
        Tags::M1ActuatorsSegment4.canonical_name()[11] == 'S',
        Tags::M1ActuatorsSegment4.canonical_name()[12] == 'e',
        Tags::M1ActuatorsSegment4.canonical_name()[15] == 'e',
        Tags::M1ActuatorsSegment4.canonical_name()[18] == '4',
        Tags::M1actuatorsSegment5.canonical_name().len() == 19,
        Tags::M1actuatorsSegment5.canonical_name()[4] == 't',
        Tags::M1actuatorsSegment5.canonical_name()[6] == 'a',
        Tags::M1actuatorsSegment5.canonical_name()[7] == 't',
        Tags::M1actuatorsSegment5.canonical_name()[8] == 'o',
        Tags::M1actuatorsSegment5.canonical_name()[9] == 'r',
        Tags::M1actuatorsSegment5.canonical_name()[10] == 's',
        Tags::M1actuatorsSegment5.canonical_name()[11] == 'S',
        Tags::M1actuatorsSegment5.canonical_name()[12] == 'e',
        Tags::M1actuatorsSegment5.canonical_name()[15] == 'e',
        Tags::M1actuatorsSegment5.canonical_name()[18] == '5',
        Tags::M1actuatorsSegment6.canonical_name().len() == 19,
        Tags::M1actuatorsSegment6.canonical_name()[4] == 't',
        Tags::M1actuatorsSegment6.canonical_name()[6] == 'a',
        Tags::M1actuatorsSegment6.canonical_name()[7] == 't',
        Tags::M1actuatorsSegment6.canonical_name()[8] == 'o',
        Tags::M1actuatorsSegment6.canonical_name()[9] == 'r',
        Tags::M1actuatorsSegment6.canonical_name()[10] == 's',
        Tags::M1actuatorsSegment6.canonical_name()[11] == 'S',
        Tags::M1actuatorsSegment6.canonical_name()[12] == 'e',
        Tags::M1actuatorsSegment6.canonical_name()[15] == 'e',
        Tags::M1actuatorsSegment6.canonical_name()[18] == '6',
        Tags::M1ActuatorsSegment7.canonical_name().len() == 19,
        Tags::M1ActuatorsSegment7.canonical_name()[4] == 't',
        Tags::M1ActuatorsSegment7.canonical_name()[6] == 'a',
        Tags::M1ActuatorsSegment7.canonical_name()[7] == 't',
        Tags::M1ActuatorsSegment7.canonical_name()[8] == 'o',
        Tags::M1ActuatorsSegment7.canonical_name()[9] == 'r',
        Tags::M1ActuatorsSegment7.canonical_name()[10] == 's',
        Tags::M1ActuatorsSegment7.canonical_name()[11] == 'S',
        Tags::M1ActuatorsSegment7.canonical_name()[12] == 'e',
        Tags::M1ActuatorsSegment7.canonical_name()[15] == 'e',
        Tags::M1ActuatorsSegment7.canonical_name()[18] == '7',
        Tags::OSSAzDriveF.canonical_name().len() == 11,
        Tags::OSSAzDriveF.canonical_name()[4] == 'z',
        Tags::OSSAzDriveF.canonical_name()[6] == 'r',
        Tags::OSSAzDriveF.canonical_name()[7] == 'i',
        Tags::OSSAzDriveF.canonical_name()[8] == 'v',
        Tags::OSSAzDriveF.canonical_name()[9] == 'e',
        Tags::OSSAzDriveF.canonical_name()[10] == 'F',
        Tags::OSSElDriveF.canonical_name().len() == 11,
        Tags::OSSElDriveF.canonical_name()[4] == 'l',
        Tags::OSSElDriveF.canonical_name()[6] == 'r',
        Tags::OSSElDriveF.canonical_name()[7] == 'i',
        Tags::OSSElDriveF.canonical_name()[8] == 'v',
        Tags::OSSElDriveF.canonical_name()[9] == 'e',
        Tags::OSSElDriveF.canonical_name()[10] == 'F',
        Tags::OSSGIRDriveF.canonical_name().len() == 12,
        Tags::OSSGIRDriveF.canonical_name()[4] == 'I',
        Tags::OSSGIRDriveF.canonical_name()[6] == 'D',
        Tags::OSSGIRDriveF.canonical_name()[7] == 'r',
        Tags::OSSGIRDriveF.canonical_name()[8] == 'i',
        Tags::OSSGIRDriveF.canonical_name()[9] == 'v',
        Tags::OSSGIRDriveF.canonical_name()[10] == 'e',
        Tags::OSSGIRDriveF.canonical_name()[11] == 'F',
        Tags::OSSAzDriveD.canonical_name().len() == 11,
        Tags::OSSAzDriveD.canonical_name()[4] == 'z',
        Tags::OSSAzDriveD.canonical_name()[6] == 'r',
        Tags::OSSAzDriveD.canonical_name()[7] == 'i',
        Tags::OSSAzDriveD.canonical_name()[8] == 'v',
        Tags::OSSAzDriveD.canonical_name()[9] == 'e',
        Tags::OSSAzDriveD.canonical_name()[10] == 'D',
        Tags::OSSElDriveD.canonical_name().len() == 11,
        Tags::OSSElDriveD.canonical_name()[4] == 'l',
        Tags::OSSElDriveD.canonical_name()[6] == 'r',
        Tags::OSSElDriveD.canonical_name()[7] == 'i',
        Tags::OSSElDriveD.canonical_name()[8] == 'v',
        Tags::OSSElDriveD.canonical_name()[9] == 'e',
        Tags::OSSElDriveD.canonical_name()[10] == 'D',
        Tags::OSSGIRDriveD.canonical_name().len() == 12,
        Tags::OSSGIRDriveD.canonical_name()[4] == 'I',
        Tags::OSSGIRDriveD.canonical_name()[6] == 'D',
        Tags::OSSGIRDriveD.canonical_name()[7] == 'r',
        Tags::OSSGIRDriveD.canonical_name()[8] == 'i',
        Tags::OSSGIRDriveD.canonical_name()[9] == 'v',
        Tags::OSSGIRDriveD.canonical_name()[10] == 'e',
        Tags::OSSGIRDriveD.canonical_name()[11] == 'D',
{
    reveal_strlit("M1ActuatorsSegment4");
    assert("M1ActuatorsSegment4"@.len() == 19);
    assert("M1ActuatorsSegment4"@[4] == 't');
    assert("M1ActuatorsSegment4"@[6] == 'a');
    assert("M1ActuatorsSegment4"@[7] == 't');
    assert("M1ActuatorsSegment4"@[8] == 'o');
    assert("M1ActuatorsSegment4"@[9] == 'r');
    assert("M1ActuatorsSegment4"@[10] == 's');
    assert("M1ActuatorsSegment4"@[11] == 'S');
    assert("M1ActuatorsSegment4"@[12] == 'e');
    assert("M1ActuatorsSegment4"@[15] == 'e');
    assert("M1ActuatorsSegment4"@[18] == '4');
    reveal_strlit("M1actuatorsSegment5");
    assert("M1actuatorsSegment5"@.len() == 19);
    assert("M1actuatorsSegment5"@[4] == 't');
    assert("M1actuatorsSegment5"@[6] == 'a');
    assert("M1actuatorsSegment5"@[7] == 't');
    assert("M1actuatorsSegment5"@[8] == 'o');
    assert("M1actuatorsSegment5"@[9] == 'r');
    assert("M1actuatorsSegment5"@[10] == 's');
    assert("M1actuatorsSegment5"@[11] == 'S');
    assert("M1actuatorsSegment5"@[12] == 'e');
    assert("M1actuatorsSegment5"@[15] == 'e');
    assert("M1actuatorsSegment5"@[18] == '5');
    reveal_strlit("M1actuatorsSegment6");
    assert("M1actuatorsSegment6"@.len() == 19);
    assert("M1actuatorsSegment6"@[4] == 't');
    assert("M1actuatorsSegment6"@[6] == 'a');
    assert("M1actuatorsSegment6"@[7] == 't');
    assert("M1actuatorsSegment6"@[8] == 'o');
    assert("M1actuatorsSegment6"@[9] == 'r');
    assert("M1actuatorsSegment6"@[10] == 's');
    assert("M1actuatorsSegment6"@[11] == 'S');
    assert("M1actuatorsSegment6"@[12] == 'e');
    assert("M1actuatorsSegment6"@[15] == 'e');
    assert("M1actuatorsSegment6"@[18] == '6');
    reveal_strlit("M1ActuatorsSegment7");
    assert("M1ActuatorsSegment7"@.len() == 19);
    assert("M1ActuatorsSegment7"@[4] == 't');
    assert("M1ActuatorsSegment7"@[6] == 'a');
    assert("M1ActuatorsSegment7"@[7] == 't');
    assert("M1ActuatorsSegment7"@[8] == 'o');
    assert("M1ActuatorsSegment7"@[9] == 'r');
    assert("M1ActuatorsSegment7"@[10] == 's');
    assert("M1ActuatorsSegment7"@[11] == 'S');
    assert("M1ActuatorsSegment7"@[12] == 'e');
    assert("M1ActuatorsSegment7"@[15] == 'e');
    assert("M1ActuatorsSegment7"@[18] == '7');
    reveal_strlit("OSSAzDriveF");
    assert("OSSAzDriveF"@.len() == 11);
    assert("OSSAzDriveF"@[4] == 'z');
    assert("OSSAzDriveF"@[6] == 'r');
    assert("OSSAzDriveF"@[7] == 'i');
    assert("OSSAzDriveF"@[8] == 'v');
    assert("OSSAzDriveF"@[9] == 'e');
    assert("OSSAzDriveF"@[10] == 'F');
    reveal_strlit("OSSElDriveF");
    assert("OSSElDriveF"@.len() == 11);
    assert("OSSElDriveF"@[4] == 'l');
    assert("OSSElDriveF"@[6] == 'r');
    assert("OSSElDriveF"@[7] == 'i');
    assert("OSSElDriveF"@[8] == 'v');
    assert("OSSElDriveF"@[9] == 'e');
    assert("OSSElDriveF"@[10] == 'F');
    reveal_strlit("OSSGIRDriveF");
    assert("OSSGIRDriveF"@.len() == 12);
    assert("OSSGIRDriveF"@[4] == 'I');
    assert("OSSGIRDriveF"@[6] == 'D');
    assert("OSSGIRDriveF"@[7] == 'r');
    assert("OSSGIRDriveF"@[8] == 'i');
    assert("OSSGIRDriveF"@[9] == 'v');
    assert("OSSGIRDriveF"@[10] == 'e');
    assert("OSSGIRDriveF"@[11] == 'F');
    reveal_strlit("OSSAzDriveD");
    assert("OSSAzDriveD"@.len() == 11);
    assert("OSSAzDriveD"@[4] == 'z');
    assert("OSSAzDriveD"@[6] == 'r');
    assert("OSSAzDriveD"@[7] == 'i');
    assert("OSSAzDriveD"@[8] == 'v');
    assert("OSSAzDriveD"@[9] == 'e');
    assert("OSSAzDriveD"@[10] == 'D');
    reveal_strlit("OSSElDriveD");
    assert("OSSElDriveD"@.len() == 11);
    assert("OSSElDriveD"@[4] == 'l');
    assert("OSSElDriveD"@[6] == 'r');
    assert("OSSElDriveD"@[7] == 'i');
    assert("OSSElDriveD"@[8] == 'v');
    assert("OSSElDriveD"@[9] == 'e');
    assert("OSSElDriveD"@[10] == 'D');
    reveal_strlit("OSSGIRDriveD");
    assert("OSSGIRDriveD"@.len() == 12);
    assert("OSSGIRDriveD"@[4] == 'I');
    assert("OSSGIRDriveD"@[6] == 'D');
    assert("OSSGIRDriveD"@[7] == 'r');
    assert("OSSGIRDriveD"@[8] == 'i');
    assert("OSSGIRDriveD"@[9] == 'v');
    assert("OSSGIRDriveD"@[10] == 'e');
    assert("OSSGIRDriveD"@[11] == 'D');
}

proof fn lemma_marks_3()
    ensures
        Tags::OSSAzDriveTorque.canonical_name().len() == 16,
        Tags::OSSAzDriveTorque.canonical_name()[4] == 'z',
        Tags::OSSAzDriveTorque.canonical_name()[6] == 'r',
        Tags::OSSAzDriveTorque.canonical_name()[7] == 'i',
        Tags::OSSAzDriveTorque.canonical_name()[8] == 'v',
        Tags::OSSAzDriveTorque.canonical_name()[9] == 'e',
        Tags::OSSAzDriveTorque.canonical_name()[10] == 'T',
        Tags::OSSAzDriveTorque.canonical_name()[11] == 'o',
        Tags::OSSAzDriveTorque.canonical_name()[12] == 'r',
        Tags::OSSAzDriveTorque.canonical_name()[15] == 'e',
        Tags::OSSElDriveTorque.canonical_name().len() == 16,
        Tags::OSSElDriveTorque.canonical_name()[4] == 'l',
        Tags::OSSElDriveTorque.canonical_name()[6] == 'r',
        Tags::OSSElDriveTorque.canonical_name()[7] == 'i',
        Tags::OSSElDriveTorque.canonical_name()[8] == 'v',
        Tags::OSSElDriveTorque.canonical_name()[9] == 'e',
        Tags::OSSElDriveTorque.canonical_name()[10] == 'T',
        Tags::OSSElDriveTorque.canonical_name()[11] == 'o',
        Tags::OSSElDriveTorque.canonical_name()[12] == 'r',
        Tags::OSSElDriveTorque.canonical_name()[15] == 'e',
        Tags::OSSRotDriveTorque.canonical_name().len() == 17,
        Tags::OSSRotDriveTorque.canonical_name()[4] == 'o',
        Tags::OSSRotDriveTorque.canonical_name()[6] == 'D',
        Tags::OSSRotDriveTorque.canonical_name()[7] == 'r',
        Tags::OSSRotDriveTorque.canonical_name()[8] == 'i',
        Tags::OSSRotDriveTorque.canonical_name()[9] == 'v',
        Tags::OSSRotDriveTorque.canonical_name()[10] == 'e',
        Tags::OSSRotDriveTorque.canonical_name()[11] == 'T',
        Tags::OSSRotDriveTorque.canonical_name()[12] == 'o',
        Tags::OSSRotDriveTorque.canonical_name()[15] == 'u',
        Tags::OSSAzEncoderAngle.canonical_name().len() == 17,
        Tags::OSSAzEncoderAngle.canonical_name()[4] == 'z',
        Tags::OSSAzEncoderAngle.canonical_name()[6] == 'n',
        Tags::OSSAzEncoderAngle.canonical_name()[7] == 'c',
        Tags::OSSAzEncoderAngle.canonical_name()[8] == 'o',
        Tags::OSSAzEncoderAngle.canonical_name()[9] == 'd',
        Tags::OSSAzEncoderAngle.canonical_name()[10] == 'e',
        Tags::OSSAzEncoderAngle.canonical_name()[11] == 'r',
        Tags::OSSAzEncoderAngle.canonical_name()[12] == 'A',
        Tags::OSSAzEncoderAngle.canonical_name()[15] == 'l',
        Tags::OSSElEncoderAngle.canonical_name().len() == 17,
        Tags::OSSElEncoderAngle.canonical_name()[4] == 'l',
        Tags::OSSElEncoderAngle.canonical_name()[6] == 'n',
        Tags::OSSElEncoderAngle.canonical_name()[7] == 'c',
        Tags::OSSElEncoderAngle.canonical_name()[8] == 'o',
        Tags::OSSElEncoderAngle.canonical_name()[9] == 'd',
        Tags::OSSElEncoderAngle.canonical_name()[10] == 'e',
        Tags::OSSElEncoderAngle.canonical_name()[11] == 'r',
        Tags::OSSElEncoderAngle.canonical_name()[12] == 'A',
        Tags::OSSElEncoderAngle.canonical_name()[15] == 'l',
        Tags::OSSRotEncoderAngle.canonical_name().len() == 18,
        Tags::OSSRotEncoderAngle.canonical_name()[4] == 'o',
        Tags::OSSRotEncoderAngle.canonical_name()[6] == 'E',
        Tags::OSSRotEncoderAngle.canonical_name()[7] == 'n',
        Tags::OSSRotEncoderAngle.canonical_name()[8] == 'c',
        Tags::OSSRotEncoderAngle.canonical_name()[9] == 'o',
        Tags::OSSRotEncoderAngle.canonical_name()[10] == 'd',
        Tags::OSSRotEncoderAngle.canonical_name()[11] == 'e',
        Tags::OSSRotEncoderAngle.canonical_name()[12] == 'r',
        Tags::OSSRotEncoderAngle.canonical_name()[15] == 'g',
        Tags::SlewTorques.canonical_name().len() == 11,
        Tags::SlewTorques.canonical_name()[4] == 'T',
        Tags::SlewTorques.canonical_name()[6] == 'r',
        Tags::SlewTorques.canonical_name()[7] == 'q',
        Tags::SlewTorques.canonical_name()[8] == 'u',
        Tags::SlewTorques.canonical_name()[9] == 'e',
        Tags::SlewTorques.canonical_name()[10] == 's',
        Tags::OSSM1LOS.canonical_name().len() == 8,
        Tags::OSSM1LOS.canonical_name()[4] == '1',
        Tags::OSSM1LOS.canonical_name()[6] == 'O',
        Tags::OSSM1LOS.canonical_name()[7] == 'S',
        Tags::MCM2LOS6D.canonical_name().len() == 9,
        Tags::MCM2LOS6D.canonical_name()[4] == 'L',
        Tags::MCM2LOS6D.canonical_name()[6] == 'S',
        Tags::MCM2LOS6D.canonical_name()[7] == '6',
        Tags::MCM2LOS6D.canonical_name()[8] == 'D',
        Tags::OSSBASE6F.canonical_name().len() == 9,
        Tags::OSSBASE6F.canonical_name()[4] == 'A',
        Tags::OSSBASE6F.canonical_name()[6] == 'E',
        Tags::OSSBASE6F.canonical_name()[7] == '6',
        Tags::OSSBASE6F.canonical_name()[8] == 'F',
{
    reveal_strlit("OSSAzDriveTorque");
    assert("OSSAzDriveTorque"@.len() == 16);
    assert("OSSAzDriveTorque"@[4] == 'z');
    assert("OSSAzDriveTorque"@[6] == 'r');
    assert("OSSAzDriveTorque"@[7] == 'i');
    assert("OSSAzDriveTorque"@[8] == 'v');
    assert("OSSAzDriveTorque"@[9] == 'e');
    assert("OSSAzDriveTorque"@[10] == 'T');
    assert("OSSAzDriveTorque"@[11] == 'o');
    assert("OSSAzDriveTorque"@[12] == 'r');
    assert("OSSAzDriveTorque"@[15] == 'e');
    reveal_strlit("OSSElDriveTorque");
    assert("OSSElDriveTorque"@.len() == 16);
    assert("OSSElDriveTorque"@[4] == 'l');
    assert("OSSElDriveTorque"@[6] == 'r');
    assert("OSSElDriveTorque"@[7] == 'i');
    assert("OSSElDriveTorque"@[8] == 'v');
    assert("OSSElDriveTorque"@[9] == 'e');
    assert("OSSElDriveTorque"@[10] == 'T');
    assert("OSSElDriveTorque"@[11] == 'o');
    assert("OSSElDriveTorque"@[12] == 'r');
    assert("OSSElDriveTorque"@[15] == 'e');
    reveal_strlit("OSSRotDriveTorque");
    assert("OSSRotDriveTorque"@.len() == 17);
    assert("OSSRotDriveTorque"@[4] == 'o');
    assert("OSSRotDriveTorque"@[6] == 'D');
    assert("OSSRotDriveTorque"@[7] == 'r');
    assert("OSSRotDriveTorque"@[8] == 'i');
    assert("OSSRotDriveTorque"@[9] == 'v');
    assert("OSSRotDriveTorque"@[10] == 'e');
    assert("OSSRotDriveTorque"@[11] == 'T');
    assert("OSSRotDriveTorque"@[12] == 'o');
    assert("OSSRotDriveTorque"@[15] == 'u');
    reveal_strlit("OSSAzEncoderAngle");
    assert("OSSAzEncoderAngle"@.len() == 17);
    assert("OSSAzEncoderAngle"@[4] == 'z');
    assert("OSSAzEncoderAngle"@[6] == 'n');
    assert("OSSAzEncoderAngle"@[7] == 'c');
    assert("OSSAzEncoderAngle"@[8] == 'o');
    assert("OSSAzEncoderAngle"@[9] == 'd');
    assert("OSSAzEncoderAngle"@[10] == 'e');
    assert("OSSAzEncoderAngle"@[11] == 'r');
    assert("OSSAzEncoderAngle"@[12] == 'A');
    assert("OSSAzEncoderAngle"@[15] == 'l');
    reveal_strlit("OSSElEncoderAngle");
    assert("OSSElEncoderAngle"@.len() == 17);
    assert("OSSElEncoderAngle"@[4] == 'l');
    assert("OSSElEncoderAngle"@[6] == 'n');
    assert("OSSElEncoderAngle"@[7] == 'c');
    assert("OSSElEncoderAngle"@[8] == 'o');
    assert("OSSElEncoderAngle"@[9] == 'd');
    assert("OSSElEncoderAngle"@[10] == 'e');
    assert("OSSElEncoderAngle"@[11] == 'r');
    assert("OSSElEncoderAngle"@[12] == 'A');
    assert("OSSElEncoderAngle"@[15] == 'l');
    reveal_strlit("OSSRotEncoderAngle");
    assert("OSSRotEncoderAngle"@.len() == 18);
    assert("OSSRotEncoderAngle"@[4] == 'o');
    assert("OSSRotEncoderAngle"@[6] == 'E');
    assert("OSSRotEncoderAngle"@[7] == 'n');
    assert("OSSRotEncoderAngle"@[8] == 'c');
    assert("OSSRotEncoderAngle"@[9] == 'o');
    assert("OSSRotEncoderAngle"@[10] == 'd');
    assert("OSSRotEncoderAngle"@[11] == 'e');
    assert("OSSRotEncoderAngle"@[12] == 'r');
    assert("OSSRotEncoderAngle"@[15] == 'g');
    reveal_strlit("SlewTorques");
    assert("SlewTorques"@.len() == 11);
    assert("SlewTorques"@[4] == 'T');
    assert("SlewTorques"@[6] == 'r');
    assert("SlewTorques"@[7] == 'q');
    assert("SlewTorques"@[8] == 'u');
    assert("SlewTorques"@[9] == 'e');
    assert("SlewTorques"@[10] == 's');
    reveal_strlit("OSSM1LOS");
    assert("OSSM1LOS"@.len() == 8);
    assert("OSSM1LOS"@[4] == '1');
    assert("OSSM1LOS"@[6] == 'O');
    assert("OSSM1LOS"@[7] == 'S');
    reveal_strlit("MCM2LOS6D");
    assert("MCM2LOS6D"@.len() == 9);
    assert("MCM2LOS6D"@[4] == 'L');
    assert("MCM2LOS6D"@[6] == 'S');
    assert("MCM2LOS6D"@[7] == '6');
    assert("MCM2LOS6D"@[8] == 'D');
    reveal_strlit("OSSBASE6F");
    assert("OSSBASE6F"@.len() == 9);
    assert("OSSBASE6F"@[4] == 'A');
    assert("OSSBASE6F"@[6] == 'E');
    assert("OSSBASE6F"@[7] == '6');
    assert("OSSBASE6F"@[8] == 'F');
}

proof fn lemma_marks_4()
    ensures
        Tags::OSSIMUs6d.canonical_name().len() == 9,
        Tags::OSSIMUs6d.canonical_name()[4] == 'M',
        Tags::OSSIMUs6d.canonical_name()[6] == 's',
        Tags::OSSIMUs6d.canonical_name()[7] == '6',
        Tags::OSSIMUs6d.canonical_name()[8] == 'd',
        Tags::MCM2SmHexF.canonical_name().len() == 10,
        Tags::MCM2SmHexF.canonical_name()[4] == 'S',
        Tags::MCM2SmHexF.canonical_name()[6] == 'H',
        Tags::MCM2SmHexF.canonical_name()[7] == 'e',
        Tags::MCM2SmHexF.canonical_name()[8] == 'x',
        Tags::MCM2SmHexF.canonical_name()[9] == 'F',
        Tags::MCM2PMA1F.canonical_name().len() == 9,
        Tags::MCM2PMA1F.canonical_name()[4] == 'P',
        Tags::MCM2PMA1F.canonical_name()[6] == 'A',
        Tags::MCM2PMA1F.canonical_name()[7] == '1',
        Tags::MCM2PMA1F.canonical_name()[8] == 'F',
        Tags::MCM2CP6F.canonical_name().len() == 8,
        Tags::MCM2CP6F.canonical_name()[4] == 'C',
        Tags::MCM2CP6F.canonical_name()[6] == '6',
        Tags::MCM2CP6F.canonical_name()[7] == 'F',
        Tags::MCM2RB6F.canonical_name().len() == 8,
        Tags::MCM2RB6F.canonical_name()[4] == 'R',
        Tags::MCM2RB6F.canonical_name()[6] == '6',
        Tags::MCM2RB6F.canonical_name()[7] == 'F',
        Tags::MCM2CP6D.canonical_name().len() == 8,
        Tags::MCM2CP6D.canonical_name()[4] == 'C',
        Tags::MCM2CP6D.canonical_name()[6] == '6',
        Tags::MCM2CP6D.canonical_name()[7] == 'D',
        Tags::MCM2RB6D.canonical_name().len() == 8,
        Tags::MCM2RB6D.canonical_name()[4] == 'R',
        Tags::MCM2RB6D.canonical_name()[6] == '6',
        Tags::MCM2RB6D.canonical_name()[7] == 'D',
        Tags::MCM2Lcl6D.canonical_name().len() == 9,
        Tags::MCM2Lcl6D.canonical_name()[4] == 'L',
        Tags::MCM2Lcl6D.canonical_name()[6] == 'l',
        Tags::MCM2Lcl6D.canonical_name()[7] == '6',
        Tags::MCM2Lcl6D.canonical_name()[8] == 'D',
        Tags::MCM2TE6F.canonical_name().len() == 8,
        Tags::MCM2TE6F.canonical_name()[4] == 'T',
        Tags::MCM2TE6F.canonical_name()[6] == '6',
        Tags::MCM2TE6F.canonical_name()[7] == 'F',
        Tags::MCM2TEIF6F.canonical_name().len() == 10,
        Tags::MCM2TEIF6F.canonical_name()[4] == 'T',
        Tags::MCM2TEIF6F.canonical_name()[6] == 'I',
        Tags::MCM2TEIF6F.canonical_name()[7] == 'F',
        Tags::MCM2TEIF6F.canonical_name()[8] == '6',
        Tags::MCM2TEIF6F.canonical_name()[9] == 'F',
{
    reveal_strlit("OSSIMUs6d");
    assert("OSSIMUs6d"@.len() == 9);
    assert("OSSIMUs6d"@[4] == 'M');
    assert("OSSIMUs6d"@[6] == 's');
    assert("OSSIMUs6d"@[7] == '6');
    assert("OSSIMUs6d"@[8] == 'd');
    reveal_strlit("MCM2SmHexF");
    assert("MCM2SmHexF"@.len() == 10);
    assert("MCM2SmHexF"@[4] == 'S');
    assert("MCM2SmHexF"@[6] == 'H');
    assert("MCM2SmHexF"@[7] == 'e');
    assert("MCM2SmHexF"@[8] == 'x');
    assert("MCM2SmHexF"@[9] == 'F');
    reveal_strlit("MCM2PMA1F");
    assert("MCM2PMA1F"@.len() == 9);
    assert("MCM2PMA1F"@[4] == 'P');
    assert("MCM2PMA1F"@[6] == 'A');
    assert("MCM2PMA1F"@[7] == '1');
    assert("MCM2PMA1F"@[8] == 'F');
    reveal_strlit("MCM2CP6F");
    assert("MCM2CP6F"@.len() == 8);
    assert("MCM2CP6F"@[4] == 'C');
    assert("MCM2CP6F"@[6] == '6');
    assert("MCM2CP6F"@[7] == 'F');
    reveal_strlit("MCM2RB6F");
    assert("MCM2RB6F"@.len() == 8);
    assert("MCM2RB6F"@[4] == 'R');
    assert("MCM2RB6F"@[6] == '6');
    assert("MCM2RB6F"@[7] == 'F');
    reveal_strlit("MCM2CP6D");
    assert("MCM2CP6D"@.len() == 8);
    assert("MCM2CP6D"@[4] == 'C');
    assert("MCM2CP6D"@[6] == '6');
    assert("MCM2CP6D"@[7] == 'D');
    reveal_strlit("MCM2RB6D");
    assert("MCM2RB6D"@.len() == 8);
    assert("MCM2RB6D"@[4] == 'R');
    assert("MCM2RB6D"@[6] == '6');
    assert("MCM2RB6D"@[7] == 'D');
    reveal_strlit("MCM2Lcl6D");
    assert("MCM2Lcl6D"@.len() == 9);
    assert("MCM2Lcl6D"@[4] == 'L');
    assert("MCM2Lcl6D"@[6] == 'l');
    assert("MCM2Lcl6D"@[7] == '6');
    assert("MCM2Lcl6D"@[8] == 'D');
    reveal_strlit("MCM2TE6F");
    assert("MCM2TE6F"@.len() == 8);
    assert("MCM2TE6F"@[4] == 'T');
    assert("MCM2TE6F"@[6] == '6');
    assert("MCM2TE6F"@[7] == 'F');
    reveal_strlit("MCM2TEIF6F");
    assert("MCM2TEIF6F"@.len() == 10);
    assert("MCM2TEIF6F"@[4] == 'T');
    assert("MCM2TEIF6F"@[6] == 'I');
    assert("MCM2TEIF6F"@[7] == 'F');
    assert("MCM2TEIF6F"@[8] == '6');
    assert("MCM2TEIF6F"@[9] == 'F');
}

proof fn lemma_marks_5()
    ensures
        Tags::OSSTrussTEIF6f.canonical_name().len() == 14,
        Tags::OSSTrussTEIF6f.canonical_name()[4] == 'r',
        Tags::OSSTrussTEIF6f.canonical_name()[6] == 's',
        Tags::OSSTrussTEIF6f.canonical_name()[7] == 's',
        Tags::OSSTrussTEIF6f.canonical_name()[8] == 'T',
        Tags::OSSTrussTEIF6f.canonical_name()[9] == 'E',
        Tags::OSSTrussTEIF6f.canonical_name()[10] == 'I',
        Tags::OSSTrussTEIF6f.canonical_name()[11] == 'F',
        Tags::OSSTrussTEIF6f.canonical_name()[12] == '6',
        Tags::MCM2GravCS0.canonical_name().len() == 11,
        Tags::MCM2GravCS0.canonical_name()[4] == 'G',
        Tags::MCM2GravCS0.canonical_name()[6] == 'a',
        Tags::MCM2GravCS0.canonical_name()[7] == 'v',
        Tags::MCM2GravCS0.canonical_name()[8] == 'C',
        Tags::MCM2GravCS0.canonical_name()[9] == 'S',
        Tags::MCM2GravCS0.canonical_name()[10] == '0',
        Tags::MCM2PZTS1F.canonical_name().len() == 10,
        Tags::MCM2PZTS1F.canonical_name()[4] == 'P',
        Tags::MCM2PZTS1F.canonical_name()[6] == 'T',
        Tags::MCM2PZTS1F.canonical_name()[7] == 'S',
        Tags::MCM2PZTS1F.canonical_name()[8] == '1',
        Tags::MCM2PZTS1F.canonical_name()[9] == 'F',
        Tags::MCM2PZTS2F.canonical_name().len() == 10,
        Tags::MCM2PZTS2F.canonical_name()[4] == 'P',
        Tags::MCM2PZTS2F.canonical_name()[6] == 'T',
        Tags::MCM2PZTS2F.canonical_name()[7] == 'S',
        Tags::MCM2PZTS2F.canonical_name()[8] == '2',
        Tags::MCM2PZTS2F.canonical_name()[9] == 'F',
        Tags::MCM2PZTS3F.canonical_name().len() == 10,
        Tags::MCM2PZTS3F.canonical_name()[4] == 'P',
        Tags::MCM2PZTS3F.canonical_name()[6] == 'T',
        Tags::MCM2PZTS3F.canonical_name()[7] == 'S',
        Tags::MCM2PZTS3F.canonical_name()[8] == '3',
        Tags::MCM2PZTS3F.canonical_name()[9] == 'F',
        Tags::MCM2PZTS4F.canonical_name().len() == 10,
        Tags::MCM2PZTS4F.canonical_name()[4] == 'P',
        Tags::MCM2PZTS4F.canonical_name()[6] == 'T',
        Tags::MCM2PZTS4F.canonical_name()[7] == 'S',
        Tags::MCM2PZTS4F.canonical_name()[8] == '4',
        Tags::MCM2PZTS4F.canonical_name()[9] == 'F',
        Tags::MCM2PZTS5F.canonical_name().len() == 10,
        Tags::MCM2PZTS5F.canonical_name()[4] == 'P',
        Tags::MCM2PZTS5F.canonical_name()[6] == 'T',
        Tags::MCM2PZTS5F.canonical_name()[7] == 'S',
        Tags::MCM2PZTS5F.canonical_name()[8] == '5',
        Tags::MCM2PZTS5F.canonical_name()[9] == 'F',
        Tags::MCM2PZTS6F.canonical_name().len() == 10,
        Tags::MCM2PZTS6F.canonical_name()[4] == 'P',
        Tags::MCM2PZTS6F.canonical_name()[6] == 'T',
        Tags::MCM2PZTS6F.canonical_name()[7] == 'S',
        Tags::MCM2PZTS6F.canonical_name()[8] == '6',
        Tags::MCM2PZTS6F.canonical_name()[9] == 'F',
        Tags::MCM2PZTS7F.canonical_name().len() == 10,
        Tags::MCM2PZTS7F.canonical_name()[4] == 'P',
        Tags::MCM2PZTS7F.canonical_name()[6] == 'T',
        Tags::MCM2PZTS7F.canonical_name()[7] == 'S',
        Tags::MCM2PZTS7F.canonical_name()[8] == '7',
        Tags::MCM2PZTS7F.canonical_name()[9] == 'F',
        Tags::MCM2SmallS16F.canonical_name().len() == 13,
        Tags::MCM2SmallS16F.canonical_name()[4] == 'S',
        Tags::MCM2SmallS16F.canonical_name()[6] == 'a',
        Tags::MCM2SmallS16F.canonical_name()[7] == 'l',
        Tags::MCM2SmallS16F.canonical_name()[8] == 'l',
        Tags::MCM2SmallS16F.canonical_name()[9] == 'S',
        Tags::MCM2SmallS16F.canonical_name()[10] == '1',
        Tags::MCM2SmallS16F.canonical_name()[11] == '6',
        Tags::MCM2SmallS16F.canonical_name()[12] == 'F',
{
    reveal_strlit("OSSTrussTEIF6f");
    assert("OSSTrussTEIF6f"@.len() == 14);
    assert("OSSTrussTEIF6f"@[4] == 'r');
    assert("OSSTrussTEIF6f"@[6] == 's');
    assert("OSSTrussTEIF6f"@[7] == 's');
    assert("OSSTrussTEIF6f"@[8] == 'T');
    assert("OSSTrussTEIF6f"@[9] == 'E');
    assert("OSSTrussTEIF6f"@[10] == 'I');
    assert("OSSTrussTEIF6f"@[11] == 'F');
    assert("OSSTrussTEIF6f"@[12] == '6');
    reveal_strlit("MCM2GravCS0");
    assert("MCM2GravCS0"@.len() == 11);
    assert("MCM2GravCS0"@[4] == 'G');
    assert("MCM2GravCS0"@[6] == 'a');
    assert("MCM2GravCS0"@[7] == 'v');
    assert("MCM2GravCS0"@[8] == 'C');
    assert("MCM2GravCS0"@[9] == 'S');
    assert("MCM2GravCS0"@[10] == '0');
    reveal_strlit("MCM2PZTS1F");
    assert("MCM2PZTS1F"@.len() == 10);
    assert("MCM2PZTS1F"@[4] == 'P');
    assert("MCM2PZTS1F"@[6] == 'T');
    assert("MCM2PZTS1F"@[7] == 'S');
    assert("MCM2PZTS1F"@[8] == '1');
    assert("MCM2PZTS1F"@[9] == 'F');
    reveal_strlit("MCM2PZTS2F");
    assert("MCM2PZTS2F"@.len() == 10);
    assert("MCM2PZTS2F"@[4] == 'P');
    assert("MCM2PZTS2F"@[6] == 'T');
    assert("MCM2PZTS2F"@[7] == 'S');
    assert("MCM2PZTS2F"@[8] == '2');
    assert("MCM2PZTS2F"@[9] == 'F');
    reveal_strlit("MCM2PZTS3F");
    assert("MCM2PZTS3F"@.len() == 10);
    assert("MCM2PZTS3F"@[4] == 'P');
    assert("MCM2PZTS3F"@[6] == 'T');
    assert("MCM2PZTS3F"@[7] == 'S');
    assert("MCM2PZTS3F"@[8] == '3');
    assert("MCM2PZTS3F"@[9] == 'F');
    reveal_strlit("MCM2PZTS4F");
    assert("MCM2PZTS4F"@.len() == 10);
    assert("MCM2PZTS4F"@[4] == 'P');
    assert("MCM2PZTS4F"@[6] == 'T');
    assert("MCM2PZTS4F"@[7] == 'S');
    assert("MCM2PZTS4F"@[8] == '4');
    assert("MCM2PZTS4F"@[9] == 'F');
    reveal_strlit("MCM2PZTS5F");
    assert("MCM2PZTS5F"@.len() == 10);
    assert("MCM2PZTS5F"@[4] == 'P');
    assert("MCM2PZTS5F"@[6] == 'T');
    assert("MCM2PZTS5F"@[7] == 'S');
    assert("MCM2PZTS5F"@[8] == '5');
    assert("MCM2PZTS5F"@[9] == 'F');
    reveal_strlit("MCM2PZTS6F");
    assert("MCM2PZTS6F"@.len() == 10);
    assert("MCM2PZTS6F"@[4] == 'P');
    assert("MCM2PZTS6F"@[6] == 'T');
    assert("MCM2PZTS6F"@[7] == 'S');
    assert("MCM2PZTS6F"@[8] == '6');
    assert("MCM2PZTS6F"@[9] == 'F');
    reveal_strlit("MCM2PZTS7F");
    assert("MCM2PZTS7F"@.len() == 10);
    assert("MCM2PZTS7F"@[4] == 'P');
    assert("MCM2PZTS7F"@[6] == 'T');
    assert("MCM2PZTS7F"@[7] == 'S');
    assert("MCM2PZTS7F"@[8] == '7');
    assert("MCM2PZTS7F"@[9] == 'F');
    reveal_strlit("MCM2SmallS16F");
    assert("MCM2SmallS16F"@.len() == 13);
    assert("MCM2SmallS16F"@[4] == 'S');
    assert("MCM2SmallS16F"@[6] == 'a');
    assert("MCM2SmallS16F"@[7] == 'l');
    assert("MCM2SmallS16F"@[8] == 'l');
    assert("MCM2SmallS16F"@[9] == 'S');
    assert("MCM2SmallS16F"@[10] == '1');
    assert("MCM2SmallS16F"@[11] == '6');
    assert("MCM2SmallS16F"@[12] == 'F');
}

proof fn lemma_marks_6()
    ensures
        Tags::MCM2SmallS26F.canonical_name().len() == 13,
        Tags::MCM2SmallS26F.canonical_name()[4] == 'S',
        Tags::MCM2SmallS26F.canonical_name()[6] == 'a',
        Tags::MCM2SmallS26F.canonical_name()[7] == 'l',
        Tags::MCM2SmallS26F.canonical_name()[8] == 'l',
        Tags::MCM2SmallS26F.canonical_name()[9] == 'S',
        Tags::MCM2SmallS26F.canonical_name()[10] == '2',
        Tags::MCM2SmallS26F.canonical_name()[11] == '6',
        Tags::MCM2SmallS26F.canonical_name()[12] == 'F',
        Tags::MCM2SmallS36F.canonical_name().len() == 13,
        Tags::MCM2SmallS36F.canonical_name()[4] == 'S',
        Tags::MCM2SmallS36F.canonical_name()[6] == 'a',
        Tags::MCM2SmallS36F.canonical_name()[7] == 'l',
        Tags::MCM2SmallS36F.canonical_name()[8] == 'l',
        Tags::MCM2SmallS36F.canonical_name()[9] == 'S',
        Tags::MCM2SmallS36F.canonical_name()[10] == '3',
        Tags::MCM2SmallS36F.canonical_name()[11] == '6',
        Tags::MCM2SmallS36F.canonical_name()[12] == 'F',
        Tags::MCM2SmallS46F.canonical_name().len() == 13,
        Tags::MCM2SmallS46F.canonical_name()[4] == 'S',
        Tags::MCM2SmallS46F.canonical_name()[6] == 'a',
        Tags::MCM2SmallS46F.canonical_name()[7] == 'l',
        Tags::MCM2SmallS46F.canonical_name()[8] == 'l',
        Tags::MCM2SmallS46F.canonical_name()[9] == 'S',
        Tags::MCM2SmallS46F.canonical_name()[10] == '4',
        Tags::MCM2SmallS46F.canonical_name()[11] == '6',
        Tags::MCM2SmallS46F.canonical_name()[12] == 'F',
        Tags::MCM2SmallS56F.canonical_name().len() == 13,
        Tags::MCM2SmallS56F.canonical_name()[4] == 'S',
        Tags::MCM2SmallS56F.canonical_name()[6] == 'a',
        Tags::MCM2SmallS56F.canonical_name()[7] == 'l',
        Tags::MCM2SmallS56F.canonical_name()[8] == 'l',
        Tags::MCM2SmallS56F.canonical_name()[9] == 'S',
        Tags::MCM2SmallS56F.canonical_name()[10] == '5',
        Tags::MCM2SmallS56F.canonical_name()[11] == '6',
        Tags::MCM2SmallS56F.canonical_name()[12] == 'F',
        Tags::MCM2SmallS66F.canonical_name().len() == 13,
        Tags::MCM2SmallS66F.canonical_name()[4] == 'S',
        Tags::MCM2SmallS66F.canonical_name()[6] == 'a',
        Tags::MCM2SmallS66F.canonical_name()[7] == 'l',
        Tags::MCM2SmallS66F.canonical_name()[8] == 'l',
        Tags::MCM2SmallS66F.canonical_name()[9] == 'S',
        Tags::MCM2SmallS66F.canonical_name()[10] == '6',
        Tags::MCM2SmallS66F.canonical_name()[11] == '6',
        Tags::MCM2SmallS66F.canonical_name()[12] == 'F',
        Tags::MCM2SmallS76F.canonical_name().len() == 13,
        Tags::MCM2SmallS76F.canonical_name()[4] == 'S',
        Tags::MCM2SmallS76F.canonical_name()[6] == 'a',
        Tags::MCM2SmallS76F.canonical_name()[7] == 'l',
        Tags::MCM2SmallS76F.canonical_name()[8] == 'l',
        Tags::MCM2SmallS76F.canonical_name()[9] == 'S',
        Tags::MCM2SmallS76F.canonical_name()[10] == '7',
        Tags::MCM2SmallS76F.canonical_name()[11] == '6',
        Tags::MCM2SmallS76F.canonical_name()[12] == 'F',
        Tags::OSSGravCS0.canonical_name().len() == 10,
        Tags::OSSGravCS0.canonical_name()[4] == 'r',
        Tags::OSSGravCS0.canonical_name()[6] == 'v',
        Tags::OSSGravCS0.canonical_name()[7] == 'C',
        Tags::OSSGravCS0.canonical_name()[8] == 'S',
        Tags::OSSGravCS0.canonical_name()[9] == '0',
        Tags::OSSTrussIF6D.canonical_name().len() == 12,
        Tags::OSSTrussIF6D.canonical_name()[4] == 'r',
        Tags::OSSTrussIF6D.canonical_name()[6] == 's',
        Tags::OSSTrussIF6D.canonical_name()[7] == 's',
        Tags::OSSTrussIF6D.canonical_name()[8] == 'I',
        Tags::OSSTrussIF6D.canonical_name()[9] == 'F',
        Tags::OSSTrussIF6D.canonical_name()[10] == '6',
        Tags::OSSTrussIF6D.canonical_name()[11] == 'D',
        Tags::OSSGIR6D.canonical_name().len() == 8,
        Tags::OSSGIR6D.canonical_name()[4] == 'I',
        Tags::OSSGIR6D.canonical_name()[6] == '6',
        Tags::OSSGIR6D.canonical_name()[7] == 'D',
        Tags::OSSCRING6D.canonical_name().len() == 10,
        Tags::OSSCRING6D.canonical_name()[4] == 'R',
        Tags::OSSCRING6D.canonical_name()[6] == 'N',
        Tags::OSSCRING6D.canonical_name()[7] == 'G',
        Tags::OSSCRING6D.canonical_name()[8] == '6',
        Tags::OSSCRING6D.canonical_name()[9] == 'D',
{
    reveal_strlit("MCM2SmallS26F");
    assert("MCM2SmallS26F"@.len() == 13);
    assert("MCM2SmallS26F"@[4] == 'S');
    assert("MCM2SmallS26F"@[6] == 'a');
    assert("MCM2SmallS26F"@[7] == 'l');
    assert("MCM2SmallS26F"@[8] == 'l');
    assert("MCM2SmallS26F"@[9] == 'S');
    assert("MCM2SmallS26F"@[10] == '2');
    assert("MCM2SmallS26F"@[11] == '6');
    assert("MCM2SmallS26F"@[12] == 'F');
    reveal_strlit("MCM2SmallS36F");
    assert("MCM2SmallS36F"@.len() == 13);
    assert("MCM2SmallS36F"@[4] == 'S');
    assert("MCM2SmallS36F"@[6] == 'a');
    assert("MCM2SmallS36F"@[7] == 'l');
    assert("MCM2SmallS36F"@[8] == 'l');
    assert("MCM2SmallS36F"@[9] == 'S');
    assert("MCM2SmallS36F"@[10] == '3');
    assert("MCM2SmallS36F"@[11] == '6');
    assert("MCM2SmallS36F"@[12] == 'F');
    reveal_strlit("MCM2SmallS46F");
    assert("MCM2SmallS46F"@.len() == 13);
    assert("MCM2SmallS46F"@[4] == 'S');
    assert("MCM2SmallS46F"@[6] == 'a');
    assert("MCM2SmallS46F"@[7] == 'l');
    assert("MCM2SmallS46F"@[8] == 'l');
    assert("MCM2SmallS46F"@[9] == 'S');
    assert("MCM2SmallS46F"@[10] == '4');
    assert("MCM2SmallS46F"@[11] == '6');
    assert("MCM2SmallS46F"@[12] == 'F');
    reveal_strlit("MCM2SmallS56F");
    assert("MCM2SmallS56F"@.len() == 13);
    assert("MCM2SmallS56F"@[4] == 'S');
    assert("MCM2SmallS56F"@[6] == 'a');
    assert("MCM2SmallS56F"@[7] == 'l');
    assert("MCM2SmallS56F"@[8] == 'l');
    assert("MCM2SmallS56F"@[9] == 'S');
    assert("MCM2SmallS56F"@[10] == '5');
    assert("MCM2SmallS56F"@[11] == '6');
    assert("MCM2SmallS56F"@[12] == 'F');
    reveal_strlit("MCM2SmallS66F");
    assert("MCM2SmallS66F"@.len() == 13);
    assert("MCM2SmallS66F"@[4] == 'S');
    assert("MCM2SmallS66F"@[6] == 'a');
    assert("MCM2SmallS66F"@[7] == 'l');
    assert("MCM2SmallS66F"@[8] == 'l');
    assert("MCM2SmallS66F"@[9] == 'S');
    assert("MCM2SmallS66F"@[10] == '6');
    assert("MCM2SmallS66F"@[11] == '6');
    assert("MCM2SmallS66F"@[12] == 'F');
    reveal_strlit("MCM2SmallS76F");
    assert("MCM2SmallS76F"@.len() == 13);
    assert("MCM2SmallS76F"@[4] == 'S');
    assert("MCM2SmallS76F"@[6] == 'a');
    assert("MCM2SmallS76F"@[7] == 'l');
    assert("MCM2SmallS76F"@[8] == 'l');
    assert("MCM2SmallS76F"@[9] == 'S');
    assert("MCM2SmallS76F"@[10] == '7');
    assert("MCM2SmallS76F"@[11] == '6');
    assert("MCM2SmallS76F"@[12] == 'F');
    reveal_strlit("OSSGravCS0");
    assert("OSSGravCS0"@.len() == 10);
    assert("OSSGravCS0"@[4] == 'r');
    assert("OSSGravCS0"@[6] == 'v');
    assert("OSSGravCS0"@[7] == 'C');
    assert("OSSGravCS0"@[8] == 'S');
    assert("OSSGravCS0"@[9] == '0');
    reveal_strlit("OSSTrussIF6D");
    assert("OSSTrussIF6D"@.len() == 12);
    assert("OSSTrussIF6D"@[4] == 'r');
    assert("OSSTrussIF6D"@[6] == 's');
    assert("OSSTrussIF6D"@[7] == 's');
    assert("OSSTrussIF6D"@[8] == 'I');
    assert("OSSTrussIF6D"@[9] == 'F');
    assert("OSSTrussIF6D"@[10] == '6');
    assert("OSSTrussIF6D"@[11] == 'D');
    reveal_strlit("OSSGIR6D");
    assert("OSSGIR6D"@.len() == 8);
    assert("OSSGIR6D"@[4] == 'I');
    assert("OSSGIR6D"@[6] == '6');
    assert("OSSGIR6D"@[7] == 'D');
    reveal_strlit("OSSCRING6D");
    assert("OSSCRING6D"@.len() == 10);
    assert("OSSCRING6D"@[4] == 'R');
    assert("OSSCRING6D"@[6] == 'N');
    assert("OSSCRING6D"@[7] == 'G');
    assert("OSSCRING6D"@[8] == '6');
    assert("OSSCRING6D"@[9] == 'D');
}

proof fn lemma_marks_7()
    ensures
        Tags::OSSBASE6D.canonical_name().len() == 9,
        Tags::OSSBASE6D.canonical_name()[4] == 'A',
        Tags::OSSBASE6D.canonical_name()[6] == 'E',
        Tags::OSSBASE6D.canonical_name()[7] == '6',
        Tags::OSSBASE6D.canonical_name()[8] == 'D',
        Tags::OSSM1Lcl.canonical_name().len() == 8,
        Tags::OSSM1Lcl.canonical_name()[4] == '1',
        Tags::OSSM1Lcl.canonical_name()[6] == 'c',
        Tags::OSSM1Lcl.canonical_name()[7] == 'l',
        Tags::OSSTruss6d.canonical_name().len() == 10,
        Tags::OSSTruss6d.canonical_name()[4] == 'r',
        Tags::OSSTruss6d.canonical_name()[6] == 's',
        Tags::OSSTruss6d.canonical_name()[7] == 's',
        Tags::OSSTruss6d.canonical_name()[8] == '6',
        Tags::OSSTruss6d.canonical_name()[9] == 'd',
        Tags::OSSCellLcl.canonical_name().len() == 10,
        Tags::OSSCellLcl.canonical_name()[4] == 'e',
        Tags::OSSCellLcl.canonical_name()[6] == 'l',
        Tags::OSSCellLcl.canonical_name()[7] == 'L',
        Tags::OSSCellLcl.canonical_name()[8] == 'c',
        Tags::OSSCellLcl.canonical_name()[9] == 'l',
        Tags::MCM2SmallS16D.canonical_name().len() == 13,
        Tags::MCM2SmallS16D.canonical_name()[4] == 'S',
        Tags::MCM2SmallS16D.canonical_name()[6] == 'a',
        Tags::MCM2SmallS16D.canonical_name()[7] == 'l',
        Tags::MCM2SmallS16D.canonical_name()[8] == 'l',
        Tags::MCM2SmallS16D.canonical_name()[9] == 'S',
        Tags::MCM2SmallS16D.canonical_name()[10] == '1',
        Tags::MCM2SmallS16D.canonical_name()[11] == '6',
        Tags::MCM2SmallS16D.canonical_name()[12] == 'D',
        Tags::MCM2PZTS1D.canonical_name().len() == 10,
        Tags::MCM2PZTS1D.canonical_name()[4] == 'P',
        Tags::MCM2PZTS1D.canonical_name()[6] == 'T',
        Tags::MCM2PZTS1D.canonical_name()[7] == 'S',
        Tags::MCM2PZTS1D.canonical_name()[8] == '1',
        Tags::MCM2PZTS1D.canonical_name()[9] == 'D',
        Tags::MCM2SmallS26D.canonical_name().len() == 13,
        Tags::MCM2SmallS26D.canonical_name()[4] == 'S',
        Tags::MCM2SmallS26D.canonical_name()[6] == 'a',
        Tags::MCM2SmallS26D.canonical_name()[7] == 'l',
        Tags::MCM2SmallS26D.canonical_name()[8] == 'l',
        Tags::MCM2SmallS26D.canonical_name()[9] == 'S',
        Tags::MCM2SmallS26D.canonical_name()[10] == '2',
        Tags::MCM2SmallS26D.canonical_name()[11] == '6',
        Tags::MCM2SmallS26D.canonical_name()[12] == 'D',
        Tags::MCM2PZTS2D.canonical_name().len() == 10,
        Tags::MCM2PZTS2D.canonical_name()[4] == 'P',
        Tags::MCM2PZTS2D.canonical_name()[6] == 'T',
        Tags::MCM2PZTS2D.canonical_name()[7] == 'S',
        Tags::MCM2PZTS2D.canonical_name()[8] == '2',
        Tags::MCM2PZTS2D.canonical_name()[9] == 'D',
        Tags::MCM2SmallS36D.canonical_name().len() == 13,
        Tags::MCM2SmallS36D.canonical_name()[4] == 'S',
        Tags::MCM2SmallS36D.canonical_name()[6] == 'a',
        Tags::MCM2SmallS36D.canonical_name()[7] == 'l',
        Tags::MCM2SmallS36D.canonical_name()[8] == 'l',
        Tags::MCM2SmallS36D.canonical_name()[9] == 'S',
        Tags::MCM2SmallS36D.canonical_name()[10] == '3',
        Tags::MCM2SmallS36D.canonical_name()[11] == '6',
        Tags::MCM2SmallS36D.canonical_name()[12] == 'D',
        Tags::MCM2PZTS3D.canonical_name().len() == 10,
        Tags::MCM2PZTS3D.canonical_name()[4] == 'P',
        Tags::MCM2PZTS3D.canonical_name()[6] == 'T',
        Tags::MCM2PZTS3D.canonical_name()[7] == 'S',
        Tags::MCM2PZTS3D.canonical_name()[8] == '3',
        Tags::MCM2PZTS3D.canonical_name()[9] == 'D',
{
    reveal_strlit("OSSBASE6D");
    assert("OSSBASE6D"@.len() == 9);
    assert("OSSBASE6D"@[4] == 'A');
    assert("OSSBASE6D"@[6] == 'E');
    assert("OSSBASE6D"@[7] == '6');
    assert("OSSBASE6D"@[8] == 'D');
    reveal_strlit("OSSM1Lcl");
    assert("OSSM1Lcl"@.len() == 8);
    assert("OSSM1Lcl"@[4] == '1');
    assert("OSSM1Lcl"@[6] == 'c');
    assert("OSSM1Lcl"@[7] == 'l');
    reveal_strlit("OSSTruss6d");
    assert("OSSTruss6d"@.len() == 10);
    assert("OSSTruss6d"@[4] == 'r');
    assert("OSSTruss6d"@[6] == 's');
    assert("OSSTruss6d"@[7] == 's');
    assert("OSSTruss6d"@[8] == '6');
    assert("OSSTruss6d"@[9] == 'd');
    reveal_strlit("OSSCellLcl");
    assert("OSSCellLcl"@.len() == 10);
    assert("OSSCellLcl"@[4] == 'e');
    assert("OSSCellLcl"@[6] == 'l');
    assert("OSSCellLcl"@[7] == 'L');
    assert("OSSCellLcl"@[8] == 'c');
    assert("OSSCellLcl"@[9] == 'l');
    reveal_strlit("MCM2SmallS16D");
    assert("MCM2SmallS16D"@.len() == 13);
    assert("MCM2SmallS16D"@[4] == 'S');
    assert("MCM2SmallS16D"@[6] == 'a');
    assert("MCM2SmallS16D"@[7] == 'l');
    assert("MCM2SmallS16D"@[8] == 'l');
    assert("MCM2SmallS16D"@[9] == 'S');
    assert("MCM2SmallS16D"@[10] == '1');
    assert("MCM2SmallS16D"@[11] == '6');
    assert("MCM2SmallS16D"@[12] == 'D');
    reveal_strlit("MCM2PZTS1D");
    assert("MCM2PZTS1D"@.len() == 10);
    assert("MCM2PZTS1D"@[4] == 'P');
    assert("MCM2PZTS1D"@[6] == 'T');
    assert("MCM2PZTS1D"@[7] == 'S');
    assert("MCM2PZTS1D"@[8] == '1');
    assert("MCM2PZTS1D"@[9] == 'D');
    reveal_strlit("MCM2SmallS26D");
    assert("MCM2SmallS26D"@.len() == 13);
    assert("MCM2SmallS26D"@[4] == 'S');
    assert("MCM2SmallS26D"@[6] == 'a');
    assert("MCM2SmallS26D"@[7] == 'l');
    assert("MCM2SmallS26D"@[8] == 'l');
    assert("MCM2SmallS26D"@[9] == 'S');
    assert("MCM2SmallS26D"@[10] == '2');
    assert("MCM2SmallS26D"@[11] == '6');
    assert("MCM2SmallS26D"@[12] == 'D');
    reveal_strlit("MCM2PZTS2D");
    assert("MCM2PZTS2D"@.len() == 10);
    assert("MCM2PZTS2D"@[4] == 'P');
    assert("MCM2PZTS2D"@[6] == 'T');
    assert("MCM2PZTS2D"@[7] == 'S');
    assert("MCM2PZTS2D"@[8] == '2');
    assert("MCM2PZTS2D"@[9] == 'D');
    reveal_strlit("MCM2SmallS36D");
    assert("MCM2SmallS36D"@.len() == 13);
    assert("MCM2SmallS36D"@[4] == 'S');
    assert("MCM2SmallS36D"@[6] == 'a');
    assert("MCM2SmallS36D"@[7] == 'l');
    assert("MCM2SmallS36D"@[8] == 'l');
    assert("MCM2SmallS36D"@[9] == 'S');
    assert("MCM2SmallS36D"@[10] == '3');
    assert("MCM2SmallS36D"@[11] == '6');
    assert("MCM2SmallS36D"@[12] == 'D');
    reveal_strlit("MCM2PZTS3D");
    assert("MCM2PZTS3D"@.len() == 10);
    assert("MCM2PZTS3D"@[4] == 'P');
    assert("MCM2PZTS3D"@[6] == 'T');
    assert("MCM2PZTS3D"@[7] == 'S');
    assert("MCM2PZTS3D"@[8] == '3');
    assert("MCM2PZTS3D"@[9] == 'D');
}

proof fn lemma_marks_8()
    ensures
        Tags::MCM2SmallS46D.canonical_name().len() == 13,
        Tags::MCM2SmallS46D.canonical_name()[4] == 'S',
        Tags::MCM2SmallS46D.canonical_name()[6] == 'a',
        Tags::MCM2SmallS46D.canonical_name()[7] == 'l',
        Tags::MCM2SmallS46D.canonical_name()[8] == 'l',
        Tags::MCM2SmallS46D.canonical_name()[9] == 'S',
        Tags::MCM2SmallS46D.canonical_name()[10] == '4',
        Tags::MCM2SmallS46D.canonical_name()[11] == '6',
        Tags::MCM2SmallS46D.canonical_name()[12] == 'D',
        Tags::MCM2PZTS4D.canonical_name().len() == 10,
        Tags::MCM2PZTS4D.canonical_name()[4] == 'P',
        Tags::MCM2PZTS4D.canonical_name()[6] == 'T',
        Tags::MCM2PZTS4D.canonical_name()[7] == 'S',
        Tags::MCM2PZTS4D.canonical_name()[8] == '4',
        Tags::MCM2PZTS4D.canonical_name()[9] == 'D',
        Tags::MCM2SmallS56D.canonical_name().len() == 13,
        Tags::MCM2SmallS56D.canonical_name()[4] == 'S',
        Tags::MCM2SmallS56D.canonical_name()[6] == 'a',
        Tags::MCM2SmallS56D.canonical_name()[7] == 'l',
        Tags::MCM2SmallS56D.canonical_name()[8] == 'l',
        Tags::MCM2SmallS56D.canonical_name()[9] == 'S',
        Tags::MCM2SmallS56D.canonical_name()[10] == '5',
        Tags::MCM2SmallS56D.canonical_name()[11] == '6',
        Tags::MCM2SmallS56D.canonical_name()[12] == 'D',
        Tags::MCM2PZTS5D.canonical_name().len() == 10,
        Tags::MCM2PZTS5D.canonical_name()[4] == 'P',
        Tags::MCM2PZTS5D.canonical_name()[6] == 'T',
        Tags::MCM2PZTS5D.canonical_name()[7] == 'S',
        Tags::MCM2PZTS5D.canonical_name()[8] == '5',
        Tags::MCM2PZTS5D.canonical_name()[9] == 'D',
        Tags::MCM2SmallS66D.canonical_name().len() == 13,
        Tags::MCM2SmallS66D.canonical_name()[4] == 'S',
        Tags::MCM2SmallS66D.canonical_name()[6] == 'a',
        Tags::MCM2SmallS66D.canonical_name()[7] == 'l',
        Tags::MCM2SmallS66D.canonical_name()[8] == 'l',
        Tags::MCM2SmallS66D.canonical_name()[9] == 'S',
        Tags::MCM2SmallS66D.canonical_name()[10] == '6',
        Tags::MCM2SmallS66D.canonical_name()[11] == '6',
        Tags::MCM2SmallS66D.canonical_name()[12] == 'D',
        Tags::MCM2PZTS6D.canonical_name().len() == 10,
        Tags::MCM2PZTS6D.canonical_name()[4] == 'P',
        Tags::MCM2PZTS6D.canonical_name()[6] == 'T',
        Tags::MCM2PZTS6D.canonical_name()[7] == 'S',
        Tags::MCM2PZTS6D.canonical_name()[8] == '6',
        Tags::MCM2PZTS6D.canonical_name()[9] == 'D',
        Tags::MCM2SmallS76D.canonical_name().len() == 13,
        Tags::MCM2SmallS76D.canonical_name()[4] == 'S',
        Tags::MCM2SmallS76D.canonical_name()[6] == 'a',
        Tags::MCM2SmallS76D.canonical_name()[7] == 'l',
        Tags::MCM2SmallS76D.canonical_name()[8] == 'l',
        Tags::MCM2SmallS76D.canonical_name()[9] == 'S',
        Tags::MCM2SmallS76D.canonical_name()[10] == '7',
        Tags::MCM2SmallS76D.canonical_name()[11] == '6',
        Tags::MCM2SmallS76D.canonical_name()[12] == 'D',
        Tags::MCM2PZTS7D.canonical_name().len() == 10,
        Tags::MCM2PZTS7D.canonical_name()[4] == 'P',
        Tags::MCM2PZTS7D.canonical_name()[6] == 'T',
        Tags::MCM2PZTS7D.canonical_name()[7] == 'S',
        Tags::MCM2PZTS7D.canonical_name()[8] == '7',
        Tags::MCM2PZTS7D.canonical_name()[9] == 'D',
        Tags::M1SurfacesD.canonical_name().len() == 11,
        Tags::M1SurfacesD.canonical_name()[4] == 'r',
        Tags::M1SurfacesD.canonical_name()[6] == 'a',
        Tags::M1SurfacesD.canonical_name()[7] == 'c',
        Tags::M1SurfacesD.canonical_name()[8] == 'e',
        Tags::M1SurfacesD.canonical_name()[9] == 's',
        Tags::M1SurfacesD.canonical_name()[10] == 'D',
        Tags::M1EdgeSensors.canonical_name().len() == 13,
        Tags::M1EdgeSensors.canonical_name()[4] == 'g',
        Tags::M1EdgeSensors.canonical_name()[6] == 'S',
        Tags::M1EdgeSensors.canonical_name()[7] == 'e',
        Tags::M1EdgeSensors.canonical_name()[8] == 'n',
        Tags::M1EdgeSensors.canonical_name()[9] == 's',
        Tags::M1EdgeSensors.canonical_name()[10] == 'o',
        Tags::M1EdgeSensors.canonical_name()[11] == 'r',
        Tags::M1EdgeSensors.canonical_name()[12] == 's',
{
    reveal_strlit("MCM2SmallS46D");
    assert("MCM2SmallS46D"@.len() == 13);
    assert("MCM2SmallS46D"@[4] == 'S');
    assert("MCM2SmallS46D"@[6] == 'a');
    assert("MCM2SmallS46D"@[7] == 'l');
    assert("MCM2SmallS46D"@[8] == 'l');
    assert("MCM2SmallS46D"@[9] == 'S');
    assert("MCM2SmallS46D"@[10] == '4');
    assert("MCM2SmallS46D"@[11] == '6');
    assert("MCM2SmallS46D"@[12] == 'D');
    reveal_strlit("MCM2PZTS4D");
    assert("MCM2PZTS4D"@.len() == 10);
    assert("MCM2PZTS4D"@[4] == 'P');
    assert("MCM2PZTS4D"@[6] == 'T');
    assert("MCM2PZTS4D"@[7] == 'S');
    assert("MCM2PZTS4D"@[8] == '4');
    assert("MCM2PZTS4D"@[9] == 'D');
    reveal_strlit("MCM2SmallS56D");
    assert("MCM2SmallS56D"@.len() == 13);
    assert("MCM2SmallS56D"@[4] == 'S');
    assert("MCM2SmallS56D"@[6] == 'a');
    assert("MCM2SmallS56D"@[7] == 'l');
    assert("MCM2SmallS56D"@[8] == 'l');
    assert("MCM2SmallS56D"@[9] == 'S');
    assert("MCM2SmallS56D"@[10] == '5');
    assert("MCM2SmallS56D"@[11] == '6');
    assert("MCM2SmallS56D"@[12] == 'D');
    reveal_strlit("MCM2PZTS5D");
    assert("MCM2PZTS5D"@.len() == 10);
    assert("MCM2PZTS5D"@[4] == 'P');
    assert("MCM2PZTS5D"@[6] == 'T');
    assert("MCM2PZTS5D"@[7] == 'S');
    assert("MCM2PZTS5D"@[8] == '5');
    assert("MCM2PZTS5D"@[9] == 'D');
    reveal_strlit("MCM2SmallS66D");
    assert("MCM2SmallS66D"@.len() == 13);
    assert("MCM2SmallS66D"@[4] == 'S');
    assert("MCM2SmallS66D"@[6] == 'a');
    assert("MCM2SmallS66D"@[7] == 'l');
    assert("MCM2SmallS66D"@[8] == 'l');
    assert("MCM2SmallS66D"@[9] == 'S');
    assert("MCM2SmallS66D"@[10] == '6');
    assert("MCM2SmallS66D"@[11] == '6');
    assert("MCM2SmallS66D"@[12] == 'D');
    reveal_strlit("MCM2PZTS6D");
    assert("MCM2PZTS6D"@.len() == 10);
    assert("MCM2PZTS6D"@[4] == 'P');
    assert("MCM2PZTS6D"@[6] == 'T');
    assert("MCM2PZTS6D"@[7] == 'S');
    assert("MCM2PZTS6D"@[8] == '6');
    assert("MCM2PZTS6D"@[9] == 'D');
    reveal_strlit("MCM2SmallS76D");
    assert("MCM2SmallS76D"@.len() == 13);
    assert("MCM2SmallS76D"@[4] == 'S');
    assert("MCM2SmallS76D"@[6] == 'a');
    assert("MCM2SmallS76D"@[7] == 'l');
    assert("MCM2SmallS76D"@[8] == 'l');
    assert("MCM2SmallS76D"@[9] == 'S');
    assert("MCM2SmallS76D"@[10] == '7');
    assert("MCM2SmallS76D"@[11] == '6');
    assert("MCM2SmallS76D"@[12] == 'D');
    reveal_strlit("MCM2PZTS7D");
    assert("MCM2PZTS7D"@.len() == 10);
    assert("MCM2PZTS7D"@[4] == 'P');
    assert("MCM2PZTS7D"@[6] == 'T');
    assert("MCM2PZTS7D"@[7] == 'S');
    assert("MCM2PZTS7D"@[8] == '7');
    assert("MCM2PZTS7D"@[9] == 'D');
    reveal_strlit("M1SurfacesD");
    assert("M1SurfacesD"@.len() == 11);
    assert("M1SurfacesD"@[4] == 'r');
    assert("M1SurfacesD"@[6] == 'a');
    assert("M1SurfacesD"@[7] == 'c');
    assert("M1SurfacesD"@[8] == 'e');
    assert("M1SurfacesD"@[9] == 's');
    assert("M1SurfacesD"@[10] == 'D');
    reveal_strlit("M1EdgeSensors");
    assert("M1EdgeSensors"@.len() == 13);
    assert("M1EdgeSensors"@[4] == 'g');
    assert("M1EdgeSensors"@[6] == 'S');
    assert("M1EdgeSensors"@[7] == 'e');
    assert("M1EdgeSensors"@[8] == 'n');
    assert("M1EdgeSensors"@[9] == 's');
    assert("M1EdgeSensors"@[10] == 'o');
    assert("M1EdgeSensors"@[11] == 'r');
    assert("M1EdgeSensors"@[12] == 's');
}

proof fn lemma_marks_9()
    ensures
        Tags::MCM2CP1D.canonical_name().len() == 8,
        Tags::MCM2CP1D.canonical_name()[4] == 'C',
        Tags::MCM2CP1D.canonical_name()[6] == '1',
        Tags::MCM2CP1D.canonical_name()[7] == 'D',
        Tags::MCM2SmHexD.canonical_name().len() == 10,
        Tags::MCM2SmHexD.canonical_name()[4] == 'S',
        Tags::MCM2SmHexD.canonical_name()[6] == 'H',
        Tags::MCM2SmHexD.canonical_name()[7] == 'e',
        Tags::MCM2SmHexD.canonical_name()[8] == 'x',
        Tags::MCM2SmHexD.canonical_name()[9] == 'D',
        Tags::M2edgesensors.canonical_name().len() == 13,
        Tags::M2edgesensors.canonical_name()[4] == 'g',
        Tags::M2edgesensors.canonical_name()[6] == 's',
        Tags::M2edgesensors.canonical_name()[7] == 'e',
        Tags::M2edgesensors.canonical_name()[8] == 'n',
        Tags::M2edgesensors.canonical_name()[9] == 's',
        Tags::M2edgesensors.canonical_name()[10] == 'o',
        Tags::M2edgesensors.canonical_name()[11] == 'r',
        Tags::M2edgesensors.canonical_name()[12] == 's',
        Tags::MCM2TEIF6D.canonical_name().len() == 10,
        Tags::MCM2TEIF6D.canonical_name()[4] == 'T',
        Tags::MCM2TEIF6D.canonical_name()[6] == 'I',
        Tags::MCM2TEIF6D.canonical_name()[7] == 'F',
        Tags::MCM2TEIF6D.canonical_name()[8] == '6',
        Tags::MCM2TEIF6D.canonical_name()[9] == 'D',
        Tags::MCM2TE6D.canonical_name().len() == 8,
        Tags::MCM2TE6D.canonical_name()[4] == 'T',
        Tags::MCM2TE6D.canonical_name()[6] == '6',
        Tags::MCM2TE6D.canonical_name()[7] == 'D',
        Tags::M2ReferenceBody1AxialD.canonical_name().len() == 22,
        Tags::M2ReferenceBody1AxialD.canonical_name()[4] == 'f',
        Tags::M2ReferenceBody1AxialD.canonical_name()[6] == 'r',
        Tags::M2ReferenceBody1AxialD.canonical_name()[7] == 'e',
        Tags::M2ReferenceBody1AxialD.canonical_name()[8] == 'n',
        Tags::M2ReferenceBody1AxialD.canonical_name()[9] == 'c',
        Tags::M2ReferenceBody1AxialD.canonical_name()[10] == 'e',
        Tags::M2ReferenceBody1AxialD.canonical_name()[11] == 'B',
        Tags::M2ReferenceBody1AxialD.canonical_name()[12] == 'o',
        Tags::M2ReferenceBody1AxialD.canonical_name()[15] == '1',
        Tags::M2ReferenceBody1AxialD.canonical_name()[18] == 'i',
        Tags::M2ReferenceBody2AxialD.canonical_name().len() == 22,
        Tags::M2ReferenceBody2AxialD.canonical_name()[4] == 'f',
        Tags::M2ReferenceBody2AxialD.canonical_name()[6] == 'r',
        Tags::M2ReferenceBody2AxialD.canonical_name()[7] == 'e',
        Tags::M2ReferenceBody2AxialD.canonical_name()[8] == 'n',
        Tags::M2ReferenceBody2AxialD.canonical_name()[9] == 'c',
        Tags::M2ReferenceBody2AxialD.canonical_name()[10] == 'e',
        Tags::M2ReferenceBody2AxialD.canonical_name()[11] == 'B',
        Tags::M2ReferenceBody2AxialD.canonical_name()[12] == 'o',
        Tags::M2ReferenceBody2AxialD.canonical_name()[15] == '2',
        Tags::M2ReferenceBody2AxialD.canonical_name()[18] == 'i',
        Tags::M2ReferenceBody3AxialD.canonical_name().len() == 22,
        Tags::M2ReferenceBody3AxialD.canonical_name()[4] == 'f',
        Tags::M2ReferenceBody3AxialD.canonical_name()[6] == 'r',
        Tags::M2ReferenceBody3AxialD.canonical_name()[7] == 'e',
        Tags::M2ReferenceBody3AxialD.canonical_name()[8] == 'n',
        Tags::M2ReferenceBody3AxialD.canonical_name()[9] == 'c',
        Tags::M2ReferenceBody3AxialD.canonical_name()[10] == 'e',
        Tags::M2ReferenceBody3AxialD.canonical_name()[11] == 'B',
        Tags::M2ReferenceBody3AxialD.canonical_name()[12] == 'o',
        Tags::M2ReferenceBody3AxialD.canonical_name()[15] == '3',
        Tags::M2ReferenceBody3AxialD.canonical_name()[18] == 'i',
        Tags::M2ReferenceBody4AxialD.canonical_name().len() == 22,
        Tags::M2ReferenceBody4AxialD.canonical_name()[4] == 'f',
        Tags::M2ReferenceBody4AxialD.canonical_name()[6] == 'r',
        Tags::M2ReferenceBody4AxialD.canonical_name()[7] == 'e',
        Tags::M2ReferenceBody4AxialD.canonical_name()[8] == 'n',
        Tags::M2ReferenceBody4AxialD.canonical_name()[9] == 'c',
        Tags::M2ReferenceBody4AxialD.canonical_name()[10] == 'e',
        Tags::M2ReferenceBody4AxialD.canonical_name()[11] == 'B',
        Tags::M2ReferenceBody4AxialD.canonical_name()[12] == 'o',
        Tags::M2ReferenceBody4AxialD.canonical_name()[15] == '4',
        Tags::M2ReferenceBody4AxialD.canonical_name()[18] == 'i',
        Tags::M2ReferenceBody5AxialD.canonical_name().len() == 22,
        Tags::M2ReferenceBody5AxialD.canonical_name()[4] == 'f',
        Tags::M2ReferenceBody5AxialD.canonical_name()[6] == 'r',
        Tags::M2ReferenceBody5AxialD.canonical_name()[7] == 'e',
        Tags::M2ReferenceBody5AxialD.canonical_name()[8] == 'n',
        Tags::M2ReferenceBody5AxialD.canonical_name()[9] == 'c',
        Tags::M2ReferenceBody5AxialD.canonical_name()[10] == 'e',
        Tags::M2ReferenceBody5AxialD.canonical_name()[11] == 'B',
        Tags::M2ReferenceBody5AxialD.canonical_name()[12] == 'o',
        Tags::M2ReferenceBody5AxialD.canonical_name()[15] == '5',
        Tags::M2ReferenceBody5AxialD.canonical_name()[18] == 'i',
{
    reveal_strlit("MCM2CP1D");
    assert("MCM2CP1D"@.len() == 8);
    assert("MCM2CP1D"@[4] == 'C');
    assert("MCM2CP1D"@[6] == '1');
    assert("MCM2CP1D"@[7] == 'D');
    reveal_strlit("MCM2SmHexD");
    assert("MCM2SmHexD"@.len() == 10);
    assert("MCM2SmHexD"@[4] == 'S');
    assert("MCM2SmHexD"@[6] == 'H');
    assert("MCM2SmHexD"@[7] == 'e');
    assert("MCM2SmHexD"@[8] == 'x');
    assert("MCM2SmHexD"@[9] == 'D');
    reveal_strlit("M2edgesensors");
    assert("M2edgesensors"@.len() == 13);
    assert("M2edgesensors"@[4] == 'g');
    assert("M2edgesensors"@[6] == 's');
    assert("M2edgesensors"@[7] == 'e');
    assert("M2edgesensors"@[8] == 'n');
    assert("M2edgesensors"@[9] == 's');
    assert("M2edgesensors"@[10] == 'o');
    assert("M2edgesensors"@[11] == 'r');
    assert("M2edgesensors"@[12] == 's');
    reveal_strlit("MCM2TEIF6D");
    assert("MCM2TEIF6D"@.len() == 10);
    assert("MCM2TEIF6D"@[4] == 'T');
    assert("MCM2TEIF6D"@[6] == 'I');
    assert("MCM2TEIF6D"@[7] == 'F');
    assert("MCM2TEIF6D"@[8] == '6');
    assert("MCM2TEIF6D"@[9] == 'D');
    reveal_strlit("MCM2TE6D");
    assert("MCM2TE6D"@.len() == 8);
    assert("MCM2TE6D"@[4] == 'T');
    assert("MCM2TE6D"@[6] == '6');
    assert("MCM2TE6D"@[7] == 'D');
    reveal_strlit("M2ReferenceBody1AxialD");
    assert("M2ReferenceBody1AxialD"@.len() == 22);
    assert("M2ReferenceBody1AxialD"@[4] == 'f');
    assert("M2ReferenceBody1AxialD"@[6] == 'r');
    assert("M2ReferenceBody1AxialD"@[7] == 'e');
    assert("M2ReferenceBody1AxialD"@[8] == 'n');
    assert("M2ReferenceBody1AxialD"@[9] == 'c');
    assert("M2ReferenceBody1AxialD"@[10] == 'e');
    assert("M2ReferenceBody1AxialD"@[11] == 'B');
    assert("M2ReferenceBody1AxialD"@[12] == 'o');
    assert("M2ReferenceBody1AxialD"@[15] == '1');
    assert("M2ReferenceBody1AxialD"@[18] == 'i');
    reveal_strlit("M2ReferenceBody2AxialD");
    assert("M2ReferenceBody2AxialD"@.len() == 22);
    assert("M2ReferenceBody2AxialD"@[4] == 'f');
    assert("M2ReferenceBody2AxialD"@[6] == 'r');
    assert("M2ReferenceBody2AxialD"@[7] == 'e');
    assert("M2ReferenceBody2AxialD"@[8] == 'n');
    assert("M2ReferenceBody2AxialD"@[9] == 'c');
    assert("M2ReferenceBody2AxialD"@[10] == 'e');
    assert("M2ReferenceBody2AxialD"@[11] == 'B');
    assert("M2ReferenceBody2AxialD"@[12] == 'o');
    assert("M2ReferenceBody2AxialD"@[15] == '2');
    assert("M2ReferenceBody2AxialD"@[18] == 'i');
    reveal_strlit("M2ReferenceBody3AxialD");
    assert("M2ReferenceBody3AxialD"@.len() == 22);
    assert("M2ReferenceBody3AxialD"@[4] == 'f');
    assert("M2ReferenceBody3AxialD"@[6] == 'r');
    assert("M2ReferenceBody3AxialD"@[7] == 'e');
    assert("M2ReferenceBody3AxialD"@[8] == 'n');
    assert("M2ReferenceBody3AxialD"@[9] == 'c');
    assert("M2ReferenceBody3AxialD"@[10] == 'e');
    assert("M2ReferenceBody3AxialD"@[11] == 'B');
    assert("M2ReferenceBody3AxialD"@[12] == 'o');
    assert("M2ReferenceBody3AxialD"@[15] == '3');
    assert("M2ReferenceBody3AxialD"@[18] == 'i');
    reveal_strlit("M2ReferenceBody4AxialD");
    assert("M2ReferenceBody4AxialD"@.len() == 22);
    assert("M2ReferenceBody4AxialD"@[4] == 'f');
    assert("M2ReferenceBody4AxialD"@[6] == 'r');
    assert("M2ReferenceBody4AxialD"@[7] == 'e');
    assert("M2ReferenceBody4AxialD"@[8] == 'n');
    assert("M2ReferenceBody4AxialD"@[9] == 'c');
    assert("M2ReferenceBody4AxialD"@[10] == 'e');
    assert("M2ReferenceBody4AxialD"@[11] == 'B');
    assert("M2ReferenceBody4AxialD"@[12] == 'o');
    assert("M2ReferenceBody4AxialD"@[15] == '4');
    assert("M2ReferenceBody4AxialD"@[18] == 'i');
    reveal_strlit("M2ReferenceBody5AxialD");
    assert("M2ReferenceBody5AxialD"@.len() == 22);
    assert("M2ReferenceBody5AxialD"@[4] == 'f');
    assert("M2ReferenceBody5AxialD"@[6] == 'r');
    assert("M2ReferenceBody5AxialD"@[7] == 'e');
    assert("M2ReferenceBody5AxialD"@[8] == 'n');
    assert("M2ReferenceBody5AxialD"@[9] == 'c');
    assert("M2ReferenceBody5AxialD"@[10] == 'e');
    assert("M2ReferenceBody5AxialD"@[11] == 'B');
    assert("M2ReferenceBody5AxialD"@[12] == 'o');
    assert("M2ReferenceBody5AxialD"@[15] == '5');
    assert("M2ReferenceBody5AxialD"@[18] == 'i');
}

proof fn lemma_marks_10()
    ensures
        Tags::M2ReferenceBody6AxialD.canonical_name().len() == 22,
        Tags::M2ReferenceBody6AxialD.canonical_name()[4] == 'f',
        Tags::M2ReferenceBody6AxialD.canonical_name()[6] == 'r',
        Tags::M2ReferenceBody6AxialD.canonical_name()[7] == 'e',
        Tags::M2ReferenceBody6AxialD.canonical_name()[8] == 'n',
        Tags::M2ReferenceBody6AxialD.canonical_name()[9] == 'c',
        Tags::M2ReferenceBody6AxialD.canonical_name()[10] == 'e',
        Tags::M2ReferenceBody6AxialD.canonical_name()[11] == 'B',
        Tags::M2ReferenceBody6AxialD.canonical_name()[12] == 'o',
        Tags::M2ReferenceBody6AxialD.canonical_name()[15] == '6',
        Tags::M2ReferenceBody6AxialD.canonical_name()[18] == 'i',
        Tags::M2ReferenceBody7AxialD.canonical_name().len() == 22,
        Tags::M2ReferenceBody7AxialD.canonical_name()[4] == 'f',
        Tags::M2ReferenceBody7AxialD.canonical_name()[6] == 'r',
        Tags::M2ReferenceBody7AxialD.canonical_name()[7] == 'e',
        Tags::M2ReferenceBody7AxialD.canonical_name()[8] == 'n',
        Tags::M2ReferenceBody7AxialD.canonical_name()[9] == 'c',
        Tags::M2ReferenceBody7AxialD.canonical_name()[10] == 'e',
        Tags::M2ReferenceBody7AxialD.canonical_name()[11] == 'B',
        Tags::M2ReferenceBody7AxialD.canonical_name()[12] == 'o',
        Tags::M2ReferenceBody7AxialD.canonical_name()[15] == '7',
        Tags::M2ReferenceBody7AxialD.canonical_name()[18] == 'i',
        Tags::MountCmd.canonical_name().len() == 8,
        Tags::MountCmd.canonical_name()[4] == 't',
        Tags::MountCmd.canonical_name()[6] == 'm',
        Tags::MountCmd.canonical_name()[7] == 'd',
        Tags::M1HPCmd.canonical_name().len() == 7,
        Tags::M1HPCmd.canonical_name()[4] == 'C',
        Tags::M1HPCmd.canonical_name()[6] == 'd',
        Tags::M1HPLC.canonical_name().len() == 6,
        Tags::M1HPLC.canonical_name()[4] == 'L',
        Tags::M1CGFM.canonical_name().len() == 6,
        Tags::M1CGFM.canonical_name()[4] == 'F',
{
    reveal_strlit("M2ReferenceBody6AxialD");
    assert("M2ReferenceBody6AxialD"@.len() == 22);
    assert("M2ReferenceBody6AxialD"@[4] == 'f');
    assert("M2ReferenceBody6AxialD"@[6] == 'r');
    assert("M2ReferenceBody6AxialD"@[7] == 'e');
    assert("M2ReferenceBody6AxialD"@[8] == 'n');
    assert("M2ReferenceBody6AxialD"@[9] == 'c');
    assert("M2ReferenceBody6AxialD"@[10] == 'e');
    assert("M2ReferenceBody6AxialD"@[11] == 'B');
    assert("M2ReferenceBody6AxialD"@[12] == 'o');
    assert("M2ReferenceBody6AxialD"@[15] == '6');
    assert("M2ReferenceBody6AxialD"@[18] == 'i');
    reveal_strlit("M2ReferenceBody7AxialD");
    assert("M2ReferenceBody7AxialD"@.len() == 22);
    assert("M2ReferenceBody7AxialD"@[4] == 'f');
    assert("M2ReferenceBody7AxialD"@[6] == 'r');
    assert("M2ReferenceBody7AxialD"@[7] == 'e');
    assert("M2ReferenceBody7AxialD"@[8] == 'n');
    assert("M2ReferenceBody7AxialD"@[9] == 'c');
    assert("M2ReferenceBody7AxialD"@[10] == 'e');
    assert("M2ReferenceBody7AxialD"@[11] == 'B');
    assert("M2ReferenceBody7AxialD"@[12] == 'o');
    assert("M2ReferenceBody7AxialD"@[15] == '7');
    assert("M2ReferenceBody7AxialD"@[18] == 'i');
    reveal_strlit("MountCmd");
    assert("MountCmd"@.len() == 8);
    assert("MountCmd"@[4] == 't');
    assert("MountCmd"@[6] == 'm');
    assert("MountCmd"@[7] == 'd');
    reveal_strlit("M1HPCmd");
    assert("M1HPCmd"@.len() == 7);
    assert("M1HPCmd"@[4] == 'C');
    assert("M1HPCmd"@[6] == 'd');
    reveal_strlit("M1HPLC");
    assert("M1HPLC"@.len() == 6);
    assert("M1HPLC"@[4] == 'L');
    reveal_strlit("M1CGFM");
    assert("M1CGFM"@.len() == 6);
    assert("M1CGFM"@[4] == 'F');
}

/// No two signals bear the same canonical identifier.
pub proof fn lemma_names_are_distinct(a: Tags, b: Tags)
    requires
        a.canonical_name() == b.canonical_name(),
    ensures
        a == b,
{
    lemma_marks_0();
    lemma_marks_1();
    lemma_marks_2();
    lemma_marks_3();
    lemma_marks_4();
    lemma_marks_5();
    lemma_marks_6();
    lemma_marks_7();
    lemma_marks_8();
    lemma_marks_9();
    lemma_marks_10();
}

} // verus!
