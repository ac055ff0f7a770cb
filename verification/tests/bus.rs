use dos::error::DOSError;
use dos::fem::{FemIo, FemPort};
use dos::io::{IOError, Tags, IO};

fn port(name: &str, io: Vec<FemIo>) -> FemPort {
    FemPort {
        name: name.to_string(),
        io,
    }
}

#[test]
fn envelope_with_payload_gives_it_back() {
    let e = IO::with(Tags::OSSM1Lcl6F, vec![0f64; 42]);
    assert_eq!(e.tag, Tags::OSSM1Lcl6F);
    assert_eq!(e.payload().unwrap().len(), 42);
}

#[test]
fn envelope_without_payload_is_missing() {
    let e: IO<Vec<f64>> = IO::new(Tags::OSSTruss6F);
    assert!(e.data.is_none());
    match e.payload() {
        Err(IOError::Missing(name)) => assert_eq!(name, "OSSTruss6F"),
        other => panic!("unexpected: {:?}", other),
    }
}

#[test]
fn identity_does_not_depend_on_payload() {
    let a = IO::with(Tags::MountCmd, vec![1f64, 2., 3.]);
    let b = IO::with(Tags::MountCmd, vec![4f64]);
    let c: IO<()> = IO::new(Tags::MountCmd);
    let d: IO<()> = IO::new(Tags::M1HPCmd);
    assert!(a.same_tag(&b));
    assert!(c.same_tag(&a));
    assert!(!d.same_tag(&a));
}

#[test]
fn into_option_hands_the_payload_out() {
    assert_eq!(IO::with(Tags::M1CGFM, 7usize).into_option(), Some(7));
    assert_eq!(IO::<usize>::new(Tags::M1CGFM).into_option(), None);
}

#[test]
fn assign_puts_a_length() {
    let mut e: IO<usize> = IO::new(Tags::OSSGIR6F);
    e.assign(6);
    assert_eq!(e.tag, Tags::OSSGIR6F);
    assert_eq!(e.data, Some(6));
}

#[test]
fn names_are_the_identifiers() {
    assert_eq!(Tags::OSSTopEnd6F.name(), "OSSTopEnd6F");
    assert_eq!(Tags::M1actuatorsSegment5.name(), "M1actuatorsSegment5");
    assert_eq!(Tags::OSSHarpointDeltaF.name(), "OSSHarpointDeltaF");
    assert_eq!(Tags::M1CGFM.name(), "M1CGFM");
}

#[test]
fn input_matches_by_name_and_keeps_switched_on_indices() {
    let p = port(
        "OSSTruss6F",
        vec![
            FemIo::On(vec![3, 4]),
            FemIo::Off(vec![5]),
            FemIo::On(vec![6]),
        ],
    );
    assert_eq!(Tags::OSSTruss6F.match_fem_inputs(&p), Some(vec![3, 4, 6]));
    assert_eq!(Tags::OSSTopEnd6F.match_fem_inputs(&p), None);
    assert_eq!(Tags::OSSTruss6F.match_fem_outputs(&p), None);
}

#[test]
fn names_match_bit_exactly() {
    let p = port("osstruss6f", vec![FemIo::On(vec![1])]);
    assert_eq!(Tags::OSSTruss6F.match_fem_inputs(&p), None);
    let q = port("OSSTruss6F ", vec![FemIo::On(vec![1])]);
    assert_eq!(Tags::OSSTruss6F.match_fem_inputs(&q), None);
}

#[test]
fn output_matches_by_name() {
    let p = port("OSSM1Lcl", vec![FemIo::On(vec![1, 2])]);
    assert_eq!(Tags::OSSM1Lcl.match_fem_outputs(&p), Some(vec![1, 2]));
    assert_eq!(Tags::OSSM1Lcl.match_fem_inputs(&p), None);
}

#[test]
fn controller_only_signal_matches_no_port() {
    let p = port("MountCmd", vec![FemIo::On(vec![1, 2, 3])]);
    assert_eq!(Tags::MountCmd.match_fem_inputs(&p), None);
    assert_eq!(Tags::MountCmd.match_fem_outputs(&p), None);
    assert!(!Tags::MountCmd.fem_input());
    assert!(!Tags::MountCmd.fem_output());
    assert!(Tags::OSSAzDriveTorque.fem_input());
    assert!(Tags::OSSAzEncoderAngle.fem_output());
}

#[test]
fn port_indices_skip_what_is_switched_off() {
    let p = port(
        "OSSGIR6F",
        vec![FemIo::Off(vec![1]), FemIo::On(vec![2]), FemIo::On(vec![])],
    );
    assert_eq!(p.indices(), vec![2]);
    assert!(p.io[1].is_on());
    assert!(!p.io[0].is_on());
}

#[test]
fn signals_are_found_again_by_name() {
    let all = Tags::all();
    assert_eq!(all.len(), 106);
    for tag in all.iter() {
        assert_eq!(Tags::from_name(&tag.name()), Some(*tag));
    }
    assert_eq!(Tags::from_name("OSS_Truss_6F"), None);
    assert_eq!(Tags::from_name(""), None);
    assert_eq!(Tags::from_name("OSSTruss6F"), Some(Tags::OSSTruss6F));
}

#[test]
fn schema_survives_a_round_trip_by_names() {
    let tags = vec![Tags::OSSM1Lcl6F, Tags::MountCmd, Tags::OSSM1Lcl6F];
    let widths = vec![42usize, 3, 42];
    let written: Vec<(String, usize)> = dos::io::names(&tags)
        .into_iter()
        .zip(widths.iter().cloned())
        .collect();
    assert_eq!(written[1], ("MountCmd".to_string(), 3));
    let names: Vec<String> = written.iter().map(|(name, _)| name.clone()).collect();
    let read = dos::io::from_names(&names).unwrap();
    assert_eq!(read, tags);
    assert_eq!(
        written.iter().map(|(_, width)| *width).collect::<Vec<usize>>(),
        widths
    );
    assert_eq!(
        dos::io::from_names(&vec!["MountCmd".to_string(), "mountcmd".to_string()]),
        None
    );
}

#[test]
fn errors_describe_themselves() {
    assert_eq!(
        DOSError::<IOError>::Inputs.message(),
        Some("DOS Inputs failed".to_string())
    );
    assert_eq!(
        DOSError::<IOError>::Outputs.message(),
        Some("DOS Outputs failed".to_string())
    );
    assert_eq!(
        DOSError::<IOError>::Step.message(),
        Some("DOS Step failed".to_string())
    );
    assert_eq!(DOSError::Component(IOError::Empty).message(), None);
    assert_eq!(
        DOSError::<IOError>::from_io("no such file".to_string()).message(),
        Some("no such file".to_string())
    );
}

#[test]
fn duplicate_copies_the_payload() {
    let a = IO::with(Tags::OSSM1Lcl, vec![1f64, 2.]);
    let mut b = a.duplicate();
    b.data.as_mut().unwrap()[0] = 9.;
    assert_eq!(b.tag, Tags::OSSM1Lcl);
    assert_eq!(a.data, Some(vec![1., 2.]));
    assert!(IO::<Vec<f64>>::new(Tags::OSSM1Lcl).duplicate().data.is_none());
}
