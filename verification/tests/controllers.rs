use dos::controllers::adapter::{Adapter, Port};
use dos::controllers::rate::RateDivider;
use dos::controllers::{m1, mount};
use dos::error::DOSError;
use dos::io::{IOError, Tags, IO};
use dos::{IOTags, DOS};

#[test]
fn pdr_mount_drive_takes_inputs_at_fixed_offsets() {
    let mut mnt_drives = mount::pdr::drives::Controller::new(0f64);
    mnt_drives
        .inputs(vec![
            IO::with(Tags::OSSRotEncoderAngle, vec![4f64; 4]),
            IO::with(Tags::MountCmd, vec![1f64; 3]),
            IO::with(Tags::OSSAzEncoderAngle, vec![2f64; 6]),
            IO::with(Tags::OSSElEncoderAngle, vec![3f64; 4]),
        ])
        .unwrap();
    assert_eq!(
        mnt_drives.adapter.u,
        vec![1., 1., 1., 2., 2., 2., 2., 2., 2., 3., 3., 3., 3., 4., 4., 4., 4.]
    );
}

#[test]
fn pdr_mount_drive_packs_torques() {
    let mut mnt_drives = mount::pdr::drives::Controller::new(0f64);
    mnt_drives
        .step(|_| (0..20).map(|k| k as f64).collect())
        .unwrap();
    let y = mnt_drives.outputs().unwrap();
    assert_eq!(y.len(), 3);
    assert_eq!(y[0].tag, Tags::OSSAzDriveTorque);
    assert_eq!(
        y[0].data,
        Some((0..12).map(|k| k as f64).collect::<Vec<f64>>())
    );
    assert_eq!(y[1].tag, Tags::OSSElDriveTorque);
    assert_eq!(y[1].data, Some(vec![12., 13., 14., 15.]));
    assert_eq!(y[2].tag, Tags::OSSRotDriveTorque);
    assert_eq!(y[2].data, Some(vec![16., 17., 18., 19.]));
}

#[test]
fn pdr_mount_drive_with_zeros_gives_zeros() {
    let mut mnt_drives = mount::pdr::drives::Controller::new(0f64);
    for _ in 0..5 {
        let u = vec![
            IO::with(Tags::MountCmd, vec![0f64; 3]),
            IO::with(Tags::OSSAzEncoderAngle, vec![0f64; 6]),
            IO::with(Tags::OSSElEncoderAngle, vec![0f64; 4]),
            IO::with(Tags::OSSRotEncoderAngle, vec![0f64; 4]),
        ];
        mnt_drives.inputs(u).unwrap();
        let y = mnt_drives.outputs().unwrap();
        assert!(y
            .iter()
            .all(|io| io.data.as_ref().unwrap().iter().all(|v| *v == 0.)));
    }
}

#[test]
fn pdr_mount_control_ports() {
    let mut mnt_ctrl = mount::pdr::controller::Controller::new(0f64);
    assert_eq!(
        mnt_ctrl.inputs_tags(),
        vec![
            Tags::OSSAzEncoderAngle,
            Tags::OSSElEncoderAngle,
            Tags::OSSRotEncoderAngle
        ]
    );
    assert_eq!(mnt_ctrl.outputs_tags(), vec![Tags::MountCmd]);
    mnt_ctrl
        .inputs(vec![
            IO::with(Tags::OSSAzEncoderAngle, vec![1f64; 4]),
            IO::with(Tags::OSSElEncoderAngle, vec![2f64; 6]),
            IO::with(Tags::OSSRotEncoderAngle, vec![3f64; 4]),
        ])
        .unwrap();
    assert_eq!(
        mnt_ctrl.adapter.u,
        vec![0., 0., 0., 1., 1., 1., 1., 2., 2., 2., 2., 2., 2., 3., 3., 3., 3.]
    );
    mnt_ctrl.step(|_| vec![7., 8., 9.]).unwrap();
    let y = mnt_ctrl.outputs().unwrap();
    assert_eq!(y.len(), 1);
    assert_eq!(y[0].tag, Tags::MountCmd);
    assert_eq!(y[0].data, Some(vec![7., 8., 9.]));
}

#[test]
fn mount_controller_and_drives_ports() {
    let ctrl = mount::controller::Controller::new(0f64);
    assert_eq!(
        ctrl.inputs_tags(),
        vec![Tags::OSSAzDriveD, Tags::OSSElDriveD, Tags::OSSGIRDriveD]
    );
    assert_eq!(ctrl.outputs_tags(), vec![Tags::MountCmd]);
    assert_eq!(ctrl.adapter.u.len(), 23);
    let mut drives = mount::drives::Controller::new(0f64);
    assert_eq!(
        drives.inputs_tags(),
        vec![
            Tags::MountCmd,
            Tags::OSSAzDriveD,
            Tags::OSSElDriveD,
            Tags::OSSGIRDriveD
        ]
    );
    assert_eq!(
        drives.outputs_tags(),
        vec![Tags::OSSAzDriveF, Tags::OSSElDriveF, Tags::OSSGIRDriveF]
    );
    drives
        .inputs(vec![
            IO::with(Tags::MountCmd, vec![1f64; 3]),
            IO::with(Tags::OSSAzDriveD, vec![2f64; 8]),
            IO::with(Tags::OSSElDriveD, vec![3f64; 8]),
            IO::with(Tags::OSSGIRDriveD, vec![4f64; 4]),
        ])
        .unwrap();
    let mut want = vec![1f64; 3];
    want.extend(vec![2f64; 8]);
    want.extend(vec![3f64; 8]);
    want.extend(vec![4f64; 4]);
    assert_eq!(drives.adapter.u, want);
    drives.step(|_| (0..20).map(|k| k as f64).collect()).unwrap();
    let y = drives.outputs().unwrap();
    assert_eq!(y[0].data.as_ref().unwrap().len(), 8);
    assert_eq!(y[1].data.as_ref().unwrap()[0], 8.);
    assert_eq!(y[2].data, Some(vec![16., 17., 18., 19.]));
}

#[test]
fn m1_controllers_ports() {
    let mut hp = m1::hp_load_cells::Controller::new(0f64);
    assert_eq!(hp.inputs_tags(), vec![Tags::OSSHardpointD, Tags::M1HPCmd]);
    assert_eq!(hp.outputs_tags(), vec![Tags::M1HPLC]);
    hp.inputs(vec![
        IO::with(Tags::M1HPCmd, vec![1f64; 42]),
        IO::with(Tags::OSSHardpointD, vec![2f64; 84]),
    ])
    .unwrap();
    assert_eq!(hp.adapter.u[..84], vec![2f64; 84][..]);
    assert_eq!(hp.adapter.u[84..], vec![1f64; 42][..]);
    let mut cg = m1::cg_controller::Controller::new(0f64);
    assert_eq!(cg.inputs_tags(), vec![Tags::M1HPLC]);
    assert_eq!(cg.outputs_tags(), vec![Tags::M1CGFM]);
    hp.step(|_| vec![5f64; 42]).unwrap();
    cg.inputs(hp.outputs().unwrap()).unwrap();
    assert_eq!(cg.adapter.u, vec![5f64; 42]);
    let y = cg.outputs().unwrap();
    assert_eq!(y[0].tag, Tags::M1CGFM);
    assert_eq!(y[0].data, Some(vec![0f64; 42]));
}

#[test]
fn absent_required_envelope_is_missing() {
    let mut hp = m1::hp_load_cells::Controller::new(0f64);
    let r = hp.inputs(vec![IO::with(Tags::OSSHardpointD, vec![2f64; 84])]);
    match r {
        Err(DOSError::Component(IOError::Missing(name))) => assert_eq!(name, "M1HPCmd"),
        _ => panic!("not a missing envelope"),
    }
    assert_eq!(hp.adapter.u, vec![0f64; 126]);
    let r = hp.inputs(vec![
        IO::with(Tags::OSSHardpointD, vec![2f64; 84]),
        IO::new(Tags::M1HPCmd),
    ]);
    assert!(matches!(
        r,
        Err(DOSError::Component(IOError::Missing(_)))
    ));
}

#[test]
fn payload_of_wrong_width_fails_inputs() {
    let mut mnt_ctrl = mount::pdr::controller::Controller::new(0f64);
    let r = mnt_ctrl.inputs(vec![
        IO::with(Tags::OSSAzEncoderAngle, vec![0f64; 8]),
        IO::with(Tags::OSSElEncoderAngle, vec![0f64; 8]),
        IO::with(Tags::OSSRotEncoderAngle, vec![0f64; 4]),
    ]);
    assert!(matches!(r, Err(DOSError::Inputs)));
}

#[test]
fn step_of_wrong_width_fails() {
    let mut ctrl = mount::controller::Controller::new(0f64);
    assert!(matches!(ctrl.step(|_| vec![1., 2.]), Err(DOSError::Step)));
    assert_eq!(ctrl.adapter.y, vec![0f64; 3]);
}

#[test]
fn adapter_last_writer_wins_and_others_are_passed_over() {
    let mut a = Adapter::new(
        0f64,
        4,
        2,
        vec![Port {
            tag: Tags::MountCmd,
            offset: 1,
            width: 2,
        }],
        vec![Port {
            tag: Tags::M1HPLC,
            offset: 0,
            width: 2,
        }],
    );
    a.inputs(vec![
        IO::with(Tags::MountCmd, vec![1., 2.]),
        IO::with(Tags::OSSTruss6F, vec![9.; 12]),
        IO::with(Tags::MountCmd, vec![3., 4.]),
        IO::new(Tags::MountCmd),
    ])
    .unwrap();
    assert_eq!(a.u, vec![0., 3., 4., 0.]);
    assert_eq!(Adapter::<f64>::tags(&a.inputs), vec![Tags::MountCmd]);
}

#[test]
fn controller_at_a_tenth_of_the_rate() {
    let mut divider = RateDivider::new(10);
    let mut hp = m1::hp_load_cells::Controller::new(0f64);
    let mut held: Option<Vec<IO<Vec<f64>>>> = None;
    let mut fresh_at = vec![];
    for k in 0..35usize {
        if divider.tick() {
            held = hp
                .in_step_out(
                    vec![
                        IO::with(Tags::OSSHardpointD, vec![k as f64; 84]),
                        IO::with(Tags::M1HPCmd, vec![0f64; 42]),
                    ],
                    |u| vec![u[0]; 42],
                )
                .unwrap();
            fresh_at.push(k);
        }
        let seen = held.as_ref().unwrap()[0].data.as_ref().unwrap()[0];
        assert_eq!(seen, (k - k % 10) as f64);
    }
    assert_eq!(fresh_at, vec![0, 10, 20, 30]);
}

#[test]
fn divider_of_one_is_always_due() {
    let mut divider = RateDivider::new(1);
    assert!((0..5).all(|_| divider.tick()));
    let mut divider = RateDivider::new(3);
    let due: Vec<bool> = (0..7).map(|_| divider.tick()).collect();
    assert_eq!(due, vec![true, false, false, true, false, false, true]);
}

#[test]
fn in_step_out_runs_the_filter_on_the_new_inputs() {
    let mut mnt_ctrl = mount::pdr::controller::Controller::new(0f64);
    let y = mnt_ctrl
        .in_step_out(
            vec![
                IO::with(Tags::OSSAzEncoderAngle, vec![1f64; 4]),
                IO::with(Tags::OSSElEncoderAngle, vec![2f64; 6]),
                IO::with(Tags::OSSRotEncoderAngle, vec![3f64; 4]),
            ],
            |u| vec![u[3], u[7], u[13]],
        )
        .unwrap()
        .unwrap();
    assert_eq!(y.len(), 1);
    assert_eq!(y[0].tag, Tags::MountCmd);
    assert_eq!(y[0].data, Some(vec![1., 2., 3.]));
}

#[test]
fn in_step_out_does_not_run_the_filter_on_refused_inputs() {
    let mut mnt_ctrl = mount::pdr::controller::Controller::new(0f64);
    let r = mnt_ctrl.in_step_out(vec![], |_| panic!("the filter was run"));
    assert!(matches!(
        r,
        Err(DOSError::Component(IOError::Missing(_)))
    ));
    let r = mnt_ctrl.in_step_out(
        vec![
            IO::with(Tags::OSSAzEncoderAngle, vec![1f64; 4]),
            IO::with(Tags::OSSElEncoderAngle, vec![2f64; 6]),
            IO::with(Tags::OSSRotEncoderAngle, vec![3f64; 4]),
        ],
        |_| vec![0.; 4],
    );
    assert!(matches!(r, Err(DOSError::Step)));
    assert_eq!(mnt_ctrl.adapter.y, vec![0.; 3]);
}
