use dos::controllers::state_space::modes::{n_modes_within, retained_modes};
use dos::controllers::state_space::{
    io2modes, modes2io, select_fem_io, DiscreteModalSolver, DiscreteStateSpace, ModalModel,
    StateSpaceError,
};
use dos::error::DOSError;
use dos::fem::{FemIo, FemPort, FEM};
use dos::io::{IOError, Tags, IO};
use dos::{IOTags, DOS};

fn port(name: &str, indices: Vec<u32>) -> Option<FemPort> {
    Some(FemPort {
        name: name.to_string(),
        io: indices.into_iter().map(|i| FemIo::On(vec![i])).collect(),
    })
}

/// Two modes, five input scalars, three output scalars.
fn small_fem() -> FEM<f64> {
    FEM {
        inputs: vec![
            port("OSSM1Lcl6F", vec![1, 2, 3]),
            None,
            port("OSSGIR6F", vec![]),
            port("OSSTruss6F", vec![4, 5]),
        ],
        outputs: vec![port("OSSM1Lcl", vec![1, 2]), port("MCM2Lcl6D", vec![3])],
        eigen_frequencies: vec![10., 20.],
        inputs_to_modal_forces: vec![
            1., 2., 3., 4., 5., //
            6., 7., 8., 9., 10.,
        ],
        modal_disp_to_outputs: vec![
            0.1, 0.2, //
            0.3, 0.4, //
            0.5, 0.6,
        ],
        proportional_damping_vec: vec![0.01, 0.02],
    }
}

fn builder() -> DiscreteStateSpace<f64> {
    DiscreteStateSpace::from(small_fem())
        .sampling(1e3)
        .inputs(vec![Tags::OSSTruss6F, Tags::OSSM1Lcl6F])
        .outputs(vec![Tags::MCM2Lcl6D, Tags::OSSM1Lcl])
}

fn engine() -> DiscreteModalSolver<f64, ()> {
    let model = builder().build().unwrap();
    model.into_solver(0f64, vec![(), ()])
}

fn missing(r: Result<ModalModel<f64>, DOSError<StateSpaceError>>) -> String {
    match r {
        Err(DOSError::Component(StateSpaceError::MissingArguments(what))) => what,
        _ => panic!("not a missing argument"),
    }
}

#[test]
fn small_fem_is_well_formed() {
    assert!(small_fem().is_well_formed());
    assert_eq!(small_fem().n_modes(), 2);
    assert!(builder().is_valid());
}

#[test]
fn ragged_matrix_is_not_well_formed() {
    let mut fem = small_fem();
    fem.inputs_to_modal_forces.push(0.);
    assert!(!fem.is_well_formed());
}

#[test]
fn index_beyond_the_matrix_is_not_well_formed() {
    let mut fem = small_fem();
    fem.inputs[1] = port("OSSCRING6F", vec![6]);
    assert!(!fem.is_well_formed());
    let mut fem = small_fem();
    fem.outputs[0] = port("OSSM1Lcl", vec![0]);
    assert!(!fem.is_well_formed());
}

#[test]
fn override_beyond_the_modes_is_not_valid() {
    assert!(!builder().eigen_frequencies(vec![(2, 1.)]).is_valid());
    assert!(builder().eigen_frequencies(vec![(1, 1.)]).is_valid());
}

#[test]
fn build_projects_onto_selected_signals() {
    let model = builder().build().unwrap();
    assert_eq!(model.sampling, 1e3);
    assert_eq!(model.u_tags, vec![Tags::OSSTruss6F, Tags::OSSM1Lcl6F]);
    assert_eq!(model.u_sizes, vec![2, 3]);
    assert_eq!(model.y_tags, vec![Tags::MCM2Lcl6D, Tags::OSSM1Lcl]);
    assert_eq!(model.y_sizes, vec![1, 2]);
    assert_eq!(model.eigen_frequencies, vec![10., 20.]);
    assert_eq!(model.frequencies, vec![10., 20.]);
    assert_eq!(model.damping, vec![0.01, 0.02]);
    assert_eq!(
        model.forces_2_modes,
        vec![vec![4., 5., 1., 2., 3.], vec![9., 10., 6., 7., 8.]]
    );
    assert_eq!(
        model.modes_2_nodes,
        vec![vec![0.5, 0.1, 0.3], vec![0.6, 0.2, 0.4]]
    );
}

#[test]
fn build_applies_overrides_and_uniform_damping() {
    let model = builder()
        .proportional_damping(0.02)
        .eigen_frequencies(vec![(0, 0.), (1, 5.), (0, 1.)])
        .max_eigen_frequency(75.)
        .hankel_singular_values_threshold(1e-6)
        .build()
        .unwrap();
    assert_eq!(model.eigen_frequencies, vec![10., 20.]);
    assert_eq!(model.frequencies, vec![1., 5.]);
    assert_eq!(model.damping, vec![0.02, 0.02]);
    assert_eq!(model.max_eigen_frequency, Some(75.));
    assert_eq!(model.hankel_singular_values_threshold, Some(1e-6));
}

#[test]
fn build_reports_missing_arguments_in_order() {
    assert_eq!(missing(DiscreteStateSpace::<f64>::new().build()), "sampling");
    assert_eq!(
        missing(DiscreteStateSpace::<f64>::new().sampling(1e3).build()),
        "FEM"
    );
    assert_eq!(
        missing(DiscreteStateSpace::from(small_fem()).build()),
        "sampling"
    );
    assert_eq!(
        missing(DiscreteStateSpace::from(small_fem()).sampling(1e3).build()),
        "inputs"
    );
    assert_eq!(
        missing(
            DiscreteStateSpace::from(small_fem())
                .sampling(1e3)
                .inputs(vec![Tags::OSSTruss6F])
                .build()
        ),
        "outputs"
    );
}

#[test]
fn build_reports_first_unmatched_input() {
    let r = DiscreteStateSpace::from(small_fem())
        .sampling(1e3)
        .inputs(vec![Tags::OSSTruss6F, Tags::OSSTopEnd6F, Tags::OSSCRING6F])
        .outputs(vec![Tags::OSSGIRDriveD])
        .build();
    match r {
        Err(DOSError::Component(StateSpaceError::FemInputs(tag))) => {
            assert_eq!(tag, Tags::OSSTopEnd6F)
        }
        _ => panic!("not an unmatched input"),
    }
}

#[test]
fn build_reports_first_unmatched_output() {
    let r = DiscreteStateSpace::from(small_fem())
        .sampling(1e3)
        .inputs(vec![Tags::OSSTruss6F])
        .outputs(vec![Tags::OSSM1Lcl, Tags::OSSGIRDriveD])
        .build();
    match r {
        Err(DOSError::Component(StateSpaceError::FemOutputs(tag))) => {
            assert_eq!(tag, Tags::OSSGIRDriveD)
        }
        _ => panic!("not an unmatched output"),
    }
}

#[test]
fn inputs_and_outputs_append_to_the_selection() {
    let b = DiscreteStateSpace::<f64>::new()
        .inputs(vec![Tags::OSSTruss6F])
        .inputs(vec![Tags::OSSM1Lcl6F, Tags::OSSGIR6F])
        .outputs(vec![Tags::OSSM1Lcl])
        .outputs(vec![Tags::MCM2Lcl6D]);
    assert_eq!(
        b.u,
        Some(vec![Tags::OSSTruss6F, Tags::OSSM1Lcl6F, Tags::OSSGIR6F])
    );
    assert_eq!(b.y, Some(vec![Tags::OSSM1Lcl, Tags::MCM2Lcl6D]));
}

#[test]
fn selection_from_other_components() {
    let e = engine();
    let b = DiscreteStateSpace::<f64>::new()
        .inputs_from(&e)
        .outputs_to(&e);
    assert_eq!(b.u, Some(vec![Tags::MCM2Lcl6D, Tags::OSSM1Lcl]));
    assert_eq!(b.y, Some(vec![Tags::OSSTruss6F, Tags::OSSM1Lcl6F]));
}

#[test]
fn select_fem_io_drops_unselected_ports() {
    let mut fem = small_fem();
    select_fem_io(&mut fem, &vec![Tags::OSSTruss6F], &vec![Tags::MCM2Lcl6D]);
    assert!(fem.inputs[0].is_none());
    assert!(fem.inputs[1].is_none());
    assert!(fem.inputs[2].is_none());
    assert_eq!(fem.inputs[3].as_ref().unwrap().name, "OSSTruss6F");
    assert!(fem.outputs[0].is_none());
    assert_eq!(fem.outputs[1].as_ref().unwrap().name, "MCM2Lcl6D");
    assert_eq!(fem.inputs_to_modal_forces.len(), 10);
}

#[test]
fn keep_inputs_keeps_listed_positions() {
    let mut fem = small_fem();
    fem.keep_inputs(&vec![3, 0]);
    assert!(fem.inputs[0].is_some());
    assert!(fem.inputs[2].is_none());
    assert!(fem.inputs[3].is_some());
    fem.keep_outputs(&vec![]);
    assert!(fem.outputs[0].is_none());
    assert!(fem.outputs[1].is_none());
}

#[test]
fn io2modes_gathers_rows() {
    let (rows, sizes) = io2modes(&small_fem(), &vec![Tags::OSSM1Lcl6F]).unwrap();
    assert_eq!(rows, vec![vec![1., 2., 3.], vec![6., 7., 8.]]);
    assert_eq!(sizes, vec![3]);
    assert!(matches!(
        io2modes(&small_fem(), &vec![Tags::OSSTopEnd6F]),
        Err(DOSError::Component(StateSpaceError::FemInputs(
            Tags::OSSTopEnd6F
        )))
    ));
}

#[test]
fn modes2io_gathers_columns() {
    let (columns, sizes) = modes2io(&small_fem(), &vec![Tags::OSSM1Lcl, Tags::OSSM1Lcl]).unwrap();
    assert_eq!(
        columns,
        vec![vec![0.1, 0.3, 0.1, 0.3], vec![0.2, 0.4, 0.2, 0.4]]
    );
    assert_eq!(sizes, vec![2, 2]);
    assert!(matches!(
        modes2io(&small_fem(), &vec![Tags::OSSM1Lcl6F]),
        Err(DOSError::Component(StateSpaceError::FemOutputs(
            Tags::OSSM1Lcl6F
        )))
    ));
}

#[test]
fn engine_buffers_cover_declared_widths() {
    let e = engine();
    assert_eq!(e.u.len(), e.u_sizes.iter().sum::<usize>());
    assert_eq!(e.y.len(), e.y_sizes.iter().sum::<usize>());
    assert_eq!(e.u, vec![0.; 5]);
    assert_eq!(e.y, vec![0.; 3]);
    assert_eq!(e.inputs_tags(), vec![Tags::OSSTruss6F, Tags::OSSM1Lcl6F]);
    assert_eq!(e.outputs_tags(), vec![Tags::MCM2Lcl6D, Tags::OSSM1Lcl]);
}

#[test]
fn inputs_fill_in_declaration_order() {
    let mut e = engine();
    e.inputs(vec![
        IO::with(Tags::OSSM1Lcl6F, vec![1., 2., 3.]),
        IO::with(Tags::OSSTruss6F, vec![4., 5.]),
    ])
    .unwrap();
    assert_eq!(e.u, vec![4., 5., 1., 2., 3.]);
}

#[test]
fn permuted_envelopes_give_identical_inputs() {
    let mut a = engine();
    let mut b = engine();
    a.inputs(vec![
        IO::with(Tags::OSSM1Lcl6F, vec![0.1, 0.2, 0.3]),
        IO::with(Tags::OSSTruss6F, vec![0.4, 0.5]),
    ])
    .unwrap();
    b.inputs(vec![
        IO::with(Tags::OSSTruss6F, vec![0.4, 0.5]),
        IO::with(Tags::OSSM1Lcl6F, vec![0.1, 0.2, 0.3]),
    ])
    .unwrap();
    assert_eq!(a.u, b.u);
    let contributions = vec![vec![0.1, 0.2, 0.3], vec![0.3, 0.2, 0.1]];
    a.reduce(&contributions, |x, y| x + y).unwrap();
    b.reduce(&contributions, |x, y| x + y).unwrap();
    assert!(a.y.iter().zip(b.y.iter()).all(|(x, y)| x.to_bits() == y.to_bits()));
}

#[test]
fn missing_inputs_are_zero_filled() {
    let mut e = engine();
    e.inputs(vec![
        IO::with(Tags::OSSM1Lcl6F, vec![1., 2., 3.]),
        IO::with(Tags::OSSTruss6F, vec![4., 5.]),
    ])
    .unwrap();
    e.inputs(vec![IO::with(Tags::OSSM1Lcl6F, vec![7., 8., 9.])])
        .unwrap();
    assert_eq!(e.u, vec![0., 0., 7., 8., 9.]);
    e.inputs(vec![]).unwrap();
    assert_eq!(e.u, vec![0.; 5]);
}

#[test]
fn last_writer_wins() {
    let mut e = engine();
    e.inputs(vec![
        IO::with(Tags::OSSTruss6F, vec![1., 1.]),
        IO::with(Tags::OSSTruss6F, vec![2., 2.]),
    ])
    .unwrap();
    assert_eq!(e.u, vec![2., 2., 0., 0., 0.]);
}

#[test]
fn undeclared_envelopes_are_passed_over() {
    let mut e = engine();
    e.inputs(vec![
        IO::with(Tags::MountCmd, vec![9.; 7]),
        IO::with(Tags::OSSTruss6F, vec![1., 2.]),
    ])
    .unwrap();
    assert_eq!(e.u, vec![1., 2., 0., 0., 0.]);
}

#[test]
fn width_mismatch_is_fatal() {
    let mut e = engine();
    e.inputs(vec![IO::with(Tags::OSSTruss6F, vec![1., 2.])])
        .unwrap();
    let r = e.inputs(vec![IO::with(Tags::OSSTruss6F, vec![1., 2., 3.])]);
    assert!(matches!(r, Err(DOSError::Inputs)));
    assert_eq!(e.u, vec![1., 2., 0., 0., 0.]);
}

#[test]
fn envelope_without_payload_fails_inputs() {
    let mut e = engine();
    let r = e.inputs(vec![
        IO::with(Tags::OSSTruss6F, vec![1., 2.]),
        IO::new(Tags::OSSM1Lcl6F),
    ]);
    match r {
        Err(DOSError::Component(IOError::Missing(name))) => assert_eq!(name, "OSSM1Lcl6F"),
        _ => panic!("not a missing payload"),
    }
    assert_eq!(e.u, vec![0.; 5]);
}

#[test]
fn outputs_slice_by_declared_widths() {
    let mut e = engine();
    e.y = vec![1., 2., 3.];
    let out = e.outputs().unwrap();
    assert_eq!(out.len(), 2);
    assert_eq!(out[0].tag, Tags::MCM2Lcl6D);
    assert_eq!(out[0].data, Some(vec![1.]));
    assert_eq!(out[1].tag, Tags::OSSM1Lcl);
    assert_eq!(out[1].data, Some(vec![2., 3.]));
}

#[test]
fn outputs_twice_are_equal() {
    let mut e = engine();
    e.y = vec![1., 2., 3.];
    let first = e.outputs().unwrap();
    let second = e.outputs().unwrap();
    assert_eq!(first.len(), second.len());
    for (a, b) in first.iter().zip(second.iter()) {
        assert_eq!(a.tag, b.tag);
        assert_eq!(a.data, b.data);
    }
}

#[test]
fn outputs_are_fresh_copies() {
    let mut e = engine();
    e.y = vec![1., 2., 3.];
    let mut out = e.outputs().unwrap();
    out[1].data.as_mut().unwrap()[0] = 99.;
    assert_eq!(e.y, vec![1., 2., 3.]);
    assert_eq!(e.outputs().unwrap()[1].data, Some(vec![2., 3.]));
}

#[test]
fn reduce_sums_contributions_in_mode_order() {
    let mut e = engine();
    e.y = vec![9., 9., 9.];
    e.reduce(&vec![vec![1., 2., 3.], vec![10., 20., 30.]], |a, b| a + b)
        .unwrap();
    assert_eq!(e.y, vec![11., 22., 33.]);
    let mut e = engine();
    e.reduce(&vec![vec![1., 2., 3.], vec![10., 20., 30.]], |a, b| {
        2. * a + b
    })
    .unwrap();
    assert_eq!(e.y, vec![12., 24., 36.]);
}

/// A solver that counts its steps and contributes its count, scaled by the
/// first input sample, to every output scalar.
fn counting(count: u32, u: &Vec<f64>) -> (u32, Vec<f64>) {
    (count + 1, vec![(count + 1) as f64 * u[0]; 3])
}

fn counting_engine() -> DiscreteModalSolver<f64, u32> {
    builder().build().unwrap().into_solver(0f64, vec![0, 10, 100])
}

#[test]
fn step_advances_every_solver_once_in_order() {
    let mut e = counting_engine();
    e.inputs(vec![IO::with(Tags::OSSTruss6F, vec![2., 0.])])
        .unwrap();
    e.step(counting, |a, b| a + b).unwrap();
    assert_eq!(e.state_space, vec![1, 11, 101]);
    assert_eq!(e.y, vec![2. * 113.; 3]);
    e.step(counting, |a, b| 10. * a + b).unwrap();
    assert_eq!(e.state_space, vec![2, 12, 102]);
    assert_eq!(e.y, vec![2. * (200. + 120. + 102.); 3]);
    assert_eq!(e.u, vec![2., 0., 0., 0., 0.]);
}

#[test]
fn step_fails_on_ill_sized_contribution() {
    let mut e = counting_engine();
    e.y = vec![1., 2., 3.];
    let r = e.step(|count, _| (count + 1, vec![0.; 2]), |a, b| a + b);
    assert!(matches!(r, Err(DOSError::Step)));
    assert_eq!(e.y, vec![1., 2., 3.]);
    assert_eq!(e.state_space.len(), 3);
}

#[test]
fn in_step_out_composes_the_three_moves() {
    let mut e = counting_engine();
    let out = e
        .in_step_out(
            vec![
                IO::with(Tags::OSSM1Lcl6F, vec![1., 2., 3.]),
                IO::with(Tags::OSSTruss6F, vec![0.5, 0.]),
            ],
            counting,
            |a, b| a + b,
        )
        .unwrap()
        .unwrap();
    assert_eq!(e.u, vec![0.5, 0., 1., 2., 3.]);
    assert_eq!(out.len(), 2);
    assert_eq!(out[0].tag, Tags::MCM2Lcl6D);
    assert_eq!(out[0].data, Some(vec![56.5]));
    assert_eq!(out[1].tag, Tags::OSSM1Lcl);
    assert_eq!(out[1].data, Some(vec![56.5, 56.5]));
}

#[test]
fn in_step_out_stops_at_refused_inputs() {
    let mut e = counting_engine();
    let r = e.in_step_out(
        vec![IO::with(Tags::OSSTruss6F, vec![1.])],
        counting,
        |a, b| a + b,
    );
    assert!(matches!(r, Err(DOSError::Inputs)));
    assert_eq!(e.state_space, vec![0, 10, 100]);
    assert_eq!(e.u, vec![0.; 5]);
    let r = e.in_step_out(
        vec![IO::with(Tags::OSSTruss6F, vec![1., 1.])],
        |count, _| (count, vec![]),
        |a, b| a + b,
    );
    assert!(matches!(r, Err(DOSError::Step)));
    assert_eq!(e.u, vec![1., 1., 0., 0., 0.]);
}

#[test]
fn reduce_refuses_ill_sized_contributions() {
    let mut e = engine();
    e.y = vec![1., 2., 3.];
    assert!(matches!(
        e.reduce(&vec![vec![1., 2., 3.]], |a, b| a + b),
        Err(DOSError::Step)
    ));
    assert!(matches!(
        e.reduce(&vec![vec![1., 2., 3.], vec![1., 2.]], |a, b| a + b),
        Err(DOSError::Step)
    ));
    assert_eq!(e.y, vec![1., 2., 3.]);
}

#[test]
fn zero_inputs_leave_outputs_at_zero() {
    let mut e = engine();
    for _ in 0..10 {
        e.inputs(vec![
            IO::with(Tags::OSSTruss6F, vec![0.; 2]),
            IO::with(Tags::OSSM1Lcl6F, vec![0.; 3]),
        ])
        .unwrap();
        e.step(|solver, _| (solver, vec![0.; 3]), |a, b| a + b).unwrap();
        assert!(e.y.iter().all(|y| *y == 0.));
    }
}

#[test]
fn retained_modes_without_threshold_are_all_within_cutoff() {
    let within = vec![true, true, true, false, false];
    assert_eq!(n_modes_within(&within), 3);
    assert_eq!(retained_modes(&within, None), vec![0, 1, 2]);
}

#[test]
fn retained_modes_count_the_frequencies_within_cutoff() {
    let within = vec![true, false, true, false];
    assert_eq!(n_modes_within(&within), 2);
    assert_eq!(retained_modes(&within, None), vec![0, 1]);
}

#[test]
fn retained_modes_keep_their_order() {
    let within = vec![true; 6];
    let significant = vec![false, true, true, false, true, false];
    assert_eq!(retained_modes(&within, Some(&significant)), vec![1, 2, 4]);
}

#[test]
fn cutoff_below_all_frequencies_gives_empty_engine() {
    let within = vec![false, false];
    assert_eq!(n_modes_within(&within), 0);
    let kept = retained_modes(&within, Some(&vec![true, true]));
    assert!(kept.is_empty());
    let model = builder().max_eigen_frequency(1.).build().unwrap();
    let mut e: DiscreteModalSolver<f64, ()> = model.into_solver(0., vec![]);
    assert!(e.state_space.is_empty());
    e.y = vec![1., 2., 3.];
    e.step(|solver, _| (solver, vec![]), |a, b| a + b).unwrap();
    assert_eq!(e.y, vec![0.; 3]);
    assert!(e
        .outputs()
        .unwrap()
        .iter()
        .all(|io| io.data.as_ref().unwrap().iter().all(|y| *y == 0.)));
}

#[test]
fn higher_threshold_keeps_a_subset() {
    let sigma = [3., 0.5, 2., 1., 0.1];
    let within = vec![true; 5];
    let verdicts = |t: f64| sigma.iter().map(|s| *s > t).collect::<Vec<bool>>();
    let low = retained_modes(&within, Some(&verdicts(0.4)));
    let high = retained_modes(&within, Some(&verdicts(1.5)));
    assert_eq!(low, vec![0, 1, 2, 3]);
    assert_eq!(high, vec![0, 2]);
    assert!(high.iter().all(|k| low.contains(k)));
}
