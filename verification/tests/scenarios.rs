use dos::controllers::mount;
use dos::controllers::state_space::modes::retained_modes;
use dos::controllers::state_space::{DiscreteModalSolver, DiscreteStateSpace};
use dos::fem::{FemIo, FemPort, FEM};
use dos::io::{Tags, IO};
use dos::wind_loads::{Loads, WindLoads};
use dos::DOS;

/// One mode, discretized by the exponential of its state matrix.
struct Exponential {
    phi: [f64; 4],
    gamma: [f64; 2],
    b: Vec<f64>,
    c: Vec<f64>,
    x: (f64, f64),
}

fn transition(tau: f64, omega: f64, zeta: f64) -> [f64; 4] {
    if omega == 0. {
        return [1., tau, 0., 1.];
    }
    let wd = omega * (1. - zeta * zeta).sqrt();
    let e = (-zeta * omega * tau).exp();
    let (sn, cs) = (wd * tau).sin_cos();
    [
        e * (cs + zeta * omega / wd * sn),
        e * sn / wd,
        -omega * omega * e * sn / wd,
        e * (cs - zeta * omega / wd * sn),
    ]
}

impl Exponential {
    fn from_second_order(tau: f64, omega: f64, zeta: f64, b: Vec<f64>, c: Vec<f64>) -> Self {
        let phi = transition(tau, omega, zeta);
        let gamma = if omega == 0. {
            [0.5 * tau * tau, tau]
        } else {
            [
                -2. * zeta / omega * phi[1] - (phi[3] - 1.) / (omega * omega),
                phi[1],
            ]
        };
        Exponential {
            phi,
            gamma,
            b,
            c,
            x: (0., 0.),
        }
    }

    fn solve(&mut self, u: &[f64]) -> Vec<f64> {
        let (x0, x1) = self.x;
        let y = self.c.iter().map(|c| c * x0).collect();
        let v = self.b.iter().zip(u).fold(0., |s, (b, u)| s + b * u);
        self.x.0 = self.phi[0] * x0 + self.phi[1] * x1 + self.gamma[0] * v;
        self.x.1 = self.phi[2] * x0 + self.phi[3] * x1 + self.gamma[1] * v;
        y
    }
}

fn hankel_singular_value(w: f64, z: f64, b: &[f64], c: &[f64]) -> f64 {
    let norm = |x: &[f64]| x.iter().map(|x| x * x).sum::<f64>().sqrt();
    0.25 * norm(b) * norm(c) / (w * z)
}

fn discretize(builder: DiscreteStateSpace<f64>) -> DiscreteModalSolver<f64, Exponential> {
    assert!(builder.is_valid());
    let model = builder.build().unwrap();
    let tau = 1. / model.sampling;
    let omega: Vec<f64> = model
        .frequencies
        .iter()
        .map(|f| 2. * std::f64::consts::PI * f)
        .collect();
    let within: Vec<bool> = model
        .eigen_frequencies
        .iter()
        .map(|f| model.max_eigen_frequency.map_or(true, |max| *f <= max))
        .collect();
    let significant: Option<Vec<bool>> = model.hankel_singular_values_threshold.map(|t| {
        (0..omega.len())
            .map(|k| {
                hankel_singular_value(
                    omega[k],
                    model.damping[k],
                    &model.forces_2_modes[k],
                    &model.modes_2_nodes[k],
                ) > t
            })
            .collect()
    });
    let kept = retained_modes(&within, significant.as_ref());
    let solvers = kept
        .iter()
        .map(|&k| {
            Exponential::from_second_order(
                tau,
                omega[k],
                model.damping[k],
                model.forces_2_modes[k].clone(),
                model.modes_2_nodes[k].clone(),
            )
        })
        .collect();
    model.into_solver(0., solvers)
}

fn solve(mut mode: Exponential, u: &Vec<f64>) -> (Exponential, Vec<f64>) {
    let y = mode.solve(u);
    (mode, y)
}

fn advance(engine: &mut DiscreteModalSolver<f64, Exponential>) {
    engine.step(solve, |a, b| a + b).unwrap();
}

fn port(name: &str, first: u32, n: u32) -> Option<FemPort> {
    Some(FemPort {
        name: name.to_string(),
        io: (first..first + n).map(|i| FemIo::On(vec![i])).collect(),
    })
}

/// A model of `frequencies.len()` modes with the inputs and outputs given,
/// each a name and a width, and gains that differ from cell to cell.
fn synthetic_fem(frequencies: &[f64], inputs: &[(&str, u32)], outputs: &[(&str, u32)]) -> FEM<f64> {
    let n = frequencies.len();
    let layout = |ports: &[(&str, u32)]| {
        let mut first = 1;
        let mut list = vec![];
        for (name, width) in ports {
            list.push(port(name, first, *width));
            first += width;
        }
        (list, (first - 1) as usize)
    };
    let (inputs, n_in) = layout(inputs);
    let (outputs, n_out) = layout(outputs);
    FEM {
        inputs,
        outputs,
        eigen_frequencies: frequencies.to_vec(),
        inputs_to_modal_forces: (0..n * n_in)
            .map(|i| 1e-3 * (1. + (i % 7) as f64))
            .collect(),
        modal_disp_to_outputs: (0..n_out * n)
            .map(|i| 1e-2 * (1. + (i % 5) as f64))
            .collect(),
        proportional_damping_vec: vec![0.005; n],
    }
}

#[test]
fn zero_input_identity() {
    let fem = synthetic_fem(
        &[8., 21., 47., 74.9, 75.1, 120.],
        &[("OSSTruss6F", 6), ("OSSM1Lcl6F", 42)],
        &[("OSSM1Lcl", 42), ("MCM2Lcl6D", 42)],
    );
    let mut fem_ss = discretize(
        DiscreteStateSpace::from(fem)
            .sampling(1e3)
            .proportional_damping(2. / 100.)
            .max_eigen_frequency(75.0)
            .inputs(vec![Tags::OSSM1Lcl6F])
            .outputs(vec![Tags::OSSM1Lcl]),
    );
    assert_eq!(fem_ss.state_space.len(), 4);
    assert_eq!(fem_ss.u.len(), 42);
    assert_eq!(fem_ss.y.len(), 42);
    let y = fem_ss
        .in_step_out(
            vec![IO::with(Tags::OSSM1Lcl6F, vec![0f64; 42])],
            solve,
            |a, b| a + b,
        )
        .unwrap()
        .unwrap();
    assert_eq!(y.len(), 1);
    assert_eq!(y[0].tag, Tags::OSSM1Lcl);
    assert_eq!(y[0].data.as_ref().unwrap().len(), 42);
    assert_eq!(y[0].data.as_ref().unwrap().iter().sum::<f64>(), 0f64);
}

#[test]
fn single_mode_impulse() {
    let (f, zeta, tau) = (10f64, 0.02f64, 1e-3f64);
    let omega = 2. * std::f64::consts::PI * f;
    let fem = FEM {
        inputs: vec![port("OSSM1Lcl6F", 1, 1)],
        outputs: vec![port("OSSM1Lcl", 1, 1)],
        eigen_frequencies: vec![f],
        inputs_to_modal_forces: vec![1.],
        modal_disp_to_outputs: vec![1.],
        proportional_damping_vec: vec![zeta],
    };
    let mut engine = discretize(
        DiscreteStateSpace::from(fem)
            .sampling(1. / tau)
            .inputs(vec![Tags::OSSM1Lcl6F])
            .outputs(vec![Tags::OSSM1Lcl]),
    );
    let gamma = engine.state_space[0].gamma;
    let wd = omega * (1. - zeta * zeta).sqrt();
    let bound = gamma[0].abs() * (1. + zeta * omega / wd) + gamma[1].abs() / wd;
    let mut outputs = vec![];
    for k in 0..2000 {
        let u = if k == 0 { 1. } else { 0. };
        engine
            .inputs(vec![IO::with(Tags::OSSM1Lcl6F, vec![u])])
            .unwrap();
        advance(&mut engine);
        outputs.push(engine.outputs().unwrap()[0].data.as_ref().unwrap()[0]);
    }
    // the outputs of a step are those of the state before it
    assert_eq!(outputs[0], 0.);
    advance(&mut engine);
    outputs.push(engine.y[0]);
    assert_eq!(outputs[1], gamma[0]);
    for k in 1..outputs.len() {
        let s = (k - 1) as f64 * tau;
        let phi = transition(s, omega, zeta);
        let exact = phi[0] * gamma[0] + phi[1] * gamma[1];
        assert!((outputs[k] - exact).abs() < 1e-9);
        assert!(outputs[k].abs() <= bound * (-zeta * omega * s).exp() + 1e-9);
    }
    assert!(outputs[2000].abs() < outputs[1].abs());
}

#[test]
fn fixed_inputs_step_bit_exactly() {
    let run = || {
        let fem = synthetic_fem(
            &[8., 21., 47., 74.9],
            &[("OSSM1Lcl6F", 42)],
            &[("OSSM1Lcl", 42)],
        );
        let mut engine = discretize(
            DiscreteStateSpace::from(fem)
                .sampling(1e3)
                .hankel_singular_values_threshold(0.)
                .inputs(vec![Tags::OSSM1Lcl6F])
                .outputs(vec![Tags::OSSM1Lcl]),
        );
        let mut trace = vec![];
        for k in 0..200 {
            let u: Vec<f64> = (0..42).map(|i| ((k * 42 + i) as f64).sin()).collect();
            engine
                .inputs(vec![IO::with(Tags::OSSM1Lcl6F, u)])
                .unwrap();
            advance(&mut engine);
            trace.extend(engine.y.iter().map(|y| y.to_bits()));
        }
        trace
    };
    assert_eq!(run(), run());
}

#[test]
fn closed_loop_mount() {
    let n = 1000;
    let series = |scale: f64| -> Vec<Vec<f64>> {
        (0..n)
            .map(|k| (0..6).map(|i| scale * ((k + i) as f64 * 0.01).sin()).collect())
            .collect()
    };
    let mut wind_loading = WindLoads::new(
        vec![
            Some(Loads::OSSTopEnd6F(series(100.))),
            Some(Loads::OSSTruss6F(series(200.))),
            Some(Loads::OSSCellLcl6F(series(50.))),
            Some(Loads::OSSM1Lcl6F(series(20.))),
        ],
        (0..n).map(|k| k as f64 * 1e-3).collect(),
    )
    .truss()
    .unwrap()
    .topend()
    .unwrap()
    .m1_cell()
    .unwrap()
    .m1_segments()
    .unwrap()
    .build()
    .unwrap();
    let mut mnt_drives = mount::pdr::drives::Controller::new(0f64);
    let mut mnt_ctrl = mount::pdr::controller::Controller::new(0f64);
    let fem = synthetic_fem(
        &[3., 5., 9., 14., 22.],
        &[
            ("OSSTruss6F", 6),
            ("OSSTopEnd6F", 6),
            ("OSSCellLcl6F", 6),
            ("OSSM1Lcl6F", 6),
            ("OSSAzDriveTorque", 12),
            ("OSSElDriveTorque", 4),
            ("OSSRotDriveTorque", 4),
        ],
        &[
            ("OSSM1Lcl", 6),
            ("OSSAzEncoderAngle", 6),
            ("OSSElEncoderAngle", 4),
            ("OSSRotEncoderAngle", 4),
        ],
    );
    let mut fem = discretize(
        DiscreteStateSpace::from(fem)
            .sampling(1e3)
            .proportional_damping(0.02)
            .inputs_from(&wind_loading)
            .inputs_from(&mnt_drives)
            .outputs(vec![Tags::OSSM1Lcl])
            .outputs(vec![
                Tags::OSSAzEncoderAngle,
                Tags::OSSElEncoderAngle,
                Tags::OSSRotEncoderAngle,
            ]),
    );
    let max_command = 1e3;
    let mut mount_drives_forces = vec![
        IO::with(Tags::OSSAzDriveTorque, vec![0f64; 12]),
        IO::with(Tags::OSSElDriveTorque, vec![0f64; 4]),
        IO::with(Tags::OSSRotDriveTorque, vec![0f64; 4]),
    ];
    let mut samples = 0;
    while let Some(mut fem_forces) = wind_loading.outputs() {
        fem_forces.append(&mut mount_drives_forces);
        fem.inputs(fem_forces).unwrap();
        advance(&mut fem);
        let ys = fem.outputs().unwrap();
        assert!(ys
            .iter()
            .all(|io| io.data.as_ref().unwrap().iter().all(|y| y.is_finite())));
        // the mount controller sees 4 angles of azimuth, 6 of elevation
        let az = ys[1].data.as_ref().unwrap();
        let el = ys[2].data.as_ref().unwrap();
        let rot = ys[3].data.as_ref().unwrap();
        let seen: Vec<f64> = az.iter().chain(el).chain(rot).cloned().collect();
        mnt_ctrl
            .inputs(vec![
                IO::with(Tags::OSSAzEncoderAngle, seen[..4].to_vec()),
                IO::with(Tags::OSSElEncoderAngle, seen[4..10].to_vec()),
                IO::with(Tags::OSSRotEncoderAngle, seen[10..].to_vec()),
            ])
            .unwrap();
        let feedback = -0.1 * mnt_ctrl.adapter.u[3..].iter().sum::<f64>();
        mnt_ctrl.step(|_| vec![feedback; 3]).unwrap();
        let mut command = mnt_ctrl.outputs().unwrap();
        let norm = command[0]
            .data
            .as_ref()
            .unwrap()
            .iter()
            .map(|x| x * x)
            .sum::<f64>()
            .sqrt();
        assert!(norm <= max_command);
        command.extend(ys.into_iter().skip(1));
        mount_drives_forces = mnt_drives
            .in_step_out(command, |u| vec![u[0]; 20])
            .unwrap()
            .unwrap();
        samples += 1;
    }
    assert_eq!(samples, 1000);
}
