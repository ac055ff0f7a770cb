use dos::error::DOSError;
use dos::io::Tags;
use dos::wind_loads::{Loads, WindLoads, WindLoadsError};
use dos::{IOTags, DOS};

fn series(base: f64, n: usize) -> Vec<Vec<f64>> {
    (0..n).map(|k| vec![base + k as f64; 6]).collect()
}

fn record(n: usize) -> WindLoads<f64> {
    WindLoads::new(
        vec![
            Some(Loads::OSSTopEnd6F(series(100., n))),
            Some(Loads::MCM2Lcl6F(series(200., n))),
            None,
            Some(Loads::OSSTruss6F(series(300., n))),
            Some(Loads::OSSM1Lcl6F(series(400., n))),
            Some(Loads::OSSCellLcl6F(series(500., n))),
            Some(Loads::OSSGIR6F(series(600., n))),
            Some(Loads::OSSCRING6F(series(700., n))),
        ],
        (0..n).map(|k| k as f64 * 5e-4).collect(),
    )
}

fn is_error(r: Result<WindLoads<f64>, DOSError<WindLoadsError>>, want: WindLoadsError) -> bool {
    match (r, want) {
        (Err(DOSError::Component(WindLoadsError::Empty)), WindLoadsError::Empty) => true,
        (Err(DOSError::Component(WindLoadsError::Len)), WindLoadsError::Len) => true,
        _ => false,
    }
}

#[test]
fn loads_know_their_length_and_signal() {
    let l = Loads::OSSGIR6F(series(0., 4));
    assert_eq!(l.len(), 4);
    assert_eq!(l.kind(), Tags::OSSGIR6F);
    assert_eq!(l.io(), series(0., 4));
}

#[test]
fn signal_matches_its_own_loads_only() {
    let l = Loads::OSSTruss6F(series(1., 3));
    assert_eq!(Tags::OSSTruss6F.data(&l), Some(series(1., 3)));
    assert_eq!(Tags::OSSTopEnd6F.data(&l), None);
    assert_eq!(Tags::OSSTruss6F.ndata(&l, 2), Some(series(1., 2)));
    assert_eq!(Tags::MCM2TE6F.ndata(&l, 2), None);
}

#[test]
fn record_length_is_that_of_first_body() {
    assert_eq!(record(5).len().unwrap(), 5);
    assert!(record(5).is_well_formed());
    let empty: WindLoads<f64> = WindLoads::new(vec![None, None], vec![]);
    assert!(matches!(
        empty.len(),
        Err(DOSError::Component(WindLoadsError::Len))
    ));
}

#[test]
fn unequal_series_are_not_well_formed() {
    let w = WindLoads::new(
        vec![
            Some(Loads::OSSTopEnd6F(series(0., 3))),
            Some(Loads::OSSTruss6F(series(0., 2))),
        ],
        vec![0.; 3],
    );
    assert!(!w.is_well_formed());
}

#[test]
fn n_sample_needs_a_record() {
    let empty: WindLoads<f64> = WindLoads::new(vec![None], vec![]);
    assert!(is_error(empty.n_sample(3), WindLoadsError::Len));
    let w = record(5).n_sample(3).unwrap();
    assert_eq!(w.n_sample, Some(3));
    assert!(w.is_well_formed());
}

#[test]
fn selection_without_the_body_is_empty() {
    let w = WindLoads::new(vec![Some(Loads::OSSTruss6F(series(0., 3)))], vec![0.; 3]);
    assert!(is_error(w.topend(), WindLoadsError::Empty));
    let w = WindLoads::new(vec![Some(Loads::OSSTruss6F(series(0., 3)))], vec![0.; 3]);
    assert!(is_error(w.select_all(), WindLoadsError::Empty));
}

#[test]
fn select_all_orders_the_streams() {
    let source = record(4).select_all().unwrap().build().unwrap();
    assert_eq!(
        source.outputs_tags(),
        vec![
            Tags::OSSTopEnd6F,
            Tags::MCM2Lcl6F,
            Tags::OSSTruss6F,
            Tags::OSSM1Lcl6F,
            Tags::OSSCellLcl6F,
            Tags::OSSGIR6F,
            Tags::OSSCRING6F,
        ]
    );
    assert_eq!(source.inputs_tags(), vec![]);
    assert_eq!(source.n_sample, 4);
}

#[test]
fn asm_selection_remaps_two_streams() {
    let mut source = record(2).select_all_with_asm().unwrap().build().unwrap();
    assert_eq!(
        source.outputs_tags(),
        vec![
            Tags::MCM2TE6F,
            Tags::MCM2RB6F,
            Tags::OSSTruss6F,
            Tags::OSSM1Lcl6F,
            Tags::OSSCellLcl6F,
            Tags::OSSGIR6F,
            Tags::OSSCRING6F,
        ]
    );
    let first = source.outputs().unwrap();
    assert_eq!(first[0].tag, Tags::MCM2TE6F);
    assert_eq!(first[0].data, Some(vec![100.; 6]));
    assert_eq!(first[1].tag, Tags::MCM2RB6F);
    assert_eq!(first[1].data, Some(vec![200.; 6]));
}

#[test]
fn single_selections_pick_their_body() {
    let mut source = record(1)
        .truss()
        .unwrap()
        .m2_asm_topend()
        .unwrap()
        .m1_segments()
        .unwrap()
        .m1_cell()
        .unwrap()
        .m2_asm_reference_bodies()
        .unwrap()
        .gir()
        .unwrap()
        .cring()
        .unwrap()
        .topend()
        .unwrap()
        .m2_segments()
        .unwrap()
        .build()
        .unwrap();
    let out = source.outputs().unwrap();
    let got: Vec<(Tags, f64)> = out
        .iter()
        .map(|io| (io.tag, io.data.as_ref().unwrap()[0]))
        .collect();
    assert_eq!(
        got,
        vec![
            (Tags::OSSTruss6F, 300.),
            (Tags::MCM2TE6F, 100.),
            (Tags::OSSM1Lcl6F, 400.),
            (Tags::OSSCellLcl6F, 500.),
            (Tags::MCM2RB6F, 200.),
            (Tags::OSSGIR6F, 600.),
            (Tags::OSSCRING6F, 700.),
            (Tags::OSSTopEnd6F, 100.),
            (Tags::MCM2Lcl6F, 200.),
        ]
    );
}

#[test]
fn source_streams_until_exhausted() {
    let mut source = record(3)
        .truss()
        .unwrap()
        .topend()
        .unwrap()
        .build()
        .unwrap();
    for k in 0..3 {
        let out = source.outputs().unwrap();
        assert_eq!(out.len(), 2);
        assert_eq!(out[0].data, Some(vec![300. + k as f64; 6]));
        assert_eq!(out[1].data, Some(vec![100. + k as f64; 6]));
    }
    assert!(source.outputs().is_none());
    assert!(source.outputs().is_none());
    assert_eq!(source.cursor, 3);
}

#[test]
fn truncated_source_stops_after_n_samples() {
    let mut source = record(5)
        .n_sample(2)
        .unwrap()
        .select_all()
        .unwrap()
        .build()
        .unwrap();
    assert_eq!(source.n_sample, 2);
    assert!(source.outputs().is_some());
    assert!(source.outputs().is_some());
    assert!(source.outputs().is_none());
}

#[test]
fn source_takes_no_inputs() {
    let mut source = record(2).truss().unwrap().build().unwrap();
    assert!(matches!(source.inputs(vec![]), Err(DOSError::Inputs)));
}

#[test]
fn build_needs_a_record() {
    let empty: WindLoads<f64> = WindLoads::new(vec![], vec![]);
    assert!(matches!(
        empty.build(),
        Err(DOSError::Component(WindLoadsError::Len))
    ));
}

#[test]
fn decimation_keeps_every_nth_sample() {
    let mut source = record(7)
        .decimate(3)
        .truss()
        .unwrap()
        .build()
        .unwrap();
    let mut seen = vec![];
    while let Some(out) = source.outputs() {
        seen.push(out[0].data.as_ref().unwrap()[0]);
    }
    assert_eq!(seen, vec![300., 303., 306.]);
}

#[test]
fn decimation_applies_to_the_samples_that_are_taken() {
    let mut source = record(7)
        .n_sample(4)
        .unwrap()
        .decimate(2)
        .select_all()
        .unwrap()
        .build()
        .unwrap();
    let mut seen = vec![];
    while let Some(out) = source.outputs() {
        seen.push(out[2].data.as_ref().unwrap()[0]);
    }
    assert_eq!(seen, vec![300., 302.]);
}

#[test]
fn range_takes_samples_from_the_first_given() {
    let mut source = record(7)
        .range(2, 3)
        .unwrap()
        .truss()
        .unwrap()
        .build()
        .unwrap();
    assert_eq!(source.n_sample, 3);
    let mut seen = vec![];
    while let Some(out) = source.outputs() {
        seen.push(out[0].data.as_ref().unwrap()[0]);
    }
    assert_eq!(seen, vec![302., 303., 304.]);
}

#[test]
fn range_then_decimation() {
    let w = record(10).range(1, 7).unwrap().decimate(3);
    assert!(w.is_well_formed());
    assert_eq!(w.first, 1);
    let series = w.tagged_load(&Tags::OSSGIR6F).unwrap().unwrap();
    let seen: Vec<f64> = series.iter().map(|x| x[0]).collect();
    assert_eq!(seen, vec![601., 604., 607.]);
}

#[test]
fn range_beyond_the_record_is_not_well_formed() {
    let mut w = record(4);
    w.first = 3;
    w.n_sample = Some(2);
    assert!(!w.is_well_formed());
    w.n_sample = Some(1);
    assert!(w.is_well_formed());
    w.decimation = 0;
    assert!(!w.is_well_formed());
}
