use dos::error::DOSError;
use dos::io::{Tags, IO};
use dos::telltale::{DataLogging, TellTaleError};

#[test]
fn log_before_first_step_is_refused() {
    let mut data = DataLogging::new(1f64).build();
    let r = data.log(&IO::with(Tags::OSSM1Lcl, vec![1f64]));
    assert!(matches!(
        r,
        Err(DOSError::Component(TellTaleError::Tale))
    ));
    assert!(data.entries.is_empty());
}

#[test]
fn builder_keeps_rate_and_keys() {
    let data = DataLogging::new(1f64)
        .sampling_rate(2e3)
        .key(Tags::OSSM1Lcl)
        .key(Tags::MCM2Lcl6D)
        .build();
    assert_eq!(data.sampling_rate, 2e3);
    assert_eq!(data.keys, vec![Tags::OSSM1Lcl, Tags::MCM2Lcl6D]);
    assert_eq!(data.index, None);
}

#[test]
fn step_counts_samples_from_zero() {
    let mut data = DataLogging::new(1f64).build();
    data.step().unwrap();
    assert_eq!(data.index, Some(0));
    data.step().unwrap();
    assert_eq!(data.index, Some(1));
    data.index = Some(usize::MAX);
    assert!(matches!(
        data.step(),
        Err(DOSError::Component(TellTaleError::Step))
    ));
    assert_eq!(data.index, Some(usize::MAX));
}

#[test]
fn time_series_follows_one_signal() {
    let mut data = DataLogging::new(1e3).build();
    for k in 0..3 {
        data.step().unwrap();
        data.log(&IO::with(Tags::OSSM1Lcl, vec![k as f64, 1.]))
            .unwrap();
        data.log(&IO::with(Tags::MCM2Lcl6D, vec![10. * k as f64]))
            .unwrap();
        data.log(&IO::with(Tags::OSSM1Lcl, vec![-1.])).unwrap();
    }
    assert_eq!(data.entries.len(), 3);
    let m1 = data.time_series(Tags::OSSM1Lcl);
    assert_eq!(m1.tag, Tags::OSSM1Lcl);
    assert_eq!(
        m1.data,
        Some(vec![
            (0, vec![0., 1.]),
            (1, vec![1., 1.]),
            (2, vec![2., 1.])
        ])
    );
    let m2 = data.time_series(Tags::MCM2Lcl6D);
    assert_eq!(
        m2.data,
        Some(vec![(0, vec![0.]), (1, vec![10.]), (2, vec![20.])])
    );
}

#[test]
fn time_series_of_unlogged_signal_is_empty_handed() {
    let mut data = DataLogging::new(1e3).build();
    data.step().unwrap();
    data.log(&IO::with(Tags::OSSM1Lcl, vec![1f64])).unwrap();
    data.step().unwrap();
    data.step().unwrap();
    data.log(&IO::with(Tags::MCM2Lcl6D, vec![2f64])).unwrap();
    let indices: Vec<usize> = data.entries.iter().map(|e| e.0).collect();
    assert_eq!(indices, vec![0, 2]);
    let m1 = data.time_series(Tags::OSSM1Lcl);
    assert_eq!(m1.tag, Tags::OSSM1Lcl);
    assert!(m1.data.is_none());
    assert!(data.time_series(Tags::M1CGFM).data.is_none());
}

#[test]
fn time_series_of_empty_log_is_empty() {
    let data = DataLogging::new(1f64).build();
    assert_eq!(data.time_series(Tags::OSSM1Lcl).data, Some(vec![]));
}

#[test]
fn log_keeps_a_copy() {
    let mut data = DataLogging::new(1f64).build();
    data.step().unwrap();
    let mut tale = IO::with(Tags::OSSM1Lcl, vec![1f64, 2.]);
    data.log(&tale).unwrap();
    tale.data.as_mut().unwrap()[0] = 9.;
    assert_eq!(
        data.time_series(Tags::OSSM1Lcl).data,
        Some(vec![(0, vec![1., 2.])])
    );
}
