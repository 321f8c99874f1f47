use kalman_filter::{run_filter, Belief};

fn predict(b: Belief<f64>) -> Belief<f64> {
    Belief { mean: b.mean, variance: b.variance }
}

fn update(b: Belief<f64>, z: (f64, f64)) -> Result<(Belief<f64>, f64), ()> {
    let (value, r) = z;
    if b.variance + r == 0.0 {
        return Err(());
    }
    let k = b.variance / (b.variance + r);
    Ok((Belief { mean: b.mean + k * (value - b.mean), variance: (1.0 - k) * b.variance }, k))
}

#[test]
fn one_step_from_unit_prior() {
    let records = vec![(10.0, 1.0)];
    let h = run_filter(&records, Belief { mean: 0.0, variance: 1.0 }, predict, update).unwrap();
    assert_eq!(h.gains, vec![0.5]);
    assert_eq!(h.estimates.len(), 2);
    assert_eq!(h.estimates[0].mean, 0.0);
    assert_eq!(h.estimates[1].mean, 5.0);
    assert_eq!(h.estimates[1].variance, 0.5);
}

#[test]
fn exact_measurement_is_taken_whole() {
    let records = vec![(7.0, 0.0)];
    let h = run_filter(&records, Belief { mean: 2.0, variance: 3.0 }, predict, update).unwrap();
    assert_eq!(h.gains[0], 1.0);
    assert_eq!(h.estimates[1].mean, 7.0);
    assert_eq!(h.estimates[1].variance, 0.0);
}

#[test]
fn constant_stream_narrows_and_converges() {
    let records = vec![(4.0, 1.0); 6];
    let h = run_filter(&records, Belief { mean: 0.0, variance: 1.0 }, predict, update).unwrap();
    assert_eq!(h.estimates.len(), 7);
    assert_eq!(h.predictions.len(), 6);
    for i in 0..6 {
        assert!(h.estimates[i + 1].variance <= h.estimates[i].variance);
        assert!((4.0 - h.estimates[i + 1].mean).abs() <= (4.0 - h.estimates[i].mean).abs());
    }
}

#[test]
fn process_noise_widens_each_prediction() {
    let widen = |b: Belief<f64>| Belief { mean: b.mean, variance: b.variance + 1.0 };
    let records = vec![(10.0, 2.0), (10.0, 2.0)];
    let h = run_filter(&records, Belief { mean: 0.0, variance: 1.0 }, widen, update).unwrap();
    assert_eq!(h.predictions[0].variance, 2.0);
    assert_eq!(h.gains[0], 0.5);
    assert_eq!(h.estimates[1].mean, 5.0);
    assert_eq!(h.estimates[1].variance, 1.0);
    assert_eq!(h.predictions[1].variance, 2.0);
}

#[test]
fn degenerate_update_halts_the_run() {
    let records = vec![(1.0, 1.0), (2.0, 0.0), (3.0, 1.0)];
    let x = run_filter(&records, Belief { mean: 0.0, variance: 0.0 }, predict, update).unwrap_err();
    assert_eq!(x.history.gains.len(), 1);
    assert_eq!(x.history.estimates.len(), 2);
    assert_eq!(x.prediction.variance, 0.0);
    assert_eq!(x.error, ());
}

#[test]
fn empty_run_keeps_the_initial_belief() {
    let records: Vec<(f64, f64)> = vec![];
    let h = run_filter(&records, Belief { mean: 1.0, variance: 2.0 }, predict, update).unwrap();
    assert_eq!(h.estimates.len(), 1);
    assert_eq!(h.estimates[0].mean, 1.0);
    assert!(h.gains.is_empty());
}
