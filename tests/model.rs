use micronn::model::{check_predict, plan_fit, plan_fit_with_order, FitError, PredictError};
use micronn::schedule::TrainingSchedule;

#[test]
fn two_by_two_scenario_plans_full_batch() {
    let schedule = TrainingSchedule::new().epochs(100).unwrap();
    let plan = plan_fit(2, 2, 2, None, &schedule).unwrap();
    assert_eq!(plan.rows, vec![0, 1]);
    assert_eq!(plan.epochs, 100);
    assert_eq!(plan.divisor, 2);
    assert!(plan.init_weights);
    assert!(!plan.clamped);
    assert_eq!(check_predict(Some(2), 2), Ok(()));
}

#[test]
fn length_mismatch_refused() {
    let schedule = TrainingSchedule::new();
    assert_eq!(
        plan_fit(3, 2, 2, None, &schedule).unwrap_err(),
        FitError::LengthMismatch { samples: 3, targets: 2 }
    );
}

#[test]
fn zero_epochs_refused_by_fit() {
    let schedule = TrainingSchedule { epochs: 0, batch_size: 0 };
    assert_eq!(plan_fit(2, 1, 2, None, &schedule).unwrap_err(), FitError::ZeroEpochs);
    assert_eq!(plan_fit(2, 1, 2, Some(1), &schedule).unwrap_err(), FitError::ZeroEpochs);
}

#[test]
fn warm_start_with_other_width_refused() {
    let schedule = TrainingSchedule::new();
    assert_eq!(
        plan_fit(2, 3, 2, Some(2), &schedule).unwrap_err(),
        FitError::FeatureMismatch { expected: 2, found: 3 }
    );
}

#[test]
fn warm_start_keeps_weights() {
    let schedule = TrainingSchedule::new();
    let plan = plan_fit(2, 2, 2, Some(2), &schedule).unwrap();
    assert!(!plan.init_weights);
}

#[test]
fn fixed_order_gives_identical_plans() {
    let schedule = TrainingSchedule::new().epochs(5).unwrap().batch_size(2);
    let order = vec![2, 0, 3, 1];
    let a = plan_fit_with_order(4, 1, 4, None, &schedule, &order).unwrap();
    let b = plan_fit_with_order(4, 1, 4, None, &schedule, &order).unwrap();
    assert_eq!(a.rows, b.rows);
    assert_eq!(a.rows, vec![2, 0]);
    assert_eq!(a.divisor, 2);
    assert_eq!(a.epochs, b.epochs);
    assert_eq!(a.init_weights, b.init_weights);
}

#[test]
fn oversized_batch_is_clamped() {
    let schedule = TrainingSchedule::new().batch_size(10);
    let plan = plan_fit(3, 1, 3, None, &schedule).unwrap();
    assert_eq!(plan.rows, vec![0, 1, 2]);
    assert_eq!(plan.divisor, 3);
    assert!(plan.clamped);
}

#[test]
fn random_batch_is_distinct() {
    let schedule = TrainingSchedule::new().batch_size(3);
    let plan = plan_fit(7, 1, 7, None, &schedule).unwrap();
    assert_eq!(plan.rows.len(), 3);
    assert_eq!(plan.divisor, 3);
    for (a, &x) in plan.rows.iter().enumerate() {
        assert!(x < 7);
        assert!(!plan.rows[a + 1..].contains(&x));
    }
}

#[test]
fn predict_unfitted_fails() {
    assert_eq!(check_predict(None, 2), Err(PredictError::Unfitted));
    assert_eq!(check_predict(None, 0), Err(PredictError::Unfitted));
}

#[test]
fn predict_width_mismatch_fails() {
    assert_eq!(
        check_predict(Some(2), 3),
        Err(PredictError::FeatureMismatch { expected: 2, found: 3 })
    );
}
