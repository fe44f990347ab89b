use vstd::prelude::*;

use crate::batch::{
    all_rows, batch_rows, distinct_rows, draw_batch, effective_batch_size, select_batch,
    uses_all_rows,
};
use crate::schedule::TrainingSchedule;

verus! {

/// Why a fit was refused before any training took place.
#[derive(Debug, Clone, Copy, PartialEq, Eq, Structural)]
pub enum FitError {
    /// The target vector does not hold one value per sample.
    LengthMismatch { samples: usize, targets: usize },
    /// The schedule asks for no epochs at all.
    ZeroEpochs,
    /// The model was fitted on a different number of features.
    FeatureMismatch { expected: usize, found: usize },
}

/// Why a prediction was refused.
#[derive(Debug, Clone, Copy, PartialEq, Eq, Structural)]
pub enum PredictError {
    /// The model has no weights yet.
    Unfitted,
    /// The inputs have another number of features than the weights.
    FeatureMismatch { expected: usize, found: usize },
}

/// The error a fit meets first, if any: the target length, then the epoch
/// count, then the width of weights kept from an earlier fit.
pub open spec fn fit_error(
    n_samples: usize,
    n_features: usize,
    n_targets: usize,
    fitted_features: Option<usize>,
    epochs: usize,
) -> Option<FitError> {
    if n_targets != n_samples {
        Some(FitError::LengthMismatch { samples: n_samples, targets: n_targets })
    } else if epochs == 0 {
        Some(FitError::ZeroEpochs)
    } else {
        match fitted_features {
            Some(m) if m != n_features => Some(
                FitError::FeatureMismatch { expected: m, found: n_features },
            ),
            _ => None,
        }
    }
}

/// What one call of `fit` does once its inputs are accepted: the rows it
/// visits in every epoch, in that order, how many epochs, the batch size that
/// scales each per-row update, whether the weights start afresh, and whether
/// the requested batch size was cut down to the number of samples.
#[derive(Debug)]
pub struct FitPlan {
    pub rows: Vec<usize>,
    pub epochs: usize,
    pub divisor: usize,
    pub init_weights: bool,
    pub clamped: bool,
}

/// Checks the inputs of a fit and resolves its batch from a row order given
/// by the caller. Nothing is drawn at random here.
pub fn plan_fit_with_order(
    n_samples: usize,
    n_features: usize,
    n_targets: usize,
    fitted_features: Option<usize>,
    schedule: &TrainingSchedule,
    order: &Vec<usize>,
) -> (r: Result<FitPlan, FitError>)
    requires
        order@.len() == n_samples,
    ensures
        match fit_error(n_samples, n_features, n_targets, fitted_features, schedule.epochs) {
            Some(e) => r is Err && r->Err_0 == e,
            None => r is Ok && r->Ok_0.rows@ == batch_rows(
                n_samples as nat,
                schedule.batch_size as nat,
                order@,
            ) && r->Ok_0.epochs == schedule.epochs && r->Ok_0.divisor as nat
                == effective_batch_size(n_samples as nat, schedule.batch_size as nat)
                && r->Ok_0.init_weights == (fitted_features is None) && r->Ok_0.clamped == (
            schedule.batch_size > n_samples),
        },
{
    match check_fit(n_samples, n_features, n_targets, fitted_features, schedule.epochs) {
        Some(e) => Err(e),
        None => {
            let rows = select_batch(n_samples, schedule.batch_size, order);
            let divisor = rows.len();
            Ok(
                FitPlan {
                    rows,
                    epochs: schedule.epochs,
                    divisor,
                    init_weights: fitted_features.is_none(),
                    clamped: schedule.batch_size > n_samples,
                },
            )
        },
    }
}

/// Checks the inputs of a fit and draws its batch: every row in natural
/// order, or `batch_size` distinct rows picked at random once for all epochs.
pub fn plan_fit(
    n_samples: usize,
    n_features: usize,
    n_targets: usize,
    fitted_features: Option<usize>,
    schedule: &TrainingSchedule,
) -> (r: Result<FitPlan, FitError>)
    ensures
        match fit_error(n_samples, n_features, n_targets, fitted_features, schedule.epochs) {
            Some(e) => r is Err && r->Err_0 == e,
            None => r is Ok && r->Ok_0.rows@.len() == effective_batch_size(
                n_samples as nat,
                schedule.batch_size as nat,
            ) && distinct_rows(r->Ok_0.rows@, n_samples as nat) && (uses_all_rows(
                n_samples as nat,
                schedule.batch_size as nat,
            ) ==> r->Ok_0.rows@ == all_rows(n_samples as nat)) && r->Ok_0.epochs
                == schedule.epochs && r->Ok_0.divisor as nat == effective_batch_size(
                n_samples as nat,
                schedule.batch_size as nat,
            ) && r->Ok_0.init_weights == (fitted_features is None) && r->Ok_0.clamped == (
            schedule.batch_size > n_samples),
        },
{
    match check_fit(n_samples, n_features, n_targets, fitted_features, schedule.epochs) {
        Some(e) => Err(e),
        None => {
            let rows = draw_batch(n_samples, schedule.batch_size);
            let divisor = rows.len();
            Ok(
                FitPlan {
                    rows,
                    epochs: schedule.epochs,
                    divisor,
                    init_weights: fitted_features.is_none(),
                    clamped: schedule.batch_size > n_samples,
                },
            )
        },
    }
}

fn check_fit(
    n_samples: usize,
    n_features: usize,
    n_targets: usize,
    fitted_features: Option<usize>,
    epochs: usize,
) -> (r: Option<FitError>)
    ensures
        r == fit_error(n_samples, n_features, n_targets, fitted_features, epochs),
{
    if n_targets != n_samples {
        Some(FitError::LengthMismatch { samples: n_samples, targets: n_targets })
    } else if epochs == 0 {
        Some(FitError::ZeroEpochs)
    } else {
        match fitted_features {
            Some(m) => {
                if m != n_features {
                    Some(FitError::FeatureMismatch { expected: m, found: n_features })
                } else {
                    None
                }
            },
            None => None,
        }
    }
}

/// Decides whether a model whose weights have `fitted_features` entries (none
/// when it was never fitted) can predict on inputs with `n_features` columns.
pub fn check_predict(fitted_features: Option<usize>, n_features: usize) -> (r: Result<
    (),
    PredictError,
>)
    ensures
        fitted_features is None <==> r == Err::<(), PredictError>(PredictError::Unfitted),
        fitted_features is Some && fitted_features->0 != n_features ==> r == Err::<
            (),
            PredictError,
        >(PredictError::FeatureMismatch { expected: fitted_features->0, found: n_features }),
        fitted_features == Some(n_features) <==> r is Ok,
{
    match fitted_features {
        None => Err(PredictError::Unfitted),
        Some(m) => {
            if m != n_features {
                Err(PredictError::FeatureMismatch { expected: m, found: n_features })
            } else {
                Ok(())
            }
        },
    }
}

/// Whatever the shape of the data and whatever was learned before, a fit
/// whose targets match its samples is refused for want of epochs.
pub proof fn lemma_zero_epochs_rejected(
    n_samples: usize,
    n_features: usize,
    fitted_features: Option<usize>,
)
    ensures
        fit_error(n_samples, n_features, n_samples, fitted_features, 0) == Some(
            FitError::ZeroEpochs,
        ),
{
}

/// With the row order fixed, the batch is fixed: two orders that agree on
/// the rows a batch takes from them give the same batch, and when the batch
/// is every row the order plays no part at all.
pub proof fn lemma_batch_fixed_by_order(
    n_samples: nat,
    batch_size: nat,
    order_a: Seq<usize>,
    order_b: Seq<usize>,
)
    requires
        order_a.len() == n_samples,
        order_b.len() == n_samples,
        uses_all_rows(n_samples, batch_size) || order_a.take(batch_size as int) == order_b.take(
            batch_size as int,
        ),
    ensures
        batch_rows(n_samples, batch_size, order_a) == batch_rows(n_samples, batch_size, order_b),
{
}

/// A batch size above the number of samples is no error: the batch becomes
/// every row, in natural order, and the fit goes ahead.
pub proof fn lemma_oversized_batch_uses_all_rows(
    n_samples: usize,
    n_features: usize,
    fitted_features: Option<usize>,
    schedule: TrainingSchedule,
    order: Seq<usize>,
)
    requires
        schedule.batch_size > n_samples,
        schedule.epochs > 0,
        fitted_features is None || fitted_features == Some(n_features),
    ensures
        fit_error(n_samples, n_features, n_samples, fitted_features, schedule.epochs) is None,
        batch_rows(n_samples as nat, schedule.batch_size as nat, order) == all_rows(
            n_samples as nat,
        ),
        effective_batch_size(n_samples as nat, schedule.batch_size as nat) == n_samples,
{
}

} // verus!
