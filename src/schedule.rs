use vstd::prelude::*;

verus! {

/// Why a training schedule was refused.
#[derive(Debug, Clone, Copy, PartialEq, Eq, Structural)]
pub enum ConfigError {
    /// Training needs at least one epoch.
    ZeroEpochs,
}

/// The integer part of the training hyperparameters: how many epochs to run
/// and how many rows a batch holds (`0` meaning every row).
#[derive(Debug, Clone, Copy, PartialEq, Eq, Structural)]
pub struct TrainingSchedule {
    pub epochs: usize,
    pub batch_size: usize,
}

/// Epochs of a schedule that nobody has configured.
pub const DEFAULT_EPOCHS: usize = 100;

impl TrainingSchedule {
    /// A hundred epochs over every row.
    pub fn new() -> (r: Self)
        ensures
            r.epochs == DEFAULT_EPOCHS,
            r.batch_size == 0,
    {
        TrainingSchedule { epochs: DEFAULT_EPOCHS, batch_size: 0 }
    }

    /// Sets the number of epochs; zero is refused.
    pub fn epochs(self, epochs: usize) -> (r: Result<Self, ConfigError>)
        ensures
            epochs == 0 <==> r == Err::<Self, ConfigError>(ConfigError::ZeroEpochs),
            epochs != 0 ==> r == Ok::<Self, ConfigError>(
                (TrainingSchedule { epochs, batch_size: self.batch_size }),
            ),
    {
        if epochs == 0 {
            Err(ConfigError::ZeroEpochs)
        } else {
            Ok(TrainingSchedule { epochs, batch_size: self.batch_size })
        }
    }

    /// Sets the batch size; `0` stands for every row.
    pub fn batch_size(self, batch_size: usize) -> (r: Self)
        ensures
            r.epochs == self.epochs,
            r.batch_size == batch_size,
    {
        TrainingSchedule { epochs: self.epochs, batch_size }
    }
}

impl Default for TrainingSchedule {
    fn default() -> (r: Self)
        ensures
            r.epochs == DEFAULT_EPOCHS,
            r.batch_size == 0,
    {
        TrainingSchedule::new()
    }
}

} // verus!
