//! The two numbers that a run is set up with.

use crate::aggregate::MIN_TRIALS;
use crate::container::MAX_LEN;
use vstd::prelude::*;

verus! {

/// The workload size of a run that is set up without one.
pub const DEFAULT_SIZE: usize = 100_000_000;

/// The number of trials of a run that is set up without one.
pub const DEFAULT_TRIALS: usize = 7;

/// Why a run cannot be set up.
#[derive(Clone, Copy, Debug, PartialEq, Eq, Structural)]
pub enum ConfigError {
    /// The trials are fewer than the aggregator needs.
    TooFewTrials,
    /// The workload is larger than an array under test takes.
    WorkloadTooLarge,
}

/// The workload size and the number of trials, the same for every array of a
/// run. The trials are at least `MIN_TRIALS` and the size is at most
/// `MAX_LEN`.
#[derive(Clone, Copy, Debug)]
pub struct Config {
    size: usize,
    trials: usize,
}

impl Config {
    #[verifier::type_invariant]
    spec fn within_limits(self) -> bool {
        self.trials >= MIN_TRIALS && self.size <= MAX_LEN
    }

    /// The workload size.
    pub closed spec fn spec_size(&self) -> usize {
        self.size
    }

    /// The number of trials for each array.
    pub closed spec fn spec_trials(&self) -> usize {
        self.trials
    }

    /// Sets a run up, or says why it cannot be. Too few trials are reported
    /// before too large a workload.
    pub fn new(size: usize, trials: usize) -> (made: Result<Config, ConfigError>)
        ensures
            match made {
                Ok(config) => {
                    &&& trials >= MIN_TRIALS
                    &&& size <= MAX_LEN
                    &&& config.size() == size
                    &&& config.trials() == trials
                },
                Err(ConfigError::TooFewTrials) => trials < MIN_TRIALS,
                Err(ConfigError::WorkloadTooLarge) => trials >= MIN_TRIALS && size > MAX_LEN,
            },
    {
        if trials < MIN_TRIALS {
            Err(ConfigError::TooFewTrials)
        } else if size > MAX_LEN {
            Err(ConfigError::WorkloadTooLarge)
        } else {
            Ok(Config { size, trials })
        }
    }

    /// The workload size.
    #[verifier::when_used_as_spec(spec_size)]
    pub fn size(&self) -> (size: usize)
        ensures
            size == self.spec_size(),
            size <= MAX_LEN,
    {
        proof {
            use_type_invariant(self);
        }
        self.size
    }

    /// The number of trials for each array.
    #[verifier::when_used_as_spec(spec_trials)]
    pub fn trials(&self) -> (trials: usize)
        ensures
            trials == self.spec_trials(),
            trials >= MIN_TRIALS,
    {
        proof {
            use_type_invariant(self);
        }
        self.trials
    }
}

impl Default for Config {
    /// A workload of `DEFAULT_SIZE` values and `DEFAULT_TRIALS` trials.
    fn default() -> (config: Config)
        ensures
            config.size() == DEFAULT_SIZE,
            config.trials() == DEFAULT_TRIALS,
    {
        Config { size: DEFAULT_SIZE, trials: DEFAULT_TRIALS }
    }
}

} // verus!
