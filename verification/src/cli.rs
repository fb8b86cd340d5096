//! The prover options of the command line.

use vstd::prelude::*;
use vstd::std_specs::convert::FromSpecImpl;

verus! {

/// The prover options as the command line gives them.
#[derive(Clone, Copy, PartialEq, Eq, PartialOrd, Ord, Debug)]
pub struct CliProverConfig {
    /// The log of the max number of CPU cycles per proof.
    max_cpu_len_log: usize,
    /// Number of transactions in a batch to process at once.
    batch_size: usize,
    /// If true, save the public inputs to disk on error.
    save_inputs_on_error: bool,
}

/// The configuration that the prover takes.
#[derive(Clone, Copy, PartialEq, Eq, Debug)]
pub struct ProverConfig {
    pub batch_size: usize,
    pub max_cpu_len_log: usize,
    pub save_inputs_on_error: bool,
}

impl CliProverConfig {
    /// The log of the max number of CPU cycles per proof.
    pub closed spec fn spec_max_cpu_len_log(&self) -> usize {
        self.max_cpu_len_log
    }

    /// The number of transactions in a batch.
    pub closed spec fn spec_batch_size(&self) -> usize {
        self.batch_size
    }

    /// Whether the public inputs are saved to disk on error.
    pub closed spec fn spec_save_inputs_on_error(&self) -> bool {
        self.save_inputs_on_error
    }

    /// The options with the given values.
    pub fn new(max_cpu_len_log: usize, batch_size: usize, save_inputs_on_error: bool) -> (config:
        Self)
        ensures
            config.spec_max_cpu_len_log() == max_cpu_len_log,
            config.spec_batch_size() == batch_size,
            config.spec_save_inputs_on_error() == save_inputs_on_error,
    {
        CliProverConfig { max_cpu_len_log, batch_size, save_inputs_on_error }
    }

    /// The log of the max number of CPU cycles per proof.
    pub fn max_cpu_len_log(&self) -> (value: usize)
        ensures
            value == self.spec_max_cpu_len_log(),
    {
        self.max_cpu_len_log
    }

    /// The number of transactions in a batch.
    pub fn batch_size(&self) -> (value: usize)
        ensures
            value == self.spec_batch_size(),
    {
        self.batch_size
    }

    /// Whether the public inputs are saved to disk on error.
    pub fn save_inputs_on_error(&self) -> (value: bool)
        ensures
            value == self.spec_save_inputs_on_error(),
    {
        self.save_inputs_on_error
    }
}

impl Default for CliProverConfig {
    /// The options that hold when the command line gives none: 2^20 CPU
    /// cycles, batches of one transaction, inputs not saved.
    fn default() -> (config: Self)
        ensures
            config.spec_max_cpu_len_log() == 20,
            config.spec_batch_size() == 1,
            config.spec_save_inputs_on_error() == false,
    {
        Self { max_cpu_len_log: 20, batch_size: 1, save_inputs_on_error: false }
    }
}

impl From<CliProverConfig> for ProverConfig {
    fn from(cli: CliProverConfig) -> (config: Self) {
        Self {
            batch_size: cli.batch_size,
            max_cpu_len_log: cli.max_cpu_len_log,
            save_inputs_on_error: cli.save_inputs_on_error,
        }
    }
}

impl FromSpecImpl<CliProverConfig> for ProverConfig {
    open spec fn obeys_from_spec() -> bool {
        true
    }

    open spec fn from_spec(cli: CliProverConfig) -> Self {
        ProverConfig {
            batch_size: cli.spec_batch_size(),
            max_cpu_len_log: cli.spec_max_cpu_len_log(),
            save_inputs_on_error: cli.spec_save_inputs_on_error(),
        }
    }
}

} // verus!
