use vstd::prelude::*;

verus! {

/// Largest accepted load, in percent.
pub const MAX_LOAD_PERCENT: u8 = 100;

/// Why a set of run parameters was refused.
#[derive(Clone, Copy, Debug, PartialEq, Eq, Structural)]
pub enum ConfigError {
    /// The requested load is above one hundred percent.
    LoadPercentTooHigh { load_percent: u8 },
}

/// The validated parameters of one run.
#[derive(Clone, Copy, Debug, PartialEq, Eq, Structural)]
pub struct LoadConfig {
    /// Number of workers to start; zero gives a run that loads nothing.
    pub thread_count: usize,
    /// Target busy share of each worker, in percent.
    pub load_percent: u8,
    /// Length of the run in seconds; `None` runs until the process is ended.
    pub duration_seconds: Option<u64>,
}

impl LoadConfig {
    /// A configuration is usable when its load is a percentage.
    pub open spec fn wf(&self) -> bool {
        self.load_percent <= MAX_LOAD_PERCENT
    }

    /// How long the run lasts, in seconds; an unbounded run waits the
    /// longest span that can be expressed.
    pub open spec fn run_seconds(&self) -> u64 {
        match self.duration_seconds {
            Some(s) => s,
            None => u64::MAX,
        }
    }

    /// Validates the run parameters. The load is the only value that can
    /// be refused: a thread count of zero and any duration are accepted.
    pub fn new(thread_count: usize, load_percent: u8, duration_seconds: Option<u64>) -> (r: Result<
        LoadConfig,
        ConfigError,
    >)
        ensures
            load_percent <= MAX_LOAD_PERCENT ==> r == Ok::<LoadConfig, ConfigError>(
                LoadConfig { thread_count, load_percent, duration_seconds },
            ),
            load_percent > MAX_LOAD_PERCENT ==> r == Err::<LoadConfig, ConfigError>(
                ConfigError::LoadPercentTooHigh { load_percent },
            ),
            r matches Ok(c) ==> c.wf(),
    {
        if load_percent > MAX_LOAD_PERCENT {
            Err(ConfigError::LoadPercentTooHigh { load_percent })
        } else {
            Ok(LoadConfig { thread_count, load_percent, duration_seconds })
        }
    }

    /// The number of seconds the coordinator waits before shutting down.
    pub fn wait_seconds(&self) -> (r: u64)
        ensures
            r == self.run_seconds(),
    {
        match self.duration_seconds {
            Some(s) => s,
            None => u64::MAX,
        }
    }
}

} // verus!
