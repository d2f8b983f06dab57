//! The constants of a run, gathered in one value.

use vstd::prelude::*;

verus! {

/// Number of resources at which a run stops.
pub const DEFAULT_GOAL: usize = 10_000;

/// Lowest identifier that is probed.
pub const DEFAULT_MIN_ID: u32 = 1;

/// Highest identifier that is probed.
pub const DEFAULT_MAX_ID: u32 = 4_000_000;

/// Identifiers per batch, which is also the number of requests in flight.
pub const DEFAULT_BATCH_SIZE: usize = 10;

/// Draws that one batch may spend before the range counts as exhausted.
pub const DEFAULT_DRAW_LIMIT: usize = 100_000;

/// Seconds after which a single request is given up.
pub const DEFAULT_TIMEOUT_SECS: u64 = 10;

/// Milliseconds of rest between two batches.
pub const DEFAULT_PAUSE_MILLIS: u64 = 100;

/// The settings of one run.
#[derive(Clone, Copy, Debug, PartialEq, Eq, Structural)]
pub struct Config {
    /// Number of resources, existing ones included, at which the run stops.
    pub goal: usize,
    /// Lowest identifier of the probed range.
    pub min_id: u32,
    /// Highest identifier of the probed range (inclusive).
    pub max_id: u32,
    /// Identifiers per batch.
    pub batch_size: usize,
    /// Draws that one batch may spend before it gives up.
    pub draw_limit: usize,
    /// Seconds after which a single request is given up.
    pub timeout_secs: u64,
    /// Milliseconds of rest between two batches.
    pub pause_millis: u64,
}

impl Config {
    /// A configuration is usable when its range is not empty, a batch
    /// holds at least one identifier, so that every round is an attempt,
    /// and the tally of acquired resources, which may pass the goal by less
    /// than one batch, fits the machine's counters.
    pub open spec fn valid(&self) -> bool {
        &&& self.min_id <= self.max_id
        &&& self.batch_size >= 1
        &&& self.goal + self.batch_size <= usize::MAX
    }

    /// Number of identifiers in the probed range.
    pub open spec fn range_size(&self) -> nat {
        if self.min_id <= self.max_id {
            (self.max_id - self.min_id + 1) as nat
        } else {
            0
        }
    }

    /// Tells whether the configuration is usable.
    pub fn is_valid(&self) -> (ok: bool)
        ensures
            ok == self.valid(),
    {
        self.min_id <= self.max_id && self.batch_size >= 1 && self.batch_size <= usize::MAX
            - self.goal
    }
}

impl Default for Config {
    fn default() -> (config: Config)
        ensures
            config == (Config {
                goal: DEFAULT_GOAL,
                min_id: DEFAULT_MIN_ID,
                max_id: DEFAULT_MAX_ID,
                batch_size: DEFAULT_BATCH_SIZE,
                draw_limit: DEFAULT_DRAW_LIMIT,
                timeout_secs: DEFAULT_TIMEOUT_SECS,
                pause_millis: DEFAULT_PAUSE_MILLIS,
            }),
            config.valid(),
    {
        Config {
            goal: DEFAULT_GOAL,
            min_id: DEFAULT_MIN_ID,
            max_id: DEFAULT_MAX_ID,
            batch_size: DEFAULT_BATCH_SIZE,
            draw_limit: DEFAULT_DRAW_LIMIT,
            timeout_secs: DEFAULT_TIMEOUT_SECS,
            pause_millis: DEFAULT_PAUSE_MILLIS,
        }
    }
}

} // verus!
