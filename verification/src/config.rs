//! Global simulation configuration, consumed at the start of each tick.

use vstd::prelude::*;

use crate::constants::DT_LIMIT;

verus! {

/// Physics timing configuration.
#[derive(Clone, Copy, Debug)]
pub struct Config {
    /// Physics timestep in microseconds.
    pub dt_micros: u64,
    /// Time acceleration multiplier displayed for the time-warp feature.
    pub time_multiplier: u32,
}

impl Config {
    /// The timestep is positive and within the admissible range.
    pub open spec fn wf(self) -> bool {
        1 <= self.dt_micros <= DT_LIMIT
    }

    /// The base configuration: a 1/64 s timestep at real time.
    pub fn base() -> (r: Config)
        ensures
            r.dt_micros == 15625,
            r.time_multiplier == 1,
            r.wf(),
    {
        Config { dt_micros: 15625, time_multiplier: 1 }
    }
}

} // verus!
