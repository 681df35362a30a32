//! Time-warp staging: a fixed table of timestep/rate/multiplier stages,
//! stepped up and down by user commands and gated by altitude so that high
//! warp is unavailable close to a massive body. A stage above the allowed
//! maximum is forced back down.

use vstd::prelude::*;

use crate::config::Config;
use crate::constants::{
    TIME_WARP_LIMITED_EARTH_ALTITUDE, TIME_WARP_LIMITED_MOON_ALTITUDE,
    TIME_WARP_MIN_EARTH_ALTITUDE, TIME_WARP_MIN_MOON_ALTITUDE,
};

verus! {

/// The highest stage index.
pub const MAX_WARP_STAGE: u8 = 8;

/// A user request to change the time-warp stage.
#[derive(Clone, Copy, Debug, PartialEq, Eq, Structural)]
pub enum WarpCommand {
    /// Step one stage down.
    SlowDown,
    /// Step one stage up, if the altitude gate allows it.
    SpeedUp,
}

/// The stage table: physics timestep in microseconds, scheduler rate in
/// ticks per second, and the displayed time multiplier.
pub open spec fn stage_table(stage: int) -> (u64, u32, u32) {
    if stage <= 0 {
        (15_625u64, 64u32, 1u32)
    } else if stage == 1 {
        (15_625u64, 320u32, 5u32)
    } else if stage == 2 {
        (78_125u64, 320u32, 25u32)
    } else if stage == 3 {
        (156_250u64, 640u32, 100u32)
    } else if stage == 4 {
        (781_250u64, 640u32, 500u32)
    } else if stage == 5 {
        (1_953_125u64, 1280u32, 2500u32)
    } else if stage == 6 {
        (7_812_500u64, 1280u32, 10_000u32)
    } else if stage == 7 {
        (19_531_250u64, 2560u32, 50_000u32)
    } else {
        (39_062_500u64, 6400u32, 250_000u32)
    }
}

/// The settings of one stage.
pub fn stage_settings(stage: u8) -> (r: (u64, u32, u32))
    ensures
        r == stage_table(stage as int),
        1 <= r.0 <= crate::constants::DT_LIMIT,
{
    if stage == 0 {
        (15_625, 64, 1)
    } else if stage == 1 {
        (15_625, 320, 5)
    } else if stage == 2 {
        (78_125, 320, 25)
    } else if stage == 3 {
        (156_250, 640, 100)
    } else if stage == 4 {
        (781_250, 640, 500)
    } else if stage == 5 {
        (1_953_125, 1280, 2500)
    } else if stage == 6 {
        (7_812_500, 1280, 10_000)
    } else if stage == 7 {
        (19_531_250, 2560, 50_000)
    } else {
        (39_062_500, 6400, 250_000)
    }
}

/// The highest stage the craft's altitudes permit: none below the minimum
/// safe altitudes, limited warp below the higher thresholds, everything
/// above them.
pub open spec fn max_allowed_stage_spec(earth_altitude: int, moon_altitude: int) -> u8 {
    if earth_altitude < TIME_WARP_MIN_EARTH_ALTITUDE || moon_altitude
        < TIME_WARP_MIN_MOON_ALTITUDE {
        0u8
    } else if earth_altitude < TIME_WARP_LIMITED_EARTH_ALTITUDE || moon_altitude
        < TIME_WARP_LIMITED_MOON_ALTITUDE {
        3u8
    } else {
        MAX_WARP_STAGE
    }
}

/// Computes the highest stage the altitudes permit.
pub fn max_allowed_stage(earth_altitude: i64, moon_altitude: i64) -> (r: u8)
    ensures
        r == max_allowed_stage_spec(earth_altitude as int, moon_altitude as int),
{
    if earth_altitude < TIME_WARP_MIN_EARTH_ALTITUDE || moon_altitude
        < TIME_WARP_MIN_MOON_ALTITUDE {
        0
    } else if earth_altitude < TIME_WARP_LIMITED_EARTH_ALTITUDE || moon_altitude
        < TIME_WARP_LIMITED_MOON_ALTITUDE {
        3
    } else {
        MAX_WARP_STAGE
    }
}

/// Folds the stage-change commands over a starting stage: a slow-down
/// applies above stage zero, a speed-up applies below the allowed maximum;
/// the flag records whether any command applied.
pub open spec fn fold_warp_commands(stage: int, cmds: Seq<WarpCommand>, max_allowed: int) -> (
    int,
    bool,
)
    decreases cmds.len(),
{
    if cmds.len() == 0 {
        (stage, false)
    } else {
        let step = match cmds[0] {
            WarpCommand::SlowDown => if stage > 0 {
                (stage - 1, true)
            } else {
                (stage, false)
            },
            WarpCommand::SpeedUp => if stage < max_allowed {
                (stage + 1, true)
            } else {
                (stage, false)
            },
        };
        let rest = fold_warp_commands(step.0, cmds.drop_first(), max_allowed);
        (rest.0, step.1 || rest.1)
    }
}

/// The stage after the commands and the altitude gate: the folded stage,
/// forced down to the allowed maximum, with a flag telling whether
/// anything changed.
pub open spec fn warp_outcome(stage: int, cmds: Seq<WarpCommand>, max_allowed: int) -> (int, bool) {
    let f = fold_warp_commands(stage, cmds, max_allowed);
    if f.0 > max_allowed {
        (max_allowed, true)
    } else {
        f
    }
}

/// Applies the user's stage-change commands under the altitude gate. When
/// the stage changes, the configuration takes the new stage's timestep and
/// multiplier and the new scheduler rate is returned; otherwise everything
/// is left alone.
pub fn time_warp_system(
    stage: &mut u8,
    commands: &Vec<WarpCommand>,
    earth_altitude: i64,
    moon_altitude: i64,
    config: &mut Config,
) -> (r: Option<u32>)
    requires
        old(config).wf(),
        *old(stage) <= MAX_WARP_STAGE,
    ensures
        final(config).wf(),
        final(stage) <= MAX_WARP_STAGE,
        ({
            let ma = max_allowed_stage_spec(earth_altitude as int, moon_altitude as int);
            let o = warp_outcome(*old(stage) as int, commands@, ma as int);
            &&& *final(stage) == o.0
            &&& if o.1 {
                let t = stage_table(o.0);
                &&& final(config).dt_micros == t.0
                &&& final(config).time_multiplier == t.2
                &&& r == Some(t.1)
            } else {
                &&& *final(config) == *old(config)
                &&& r == None::<u32>
            }
        }),
{
    let ma = max_allowed_stage(earth_altitude, moon_altitude);
    let mut cur: u8 = *stage;
    let mut changed = false;
    let ghost cmds = commands@;
    let mut k: usize = 0;
    proof {
        assert(cmds.skip(0) == cmds);
    }
    while k < commands.len()
        invariant
            cmds == commands@,
            0 <= k <= cmds.len(),
            cur <= MAX_WARP_STAGE,
            ma <= MAX_WARP_STAGE,
            fold_warp_commands(cur as int, cmds.skip(k as int), ma as int).0 == fold_warp_commands(
                *old(stage) as int,
                cmds,
                ma as int,
            ).0,
            fold_warp_commands(*old(stage) as int, cmds, ma as int).1 == (changed
                || fold_warp_commands(cur as int, cmds.skip(k as int), ma as int).1),
        decreases cmds.len() - k,
    {
        proof {
            assert(cmds.skip(k as int)[0] == cmds[k as int]);
            assert(cmds.skip(k as int).drop_first() == cmds.skip(k as int + 1));
        }
        match commands[k] {
            WarpCommand::SlowDown => {
                if cur > 0 {
                    cur = cur - 1;
                    changed = true;
                }
            },
            WarpCommand::SpeedUp => {
                if cur < ma {
                    cur = cur + 1;
                    changed = true;
                }
            },
        }
        k = k + 1;
    }
    proof {
        assert(cmds.skip(cmds.len() as int) == Seq::<WarpCommand>::empty());
    }
    if cur > ma {
        cur = ma;
        changed = true;
    }
    *stage = cur;
    if changed {
        let t = stage_settings(cur);
        config.dt_micros = t.0;
        config.time_multiplier = t.2;
        Some(t.1)
    } else {
        None
    }
}

} // verus!
