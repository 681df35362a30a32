//! Mission objectives: an ordered list of goals, progress through them, and
//! the guard-timer state machine that advances progress only when a guard
//! condition has held continuously for a required duration.

use vstd::prelude::*;

use crate::constants::{
    LANDING_TOLERANCE, LEO_MIN_ALTITUDE, LEO_REQUIRED_TIME, MOON_RADIUS, EARTH_RADIUS,
    OBJECTIVE_CHECK_INTERVAL, ORBITAL_DOT_DEN, ORBITAL_DOT_NUM, POS_LIMIT, RADIUS_LIMIT, VEL_LIMIT,
};
use crate::num::{sqrt_floor, isqrt};
use crate::vec3::{dist_sq, dot, norm_sq, Vec3i, dist_sq_i128, dot_i128, norm_sq_i128};

verus! {

/// Game objectives that players must complete in sequence.
#[derive(Clone, Copy, Debug, PartialEq, Eq, Structural)]
pub enum Objective {
    /// Escape the Moon's gravitational influence.
    EscapeMoon,
    /// Achieve stable orbit around Earth.
    OrbitEarth,
    /// Successfully land on Earth's surface.
    LandOnEarth,
}

/// The fixed order objectives are completed in.
pub open spec fn canonical_order() -> Seq<Objective> {
    seq![Objective::EscapeMoon, Objective::OrbitEarth, Objective::LandOnEarth]
}

/// Position of an objective within the canonical order.
pub open spec fn objective_index(o: Objective) -> int {
    match o {
        Objective::EscapeMoon => 0,
        Objective::OrbitEarth => 1,
        Objective::LandOnEarth => 2,
    }
}

impl Objective {
    /// The objective's display title.
    pub open spec fn title_spec(self) -> Seq<char> {
        match self {
            Objective::EscapeMoon => "Escape Moon"@,
            Objective::OrbitEarth => "Earth Orbit"@,
            Objective::LandOnEarth => "Earth Landing"@,
        }
    }

    /// Display title of the objective.
    pub fn title(&self) -> (r: &'static str)
        ensures
            r@ == self.title_spec(),
    {
        match self {
            Objective::EscapeMoon => "Escape Moon",
            Objective::OrbitEarth => "Earth Orbit",
            Objective::LandOnEarth => "Earth Landing",
        }
    }
}

/// Tracks the player's progress through game objectives.
#[derive(Clone, Debug)]
pub struct ObjectiveProgress {
    /// The objective currently being pursued.
    pub current: Objective,
    /// Objectives completed so far, in completion order.
    pub completed: Vec<Objective>,
    /// Whether the current objective has been completed.
    pub is_completed: bool,
    /// Value recorded when the current objective was completed, if any.
    pub completion_time: Option<u64>,
}

impl ObjectiveProgress {
    /// The completed list is exactly the first `completed.len()` objectives
    /// of the canonical order, and the current objective is the one the
    /// cursor rests on: the last completed objective while its completion is
    /// still marked, otherwise the next one owed.
    pub open spec fn wf(self) -> bool {
        &&& self.completed@.len() <= canonical_order().len()
        &&& self.completed@ == canonical_order().take(self.completed@.len() as int)
        &&& if self.is_completed {
            &&& self.completed@.len() >= 1
            &&& self.current == canonical_order()[self.completed@.len() - 1]
        } else {
            &&& self.completed@.len() < canonical_order().len()
            &&& self.current == canonical_order()[self.completed@.len() as int]
        }
    }

    /// The cursor: how far along the canonical order the progress stands.
    pub open spec fn cursor(self) -> int {
        objective_index(self.current)
    }

    /// Marks the current objective complete, once: records the supplied
    /// value and appends the objective to the completed list. A second call
    /// before `advance_to_next` changes nothing.
    pub fn complete_current(&mut self, time: u64)
        requires
            old(self).wf(),
        ensures
            final(self).wf(),
            old(self).is_completed ==> *final(self) == *old(self),
            !old(self).is_completed ==> {
                &&& final(self).completed@ == old(self).completed@.push(old(self).current)
                &&& final(self).is_completed
                &&& final(self).completion_time == Some(time)
                &&& final(self).current == old(self).current
            },
            old(self).completed@.is_prefix_of(final(self).completed@),
            final(self).cursor() >= old(self).cursor(),
    {
        if !self.is_completed {
            proof {
                assert(canonical_order().take(self.completed@.len() + 1int) == canonical_order().take(
                    self.completed@.len() as int,
                ).push(self.current));
            }
            let current = self.current;
            self.completed.push(current);
            self.completion_time = Some(time);
            self.is_completed = true;
        }
    }

    /// Moves the cursor to the next objective once the current one is
    /// completed; at the end of the order it stays put.
    pub fn advance_to_next(&mut self)
        requires
            old(self).wf(),
        ensures
            final(self).wf(),
            final(self).completed == old(self).completed,
            !old(self).is_completed ==> *final(self) == *old(self),
            old(self).is_completed ==> match old(self).current {
                Objective::LandOnEarth => *final(self) == *old(self),
                _ => {
                    &&& final(self).current == canonical_order()[objective_index(
                        old(self).current,
                    ) + 1]
                    &&& !final(self).is_completed
                    &&& final(self).completion_time == None::<u64>
                },
            },
            final(self).cursor() >= old(self).cursor(),
    {
        if self.is_completed {
            match self.current {
                Objective::EscapeMoon => {
                    self.current = Objective::OrbitEarth;
                },
                Objective::OrbitEarth => {
                    self.current = Objective::LandOnEarth;
                },
                Objective::LandOnEarth => {
                    return ;
                },
            }
            self.is_completed = false;
            self.completion_time = None;
        }
    }

    /// Whether every objective has been completed.
    pub fn all_completed(&self) -> (r: bool)
        ensures
            r == (self.completed@.len() == canonical_order().len()),
    {
        self.completed.len() == 3
    }
}

impl Default for ObjectiveProgress {
    /// Progress at the start: pursuing the first objective, nothing done.
    fn default() -> (r: ObjectiveProgress)
        ensures
            r.current == Objective::EscapeMoon,
            r.completed@ == Seq::<Objective>::empty(),
            !r.is_completed,
            r.completion_time == None::<u64>,
            r.wf(),
    {
        let r = ObjectiveProgress {
            current: Objective::EscapeMoon,
            completed: Vec::new(),
            is_completed: false,
            completion_time: None,
        };
        proof {
            assert(r.completed@ == canonical_order().take(0));
        }
        r
    }
}

/// The completed list of well-formed progress is a prefix of the canonical
/// objective order, and it never grows past that order's length.
pub proof fn lemma_completed_prefix(p: ObjectiveProgress)
    requires
        p.wf(),
    ensures
        p.completed@.is_prefix_of(canonical_order()),
        p.completed@.len() <= canonical_order().len(),
{
    assert(p.completed@ == canonical_order().take(p.completed@.len() as int));
}

/// An elapsed-time accumulator: a guard condition must keep it ticking up to
/// a required duration, and any guard failure resets it to zero in full.
#[derive(Clone, Copy, Debug)]
pub struct Stopwatch {
    /// Accumulated time in microseconds.
    pub elapsed_micros: u64,
}

/// `a + b` capped at the largest representable value.
pub open spec fn sat_add(a: u64, b: u64) -> u64 {
    if a + b <= u64::MAX {
        (a + b) as u64
    } else {
        u64::MAX
    }
}

impl Stopwatch {
    /// A stopwatch at zero.
    pub fn new() -> (r: Stopwatch)
        ensures
            r.elapsed_micros == 0,
    {
        Stopwatch { elapsed_micros: 0 }
    }

    /// Accumulates elapsed time.
    pub fn tick(&mut self, delta_micros: u64)
        ensures
            final(self).elapsed_micros == sat_add(old(self).elapsed_micros, delta_micros),
    {
        if self.elapsed_micros > u64::MAX - delta_micros {
            self.elapsed_micros = u64::MAX;
        } else {
            self.elapsed_micros = self.elapsed_micros + delta_micros;
        }
    }

    /// Forgets all accumulated time.
    pub fn reset(&mut self)
        ensures
            final(self).elapsed_micros == 0,
    {
        self.elapsed_micros = 0;
    }

    /// The accumulated time in microseconds.
    pub fn elapsed(&self) -> (r: u64)
        ensures
            r == self.elapsed_micros,
    {
        self.elapsed_micros
    }
}

/// Context about the celestial body the user is currently orbiting or near.
#[derive(Clone, Copy, Debug)]
pub struct CelestialBodyContext {
    /// Distance from the user to the body's centre, micro-units.
    pub distance: i64,
    /// The body's radius, micro-units.
    pub radius: i64,
    /// The body's position.
    pub position: Vec3i,
    /// Whether the reference body is a moon rather than Earth.
    pub is_moon_central: bool,
}

impl CelestialBodyContext {
    /// The context's fields are within admissible ranges.
    pub open spec fn wf(self) -> bool {
        &&& 0 <= self.distance <= 4_000_000_000_000_000
        &&& 0 <= self.radius <= RADIUS_LIMIT
        &&& self.position.in_mag(POS_LIMIT as int)
    }
}

/// The user's kinematic state.
#[derive(Clone, Copy, Debug)]
pub struct UserContext {
    /// World position, micro-units.
    pub position: Vec3i,
    /// Velocity, micro-units per second.
    pub velocity: Vec3i,
}

impl UserContext {
    /// The fields are within admissible ranges.
    pub open spec fn wf(self) -> bool {
        &&& self.position.in_mag(POS_LIMIT as int)
        &&& self.velocity.in_mag(VEL_LIMIT as int)
    }
}

/// The two progresses agree in every observable field.
pub open spec fn progress_eq(a: ObjectiveProgress, b: ObjectiveProgress) -> bool {
    &&& a.current == b.current
    &&& a.completed@ == b.completed@
    &&& a.is_completed == b.is_completed
    &&& a.completion_time == b.completion_time
}

/// How `complete_current` moves progress: a first completion appends the
/// current objective and records `time`; a repeated one changes nothing.
pub open spec fn completes_to(p0: ObjectiveProgress, p1: ObjectiveProgress, time: u64) -> bool {
    if p0.is_completed {
        progress_eq(p1, p0)
    } else {
        &&& p1.completed@ == p0.completed@.push(p0.current)
        &&& p1.is_completed
        &&& p1.completion_time == Some(time)
        &&& p1.current == p0.current
    }
}

/// How `advance_to_next` moves progress.
pub open spec fn advances_to(p0: ObjectiveProgress, p1: ObjectiveProgress) -> bool {
    if !p0.is_completed {
        progress_eq(p1, p0)
    } else {
        match p0.current {
            Objective::LandOnEarth => progress_eq(p1, p0),
            _ => {
                &&& p1.current == canonical_order()[objective_index(p0.current) + 1]
                &&& !p1.is_completed
                &&& p1.completion_time == None::<u64>
                &&& p1.completed@ == p0.completed@
            },
        }
    }
}

/// The velocity counts as orbital (tangential) when the magnitude of the
/// position-velocity dot product stays under the threshold fraction of the
/// product of the two norms (norms taken as floor square roots).
pub open spec fn orbital_spec(rel: Vec3i, vel: Vec3i) -> bool {
    let d = dot(rel, vel);
    let a = if d >= 0 {
        d
    } else {
        -d
    };
    ORBITAL_DOT_DEN * a < ORBITAL_DOT_NUM * sqrt_floor(norm_sq(rel)) * sqrt_floor(norm_sq(vel))
}

/// The moon-escape guard: away from the Moon the guard timer accumulates
/// and completion fires once it reaches the required duration; near the
/// Moon the timer resets in full.
pub open spec fn escape_check_rel(
    t0: ObjectiveTracker,
    t1: ObjectiveTracker,
    ctx: CelestialBodyContext,
    delta_micros: u64,
) -> bool {
    &&& t1.check_stopwatch == t0.check_stopwatch
    &&& t1.leo_stopwatch == t0.leo_stopwatch
    &&& if !ctx.is_moon_central {
        let e = sat_add(t0.escape_stopwatch.elapsed_micros, delta_micros);
        &&& t1.escape_stopwatch.elapsed_micros == e
        &&& if e >= LEO_REQUIRED_TIME {
            completes_to(t0.progress, t1.progress, e)
        } else {
            progress_eq(t1.progress, t0.progress)
        }
    } else {
        &&& t1.escape_stopwatch.elapsed_micros == 0
        &&& progress_eq(t1.progress, t0.progress)
    }
}

/// The stable-orbit guard: around Earth, above the low-orbit altitude and
/// with tangential velocity, the guard timer accumulates and completion
/// fires at the required duration; otherwise the timer resets in full.
pub open spec fn orbit_check_rel(
    t0: ObjectiveTracker,
    t1: ObjectiveTracker,
    ctx: CelestialBodyContext,
    user: UserContext,
    delta_micros: u64,
) -> bool {
    let rel = Vec3i {
        x: (user.position.x - ctx.position.x) as i64,
        y: (user.position.y - ctx.position.y) as i64,
        z: (user.position.z - ctx.position.z) as i64,
    };
    &&& t1.check_stopwatch == t0.check_stopwatch
    &&& t1.escape_stopwatch == t0.escape_stopwatch
    &&& if ctx.is_moon_central || ctx.distance - ctx.radius < LEO_MIN_ALTITUDE || !orbital_spec(
        rel,
        user.velocity,
    ) {
        &&& t1.leo_stopwatch.elapsed_micros == 0
        &&& progress_eq(t1.progress, t0.progress)
    } else {
        let e = sat_add(t0.leo_stopwatch.elapsed_micros, delta_micros);
        &&& t1.leo_stopwatch.elapsed_micros == e
        &&& if e >= LEO_REQUIRED_TIME {
            completes_to(t0.progress, t1.progress, e)
        } else {
            progress_eq(t1.progress, t0.progress)
        }
    }
}

/// The landing guard: near enough to Earth's surface the objective
/// completes, recording the distance; otherwise nothing changes.
pub open spec fn landing_check_rel(
    t0: ObjectiveTracker,
    t1: ObjectiveTracker,
    ctx: CelestialBodyContext,
) -> bool {
    &&& t1.check_stopwatch == t0.check_stopwatch
    &&& t1.escape_stopwatch == t0.escape_stopwatch
    &&& t1.leo_stopwatch == t0.leo_stopwatch
    &&& if !ctx.is_moon_central && ctx.distance - ctx.radius <= LANDING_TOLERANCE {
        completes_to(t0.progress, t1.progress, ctx.distance as u64)
    } else {
        progress_eq(t1.progress, t0.progress)
    }
}

/// The guard evaluated for the current objective.
pub open spec fn dispatch_rel(
    t0: ObjectiveTracker,
    t1: ObjectiveTracker,
    ctx: CelestialBodyContext,
    user: UserContext,
    delta_micros: u64,
) -> bool {
    match t0.progress.current {
        Objective::EscapeMoon => escape_check_rel(t0, t1, ctx, delta_micros),
        Objective::OrbitEarth => orbit_check_rel(t0, t1, ctx, user, delta_micros),
        Objective::LandOnEarth => landing_check_rel(t0, t1, ctx),
    }
}

/// Scan for the position closest to `pos`, strictly-closer-wins, first
/// match kept on ties, starting from the running best `(best_d, best_p)`.
pub open spec fn closest_scan(ms: Seq<Vec3i>, pos: Vec3i, i: int, best_d: i64, best_p: Vec3i) -> (
    i64,
    Vec3i,
)
    decreases ms.len() - i,
{
    if i < 0 || i >= ms.len() {
        (best_d, best_p)
    } else {
        let d = sqrt_floor(dist_sq(ms[i], pos)) as i64;
        if d < best_d {
            closest_scan(ms, pos, i + 1, d, ms[i])
        } else {
            closest_scan(ms, pos, i + 1, best_d, best_p)
        }
    }
}

/// The reference body for an objective check: the nearest other body when
/// it is strictly nearer than Earth's centre at the origin, else Earth.
pub open spec fn context_spec(pos: Vec3i, ms: Seq<Vec3i>) -> CelestialBodyContext {
    let de = sqrt_floor(norm_sq(pos)) as i64;
    let best = closest_scan(ms, pos, 0, i64::MAX, Vec3i { x: 0, y: 0, z: 0 });
    if best.0 < de {
        CelestialBodyContext {
            distance: best.0,
            radius: MOON_RADIUS,
            position: best.1,
            is_moon_central: true,
        }
    } else {
        CelestialBodyContext {
            distance: de,
            radius: EARTH_RADIUS,
            position: Vec3i { x: 0, y: 0, z: 0 },
            is_moon_central: false,
        }
    }
}

/// Objective progress plus the guard timers that gate it.
#[derive(Clone, Debug)]
pub struct ObjectiveTracker {
    /// Progress through the canonical objective order.
    pub progress: ObjectiveProgress,
    /// Throttles objective evaluation to a fixed cadence.
    pub check_stopwatch: Stopwatch,
    /// Measures how long the craft has stayed out of the Moon's influence.
    pub escape_stopwatch: Stopwatch,
    /// Measures how long the stable-orbit condition has held.
    pub leo_stopwatch: Stopwatch,
}

impl Default for ObjectiveTracker {
    /// A tracker at the start of the mission.
    fn default() -> (r: ObjectiveTracker)
        ensures
            r.progress.current == Objective::EscapeMoon,
            r.progress.completed@ == Seq::<Objective>::empty(),
            !r.progress.is_completed,
            r.progress.wf(),
            r.check_stopwatch.elapsed_micros == 0,
            r.escape_stopwatch.elapsed_micros == 0,
            r.leo_stopwatch.elapsed_micros == 0,
    {
        ObjectiveTracker {
            progress: Default::default(),
            check_stopwatch: Stopwatch::new(),
            escape_stopwatch: Stopwatch::new(),
            leo_stopwatch: Stopwatch::new(),
        }
    }
}

/// Finds the reference body for an objective check: the nearest of the
/// candidate positions when strictly nearer than Earth's centre at the
/// origin, else Earth itself.
pub fn nearest_body_context(position: Vec3i, moon_positions: &Vec<Vec3i>) -> (r:
    CelestialBodyContext)
    requires
        position.in_mag(POS_LIMIT as int),
        forall|i: int|
            0 <= i < moon_positions@.len() ==> (#[trigger] moon_positions@[i]).in_mag(
                POS_LIMIT as int,
            ),
    ensures
        r == context_spec(position, moon_positions@),
        r.wf(),
{
    let nsq = norm_sq_i128(position, POS_LIMIT);
    let de_u = isqrt(nsq as u128);
    proof {
        crate::num::lemma_sqrt_floor_props(nsq as int);
        crate::num::lemma_sqrt_floor_le(nsq as int, 3_500_000_000_000_000int);
    }
    let de = de_u as i64;
    let mut best_d: i64 = i64::MAX;
    let mut best_p = Vec3i { x: 0, y: 0, z: 0 };
    let ghost ms = moon_positions@;
    let mut i: usize = 0;
    while i < moon_positions.len()
        invariant
            0 <= i <= ms.len(),
            ms == moon_positions@,
            position.in_mag(POS_LIMIT as int),
            forall|k: int| 0 <= k < ms.len() ==> (#[trigger] ms[k]).in_mag(POS_LIMIT as int),
            best_p.in_mag(POS_LIMIT as int),
            0 <= best_d,
            closest_scan(ms, position, i as int, best_d, best_p) == closest_scan(
                ms,
                position,
                0,
                i64::MAX,
                Vec3i { x: 0, y: 0, z: 0 },
            ),
        decreases ms.len() - i,
    {
        let mp = moon_positions[i];
        let dsq = dist_sq_i128(mp, position, POS_LIMIT);
        let d_u = isqrt(dsq as u128);
        proof {
            crate::num::lemma_sqrt_floor_props(dsq as int);
            crate::num::lemma_sqrt_floor_le(dsq as int, 3_500_000_000_000_000int);
        }
        let d = d_u as i64;
        if d < best_d {
            best_d = d;
            best_p = mp;
        }
        i = i + 1;
    }
    if best_d < de {
        CelestialBodyContext {
            distance: best_d,
            radius: MOON_RADIUS,
            position: best_p,
            is_moon_central: true,
        }
    } else {
        CelestialBodyContext {
            distance: de,
            radius: EARTH_RADIUS,
            position: Vec3i { x: 0, y: 0, z: 0 },
            is_moon_central: false,
        }
    }
}

/// Escape-Moon guard: the craft must stay out of the Moon's sphere of
/// influence for the required continuous duration.
pub fn check_escape_moon_objective(
    tracker: &mut ObjectiveTracker,
    celestial_context: &CelestialBodyContext,
    delta_micros: u64,
)
    requires
        old(tracker).progress.wf(),
    ensures
        final(tracker).progress.wf(),
        escape_check_rel(*old(tracker), *final(tracker), *celestial_context, delta_micros),
        old(tracker).progress.completed@.is_prefix_of(final(tracker).progress.completed@),
        final(tracker).progress.cursor() >= old(tracker).progress.cursor(),
{
    if !celestial_context.is_moon_central {
        tracker.escape_stopwatch.tick(delta_micros);
        let e = tracker.escape_stopwatch.elapsed();
        if e >= LEO_REQUIRED_TIME {
            tracker.progress.complete_current(e);
        }
    } else {
        tracker.escape_stopwatch.reset();
    }
}

/// Orbit-Earth guard: around Earth, above the low-orbit altitude and with
/// tangential velocity, continuously for the required duration.
pub fn check_orbit_objective(
    tracker: &mut ObjectiveTracker,
    celestial_context: &CelestialBodyContext,
    user_context: &UserContext,
    delta_micros: u64,
)
    requires
        old(tracker).progress.wf(),
        celestial_context.wf(),
        user_context.wf(),
    ensures
        final(tracker).progress.wf(),
        orbit_check_rel(
            *old(tracker),
            *final(tracker),
            *celestial_context,
            *user_context,
            delta_micros,
        ),
        old(tracker).progress.completed@.is_prefix_of(final(tracker).progress.completed@),
        final(tracker).progress.cursor() >= old(tracker).progress.cursor(),
{
    if celestial_context.is_moon_central {
        tracker.leo_stopwatch.reset();
        return ;
    }
    let altitude = celestial_context.distance - celestial_context.radius;
    if altitude >= LEO_MIN_ALTITUDE {
        let rel = Vec3i {
            x: user_context.position.x - celestial_context.position.x,
            y: user_context.position.y - celestial_context.position.y,
            z: user_context.position.z - celestial_context.position.z,
        };
        let d = dot_i128(rel, user_context.velocity, 2_000_000_000_000_000, VEL_LIMIT);
        let adot: i128 = if d < 0 {
            -d
        } else {
            d
        };
        let rsq = norm_sq_i128(rel, 2_000_000_000_000_000);
        let vsq = norm_sq_i128(user_context.velocity, VEL_LIMIT);
        let rl = isqrt(rsq as u128);
        let vl = isqrt(vsq as u128);
        proof {
            crate::num::lemma_sqrt_floor_props(rsq as int);
            crate::num::lemma_sqrt_floor_le(rsq as int, 7_000_000_000_000_000int);
            crate::num::lemma_sqrt_floor_props(vsq as int);
            crate::num::lemma_sqrt_floor_le(vsq as int, 35_000_000_000_000int);
            assert((ORBITAL_DOT_NUM as int) * (rl as int) * (vl as int)
                <= 735_000_000_000_000_000_000_000_000_000int && 0 <= (ORBITAL_DOT_NUM as int) * (
            rl as int) * (vl as int)) by (nonlinear_arith)
                requires
                    0 <= rl as int <= 7_000_000_000_000_000int,
                    0 <= vl as int <= 35_000_000_000_000int,
                    ORBITAL_DOT_NUM == 3,
            ;
        }
        let is_orbital = (ORBITAL_DOT_DEN as i128) * adot < (ORBITAL_DOT_NUM as i128) * (
        rl as i128) * (vl as i128);
        if is_orbital {
            tracker.leo_stopwatch.tick(delta_micros);
            let e = tracker.leo_stopwatch.elapsed();
            if e >= LEO_REQUIRED_TIME {
                tracker.progress.complete_current(e);
            }
        } else {
            tracker.leo_stopwatch.reset();
        }
    } else {
        tracker.leo_stopwatch.reset();
    }
}

/// Land-on-Earth guard: close enough to Earth's surface counts as landed.
pub fn check_earth_landing_objective(
    tracker: &mut ObjectiveTracker,
    celestial_context: &CelestialBodyContext,
)
    requires
        old(tracker).progress.wf(),
        celestial_context.wf(),
    ensures
        final(tracker).progress.wf(),
        landing_check_rel(*old(tracker), *final(tracker), *celestial_context),
        old(tracker).progress.completed@.is_prefix_of(final(tracker).progress.completed@),
        final(tracker).progress.cursor() >= old(tracker).progress.cursor(),
{
    if celestial_context.is_moon_central {
        return ;
    }
    let altitude = celestial_context.distance - celestial_context.radius;
    if altitude <= LANDING_TOLERANCE {
        tracker.progress.complete_current(celestial_context.distance as u64);
    }
}

/// One throttled objective evaluation: accumulate elapsed time, and once
/// the check interval has passed, evaluate the current objective's guard
/// against the nearest body and advance completed progress by at most one
/// objective.
pub fn objectives_system(
    tracker: &mut ObjectiveTracker,
    position: Vec3i,
    velocity: Vec3i,
    moon_positions: &Vec<Vec3i>,
    delta_micros: u64,
)
    requires
        old(tracker).progress.wf(),
        position.in_mag(POS_LIMIT as int),
        velocity.in_mag(VEL_LIMIT as int),
        forall|i: int|
            0 <= i < moon_positions@.len() ==> (#[trigger] moon_positions@[i]).in_mag(
                POS_LIMIT as int,
            ),
    ensures
        final(tracker).progress.wf(),
        old(tracker).progress.completed@.is_prefix_of(final(tracker).progress.completed@),
        final(tracker).progress.cursor() >= old(tracker).progress.cursor(),
        sat_add(old(tracker).check_stopwatch.elapsed_micros, delta_micros)
            < OBJECTIVE_CHECK_INTERVAL ==> {
            &&& final(tracker).check_stopwatch.elapsed_micros == sat_add(
                old(tracker).check_stopwatch.elapsed_micros,
                delta_micros,
            )
            &&& progress_eq(final(tracker).progress, old(tracker).progress)
            &&& final(tracker).escape_stopwatch == old(tracker).escape_stopwatch
            &&& final(tracker).leo_stopwatch == old(tracker).leo_stopwatch
        },
        sat_add(old(tracker).check_stopwatch.elapsed_micros, delta_micros)
            >= OBJECTIVE_CHECK_INTERVAL ==> exists|mid: ObjectiveTracker|
            {
                &&& #[trigger] dispatch_rel(
                    ObjectiveTracker {
                        check_stopwatch: Stopwatch { elapsed_micros: 0 },
                        progress: old(tracker).progress,
                        escape_stopwatch: old(tracker).escape_stopwatch,
                        leo_stopwatch: old(tracker).leo_stopwatch,
                    },
                    mid,
                    context_spec(position, moon_positions@),
                    UserContext { position, velocity },
                    delta_micros,
                )
                &&& advances_to(mid.progress, final(tracker).progress)
                &&& final(tracker).escape_stopwatch == mid.escape_stopwatch
                &&& final(tracker).leo_stopwatch == mid.leo_stopwatch
                &&& final(tracker).check_stopwatch == mid.check_stopwatch
            },
{
    tracker.check_stopwatch.tick(delta_micros);
    if tracker.check_stopwatch.elapsed() < OBJECTIVE_CHECK_INTERVAL {
        return ;
    }
    tracker.check_stopwatch.reset();

    let ctx = nearest_body_context(position, moon_positions);
    let user = UserContext { position, velocity };
    let ghost t_reset = *tracker;

    let current = tracker.progress.current;
    match current {
        Objective::EscapeMoon => {
            check_escape_moon_objective(tracker, &ctx, delta_micros);
        },
        Objective::OrbitEarth => {
            check_orbit_objective(tracker, &ctx, &user, delta_micros);
        },
        Objective::LandOnEarth => {
            check_earth_landing_objective(tracker, &ctx);
        },
    }
    let ghost mid = *tracker;

    if tracker.progress.is_completed {
        tracker.progress.advance_to_next();
    }
    proof {
        assert(dispatch_rel(t_reset, mid, ctx, user, delta_micros));
        assert(advances_to(mid.progress, tracker.progress));
    }
}

} // verus!
