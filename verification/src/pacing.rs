//! Timestep-recovery strategies: each turns an irregular per-frame delta into
//! a simulation time.

use vstd::prelude::*;
use crate::error::ConfigError;
use crate::ieee::{double_ticks, ticks_from_bits};
use crate::ticks::{
    clamped_sum, distance, BASE_STEP, DEFAULT_TARGET_INTERVAL, GOOD_FRAME_TOLERANCE,
    TICKS_PER_SECOND,
};

verus! {

/// What the time source reports for one frame, in ticks.
#[derive(Clone, Copy, Debug, PartialEq, Eq)]
pub struct FrameDelta {
    /// Time elapsed since the previous frame.
    pub dt: u64,
    /// Time elapsed since the process started.
    pub elapsed_since_start: u64,
}

/// The ticks that a reading in seconds, given as the bit pattern of a double,
/// counts for in a frame delta: a reading that cannot be used counts as zero.
pub open spec fn reading_ticks(seconds_bits: u64) -> u64 {
    match double_ticks(seconds_bits, TICKS_PER_SECOND) {
        Some(ticks) => ticks,
        None => 0,
    }
}

impl FrameDelta {
    /// Takes over what the time source reports in seconds, each reading
    /// given as the bit pattern of a double. A reading below zero, an
    /// infinity and a NaN say nothing about elapsed time: each is replaced by
    /// zero, and `replaced` tells that this happened, so that the caller can
    /// warn.
    pub fn from_seconds_bits(dt_bits: u64, elapsed_bits: u64) -> (taken: (FrameDelta, bool))
        ensures
            taken.0.dt == reading_ticks(dt_bits),
            taken.0.elapsed_since_start == reading_ticks(elapsed_bits),
            taken.1 == (double_ticks(dt_bits, TICKS_PER_SECOND) is None || double_ticks(
                elapsed_bits,
                TICKS_PER_SECOND,
            ) is None),
    {
        let dt: Option<u64> = ticks_from_bits(dt_bits, TICKS_PER_SECOND);
        let elapsed: Option<u64> = ticks_from_bits(elapsed_bits, TICKS_PER_SECOND);
        let replaced: bool = dt.is_none() || elapsed.is_none();
        let delta = FrameDelta {
            dt: match dt {
                Some(ticks) => ticks,
                None => 0,
            },
            elapsed_since_start: match elapsed {
                Some(ticks) => ticks,
                None => 0,
            },
        };
        (delta, replaced)
    }
}

/// The state that one pacing entity owns. A strategy reads and writes only
/// the fields it needs.
#[derive(Clone, Copy, Debug, PartialEq, Eq)]
pub struct AccumulatorState {
    /// Time taken in but not yet turned into simulation time.
    pub accumulated: u64,
    /// The simulation time that drives the visible position.
    pub sim_time: u64,
    /// Number of healthy frames seen in a row.
    pub good_frame_streak: u32,
}

impl AccumulatorState {
    /// The state of a freshly spawned entity.
    pub open spec fn zero() -> AccumulatorState {
        AccumulatorState { accumulated: 0, sim_time: 0, good_frame_streak: 0 }
    }

    /// Creates the state of a freshly spawned entity: every field is zero.
    pub fn new() -> (state: AccumulatorState)
        ensures
            state == AccumulatorState::zero(),
    {
        AccumulatorState { accumulated: 0, sim_time: 0, good_frame_streak: 0 }
    }
}

/// Number of healthy frames in a row after which the frame rate counts as
/// locked again.
pub const LOCK_STREAK: u32 = 2;

/// The frame interval that the strategies aim at. It is never zero.
#[derive(Clone, Copy, Debug, PartialEq, Eq)]
pub struct PacingConfig {
    target_interval: u64,
}

impl PacingConfig {
    #[verifier::type_invariant]
    spec fn positive(self) -> bool {
        self.target_interval > 0
    }

    /// The target interval in ticks.
    pub closed spec fn interval(self) -> u64 {
        self.target_interval
    }

    /// Accepts every interval but zero, which no frame rate has.
    pub fn new(target_interval: u64) -> (made: Result<PacingConfig, ConfigError>)
        ensures
            target_interval == 0 ==> made == Err::<PacingConfig, ConfigError>(
                ConfigError::InvalidConfig,
            ),
            target_interval > 0 ==> made is Ok && made->Ok_0.interval() == target_interval,
    {
        if target_interval == 0 {
            Err(ConfigError::InvalidConfig)
        } else {
            Ok(PacingConfig { target_interval })
        }
    }

    /// Reads the target interval back.
    pub fn target_interval(&self) -> (ticks: u64)
        ensures
            ticks == self.interval(),
            ticks > 0,
    {
        proof {
            use_type_invariant(self);
        }
        self.target_interval
    }
}

impl Default for PacingConfig {
    /// The 60 Hz configuration.
    fn default() -> (made: PacingConfig)
        ensures
            made.interval() == DEFAULT_TARGET_INTERVAL,
    {
        PacingConfig { target_interval: DEFAULT_TARGET_INTERVAL }
    }
}

/// Where the catch-up strategy with hysteresis stands with the frame rate.
#[derive(Clone, Copy, Debug, PartialEq, Eq)]
pub enum SyncState {
    /// Nothing has been taken in yet.
    Unsynced,
    /// Frames have been taken in, and fewer than two healthy ones in a row
    /// were the last of them.
    Recovering,
    /// The last two frames or more were healthy: the rate is trusted.
    Locked,
}

impl AccumulatorState {
    /// Where an entity paced with hysteresis stands, read off its state.
    pub open spec fn sync(self) -> SyncState {
        if self.good_frame_streak >= LOCK_STREAK {
            SyncState::Locked
        } else if self == AccumulatorState::zero() {
            SyncState::Unsynced
        } else {
            SyncState::Recovering
        }
    }

    /// Tells where an entity paced with hysteresis stands.
    pub fn sync_state(&self) -> (sync: SyncState)
        ensures
            sync == self.sync(),
    {
        if self.good_frame_streak >= LOCK_STREAK {
            SyncState::Locked
        } else if self.accumulated == 0 && self.sim_time == 0 && self.good_frame_streak == 0 {
            SyncState::Unsynced
        } else {
            SyncState::Recovering
        }
    }
}

/// The six ways of turning frame deltas into a simulation time.
#[derive(Clone, Copy, Debug, PartialEq, Eq)]
pub enum PacingStrategy {
    /// Follow the time since the process started.
    StartupRelative,
    /// Sum up the deltas as reported.
    DeltaAccumulate,
    /// Add the target interval each frame.
    FixedStep,
    /// Snap to the target grid once two healthy frames were seen in a row.
    CatchUpHysteresis,
    /// Add one extra interval after a dropped frame.
    CatchUpSimple,
    /// Simulate between one and eight 240 Hz steps per frame.
    GoldenStep,
}

/// State after one frame of the strategy that follows the absolute clock.
pub open spec fn startup_relative_next(elapsed: u64, s: AccumulatorState) -> AccumulatorState {
    AccumulatorState { sim_time: elapsed, ..s }
}

/// The control case: the simulation time is the time since the process
/// started, read afresh each frame. Neither the frame's delta nor the rest of
/// the state plays a part.
pub fn startup_relative(elapsed_since_start: u64, state: &mut AccumulatorState) -> (sim_time: u64)
    ensures
        *final(state) == startup_relative_next(elapsed_since_start, *old(state)),
        sim_time == elapsed_since_start,
{
    state.sim_time = elapsed_since_start;
    elapsed_since_start
}

/// State after one frame of plain accumulation.
pub open spec fn delta_accumulate_next(dt: u64, s: AccumulatorState) -> AccumulatorState {
    let total = clamped_sum(s.accumulated as int, dt as int) as u64;
    AccumulatorState { accumulated: total, sim_time: total, ..s }
}

/// Integrates the reported delta as it comes: right in total, and as jumpy
/// as the frames are.
pub fn delta_accumulate(dt: u64, state: &mut AccumulatorState) -> (sim_time: u64)
    ensures
        *final(state) == delta_accumulate_next(dt, *old(state)),
        sim_time == final(state).sim_time,
{
    let total: u64 = state.accumulated.saturating_add(dt);
    state.accumulated = total;
    state.sim_time = total;
    total
}

/// State after one frame of the fixed-step strategy.
pub open spec fn fixed_step_next(target: u64, s: AccumulatorState) -> AccumulatorState {
    let total = clamped_sum(s.accumulated as int, target as int) as u64;
    AccumulatorState { accumulated: total, sim_time: total, ..s }
}

/// Adds the target interval whatever the frame took, so motion is evenly
/// spaced and drifts from the wall clock whenever the frame rate is off
/// target.
pub fn fixed_step(config: &PacingConfig, state: &mut AccumulatorState) -> (sim_time: u64)
    ensures
        *final(state) == fixed_step_next(config.interval(), *old(state)),
        sim_time == final(state).sim_time,
{
    let total: u64 = state.accumulated.saturating_add(config.target_interval());
    state.accumulated = total;
    state.sim_time = total;
    total
}

/// Whether a frame of length `dt` is healthy: within the tolerance of the
/// target interval.
pub open spec fn is_good_frame(target: u64, dt: u64) -> bool {
    distance(target as int, dt as int) < GOOD_FRAME_TOLERANCE
}

/// Number of whole target intervals that a drain takes out of `accumulated`:
/// one for each time the rest still exceeds the interval.
pub open spec fn drain_steps(accumulated: int, target: int) -> int {
    if target > 0 && accumulated > target {
        (accumulated - 1) / target
    } else {
        0
    }
}

/// State after one frame of the catch-up strategy with hysteresis.
pub open spec fn hysteresis_next(target: u64, dt: u64, s: AccumulatorState) -> AccumulatorState {
    let good = is_good_frame(target, dt);
    let streak: u32 = if !good {
        0
    } else if s.good_frame_streak == u32::MAX {
        u32::MAX
    } else {
        (s.good_frame_streak + 1) as u32
    };
    let locked = good && streak >= LOCK_STREAK;
    let taken_in = if locked {
        0
    } else {
        clamped_sum(s.accumulated as int, dt as int)
    };
    let snapped = if locked {
        clamped_sum(s.sim_time as int, target as int)
    } else {
        s.sim_time as int
    };
    let steps = drain_steps(taken_in, target as int);
    AccumulatorState {
        accumulated: (taken_in - steps * target) as u64,
        sim_time: clamped_sum(snapped, steps * target) as u64,
        good_frame_streak: streak,
    }
}

/// Tells whether a frame of length `dt` is healthy.
pub fn good_frame(target: u64, dt: u64) -> (good: bool)
    ensures
        good == is_good_frame(target, dt),
{
    let gap: u64 = if target >= dt {
        target - dt
    } else {
        dt - target
    };
    gap < GOOD_FRAME_TOLERANCE
}

/// Moves whole target intervals from `accumulated` to `sim_time` for as long
/// as more than one interval is left, and says how many it moved.
pub fn drain(config: &PacingConfig, state: &mut AccumulatorState) -> (steps: u64)
    ensures
        steps == drain_steps(old(state).accumulated as int, config.interval() as int),
        final(state).accumulated == old(state).accumulated - steps * config.interval(),
        final(state).sim_time == clamped_sum(
            old(state).sim_time as int,
            steps * config.interval(),
        ),
        final(state).good_frame_streak == old(state).good_frame_streak,
{
    let target: u64 = config.target_interval();
    if state.accumulated > target {
        let steps: u64 = (state.accumulated - 1) / target;
        proof {
            lemma_drain_bounds(state.accumulated as int, target as int);
        }
        let moved: u64 = steps * target;
        state.accumulated = state.accumulated - moved;
        state.sim_time = state.sim_time.saturating_add(moved);
        steps
    } else {
        0
    }
}

/// A drain never takes out more than there is, and leaves more than nothing
/// and no more than one interval.
pub proof fn lemma_drain_bounds(accumulated: int, target: int)
    requires
        target > 0,
        accumulated > target,
    ensures
        drain_steps(accumulated, target) >= 1,
        drain_steps(accumulated, target) * target < accumulated,
        accumulated - drain_steps(accumulated, target) * target <= target,
{
    let k = (accumulated - 1) / target;
    assert(k * target <= accumulated - 1 < k * target + target && k >= 1) by (nonlinear_arith)
        requires
            target > 0,
            accumulated > target,
            k == (accumulated - 1) / target,
    ;
}

/// The central strategy. A healthy frame lengthens the streak; from the
/// second one in a row on, the accumulator is dropped and the simulation
/// snaps forward by one target interval. Any other frame is taken into the
/// accumulator as it came, and an unhealthy one ends the streak. Whatever
/// exceeds one interval is then drained into the simulation time in whole
/// intervals.
pub fn catch_up_hysteresis(config: &PacingConfig, dt: u64, state: &mut AccumulatorState) -> (sim_time: u64)
    ensures
        *final(state) == hysteresis_next(config.interval(), dt, *old(state)),
        sim_time == final(state).sim_time,
{
    let target: u64 = config.target_interval();
    if good_frame(target, dt) {
        state.good_frame_streak = state.good_frame_streak.saturating_add(1);
        if state.good_frame_streak >= LOCK_STREAK {
            state.accumulated = 0;
            state.sim_time = state.sim_time.saturating_add(target);
        } else {
            state.accumulated = state.accumulated.saturating_add(dt);
        }
    } else {
        state.good_frame_streak = 0;
        state.accumulated = state.accumulated.saturating_add(dt);
    }
    drain(config, state);
    state.sim_time
}

/// Whether a frame took so long that one was dropped: more than 1.3 target
/// intervals.
pub open spec fn is_dropped_frame(target: u64, dt: u64) -> bool {
    10 * dt > 13 * target
}

/// State after one frame of the simple catch-up strategy.
pub open spec fn simple_next(target: u64, dt: u64, s: AccumulatorState) -> AccumulatorState {
    let extra: int = if is_dropped_frame(target, dt) {
        target as int
    } else {
        0
    };
    AccumulatorState {
        sim_time: clamped_sum(clamped_sum(s.sim_time as int, extra), target as int) as u64,
        ..s
    }
}

/// Tells whether a frame of length `dt` counts as dropped.
pub fn dropped_frame(target: u64, dt: u64) -> (dropped: bool)
    ensures
        dropped == is_dropped_frame(target, dt),
{
    let scaled_dt: u128 = 10 * (dt as u128);
    let scaled_target: u128 = 13 * (target as u128);
    scaled_dt > scaled_target
}

/// Advances by one target interval every frame, and by one more after a
/// dropped frame. It makes up for one missed step per detection and never
/// looks at the wall clock again; a frame of length zero still advances it.
pub fn catch_up_simple(config: &PacingConfig, dt: u64, state: &mut AccumulatorState) -> (sim_time: u64)
    ensures
        *final(state) == simple_next(config.interval(), dt, *old(state)),
        sim_time == final(state).sim_time,
{
    let target: u64 = config.target_interval();
    if dropped_frame(target, dt) {
        state.sim_time = state.sim_time.saturating_add(target);
    }
    state.sim_time = state.sim_time.saturating_add(target);
    state.sim_time
}

/// Fewest base steps that one frame simulates.
pub const MIN_SUBSTEPS: u64 = 1;

/// Most base steps that one frame simulates.
pub const MAX_SUBSTEPS: u64 = 8;

/// `dt` in base steps, rounded to the nearest whole number, a half upwards.
pub open spec fn nearest_step_count(dt: int) -> int {
    (2 * dt + BASE_STEP) / (2 * BASE_STEP)
}

/// Number of base steps simulated for a frame of length `dt`.
pub open spec fn substep_count(dt: u64) -> int {
    let nearest = nearest_step_count(dt as int);
    if nearest < MIN_SUBSTEPS {
        MIN_SUBSTEPS as int
    } else if nearest > MAX_SUBSTEPS {
        MAX_SUBSTEPS as int
    } else {
        nearest
    }
}

/// State after one frame of adaptive sub-stepping.
pub open spec fn golden_next(dt: u64, s: AccumulatorState) -> AccumulatorState {
    AccumulatorState {
        sim_time: clamped_sum(s.sim_time as int, substep_count(dt) * BASE_STEP) as u64,
        ..s
    }
}

/// Computes the number of base steps for a frame of length `dt`: the nearest
/// whole number of steps, but never fewer than one nor more than eight.
pub fn substeps(dt: u64) -> (count: u64)
    ensures
        count == substep_count(dt),
        MIN_SUBSTEPS <= count <= MAX_SUBSTEPS,
{
    let whole: u64 = dt / BASE_STEP;
    let rest: u64 = dt % BASE_STEP;
    let nearest: u64 = if rest >= BASE_STEP / 2 {
        whole + 1
    } else {
        whole
    };
    assert(nearest == nearest_step_count(dt as int)) by {
        lemma_nearest_step_count(dt as int, whole as int, rest as int);
    }
    if nearest < MIN_SUBSTEPS {
        MIN_SUBSTEPS
    } else if nearest > MAX_SUBSTEPS {
        MAX_SUBSTEPS
    } else {
        nearest
    }
}

/// Rounding to the nearest step, by quotient and remainder.
proof fn lemma_nearest_step_count(dt: int, whole: int, rest: int)
    requires
        dt == whole * BASE_STEP + rest,
        0 <= rest < BASE_STEP,
    ensures
        nearest_step_count(dt) == if 2 * rest >= BASE_STEP {
            whole + 1
        } else {
            whole
        },
{
    let doubled: int = 2 * BASE_STEP;
    let top: int = 2 * dt + BASE_STEP;
    let step: int = BASE_STEP as int;
    assert(top == whole * doubled + (2 * rest + step) && top == (whole + 1) * doubled + (2 * rest
        - step)) by (nonlinear_arith)
        requires
            dt == whole * step + rest,
            top == 2 * dt + step,
            doubled == 2 * step,
    ;
    if 2 * rest >= BASE_STEP {
        vstd::arithmetic::div_mod::lemma_fundamental_div_mod_converse(
            top,
            doubled,
            whole + 1,
            2 * rest - BASE_STEP,
        );
    } else {
        vstd::arithmetic::div_mod::lemma_fundamental_div_mod_converse(
            top,
            doubled,
            whole,
            2 * rest + BASE_STEP,
        );
    }
}

/// Adaptive sub-stepping at the 240 Hz base rate: the simulation advances by
/// between one and eight base steps, so it runs no slower than 30 Hz and no
/// faster than 240 Hz whatever the frame took.
pub fn golden_step(dt: u64, state: &mut AccumulatorState) -> (sim_time: u64)
    ensures
        *final(state) == golden_next(dt, *old(state)),
        sim_time == final(state).sim_time,
{
    let count: u64 = substeps(dt);
    state.sim_time = state.sim_time.saturating_add(count * BASE_STEP);
    state.sim_time
}

/// State of an entity paced by `strategy` after the frame `delta`.
pub open spec fn next_state(
    strategy: PacingStrategy,
    target: u64,
    delta: FrameDelta,
    s: AccumulatorState,
) -> AccumulatorState {
    match strategy {
        PacingStrategy::StartupRelative => startup_relative_next(delta.elapsed_since_start, s),
        PacingStrategy::DeltaAccumulate => delta_accumulate_next(delta.dt, s),
        PacingStrategy::FixedStep => fixed_step_next(target, s),
        PacingStrategy::CatchUpHysteresis => hysteresis_next(target, delta.dt, s),
        PacingStrategy::CatchUpSimple => simple_next(target, delta.dt, s),
        PacingStrategy::GoldenStep => golden_next(delta.dt, s),
    }
}

/// Runs one frame of `strategy` on the entity's own state and returns the
/// new simulation time.
pub fn advance(
    strategy: PacingStrategy,
    config: &PacingConfig,
    delta: FrameDelta,
    state: &mut AccumulatorState,
) -> (sim_time: u64)
    ensures
        *final(state) == next_state(strategy, config.interval(), delta, *old(state)),
        sim_time == final(state).sim_time,
{
    match strategy {
        PacingStrategy::StartupRelative => startup_relative(delta.elapsed_since_start, state),
        PacingStrategy::DeltaAccumulate => delta_accumulate(delta.dt, state),
        PacingStrategy::FixedStep => fixed_step(config, state),
        PacingStrategy::CatchUpHysteresis => catch_up_hysteresis(config, delta.dt, state),
        PacingStrategy::CatchUpSimple => catch_up_simple(config, delta.dt, state),
        PacingStrategy::GoldenStep => golden_step(delta.dt, state),
    }
}

/// State of an entity paced by `strategy` after the frames `deltas`, the
/// first of them first.
pub open spec fn run(
    strategy: PacingStrategy,
    target: u64,
    deltas: Seq<FrameDelta>,
    start: AccumulatorState,
) -> AccumulatorState
    decreases deltas.len(),
{
    if deltas.len() == 0 {
        start
    } else {
        next_state(strategy, target, deltas.last(), run(strategy, target, deltas.drop_last(), start))
    }
}

/// Runs `strategy` over a recorded series of frames, in order, and returns
/// the simulation time that the series ends at.
pub fn replay(
    strategy: PacingStrategy,
    config: &PacingConfig,
    deltas: &Vec<FrameDelta>,
    state: &mut AccumulatorState,
) -> (sim_time: u64)
    ensures
        *final(state) == run(strategy, config.interval(), deltas@, *old(state)),
        sim_time == final(state).sim_time,
{
    let ghost start = *state;
    let mut done: usize = 0;
    while done < deltas.len()
        invariant
            done <= deltas.len(),
            *state == run(strategy, config.interval(), deltas@.take(done as int), start),
        decreases deltas.len() - done,
    {
        advance(strategy, config, deltas[done], state);
        done = done + 1;
        proof {
            let seen = deltas@.take(done as int);
            assert(seen.drop_last() =~= deltas@.take(done - 1));
            assert(seen.last() == deltas@[done - 1]);
        }
    }
    proof {
        assert(deltas@.take(done as int) =~= deltas@);
    }
    state.sim_time
}

} // verus!
