//! What holds of the pacing strategies over whole series of frames.

use vstd::prelude::*;
use crate::pacing::{
    drain_steps, golden_next, hysteresis_next, is_good_frame, lemma_drain_bounds, run,
    simple_next, startup_relative_next, substep_count, AccumulatorState, FrameDelta,
    PacingStrategy, SyncState, LOCK_STREAK, MAX_SUBSTEPS, MIN_SUBSTEPS,
};
use crate::ticks::{clamped_sum, BASE_STEP};

verus! {

/// Sum of the deltas of a series of frames.
pub open spec fn total_dt(deltas: Seq<FrameDelta>) -> int
    decreases deltas.len(),
{
    if deltas.len() == 0 {
        0
    } else {
        total_dt(deltas.drop_last()) + deltas.last().dt
    }
}

/// Whether every frame of the series is healthy.
pub open spec fn all_healthy(target: u64, deltas: Seq<FrameDelta>) -> bool {
    forall|i: int| 0 <= i < deltas.len() ==> is_good_frame(target, #[trigger] deltas[i].dt)
}

/// Whether every frame of the series took no time.
pub open spec fn all_instant(deltas: Seq<FrameDelta>) -> bool {
    forall|i: int| 0 <= i < deltas.len() ==> (#[trigger] deltas[i]).dt == 0
}

/// Whether every frame of the series reports `elapsed` as the time since the
/// start.
pub open spec fn all_at(deltas: Seq<FrameDelta>, elapsed: u64) -> bool {
    forall|i: int| 0 <= i < deltas.len() ==> (#[trigger] deltas[i]).elapsed_since_start == elapsed
}

/// Fixed step counts frames and nothing else: after `n` frames, whatever
/// their deltas, the accumulator has grown by `n` target intervals (held at
/// the largest tick count), and the simulation time equals it.
pub proof fn lemma_fixed_step_counts_frames(
    target: u64,
    deltas: Seq<FrameDelta>,
    start: AccumulatorState,
)
    ensures
        run(PacingStrategy::FixedStep, target, deltas, start).accumulated == clamped_sum(
            start.accumulated as int,
            deltas.len() * target,
        ),
        deltas.len() > 0 ==> run(PacingStrategy::FixedStep, target, deltas, start).sim_time
            == clamped_sum(start.accumulated as int, deltas.len() * target),
        run(PacingStrategy::FixedStep, target, deltas, start).good_frame_streak
            == start.good_frame_streak,
    decreases deltas.len(),
{
    if deltas.len() > 0 {
        let before = deltas.drop_last();
        lemma_fixed_step_counts_frames(target, before, start);
        assert(deltas.len() * target == before.len() * target + target) by (nonlinear_arith)
            requires
                deltas.len() == before.len() + 1,
        ;
        assert(before.len() * target >= 0) by (nonlinear_arith);
    }
}

/// From the fresh state, the simulation time of fixed step after `n` frames
/// is exactly `n` target intervals, whatever the frames took.
pub proof fn lemma_fixed_step_from_fresh(target: u64, deltas: Seq<FrameDelta>)
    ensures
        run(PacingStrategy::FixedStep, target, deltas, AccumulatorState::zero()).sim_time
            == clamped_sum(0, deltas.len() * target),
{
    lemma_fixed_step_counts_frames(target, deltas, AccumulatorState::zero());
    if deltas.len() == 0 {
        assert(deltas.len() * target == 0) by (nonlinear_arith)
            requires
                deltas.len() == 0,
        ;
    }
}

/// The sum of a series of deltas is never negative.
pub proof fn lemma_total_dt_nonnegative(deltas: Seq<FrameDelta>)
    ensures
        total_dt(deltas) >= 0,
    decreases deltas.len(),
{
    if deltas.len() > 0 {
        lemma_total_dt_nonnegative(deltas.drop_last());
    }
}

/// Plain accumulation sums the deltas: after any series of frames the
/// accumulator has grown by exactly their sum (held at the largest tick
/// count), and the simulation time equals it.
pub proof fn lemma_delta_accumulate_sums(
    target: u64,
    deltas: Seq<FrameDelta>,
    start: AccumulatorState,
)
    ensures
        run(PacingStrategy::DeltaAccumulate, target, deltas, start).accumulated == clamped_sum(
            start.accumulated as int,
            total_dt(deltas),
        ),
        deltas.len() > 0 ==> run(PacingStrategy::DeltaAccumulate, target, deltas, start).sim_time
            == clamped_sum(start.accumulated as int, total_dt(deltas)),
        run(PacingStrategy::DeltaAccumulate, target, deltas, start).good_frame_streak
            == start.good_frame_streak,
    decreases deltas.len(),
{
    if deltas.len() > 0 {
        let before = deltas.drop_last();
        lemma_delta_accumulate_sums(target, before, start);
        lemma_total_dt_nonnegative(before);
    }
}

/// From the fresh state, the simulation time of plain accumulation is the
/// sum of the deltas supplied.
pub proof fn lemma_delta_accumulate_from_fresh(target: u64, deltas: Seq<FrameDelta>)
    ensures
        run(PacingStrategy::DeltaAccumulate, target, deltas, AccumulatorState::zero()).sim_time
            == clamped_sum(0, total_dt(deltas)),
{
    lemma_delta_accumulate_sums(target, deltas, AccumulatorState::zero());
}

/// The drain as it is carried out step by step: while more than one target
/// interval is left in the accumulator, one interval moves over into the
/// simulation time. The result is what is left and the new simulation time.
pub open spec fn drain_stepwise(accumulated: int, sim_time: int, target: int) -> (int, int)
    decreases accumulated,
{
    if target > 0 && accumulated > target {
        drain_stepwise(accumulated - target, clamped_sum(sim_time, target), target)
    } else {
        (accumulated, sim_time)
    }
}

/// Draining step by step moves exactly `drain_steps` intervals: the count
/// that the strategies compute at once is the number of steps of the loop.
pub proof fn lemma_drain_is_stepwise(accumulated: int, sim_time: int, target: int)
    requires
        target > 0,
        0 <= accumulated,
        0 <= sim_time <= u64::MAX,
    ensures
        drain_stepwise(accumulated, sim_time, target) == (
            accumulated - drain_steps(accumulated, target) * target,
            clamped_sum(sim_time, drain_steps(accumulated, target) * target),
        ),
    decreases accumulated,
{
    let steps = drain_steps(accumulated, target);
    if accumulated > target {
        let rest = accumulated - target;
        let later = drain_steps(rest, target);
        lemma_drain_is_stepwise(rest, clamped_sum(sim_time, target), target);
        lemma_drain_bounds(accumulated, target);
        if rest > target {
            lemma_drain_bounds(rest, target);
            let over = (rest - 1) % target;
            assert(rest - 1 == later * target + over && 0 <= over < target && (later + 1) * target
                == later * target + target) by (nonlinear_arith)
                requires
                    target > 0,
                    later == (rest - 1) / target,
                    over == (rest - 1) % target,
            ;
            vstd::arithmetic::div_mod::lemma_fundamental_div_mod_converse(
                accumulated - 1,
                target,
                later + 1,
                (rest - 1) % target,
            );
        } else {
            vstd::arithmetic::div_mod::lemma_fundamental_div_mod_converse(
                accumulated - 1,
                target,
                1,
                rest - 1,
            );
        }
        assert(steps == later + 1);
        assert(steps * target == later * target + target) by (nonlinear_arith)
            requires
                steps == later + 1,
        ;
        assert(later * target >= 0) by (nonlinear_arith)
            requires
                later >= 0,
                target > 0,
        ;
    } else {
        assert(steps * target == 0) by (nonlinear_arith)
            requires
                steps == 0,
        ;
    }
}

/// A frame that takes exactly the target interval is healthy.
pub proof fn lemma_on_target_is_healthy(target: u64)
    ensures
        is_good_frame(target, target),
{
}

/// A healthy frame that is at least the second in a row snaps: the
/// accumulator is dropped and the simulation moves on by one target interval.
pub proof fn lemma_locked_frame_snaps(target: u64, dt: u64, s: AccumulatorState)
    requires
        target > 0,
        is_good_frame(target, dt),
        s.good_frame_streak >= 1,
    ensures
        hysteresis_next(target, dt, s).good_frame_streak >= LOCK_STREAK,
        hysteresis_next(target, dt, s).accumulated == 0,
        hysteresis_next(target, dt, s).sim_time == clamped_sum(s.sim_time as int, target as int),
{
    assert(0 * target == 0) by (nonlinear_arith);
}

/// Two or more healthy frames in a row lock the rate, from any state: the
/// streak is at least two and nothing is left in the accumulator.
pub proof fn lemma_healthy_frames_lock(
    target: u64,
    deltas: Seq<FrameDelta>,
    start: AccumulatorState,
)
    requires
        target > 0,
        deltas.len() >= 2,
        all_healthy(target, deltas),
    ensures
        run(PacingStrategy::CatchUpHysteresis, target, deltas, start).good_frame_streak
            >= LOCK_STREAK,
        run(PacingStrategy::CatchUpHysteresis, target, deltas, start).accumulated == 0,
    decreases deltas.len(),
{
    let before = deltas.drop_last();
    let earlier = run(PacingStrategy::CatchUpHysteresis, target, before, start);
    assert(is_good_frame(target, deltas[deltas.len() - 1].dt));
    if deltas.len() == 2 {
        let first = before.drop_last();
        assert(first.len() == 0);
        assert(run(PacingStrategy::CatchUpHysteresis, target, first, start) == start);
        assert(before.last() == deltas[0]);
        assert(is_good_frame(target, deltas[0].dt));
        assert(earlier == hysteresis_next(target, deltas[0].dt, start));
        assert(earlier.good_frame_streak >= 1);
    } else {
        assert(all_healthy(target, before)) by {
            assert forall|i: int| 0 <= i < before.len() implies is_good_frame(
                target,
                #[trigger] before[i].dt,
            ) by {
                assert(before[i] == deltas[i]);
            }
        }
        lemma_healthy_frames_lock(target, before, start);
    }
    lemma_locked_frame_snaps(target, deltas.last().dt, earlier);
}

/// A frame that is not healthy ends the streak, and its whole delta goes
/// into the accumulator, from which only whole target intervals move on into
/// the simulation time.
pub proof fn lemma_anomaly_unlocks(target: u64, dt: u64, s: AccumulatorState)
    requires
        target > 0,
        !is_good_frame(target, dt),
    ensures
        hysteresis_next(target, dt, s).good_frame_streak == 0,
        hysteresis_next(target, dt, s).accumulated + drain_steps(
            clamped_sum(s.accumulated as int, dt as int),
            target as int,
        ) * target == clamped_sum(s.accumulated as int, dt as int),
        hysteresis_next(target, dt, s).sim_time == clamped_sum(
            s.sim_time as int,
            drain_steps(clamped_sum(s.accumulated as int, dt as int), target as int) * target,
        ),
        hysteresis_next(target, dt, s).accumulated <= target || hysteresis_next(
            target,
            dt,
            s,
        ).accumulated == clamped_sum(s.accumulated as int, dt as int),
{
    let taken_in = clamped_sum(s.accumulated as int, dt as int);
    if taken_in > target {
        lemma_drain_bounds(taken_in, target as int);
    } else {
        assert(0 * target == 0) by (nonlinear_arith);
    }
}

/// The walk through the three states. A frame that is not healthy leaves
/// the entity recovering, whatever it was before; only a frame of no length
/// on an entity that has taken nothing in yet leaves it unsynced. A healthy
/// frame locks if the one before was healthy too, keeps a locked entity
/// locked, and otherwise leaves the entity recovering.
pub proof fn lemma_sync_transitions(target: u64, dt: u64, s: AccumulatorState)
    requires
        target > 0,
    ensures
        !is_good_frame(target, dt) ==> hysteresis_next(target, dt, s).sync() != SyncState::Locked,
        !is_good_frame(target, dt) && (dt > 0 || s.accumulated > 0 || s.sim_time > 0)
            ==> hysteresis_next(target, dt, s).sync() == SyncState::Recovering,
        is_good_frame(target, dt) && s.good_frame_streak >= 1 ==> hysteresis_next(
            target,
            dt,
            s,
        ).sync() == SyncState::Locked,
        is_good_frame(target, dt) && s.sync() == SyncState::Locked ==> hysteresis_next(
            target,
            dt,
            s,
        ).sync() == SyncState::Locked,
        is_good_frame(target, dt) && s.good_frame_streak == 0 ==> hysteresis_next(
            target,
            dt,
            s,
        ).sync() == SyncState::Recovering,
{
    if is_good_frame(target, dt) {
        if s.good_frame_streak >= 1 {
            lemma_locked_frame_snaps(target, dt, s);
        }
    } else {
        lemma_anomaly_unlocks(target, dt, s);
        let taken_in = clamped_sum(s.accumulated as int, dt as int);
        let steps = drain_steps(taken_in, target as int);
        if taken_in > target {
            lemma_drain_bounds(taken_in, target as int);
            assert(steps * target >= target) by (nonlinear_arith)
                requires
                    steps >= 1,
                    target > 0,
            ;
        }
    }
}

/// After a frame that is not healthy, one healthy frame is not enough to
/// lock again: it is taken into the accumulator like any other, and the
/// streak stands at one. The healthy frame after that one locks.
pub proof fn lemma_relock_takes_two(
    target: u64,
    anomaly: u64,
    first: u64,
    second: u64,
    s: AccumulatorState,
)
    requires
        target > 0,
        !is_good_frame(target, anomaly),
        is_good_frame(target, first),
        is_good_frame(target, second),
    ensures
        ({
            let upset = hysteresis_next(target, anomaly, s);
            let recovering = hysteresis_next(target, first, upset);
            let locked = hysteresis_next(target, second, recovering);
            &&& upset.good_frame_streak == 0
            &&& recovering.good_frame_streak == 1
            &&& recovering.accumulated + drain_steps(
                clamped_sum(upset.accumulated as int, first as int),
                target as int,
            ) * target == clamped_sum(upset.accumulated as int, first as int)
            &&& recovering.accumulated > 0 || first == 0
            &&& locked.good_frame_streak == LOCK_STREAK
            &&& locked.accumulated == 0
            &&& locked.sim_time == clamped_sum(recovering.sim_time as int, target as int)
        }),
{
    let upset = hysteresis_next(target, anomaly, s);
    lemma_anomaly_unlocks(target, anomaly, s);
    let taken_in = clamped_sum(upset.accumulated as int, first as int);
    if taken_in > target {
        lemma_drain_bounds(taken_in, target as int);
    } else {
        assert(0 * target == 0) by (nonlinear_arith);
    }
    let recovering = hysteresis_next(target, first, upset);
    lemma_locked_frame_snaps(target, second, recovering);
}

/// Frames that take no time leave plain accumulation where it is: the
/// accumulator keeps its value, and the simulation time is that value after
/// every one of them.
pub proof fn lemma_delta_accumulate_idle(
    target: u64,
    deltas: Seq<FrameDelta>,
    start: AccumulatorState,
)
    requires
        all_instant(deltas),
    ensures
        run(PacingStrategy::DeltaAccumulate, target, deltas, start).accumulated
            == start.accumulated,
        deltas.len() > 0 ==> run(PacingStrategy::DeltaAccumulate, target, deltas, start).sim_time
            == start.accumulated,
        start.sim_time == start.accumulated ==> run(
            PacingStrategy::DeltaAccumulate,
            target,
            deltas,
            start,
        ) == start,
    decreases deltas.len(),
{
    if deltas.len() > 0 {
        let before = deltas.drop_last();
        assert(all_instant(before)) by {
            assert forall|i: int| 0 <= i < before.len() implies (#[trigger] before[i]).dt == 0 by {
                assert(before[i] == deltas[i]);
            }
        }
        lemma_delta_accumulate_idle(target, before, start);
        assert(deltas.last() == deltas[deltas.len() - 1]);
    }
}

/// While the clock stands still, the strategy that follows it stands still
/// too: over frames that all report the same time since the start, the
/// simulation time is that time after every one of them, and the rest of the
/// state is untouched.
pub proof fn lemma_startup_relative_idle(
    target: u64,
    deltas: Seq<FrameDelta>,
    elapsed: u64,
    start: AccumulatorState,
)
    requires
        all_at(deltas, elapsed),
    ensures
        deltas.len() > 0 ==> run(PacingStrategy::StartupRelative, target, deltas, start)
            == (AccumulatorState { sim_time: elapsed, ..start }),
        start.sim_time == elapsed ==> run(PacingStrategy::StartupRelative, target, deltas, start)
            == start,
    decreases deltas.len(),
{
    if deltas.len() > 0 {
        let before = deltas.drop_last();
        assert(all_at(before, elapsed)) by {
            assert forall|i: int| 0 <= i < before.len() implies (
            #[trigger] before[i]).elapsed_since_start == elapsed by {
                assert(before[i] == deltas[i]);
            }
        }
        lemma_startup_relative_idle(target, before, elapsed, start);
        let earlier = run(PacingStrategy::StartupRelative, target, before, start);
        assert(deltas[deltas.len() - 1].elapsed_since_start == elapsed);
        assert(run(PacingStrategy::StartupRelative, target, deltas, start)
            == startup_relative_next(elapsed, earlier));
        if before.len() == 0 {
            assert(earlier == start);
        }
    }
}

/// Simple catch-up is not idle on a frame that takes no time: it still moves
/// on by one target interval, and by no more.
pub proof fn lemma_simple_never_idle(target: u64, s: AccumulatorState)
    requires
        target > 0,
    ensures
        simple_next(target, 0, s).sim_time == clamped_sum(s.sim_time as int, target as int),
        s.sim_time < u64::MAX ==> simple_next(target, 0, s).sim_time > s.sim_time,
{
}

/// Adaptive sub-stepping moves the simulation on by a whole number of base
/// steps between one and eight, whatever the frame took.
pub proof fn lemma_golden_step_bounded(dt: u64, s: AccumulatorState)
    ensures
        MIN_SUBSTEPS <= substep_count(dt) <= MAX_SUBSTEPS,
        golden_next(dt, s).sim_time == clamped_sum(
            s.sim_time as int,
            substep_count(dt) * BASE_STEP,
        ),
        golden_next(dt, s).sim_time >= s.sim_time,
        golden_next(dt, s).sim_time - s.sim_time <= MAX_SUBSTEPS * BASE_STEP,
{
}

} // verus!
