use bevy_stutter::error::ConfigError;
use bevy_stutter::stall::Stall;
use bevy_stutter::stutter::{
    maybe_stall, maybe_stall_on_thread, render_stutter, update_stutter, RenderStutter, Stutter,
    UpdateStutter, DEFAULT_PROBABILITY, DEFAULT_STALL_MILLIS, MAX_STALL_MILLIS, PROBABILITY_ONE,
};
use bevy_stutter::ticks::TICKS_PER_MILLI;

#[test]
fn the_default_stalls_16_ms_in_one_of_fifty() {
    let stutter = Stutter::default();
    assert_eq!(stutter.probability(), DEFAULT_PROBABILITY);
    assert_eq!(stutter.millis(), DEFAULT_STALL_MILLIS);
    assert_eq!(stutter.millis(), 16);
    assert_eq!(Ok(stutter), Stutter::from_bits(0.02f32.to_bits(), 16));
    assert_eq!(RenderStutter::default().0, stutter);
    assert_eq!(UpdateStutter::default().0, stutter);
}

#[test]
fn a_configuration_keeps_what_it_was_built_with() {
    let stutter = Stutter::new(12_345, 32).unwrap();
    assert_eq!(stutter.probability(), 12_345);
    assert_eq!(stutter.millis(), 32);
    assert_eq!(stutter.stall_ticks(), 32 * 240_000);
    let longest = Stutter::new(PROBABILITY_ONE, MAX_STALL_MILLIS).unwrap();
    assert_eq!(longest.stall_ticks(), MAX_STALL_MILLIS * TICKS_PER_MILLI);
    assert_eq!(MAX_STALL_MILLIS, u64::MAX / TICKS_PER_MILLI);
}

#[test]
fn a_probability_above_one_is_invalid() {
    assert_eq!(Stutter::new(PROBABILITY_ONE + 1, 16), Err(ConfigError::InvalidConfig));
    assert_eq!(Stutter::new(u32::MAX, 0), Err(ConfigError::InvalidConfig));
    assert_eq!(Stutter::from_bits(1.5f32.to_bits(), 16), Err(ConfigError::InvalidConfig));
    assert_eq!(Stutter::from_bits((-0.1f32).to_bits(), 16), Err(ConfigError::InvalidConfig));
    assert_eq!(Stutter::from_bits(f32::NAN.to_bits(), 16), Err(ConfigError::InvalidConfig));
}

#[test]
fn a_stall_too_long_for_the_clock_is_invalid() {
    assert_eq!(Stutter::new(0, MAX_STALL_MILLIS + 1), Err(ConfigError::InvalidConfig));
    assert_eq!(Stutter::new(0, u64::MAX), Err(ConfigError::InvalidConfig));
    assert_eq!(Stutter::from_bits(0.5f32.to_bits(), u64::MAX), Err(ConfigError::InvalidConfig));
}

#[test]
fn the_draw_decides() {
    let stutter = Stutter::new(100, 16).unwrap();
    assert_eq!(stutter.decide(0), Some(16));
    assert_eq!(stutter.decide(99), Some(16));
    assert_eq!(stutter.decide(100), None);
    assert_eq!(stutter.decide(PROBABILITY_ONE - 1), None);
    let never = Stutter::new(0, 16).unwrap();
    assert_eq!(never.decide(0), None);
    let always = Stutter::new(PROBABILITY_ONE, 7).unwrap();
    assert_eq!(always.decide(PROBABILITY_ONE - 1), Some(7));
}

#[test]
fn probability_zero_never_stalls() {
    let never = Stutter::from_bits(0.0f32.to_bits(), 16).unwrap();
    let rng = fastrand::Rng::with_seed(1);
    for _ in 0..100_000 {
        assert_eq!(maybe_stall(&never, &rng), None);
        assert_eq!(maybe_stall_on_thread(&never), None);
    }
}

#[test]
fn probability_one_always_stalls_for_the_configured_time() {
    let always = Stutter::from_bits(1.0f32.to_bits(), 23).unwrap();
    let rng = fastrand::Rng::with_seed(2);
    for _ in 0..100_000 {
        assert_eq!(maybe_stall(&always, &rng), Some(23));
        assert_eq!(maybe_stall_on_thread(&always), Some(23));
    }
}

#[test]
fn the_stall_rate_approaches_the_probability() {
    let quarter = Stutter::from_bits(0.25f32.to_bits(), 16).unwrap();
    let rng = fastrand::Rng::with_seed(3);
    let trials: u32 = 400_000;
    let mut seeded: u32 = 0;
    let mut on_thread: u32 = 0;
    for _ in 0..trials {
        if maybe_stall(&quarter, &rng).is_some() {
            seeded += 1;
        }
        if maybe_stall_on_thread(&quarter).is_some() {
            on_thread += 1;
        }
    }
    let rate = seeded as f64 / trials as f64;
    assert!((rate - 0.25).abs() < 0.01, "seeded rate {}", rate);
    let rate = on_thread as f64 / trials as f64;
    assert!((rate - 0.25).abs() < 0.01, "thread rate {}", rate);
}

#[test]
fn a_seed_fixes_the_sequence_of_stalls() {
    let stutter = Stutter::from_bits(0.5f32.to_bits(), 16).unwrap();
    let first = fastrand::Rng::with_seed(42);
    let second = fastrand::Rng::with_seed(42);
    let mut stalls: u32 = 0;
    for _ in 0..1_000 {
        let a = maybe_stall(&stutter, &first);
        let b = maybe_stall(&stutter, &second);
        assert_eq!(a, b);
        if a.is_some() {
            stalls += 1;
        }
    }
    assert!(stalls > 0 && stalls < 1_000);
}

#[test]
fn the_injector_stalls_exactly_when_a_float_draw_is_below_the_probability() {
    let probabilities: [f32; 5] = [0.00004, 0.02, 0.04, 0.5, 0.9];
    for p in probabilities {
        let stutter = Stutter::from_bits(p.to_bits(), 16).unwrap();
        let ours = fastrand::Rng::with_seed(7);
        let theirs = fastrand::Rng::with_seed(7);
        for _ in 0..50_000 {
            let stalled = maybe_stall(&stutter, &ours).is_some();
            assert_eq!(stalled, theirs.f32() < p);
        }
    }
}

#[test]
fn the_thread_generator_can_be_seeded() {
    let stutter = Stutter::from_bits(0.5f32.to_bits(), 16).unwrap();
    fastrand::seed(99);
    let first: Vec<Option<u64>> = (0..64).map(|_| maybe_stall_on_thread(&stutter)).collect();
    fastrand::seed(99);
    let second: Vec<Option<u64>> = (0..64).map(|_| maybe_stall_on_thread(&stutter)).collect();
    assert_eq!(first, second);
    assert!(first.contains(&None) && first.contains(&Some(16)));
}

#[test]
fn each_attached_stutter_is_invoked_once() {
    let never = Stutter::new(0, 5).unwrap();
    let always = Stutter::new(PROBABILITY_ONE, 9).unwrap();
    let updates = vec![UpdateStutter(never), UpdateStutter(always), UpdateStutter(never)];
    assert_eq!(update_stutter(&updates), vec![None, Some(9), None]);
    let renders = vec![RenderStutter(always), RenderStutter(never)];
    assert_eq!(render_stutter(&renders), vec![Some(9), None]);
    assert_eq!(update_stutter(&Vec::new()), Vec::new());
    assert_eq!(render_stutter(&Vec::new()), Vec::new());
}

#[test]
fn stages_without_a_stutter_attached_never_stall() {
    for _ in 0..100 {
        assert!(update_stutter(&Vec::new()).is_empty());
        assert!(render_stutter(&Vec::new()).is_empty());
    }
}

#[test]
fn attached_stutters_stall_at_about_their_rate() {
    let half = Stutter::from_bits(0.5f32.to_bits(), 3).unwrap();
    let updates = vec![UpdateStutter(half); 1_000];
    let mut stalls: usize = 0;
    for _ in 0..100 {
        let asked = update_stutter(&updates);
        assert_eq!(asked.len(), 1_000);
        for stall in asked {
            assert!(stall.is_none() || stall == Some(3));
            if stall.is_some() {
                stalls += 1;
            }
        }
    }
    assert!(stalls > 45_000 && stalls < 55_000, "stalls {}", stalls);
}

#[test]
fn a_stall_holds_for_exactly_its_length() {
    let stutter = Stutter::new(PROBABILITY_ONE, 16).unwrap();
    let stall = Stall::begin(&stutter, 1_000);
    assert_eq!(stall, Stall { started: 1_000, length: 3_840_000 });
    assert!(stall.busy(1_000));
    assert!(stall.busy(1_000 + 3_839_999));
    assert!(!stall.busy(1_000 + 3_840_000));
    assert!(!stall.busy(u64::MAX));
}

#[test]
fn a_clock_that_goes_back_holds_the_stage() {
    let stall = Stall { started: 500, length: 0 };
    assert!(stall.busy(499));
    assert!(stall.busy(0));
    assert!(!stall.busy(500));
    let stutter = Stutter::new(0, 0).unwrap();
    let none = Stall::begin(&stutter, 8);
    assert!(!none.busy(8));
    assert!(!none.busy(9));
}

#[test]
fn the_longest_stall_does_not_overflow() {
    let stutter = Stutter::new(0, MAX_STALL_MILLIS).unwrap();
    let stall = Stall::begin(&stutter, u64::MAX);
    assert_eq!(stall.length, MAX_STALL_MILLIS * TICKS_PER_MILLI);
    assert!(!stall.busy(u64::MAX) || stall.length > 0);
    assert!(stall.busy(u64::MAX));
    let early = Stall::begin(&stutter, 0);
    assert!(early.busy(stall.length - 1));
    assert!(!early.busy(stall.length));
}
