//! The stutter injector: with a set probability it makes a pipeline stage
//! stall for a set time.

use vstd::prelude::*;
use vstd::arithmetic::power2::lemma2_to64;
use vstd::set_lib::{lemma_int_range, set_int_range};
use crate::error::ConfigError;
use crate::ieee::{
    chance_from_bits, divided_up, single_chance, single_down, single_exponent, single_fraction,
};
use crate::ticks::TICKS_PER_MILLI;

verus! {

/// The probability one, and the number of values a draw can take: a draw is
/// uniform on `0..PROBABILITY_ONE`, and a probability is a count of those
/// values.
pub const PROBABILITY_ONE: u32 = 8_388_608;

/// The longest stall, in milliseconds, whose length in ticks is still a
/// tick count.
pub const MAX_STALL_MILLIS: u64 = 76_861_433_640_456;

/// The probability of the default configuration: the smallest count that a
/// draw stays under as often as it stays under 0.02 in single precision.
pub const DEFAULT_PROBABILITY: u32 = 167_773;

/// The stall of the default configuration, in milliseconds.
pub const DEFAULT_STALL_MILLIS: u64 = 16;

/// How often and for how long one pipeline stage stalls.
#[derive(Clone, Copy, Debug, PartialEq, Eq)]
pub struct Stutter {
    probability: u32,
    millis: u64,
}

impl Stutter {
    #[verifier::type_invariant]
    spec fn in_range(self) -> bool {
        self.probability <= PROBABILITY_ONE && self.millis <= MAX_STALL_MILLIS
    }

    /// Number of the `PROBABILITY_ONE` equally likely draws on which the
    /// stage stalls.
    pub closed spec fn chance(self) -> u32 {
        self.probability
    }

    /// Length of a stall in milliseconds.
    pub closed spec fn stall_millis(self) -> u64 {
        self.millis
    }

    /// What one invocation does on the draw `draw`: it stalls for the
    /// configured time if the draw is below the chance, else not at all.
    pub open spec fn outcome(self, draw: u32) -> Option<u64> {
        if draw < self.chance() {
            Some(self.stall_millis())
        } else {
            None
        }
    }

    /// Builds a configuration. It is refused if the probability is above one
    /// or the stall too long to be counted in ticks.
    pub fn new(probability: u32, millis: u64) -> (made: Result<Stutter, ConfigError>)
        ensures
            probability > PROBABILITY_ONE || millis > MAX_STALL_MILLIS ==> made == Err::<
                Stutter,
                ConfigError,
            >(ConfigError::InvalidConfig),
            probability <= PROBABILITY_ONE && millis <= MAX_STALL_MILLIS ==> made is Ok
                && made->Ok_0.chance() == probability && made->Ok_0.stall_millis() == millis,
    {
        if probability > PROBABILITY_ONE || millis > MAX_STALL_MILLIS {
            Err(ConfigError::InvalidConfig)
        } else {
            Ok(Stutter { probability, millis })
        }
    }

    /// Builds a configuration from a probability given as the bit pattern of
    /// a single. It is refused if the pattern is no number from zero to one,
    /// or the stall too long to be counted in ticks.
    pub fn from_bits(probability_bits: u32, millis: u64) -> (made: Result<Stutter, ConfigError>)
        ensures
            single_chance(probability_bits) is None || millis > MAX_STALL_MILLIS ==> made == Err::<
                Stutter,
                ConfigError,
            >(ConfigError::InvalidConfig),
            single_chance(probability_bits) is Some && millis <= MAX_STALL_MILLIS ==> made is Ok
                && made->Ok_0.chance() == single_chance(probability_bits)->Some_0
                && made->Ok_0.stall_millis() == millis,
    {
        match chance_from_bits(probability_bits) {
            Some(probability) => Stutter::new(probability, millis),
            None => Err(ConfigError::InvalidConfig),
        }
    }

    /// Reads the probability back, as a count of draws.
    pub fn probability(&self) -> (count: u32)
        ensures
            count == self.chance(),
            count <= PROBABILITY_ONE,
    {
        proof {
            use_type_invariant(self);
        }
        self.probability
    }

    /// Reads the length of a stall back, in milliseconds.
    pub fn millis(&self) -> (millis: u64)
        ensures
            millis == self.stall_millis(),
            millis <= MAX_STALL_MILLIS,
    {
        proof {
            use_type_invariant(self);
        }
        self.millis
    }

    /// Length of a stall in ticks.
    pub fn stall_ticks(&self) -> (ticks: u64)
        ensures
            ticks == self.stall_millis() * TICKS_PER_MILLI,
    {
        proof {
            use_type_invariant(self);
        }
        self.millis * TICKS_PER_MILLI
    }

    /// Decides what one invocation does, given its draw.
    pub fn decide(&self, draw: u32) -> (stall: Option<u64>)
        ensures
            stall == self.outcome(draw),
    {
        if draw < self.probability {
            Some(self.millis)
        } else {
            None
        }
    }
}

impl Default for Stutter {
    /// One stall of 16 ms in about fifty invocations.
    fn default() -> (made: Stutter)
        ensures
            made.chance() == DEFAULT_PROBABILITY,
            made.stall_millis() == DEFAULT_STALL_MILLIS,
    {
        Stutter { probability: DEFAULT_PROBABILITY, millis: DEFAULT_STALL_MILLIS }
    }
}

/// The draws on which `config` stalls.
pub open spec fn stalling_draws(config: Stutter) -> Set<int> {
    Set::new(
        |draw: int| 0 <= draw < PROBABILITY_ONE && config.outcome(draw as u32).is_some(),
    )
}

/// The stall rate is the probability: of the `PROBABILITY_ONE` draws, all
/// equally likely, the stage stalls on exactly as many as the configuration
/// counts. So it stalls on none with probability zero and on all with
/// probability one.
pub proof fn lemma_stall_rate(config: Stutter)
    requires
        config.chance() <= PROBABILITY_ONE,
    ensures
        stalling_draws(config).finite(),
        stalling_draws(config).len() == config.chance(),
{
    assert(stalling_draws(config) =~= set_int_range(0, config.chance() as int));
    lemma_int_range(0, config.chance() as int);
}

/// The default probability is the count that the single nearest to two
/// hundredths stands for.
pub proof fn lemma_default_probability()
    ensures
        single_chance(0x3ca3_d70a) == Some(DEFAULT_PROBABILITY),
{
    lemma2_to64();
    assert(single_exponent(0x3ca3_d70a) == 121);
    assert(single_fraction(0x3ca3_d70a) == 0x23_d70a);
    assert(single_down(0x3ca3_d70a) == 6);
    assert(divided_up(0xa3_d70a, 6) == 167_773);
}

/// A stutter attached to the render stage.
#[derive(Clone, Copy, Debug, PartialEq, Eq)]
pub struct RenderStutter(pub Stutter);

/// A stutter attached to the update stage.
#[derive(Clone, Copy, Debug, PartialEq, Eq)]
pub struct UpdateStutter(pub Stutter);

impl Default for RenderStutter {
    /// The default stutter, on the render stage.
    fn default() -> (made: RenderStutter)
        ensures
            made.0.chance() == DEFAULT_PROBABILITY,
            made.0.stall_millis() == DEFAULT_STALL_MILLIS,
    {
        RenderStutter(Stutter::default())
    }
}

impl Default for UpdateStutter {
    /// The default stutter, on the update stage.
    fn default() -> (made: UpdateStutter)
        ensures
            made.0.chance() == DEFAULT_PROBABILITY,
            made.0.stall_millis() == DEFAULT_STALL_MILLIS,
    {
        UpdateStutter(Stutter::default())
    }
}

/// The generator of `fastrand`, as a value that is handed through.
#[verifier::external_type_specification]
#[verifier::external_body]
pub struct ExRng(fastrand::Rng);

/// Calls `fastrand::Rng::u32` on the range `0..bound`. Trusted: the range is
/// not empty, so the call does not panic, and its result lies in the range.
/// Nothing else is claimed of the result: which value comes is up to the
/// generator.
#[verifier::external_body]
fn draw_from(rng: &fastrand::Rng, bound: u32) -> (draw: u32)
    requires
        bound > 0,
    ensures
        draw < bound,
{
    rng.u32(0..bound)
}

/// Calls `fastrand::u32`, which draws from the generator of the running
/// thread, on the range `0..bound`. Trusted: the range is not empty, so the
/// call does not panic, and its result lies in the range. Nothing else is
/// claimed of the result.
#[verifier::external_body]
fn draw_from_thread(bound: u32) -> (draw: u32)
    requires
        bound > 0,
    ensures
        draw < bound,
{
    fastrand::u32(0..bound)
}

/// Whether `stall` is what `config` does on some draw.
pub open spec fn may_come_of(config: Stutter, stall: Option<u64>) -> bool {
    exists|draw: u32| draw < PROBABILITY_ONE && stall == #[trigger] config.outcome(draw)
}

/// One invocation of the injector: takes one draw from `rng` and says for
/// how many milliseconds the calling stage has to stall, if at all. With
/// probability zero it never stalls; with probability one it always does.
pub fn maybe_stall(config: &Stutter, rng: &fastrand::Rng) -> (stall: Option<u64>)
    ensures
        may_come_of(*config, stall),
        config.chance() == 0 ==> stall.is_none(),
        config.chance() == PROBABILITY_ONE ==> stall == Some(config.stall_millis()),
{
    let draw: u32 = draw_from(rng, PROBABILITY_ONE);
    config.decide(draw)
}

/// One invocation of the injector on the generator of the running thread.
pub fn maybe_stall_on_thread(config: &Stutter) -> (stall: Option<u64>)
    ensures
        may_come_of(*config, stall),
        config.chance() == 0 ==> stall.is_none(),
        config.chance() == PROBABILITY_ONE ==> stall == Some(config.stall_millis()),
{
    let draw: u32 = draw_from_thread(PROBABILITY_ONE);
    config.decide(draw)
}

/// Invokes the injector once for each stutter attached to the update stage,
/// in order, and returns what each of them asks for.
pub fn update_stutter(stutters: &Vec<UpdateStutter>) -> (stalls: Vec<Option<u64>>)
    ensures
        stalls.len() == stutters.len(),
        forall|i: int| 0 <= i < stutters.len() ==> may_come_of(stutters[i].0, #[trigger] stalls[i]),
        forall|i: int|
            0 <= i < stutters.len() && stutters[i].0.chance() == 0 ==> (
            #[trigger] stalls[i]).is_none(),
        forall|i: int|
            0 <= i < stutters.len() && stutters[i].0.chance() == PROBABILITY_ONE
                ==> #[trigger] stalls[i] == Some(stutters[i].0.stall_millis()),
{
    let mut stalls: Vec<Option<u64>> = Vec::new();
    let mut at: usize = 0;
    while at < stutters.len()
        invariant
            at <= stutters.len(),
            stalls.len() == at,
            forall|i: int| 0 <= i < at ==> may_come_of(stutters[i].0, #[trigger] stalls[i]),
            forall|i: int|
                0 <= i < at && stutters[i].0.chance() == 0 ==> (#[trigger] stalls[i]).is_none(),
            forall|i: int|
                0 <= i < at && stutters[i].0.chance() == PROBABILITY_ONE ==> #[trigger] stalls[i]
                    == Some(stutters[i].0.stall_millis()),
        decreases stutters.len() - at,
    {
        let stall: Option<u64> = maybe_stall_on_thread(&stutters[at].0);
        stalls.push(stall);
        at = at + 1;
    }
    stalls
}

/// Invokes the injector once for each stutter attached to the render stage,
/// in order, and returns what each of them asks for.
pub fn render_stutter(stutters: &Vec<RenderStutter>) -> (stalls: Vec<Option<u64>>)
    ensures
        stalls.len() == stutters.len(),
        forall|i: int| 0 <= i < stutters.len() ==> may_come_of(stutters[i].0, #[trigger] stalls[i]),
        forall|i: int|
            0 <= i < stutters.len() && stutters[i].0.chance() == 0 ==> (
            #[trigger] stalls[i]).is_none(),
        forall|i: int|
            0 <= i < stutters.len() && stutters[i].0.chance() == PROBABILITY_ONE
                ==> #[trigger] stalls[i] == Some(stutters[i].0.stall_millis()),
{
    let mut stalls: Vec<Option<u64>> = Vec::new();
    let mut at: usize = 0;
    while at < stutters.len()
        invariant
            at <= stutters.len(),
            stalls.len() == at,
            forall|i: int| 0 <= i < at ==> may_come_of(stutters[i].0, #[trigger] stalls[i]),
            forall|i: int|
                0 <= i < at && stutters[i].0.chance() == 0 ==> (#[trigger] stalls[i]).is_none(),
            forall|i: int|
                0 <= i < at && stutters[i].0.chance() == PROBABILITY_ONE ==> #[trigger] stalls[i]
                    == Some(stutters[i].0.stall_millis()),
        decreases stutters.len() - at,
    {
        let stall: Option<u64> = maybe_stall_on_thread(&stutters[at].0);
        stalls.push(stall);
        at = at + 1;
    }
    stalls
}

} // verus!
