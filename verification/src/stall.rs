//! A stall in progress. The stage that stalls spins on the clock; this
//! module decides, reading by reading, whether it has to go on spinning.

use vstd::prelude::*;
use crate::stutter::Stutter;
use crate::ticks::TICKS_PER_MILLI;

verus! {

/// A stall that began at the clock reading `started` and lasts `length`,
/// both in ticks.
#[derive(Clone, Copy, Debug, PartialEq, Eq)]
pub struct Stall {
    /// The clock reading at which the stall began.
    pub started: u64,
    /// How long the stall lasts.
    pub length: u64,
}

impl Stall {
    /// Whether the stage is still held at the clock reading `now`: as long
    /// as less than the stall's length has passed since it began. A clock
    /// that reads less than it did at the start holds the stage too.
    pub open spec fn holds_at(self, now: u64) -> bool {
        now - self.started < self.length
    }

    /// Begins the stall that `config` asks for, at the clock reading `now`.
    pub fn begin(config: &Stutter, now: u64) -> (stall: Stall)
        ensures
            stall.started == now,
            stall.length == config.stall_millis() * TICKS_PER_MILLI,
    {
        Stall { started: now, length: config.stall_ticks() }
    }

    /// Tells whether the stage has to go on spinning at the clock reading
    /// `now`.
    pub fn busy(&self, now: u64) -> (held: bool)
        ensures
            held == self.holds_at(now),
    {
        if now < self.started {
            true
        } else {
            now - self.started < self.length
        }
    }
}

/// Once a stall has run out it stays run out, as long as the clock does not
/// go back.
pub proof fn lemma_stall_stays_over(stall: Stall, earlier: u64, later: u64)
    requires
        earlier <= later,
        !stall.holds_at(earlier),
    ensures
        !stall.holds_at(later),
{
}

/// A stall holds the stage for exactly its length: it is over at the first
/// reading that is its length past the start, and at none before.
pub proof fn lemma_stall_lasts_its_length(stall: Stall, now: u64)
    requires
        now >= stall.started,
    ensures
        stall.holds_at(now) <==> now < stall.started + stall.length,
{
}

} // verus!
