//! A fixed-step accumulator: it takes the time that has passed and says
//! whether its period has run out.

use vstd::prelude::*;

verus! {

/// What a cadence is, as plain mathematical values.
pub struct CadenceState {
    /// The time between two firings, in nanoseconds.
    pub period: nat,
    /// The time since the last firing, in nanoseconds.
    pub elapsed: nat,
}

impl CadenceState {
    /// The period is not empty and has not run out.
    pub open spec fn wf(self) -> bool {
        0 < self.period && self.elapsed < self.period
    }

    /// Whether the period runs out within the next `delta` nanoseconds.
    pub open spec fn due(self, delta: nat) -> bool {
        self.elapsed + delta >= self.period
    }

    /// The cadence after `delta` nanoseconds: the whole periods that have
    /// passed are taken off, the rest is kept.
    pub open spec fn tick(self, delta: nat) -> CadenceState {
        CadenceState { period: self.period, elapsed: (self.elapsed + delta) % self.period }
    }
}

/// A repeating timer with a fixed period.
#[derive(Debug)]
pub struct Cadence {
    period: u64,
    elapsed: u64,
}

impl View for Cadence {
    type V = CadenceState;

    closed spec fn view(&self) -> CadenceState {
        CadenceState { period: self.period as nat, elapsed: self.elapsed as nat }
    }
}

impl Cadence {
    #[verifier::type_invariant]
    spec fn running(self) -> bool {
        self@.wf()
    }

    /// A cadence that fires every `period` nanoseconds, with no time passed
    /// yet. A cadence without a period is refused.
    pub fn new(period: u64) -> (cadence: Option<Cadence>)
        ensures
            period == 0 ==> cadence.is_none(),
            period > 0 ==> cadence.is_some() && cadence.unwrap()@ == (CadenceState {
                period: period as nat,
                elapsed: 0,
            }),
    {
        if period == 0 {
            None
        } else {
            Some(Cadence { period, elapsed: 0 })
        }
    }

    /// The time between two firings, in nanoseconds.
    pub fn period(&self) -> (period: u64)
        ensures
            period == self@.period,
            period > 0,
    {
        proof {
            use_type_invariant(self);
        }
        self.period
    }

    /// The time since the last firing, in nanoseconds.
    pub fn elapsed(&self) -> (elapsed: u64)
        ensures
            elapsed == self@.elapsed,
            elapsed < self@.period,
    {
        proof {
            use_type_invariant(self);
        }
        self.elapsed
    }

    /// Lets `delta` nanoseconds pass, and says whether the period has run out
    /// in them. However many periods have run out, the cadence fires once.
    pub fn tick(&mut self, delta: u64) -> (due: bool)
        ensures
            due == old(self)@.due(delta as nat),
            final(self)@ == old(self)@.tick(delta as nat),
            final(self)@.wf(),
    {
        proof {
            use_type_invariant(&*self);
        }
        let total: u128 = self.elapsed as u128 + delta as u128;
        let period: u128 = self.period as u128;
        self.elapsed = (total % period) as u64;
        total >= period
    }
}

} // verus!
