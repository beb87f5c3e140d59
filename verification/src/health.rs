//! Damage pool attached to every damageable entity.
//!
//! Damage application is saturating: hit points never go below zero, and
//! they never exceed the pool's maximum.

use vstd::prelude::*;

verus! {

/// Coarse liveness flag carried next to the hit-point pool.
#[derive(Clone, Copy, Debug, PartialEq, Eq, Structural)]
pub enum HealthState {
    Alive,
    Dead,
}

impl Default for HealthState {
    fn default() -> (r: Self)
        ensures
            r == HealthState::Alive,
    {
        HealthState::Alive
    }
}

/// Current and maximum hit points, both non-negative integers.
#[derive(Clone, Copy, Debug, PartialEq, Eq, Structural)]
pub struct Health {
    pub current: u32,
    pub max: u32,
    pub state: HealthState,
}

impl Health {
    /// Well-formed: the pool never holds more than its maximum.
    pub open spec fn wf(self) -> bool {
        self.current <= self.max
    }

    /// What saturating damage leaves behind: `max(0, current - d)`.
    pub open spec fn spec_after_damage(self, d: u32) -> u32 {
        if d >= self.current {
            0u32
        } else {
            (self.current - d) as u32
        }
    }

    /// A full pool of `value` hit points.
    pub fn new(value: u32) -> (r: Self)
        ensures
            r.current == value,
            r.max == value,
            r.state == HealthState::Alive,
            r.wf(),
    {
        Health { current: value, max: value, state: HealthState::Alive }
    }

    /// Subtract `d` hit points, saturating at zero; the maximum is untouched,
    /// so a well-formed pool stays well-formed.
    pub fn apply_damage(&mut self, d: u32)
        ensures
            final(self).current == old(self).spec_after_damage(d),
            final(self).max == old(self).max,
            final(self).state == old(self).state,
            old(self).wf() ==> final(self).wf(),
    {
        self.current = if d >= self.current {
            0
        } else {
            self.current - d
        };
    }

    /// The pool is exhausted.
    pub fn depleted(&self) -> (r: bool)
        ensures
            r == (self.current == 0),
    {
        self.current == 0
    }
}

impl Default for Health {
    fn default() -> (r: Self)
        ensures
            r.current == 0,
            r.max == 0,
            r.state == HealthState::Alive,
            r.wf(),
    {
        Health { current: 0, max: 0, state: HealthState::Alive }
    }
}

impl From<u32> for Health {
    /// A pool initialized to `value` out of `value` hit points.
    fn from(value: u32) -> (r: Self) {
        Health::new(value)
    }
}

impl vstd::std_specs::convert::FromSpecImpl<u32> for Health {
    open spec fn obeys_from_spec() -> bool {
        true
    }

    open spec fn from_spec(value: u32) -> Self {
        Health { current: value, max: value, state: HealthState::Alive }
    }
}

} // verus!
