//! The three-component damage accumulator: physical, magical and true damage,
//! each a non-negative amount in subunits.

use vstd::prelude::*;
use crate::fixed::DMG_LIMIT;

verus! {

#[derive(Clone, Copy, Debug)]
pub struct Damage {
    pub physical_component: i64,
    pub magical_component: i64,
    pub true_component: i64,
}

impl Damage {
    /// Every component non-negative and small enough that sums of a few
    /// accumulators cannot overflow.
    pub open spec fn wf(&self) -> bool {
        &&& 0 <= self.physical_component <= DMG_LIMIT
        &&& 0 <= self.magical_component <= DMG_LIMIT
        &&& 0 <= self.true_component <= DMG_LIMIT
    }

    pub fn new(physical_component: i64, magical_component: i64, true_component: i64) -> (r: Self)
        requires
            0 <= physical_component <= DMG_LIMIT,
            0 <= magical_component <= DMG_LIMIT,
            0 <= true_component <= DMG_LIMIT,
        ensures
            r == (Damage { physical_component, magical_component, true_component }),
            r.wf(),
    {
        Damage { physical_component, magical_component, true_component }
    }

    pub fn total(&self) -> (r: i64)
        requires
            self.wf(),
        ensures
            r == self.physical_component + self.magical_component + self.true_component,
    {
        self.physical_component + self.magical_component + self.true_component
    }

    pub fn add(self, rhs: Self) -> (r: Self)
        requires
            self.wf(),
            rhs.wf(),
            self.physical_component + rhs.physical_component <= DMG_LIMIT,
            self.magical_component + rhs.magical_component <= DMG_LIMIT,
            self.true_component + rhs.true_component <= DMG_LIMIT,
        ensures
            r.physical_component == self.physical_component + rhs.physical_component,
            r.magical_component == self.magical_component + rhs.magical_component,
            r.true_component == self.true_component + rhs.true_component,
            r.wf(),
    {
        Damage {
            physical_component: self.physical_component + rhs.physical_component,
            magical_component: self.magical_component + rhs.magical_component,
            true_component: self.true_component + rhs.true_component,
        }
    }

    pub fn add_assign(&mut self, rhs: Self)
        requires
            old(self).wf(),
            rhs.wf(),
            old(self).physical_component + rhs.physical_component <= DMG_LIMIT,
            old(self).magical_component + rhs.magical_component <= DMG_LIMIT,
            old(self).true_component + rhs.true_component <= DMG_LIMIT,
        ensures
            final(self).physical_component == old(self).physical_component
                + rhs.physical_component,
            final(self).magical_component == old(self).magical_component + rhs.magical_component,
            final(self).true_component == old(self).true_component + rhs.true_component,
            final(self).wf(),
    {
        self.physical_component = self.physical_component + rhs.physical_component;
        self.magical_component = self.magical_component + rhs.magical_component;
        self.true_component = self.true_component + rhs.true_component;
    }

    /// Component-wise sum, capped at the accumulator limit so that totals of
    /// arbitrarily many contributions stay well-formed.
    pub fn saturating_add(self, rhs: Self) -> (r: Self)
        requires
            self.wf(),
            rhs.wf(),
        ensures
            r.physical_component == if self.physical_component + rhs.physical_component
                <= DMG_LIMIT {
                self.physical_component + rhs.physical_component
            } else {
                DMG_LIMIT as int
            },
            r.magical_component == if self.magical_component + rhs.magical_component
                <= DMG_LIMIT {
                self.magical_component + rhs.magical_component
            } else {
                DMG_LIMIT as int
            },
            r.true_component == if self.true_component + rhs.true_component <= DMG_LIMIT {
                self.true_component + rhs.true_component
            } else {
                DMG_LIMIT as int
            },
            r.wf(),
    {
        Damage {
            physical_component: if self.physical_component <= DMG_LIMIT - rhs.physical_component {
                self.physical_component + rhs.physical_component
            } else {
                DMG_LIMIT
            },
            magical_component: if self.magical_component <= DMG_LIMIT - rhs.magical_component {
                self.magical_component + rhs.magical_component
            } else {
                DMG_LIMIT
            },
            true_component: if self.true_component <= DMG_LIMIT - rhs.true_component {
                self.true_component + rhs.true_component
            } else {
                DMG_LIMIT
            },
        }
    }

    pub fn reduce_physical_damage(&mut self, reduction: i64)
        requires
            old(self).wf(),
            0 <= reduction <= old(self).physical_component,
        ensures
            *final(self) == (Damage {
                physical_component: (old(self).physical_component - reduction) as i64,
                ..*old(self)
            }),
            final(self).wf(),
    {
        self.physical_component = self.physical_component - reduction;
    }

    pub fn reduce_magical_damage(&mut self, reduction: i64)
        requires
            old(self).wf(),
            0 <= reduction <= old(self).magical_component,
        ensures
            *final(self) == (Damage {
                magical_component: (old(self).magical_component - reduction) as i64,
                ..*old(self)
            }),
            final(self).wf(),
    {
        self.magical_component = self.magical_component - reduction;
    }

    pub fn reduce_true_damage(&mut self, reduction: i64)
        requires
            old(self).wf(),
            0 <= reduction <= old(self).true_component,
        ensures
            *final(self) == (Damage {
                true_component: (old(self).true_component - reduction) as i64,
                ..*old(self)
            }),
            final(self).wf(),
    {
        self.true_component = self.true_component - reduction;
    }
}

} // verus!
