//! On-hit effects: limited-use flat damage, stacking damage, and
//! damage-over-time, each identified by a string key. All timers count
//! simulation ticks; all damage amounts are subunits.

use vstd::prelude::*;
use crate::fixed::{STAT_LIMIT, TIME_LIMIT};

verus! {

#[derive(Clone, Copy, Debug, PartialEq, Eq, Structural)]
pub enum DamageType {
    Physical,
    Magical,
    True,
}

#[derive(Clone, Copy, Debug, PartialEq, Eq, Structural)]
pub enum EffectTickRate {
    PerSecond,
    PerHalfSecond,
    PerQuarterSecond,
    PerHalfQuarterSecond,
}

impl EffectTickRate {
    /// The tick period of this rate, in simulation ticks.
    pub open spec fn spec_value(&self) -> i32 {
        match self {
            EffectTickRate::PerSecond => 30,
            EffectTickRate::PerHalfSecond => 15,
            EffectTickRate::PerQuarterSecond => 8,
            EffectTickRate::PerHalfQuarterSecond => 4,
        }
    }

    #[verifier::when_used_as_spec(spec_value)]
    pub fn value(&self) -> (r: i32)
        ensures
            r == self.spec_value(),
            0 < r <= 30,
    {
        match self {
            EffectTickRate::PerSecond => 30,
            EffectTickRate::PerHalfSecond => 15,
            EffectTickRate::PerQuarterSecond => 8,
            EffectTickRate::PerHalfQuarterSecond => 4,
        }
    }
}

#[derive(Clone, Debug)]
pub struct DoTEffect {
    pub id: String,
    pub damage_over_time: i64,
    pub damage_type: DamageType,
    pub damage_time_left: i64,
    pub tick_rate: EffectTickRate,
    pub effect_time_left: i64,
    pub finite_time_left: bool,
}

#[derive(Clone, Debug)]
pub struct LimitedUseOnHitEffect {
    pub id: String,
    pub damage: i64,
    pub damage_type: DamageType,
    pub num_uses: i64,
    pub effect_time_left: i64,
    pub finite_time_left: bool,
}

#[derive(Clone, Debug)]
pub struct StackingOnHitEffect {
    pub id: String,
    pub damage_over_time: i64,
    pub damage_type: DamageType,
    pub damage_time_left: i64,
    pub max_stacks: i64,
    pub current_stacks: i64,
    pub effect_time_left: i64,
    pub finite_time_left: bool,
}

impl DoTEffect {
    pub open spec fn wf(&self) -> bool {
        &&& 0 <= self.damage_over_time <= STAT_LIMIT
        &&& 0 <= self.damage_time_left <= TIME_LIMIT
        &&& 0 <= self.effect_time_left <= TIME_LIMIT
    }

    pub fn new(
        id: &str,
        damage_over_time: i64,
        damage_type: DamageType,
        damage_time_left: i64,
        tick_rate: EffectTickRate,
        effect_time_left: i64,
        finite_time_left: bool,
    ) -> (r: Self)
        requires
            0 <= damage_over_time <= STAT_LIMIT,
            0 <= damage_time_left <= TIME_LIMIT,
            0 <= effect_time_left <= TIME_LIMIT,
        ensures
            r.id@ == id@,
            r.damage_over_time == damage_over_time,
            r.damage_type == damage_type,
            r.damage_time_left == damage_time_left,
            r.tick_rate == tick_rate,
            r.effect_time_left == effect_time_left,
            r.finite_time_left == finite_time_left,
            r.wf(),
    {
        DoTEffect {
            id: id.to_owned(),
            damage_over_time,
            damage_type,
            damage_time_left,
            tick_rate,
            effect_time_left,
            finite_time_left,
        }
    }

    /// A field-for-field copy whose value Verus can track, unlike the derived
    /// `clone`.
    pub fn duplicate(&self) -> (r: Self)
        ensures
            r == *self,
    {
        DoTEffect {
            id: self.id.clone(),
            damage_over_time: self.damage_over_time,
            damage_type: self.damage_type,
            damage_time_left: self.damage_time_left,
            tick_rate: self.tick_rate,
            effect_time_left: self.effect_time_left,
            finite_time_left: self.finite_time_left,
        }
    }

    pub fn set_time_left(&mut self, time_left: i64)
        requires
            0 <= time_left <= TIME_LIMIT,
        ensures
            *final(self) == (DoTEffect { damage_time_left: time_left, ..*old(self) }),
    {
        self.damage_time_left = time_left;
    }

    pub fn set_effect_time_left(&mut self, time_left: i64)
        requires
            0 <= time_left <= TIME_LIMIT,
        ensures
            *final(self) == (DoTEffect { effect_time_left: time_left, ..*old(self) }),
    {
        self.effect_time_left = time_left;
    }

    pub fn reduce_effect_time_left(&mut self, time: i64)
        requires
            time >= 0,
            old(self).effect_time_left >= 0,
        ensures
            *final(self) == (DoTEffect {
                effect_time_left: if time <= old(self).effect_time_left {
                    (old(self).effect_time_left - time) as i64
                } else {
                    0
                },
                ..*old(self)
            }),
    {
        if time <= self.effect_time_left {
            self.effect_time_left = self.effect_time_left - time;
        } else {
            self.effect_time_left = 0;
        }
    }

    pub fn reduce_time_left(&mut self, time: i64)
        requires
            time >= 0,
            old(self).damage_time_left >= 0,
        ensures
            *final(self) == (DoTEffect {
                damage_time_left: if time <= old(self).damage_time_left {
                    (old(self).damage_time_left - time) as i64
                } else {
                    0
                },
                ..*old(self)
            }),
    {
        if time <= self.damage_time_left {
            self.damage_time_left = self.damage_time_left - time;
        } else {
            self.damage_time_left = 0;
        }
    }
}

impl LimitedUseOnHitEffect {
    pub open spec fn wf(&self) -> bool {
        &&& 0 <= self.damage <= STAT_LIMIT
        &&& 0 <= self.num_uses
        &&& 0 <= self.effect_time_left <= TIME_LIMIT
    }

    pub fn new(
        id: &str,
        damage: i64,
        damage_type: DamageType,
        num_uses: i64,
        effect_time_left: i64,
        finite_time_left: bool,
    ) -> (r: Self)
        requires
            0 <= damage <= STAT_LIMIT,
            0 <= num_uses,
            0 <= effect_time_left <= TIME_LIMIT,
        ensures
            r.id@ == id@,
            r.damage == damage,
            r.damage_type == damage_type,
            r.num_uses == num_uses,
            r.effect_time_left == effect_time_left,
            r.finite_time_left == finite_time_left,
            r.wf(),
    {
        LimitedUseOnHitEffect { id: id.to_owned(), damage, damage_type, num_uses, effect_time_left, finite_time_left }
    }

    /// A field-for-field copy whose value Verus can track, unlike the derived
    /// `clone`.
    pub fn duplicate(&self) -> (r: Self)
        ensures
            r == *self,
    {
        LimitedUseOnHitEffect {
            id: self.id.clone(),
            damage: self.damage,
            damage_type: self.damage_type,
            num_uses: self.num_uses,
            effect_time_left: self.effect_time_left,
            finite_time_left: self.finite_time_left,
        }
    }

    /// Spends one use; an effect already at zero uses stays at zero.
    pub fn reduce_num_uses(&mut self)
        requires
            old(self).num_uses >= 0,
        ensures
            *final(self) == (LimitedUseOnHitEffect {
                num_uses: if old(self).num_uses > 0 {
                    (old(self).num_uses - 1) as i64
                } else {
                    0
                },
                ..*old(self)
            }),
    {
        if self.num_uses > 0 {
            self.num_uses = self.num_uses - 1;
        }
    }

    pub fn set_effect_time_left(&mut self, time_left: i64)
        requires
            0 <= time_left <= TIME_LIMIT,
        ensures
            *final(self) == (LimitedUseOnHitEffect { effect_time_left: time_left, ..*old(self) }),
    {
        self.effect_time_left = time_left;
    }

    pub fn reduce_effect_time_left(&mut self, time: i64)
        requires
            time >= 0,
            old(self).effect_time_left >= 0,
        ensures
            *final(self) == (LimitedUseOnHitEffect {
                effect_time_left: if time <= old(self).effect_time_left {
                    (old(self).effect_time_left - time) as i64
                } else {
                    0
                },
                ..*old(self)
            }),
    {
        if time <= self.effect_time_left {
            self.effect_time_left = self.effect_time_left - time;
        } else {
            self.effect_time_left = 0;
        }
    }
}

impl StackingOnHitEffect {
    pub open spec fn wf(&self) -> bool {
        &&& 0 <= self.damage_over_time <= STAT_LIMIT
        &&& 0 <= self.damage_time_left <= TIME_LIMIT
        &&& 0 <= self.effect_time_left <= TIME_LIMIT
        &&& 1 <= self.max_stacks
        &&& 0 <= self.current_stacks <= self.max_stacks
    }

    pub fn new(
        id: &str,
        damage_over_time: i64,
        damage_type: DamageType,
        max_stacks: i64,
        damage_time_left: i64,
        effect_time_left: i64,
        finite_time_left: bool,
    ) -> (r: Self)
        requires
            0 <= damage_over_time <= STAT_LIMIT,
            1 <= max_stacks,
            0 <= damage_time_left <= TIME_LIMIT,
            0 <= effect_time_left <= TIME_LIMIT,
        ensures
            r.id@ == id@,
            r.damage_over_time == damage_over_time,
            r.damage_type == damage_type,
            r.max_stacks == max_stacks,
            r.current_stacks == 0,
            r.damage_time_left == damage_time_left,
            r.effect_time_left == effect_time_left,
            r.finite_time_left == finite_time_left,
            r.wf(),
    {
        StackingOnHitEffect {
            id: id.to_owned(),
            damage_over_time,
            damage_type,
            max_stacks,
            current_stacks: 0,
            damage_time_left,
            effect_time_left,
            finite_time_left,
        }
    }

    /// A field-for-field copy whose value Verus can track, unlike the derived
    /// `clone`.
    pub fn duplicate(&self) -> (r: Self)
        ensures
            r == *self,
    {
        StackingOnHitEffect {
            id: self.id.clone(),
            damage_over_time: self.damage_over_time,
            damage_type: self.damage_type,
            damage_time_left: self.damage_time_left,
            max_stacks: self.max_stacks,
            current_stacks: self.current_stacks,
            effect_time_left: self.effect_time_left,
            finite_time_left: self.finite_time_left,
        }
    }

    pub fn set_current_stacks(&mut self, current_stacks: i64)
        requires
            0 <= current_stacks <= old(self).max_stacks,
        ensures
            *final(self) == (StackingOnHitEffect { current_stacks, ..*old(self) }),
    {
        self.current_stacks = current_stacks;
    }

    pub fn set_time_left(&mut self, time_left: i64)
        requires
            0 <= time_left <= TIME_LIMIT,
        ensures
            *final(self) == (StackingOnHitEffect { damage_time_left: time_left, ..*old(self) }),
    {
        self.damage_time_left = time_left;
    }

    pub fn reduce_damage_time_left(&mut self, time: i64)
        requires
            time >= 0,
            old(self).damage_time_left >= 0,
        ensures
            *final(self) == (StackingOnHitEffect {
                damage_time_left: if time <= old(self).damage_time_left {
                    (old(self).damage_time_left - time) as i64
                } else {
                    0
                },
                ..*old(self)
            }),
    {
        if time <= self.damage_time_left {
            self.damage_time_left = self.damage_time_left - time;
        } else {
            self.damage_time_left = 0;
        }
    }

    pub fn set_effect_time_left(&mut self, time_left: i64)
        requires
            0 <= time_left <= TIME_LIMIT,
        ensures
            *final(self) == (StackingOnHitEffect { effect_time_left: time_left, ..*old(self) }),
    {
        self.effect_time_left = time_left;
    }

    pub fn reduce_effect_time_left(&mut self, time: i64)
        requires
            time >= 0,
            old(self).effect_time_left >= 0,
        ensures
            *final(self) == (StackingOnHitEffect {
                effect_time_left: if time <= old(self).effect_time_left {
                    (old(self).effect_time_left - time) as i64
                } else {
                    0
                },
                ..*old(self)
            }),
    {
        if time <= self.effect_time_left {
            self.effect_time_left = self.effect_time_left - time;
        } else {
            self.effect_time_left = 0;
        }
    }

    /// Removes one stack; a stack count already at zero stays at zero.
    pub fn reduce_current_stacks(&mut self)
        requires
            old(self).current_stacks >= 0,
        ensures
            *final(self) == (StackingOnHitEffect {
                current_stacks: if old(self).current_stacks > 0 {
                    (old(self).current_stacks - 1) as i64
                } else {
                    0
                },
                ..*old(self)
            }),
    {
        if self.current_stacks > 0 {
            self.current_stacks = self.current_stacks - 1;
        }
    }
}

/// Effects are identified by their key alone: two effects are the same effect
/// when their ids agree.
impl PartialEq for DoTEffect {
    fn eq(&self, other: &Self) -> (r: bool) {
        self.id == other.id
    }
}

impl vstd::std_specs::cmp::PartialEqSpecImpl for DoTEffect {
    open spec fn obeys_eq_spec() -> bool {
        true
    }

    open spec fn eq_spec(&self, other: &Self) -> bool {
        self.id@ == other.id@
    }
}

/// Effects are identified by their key alone: two effects are the same effect
/// when their ids agree.
impl PartialEq for LimitedUseOnHitEffect {
    fn eq(&self, other: &Self) -> (r: bool) {
        self.id == other.id
    }
}

impl vstd::std_specs::cmp::PartialEqSpecImpl for LimitedUseOnHitEffect {
    open spec fn obeys_eq_spec() -> bool {
        true
    }

    open spec fn eq_spec(&self, other: &Self) -> bool {
        self.id@ == other.id@
    }
}

/// Effects are identified by their key alone: two effects are the same effect
/// when their ids agree.
impl PartialEq for StackingOnHitEffect {
    fn eq(&self, other: &Self) -> (r: bool) {
        self.id == other.id
    }
}

impl vstd::std_specs::cmp::PartialEqSpecImpl for StackingOnHitEffect {
    open spec fn obeys_eq_spec() -> bool {
        true
    }

    open spec fn eq_spec(&self, other: &Self) -> bool {
        self.id@ == other.id@
    }
}

} // verus!
